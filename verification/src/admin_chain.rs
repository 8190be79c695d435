use vstd::prelude::*;

use crate::assignment::{admin_assignment_of, not_admin_message, Assignment};

verus! {

/// Where a walk up a chain of administrator assignments stands. It starts
/// at an agent that must be an administrator, and follows, from each agent
/// that is no initial administrator, the first assignment of the
/// administrator role to it, to that assignment's issuer; once it reaches an
/// initial administrator, it commits the assignments found, the last found
/// first. `pending` holds the assignments found so far, in the order found.
pub enum AdminWalk {
    /// Waiting to learn whether `admin` is an initial administrator.
    CheckingInitialAdmin { admin: String, pending: Vec<Assignment> },
    /// Waiting for the address of the administrator role.
    AwaitingAdminRoleAddress { admin: String, pending: Vec<Assignment> },
    /// Waiting for the assignments linked from `admin`.
    AwaitingAssignments { admin: String, admin_role_address: String, pending: Vec<Assignment> },
    /// Committing the found assignments; the last of `pending` is next.
    Committing { pending: Vec<Assignment> },
    /// The walk is over.
    Finished,
}

/// What the outside world answers to the last action of a walk.
pub enum AdminWalkEvent {
    /// Whether the agent is an initial administrator, or the error met.
    InitialAdmin(Result<bool, String>),
    /// The address of the administrator role, or the error met.
    AdminRoleAddress(Result<String, String>),
    /// The assignments linked from the agent, or the error met.
    Assignments(Result<Vec<Assignment>, String>),
    /// Whether committing the assignment succeeded.
    Committed(Result<(), String>),
}

/// What a walk asks of the outside world next.
pub enum AdminWalkAction {
    /// Find out whether this agent is an initial administrator.
    CheckInitialAdmin(String),
    /// Find out the address of the administrator role.
    ComputeAdminRoleAddress,
    /// Load the assignments linked from this agent.
    LoadAssignments(String),
    /// Commit this assignment.
    Commit(Assignment),
    /// The walk ended with this result.
    Done(Result<(), String>),
}

/// The event answers the action the walk is waiting on.
pub open spec fn answers(state: AdminWalk, event: AdminWalkEvent) -> bool {
    match state {
        AdminWalk::CheckingInitialAdmin { .. } => event is InitialAdmin,
        AdminWalk::AwaitingAdminRoleAddress { .. } => event is AdminRoleAddress,
        AdminWalk::AwaitingAssignments { .. } => event is Assignments,
        AdminWalk::Committing { .. } => event is Committed,
        AdminWalk::Finished => false,
    }
}

/// The walk commits the last of `pending` next, or is done where nothing is
/// pending.
pub open spec fn commits_next(pending: Seq<Assignment>, next: (AdminWalk, AdminWalkAction)) -> bool {
    if pending.len() == 0 {
        next.0 is Finished && next.1 == AdminWalkAction::Done(Ok(()))
    } else {
        &&& next.0 matches AdminWalk::Committing { pending: rest } && rest@ == pending.drop_last()
        &&& next.1 == AdminWalkAction::Commit(pending.last())
    }
}

/// The walk ends with the error `e`.
pub open spec fn fails_with(e: Seq<char>, next: (AdminWalk, AdminWalkAction)) -> bool {
    &&& next.0 is Finished
    &&& next.1 matches AdminWalkAction::Done(Err(m)) && m@ == e
}

/// Commits the last pending assignment next, if any.
fn commit_next(pending: Vec<Assignment>) -> (next: (AdminWalk, AdminWalkAction))
    ensures
        commits_next(pending@, next),
{
    let mut pending = pending;
    match pending.pop() {
        Some(a) => (AdminWalk::Committing { pending }, AdminWalkAction::Commit(a)),
        None => (AdminWalk::Finished, AdminWalkAction::Done(Ok(()))),
    }
}

/// Starts the walk that commits the administrator assignments making the
/// agent at `admin_address` an administrator.
pub fn start_commit_admin_assignments(admin_address: String) -> (next: (AdminWalk, AdminWalkAction))
    ensures
        next.0 matches AdminWalk::CheckingInitialAdmin { admin, pending } && admin == admin_address
            && pending@.len() == 0,
        next.1 == AdminWalkAction::CheckInitialAdmin(admin_address),
{
    (
        AdminWalk::CheckingInitialAdmin { admin: admin_address.clone(), pending: Vec::new() },
        AdminWalkAction::CheckInitialAdmin(admin_address),
    )
}

/// One step of the walk: from `state`, on `event`, the walk goes to
/// `next.0` and asks `next.1`.
pub open spec fn walk_step(
    state: AdminWalk,
    event: AdminWalkEvent,
    next: (AdminWalk, AdminWalkAction),
) -> bool {
    match (state, event) {
        (
            AdminWalk::CheckingInitialAdmin { admin, pending },
            AdminWalkEvent::InitialAdmin(r),
        ) => match r {
            Err(e) => fails_with(e@, next),
            Ok(true) => commits_next(pending@, next),
            Ok(false) => next == (
                AdminWalk::AwaitingAdminRoleAddress { admin, pending },
                AdminWalkAction::ComputeAdminRoleAddress,
            ),
        },
        (
            AdminWalk::AwaitingAdminRoleAddress { admin, pending },
            AdminWalkEvent::AdminRoleAddress(r),
        ) => match r {
            Err(e) => fails_with(e@, next),
            Ok(role) => next == (
                AdminWalk::AwaitingAssignments { admin, admin_role_address: role, pending },
                AdminWalkAction::LoadAssignments(admin),
            ),
        },
        (
            AdminWalk::AwaitingAssignments { admin, admin_role_address, pending },
            AdminWalkEvent::Assignments(r),
        ) => match r {
            Err(e) => fails_with(e@, next),
            Ok(list) => if exists|i: int|
                0 <= i < list@.len() && #[trigger] list@[i].agent_address@ == admin@
                    && list@[i].role_address@ == admin_role_address@ {
                exists|i: int|
                    {
                        &&& 0 <= i < list@.len()
                        &&& #[trigger] list@[i].agent_address@ == admin@
                        &&& list@[i].role_address@ == admin_role_address@
                        &&& forall|j: int|
                            0 <= j < i ==> !(#[trigger] list@[j].agent_address@ == admin@
                                && list@[j].role_address@ == admin_role_address@)
                        &&& next.0 matches AdminWalk::CheckingInitialAdmin {
                            admin: issuer,
                            pending: found,
                        } && issuer == list@[i].admin_address && found@ == pending@.push(
                            list@[i],
                        )
                        &&& next.1 == AdminWalkAction::CheckInitialAdmin(list@[i].admin_address)
                    }
            } else {
                fails_with(not_admin_message(admin@), next)
            },
        },
        (AdminWalk::Committing { pending }, AdminWalkEvent::Committed(r)) => match r {
            Err(e) => fails_with(e@, next),
            Ok(()) => commits_next(pending@, next),
        },
        _ => false,
    }
}

/// One step of the walk: from where it stands and what the outside world
/// answered, where it stands next and what it asks next. Errors end the
/// walk with that error; an agent that is no initial administrator and
/// holds no administrator assignment ends it with an error naming it.
pub fn commit_admin_assignments(state: AdminWalk, event: AdminWalkEvent) -> (next: (
    AdminWalk,
    AdminWalkAction,
))
    requires
        answers(state, event),
    ensures
        walk_step(state, event, next),
{
    match (state, event) {
        (AdminWalk::CheckingInitialAdmin { admin, pending }, AdminWalkEvent::InitialAdmin(r)) => {
            match r {
                Err(e) => (AdminWalk::Finished, AdminWalkAction::Done(Err(e))),
                Ok(true) => commit_next(pending),
                Ok(false) => (
                    AdminWalk::AwaitingAdminRoleAddress { admin, pending },
                    AdminWalkAction::ComputeAdminRoleAddress,
                ),
            }
        },
        (
            AdminWalk::AwaitingAdminRoleAddress { admin, pending },
            AdminWalkEvent::AdminRoleAddress(r),
        ) => {
            match r {
                Err(e) => (AdminWalk::Finished, AdminWalkAction::Done(Err(e))),
                Ok(role) => {
                    let action = AdminWalkAction::LoadAssignments(admin.clone());
                    (AdminWalk::AwaitingAssignments { admin, admin_role_address: role, pending }, action)
                },
            }
        },
        (
            AdminWalk::AwaitingAssignments { admin, admin_role_address, pending },
            AdminWalkEvent::Assignments(r),
        ) => {
            match r {
                Err(e) => (AdminWalk::Finished, AdminWalkAction::Done(Err(e))),
                Ok(list) => {
                    match admin_assignment_of(&admin, &admin_role_address, &list) {
                        Ok(a) => {
                            let issuer = a.admin_address.clone();
                            let mut pending = pending;
                            pending.push(a);
                            (
                                AdminWalk::CheckingInitialAdmin { admin: issuer.clone(), pending },
                                AdminWalkAction::CheckInitialAdmin(issuer),
                            )
                        },
                        Err(m) => (AdminWalk::Finished, AdminWalkAction::Done(Err(m))),
                    }
                },
            }
        },
        (AdminWalk::Committing { pending }, AdminWalkEvent::Committed(r)) => {
            match r {
                Err(e) => (AdminWalk::Finished, AdminWalkAction::Done(Err(e))),
                Ok(()) => commit_next(pending),
            }
        },
        _ => (AdminWalk::Finished, AdminWalkAction::Done(Ok(()))),
    }
}

} // verus!
