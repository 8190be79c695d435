use vstd::prelude::*;

use crate::chain::{find_entry_with_address, lookup_from, Lookup};
use crate::constants::{AGENT_ASSIGNMENT_LINK_TYPE, AGENT_ID_TYPE, ASSIGNMENT_TYPE, ROLE_TYPE};
use crate::definition::{
    link, EntryDefinition, EntryValidationData, LinkDirection, LinkValidationData, Sharing,
    ValidationPackageDefinition,
};
use crate::role::Role;
use crate::text::{contains_string, view_err};
use crate::validation::{admin_status, is_agent_admin, AdminContext};

verus! {

/// The assignment of the role at `role_address` to the agent at
/// `agent_address`, issued by the administrator at `admin_address`.
pub struct Assignment {
    pub role_address: String,
    pub agent_address: String,
    pub admin_address: String,
    /// JSON text attached to the assignment, if any.
    pub metadata: Option<String>,
}

impl Assignment {
    /// An assignment without metadata.
    pub fn from(role_address: &String, agent_address: &String, admin_address: &String) -> (a:
        Assignment)
        ensures
            a.role_address == role_address,
            a.agent_address == agent_address,
            a.admin_address == admin_address,
            a.metadata is None,
    {
        Assignment {
            role_address: role_address.clone(),
            agent_address: agent_address.clone(),
            admin_address: admin_address.clone(),
            metadata: None,
        }
    }
}

/// The definition of the role assignment entry type: public, validated with
/// the author's chain entries, and linked from the assigned agent.
pub fn assignment_entry_definition() -> (d: EntryDefinition)
    ensures
        d.name@ == ASSIGNMENT_TYPE@,
        d.description@
            == "Anchors are used as the base for links so linked entries can be found with a text search."@,
        d.sharing == Sharing::Public,
        d.validation_package == ValidationPackageDefinition::ChainEntries,
        d.links@.len() == 1,
        d.links@[0].direction == LinkDirection::From,
        d.links@[0].other_type@ == AGENT_ID_TYPE@,
        d.links@[0].link_type@ == AGENT_ASSIGNMENT_LINK_TYPE@,
        d.links@[0].validation_package == ValidationPackageDefinition::Entry,
{
    let mut links = Vec::new();
    links.push(
        link(
            LinkDirection::From,
            AGENT_ID_TYPE,
            AGENT_ASSIGNMENT_LINK_TYPE,
            ValidationPackageDefinition::Entry,
        ),
    );
    EntryDefinition {
        name: ASSIGNMENT_TYPE.to_string(),
        description: "Anchors are used as the base for links so linked entries can be found with a text search.".to_string(),
        sharing: Sharing::Public,
        validation_package: ValidationPackageDefinition::ChainEntries,
        links,
    }
}

/// Every operation on a link from an agent to its assignments is accepted.
pub fn validate_assignment_link(validation: &LinkValidationData) -> (r: Result<(), String>)
    ensures
        r is Ok,
{
    Ok(())
}

/// Validation of this assignment goes as far as reading the author's source
/// chain: the assignment is signed by its admin, the administrator role's
/// address is known, and it is no administrator assignment with metadata.
pub open spec fn reaches_chain(entry: Assignment, sources: Seq<Seq<char>>, ctx: AdminContext) -> bool {
    &&& sources.contains(entry.admin_address@)
    &&& ctx.admin_role_address is Ok
    &&& !(entry.role_address@ == ctx.admin_role_address->Ok_0@ && entry.metadata is Some)
}

/// Validation of an assignment would read the author's source chain and it
/// was not sent.
pub open spec fn assignment_chain_missing(validation: EntryValidationData<Assignment>, ctx: AdminContext) -> bool {
    validation matches EntryValidationData::Create { entry, validation_data } && reaches_chain(
        entry,
        validation_data.sources.deep_view(),
        ctx,
    ) && validation_data.source_chain_entries is None
}

/// Which operations on role assignments are accepted, with the message of
/// the first rule broken: an assignment is created only when signed by its
/// issuing admin; an administrator assignment carries no metadata; the
/// assigned role's entry is on the author's chain; the issuing admin is an
/// administrator. Assignments are never modified or deleted.
pub open spec fn assignment_validation(
    validation: EntryValidationData<Assignment>,
    ctx: AdminContext,
) -> Result<(), Seq<char>> {
    match validation {
        EntryValidationData::Create { entry, validation_data } => {
            if !validation_data.sources.deep_view().contains(entry.admin_address@) {
                Err("Assignment must be signed by its issuing admin"@)
            } else {
                match ctx.admin_role_address {
                    Err(e) => Err(e@),
                    Ok(admin_role) => if entry.role_address@ == admin_role@
                        && entry.metadata is Some {
                        Err("Cannot put metadata in an administrator assignment"@)
                    } else {
                        let chain = validation_data.source_chain_entries->0;
                        match lookup_from(chain.roles@, 0, ROLE_TYPE@, entry.role_address@) {
                            Lookup::Failed(e) => Err(e),
                            Lookup::Missing => Err(
                                "The role entry should always accompany the assignment entry"@,
                            ),
                            Lookup::Found(_) => match admin_status(
                                entry.admin_address@,
                                ctx,
                                chain.assignments@,
                            ) {
                                Err(e) => Err(e),
                                Ok(true) => Ok(()),
                                Ok(false) => Err("Only admins can create roles"@),
                            },
                        }
                    },
                }
            }
        },
        _ => Err("Cannot modify or delete role assignments"@),
    }
}

/// Validates an operation on a role assignment entry.
pub fn validate_assignment_entry(
    validation: &EntryValidationData<Assignment>,
    ctx: &AdminContext,
) -> (r: Result<(), String>)
    requires
        !assignment_chain_missing(*validation, *ctx),
    ensures
        view_err(r) == assignment_validation(*validation, *ctx),
{
    match validation {
        EntryValidationData::Create { validation_data, entry } => {
            if !contains_string(&validation_data.sources, &entry.admin_address) {
                return Err("Assignment must be signed by its issuing admin".to_string());
            }
            let admin_role_address = match &ctx.admin_role_address {
                Err(e) => {
                    return Err(e.clone());
                },
                Ok(a) => a,
            };
            if entry.role_address == *admin_role_address {
                if let Some(_) = entry.metadata {
                    return Err("Cannot put metadata in an administrator assignment".to_string());
                }
            }
            let chain_entries = match &validation_data.source_chain_entries {
                Some(chain) => chain,
                None => {
                    return Ok(());
                },
            };
            let role: Option<&Role> = match find_entry_with_address(
                &chain_entries.roles,
                ROLE_TYPE,
                entry.role_address.clone(),
            ) {
                Err(e) => {
                    return Err(e);
                },
                Ok(role) => role,
            };
            if let None = role {
                return Err(
                    "The role entry should always accompany the assignment entry".to_string(),
                );
            }
            let admin = match is_agent_admin(
                &entry.admin_address,
                ctx,
                &chain_entries.assignments,
            ) {
                Err(e) => {
                    return Err(e);
                },
                Ok(admin) => admin,
            };
            match admin {
                true => Ok(()),
                _ => Err("Only admins can create roles".to_string()),
            }
        },
        _ => Err("Cannot modify or delete role assignments".to_string()),
    }
}

/// The message given when an agent is found to be no administrator.
pub open spec fn not_admin_message(admin_address: Seq<char>) -> Seq<char> {
    "Agent with address "@ + admin_address + " is not an administrator"@
}

/// Among the assignments linked from the agent at `admin_address`, the first
/// that assigns it the administrator role (at `admin_role_address`); an
/// error naming the agent where there is none.
pub fn admin_assignment_of(
    admin_address: &String,
    admin_role_address: &String,
    assignments: &Vec<Assignment>,
) -> (r: Result<Assignment, String>)
    ensures
        r matches Ok(a) ==> exists|i: int|
            0 <= i < assignments@.len() && #[trigger] assignments@[i] == a
                && a.agent_address@ == admin_address@ && a.role_address@ == admin_role_address@
                && forall|j: int|
                0 <= j < i ==> !(#[trigger] assignments@[j].agent_address@ == admin_address@
                    && assignments@[j].role_address@ == admin_role_address@),
        r matches Err(m) ==> m@ == not_admin_message(admin_address@) && forall|j: int|
            0 <= j < assignments@.len() ==> !(#[trigger] assignments@[j].agent_address@
                == admin_address@ && assignments@[j].role_address@ == admin_role_address@),
{
    let mut i: usize = 0;
    while i < assignments.len()
        invariant
            0 <= i <= assignments@.len(),
            forall|j: int|
                0 <= j < i ==> !(#[trigger] assignments@[j].agent_address@ == admin_address@
                    && assignments@[j].role_address@ == admin_role_address@),
        decreases assignments@.len() - i,
    {
        let a = &assignments[i];
        if a.agent_address == *admin_address && a.role_address == *admin_role_address {
            let found = Assignment {
                role_address: a.role_address.clone(),
                agent_address: a.agent_address.clone(),
                admin_address: a.admin_address.clone(),
                metadata: a.metadata.clone(),
            };
            return Ok(found);
        }
        i = i + 1;
    }
    let mut message = "Agent with address ".to_string();
    message.append(admin_address.as_str());
    message.append(" is not an administrator");
    Err(message)
}

/// Whether an assignment at `address`, linked from this agent, is still to
/// be committed to its own chain: it is not among the assignments there.
pub fn is_missing_locally(local_assignments: &Vec<String>, address: &String) -> (r: bool)
    ensures
        r == !local_assignments.deep_view().contains(address@),
{
    !contains_string(local_assignments, address)
}

/// The message given when assigning a role whose entry cannot be found.
pub open spec fn missing_role_message() -> Seq<char> {
    "Cannot assign a role that has not been created yet"@
}

/// Assigning the role at `role_address` to the agent at `agent_address`, by
/// the agent at `me`: the assignment to commit when the role's entry was
/// found, else an error.
pub fn assign_role(
    role_address: &String,
    agent_address: &String,
    me: &String,
    role_entry_found: bool,
) -> (r: Result<Assignment, String>)
    ensures
        role_entry_found ==> (r matches Ok(a) && a.role_address == role_address
            && a.agent_address == agent_address && a.admin_address == me && a.metadata is None),
        !role_entry_found ==> (r matches Err(m) && m@ == missing_role_message()),
{
    if role_entry_found {
        Ok(Assignment::from(role_address, agent_address, me))
    } else {
        Err("Cannot assign a role that has not been created yet".to_string())
    }
}

} // verus!
