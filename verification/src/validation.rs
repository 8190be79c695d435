use vstd::prelude::*;

use crate::assignment::Assignment;
use crate::chain::{find_entry, typed_content, ChainEntry};
use crate::constants::ASSIGNMENT_TYPE;
use crate::text::{contains_string, view_err};

verus! {

/// What the admin checks learn from outside the source chain: the list of
/// initial administrators that the DNA was configured with (or the error
/// met reading it), and the address of the administrator role entry (or
/// the error met computing it).
pub struct AdminContext {
    pub initial_admins: Result<Vec<String>, String>,
    pub admin_role_address: Result<String, String>,
}

/// What `serde_json` reads from `text` as a JSON array of strings, if it
/// reads one.
pub uninterp spec fn json_string_list(text: Seq<char>) -> Option<Seq<Seq<char>>>;

/// Calls `serde_json::from_str::<Vec<String>>`. Trusted: the result is
/// `Some` exactly when the call succeeds, and then holds what it read; what
/// it reads is left to the name `json_string_list`.
#[verifier::external_body]
fn parse_string_list(json: &str) -> (r: Option<Vec<String>>)
    ensures
        r is Some <==> json_string_list(json@) is Some,
        r matches Some(v) ==> v.deep_view() == json_string_list(json@)->0,
{
    match serde_json::from_str::<Vec<String>>(json) {
        Ok(v) => Some(v),
        Err(_) => None,
    }
}

/// The message given when the initial administrators cannot be read.
pub open spec fn initial_admins_error() -> Seq<char> {
    "could not get initial admins list"@
}

/// The initial administrators from what was read of the `initial_admins`
/// property: the list, or an error where it did not read as a list of
/// addresses.
pub fn initial_admins_from(parsed: Option<Vec<String>>) -> (r: Result<Vec<String>, String>)
    ensures
        parsed matches Some(v) ==> r == Ok::<Vec<String>, String>(v),
        parsed is None ==> (r matches Err(m) && m@ == initial_admins_error()),
{
    match parsed {
        Some(admins) => Ok(admins),
        None => Err("could not get initial admins list".to_string()),
    }
}

/// The initial administrators, from the `initial_admins` property of the
/// DNA (`property`: its JSON text, or the error met reading it).
pub fn get_initial_admins(property: Result<String, String>) -> (r: Result<Vec<String>, String>)
    ensures
        property matches Err(e) ==> r == Err::<Vec<String>, String>(e),
        property matches Ok(json) ==> match json_string_list(json@) {
            Some(admins) => r matches Ok(v) && v.deep_view() == admins,
            None => r matches Err(m) && m@ == initial_admins_error(),
        },
{
    match property {
        Err(e) => Err(e),
        Ok(json) => initial_admins_from(parse_string_list(json.as_str())),
    }
}

/// Whether `agent_address` is among the initial administrators.
pub fn is_agent_initial_admin(
    agent_address: &String,
    initial_admins: &Result<Vec<String>, String>,
) -> (r: Result<bool, String>)
    ensures
        view_err(r) == initial_admin_status(agent_address@, *initial_admins),
{
    match initial_admins {
        Err(e) => Err(e.clone()),
        Ok(admins) => Ok(contains_string(admins, agent_address)),
    }
}

/// Whether `agent` is an initial administrator, or the error met reading
/// the list.
pub open spec fn initial_admin_status(
    agent: Seq<char>,
    initial_admins: Result<Vec<String>, String>,
) -> Result<bool, Seq<char>> {
    match initial_admins {
        Err(e) => Err(e@),
        Ok(admins) => Ok(admins.deep_view().contains(agent)),
    }
}

/// The chain holds an assignment of the role at `role` to the agent at `agent`.
pub open spec fn holds_role(chain: Seq<ChainEntry<Assignment>>, agent: Seq<char>, role: Seq<char>) -> bool {
    exists|i: int|
        0 <= i < chain.len() && (#[trigger] typed_content(chain[i], ASSIGNMENT_TYPE@) matches Some(a)
            && a.role_address@ == role && a.agent_address@ == agent)
}

/// Whether `agent` is an administrator: an initial one, or one to whom the
/// chain assigns the administrator role; or the first error met finding out.
pub open spec fn admin_status(
    agent: Seq<char>,
    ctx: AdminContext,
    chain: Seq<ChainEntry<Assignment>>,
) -> Result<bool, Seq<char>> {
    match initial_admin_status(agent, ctx.initial_admins) {
        Err(e) => Err(e),
        Ok(true) => Ok(true),
        Ok(false) => match ctx.admin_role_address {
            Err(e) => Err(e@),
            Ok(role) => Ok(holds_role(chain, agent, role@)),
        },
    }
}

/// Whether the source chain assigns the role at `role_address` to the agent
/// at `agent_address`.
pub fn agent_has_role(
    agent_address: &String,
    role_address: &String,
    chain_entries: &Vec<ChainEntry<Assignment>>,
) -> (r: Result<bool, String>)
    ensures
        r == Ok::<bool, String>(holds_role(chain_entries@, agent_address@, role_address@)),
{
    let matches_agent_role = |assignment: &Assignment| -> (m: Result<bool, String>)
        ensures
            m == Ok::<bool, String>(
                assignment.role_address@ == role_address@ && assignment.agent_address@
                    == agent_address@,
            ),
        { Ok(assignment.role_address == *role_address && assignment.agent_address == *agent_address) };
    let maybe_assignment = find_entry(chain_entries, ASSIGNMENT_TYPE, matches_agent_role);
    match maybe_assignment {
        Some(_) => Ok(true),
        None => {
            assert(!holds_role(chain_entries@, agent_address@, role_address@)) by {
                assert forall|i: int|
                    0 <= i < chain_entries@.len() && #[trigger] typed_content(
                        chain_entries@[i],
                        ASSIGNMENT_TYPE@,
                    ) is Some implies !(typed_content(
                    chain_entries@[i],
                    ASSIGNMENT_TYPE@,
                )->0.role_address@ == role_address@ && typed_content(
                    chain_entries@[i],
                    ASSIGNMENT_TYPE@,
                )->0.agent_address@ == agent_address@) by {}
            }
            Ok(false)
        },
    }
}

/// Whether the agent at `agent_address` is an administrator: an initial
/// administrator, or one to whom the source chain assigns the administrator
/// role.
pub fn is_agent_admin(
    agent_address: &String,
    ctx: &AdminContext,
    chain_entries: &Vec<ChainEntry<Assignment>>,
) -> (r: Result<bool, String>)
    ensures
        view_err(r) == admin_status(agent_address@, *ctx, chain_entries@),
{
    match is_agent_initial_admin(agent_address, &ctx.initial_admins) {
        Err(e) => {
            return Err(e);
        },
        Ok(true) => {
            return Ok(true);
        },
        Ok(false) => {},
    }
    match &ctx.admin_role_address {
        Err(e) => Err(e.clone()),
        Ok(role_address) => agent_has_role(agent_address, role_address, chain_entries),
    }
}

/// The first of `agents` that is an administrator, if any; an agent whose
/// status cannot be found out counts as no administrator.
pub fn is_some_agent_admin(
    agent_addresses: &Vec<String>,
    ctx: &AdminContext,
    chain_entries: &Vec<ChainEntry<Assignment>>,
) -> (r: Result<Option<String>, String>)
    ensures
        r matches Ok(found) && match found {
            Some(a) => exists|i: int|
                0 <= i < agent_addresses@.len() && #[trigger] agent_addresses@[i]@ == a@
                    && admin_status(a@, *ctx, chain_entries@) == Ok::<bool, Seq<char>>(true)
                    && forall|j: int|
                    0 <= j < i ==> admin_status(#[trigger] agent_addresses@[j]@, *ctx, chain_entries@)
                        != Ok::<bool, Seq<char>>(true),
            None => forall|j: int|
                0 <= j < agent_addresses@.len() ==> admin_status(
                    #[trigger] agent_addresses@[j]@,
                    *ctx,
                    chain_entries@,
                ) != Ok::<bool, Seq<char>>(true),
        },
{
    let mut i: usize = 0;
    while i < agent_addresses.len()
        invariant
            0 <= i <= agent_addresses@.len(),
            forall|j: int|
                0 <= j < i ==> admin_status(#[trigger] agent_addresses@[j]@, *ctx, chain_entries@)
                    != Ok::<bool, Seq<char>>(true),
        decreases agent_addresses@.len() - i,
    {
        match is_agent_admin(&agent_addresses[i], ctx, chain_entries) {
            Ok(true) => {
                return Ok(Some(agent_addresses[i].clone()));
            },
            _ => {},
        }
        i = i + 1;
    }
    Ok(None)
}

} // verus!
