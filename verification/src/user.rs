use vstd::prelude::*;

use crate::constants::{
    AGENT_ID_TYPE, AGENT_USER_LINK_TYPE, ANCHOR_USER_LINK_TYPE, USER_AGENT_LINK_TYPE, USER_TYPE,
};
use crate::definition::{
    link, EntryDefinition, EntryValidationData, LinkDefinition, LinkDirection, LinkValidationData,
    Sharing, ValidationPackageDefinition,
};
use crate::file::storage_description;

verus! {

/// A wiki user: a username (`data`) of kind `user_type`.
pub struct User {
    pub user_type: String,
    pub data: String,
}

impl User {
    /// The user with username `data`.
    pub fn from(data: String) -> (u: User)
        ensures
            u.user_type@ == "username"@,
            u.data == data,
    {
        User { user_type: "username".to_string(), data }
    }
}

/// The link definition matches the given parts.
pub open spec fn link_is(
    l: LinkDefinition,
    direction: LinkDirection,
    other_type: Seq<char>,
    link_type: Seq<char>,
) -> bool {
    &&& l.direction == direction
    &&& l.other_type@ == other_type
    &&& l.link_type@ == link_type
    &&& l.validation_package == ValidationPackageDefinition::Entry
}

/// The definition of the user entry type: linked from the users' anchor
/// (of type `anchor_type`), from its agent, and to its agent.
pub fn user_def(anchor_type: &str) -> (d: EntryDefinition)
    ensures
        d.name@ == USER_TYPE@,
        d.description@ == storage_description(),
        d.sharing == Sharing::Public,
        d.validation_package == ValidationPackageDefinition::Entry,
        d.links@.len() == 3,
        link_is(d.links@[0], LinkDirection::From, anchor_type@, ANCHOR_USER_LINK_TYPE@),
        link_is(d.links@[1], LinkDirection::From, AGENT_ID_TYPE@, AGENT_USER_LINK_TYPE@),
        link_is(d.links@[2], LinkDirection::To, AGENT_ID_TYPE@, USER_AGENT_LINK_TYPE@),
{
    let mut links = Vec::new();
    links.push(
        link(
            LinkDirection::From,
            anchor_type,
            ANCHOR_USER_LINK_TYPE,
            ValidationPackageDefinition::Entry,
        ),
    );
    links.push(
        link(
            LinkDirection::From,
            AGENT_ID_TYPE,
            AGENT_USER_LINK_TYPE,
            ValidationPackageDefinition::Entry,
        ),
    );
    links.push(
        link(
            LinkDirection::To,
            AGENT_ID_TYPE,
            USER_AGENT_LINK_TYPE,
            ValidationPackageDefinition::Entry,
        ),
    );
    EntryDefinition {
        name: USER_TYPE.to_string(),
        description: "this is an entry representing some profile info for an agent".to_string(),
        sharing: Sharing::Public,
        validation_package: ValidationPackageDefinition::Entry,
        links,
    }
}

/// Every operation on a user entry is accepted.
pub fn validate_user_entry(validation: &EntryValidationData<User>) -> (r: Result<(), String>)
    ensures
        r is Ok,
{
    Ok(())
}

/// Every operation on a link of a user (from the users' anchor, from its
/// agent, to its agent) is accepted.
pub fn validate_user_link(validation: &LinkValidationData) -> (r: Result<(), String>)
    ensures
        r is Ok,
{
    Ok(())
}

/// Registering the username `data`, given what fetching the user's entry
/// gave (`existing`: whether it is stored, or the error met fetching it):
/// the user to commit and link where it is not stored yet, `None` where it
/// is, and the error where the fetch failed.
pub fn create_user_if_non_existent(data: String, existing: Result<bool, String>) -> (r: Result<
    Option<User>,
    String,
>)
    ensures
        existing matches Err(e) ==> r == Err::<Option<User>, String>(e),
        existing == Ok::<bool, String>(true) ==> r == Ok::<Option<User>, String>(None),
        existing == Ok::<bool, String>(false) ==> (r matches Ok(Some(u)) && u.data == data
            && u.user_type@ == "username"@),
{
    match existing {
        Err(e) => Err(e),
        Ok(true) => Ok(None),
        Ok(false) => Ok(Some(User::from(data))),
    }
}

/// The usernames of the given users, in order.
pub fn get_usernames(users: Vec<User>) -> (names: Vec<String>)
    ensures
        names@.len() == users@.len(),
        forall|i: int| 0 <= i < users@.len() ==> #[trigger] names@[i] == users@[i].data,
{
    let mut names: Vec<String> = Vec::new();
    let mut i: usize = 0;
    while i < users.len()
        invariant
            0 <= i <= users@.len(),
            names@.len() == i,
            forall|j: int| 0 <= j < i ==> #[trigger] names@[j] == users@[j].data,
        decreases users@.len() - i,
    {
        names.push(users[i].data.clone());
        i = i + 1;
    }
    names
}

/// The usernames of the users linked from an agent, in order.
pub fn get_user_by_agent_id(users: Vec<User>) -> (names: Vec<String>)
    ensures
        names@.len() == users@.len(),
        forall|i: int| 0 <= i < users@.len() ==> #[trigger] names@[i] == users@[i].data,
{
    get_usernames(users)
}

/// The agent of a user, from the targets of the links from the user's
/// entry to agents: the first one.
pub fn get_agent_user(agent_links: &Vec<String>) -> (agent: String)
    requires
        agent_links@.len() > 0,
    ensures
        agent == agent_links@[0],
{
    agent_links[0].clone()
}

} // verus!
