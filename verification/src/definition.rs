use vstd::prelude::*;

use crate::assignment::Assignment;
use crate::chain::ChainEntry;
use crate::role::Role;

verus! {

/// Who may read the entries of a type.
pub enum Sharing {
    Public,
    Private,
    Encrypted,
}

/// What a validating agent receives beside the entry to be validated.
pub enum ValidationPackageDefinition {
    /// The entry alone.
    Entry,
    /// The entry and the entries of the author's source chain.
    ChainEntries,
    /// The entry and the headers of the author's source chain.
    ChainHeaders,
    /// The entry and the author's whole source chain.
    ChainFull,
}

/// Whether a link definition starts at the entry type (`To`) or ends at it (`From`).
pub enum LinkDirection {
    To,
    From,
}

/// A kind of link that entries of a type take part in.
pub struct LinkDefinition {
    pub direction: LinkDirection,
    /// The entry type at the other end of the link.
    pub other_type: String,
    pub link_type: String,
    pub validation_package: ValidationPackageDefinition,
}

/// The definition of an entry type of a zome: its name, description,
/// sharing, validation package and links. What entries of the type are
/// accepted is said by the validation function of the type.
pub struct EntryDefinition {
    pub name: String,
    pub description: String,
    pub sharing: Sharing,
    pub validation_package: ValidationPackageDefinition,
    pub links: Vec<LinkDefinition>,
}

/// The source chain of the author of an entry under validation, with each
/// app entry read as a role and as a role assignment.
pub struct SourceChain {
    pub roles: Vec<ChainEntry<Role>>,
    pub assignments: Vec<ChainEntry<Assignment>>,
}

/// What comes with an entry under validation: the addresses of the agents
/// that signed it and, where the validation package asks for it, the
/// author's source chain.
pub struct ValidationData {
    pub sources: Vec<String>,
    pub source_chain_entries: Option<SourceChain>,
}

/// An operation on an entry of type `T` that is to be validated.
pub enum EntryValidationData<T> {
    Create { entry: T, validation_data: ValidationData },
    Modify { new_entry: T, old_entry: T, validation_data: ValidationData },
    Delete { old_entry: T, validation_data: ValidationData },
}

/// An operation on a link that is to be validated.
pub enum LinkValidationData {
    LinkAdd { validation_data: ValidationData },
    LinkRemove { validation_data: ValidationData },
}

/// The identity of an agent joining the network.
pub struct AgentId {
    pub nick: String,
    pub pub_sign_key: String,
}

/// Zome initialisation: there is nothing to set up, and it always succeeds.
pub fn init() -> (r: Result<(), String>)
    ensures
        r is Ok,
{
    Ok(())
}

/// Every agent may join.
pub fn validate_agent(validation_data: &EntryValidationData<AgentId>) -> (r: Result<(), String>)
    ensures
        r is Ok,
{
    Ok(())
}

/// A link definition.
pub fn link(
    direction: LinkDirection,
    other_type: &str,
    link_type: &str,
    validation_package: ValidationPackageDefinition,
) -> (l: LinkDefinition)
    ensures
        l.direction == direction,
        l.other_type@ == other_type@,
        l.link_type@ == link_type@,
        l.validation_package == validation_package,
{
    LinkDefinition {
        direction,
        other_type: other_type.to_string(),
        link_type: link_type.to_string(),
        validation_package,
    }
}

} // verus!
