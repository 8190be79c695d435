use vstd::prelude::*;

use crate::constants::{CHUNK_TYPE, FILE_TYPE};
use crate::definition::{EntryDefinition, EntryValidationData, Sharing, ValidationPackageDefinition};

verus! {

/// A stored file: its name, size, media type, time of last modification,
/// and the addresses of the chunks that hold its content, in order.
pub struct File {
    pub name: String,
    pub size: u64,
    pub file_type: String,
    pub last_modified: u64,
    pub chunks: Vec<String>,
}

/// The description shared by the entry types of the file storage zome.
pub open spec fn storage_description() -> Seq<char> {
    "this is an entry representing some profile info for an agent"@
}

/// A public entry type without links, validated with the entry alone.
fn plain_definition(name: &str) -> (d: EntryDefinition)
    ensures
        d.name@ == name@,
        d.description@ == storage_description(),
        d.sharing == Sharing::Public,
        d.validation_package == ValidationPackageDefinition::Entry,
        d.links@.len() == 0,
{
    EntryDefinition {
        name: name.to_string(),
        description: "this is an entry representing some profile info for an agent".to_string(),
        sharing: Sharing::Public,
        validation_package: ValidationPackageDefinition::Entry,
        links: Vec::new(),
    }
}

/// The definition of the file entry type.
pub fn file_def() -> (d: EntryDefinition)
    ensures
        d.name@ == FILE_TYPE@,
        d.description@ == storage_description(),
        d.sharing == Sharing::Public,
        d.validation_package == ValidationPackageDefinition::Entry,
        d.links@.len() == 0,
{
    plain_definition(FILE_TYPE)
}

/// The definition of the chunk entry type.
pub fn chunk_def() -> (d: EntryDefinition)
    ensures
        d.name@ == CHUNK_TYPE@,
        d.description@ == storage_description(),
        d.sharing == Sharing::Public,
        d.validation_package == ValidationPackageDefinition::Entry,
        d.links@.len() == 0,
{
    plain_definition(CHUNK_TYPE)
}

/// Every operation on a file entry is accepted.
pub fn validate_file_entry(validation: &EntryValidationData<File>) -> (r: Result<(), String>)
    ensures
        r is Ok,
{
    Ok(())
}

/// Every operation on a chunk entry (its JSON text) is accepted.
pub fn validate_chunk_entry(validation: &EntryValidationData<String>) -> (r: Result<(), String>)
    ensures
        r is Ok,
{
    Ok(())
}

/// Storing an entry that may already be stored at `address`, given what
/// fetching that address gave (`found`: whether an entry is there, or the
/// error met fetching it): `Some(address)` when the entry is already there
/// and need not be committed, `None` when it is to be committed.
pub fn create_if_exist(found: &Result<bool, String>, address: String) -> (r: Option<String>)
    ensures
        *found == Ok::<bool, String>(true) ==> r == Some(address),
        *found != Ok::<bool, String>(true) ==> r is None,
{
    if let Ok(true) = found {
        Some(address)
    } else {
        None
    }
}

} // verus!
