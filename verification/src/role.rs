use vstd::prelude::*;

use crate::constants::{ADMINISTRATOR_ROLE, ASSIGNMENT_TYPE, ROLE_ASSIGNMENT_LINK_TYPE, ROLE_TYPE};
use crate::definition::{
    link, EntryDefinition, EntryValidationData, LinkDirection, LinkValidationData, Sharing,
    ValidationPackageDefinition,
};
use crate::text::{string_is, view_err};
use crate::validation::{admin_status, is_some_agent_admin, AdminContext};

verus! {

/// A role that agents can be assigned, known by its name.
pub struct Role {
    pub name: String,
}

impl Role {
    /// The role called `name`.
    pub fn from(name: String) -> (r: Role)
        ensures
            r.name == name,
    {
        Role { name }
    }

    /// The administrator role.
    pub fn admin_role() -> (r: Role)
        ensures
            r.name@ == ADMINISTRATOR_ROLE@,
    {
        Role { name: ADMINISTRATOR_ROLE.to_string() }
    }
}

/// The definition of the role entry type: public, validated with the
/// author's chain entries, and linked to its assignments.
pub fn role_entry_definition() -> (d: EntryDefinition)
    ensures
        d.name@ == ROLE_TYPE@,
        d.description@ == "Role entry that des"@,
        d.sharing == Sharing::Public,
        d.validation_package == ValidationPackageDefinition::ChainEntries,
        d.links@.len() == 1,
        d.links@[0].direction == LinkDirection::To,
        d.links@[0].other_type@ == ASSIGNMENT_TYPE@,
        d.links@[0].link_type@ == ROLE_ASSIGNMENT_LINK_TYPE@,
        d.links@[0].validation_package == ValidationPackageDefinition::Entry,
{
    let mut links = Vec::new();
    links.push(
        link(
            LinkDirection::To,
            ASSIGNMENT_TYPE,
            ROLE_ASSIGNMENT_LINK_TYPE,
            ValidationPackageDefinition::Entry,
        ),
    );
    EntryDefinition {
        name: ROLE_TYPE.to_string(),
        description: "Role entry that des".to_string(),
        sharing: Sharing::Public,
        validation_package: ValidationPackageDefinition::ChainEntries,
        links,
    }
}

/// Every operation on a link from a role to its assignments is accepted.
pub fn validate_role_link(validation: &LinkValidationData) -> (r: Result<(), String>)
    ensures
        r is Ok,
{
    Ok(())
}

/// Some signer of the entry is an administrator.
pub open spec fn signed_by_admin(
    sources: Seq<String>,
    ctx: AdminContext,
    chain: Seq<crate::chain::ChainEntry<crate::assignment::Assignment>>,
) -> bool {
    exists|i: int|
        0 <= i < sources.len() && admin_status(#[trigger] sources[i]@, ctx, chain) == Ok::<
            bool,
            Seq<char>,
        >(true)
}

/// Validation of a role entry would read the author's source chain and it
/// was not sent.
pub open spec fn role_chain_missing(validation: EntryValidationData<Role>) -> bool {
    validation matches EntryValidationData::Create { entry, validation_data } && entry.name@
        != ADMINISTRATOR_ROLE@ && validation_data.source_chain_entries is None
}

/// Which operations on roles are accepted: the administrator role may be
/// created by anyone; another role only when some signer of the entry is an
/// administrator; a role's name never changes; roles are never deleted.
pub open spec fn role_validation(
    validation: EntryValidationData<Role>,
    ctx: AdminContext,
) -> Result<(), Seq<char>> {
    match validation {
        EntryValidationData::Create { entry, validation_data } => if entry.name@
            == ADMINISTRATOR_ROLE@ {
            Ok(())
        } else if signed_by_admin(
            validation_data.sources@,
            ctx,
            validation_data.source_chain_entries->0.assignments@,
        ) {
            Ok(())
        } else {
            Err("Only admins can create roles"@)
        },
        EntryValidationData::Modify { new_entry, old_entry, .. } => if old_entry.name@
            != new_entry.name@ {
            Err("Cannot modify the contents of the entry"@)
        } else {
            Ok(())
        },
        EntryValidationData::Delete { .. } => Err("Cannot delete roles"@),
    }
}

/// Validates an operation on a role entry.
pub fn validate_role_entry(validation: &EntryValidationData<Role>, ctx: &AdminContext) -> (r: Result<
    (),
    String,
>)
    requires
        !role_chain_missing(*validation),
    ensures
        view_err(r) == role_validation(*validation, *ctx),
{
    match validation {
        EntryValidationData::Create { entry, validation_data } => {
            if string_is(&entry.name, ADMINISTRATOR_ROLE) {
                return Ok(());
            }
            let chain_entries = match &validation_data.source_chain_entries {
                Some(chain) => chain,
                None => {
                    return Ok(());
                },
            };
            let agents_addresses = &validation_data.sources;
            let admin = is_some_agent_admin(agents_addresses, ctx, &chain_entries.assignments);
            match admin {
                Ok(Some(_)) => Ok(()),
                _ => {
                    assert(!signed_by_admin(
                        validation_data.sources@,
                        *ctx,
                        chain_entries.assignments@,
                    ));
                    Err("Only admins can create roles".to_string())
                },
            }
        },
        EntryValidationData::Modify { new_entry, old_entry, .. } => {
            if old_entry.name != new_entry.name {
                return Err("Cannot modify the contents of the entry".to_string());
            }
            Ok(())
        },
        EntryValidationData::Delete { .. } => Err("Cannot delete roles".to_string()),
    }
}

} // verus!
