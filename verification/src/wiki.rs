use vstd::prelude::*;

use crate::text::{contains_string, view_err};

verus! {

/// The message given to an agent that holds neither the editor nor the
/// administrator role.
pub open spec fn cannot_edit_message() -> Seq<char> {
    "Only admins and editors edit content"@
}

/// Whether an agent may edit wiki content, from the checks that it holds
/// the editor role (`editor`) and the administrator role (`admin`): it may
/// unless both checks failed.
pub fn validate_agent_can_edit(editor: &Result<(), String>, admin: &Result<(), String>) -> (r: Result<
    (),
    String,
>)
    ensures
        view_err(r) == can_edit(*editor, *admin),
{
    match (editor, admin) {
        (Err(_), Err(_)) => Err("Only admins and editors edit content".to_string()),
        _ => Ok(()),
    }
}

/// An agent may edit unless both role checks failed.
pub open spec fn can_edit(editor: Result<(), String>, admin: Result<(), String>) -> Result<(), Seq<char>> {
    if editor is Err && admin is Err {
        Err(cannot_edit_message())
    } else {
        Ok(())
    }
}

/// The role to show for an agent holding `roles`: the administrator role
/// (called `admin_role_name`) when the agent holds it among others, else
/// the first role held, if any.
pub fn get_agent_roles(roles: &Vec<String>, admin_role_name: &String) -> (r: Option<String>)
    ensures
        roles@.len() > 1 && roles.deep_view().contains(admin_role_name@) ==> (r matches Some(n)
            && n@ == admin_role_name@),
        !(roles@.len() > 1 && roles.deep_view().contains(admin_role_name@)) ==> match r {
            Some(n) => roles@.len() > 0 && n@ == roles@[0]@,
            None => roles@.len() == 0,
        },
{
    if roles.len() > 1 && contains_string(roles, admin_role_name) {
        return Some(admin_role_name.clone());
    }
    if roles.len() == 0 {
        None
    } else {
        Some(roles[0].clone())
    }
}

/// An entry as it is fetched by address: an app entry with its type and
/// JSON content, or an entry of another kind.
pub enum StoredEntry {
    App { entry_type: String, content: String },
    Other,
}

/// The message given when no app entry was found at an address.
pub open spec fn no_entry_message() -> Seq<char> {
    "No hay entrada"@
}

/// The JSON content of a fetched entry (`found`: the entry at the address,
/// if any, or the error met fetching it); an error unless an app entry was
/// found.
pub fn get_entry(found: Result<Option<StoredEntry>, String>) -> (r: Result<String, String>)
    ensures
        match found {
            Ok(Some(StoredEntry::App { content, .. })) => r == Ok::<String, String>(content),
            _ => r matches Err(m) && m@ == no_entry_message(),
        },
{
    match found {
        Ok(Some(StoredEntry::App { content, .. })) => Ok(content),
        _ => Err("No hay entrada".to_string()),
    }
}

} // verus!
