use vstd::prelude::*;

use crate::constants::{ANCHOR_PAGE_LINK_TYPE, PAGE_TYPE};
use crate::definition::{
    link, EntryDefinition, EntryValidationData, LinkDirection, LinkValidationData, Sharing,
    ValidationPackageDefinition,
};
use crate::file::storage_description;
use crate::text::{occurs_in, str_contains, view_err};
use crate::wiki::{can_edit, validate_agent_can_edit};

verus! {

/// A version of a wiki page: its title, the addresses of its sections in
/// order, and when it was written.
pub struct Page {
    pub title: String,
    pub sections: Vec<String>,
    pub timestamp: String,
}

impl Page {
    /// The version of the page titled `title` with the given sections.
    pub fn from(title: String, sections: Vec<String>, timestamp: String) -> (p: Page)
        ensures
            p.title == title,
            p.sections == sections,
            p.timestamp == timestamp,
    {
        Page { title, sections, timestamp }
    }
}

/// The definition of the page entry type, linked from the anchors (of type
/// `anchor_type`) that pages are found by.
pub fn page_def(anchor_type: &str) -> (d: EntryDefinition)
    ensures
        d.name@ == PAGE_TYPE@,
        d.description@ == storage_description(),
        d.sharing == Sharing::Public,
        d.validation_package == ValidationPackageDefinition::Entry,
        d.links@.len() == 1,
        d.links@[0].direction == LinkDirection::From,
        d.links@[0].other_type@ == anchor_type@,
        d.links@[0].link_type@ == ANCHOR_PAGE_LINK_TYPE@,
        d.links@[0].validation_package == ValidationPackageDefinition::Entry,
{
    let mut links = Vec::new();
    links.push(
        link(
            LinkDirection::From,
            anchor_type,
            ANCHOR_PAGE_LINK_TYPE,
            ValidationPackageDefinition::Entry,
        ),
    );
    EntryDefinition {
        name: PAGE_TYPE.to_string(),
        description: "this is an entry representing some profile info for an agent".to_string(),
        sharing: Sharing::Public,
        validation_package: ValidationPackageDefinition::Entry,
        links,
    }
}

/// The message given when a page update would change the page's title.
pub open spec fn title_change_message() -> Seq<char> {
    "no se puede actualizar un titulo"@
}

/// Which operations on pages are accepted: any operation needs an author
/// who may edit; an update must keep the title.
pub open spec fn page_validation(
    validation: EntryValidationData<Page>,
    editor: Result<(), String>,
    admin: Result<(), String>,
) -> Result<(), Seq<char>> {
    match validation {
        EntryValidationData::Modify { new_entry, old_entry, .. } => match can_edit(editor, admin) {
            Err(e) => Err(e),
            Ok(()) => if old_entry.title@ == new_entry.title@ {
                Ok(())
            } else {
                Err(title_change_message())
            },
        },
        _ => can_edit(editor, admin),
    }
}

/// Validates an operation on a page (`editor`, `admin`: the author's checks
/// for the editor and administrator roles).
pub fn validate_page_entry(
    validation: &EntryValidationData<Page>,
    editor: &Result<(), String>,
    admin: &Result<(), String>,
) -> (r: Result<(), String>)
    ensures
        view_err(r) == page_validation(*validation, *editor, *admin),
{
    match validation {
        EntryValidationData::Create { .. } => validate_agent_can_edit(editor, admin),
        EntryValidationData::Modify { new_entry, old_entry, .. } => {
            match validate_agent_can_edit(editor, admin) {
                Err(e) => {
                    return Err(e);
                },
                Ok(()) => {},
            }
            if old_entry.title == new_entry.title {
                Ok(())
            } else {
                Err("no se puede actualizar un titulo".to_string())
            }
        },
        EntryValidationData::Delete { .. } => validate_agent_can_edit(editor, admin),
    }
}

/// Validates an operation on a link from a page's anchor to the page: it is
/// accepted exactly when its author may edit.
pub fn validate_page_link(
    validation: &LinkValidationData,
    editor: &Result<(), String>,
    admin: &Result<(), String>,
) -> (r: Result<(), String>)
    ensures
        view_err(r) == can_edit(*editor, *admin),
{
    validate_agent_can_edit(editor, admin)
}

/// The last of a list of link targets, if any.
pub fn last_address(addresses: &Vec<String>) -> (r: Option<String>)
    ensures
        addresses@.len() == 0 ==> r is None,
        addresses@.len() > 0 ==> r == Some(addresses@.last()),
{
    if addresses.len() == 0 {
        None
    } else {
        Some(addresses[addresses.len() - 1].clone())
    }
}

/// What to do for a page that may not exist yet.
pub enum PageLookup {
    /// The page exists at this address.
    Existing(String),
    /// The page is to be committed, and linked from its anchor.
    Create(Page),
}

/// Finding or making the page titled `title`, given the targets of the
/// links from its anchor (`page_links`): the last of them is the page's
/// address; where there is none, an empty page is to be created.
pub fn create_page_if_non_existent(title: String, timestamp: String, page_links: &Vec<String>) -> (r:
    PageLookup)
    ensures
        page_links@.len() > 0 ==> r == PageLookup::Existing(page_links@.last()),
        page_links@.len() == 0 ==> (r matches PageLookup::Create(p) && p.title == title
            && p.sections@.len() == 0 && p.timestamp == timestamp),
{
    match last_address(page_links) {
        Some(address) => PageLookup::Existing(address),
        None => PageLookup::Create(Page::from(title, Vec::new(), timestamp)),
    }
}

/// The message given when a page cannot be found.
pub open spec fn missing_page_message() -> Seq<char> {
    "This page no exist"@
}

/// The address of the current version of a page, from the targets of the
/// links from its anchor: the last one; an error where there is none.
pub fn get_page(page_links: &Vec<String>) -> (r: Result<String, String>)
    ensures
        page_links@.len() > 0 ==> r == Ok::<String, String>(page_links@.last()),
        page_links@.len() == 0 ==> (r matches Err(m) && m@ == missing_page_message()),
{
    match last_address(page_links) {
        Some(address) => Ok(address),
        None => Err("This page no exist".to_string()),
    }
}

/// The address of the page that a section belongs to, from the targets of
/// the links from the section's anchor: the first one; an error where there
/// is none.
pub fn first_page_address(page_links: &Vec<String>) -> (r: Result<String, String>)
    ensures
        page_links@.len() > 0 ==> r == Ok::<String, String>(page_links@[0]),
        page_links@.len() == 0 ==> (r matches Err(m) && m@ == missing_page_message()),
{
    if page_links.len() == 0 {
        Err("This page no exist".to_string())
    } else {
        Ok(page_links[0].clone())
    }
}

/// The page titles, among the tags of the links from the pages' anchor
/// (`titles`), in which `data` occurs, in their order.
pub fn get_titles_filtered(titles: &Vec<String>, data: &str) -> (r: Vec<String>)
    ensures
        r.deep_view() == titles.deep_view().filter(|t: Seq<char>| occurs_in(data@, t)),
{
    let ghost keep = |t: Seq<char>| occurs_in(data@, t);
    let n = titles.len();
    let mut found: Vec<String> = Vec::new();
    let mut i: usize = 0;
    while i < n
        invariant
            n == titles@.len(),
            0 <= i <= n,
            keep == (|t: Seq<char>| occurs_in(data@, t)),
            found.deep_view() == titles.deep_view().take(i as int).filter(keep),
        decreases n - i,
    {
        proof {
            assert(titles.deep_view().take(i + 1) == titles.deep_view().take(i as int).push(
                titles.deep_view()[i as int],
            ));
            titles.deep_view().take(i as int).lemma_filter_push(titles.deep_view()[i as int], keep);
        }
        if str_contains(titles[i].as_str(), data) {
            found.push(titles[i].clone());
            assert(found.deep_view() =~= titles.deep_view().take(i + 1).filter(keep));
        }
        i = i + 1;
    }
    assert(titles.deep_view().take(n as int) == titles.deep_view());
    found
}

/// The empty text occurs in every text.
pub proof fn lemma_empty_occurs(text: Seq<char>)
    ensures
        occurs_in(Seq::<char>::empty(), text),
{
    let e = Seq::<char>::empty();
    assert(text.subrange(0, 0 + e.len() as int) =~= e);
}

/// Keeping the texts in which the empty text occurs keeps them all.
pub proof fn lemma_filter_empty_pattern(texts: Seq<Seq<char>>)
    ensures
        texts.filter(|t: Seq<char>| occurs_in(Seq::<char>::empty(), t)) == texts,
    decreases texts.len(),
{
    let keep = |t: Seq<char>| occurs_in(Seq::<char>::empty(), t);
    if texts.len() > 0 {
        lemma_filter_empty_pattern(texts.drop_last());
        lemma_empty_occurs(texts.last());
        texts.drop_last().lemma_filter_push(texts.last(), keep);
        assert(texts.drop_last().push(texts.last()) =~= texts);
    } else {
        reveal(Seq::filter);
    }
}

/// All page titles among the tags of the links from the pages' anchor: the
/// titles filtered by the empty text, that is, all of them.
pub fn get_titles(titles: &Vec<String>) -> (r: Vec<String>)
    ensures
        r.deep_view() == titles.deep_view(),
{
    let r = get_titles_filtered(titles, "");
    proof {
        reveal_strlit("");
        assert(""@ =~= Seq::<char>::empty());
        lemma_filter_empty_pattern(titles.deep_view());
    }
    r
}

} // verus!
