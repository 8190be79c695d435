use vstd::prelude::*;

use crate::constants::SECTION_TYPE;
use crate::definition::{EntryDefinition, EntryValidationData, Sharing, ValidationPackageDefinition};
use crate::file::storage_description;
use crate::page::Page;
use crate::text::view_err;
use crate::wiki::{can_edit, validate_agent_can_edit};

verus! {

/// A section of a wiki page: the address of the anchor of its page (once it
/// is placed in one), its kind, its source and rendered content, and when
/// it was written.
pub struct Section {
    pub anchor_address: Option<String>,
    pub section_type: String,
    pub content: String,
    pub rendered_content: String,
    pub timestamp: String,
}

impl Section {
    /// The section placed under the page anchor at `anchor_address`.
    pub fn from(self, anchor_address: String) -> (s: Section)
        ensures
            s.anchor_address == Some(anchor_address),
            s.section_type == self.section_type,
            s.content == self.content,
            s.rendered_content == self.rendered_content,
            s.timestamp == self.timestamp,
    {
        Section {
            anchor_address: Some(anchor_address),
            section_type: self.section_type,
            content: self.content,
            rendered_content: self.rendered_content,
            timestamp: self.timestamp,
        }
    }
}

/// The definition of the page section entry type.
pub fn page_section_def() -> (d: EntryDefinition)
    ensures
        d.name@ == SECTION_TYPE@,
        d.description@ == storage_description(),
        d.sharing == Sharing::Public,
        d.validation_package == ValidationPackageDefinition::Entry,
        d.links@.len() == 0,
{
    EntryDefinition {
        name: SECTION_TYPE.to_string(),
        description: "this is an entry representing some profile info for an agent".to_string(),
        sharing: Sharing::Public,
        validation_package: ValidationPackageDefinition::Entry,
        links: Vec::new(),
    }
}

/// Validates an operation on a section: any operation is accepted exactly
/// when its author may edit (`editor`, `admin`: the author's checks for the
/// editor and administrator roles).
pub fn validate_section_entry(
    validation: &EntryValidationData<Section>,
    editor: &Result<(), String>,
    admin: &Result<(), String>,
) -> (r: Result<(), String>)
    ensures
        view_err(r) == can_edit(*editor, *admin),
{
    validate_agent_can_edit(editor, admin)
}

/// The address of the page anchor a section is placed under.
pub fn anchor_of(section: Section) -> (anchor: String)
    requires
        section.anchor_address is Some,
    ensures
        section.anchor_address == Some(anchor),
{
    match section.anchor_address {
        Some(anchor) => anchor,
        None => String::new(),
    }
}

/// The new version of a section takes the page anchor of the version it
/// replaces.
pub fn with_anchor_of(section: Section, old_section: &Section) -> (s: Section)
    ensures
        s.anchor_address == old_section.anchor_address,
        s.section_type == section.section_type,
        s.content == section.content,
        s.rendered_content == section.rendered_content,
        s.timestamp == section.timestamp,
{
    let mut section = section;
    section.anchor_address = old_section.anchor_address.clone();
    section
}

/// The page after one of its sections was updated: every occurrence of the
/// address `old_section_address` among its sections becomes `new_address`;
/// all else stays.
pub fn update_section(page: Page, old_section_address: &String, new_address: &String) -> (p: Page)
    ensures
        p.title == page.title,
        p.timestamp == page.timestamp,
        p.sections.deep_view() == page.sections.deep_view().map_values(
            |a: Seq<char>|
                if a == old_section_address@ {
                    new_address@
                } else {
                    a
                },
        ),
{
    let n = page.sections.len();
    let mut sections: Vec<String> = Vec::new();
    let mut i: usize = 0;
    while i < n
        invariant
            n == page.sections@.len(),
            0 <= i <= n,
            sections@.len() == i,
            forall|j: int|
                0 <= j < i ==> #[trigger] sections@[j]@ == (if page.sections@[j]@
                    == old_section_address@ {
                    new_address@
                } else {
                    page.sections@[j]@
                }),
        decreases n - i,
    {
        if page.sections[i] != *old_section_address {
            sections.push(page.sections[i].clone());
        } else {
            sections.push(new_address.clone());
        }
        i = i + 1;
    }
    let p = Page::from(page.title, sections, page.timestamp);
    assert(p.sections.deep_view() =~= page.sections.deep_view().map_values(
        |a: Seq<char>|
            if a == old_section_address@ {
                new_address@
            } else {
                a
            },
    ));
    p
}

/// The page without the section at `address`: every occurrence of the
/// address is dropped from its sections, the others keep their order.
pub fn delete_section(page: Page, address: &String) -> (p: Page)
    ensures
        p.title == page.title,
        p.timestamp == page.timestamp,
        p.sections.deep_view() == page.sections.deep_view().filter(|a: Seq<char>| a != address@),
{
    let ghost keep = |a: Seq<char>| a != address@;
    let n = page.sections.len();
    let mut sections: Vec<String> = Vec::new();
    let mut i: usize = 0;
    while i < n
        invariant
            n == page.sections@.len(),
            0 <= i <= n,
            keep == (|a: Seq<char>| a != address@),
            sections.deep_view() == page.sections.deep_view().take(i as int).filter(keep),
        decreases n - i,
    {
        proof {
            assert(page.sections.deep_view().take(i + 1) == page.sections.deep_view().take(
                i as int,
            ).push(page.sections.deep_view()[i as int]));
            page.sections.deep_view().take(i as int).lemma_filter_push(
                page.sections.deep_view()[i as int],
                keep,
            );
        }
        if page.sections[i] != *address {
            sections.push(page.sections[i].clone());
            assert(sections.deep_view() =~= page.sections.deep_view().take(i + 1).filter(keep));
        }
        i = i + 1;
    }
    assert(page.sections.deep_view().take(n as int) == page.sections.deep_view());
    Page::from(page.title, sections, page.timestamp)
}

} // verus!
