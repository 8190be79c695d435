use vstd::prelude::*;

verus! {

/// Entry type of a role.
pub const ROLE_TYPE: &'static str = "role";

/// Entry type of a role assignment.
pub const ASSIGNMENT_TYPE: &'static str = "role_assignment";

/// Link from a role to one of its assignments.
pub const ROLE_ASSIGNMENT_LINK_TYPE: &'static str = "role->role_assignment";

/// Link from an agent to one of its role assignments.
pub const AGENT_ASSIGNMENT_LINK_TYPE: &'static str = "agent->role_assignment";

/// Name of the role whose holders may create roles and assign them.
pub const ADMINISTRATOR_ROLE: &'static str = "administrator";

/// Name of the wiki role whose holders may edit pages and sections.
pub const EDITOR_ROLE_NAME: &'static str = "Editor";

/// Entry type of a stored file.
pub const FILE_TYPE: &'static str = "file";

/// Entry type of a chunk of a stored file.
pub const CHUNK_TYPE: &'static str = "chunk";

/// Entry type of a wiki page.
pub const PAGE_TYPE: &'static str = "wikiPage";

/// Entry type of a section of a wiki page.
pub const SECTION_TYPE: &'static str = "page_section";

/// Entry type of a wiki user.
pub const USER_TYPE: &'static str = "user";

/// Link from a page's anchor to the page.
pub const ANCHOR_PAGE_LINK_TYPE: &'static str = "anchor->page";

/// Link from the users' anchor to a user.
pub const ANCHOR_USER_LINK_TYPE: &'static str = "anchor->User";

/// Link from an agent to its user.
pub const AGENT_USER_LINK_TYPE: &'static str = "agent->User";

/// Link from a user to its agent.
pub const USER_AGENT_LINK_TYPE: &'static str = "User->agent";

/// Anchor type under which pages are anchored by title.
pub const PAGES_ANCHOR_TYPE: &'static str = "wiki_pages";

/// Placeholder target of links to and from agents in link definitions.
pub const AGENT_ID_TYPE: &'static str = "%agent_id";

} // verus!
