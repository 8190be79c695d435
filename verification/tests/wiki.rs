use hwiki::definition::{
    init, validate_agent, AgentId, EntryValidationData, LinkDirection, LinkValidationData, Sharing, ValidationData,
    ValidationPackageDefinition,
};
use hwiki::file::{chunk_def, create_if_exist, file_def, validate_chunk_entry, validate_file_entry, File};
use hwiki::page::{
    create_page_if_non_existent, first_page_address, get_page, get_titles, get_titles_filtered,
    last_address, page_def, validate_page_entry, validate_page_link, Page, PageLookup,
};
use hwiki::section::{anchor_of, delete_section, page_section_def, update_section, validate_section_entry, with_anchor_of, Section};
use hwiki::text::{contains_string, str_contains, str_eq};
use hwiki::user::{
    create_user_if_non_existent, get_agent_user, get_user_by_agent_id, get_usernames, user_def, validate_user_entry,
    validate_user_link, User,
};
use hwiki::wiki::{get_agent_roles, get_entry, validate_agent_can_edit, StoredEntry};

fn s(x: &str) -> String {
    x.to_string()
}

fn strings(xs: &[&str]) -> Vec<String> {
    xs.iter().map(|x| s(x)).collect()
}

fn no_data() -> ValidationData {
    ValidationData { sources: vec![], source_chain_entries: None }
}

fn page(title: &str, sections: &[&str]) -> Page {
    Page::from(s(title), strings(sections), s("2020-05-01"))
}

fn section(anchor: Option<&str>, content: &str) -> Section {
    Section {
        anchor_address: anchor.map(|a| s(a)),
        section_type: s("text"),
        content: s(content),
        rendered_content: format!("<p>{}</p>", content),
        timestamp: s("2020-05-01"),
    }
}

#[test]
fn init_and_agents_always_accepted() {
    assert_eq!(init(), Ok(()));
    let agent = AgentId { nick: s("alice"), pub_sign_key: s("HcAlice") };
    let v = EntryValidationData::Create { entry: agent, validation_data: no_data() };
    assert_eq!(validate_agent(&v), Ok(()));
}

#[test]
fn editors_or_admins_may_edit() {
    let yes: Result<(), String> = Ok(());
    let no: Result<(), String> = Err(s("missing role"));
    assert_eq!(validate_agent_can_edit(&yes, &no), Ok(()));
    assert_eq!(validate_agent_can_edit(&no, &yes), Ok(()));
    assert_eq!(validate_agent_can_edit(&yes, &yes), Ok(()));
    assert_eq!(validate_agent_can_edit(&no, &no), Err(s("Only admins and editors edit content")));
}

#[test]
fn agent_role_shown() {
    let admin = s("Admin");
    assert_eq!(get_agent_roles(&strings(&["Editor", "Admin"]), &admin), Some(s("Admin")));
    assert_eq!(get_agent_roles(&strings(&["Editor", "Reader"]), &admin), Some(s("Editor")));
    assert_eq!(get_agent_roles(&strings(&["Admin"]), &admin), Some(s("Admin")));
    assert_eq!(get_agent_roles(&strings(&["Editor"]), &admin), Some(s("Editor")));
    assert_eq!(get_agent_roles(&vec![], &admin), None);
}

#[test]
fn entry_content_fetched() {
    let app = StoredEntry::App { entry_type: s("page_section"), content: s("{\"content\":\"x\"}") };
    assert_eq!(get_entry(Ok(Some(app))), Ok(s("{\"content\":\"x\"}")));
    assert_eq!(get_entry(Ok(Some(StoredEntry::Other))), Err(s("No hay entrada")));
    assert_eq!(get_entry(Ok(None)), Err(s("No hay entrada")));
    assert_eq!(get_entry(Err(s("network"))), Err(s("No hay entrada")));
}

#[test]
fn page_validation_rules() {
    let yes: Result<(), String> = Ok(());
    let no: Result<(), String> = Err(s("missing role"));
    let create = EntryValidationData::Create { entry: page("Home", &[]), validation_data: no_data() };
    assert_eq!(validate_page_entry(&create, &no, &yes), Ok(()));
    assert_eq!(validate_page_entry(&create, &no, &no), Err(s("Only admins and editors edit content")));
    let same_title = EntryValidationData::Modify { new_entry: page("Home", &["s1"]), old_entry: page("Home", &[]), validation_data: no_data() };
    assert_eq!(validate_page_entry(&same_title, &yes, &no), Ok(()));
    assert_eq!(validate_page_entry(&same_title, &no, &no), Err(s("Only admins and editors edit content")));
    let renamed = EntryValidationData::Modify { new_entry: page("Start", &[]), old_entry: page("Home", &[]), validation_data: no_data() };
    assert_eq!(validate_page_entry(&renamed, &yes, &yes), Err(s("no se puede actualizar un titulo")));
    assert_eq!(validate_page_entry(&renamed, &no, &no), Err(s("Only admins and editors edit content")));
    let delete = EntryValidationData::Delete { old_entry: page("Home", &[]), validation_data: no_data() };
    assert_eq!(validate_page_entry(&delete, &yes, &no), Ok(()));
    assert_eq!(validate_page_entry(&delete, &no, &no), Err(s("Only admins and editors edit content")));
}

#[test]
fn section_validation_rules() {
    let yes: Result<(), String> = Ok(());
    let no: Result<(), String> = Err(s("missing role"));
    let v = EntryValidationData::Delete { old_entry: section(None, "x"), validation_data: no_data() };
    assert_eq!(validate_section_entry(&v, &yes, &no), Ok(()));
    assert_eq!(validate_section_entry(&v, &no, &no), Err(s("Only admins and editors edit content")));
}

#[test]
fn existing_page_is_reused() {
    match create_page_if_non_existent(s("Home"), s("t"), &strings(&["v1", "v2"])) {
        PageLookup::Existing(a) => assert_eq!(a, "v2"),
        PageLookup::Create(_) => panic!("page exists"),
    }
    match create_page_if_non_existent(s("Home"), s("t"), &vec![]) {
        PageLookup::Create(p) => {
            assert_eq!(p.title, "Home");
            assert!(p.sections.is_empty());
            assert_eq!(p.timestamp, "t");
        },
        PageLookup::Existing(_) => panic!("no page yet"),
    }
}

#[test]
fn page_addresses_from_links() {
    assert_eq!(get_page(&strings(&["v1", "v2"])), Ok(s("v2")));
    assert_eq!(get_page(&vec![]), Err(s("This page no exist")));
    assert_eq!(first_page_address(&strings(&["v1", "v2"])), Ok(s("v1")));
    assert_eq!(first_page_address(&vec![]), Err(s("This page no exist")));
    assert_eq!(last_address(&strings(&["a"])), Some(s("a")));
    assert_eq!(last_address(&vec![]), None);
}

#[test]
fn titles_filtered_by_text() {
    let titles = strings(&["Home", "About us", "Homework", "ñandú"]);
    assert_eq!(get_titles_filtered(&titles, "Hom"), strings(&["Home", "Homework"]));
    assert_eq!(get_titles_filtered(&titles, "us"), strings(&["About us"]));
    assert_eq!(get_titles_filtered(&titles, "andú"), strings(&["ñandú"]));
    assert_eq!(get_titles_filtered(&titles, "zzz"), Vec::<String>::new());
    assert_eq!(get_titles_filtered(&titles, ""), titles);
    assert_eq!(get_titles(&titles), titles);
}

#[test]
fn page_definition() {
    let d = page_def("anchor");
    assert_eq!(d.name, "wikiPage");
    assert!(matches!(d.sharing, Sharing::Public));
    assert!(matches!(d.validation_package, ValidationPackageDefinition::Entry));
    assert_eq!(d.links.len(), 1);
    assert!(matches!(d.links[0].direction, LinkDirection::From));
    assert_eq!(d.links[0].other_type, "anchor");
    assert_eq!(d.links[0].link_type, "anchor->page");
    let d = page_section_def();
    assert_eq!(d.name, "page_section");
    assert!(d.links.is_empty());
}

#[test]
fn section_anchoring() {
    let placed = section(None, "hello").from(s("anchor-1"));
    assert_eq!(placed.anchor_address, Some(s("anchor-1")));
    assert_eq!(placed.content, "hello");
    let updated = with_anchor_of(section(Some("elsewhere"), "new text"), &placed);
    assert_eq!(updated.anchor_address, Some(s("anchor-1")));
    assert_eq!(updated.content, "new text");
    let unplaced = with_anchor_of(section(Some("elsewhere"), "x"), &section(None, "old"));
    assert_eq!(unplaced.anchor_address, None);
}

#[test]
fn section_update_replaces_address() {
    let p = update_section(page("Home", &["s1", "s2", "s1"]), &s("s1"), &s("s9"));
    assert_eq!(p.sections, strings(&["s9", "s2", "s9"]));
    assert_eq!(p.title, "Home");
    let q = update_section(page("Home", &["s1"]), &s("s5"), &s("s9"));
    assert_eq!(q.sections, strings(&["s1"]));
}

#[test]
fn section_delete_drops_address() {
    let p = delete_section(page("Home", &["s1", "s2", "s1", "s3"]), &s("s1"));
    assert_eq!(p.sections, strings(&["s2", "s3"]));
    assert_eq!(p.title, "Home");
    assert_eq!(p.timestamp, "2020-05-01");
    let q = delete_section(page("Home", &[]), &s("s1"));
    assert!(q.sections.is_empty());
}

#[test]
fn users() {
    let u = User::from(s("alice"));
    assert_eq!(u.user_type, "username");
    assert_eq!(u.data, "alice");
    let users = vec![User::from(s("alice")), User::from(s("bob"))];
    assert_eq!(get_usernames(users), strings(&["alice", "bob"]));
    assert_eq!(get_user_by_agent_id(vec![User::from(s("carol"))]), strings(&["carol"]));
    assert_eq!(get_agent_user(&strings(&["HcAlice", "HcOther"])), "HcAlice");
}

#[test]
fn user_registration() {
    let created = create_user_if_non_existent(s("alice"), Ok(false)).unwrap().unwrap();
    assert_eq!(created.data, "alice");
    assert!(create_user_if_non_existent(s("alice"), Ok(true)).unwrap().is_none());
    assert_eq!(create_user_if_non_existent(s("alice"), Err(s("dht"))).err(), Some(s("dht")));
}

#[test]
fn user_definition() {
    let d = user_def("anchor");
    assert_eq!(d.name, "user");
    assert_eq!(d.links.len(), 3);
    assert_eq!(d.links[0].link_type, "anchor->User");
    assert_eq!(d.links[0].other_type, "anchor");
    assert_eq!(d.links[1].link_type, "agent->User");
    assert!(matches!(d.links[2].direction, LinkDirection::To));
    assert_eq!(d.links[2].link_type, "User->agent");
    assert_eq!(d.links[2].other_type, "%agent_id");
}

#[test]
fn file_storage() {
    let d = file_def();
    assert_eq!(d.name, "file");
    assert_eq!(d.description, "this is an entry representing some profile info for an agent");
    assert_eq!(chunk_def().name, "chunk");
    let f = File { name: s("a.txt"), size: 3, file_type: s("text/plain"), last_modified: 1, chunks: strings(&["c1"]) };
    assert_eq!(f.chunks.len(), 1);
    assert_eq!(create_if_exist(&Ok(true), s("addr")), Some(s("addr")));
    assert_eq!(create_if_exist(&Ok(false), s("addr")), None);
    assert_eq!(create_if_exist(&Err(s("e")), s("addr")), None);
}

#[test]
fn text_helpers() {
    assert!(str_eq("abc", "abc"));
    assert!(!str_eq("abc", "abd"));
    assert!(!str_eq("ab", "abc"));
    assert!(str_contains("wiki page", "ki p"));
    assert!(str_contains("", ""));
    assert!(!str_contains("ab", "abc"));
    assert!(contains_string(&strings(&["a", "b"]), &s("b")));
    assert!(!contains_string(&strings(&["a", "b"]), &s("c")));
}

#[test]
fn user_and_file_validators_accept_all() {
    let v = EntryValidationData::Create { entry: User::from(s("alice")), validation_data: no_data() };
    assert_eq!(validate_user_entry(&v), Ok(()));
    let v = EntryValidationData::Delete { old_entry: User::from(s("alice")), validation_data: no_data() };
    assert_eq!(validate_user_entry(&v), Ok(()));
    assert_eq!(validate_user_link(&LinkValidationData::LinkAdd { validation_data: no_data() }), Ok(()));
    assert_eq!(validate_user_link(&LinkValidationData::LinkRemove { validation_data: no_data() }), Ok(()));
    let f = File { name: s("a"), size: 0, file_type: s("t"), last_modified: 0, chunks: vec![] };
    assert_eq!(validate_file_entry(&EntryValidationData::Create { entry: f, validation_data: no_data() }), Ok(()));
    assert_eq!(validate_chunk_entry(&EntryValidationData::Create { entry: s("\"chunk\""), validation_data: no_data() }), Ok(()));
}

#[test]
fn page_links_need_editors() {
    let yes: Result<(), String> = Ok(());
    let no: Result<(), String> = Err(s("missing role"));
    let add = LinkValidationData::LinkAdd { validation_data: no_data() };
    assert_eq!(validate_page_link(&add, &yes, &no), Ok(()));
    assert_eq!(validate_page_link(&add, &no, &no), Err(s("Only admins and editors edit content")));
}

#[test]
fn section_anchor() {
    assert_eq!(anchor_of(section(Some("anchor-1"), "x")), "anchor-1");
}

#[test]
fn narrower_filter_keeps_less() {
    let titles = strings(&["Home", "Homework", "Hom", "About"]);
    let wide = get_titles_filtered(&titles, "Hom");
    let narrow = get_titles_filtered(&titles, "Home");
    assert_eq!(wide, strings(&["Home", "Homework", "Hom"]));
    assert_eq!(narrow, strings(&["Home", "Homework"]));
    assert_eq!(get_titles_filtered(&wide, "Home"), narrow);
}
