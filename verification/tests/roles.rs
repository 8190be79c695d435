use hwiki::assignment::{
    admin_assignment_of, assign_role, assignment_entry_definition, is_missing_locally, validate_assignment_entry,
    validate_assignment_link, Assignment,
};
use hwiki::chain::{find_entry, find_entry_with_address, ChainEntry};
use hwiki::constants::{ADMINISTRATOR_ROLE, ASSIGNMENT_TYPE, ROLE_TYPE};
use hwiki::definition::{
    EntryValidationData, LinkDirection, LinkValidationData, Sharing, SourceChain, ValidationData,
    ValidationPackageDefinition,
};
use hwiki::role::{role_entry_definition, validate_role_entry, validate_role_link, Role};
use hwiki::validation::{
    agent_has_role, get_initial_admins, initial_admins_from, is_agent_admin, is_agent_initial_admin,
    is_some_agent_admin, AdminContext,
};

fn s(x: &str) -> String {
    x.to_string()
}

fn assignment_entry(role: &str, agent: &str, admin: &str) -> ChainEntry<Assignment> {
    ChainEntry::App {
        entry_type: s(ASSIGNMENT_TYPE),
        address: Ok(s("assignment-address")),
        content: Some(Assignment::from(&s(role), &s(agent), &s(admin))),
    }
}

fn role_entry(name: &str, address: &str) -> ChainEntry<Role> {
    ChainEntry::App {
        entry_type: s(ROLE_TYPE),
        address: Ok(s(address)),
        content: Some(Role::from(s(name))),
    }
}

fn ctx(initial: &[&str]) -> AdminContext {
    AdminContext {
        initial_admins: Ok(initial.iter().map(|a| s(a)).collect()),
        admin_role_address: Ok(s("admin-role")),
    }
}

fn data(sources: &[&str], chain: Option<SourceChain>) -> ValidationData {
    ValidationData { sources: sources.iter().map(|a| s(a)).collect(), source_chain_entries: chain }
}

fn chain(roles: Vec<ChainEntry<Role>>, assignments: Vec<ChainEntry<Assignment>>) -> SourceChain {
    SourceChain { roles, assignments }
}

#[test]
fn role_from_keeps_its_name() {
    assert_eq!(Role::from(s("Editor")).name, "Editor");
    assert_eq!(Role::admin_role().name, "administrator");
    assert_eq!(ADMINISTRATOR_ROLE, "administrator");
}

#[test]
fn role_definition_links_to_assignments() {
    let d = role_entry_definition();
    assert_eq!(d.name, "role");
    assert_eq!(d.description, "Role entry that des");
    assert!(matches!(d.sharing, Sharing::Public));
    assert!(matches!(d.validation_package, ValidationPackageDefinition::ChainEntries));
    assert_eq!(d.links.len(), 1);
    assert!(matches!(d.links[0].direction, LinkDirection::To));
    assert_eq!(d.links[0].other_type, "role_assignment");
    assert_eq!(d.links[0].link_type, "role->role_assignment");
}

#[test]
fn assignment_definition_linked_from_agents() {
    let d = assignment_entry_definition();
    assert_eq!(d.name, "role_assignment");
    assert_eq!(d.links.len(), 1);
    assert!(matches!(d.links[0].direction, LinkDirection::From));
    assert_eq!(d.links[0].other_type, "%agent_id");
    assert_eq!(d.links[0].link_type, "agent->role_assignment");
}

#[test]
fn initial_admins_read_from_json() {
    let admins = get_initial_admins(Ok(s("[\"HcAlice\", \"HcBob\"]"))).unwrap();
    assert_eq!(admins, vec![s("HcAlice"), s("HcBob")]);
    assert_eq!(get_initial_admins(Ok(s("[]"))).unwrap(), Vec::<String>::new());
}

#[test]
fn initial_admins_errors() {
    assert_eq!(get_initial_admins(Ok(s("not json"))), Err(s("could not get initial admins list")));
    assert_eq!(get_initial_admins(Ok(s("{\"a\": 1}"))), Err(s("could not get initial admins list")));
    assert_eq!(get_initial_admins(Err(s("no property"))), Err(s("no property")));
    assert_eq!(initial_admins_from(None), Err(s("could not get initial admins list")));
    assert_eq!(initial_admins_from(Some(vec![s("x")])), Ok(vec![s("x")]));
}

#[test]
fn initial_admin_membership() {
    let admins = Ok(vec![s("HcAlice")]);
    assert_eq!(is_agent_initial_admin(&s("HcAlice"), &admins), Ok(true));
    assert_eq!(is_agent_initial_admin(&s("HcBob"), &admins), Ok(false));
    assert_eq!(is_agent_initial_admin(&s("HcBob"), &Err(s("e"))), Err(s("e")));
}

#[test]
fn agent_has_role_reads_assignments() {
    let entries = vec![
        ChainEntry::Other,
        assignment_entry("editor-role", "HcBob", "HcAlice"),
        ChainEntry::App { entry_type: s("role"), address: Ok(s("x")), content: Some(Assignment::from(&s("r"), &s("HcCarol"), &s("a"))) },
    ];
    assert_eq!(agent_has_role(&s("HcBob"), &s("editor-role"), &entries), Ok(true));
    assert_eq!(agent_has_role(&s("HcBob"), &s("other-role"), &entries), Ok(false));
    // an entry of another type does not count
    assert_eq!(agent_has_role(&s("HcCarol"), &s("r"), &entries), Ok(false));
}

#[test]
fn admins_initial_or_assigned() {
    let entries = vec![assignment_entry("admin-role", "HcBob", "HcAlice")];
    let c = ctx(&["HcAlice"]);
    assert_eq!(is_agent_admin(&s("HcAlice"), &c, &Vec::new()), Ok(true));
    assert_eq!(is_agent_admin(&s("HcBob"), &c, &entries), Ok(true));
    assert_eq!(is_agent_admin(&s("HcCarol"), &c, &entries), Ok(false));
    let broken = AdminContext { initial_admins: Ok(vec![]), admin_role_address: Err(s("no address")) };
    assert_eq!(is_agent_admin(&s("HcBob"), &broken, &entries), Err(s("no address")));
    let unreadable = AdminContext { initial_admins: Err(s("bad")), admin_role_address: Ok(s("admin-role")) };
    assert_eq!(is_agent_admin(&s("HcAlice"), &unreadable, &entries), Err(s("bad")));
}

#[test]
fn first_admin_among_signers() {
    let entries = vec![assignment_entry("admin-role", "HcBob", "HcAlice")];
    let c = ctx(&["HcAlice"]);
    let agents = vec![s("HcCarol"), s("HcBob"), s("HcAlice")];
    assert_eq!(is_some_agent_admin(&agents, &c, &entries), Ok(Some(s("HcBob"))));
    assert_eq!(is_some_agent_admin(&vec![s("HcCarol")], &c, &entries), Ok(None));
    let unreadable = AdminContext { initial_admins: Err(s("bad")), admin_role_address: Ok(s("admin-role")) };
    assert_eq!(is_some_agent_admin(&agents, &unreadable, &entries), Ok(None));
}

#[test]
fn find_entry_takes_first_match() {
    let entries = vec![
        assignment_entry("r1", "HcBob", "a1"),
        ChainEntry::App { entry_type: s(ASSIGNMENT_TYPE), address: Ok(s("x")), content: None },
        assignment_entry("r2", "HcBob", "a2"),
        assignment_entry("r3", "HcBob", "a3"),
    ];
    let found = find_entry(&entries, ASSIGNMENT_TYPE, |a: &Assignment| Ok(a.role_address != "r1")).unwrap();
    assert_eq!(found.admin_address, "a2");
    assert_eq!(found.role_address, "r2");
    let none = find_entry(&entries, ASSIGNMENT_TYPE, |_a: &Assignment| Err(s("no")));
    assert!(none.is_none());
    let other_type = find_entry(&entries, ROLE_TYPE, |_a: &Assignment| Ok(true));
    assert!(other_type.is_none());
}

#[test]
fn find_entry_gives_the_matching_content() {
    let roles = vec![role_entry("editor", "e"), role_entry("administrator", "a")];
    let pred = |r: &Role| Ok(r.name == "administrator");
    assert_eq!(find_entry(&roles, ROLE_TYPE, pred).unwrap().name, "administrator");
    assert!(find_entry(&roles, "user", pred).is_none());
}

#[test]
fn link_validators_accept_all() {
    let link = LinkValidationData::LinkAdd { validation_data: data(&["HcBob"], None) };
    assert_eq!(validate_role_link(&link), Ok(()));
    let link = LinkValidationData::LinkRemove { validation_data: data(&[], None) };
    assert_eq!(validate_assignment_link(&link), Ok(()));
}

#[test]
fn local_assignments_are_not_committed_again() {
    let local = vec![s("assignment-1")];
    assert!(!is_missing_locally(&local, &s("assignment-1")));
    assert!(is_missing_locally(&local, &s("assignment-2")));
}

#[test]
fn find_entry_with_address_outcomes() {
    let entries = vec![
        ChainEntry::Other,
        role_entry("Editor", "editor-address"),
        ChainEntry::App { entry_type: s(ROLE_TYPE), address: Ok(s("garbled")), content: None },
    ];
    let found = find_entry_with_address(&entries, ROLE_TYPE, s("editor-address")).unwrap().unwrap();
    assert_eq!(found.name, "Editor");
    assert!(find_entry_with_address(&entries, ROLE_TYPE, s("elsewhere")).unwrap().is_none());
    assert!(find_entry_with_address(&entries, "other", s("editor-address")).unwrap().is_none());
    assert_eq!(
        find_entry_with_address(&entries, ROLE_TYPE, s("garbled")).err(),
        Some(s("Error converting entry"))
    );
    let failing: Vec<ChainEntry<Role>> = vec![
        ChainEntry::App { entry_type: s("anything"), address: Err(s("cannot hash")), content: None },
        role_entry("Editor", "editor-address"),
    ];
    assert_eq!(
        find_entry_with_address(&failing, ROLE_TYPE, s("editor-address")).err(),
        Some(s("cannot hash"))
    );
}

#[test]
fn anyone_creates_the_administrator_role() {
    let v = EntryValidationData::Create { entry: Role::admin_role(), validation_data: data(&["HcNobody"], None) };
    assert_eq!(validate_role_entry(&v, &ctx(&[])), Ok(()));
}

#[test]
fn only_admins_create_roles() {
    let by_admin = EntryValidationData::Create {
        entry: Role::from(s("Editor")),
        validation_data: data(&["HcCarol", "HcAlice"], Some(chain(vec![], vec![]))),
    };
    assert_eq!(validate_role_entry(&by_admin, &ctx(&["HcAlice"])), Ok(()));
    let by_assigned = EntryValidationData::Create {
        entry: Role::from(s("Editor")),
        validation_data: data(&["HcBob"], Some(chain(vec![], vec![assignment_entry("admin-role", "HcBob", "HcAlice")]))),
    };
    assert_eq!(validate_role_entry(&by_assigned, &ctx(&["HcAlice"])), Ok(()));
    let by_other = EntryValidationData::Create {
        entry: Role::from(s("Editor")),
        validation_data: data(&["HcCarol"], Some(chain(vec![], vec![]))),
    };
    assert_eq!(validate_role_entry(&by_other, &ctx(&["HcAlice"])), Err(s("Only admins can create roles")));
}

#[test]
fn roles_keep_names_and_are_never_deleted() {
    let same = EntryValidationData::Modify {
        new_entry: Role::from(s("Editor")),
        old_entry: Role::from(s("Editor")),
        validation_data: data(&[], None),
    };
    assert_eq!(validate_role_entry(&same, &ctx(&[])), Ok(()));
    let renamed = EntryValidationData::Modify {
        new_entry: Role::from(s("Writer")),
        old_entry: Role::from(s("Editor")),
        validation_data: data(&[], None),
    };
    assert_eq!(validate_role_entry(&renamed, &ctx(&[])), Err(s("Cannot modify the contents of the entry")));
    let deleted = EntryValidationData::Delete { old_entry: Role::from(s("Editor")), validation_data: data(&[], None) };
    assert_eq!(validate_role_entry(&deleted, &ctx(&[])), Err(s("Cannot delete roles")));
}

fn create_assignment(a: Assignment, sources: &[&str], c: Option<SourceChain>) -> EntryValidationData<Assignment> {
    EntryValidationData::Create { entry: a, validation_data: data(sources, c) }
}

#[test]
fn accepted_assignment() {
    let a = Assignment::from(&s("editor-role"), &s("HcBob"), &s("HcAlice"));
    let c = chain(vec![role_entry("Editor", "editor-role")], vec![]);
    assert_eq!(validate_assignment_entry(&create_assignment(a, &["HcAlice"], Some(c)), &ctx(&["HcAlice"])), Ok(()));
}

#[test]
fn assignment_errors() {
    let editor = || Assignment::from(&s("editor-role"), &s("HcBob"), &s("HcAlice"));
    let a = editor();
    assert_eq!(
        validate_assignment_entry(&create_assignment(editor(), &["HcBob"], None), &ctx(&["HcAlice"])),
        Err(s("Assignment must be signed by its issuing admin"))
    );
    let no_address = AdminContext { initial_admins: Ok(vec![s("HcAlice")]), admin_role_address: Err(s("cannot hash")) };
    assert_eq!(
        validate_assignment_entry(&create_assignment(editor(), &["HcAlice"], None), &no_address),
        Err(s("cannot hash"))
    );
    let mut admin = Assignment::from(&s("admin-role"), &s("HcBob"), &s("HcAlice"));
    admin.metadata = Some(s("{}"));
    assert_eq!(
        validate_assignment_entry(&create_assignment(admin, &["HcAlice"], None), &ctx(&["HcAlice"])),
        Err(s("Cannot put metadata in an administrator assignment"))
    );
    assert_eq!(
        validate_assignment_entry(&create_assignment(editor(), &["HcAlice"], Some(chain(vec![], vec![]))), &ctx(&["HcAlice"])),
        Err(s("The role entry should always accompany the assignment entry"))
    );
    let garbled = chain(vec![ChainEntry::App { entry_type: s(ROLE_TYPE), address: Ok(s("editor-role")), content: None }], vec![]);
    assert_eq!(
        validate_assignment_entry(&create_assignment(editor(), &["HcAlice"], Some(garbled)), &ctx(&["HcAlice"])),
        Err(s("Error converting entry"))
    );
    let c = chain(vec![role_entry("Editor", "editor-role")], vec![]);
    assert_eq!(
        validate_assignment_entry(&create_assignment(editor(), &["HcAlice"], Some(c)), &ctx(&["HcZed"])),
        Err(s("Only admins can create roles"))
    );
    let modify = EntryValidationData::Modify { new_entry: editor(), old_entry: editor(), validation_data: data(&["HcAlice"], None) };
    assert_eq!(validate_assignment_entry(&modify, &ctx(&["HcAlice"])), Err(s("Cannot modify or delete role assignments")));
    let delete = EntryValidationData::Delete { old_entry: a, validation_data: data(&["HcAlice"], None) };
    assert_eq!(validate_assignment_entry(&delete, &ctx(&["HcAlice"])), Err(s("Cannot modify or delete role assignments")));
}

#[test]
fn administrator_assignment_without_metadata_is_accepted() {
    let a = Assignment::from(&s("admin-role"), &s("HcBob"), &s("HcAlice"));
    let c = chain(vec![role_entry(ADMINISTRATOR_ROLE, "admin-role")], vec![]);
    assert_eq!(validate_assignment_entry(&create_assignment(a, &["HcAlice"], Some(c)), &ctx(&["HcAlice"])), Ok(()));
}

#[test]
fn admin_assignment_lookup() {
    let list = vec![
        Assignment::from(&s("editor-role"), &s("HcBob"), &s("HcAlice")),
        Assignment::from(&s("admin-role"), &s("HcBob"), &s("HcAlice")),
        Assignment::from(&s("admin-role"), &s("HcBob"), &s("HcCarol")),
    ];
    let found = admin_assignment_of(&s("HcBob"), &s("admin-role"), &list).unwrap();
    assert_eq!(found.admin_address, "HcAlice");
    assert_eq!(
        admin_assignment_of(&s("HcDan"), &s("admin-role"), &list).err(),
        Some(s("Agent with address HcDan is not an administrator"))
    );
}

#[test]
fn assigning_roles() {
    let a = assign_role(&s("editor-role"), &s("HcBob"), &s("HcAlice"), true).unwrap();
    assert_eq!(a.role_address, "editor-role");
    assert_eq!(a.agent_address, "HcBob");
    assert_eq!(a.admin_address, "HcAlice");
    assert!(a.metadata.is_none());
    assert_eq!(
        assign_role(&s("editor-role"), &s("HcBob"), &s("HcAlice"), false).err(),
        Some(s("Cannot assign a role that has not been created yet"))
    );
}
