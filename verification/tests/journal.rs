use white_rabbit::errors::Error;
use white_rabbit::models::journal::AccessItem;
use white_rabbit::models::{group, group_user, journal, journal_group, journal_user, user, AccessItemType};
use white_rabbit::services::auth::AuthUser;
use white_rabbit::services::condition::{Atom, Clause, Column, Value};
use white_rabbit::services::journal::{
    AccessLists, JournalAccess, JournalCommandCreate, JournalCommandUpdate, JournalFacts, JournalQuery,
    JournalService, JournalUpdate,
};
use white_rabbit::services::read_service::{ContainingUserQuery, ExternalQuery, FullTextQuery, IdQuery, TextQuery};

const J: u128 = 100;
const ALICE: u128 = 1;
const BOB: u128 = 2;
const CAROL: u128 = 3;
const TEAM: u128 = 50;

fn a_user(id: u128, role: user::Role) -> user::Model {
    user::Model { id, name: format!("user {}", id), role }
}

fn a_journal() -> journal::Model {
    journal::Model {
        id: J,
        name: "Household".to_owned(),
        description: "Money at home".to_owned(),
        unit: "EUR".to_owned(),
        is_archived: false,
    }
}

/// Alice administers the journal; Bob is a member; Carol is a member of a
/// group that is a member of the journal.
fn access() -> JournalAccess {
    JournalAccess {
        users: vec![
            journal_user::Model { journal_id: J, user_id: ALICE, is_admin: true },
            journal_user::Model { journal_id: J, user_id: BOB, is_admin: false },
        ],
        groups: vec![journal_group::Model { journal_id: J, group_id: TEAM, is_admin: false }],
        group_users: vec![group_user::Model { group_id: TEAM, user_id: CAROL, is_admin: false }],
    }
}

fn no_access() -> JournalAccess {
    JournalAccess { users: vec![], groups: vec![], group_users: vec![] }
}

fn empty_lists() -> AccessLists {
    AccessLists { admin_users: vec![], member_users: vec![], admin_groups: vec![], member_groups: vec![] }
}

fn create_command(name: &str) -> JournalCommandCreate {
    JournalCommandCreate {
        target_id: None,
        name: name.to_owned(),
        description: "new journal description".to_owned(),
        unit: "UNIT".to_owned(),
        tags: vec!["new tag 1".to_owned(), "new tag 2".to_owned(), "new tag 1".to_owned()],
        admins: vec![],
        members: vec![],
    }
}

fn update_command() -> JournalCommandUpdate {
    JournalCommandUpdate {
        target_id: J,
        name: None,
        description: None,
        unit: None,
        is_archived: None,
        tags: None,
        admins: None,
        members: None,
    }
}

#[test]
fn condition_hides_archived_by_default() {
    let q = JournalQuery {
        full_text: None,
        containing_user: None,
        id: Some(IdQuery::Single(J)),
        name: Some(TextQuery::Value("Household".to_owned())),
        description: None,
        unit: Some("EUR".to_owned()),
        tag: Some(TextQuery::FullText("x".to_owned())),
        admins: None,
        members: None,
        include_archived: None,
    };
    let cond = q.into_condition();
    assert_eq!(cond.clauses.len(), 4);
    assert!(matches!(&cond.clauses[0], Clause::Atom(Atom::Eq(Column::JournalId, Value::Id(J)))));
    assert!(matches!(&cond.clauses[1], Clause::Atom(Atom::Eq(Column::JournalName, Value::Text(t))) if t == "Household"));
    assert!(matches!(&cond.clauses[2], Clause::Atom(Atom::Eq(Column::JournalUnit, Value::Text(t))) if t == "EUR"));
    assert!(matches!(&cond.clauses[3], Clause::Atom(Atom::Eq(Column::JournalIsArchived, Value::Bool(false)))));
}

#[test]
fn condition_with_archived_and_admins() {
    let q = JournalQuery {
        full_text: None,
        containing_user: None,
        id: None,
        name: None,
        description: None,
        unit: None,
        tag: None,
        admins: Some(vec![
            AccessItem { typ: AccessItemType::User, id: ALICE },
            AccessItem { typ: AccessItemType::Group, id: TEAM },
        ]),
        members: Some(vec![AccessItem { typ: AccessItemType::User, id: BOB }]),
        include_archived: Some(true),
    };
    let cond = q.into_condition();
    assert_eq!(cond.clauses.len(), 2);
    match &cond.clauses[0] {
        Clause::Any(groups) => {
            assert_eq!(groups.len(), 2);
            assert!(matches!(&groups[0][0], Atom::IsIn(Column::JournalGroupGroupId, v) if v.len() == 1));
            assert!(matches!(&groups[0][1], Atom::Eq(Column::JournalGroupIsAdmin, Value::Bool(true))));
            assert!(matches!(&groups[1][0], Atom::IsIn(Column::JournalUserUserId, v) if v.len() == 1));
            assert!(matches!(&groups[1][1], Atom::Eq(Column::JournalGroupIsAdmin, Value::Bool(true))));
        },
        _ => panic!("expected a disjunction"),
    }
    match &cond.clauses[1] {
        Clause::Any(groups) => {
            assert_eq!(groups.len(), 1);
            assert!(matches!(&groups[0][1], Atom::Eq(Column::JournalGroupIsAdmin, Value::Bool(false))));
        },
        _ => panic!("expected a disjunction"),
    }
}

#[test]
fn external_queries_of_journal_query() {
    let q = JournalQuery {
        full_text: Some(FullTextQuery { value: "a".to_owned(), fields: None }),
        containing_user: Some(ContainingUserQuery::Value(ALICE)),
        id: None,
        name: Some(TextQuery::FullText("b".to_owned())),
        description: Some("c".to_owned()),
        unit: None,
        tag: Some(TextQuery::Value("d".to_owned())),
        admins: None,
        members: None,
        include_archived: None,
    };
    let v = q.into_external_queries();
    assert_eq!(v.len(), 4);
    assert!(matches!(&v[0], ExternalQuery::ContainingUser(ContainingUserQuery::Value(ALICE))));
    assert!(matches!(&v[1], ExternalQuery::FullText(f) if f.value == "a" && f.fields.is_none()));
    assert!(matches!(&v[2], ExternalQuery::FullText(f) if f.value == "b" && f.fields == Some(vec!["name".to_owned()])));
    assert!(matches!(&v[3], ExternalQuery::FullText(f) if f.value == "c" && f.fields == Some(vec!["description".to_owned()])));
}

#[test]
fn contain_user_directly_and_through_group() {
    let j = a_journal();
    let a = access();
    assert!(JournalService::contain_user(&j, &a, ALICE, None));
    assert!(JournalService::contain_user(&j, &a, BOB, None));
    assert!(JournalService::contain_user(&j, &a, CAROL, None));
    assert!(!JournalService::contain_user(&j, &a, 99, None));
    assert!(JournalService::contain_user(&j, &a, ALICE, Some(vec!["admins".to_owned()])));
    assert!(!JournalService::contain_user(&j, &a, BOB, Some(vec!["admins".to_owned()])));
    assert!(JournalService::contain_user(&j, &a, CAROL, Some(vec!["members".to_owned()])));
    assert!(!JournalService::contain_user(&j, &a, ALICE, Some(vec![])));
}

#[test]
fn readers_of_a_journal() {
    let j = a_journal();
    let a = access();
    assert!(JournalService::is_readable(&AuthUser::User(a_user(BOB, user::Role::User)), &j, &a));
    assert!(!JournalService::is_readable(&AuthUser::User(a_user(99, user::Role::User)), &j, &a));
    assert!(JournalService::is_readable(&AuthUser::User(a_user(99, user::Role::Admin)), &j, &a));
    assert!(!JournalService::is_readable(&AuthUser::Id(("Provider".to_owned(), "Value".to_owned())), &j, &a));
}

#[test]
fn writers_of_a_journal() {
    let j = a_journal();
    let a = access();
    assert!(JournalService::check_writeable(&a_user(ALICE, user::Role::User), &j, &a).is_ok());
    assert!(JournalService::check_writeable(&a_user(99, user::Role::Owner), &j, &a).is_ok());
    let refused = JournalService::check_writeable(&a_user(BOB, user::Role::User), &j, &a);
    assert!(matches!(refused, Err(Error::InvalidPermission { id: Some(J), .. })));
    let admin = JournalService::check_writeable(&a_user(99, user::Role::Admin), &j, &a);
    assert!(matches!(admin, Err(Error::InvalidPermission { .. })));
}

#[test]
fn full_text_any_field_matches() {
    let j = a_journal();
    let tags = vec!["groceries".to_owned()];
    let q = |value: &str, fields: Option<Vec<&str>>| FullTextQuery {
        value: value.to_owned(),
        fields: fields.map(|f| f.into_iter().map(|s| s.to_owned()).collect()),
    };
    assert!(JournalService::matches_full_text(&j, &tags, &q("House", None)));
    assert!(JournalService::matches_full_text(&j, &tags, &q("grocer", None)));
    assert!(!JournalService::matches_full_text(&j, &tags, &q("zzz", None)));
    assert!(!JournalService::matches_full_text(&j, &tags, &q("House", Some(vec!["description"]))));
    assert!(JournalService::matches_full_text(&j, &tags, &q("zzz", Some(vec!["description", "other"]))));
    assert!(!JournalService::matches_full_text(&j, &tags, &q("House", Some(vec![]))));
}

#[test]
fn filter_keeps_matching_journals() {
    let mut other = a_journal();
    other.id = 200;
    other.name = "Office".to_owned();
    let facts = vec![
        JournalFacts { tags: vec![], access: access() },
        JournalFacts { tags: vec![], access: no_access() },
    ];
    let kept = JournalService::filter_by_external_query(
        vec![a_journal(), other.clone()],
        &facts,
        &ExternalQuery::FullText(FullTextQuery { value: "Off".to_owned(), fields: None }),
    );
    assert_eq!(kept.len(), 1);
    assert_eq!(kept[0].id, 200);
    let kept = JournalService::filter_by_external_query(
        vec![a_journal(), other],
        &facts,
        &ExternalQuery::ContainingUser(ContainingUserQuery::Value(BOB)),
    );
    assert_eq!(kept.len(), 1);
    assert_eq!(kept[0].id, J);
}

#[test]
fn sortable_fields_of_journals() {
    assert_eq!(JournalService::sortable_field("name"), Some(Column::JournalName));
    assert_eq!(JournalService::sortable_field("unit"), Some(Column::JournalUnit));
    assert_eq!(JournalService::sortable_field("is_archived"), Some(Column::JournalIsArchived));
    assert_eq!(JournalService::sortable_field("description"), None);
    assert!(matches!(JournalService::sortable_value("unit", &a_journal()), Some(Value::Text(t)) if t == "EUR"));
}

#[test]
fn new_journal_without_admins_is_administered_by_its_creator() {
    let operator = a_user(ALICE, user::Role::User);
    let items = JournalService::admins_to_load(&operator, &create_command("Travel"));
    assert_eq!(items, vec![AccessItem { typ: AccessItemType::User, id: ALICE }]);
}

#[test]
fn create_journal() {
    let operator = a_user(ALICE, user::Role::User);
    let mut lists = empty_lists();
    lists.admin_users.push(operator.clone());
    let created = JournalService::create(&operator, create_command("new journal name"), false, &lists).unwrap();
    assert_eq!(created.model.name, "new journal name");
    assert_eq!(created.model.unit, "UNIT");
    assert!(!created.model.is_archived);
    assert_eq!(created.tags.len(), 2);
    assert_eq!(created.tags[0].tag, "new tag 1");
    assert_eq!(created.tags[1].tag, "new tag 2");
    assert_eq!(created.users.len(), 1);
    assert_eq!(created.users[0].user_id, ALICE);
    assert!(created.users[0].is_admin);
    assert_eq!(created.users[0].journal_id, created.model.id);
}

#[test]
fn create_journal_with_taken_name() {
    let operator = a_user(ALICE, user::Role::User);
    let r = JournalService::create(&operator, create_command("Household"), true, &empty_lists());
    assert!(matches!(r, Err(Error::AlreadyExists { value, .. }) if value == "Household"));
}

#[test]
fn create_journal_without_admin_fails() {
    let operator = a_user(ALICE, user::Role::User);
    let r = JournalService::create(&operator, create_command("Travel"), false, &empty_lists());
    assert!(matches!(r, Err(Error::LengthRange { field, min: 1, max: 8, .. }) if field == "admins"));
}

#[test]
fn validate_reports_every_error() {
    let model = journal::ActiveModel {
        id: Some(J),
        name: Some("abc".to_owned()),
        description: Some("d".repeat(1025)),
        unit: None,
        is_archived: None,
    };
    let bob = a_user(BOB, user::Role::User);
    let team = group::Model { id: TEAM, name: "Team".to_owned(), description: String::new() };
    let lists = AccessLists {
        admin_users: vec![bob.clone()],
        member_users: vec![bob],
        admin_groups: vec![team.clone()],
        member_groups: vec![team],
    };
    let tags: Vec<String> = (0..17).map(|i| format!("tag {}", i)).collect();
    match JournalService::validate(&model, &lists, Some(&tags)) {
        Err(Error::Errors(errors)) => {
            assert_eq!(errors.len(), 5);
            assert!(matches!(&errors[0], Error::LengthRange { field, .. } if field == "name"));
            assert!(matches!(&errors[1], Error::MaxLength { field, value: 1024, .. } if field == "description"));
            assert!(matches!(&errors[2], Error::DuplicatedAccessItem { access_item_type: AccessItemType::User, access_item_id: BOB, .. }));
            assert!(matches!(&errors[3], Error::DuplicatedAccessItem { access_item_type: AccessItemType::Group, access_item_id: TEAM, .. }));
            assert!(matches!(&errors[4], Error::MaxLength { field, value: 16, .. } if field == "tag"));
        },
        other => panic!("unexpected {:?}", other),
    }
}

#[test]
fn update_missing_journal() {
    let r = JournalService::update(
        &a_user(ALICE, user::Role::User),
        update_command(),
        None,
        &access(),
        false,
        empty_lists(),
        empty_lists(),
    );
    assert!(matches!(r, Err(Error::NotFound { field, .. }) if field == "id"));
}

#[test]
fn update_without_changes_keeps_journal() {
    let mut command = update_command();
    command.is_archived = Some(true);
    let r = JournalService::update(
        &a_user(ALICE, user::Role::User),
        command,
        Some(a_journal()),
        &access(),
        false,
        empty_lists(),
        empty_lists(),
    );
    assert!(matches!(r, Ok(JournalUpdate::Unchanged(m)) if m.id == J));
}

#[test]
fn update_by_member_is_refused() {
    let mut command = update_command();
    command.name = Some("Renamed".to_owned());
    let r = JournalService::update(
        &a_user(BOB, user::Role::User),
        command,
        Some(a_journal()),
        &access(),
        false,
        empty_lists(),
        empty_lists(),
    );
    assert!(matches!(r, Err(Error::InvalidPermission { .. })));
}

#[test]
fn update_rename_keeps_current_access() {
    let mut command = update_command();
    command.name = Some("Renamed".to_owned());
    command.tags = Some(vec!["a".to_owned(), "a".to_owned()]);
    let alice = a_user(ALICE, user::Role::User);
    let mut current = empty_lists();
    current.admin_users.push(alice.clone());
    let r = JournalService::update(&alice, command, Some(a_journal()), &access(), false, empty_lists(), current);
    match r {
        Ok(JournalUpdate::Write { model, tags, users, groups }) => {
            assert_eq!(model.name, Some("Renamed".to_owned()));
            assert_eq!(tags.unwrap().len(), 1);
            let users = users.unwrap();
            assert_eq!(users.len(), 1);
            assert!(users[0].is_admin);
            assert!(groups.is_none());
        },
        other => panic!("unexpected {:?}", other),
    }
}

#[test]
fn update_to_taken_name() {
    let mut command = update_command();
    command.name = Some("Office".to_owned());
    let r = JournalService::update(
        &a_user(ALICE, user::Role::User),
        command,
        Some(a_journal()),
        &access(),
        true,
        empty_lists(),
        empty_lists(),
    );
    assert!(matches!(r, Err(Error::AlreadyExists { value, .. }) if value == "Office"));
}

#[test]
fn delete_journal_rules() {
    let r = JournalService::delete(&a_user(ALICE, user::Role::User), J, Some(a_journal()), &access());
    assert!(r.is_ok());
    let r = JournalService::delete(&a_user(BOB, user::Role::User), J, Some(a_journal()), &access());
    assert!(matches!(r, Err(Error::InvalidPermission { .. })));
    let r = JournalService::delete(&a_user(ALICE, user::Role::User), J, None, &access());
    assert!(matches!(r, Err(Error::NotFound { .. })));
}

#[test]
fn readable_groups_are_loaded() {
    let operator = a_user(BOB, user::Role::User);
    let mine = group::Model { id: 60, name: "Mine".to_owned(), description: String::new() };
    let other = group::Model { id: 61, name: "Other".to_owned(), description: String::new() };
    let rows = vec![group_user::Model { group_id: 60, user_id: BOB, is_admin: false }];
    let (users, groups) = JournalService::load_access_items(&operator, vec![a_user(CAROL, user::Role::User)], vec![mine, other], &rows);
    assert_eq!(users.len(), 1);
    assert_eq!(groups.len(), 1);
    assert_eq!(groups[0].id, 60);
}

#[test]
fn whoever_writes_a_journal_reads_it() {
    let j = a_journal();
    let a = access();
    for u in [a_user(ALICE, user::Role::User), a_user(99, user::Role::Owner)] {
        assert!(JournalService::check_writeable(&u, &j, &a).is_ok());
        assert!(JournalService::is_readable(&AuthUser::User(u), &j, &a));
    }
}
