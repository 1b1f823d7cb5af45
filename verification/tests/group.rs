use white_rabbit::errors::Error;
use white_rabbit::models::{group, group_user, user, AccessItemType};
use white_rabbit::services::auth::AuthUser;
use white_rabbit::services::condition::{Atom, Clause, Column, Value};
use white_rabbit::services::group::{GroupCommandCreate, GroupCommandUpdate, GroupQuery, GroupService, GroupUpdate};
use white_rabbit::services::read_service::{ContainingUserQuery, ExternalQuery, FullTextQuery, IdQuery, TextQuery};

const G: u128 = 10;
const ADA: u128 = 1;
const BEN: u128 = 2;

fn a_user(id: u128, role: user::Role) -> user::Model {
    user::Model { id, name: format!("user {}", id), role }
}

fn a_group() -> group::Model {
    group::Model { id: G, name: "Family".to_owned(), description: "The people at home".to_owned() }
}

fn rows() -> Vec<group_user::Model> {
    vec![
        group_user::Model { group_id: G, user_id: ADA, is_admin: true },
        group_user::Model { group_id: G, user_id: BEN, is_admin: false },
    ]
}

#[test]
fn group_condition_with_containing_user_fields() {
    let q = GroupQuery {
        containing_user: Some(ContainingUserQuery::Object { id: ADA, fields: Some(vec!["admins".to_owned()]) }),
        id: Some(IdQuery::Multiple(vec![G, 11])),
        name: Some(TextQuery::Value("Family".to_owned())),
        description: None,
        admins: None,
        members: Some(vec![BEN]),
    };
    let cond = q.into_condition();
    assert_eq!(cond.clauses.len(), 4);
    assert!(matches!(&cond.clauses[0], Clause::Atom(Atom::IsIn(Column::GroupId, v)) if v.len() == 2));
    match &cond.clauses[2] {
        Clause::All(atoms) => {
            assert_eq!(atoms.len(), 2);
            assert!(matches!(&atoms[0], Atom::Eq(Column::GroupUserUserId, Value::Id(ADA))));
            assert!(matches!(&atoms[1], Atom::Eq(Column::GroupUserIsAdmin, Value::Bool(true))));
        },
        _ => panic!("expected a conjunction"),
    }
    match &cond.clauses[3] {
        Clause::All(atoms) => {
            assert!(matches!(&atoms[1], Atom::Eq(Column::GroupUserIsAdmin, Value::Bool(false))));
        },
        _ => panic!("expected a conjunction"),
    }
}

#[test]
fn group_contain_user() {
    let g = a_group();
    assert!(GroupService::contain_user(&g, &rows(), ADA, None));
    assert!(GroupService::contain_user(&g, &rows(), BEN, None));
    assert!(!GroupService::contain_user(&g, &rows(), BEN, Some(vec!["admins".to_owned()])));
    assert!(GroupService::contain_user(&g, &rows(), BEN, Some(vec!["members".to_owned()])));
    assert!(!GroupService::contain_user(&g, &rows(), 3, None));
}

#[test]
fn group_readers_and_writers() {
    let g = a_group();
    assert!(GroupService::is_readable(&AuthUser::User(a_user(BEN, user::Role::User)), &g, &rows()));
    assert!(!GroupService::is_readable(&AuthUser::User(a_user(3, user::Role::User)), &g, &rows()));
    assert!(GroupService::is_readable(&AuthUser::User(a_user(3, user::Role::Admin)), &g, &rows()));
    assert!(!GroupService::is_readable(&AuthUser::Id(("p".to_owned(), "v".to_owned())), &g, &rows()));
    assert!(GroupService::check_writeable(&a_user(ADA, user::Role::User), &g, &rows()).is_ok());
    assert!(GroupService::check_writeable(&a_user(3, user::Role::Admin), &g, &rows()).is_ok());
    assert!(matches!(
        GroupService::check_writeable(&a_user(BEN, user::Role::User), &g, &rows()),
        Err(Error::InvalidPermission { id: Some(G), .. })
    ));
}

#[test]
fn group_full_text_needs_every_named_field() {
    let g = a_group();
    let q = |fields: Option<Vec<&str>>| FullTextQuery {
        value: "Fam".to_owned(),
        fields: fields.map(|f| f.into_iter().map(|s| s.to_owned()).collect()),
    };
    assert!(GroupService::matches_full_text(&g, &q(None)));
    assert!(GroupService::matches_full_text(&g, &q(Some(vec!["name"]))));
    assert!(!GroupService::matches_full_text(&g, &q(Some(vec!["name", "description"]))));
    let kept = GroupService::filter_by_external_query(
        vec![a_group()],
        &ExternalQuery::FullText(FullTextQuery { value: "zzz".to_owned(), fields: None }),
    );
    assert!(kept.is_empty());
}

#[test]
fn create_group_memberships() {
    let operator = a_user(ADA, user::Role::User);
    let command = GroupCommandCreate {
        target_id: None,
        name: "Friends".to_owned(),
        description: String::new(),
        admins: vec![],
        members: vec![BEN],
    };
    assert_eq!(GroupService::admins_to_load(&operator, &command), vec![ADA]);
    let created = GroupService::create(&operator, command, false, &vec![operator.clone()], &vec![a_user(BEN, user::Role::User)])
        .unwrap();
    assert_eq!(created.model.name, "Friends");
    assert_eq!(created.users.len(), 2);
    assert!(created.users[0].is_admin && created.users[0].user_id == ADA);
    assert!(!created.users[1].is_admin && created.users[1].user_id == BEN);
}

#[test]
fn create_group_with_duplicate_access() {
    let operator = a_user(ADA, user::Role::User);
    let command = GroupCommandCreate {
        target_id: None,
        name: "Friends".to_owned(),
        description: String::new(),
        admins: vec![],
        members: vec![ADA],
    };
    let r = GroupService::create(&operator, command, false, &vec![operator.clone()], &vec![operator.clone()]);
    assert!(matches!(r, Err(Error::DuplicatedAccessItem { access_item_type: AccessItemType::User, access_item_id: ADA, .. })));
}

#[test]
fn update_group() {
    let command = GroupCommandUpdate {
        target_id: G,
        name: Some("Kinfolk".to_owned()),
        description: None,
        admins: None,
        members: None,
    };
    let ada = a_user(ADA, user::Role::User);
    let r = GroupService::update(&ada, command, Some(a_group()), &rows(), false, &vec![], &vec![], &vec![ada.clone()], &vec![]);
    match r {
        Ok(GroupUpdate::Write { model, users }) => {
            assert_eq!(model.name, Some("Kinfolk".to_owned()));
            assert_eq!(users.len(), 1);
        },
        other => panic!("unexpected {:?}", other),
    }
    let empty = GroupCommandUpdate { target_id: G, name: None, description: None, admins: None, members: None };
    let r = GroupService::update(&ada, empty, Some(a_group()), &rows(), false, &vec![], &vec![], &vec![], &vec![]);
    assert!(matches!(r, Ok(GroupUpdate::Unchanged(_))));
}

#[test]
fn delete_group() {
    assert!(GroupService::delete(&a_user(ADA, user::Role::User), G, Some(a_group()), &rows()).is_ok());
    assert!(matches!(GroupService::delete(&a_user(ADA, user::Role::User), G, None, &rows()), Err(Error::NotFound { .. })));
}
