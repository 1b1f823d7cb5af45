use white_rabbit::errors::Error;
use white_rabbit::models::user;
use white_rabbit::services::auth::{AuthUser, Permission};
use white_rabbit::services::condition::{Atom, Clause, Column, Value};
use white_rabbit::services::read_service::{ExternalQuery, FullTextQuery, TextQuery};
use white_rabbit::services::user::{UserCommand, UserCommandCreate, UserCommandUpdate, UserQuery, UserService, UserUpdate};
use white_rabbit::services::write_service::{AbstractCommand, IdMap};

fn a_user(id: u128, role: user::Role) -> user::Model {
    user::Model { id, name: format!("user {}", id), role }
}

fn identity() -> AuthUser {
    AuthUser::Id(("Provider".to_owned(), "Value".to_owned()))
}

#[test]
fn user_condition_and_externals() {
    let q = UserQuery {
        id: None,
        name: Some(TextQuery::FullText("ali".to_owned())),
        role: Some(user::Role::Admin),
        auth_id_providers: Some(vec!["github".to_owned()]),
    };
    let cond = q.into_condition();
    assert_eq!(cond.clauses.len(), 2);
    assert!(matches!(&cond.clauses[0], Clause::Atom(Atom::Eq(Column::UserRole, Value::Role(user::Role::Admin)))));
    assert!(matches!(&cond.clauses[1], Clause::Atom(Atom::IsIn(Column::AuthIdProvider, v)) if v.len() == 1));
    let q = UserQuery { id: None, name: Some(TextQuery::FullText("ali".to_owned())), role: None, auth_id_providers: None };
    let v = q.into_external_queries();
    assert_eq!(v.len(), 1);
    assert!(matches!(&v[0], ExternalQuery::FullText(f) if f.value == "ali"));
}

#[test]
fn user_filter_looks_at_name() {
    let kept = UserService::filter_by_external_query(
        vec![a_user(1, user::Role::User), user::Model { id: 2, name: "alice".to_owned(), role: user::Role::User }],
        &ExternalQuery::FullText(FullTextQuery { value: "ali".to_owned(), fields: Some(vec!["other".to_owned()]) }),
    );
    assert_eq!(kept.len(), 1);
    assert_eq!(kept[0].id, 2);
    assert_eq!(UserService::sortable_field("name"), Some(Column::UserName));
    assert_eq!(UserService::sortable_field("role"), None);
}

#[test]
fn identity_creates_plain_user_with_its_identity() {
    let command = UserCommandCreate {
        target_id: None,
        name: "new user name".to_owned(),
        role: user::Role::User,
        auth_ids: vec![],
    };
    let created = UserService::create(&identity(), command, false).unwrap();
    assert_eq!(created.model.name, "new user name");
    assert_eq!(created.model.role, user::Role::User);
    assert_eq!(created.auth_ids.len(), 1);
    assert_eq!(created.auth_ids[0].user_id, created.model.id);
    assert_eq!(created.auth_ids[0].provider, "Provider");
    assert_eq!(created.auth_ids[0].value, "Value");
}

#[test]
fn identity_cannot_create_admin() {
    let command = UserCommandCreate { target_id: None, name: "New User".to_owned(), role: user::Role::Admin, auth_ids: vec![] };
    let r = UserService::create(&identity(), command, false);
    assert!(matches!(r, Err(Error::InvalidPermission { user, id: None, permission: Permission::Write, .. }) if user == "Value"));
}

#[test]
fn admin_creates_user_with_identities() {
    let command = UserCommandCreate {
        target_id: None,
        name: "new user name".to_owned(),
        role: user::Role::User,
        auth_ids: vec![
            ("Provider 1".to_owned(), "Value 1".to_owned()),
            ("Provider 2".to_owned(), "Value 2".to_owned()),
            ("Provider 1".to_owned(), "Value 1".to_owned()),
        ],
    };
    let created = UserService::create(&AuthUser::User(a_user(9, user::Role::Admin)), command, false).unwrap();
    assert_eq!(created.auth_ids.len(), 2);
    assert_eq!(created.auth_ids[1].provider, "Provider 2");
}

#[test]
fn admin_cannot_create_admin() {
    let command = UserCommandCreate { target_id: None, name: "New User".to_owned(), role: user::Role::Admin, auth_ids: vec![] };
    let r = UserService::create(&AuthUser::User(a_user(9, user::Role::Admin)), command, false);
    assert!(matches!(r, Err(Error::InvalidPermission { .. })));
}

#[test]
fn owner_creates_admin_needs_identities() {
    let command = UserCommandCreate { target_id: None, name: "New User".to_owned(), role: user::Role::Admin, auth_ids: vec![] };
    let r = UserService::create(&AuthUser::User(a_user(9, user::Role::Owner)), command, false);
    assert!(matches!(r, Err(Error::LengthRange { field, min: 1, max: 8, .. }) if field == "authIds"));
}

#[test]
fn create_user_with_taken_name() {
    let command = UserCommandCreate { target_id: None, name: "Taken".to_owned(), role: user::Role::User, auth_ids: vec![] };
    let r = UserService::create(&identity(), command, true);
    assert!(matches!(r, Err(Error::AlreadyExists { value, .. }) if value == "Taken"));
}

#[test]
fn update_user_permissions() {
    let target = a_user(5, user::Role::Admin);
    let command = |role: Option<user::Role>| UserCommandUpdate { target_id: 5, name: Some("Renamed".to_owned()), role, auth_ids: None };
    let r = UserService::update(&a_user(6, user::Role::Admin), command(None), Some(target.clone()));
    assert!(matches!(r, Err(Error::InvalidPermission { id: Some(5), .. })));
    let r = UserService::update(&a_user(6, user::Role::Owner), command(None), Some(target.clone()));
    assert!(matches!(r, Ok(UserUpdate::Write { .. })));
    let r = UserService::update(&a_user(5, user::Role::Admin), command(Some(user::Role::Owner)), Some(target.clone()));
    assert!(matches!(r, Ok(UserUpdate::Write { .. })));
    let plain = a_user(7, user::Role::User);
    let r = UserService::update(&a_user(6, user::Role::Admin), command(Some(user::Role::Admin)), Some(plain.clone()));
    assert!(matches!(r, Err(Error::InvalidPermission { .. })));
    let r = UserService::update(&a_user(6, user::Role::Admin), UserCommandUpdate { target_id: 7, name: None, role: None, auth_ids: None }, Some(plain));
    assert!(matches!(r, Ok(UserUpdate::Unchanged(u)) if u.id == 7));
}

#[test]
fn update_user_identities() {
    let me = a_user(5, user::Role::User);
    let command = UserCommandUpdate {
        target_id: 5,
        name: None,
        role: None,
        auth_ids: Some(vec![("p".to_owned(), "v".to_owned())]),
    };
    match UserService::update(&me, command, Some(me.clone())) {
        Ok(UserUpdate::Write { model, auth_ids }) => {
            assert_eq!(model.id, Some(5));
            let rows = auth_ids.unwrap();
            assert_eq!(rows.len(), 1);
            assert_eq!(rows[0].user_id, 5);
        },
        other => panic!("unexpected {:?}", other),
    }
}

#[test]
fn delete_user_permissions() {
    assert!(UserService::delete(&a_user(5, user::Role::User), 5, Some(a_user(5, user::Role::User))).is_ok());
    assert!(matches!(
        UserService::delete(&a_user(5, user::Role::Admin), 6, Some(a_user(6, user::Role::Admin))),
        Err(Error::InvalidPermission { .. })
    ));
    assert!(UserService::delete(&a_user(5, user::Role::Admin), 6, Some(a_user(6, user::Role::User))).is_ok());
    assert!(matches!(UserService::delete(&a_user(5, user::Role::Owner), 6, None), Err(Error::NotFound { .. })));
}

#[test]
fn only_known_users_change_users() {
    let create = UserCommand::Create(UserCommandCreate { target_id: None, name: "x".to_owned(), role: user::Role::User, auth_ids: vec![] });
    assert!(UserService::admits(&identity(), &create).is_ok());
    assert!(matches!(UserService::admits(&identity(), &UserCommand::Delete(5)), Err(Error::InvalidPermission { id: Some(5), .. })));
    assert!(UserService::admits(&AuthUser::User(a_user(1, user::Role::User)), &UserCommand::Delete(5)).is_ok());
}

#[test]
fn batch_runs_later_commands_on_created_user() {
    let placeholder = 0xabc;
    let mut ids = IdMap::new();
    let create = UserCommand::Create(UserCommandCreate { target_id: Some(placeholder), name: "new user name".to_owned(), role: user::Role::User, auth_ids: vec![] });
    let create = ids.resolve(create);
    assert_eq!(create.target_id(), Some(placeholder));
    ids.learn(Some(placeholder), Some(77));
    let update = ids.resolve(UserCommand::Update(UserCommandUpdate { target_id: placeholder, name: Some("new new user name".to_owned()), role: None, auth_ids: None }));
    assert_eq!(update.target_id(), Some(77));
    let delete = ids.resolve(UserCommand::Delete(placeholder));
    assert!(matches!(delete, UserCommand::Delete(77)));
    let other = ids.resolve(UserCommand::Delete(5));
    assert!(matches!(other, UserCommand::Delete(5)));
}

#[test]
fn plain_user_changes_no_other_user() {
    let command = UserCommandUpdate { target_id: 8, name: None, role: None, auth_ids: None };
    let r = UserService::update(&a_user(7, user::Role::User), command, Some(a_user(8, user::Role::User)));
    assert!(matches!(r, Err(Error::InvalidPermission { id: Some(8), .. })));
}

#[test]
fn owner_update_outcome_is_that_of_the_checks() {
    let command = UserCommandUpdate { target_id: 8, name: Some("abc".to_owned()), role: None, auth_ids: None };
    let r = UserService::update(&a_user(7, user::Role::Owner), command, Some(a_user(8, user::Role::Owner)));
    assert!(matches!(r, Err(Error::LengthRange { field, .. }) if field == "name"));
}
