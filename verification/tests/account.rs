use white_rabbit::errors::Error;
use white_rabbit::models::account::{Strategy, Type};
use white_rabbit::models::{account, journal, journal_user, user};
use white_rabbit::services::account::{AccountCommandCreate, AccountCommandUpdate, AccountQuery, AccountService, AccountUpdate};
use white_rabbit::services::auth::AuthUser;
use white_rabbit::services::condition::{Atom, Clause, Column, Value};
use white_rabbit::services::journal::JournalAccess;
use white_rabbit::services::read_service::{ContainingUserQuery, ExternalQuery, FullTextQuery, TextQuery};

const J: u128 = 100;
const A: u128 = 300;
const ALICE: u128 = 1;

fn a_user(id: u128, role: user::Role) -> user::Model {
    user::Model { id, name: format!("user {}", id), role }
}

fn a_journal() -> journal::Model {
    journal::Model { id: J, name: "Household".to_owned(), description: String::new(), unit: "EUR".to_owned(), is_archived: false }
}

fn access() -> JournalAccess {
    JournalAccess {
        users: vec![journal_user::Model { journal_id: J, user_id: ALICE, is_admin: true }],
        groups: vec![],
        group_users: vec![],
    }
}

fn an_account() -> account::Model {
    account::Model {
        id: A,
        journal_id: J,
        name: "Cash".to_owned(),
        description: "Coins and notes".to_owned(),
        typ: Type::Asset,
        strategy: Strategy::Fifo,
        unit: "EUR".to_owned(),
        is_archived: false,
    }
}

fn create_command(name: &str) -> AccountCommandCreate {
    AccountCommandCreate {
        target_id: None,
        journal_id: J,
        name: name.to_owned(),
        description: "Desc Account 1-1".to_owned(),
        typ: Type::Income,
        strategy: Strategy::Average,
        unit: "CNY".to_owned(),
        tags: vec!["Tag 1".to_owned(), "Tag 2".to_owned()],
    }
}

#[test]
fn account_condition() {
    let q = AccountQuery {
        full_text: None,
        id: None,
        journal: Some(J),
        name: None,
        description: None,
        typ: Some(Type::Asset),
        strategy: None,
        unit: None,
        tag: Some(TextQuery::Value("t".to_owned())),
        include_archived: Some(true),
    };
    let cond = q.into_condition();
    assert_eq!(cond.clauses.len(), 3);
    assert!(matches!(&cond.clauses[0], Clause::Atom(Atom::Eq(Column::AccountJournalId, Value::Id(J)))));
    assert!(matches!(&cond.clauses[1], Clause::Atom(Atom::Eq(Column::AccountTyp, Value::AccountType(Type::Asset)))));
    assert!(matches!(&cond.clauses[2], Clause::Atom(Atom::Eq(Column::AccountTagTag, Value::Text(t))) if t == "t"));
}

#[test]
fn account_readers_and_writers() {
    let j = Some(a_journal());
    assert!(AccountService::is_readable(&AuthUser::User(a_user(ALICE, user::Role::User)), &j, &access()));
    assert!(!AccountService::is_readable(&AuthUser::User(a_user(2, user::Role::User)), &j, &access()));
    assert!(!AccountService::is_readable(&AuthUser::User(a_user(ALICE, user::Role::User)), &None, &access()));
    assert!(AccountService::is_readable(&AuthUser::User(a_user(2, user::Role::Admin)), &None, &access()));
    assert!(AccountService::check_writeable(&a_user(ALICE, user::Role::User), &an_account(), &j, &access()).is_ok());
    let missing = AccountService::check_writeable(&a_user(ALICE, user::Role::User), &an_account(), &None, &access());
    assert!(matches!(missing, Err(Error::NotFound { entity, .. }) if entity == "journal"));
    assert!(AccountService::check_writeable(&a_user(2, user::Role::Owner), &an_account(), &None, &access()).is_ok());
}

#[test]
fn account_filter() {
    let tags = vec![vec!["cash".to_owned()]];
    let kept = AccountService::filter_by_external_query(
        vec![an_account()],
        &tags,
        &ExternalQuery::FullText(FullTextQuery { value: "Coins".to_owned(), fields: None }),
    );
    assert_eq!(kept.len(), 1);
    let kept = AccountService::filter_by_external_query(
        vec![an_account()],
        &tags,
        &ExternalQuery::ContainingUser(ContainingUserQuery::Value(ALICE)),
    );
    assert!(kept.is_empty());
}

#[test]
fn account_sortable_fields() {
    assert_eq!(AccountService::sortable_field("journal"), Some(Column::AccountJournalId));
    assert_eq!(AccountService::sortable_field("strategy"), Some(Column::AccountStrategy));
    assert_eq!(AccountService::sortable_field("date"), None);
    assert!(matches!(AccountService::sortable_value("typ", &an_account()), Some(Value::AccountType(Type::Asset))));
}

#[test]
fn create_account() {
    let operator = a_user(ALICE, user::Role::User);
    let created = AccountService::create(&operator, create_command("Household - Account 1"), false, Some(a_journal()), &access())
        .unwrap();
    assert_eq!(created.model.journal_id, J);
    assert_eq!(created.model.name, "Household - Account 1");
    assert_eq!(created.model.typ, Type::Income);
    assert_eq!(created.tags.len(), 2);
    assert_eq!(created.tags[0].account_id, created.model.id);
}

#[test]
fn create_account_in_unreadable_journal() {
    let operator = a_user(2, user::Role::User);
    let r = AccountService::create(&operator, create_command("Household - Account 1"), false, Some(a_journal()), &access());
    assert!(matches!(r, Err(Error::NotFound { entity, .. }) if entity == "journal"));
    let r = AccountService::create(&operator, create_command("Household - Account 1"), true, Some(a_journal()), &access());
    assert!(matches!(r, Err(Error::AlreadyExists { .. })));
}

#[test]
fn create_account_with_long_unit() {
    let operator = a_user(ALICE, user::Role::User);
    let mut command = create_command("Household - Account 1");
    command.unit = "U".repeat(17);
    let r = AccountService::create(&operator, command, false, Some(a_journal()), &access());
    assert!(matches!(r, Err(Error::MaxLength { field, value: 16, .. }) if field == "unit"));
}

#[test]
fn update_account_tags_only_changes_nothing() {
    let command = AccountCommandUpdate {
        target_id: A,
        name: None,
        description: None,
        typ: None,
        strategy: None,
        unit: None,
        tags: Some(vec!["x".to_owned()]),
        is_archived: Some(true),
    };
    let r = AccountService::update(&a_user(ALICE, user::Role::User), command, Some(an_account()), &Some(a_journal()), &access(), false);
    assert!(matches!(r, Ok(AccountUpdate::Unchanged(a)) if a.id == A));
}

#[test]
fn update_account_name() {
    let command = AccountCommandUpdate {
        target_id: A,
        name: Some("Wallet".to_owned()),
        description: None,
        typ: None,
        strategy: None,
        unit: None,
        tags: None,
        is_archived: None,
    };
    let r = AccountService::update(&a_user(ALICE, user::Role::User), command, Some(an_account()), &Some(a_journal()), &access(), false);
    match r {
        Ok(AccountUpdate::Write { model, tags }) => {
            assert_eq!(model.name, Some("Wallet".to_owned()));
            assert_eq!(model.id, Some(A));
            assert!(tags.is_none());
        },
        other => panic!("unexpected {:?}", other),
    }
}

#[test]
fn delete_account() {
    assert!(AccountService::delete(&a_user(ALICE, user::Role::User), A, Some(an_account()), &Some(a_journal()), &access()).is_ok());
    assert!(matches!(
        AccountService::delete(&a_user(2, user::Role::Admin), A, Some(an_account()), &Some(a_journal()), &access()),
        Err(Error::InvalidPermission { .. })
    ));
}
