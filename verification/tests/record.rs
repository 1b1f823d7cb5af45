use white_rabbit::decimal::Dec;
use white_rabbit::errors::Error;
use white_rabbit::models::account::{Strategy, Type};
use white_rabbit::models::record::{CheckRecordState, RecordState};
use white_rabbit::models::{account, journal, journal_user, record, record_item, user};
use white_rabbit::services::condition::{Atom, Clause, Column, Value};
use white_rabbit::services::journal::JournalAccess;
use white_rabbit::services::read_service::{ComparableQuery, ExternalQuery, FullTextQuery};
use white_rabbit::services::record::{
    Lines, RecordCommandCreate, RecordCommandUpdate, RecordQuery, RecordService, RecordUpdate,
};

const J: u128 = 100;
const R: u128 = 400;
const CASH: u128 = 301;
const FOOD: u128 = 302;
const STOCK: u128 = 303;
const ALICE: u128 = 1;

fn dec(m: i128, s: u32) -> Dec {
    Dec { mantissa: m, scale: s }
}

fn a_user(id: u128, role: user::Role) -> user::Model {
    user::Model { id, name: format!("user {}", id), role }
}

fn a_journal() -> journal::Model {
    journal::Model { id: J, name: "Household".to_owned(), description: String::new(), unit: "EUR".to_owned(), is_archived: false }
}

fn access() -> JournalAccess {
    JournalAccess {
        users: vec![journal_user::Model { journal_id: J, user_id: ALICE, is_admin: true }],
        groups: vec![],
        group_users: vec![],
    }
}

fn an_account(id: u128, typ: Type, unit: &str, is_archived: bool) -> account::Model {
    account::Model {
        id,
        journal_id: J,
        name: format!("account {}", id),
        description: String::new(),
        typ,
        strategy: Strategy::Fifo,
        unit: unit.to_owned(),
        is_archived,
    }
}

fn accounts() -> Vec<account::Model> {
    vec![
        an_account(CASH, Type::Asset, "EUR", false),
        an_account(FOOD, Type::Expense, "EUR", false),
        an_account(STOCK, Type::Asset, "SHARE", false),
    ]
}

fn item(account_id: u128, amount: Option<Dec>, price: Option<Dec>) -> record_item::Model {
    record_item::Model { record_id: R, account_id, amount, price }
}

fn line(account_id: u128, amount: Option<Dec>, price: Option<Dec>) -> record_item::Presentation {
    record_item::Presentation { account_id, amount, price }
}

fn a_record(typ: record::Type) -> record::Model {
    record::Model { id: R, journal_id: J, description: "Lunch".to_owned(), typ, date: 738000 }
}

#[test]
fn record_condition_with_dates() {
    let q = RecordQuery {
        full_text: None,
        id: None,
        journal: Some(J),
        description: None,
        typ: None,
        date: Some(ComparableQuery { eq: None, gt: Some(10), lt: None, gte: None, lte: Some(20) }),
        tag: None,
        account: Some(CASH),
    };
    let cond = q.into_condition();
    assert_eq!(cond.clauses.len(), 3);
    match &cond.clauses[1] {
        Clause::All(atoms) => {
            assert_eq!(atoms.len(), 2);
            assert!(matches!(&atoms[0], Atom::Gt(Column::RecordDate, Value::Date(10))));
            assert!(matches!(&atoms[1], Atom::Lte(Column::RecordDate, Value::Date(20))));
        },
        _ => panic!("expected a conjunction"),
    }
    assert!(matches!(&cond.clauses[2], Clause::Atom(Atom::Eq(Column::RecordItemAccountId, Value::Id(CASH)))));
}

#[test]
fn record_full_text_name_field_passes() {
    let tags = vec![vec![]];
    let kept = RecordService::filter_by_external_query(
        vec![a_record(record::Type::Record)],
        &tags,
        &ExternalQuery::FullText(FullTextQuery { value: "zzz".to_owned(), fields: None }),
    );
    assert_eq!(kept.len(), 1);
    let kept = RecordService::filter_by_external_query(
        vec![a_record(record::Type::Record)],
        &tags,
        &ExternalQuery::FullText(FullTextQuery { value: "zzz".to_owned(), fields: Some(vec!["description".to_owned()]) }),
    );
    assert!(kept.is_empty());
}

#[test]
fn balanced_record() {
    let items = vec![item(CASH, Some(dec(-1050, 2)), None), item(FOOD, Some(dec(105, 1)), None)];
    let state = RecordService::record_state(&a_journal(), &items, &accounts()).unwrap();
    assert!(matches!(state, RecordState::Record(true)));
}

#[test]
fn unbalanced_record() {
    let items = vec![item(CASH, Some(dec(-10, 0)), None), item(FOOD, Some(dec(9, 0)), None)];
    let state = RecordService::record_state(&a_journal(), &items, &accounts()).unwrap();
    assert!(matches!(state, RecordState::Record(false)));
}

#[test]
fn record_with_one_blank_balances() {
    let items = vec![item(CASH, Some(dec(-10, 0)), None), item(FOOD, None, None)];
    let state = RecordService::record_state(&a_journal(), &items, &accounts()).unwrap();
    assert!(matches!(state, RecordState::Record(true)));
}

#[test]
fn record_in_other_unit_uses_price() {
    let items = vec![item(STOCK, Some(dec(2, 0)), Some(dec(15, 0))), item(CASH, Some(dec(-30, 0)), None)];
    let state = RecordService::record_state(&a_journal(), &items, &accounts()).unwrap();
    assert!(matches!(state, RecordState::Record(true)));
    let items = vec![item(STOCK, Some(dec(2, 0)), None)];
    let r = RecordService::record_state(&a_journal(), &items, &accounts());
    assert!(matches!(r, Err(Error::RecordItemMustContainPrice { id: J, account: STOCK })));
}

#[test]
fn record_with_unknown_account() {
    let items = vec![item(999, Some(dec(1, 0)), None)];
    let r = RecordService::record_state(&a_journal(), &items, &accounts());
    assert!(matches!(r, Err(Error::NotFound { entity, .. }) if entity == "account"));
}

#[test]
fn record_state_overflow_is_reported() {
    let big = dec(0xFFFF_FFFF_FFFF_FFFF_FFFF_FFFF, 0);
    let items = vec![item(CASH, Some(big), None), item(FOOD, Some(big), None)];
    assert!(RecordService::record_state_checked(&a_journal(), &items, &accounts()).is_none());
}

#[test]
fn check_state_compares_balances() {
    let check_items = vec![item(CASH, Some(dec(30, 0)), None), item(FOOD, Some(dec(5, 0)), None)];
    let rows = vec![
        item(CASH, Some(dec(10, 0)), None),
        item(CASH, Some(dec(20, 0)), None),
        item(FOOD, Some(dec(4, 0)), None),
    ];
    match RecordService::check_state(&check_items, &rows) {
        RecordState::Check(map) => {
            assert_eq!(map.len(), 2);
            assert_eq!(map.get(&CASH), Some(&CheckRecordState::Valid));
            assert_eq!(map.get(&FOOD), Some(&CheckRecordState::Invalid { expected: dec(5, 0), actual: dec(4, 0) }));
        },
        other => panic!("unexpected {:?}", other),
    }
}

#[test]
fn check_state_condition_targets_earlier_records() {
    let items = vec![item(CASH, Some(dec(30, 0)), None)];
    let cond = RecordService::check_state_condition(&a_record(record::Type::Check), &items);
    match &cond.clauses[0] {
        Clause::All(atoms) => {
            assert!(matches!(&atoms[0], Atom::Eq(Column::RecordTyp, Value::RecordType(record::Type::Record))));
            assert!(matches!(&atoms[1], Atom::Lte(Column::RecordDate, Value::Date(738000))));
            assert!(matches!(&atoms[2], Atom::IsIn(Column::AccountId, v) if v.len() == 1));
        },
        _ => panic!("expected a conjunction"),
    }
}

#[test]
fn state_without_journal() {
    let r = RecordService::state(&a_record(record::Type::Record), &None, &vec![], &vec![], &vec![]);
    assert!(matches!(r, Err(Error::NotFound { entity, .. }) if entity == "journal"));
}

#[test]
fn validate_record_lines() {
    let model = record::ActiveModel { id: Some(R), journal_id: None, description: None, typ: None, date: None };
    let lines = Lines {
        unit: "EUR".to_owned(),
        items: vec![
            line(CASH, None, None),
            line(CASH, None, None),
            line(STOCK, None, Some(dec(1, 0))),
            line(999, Some(dec(1, 0)), None),
        ],
        accounts: vec![an_account(CASH, Type::Asset, "EUR", true), an_account(STOCK, Type::Asset, "SHARE", false)],
    };
    match RecordService::validate(&model, None, Some(&lines)) {
        Err(Error::Errors(errors)) => {
            assert_eq!(errors.len(), 6);
            assert!(matches!(&errors[0], Error::ArchivedAccount { id: CASH }));
            assert!(matches!(&errors[1], Error::ArchivedAccount { id: CASH }));
            assert!(matches!(&errors[2], Error::DuplicateAccountsInRecord { id: R, account: CASH }));
            assert!(matches!(&errors[3], Error::RecordItemOnlyPriceExist { id: R, account: STOCK }));
            assert!(matches!(&errors[4], Error::NotFound { entity, .. } if entity == "account"));
            assert!(matches!(&errors[5], Error::RecordAtMostOneEmptyItem { id: R }));
        },
        other => panic!("unexpected {:?}", other),
    }
}

#[test]
fn validate_record_tags_are_reported_as_account_tags() {
    let model = record::ActiveModel { id: Some(R), journal_id: None, description: None, typ: None, date: None };
    let tags = vec!["t".repeat(17)];
    let r = RecordService::validate(&model, Some(&tags), None);
    assert!(matches!(r, Err(Error::MaxLength { entity, field, .. }) if entity == "account" && field == "tag.item"));
}

#[test]
fn create_record() {
    let command = RecordCommandCreate {
        target_id: None,
        journal_id: J,
        description: "Lunch".to_owned(),
        typ: record::Type::Record,
        date: 738000,
        tags: vec!["food".to_owned()],
        items: vec![
            line(CASH, Some(dec(-10, 0)), None),
            line(FOOD, Some(dec(10, 0)), None),
            line(FOOD, Some(dec(10, 0)), None),
        ],
    };
    let operator = white_rabbit::services::auth::AuthUser::User(a_user(ALICE, user::Role::User));
    let created = RecordService::create(&operator, command, Some(a_journal()), &access(), accounts()).unwrap();
    assert_eq!(created.model.journal_id, J);
    assert_eq!(created.items.len(), 2);
    assert_eq!(created.items[0].record_id, created.model.id);
    assert_eq!(created.tags.len(), 1);
}

#[test]
fn create_record_with_too_few_lines() {
    let command = RecordCommandCreate {
        target_id: None,
        journal_id: J,
        description: "Lunch".to_owned(),
        typ: record::Type::Record,
        date: 738000,
        tags: vec![],
        items: vec![line(CASH, Some(dec(-10, 0)), None)],
    };
    let operator = white_rabbit::services::auth::AuthUser::User(a_user(ALICE, user::Role::User));
    let r = RecordService::create(&operator, command, Some(a_journal()), &access(), accounts());
    assert!(matches!(r, Err(Error::LengthRange { field, min: 2, max: 16, .. }) if field == "items"));
}

#[test]
fn create_record_by_stranger() {
    let command = RecordCommandCreate {
        target_id: None,
        journal_id: J,
        description: "Lunch".to_owned(),
        typ: record::Type::Record,
        date: 738000,
        tags: vec![],
        items: vec![],
    };
    let operator = white_rabbit::services::auth::AuthUser::Id(("p".to_owned(), "v".to_owned()));
    let r = RecordService::create(&operator, command, Some(a_journal()), &access(), accounts());
    assert!(matches!(r, Err(Error::NotFound { entity, .. }) if entity == "journal"));
}

#[test]
fn update_record_lines_need_journal() {
    let command = RecordCommandUpdate {
        target_id: R,
        description: None,
        typ: None,
        date: None,
        tags: None,
        items: Some(vec![line(CASH, Some(dec(1, 0)), None)]),
    };
    let r = RecordService::update(&a_user(2, user::Role::Owner), command, Some(a_record(record::Type::Record)), &None, &access(), accounts());
    assert!(matches!(r, Err(Error::NotFound { entity, .. }) if entity == "journal"));
}

#[test]
fn update_record_description() {
    let command = RecordCommandUpdate {
        target_id: R,
        description: Some("Dinner".to_owned()),
        typ: None,
        date: None,
        tags: None,
        items: None,
    };
    let r = RecordService::update(&a_user(ALICE, user::Role::User), command, Some(a_record(record::Type::Record)), &Some(a_journal()), &access(), vec![]);
    match r {
        Ok(RecordUpdate::Write { model, tags, items }) => {
            assert_eq!(model.description, Some("Dinner".to_owned()));
            assert!(tags.is_none() && items.is_none());
        },
        other => panic!("unexpected {:?}", other),
    }
}

#[test]
fn delete_record() {
    assert!(RecordService::delete(&a_user(ALICE, user::Role::User), R, Some(a_record(record::Type::Record)), &Some(a_journal()), &access()).is_ok());
    assert!(matches!(
        RecordService::delete(&a_user(ALICE, user::Role::User), R, None, &Some(a_journal()), &access()),
        Err(Error::NotFound { entity, .. }) if entity == "record"
    ));
}
