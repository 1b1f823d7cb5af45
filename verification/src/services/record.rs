//! Records: their queries, the checks of their lines, whether they balance,
//! and the plans of their writes.
use std::collections::HashMap;

use vstd::prelude::*;

use super::auth::{id_not_found, not_found, AuthUser};
use super::condition::{Atom, AtomV, Clause, ClauseV, Column, Condition, Value, ValueV};
use super::full_text::{matches_text, text_matches};
use super::journal::{readable_in_journal, writeable_in_journal, JournalAccess, JournalService};
use super::read_service::{
    add_eq, add_id_query, add_text_value, eq_clauses, externals_view, full_text_view, id_clauses, marked,
    opt_value_view, plain_search, push_external, push_plain_search, push_text_search, text_search,
    text_value_clauses, ComparableQuery, ExternalQuery, ExternalQueryV, FullTextQuery, IdQuery, TextQuery,
};
use super::validation::{append_errors, check_description, description_errors, opt_text, push_error};
use super::{FIELD_DESCRIPTION, FIELD_ID, FIELD_RECORD_ITEMS, FIELD_TAG, MAX_RECORD_ITEMS, MIN_RECORD_ITEMS};
use crate::errors::{errors_view, into_outcome, outcome_of, outcome_view, tag_errors, Error, ErrorV};
use crate::decimal::{checked_add, checked_mul, dec_eq, decimal_checked_add, decimal_checked_mul, Dec};
use crate::ids::{new_id, uuid_hyphenated, uuid_text};
use crate::models::{account, journal, record, record_item, record_tag, user};
use super::write_service::AbstractCommand;
use crate::sets::distinct;
use crate::text::{dedup_texts, text_is};

verus! {

broadcast use vstd::std_specs::hash::group_hash_axioms;

/// A query on records.
#[derive(Clone, Debug)]
pub struct RecordQuery {
    pub full_text: Option<FullTextQuery>,
    pub id: Option<IdQuery>,
    pub journal: Option<u128>,
    pub description: Option<String>,
    pub typ: Option<record::Type>,
    pub date: Option<ComparableQuery<i32>>,
    pub tag: Option<TextQuery>,
    pub account: Option<u128>,
}

/// One bound on the date, if it is set.
pub open spec fn date_bound(bound: Option<i32>, atom: spec_fn(i32) -> AtomV) -> Seq<AtomV> {
    match bound {
        Some(d) => seq![atom(d)],
        None => Seq::empty(),
    }
}

/// The comparisons of a date query: equal, after, before, from, until.
pub open spec fn date_atoms(q: ComparableQuery<i32>) -> Seq<AtomV> {
    date_bound(q.eq, |d: i32| AtomV::Eq(Column::RecordDate, ValueV::Date(d)))
        + date_bound(q.gt, |d: i32| AtomV::Gt(Column::RecordDate, ValueV::Date(d)))
        + date_bound(q.lt, |d: i32| AtomV::Lt(Column::RecordDate, ValueV::Date(d)))
        + date_bound(q.gte, |d: i32| AtomV::Gte(Column::RecordDate, ValueV::Date(d)))
        + date_bound(q.lte, |d: i32| AtomV::Lte(Column::RecordDate, ValueV::Date(d)))
}

/// The condition of a record query: its id, journal, type, date bounds (as
/// one clause), exact tag, and an account of its lines.
pub open spec fn record_condition(q: RecordQuery) -> Seq<ClauseV> {
    id_clauses(q.id, Column::RecordId)
        + eq_clauses(match q.journal { Some(j) => Some(ValueV::Id(j)), None => None }, Column::RecordJournalId)
        + eq_clauses(match q.typ { Some(t) => Some(ValueV::RecordType(t)), None => None }, Column::RecordTyp)
        + match q.date {
            Some(d) => seq![ClauseV::All(date_atoms(d))],
            None => Seq::empty(),
        }
        + text_value_clauses(q.tag, Column::RecordTagTag)
        + eq_clauses(match q.account { Some(a) => Some(ValueV::Id(a)), None => None }, Column::RecordItemAccountId)
}

/// The checks of a record query that the service makes itself.
pub open spec fn record_external(q: RecordQuery) -> Seq<ExternalQueryV> {
    (match q.full_text {
        Some(f) => seq![full_text_view(f)],
        None => Seq::empty(),
    }) + plain_search(q.description, FIELD_DESCRIPTION@) + text_search(q.tag, FIELD_TAG@)
}

fn push_date_atom(atoms: &mut Vec<Atom>, atom: Atom)
    ensures
        super::condition::atoms_view(final(atoms)@) == super::condition::atoms_view(old(atoms)@).push(atom@),
{
    atoms.push(atom);
    assert(super::condition::atoms_view(atoms@) =~= super::condition::atoms_view(old(atoms)@).push(atom@));
}

fn make_date_clause(q: &ComparableQuery<i32>) -> (c: Clause)
    ensures
        c@ == ClauseV::All(date_atoms(*q)),
{
    let mut atoms: Vec<Atom> = Vec::new();
    assert(super::condition::atoms_view(atoms@) =~= Seq::empty());
    if let Some(d) = q.eq {
        push_date_atom(&mut atoms, Atom::Eq(Column::RecordDate, Value::Date(d)));
    }
    let ghost a1 = super::condition::atoms_view(atoms@);
    assert(a1 =~= date_bound(q.eq, |d: i32| AtomV::Eq(Column::RecordDate, ValueV::Date(d))));
    if let Some(d) = q.gt {
        push_date_atom(&mut atoms, Atom::Gt(Column::RecordDate, Value::Date(d)));
    }
    let ghost a2 = super::condition::atoms_view(atoms@);
    assert(a2 =~= a1 + date_bound(q.gt, |d: i32| AtomV::Gt(Column::RecordDate, ValueV::Date(d))));
    if let Some(d) = q.lt {
        push_date_atom(&mut atoms, Atom::Lt(Column::RecordDate, Value::Date(d)));
    }
    let ghost a3 = super::condition::atoms_view(atoms@);
    assert(a3 =~= a2 + date_bound(q.lt, |d: i32| AtomV::Lt(Column::RecordDate, ValueV::Date(d))));
    if let Some(d) = q.gte {
        push_date_atom(&mut atoms, Atom::Gte(Column::RecordDate, Value::Date(d)));
    }
    let ghost a4 = super::condition::atoms_view(atoms@);
    assert(a4 =~= a3 + date_bound(q.gte, |d: i32| AtomV::Gte(Column::RecordDate, ValueV::Date(d))));
    if let Some(d) = q.lte {
        push_date_atom(&mut atoms, Atom::Lte(Column::RecordDate, Value::Date(d)));
    }
    assert(super::condition::atoms_view(atoms@) =~= date_atoms(*q));
    Clause::All(atoms)
}

impl RecordQuery {
    /// The condition that the records of the query meet in storage.
    pub fn into_condition(self) -> (cond: Condition)
        ensures
            cond@ == record_condition(self),
    {
        let ghost q = self;
        let mut cond = Condition::all();
        add_id_query(&mut cond, self.id, Column::RecordId);
        add_eq(&mut cond, match self.journal { Some(j) => Some(Value::Id(j)), None => None }, Column::RecordJournalId);
        add_eq(&mut cond, match self.typ { Some(t) => Some(Value::RecordType(t)), None => None }, Column::RecordTyp);
        let ghost before_date = cond@;
        if let Some(d) = &self.date {
            cond.add(make_date_clause(d));
        }
        assert(cond@ =~= before_date + match q.date {
            Some(d) => seq![ClauseV::All(date_atoms(d))],
            None => Seq::empty(),
        });
        add_text_value(&mut cond, self.tag, Column::RecordTagTag);
        add_eq(
            &mut cond,
            match self.account { Some(a) => Some(Value::Id(a)), None => None },
            Column::RecordItemAccountId,
        );
        assert(cond@ =~= record_condition(q));
        cond
    }

    /// The parts of the query that the service checks itself: the full-text
    /// search, and full-text searches of the description and the tags.
    pub fn into_external_queries(self) -> (v: Vec<ExternalQuery>)
        ensures
            externals_view(v@) == record_external(self),
    {
        let ghost q = self;
        let mut v: Vec<ExternalQuery> = Vec::new();
        if let Some(f) = self.full_text {
            push_external(&mut v, ExternalQuery::FullText(f));
        }
        assert(externals_view(v@) =~= match q.full_text {
            Some(f) => seq![full_text_view(f)],
            None => Seq::empty(),
        });
        push_plain_search(&mut v, self.description, FIELD_DESCRIPTION);
        push_text_search(&mut v, self.tag, FIELD_TAG);
        assert(externals_view(v@) =~= record_external(q));
        v
    }
}

// ---------------------------------------------------------------------------
// Reading records

/// Records.
pub struct RecordService {}

/// Whether an external query keeps a record, given its tags: a full-text
/// search looks at the description and the tags (a record has no name, so
/// that field passes); a containing-user query keeps none.
pub open spec fn record_keeps(model: record::Model, tags: Seq<Seq<char>>, q: ExternalQueryV) -> bool {
    match q {
        ExternalQueryV::FullText { value, fields } => text_matches(None, model.description@, tags, value, fields),
        ExternalQueryV::ContainingUser { .. } => false,
    }
}

/// The marks of the records that an external query keeps.
pub open spec fn record_marks(items: Seq<record::Model>, tags: Seq<Vec<String>>, q: ExternalQueryV) -> Seq<bool> {
    Seq::new(items.len(), |i: int| record_keeps(items[i], tags[i].deep_view(), q))
}

/// The column that a field sorts records by.
pub open spec fn record_sort_column(field: Seq<char>) -> Option<Column> {
    if field == "journal"@ {
        Some(Column::RecordJournalId)
    } else if field == "typ"@ {
        Some(Column::RecordTyp)
    } else if field == "date"@ {
        Some(Column::RecordDate)
    } else {
        None
    }
}

/// The value of a record in a column.
pub open spec fn record_value(model: record::Model, column: Column) -> ValueV {
    match column {
        Column::RecordJournalId => ValueV::Id(model.journal_id),
        Column::RecordTyp => ValueV::RecordType(model.typ),
        _ => ValueV::Date(model.date),
    }
}

impl RecordService {
    /// Whether the operator may read the record, given its journal (if
    /// found) and the access lists of that journal.
    pub fn is_readable(operator: &AuthUser, journal: &Option<journal::Model>, access: &JournalAccess) -> (b: bool)
        ensures
            b == readable_in_journal(*operator, *journal, *access),
    {
        JournalService::is_entity_readable(operator, journal, access)
    }

    /// Keeps the records that the external query keeps, in order, given the
    /// tags of each.
    pub fn filter_by_external_query(
        items: Vec<record::Model>,
        tags: &Vec<Vec<String>>,
        external_query: &ExternalQuery,
    ) -> (kept: Vec<record::Model>)
        requires
            tags@.len() == items@.len(),
        ensures
            kept@ == marked(items@, record_marks(items@, tags@, external_query@)),
    {
        let mut marks: Vec<bool> = Vec::new();
        for i in 0..items.len()
            invariant
                tags@.len() == items@.len(),
                marks@ =~= record_marks(items@, tags@, external_query@).take(i as int),
        {
            let keep = match external_query {
                ExternalQuery::FullText(q) => matches_text(None, &items[i].description, &tags[i], q),
                ExternalQuery::ContainingUser(_) => false,
            };
            marks.push(keep);
        }
        assert(marks@ =~= record_marks(items@, tags@, external_query@));
        super::read_service::keep_marked(items, &marks)
    }

    /// The column of a field that records can be sorted by.
    pub fn sortable_field(field: &str) -> (c: Option<Column>)
        ensures
            c == record_sort_column(field@),
    {
        let f = field.to_owned();
        if text_is(&f, "journal") {
            Some(Column::RecordJournalId)
        } else if text_is(&f, "typ") {
            Some(Column::RecordTyp)
        } else if text_is(&f, "date") {
            Some(Column::RecordDate)
        } else {
            None
        }
    }

    /// The id column of records.
    pub fn primary_field() -> (c: Column)
        ensures
            c == Column::RecordId,
    {
        Column::RecordId
    }

    /// The id of a record.
    pub fn primary_value(model: &record::Model) -> (id: u128)
        ensures
            id == model.id,
    {
        model.id
    }

    /// The value of a record for a sortable field.
    pub fn sortable_value(field: &str, model: &record::Model) -> (v: Option<Value>)
        ensures
            opt_value_view(v) == match record_sort_column(field@) {
                Some(c) => Some(record_value(*model, c)),
                None => None::<ValueV>,
            },
    {
        match RecordService::sortable_field(field) {
            Some(Column::RecordJournalId) => Some(Value::Id(model.journal_id)),
            Some(Column::RecordTyp) => Some(Value::RecordType(model.typ)),
            Some(_) => Some(Value::Date(model.date)),
            None => None,
        }
    }

    /// Whether the user may change the record, given its journal (if found)
    /// and the access lists of that journal.
    pub fn check_writeable(
        user: &user::Model,
        model: &record::Model,
        journal: &Option<journal::Model>,
        access: &JournalAccess,
    ) -> (r: Result<(), crate::errors::Error>)
        ensures
            crate::errors::outcome_view(r) == writeable_in_journal(*user, model.journal_id, *journal, *access),
    {
        JournalService::check_entity_writeable(user, model.journal_id, journal, access)
    }
}

// ---------------------------------------------------------------------------
// The checks of a record

/// The account with the given id among those loaded; where the list holds
/// the id twice, the last one (as a map built from the list keeps it).
pub open spec fn find_account(accounts: Seq<account::Model>, id: u128) -> Option<account::Model>
    decreases accounts.len(),
{
    if accounts.len() == 0 {
        None
    } else if accounts.last().id == id {
        Some(accounts.last())
    } else {
        find_account(accounts.drop_last(), id)
    }
}

/// Finds the account with the given id: its place in the list.
pub fn lookup_account(accounts: &Vec<account::Model>, id: u128) -> (r: Option<usize>)
    ensures
        match r {
            Some(k) => k < accounts@.len() && find_account(accounts@, id) == Some(accounts@[k as int]),
            None => find_account(accounts@, id) is None,
        },
{
    let mut i = accounts.len();
    assert(accounts@.take(i as int) =~= accounts@);
    while i > 0
        invariant
            i <= accounts@.len(),
            find_account(accounts@, id) == find_account(accounts@.take(i as int), id),
        decreases i,
    {
        assert(accounts@.take(i as int).drop_last() =~= accounts@.take(i - 1));
        if accounts[i - 1].id == id {
            return Some(i - 1);
        }
        i = i - 1;
    }
    None
}

/// An earlier line of the record names the account.
pub open spec fn uses_account(earlier: Seq<record_item::Presentation>, account_id: u128) -> bool {
    exists|j: int| 0 <= j < earlier.len() && #[trigger] earlier[j].account_id == account_id
}

/// The errors of one line of a record, given the lines before it: its account
/// must exist, not be archived, not occur in an earlier line; a price is owed
/// where the unit of the account differs from that of the journal; a price
/// needs an amount.
pub open spec fn item_errors(
    id: u128,
    unit: Seq<char>,
    earlier: Seq<record_item::Presentation>,
    item: record_item::Presentation,
    accounts: Seq<account::Model>,
) -> Seq<ErrorV> {
    match find_account(accounts, item.account_id) {
        Some(a) => (if a.is_archived {
            seq![ErrorV::ArchivedAccount { id: a.id }]
        } else {
            Seq::empty()
        }) + (if uses_account(earlier, a.id) {
            seq![ErrorV::DuplicateAccountsInRecord { id, account: a.id }]
        } else {
            Seq::empty()
        }) + (if a.unit@ != unit && item.price is None {
            seq![ErrorV::RecordItemMustContainPrice { id, account: a.id }]
        } else {
            Seq::empty()
        }) + (if item.price is Some && item.amount is None {
            seq![ErrorV::RecordItemOnlyPriceExist { id, account: a.id }]
        } else {
            Seq::empty()
        }),
        None => seq![
            ErrorV::NotFound { entity: account::TYPE@, field: FIELD_ID@, value: uuid_hyphenated(item.account_id) },
        ],
    }
}

/// The errors of the lines of a record, line by line.
pub open spec fn lines_errors(
    id: u128,
    unit: Seq<char>,
    items: Seq<record_item::Presentation>,
    accounts: Seq<account::Model>,
) -> Seq<ErrorV>
    decreases items.len(),
{
    if items.len() == 0 {
        Seq::empty()
    } else {
        lines_errors(id, unit, items.drop_last(), accounts) + item_errors(
            id,
            unit,
            items.drop_last(),
            items.last(),
            accounts,
        )
    }
}

/// The number of lines with neither an amount nor a price.
pub open spec fn empty_count(items: Seq<record_item::Presentation>) -> nat
    decreases items.len(),
{
    if items.len() == 0 {
        0
    } else {
        empty_count(items.drop_last()) + if items.last().amount is None && items.last().price is None {
            1nat
        } else {
            0nat
        }
    }
}

/// The lines of a record and what they are checked against: the unit of the
/// journal and the accounts that the lines name, as loaded.
pub struct Lines {
    pub unit: String,
    pub items: Vec<record_item::Presentation>,
    pub accounts: Vec<account::Model>,
}

/// The errors of the lines of a record: between `MIN_RECORD_ITEMS` and
/// `MAX_RECORD_ITEMS` lines, the errors of each line, and at most one line
/// with neither an amount nor a price.
pub open spec fn record_lines_errors(id: u128, lines: Lines) -> Seq<ErrorV> {
    lines_errors_of(id, lines.unit@, lines.items@, lines.accounts@)
}

/// The errors of a record write: the description, the tags when they are
/// set (reported as those of an account), and the lines when they are set.
pub open spec fn record_errors(model: record::ActiveModel, tags: Option<Seq<Seq<char>>>, lines: Option<Lines>) -> Seq<ErrorV> {
    description_errors(record::TYPE@, opt_text(model.description)) + match tags {
        Some(t) => tag_errors(account::TYPE@, t),
        None => Seq::empty(),
    } + match lines {
        Some(l) => record_lines_errors(model.id.unwrap(), l),
        None => Seq::empty(),
    }
}

fn uses_account_in(items: &Vec<record_item::Presentation>, n: usize, account_id: u128) -> (b: bool)
    requires
        n <= items@.len(),
    ensures
        b == uses_account(items@.take(n as int), account_id),
{
    let ghost earlier = items@.take(n as int);
    for j in 0..n
        invariant
            n <= items@.len(),
            earlier == items@.take(n as int),
            forall|k: int| 0 <= k < j ==> #[trigger] earlier[k].account_id != account_id,
    {
        if items[j].account_id == account_id {
            assert(earlier[j as int].account_id == account_id);
            return true;
        }
    }
    false
}

fn check_item(
    id: u128,
    unit: &String,
    items: &Vec<record_item::Presentation>,
    i: usize,
    accounts: &Vec<account::Model>,
    errors: &mut Vec<Error>,
)
    requires
        i < items@.len(),
    ensures
        errors_view(final(errors)@) == errors_view(old(errors)@) + item_errors(
            id,
            unit@,
            items@.take(i as int),
            items@[i as int],
            accounts@,
        ),
{
    let item = items[i];
    match lookup_account(accounts, item.account_id) {
        Some(k) => {
            let a = &accounts[k];
            let ghost start = errors_view(errors@);
            if a.is_archived {
                push_error(errors, Error::ArchivedAccount { id: a.id });
            }
            let ghost e1 = errors_view(errors@);
            if uses_account_in(items, i, a.id) {
                push_error(errors, Error::DuplicateAccountsInRecord { id, account: a.id });
            }
            let ghost e2 = errors_view(errors@);
            if !(a.unit == *unit) && item.price.is_none() {
                push_error(errors, Error::RecordItemMustContainPrice { id, account: a.id });
            }
            let ghost e3 = errors_view(errors@);
            if item.price.is_some() && item.amount.is_none() {
                push_error(errors, Error::RecordItemOnlyPriceExist { id, account: a.id });
            }
            assert(errors_view(errors@) =~= errors_view(old(errors)@) + item_errors(
                id,
                unit@,
                items@.take(i as int),
                items@[i as int],
                accounts@,
            ));
        },
        None => {
            push_error(
                errors,
                Error::NotFound {
                    entity: account::TYPE.to_owned(),
                    field: FIELD_ID.to_owned(),
                    value: uuid_text(item.account_id),
                },
            );
            assert(errors_view(errors@) =~= errors_view(old(errors)@) + item_errors(
                id,
                unit@,
                items@.take(i as int),
                items@[i as int],
                accounts@,
            ));
        },
    }
}

fn check_lines(id: u128, lines: &Lines, errors: &mut Vec<Error>)
    ensures
        errors_view(final(errors)@) == errors_view(old(errors)@) + record_lines_errors(id, *lines),
{
    let ghost start = errors_view(errors@);
    let n = lines.items.len();
    if n < MIN_RECORD_ITEMS || n > MAX_RECORD_ITEMS {
        push_error(
            errors,
            Error::LengthRange {
                entity: record::TYPE.to_owned(),
                field: FIELD_RECORD_ITEMS.to_owned(),
                min: MIN_RECORD_ITEMS,
                max: MAX_RECORD_ITEMS,
            },
        );
    }
    let ghost counted = errors_view(errors@);
    let ghost items = lines.items@;
    let mut empty: usize = 0;
    for i in 0..n
        invariant
            n == items.len(),
            items == lines.items@,
            empty == empty_count(items.take(i as int)),
            empty <= i,
            errors_view(errors@) == counted + lines_errors(id, lines.unit@, items.take(i as int), lines.accounts@),
    {
        assert(items.take(i + 1).drop_last() =~= items.take(i as int));
        assert(items.take(i + 1).last() == items[i as int]);
        if lines.items[i].amount.is_none() && lines.items[i].price.is_none() {
            empty = empty + 1;
        }
        check_item(id, &lines.unit, &lines.items, i, &lines.accounts, errors);
    }
    assert(items.take(n as int) =~= items);
    let ghost before_empty = errors_view(errors@);
    if empty > 1 {
        push_error(errors, Error::RecordAtMostOneEmptyItem { id });
    }
    assert(errors_view(errors@) =~= start + record_lines_errors(id, *lines));
}

impl RecordService {
    /// The checks of a record write.
    pub fn validate(model: &record::ActiveModel, tags: Option<&Vec<String>>, lines: Option<&Lines>) -> (r: Result<(), Error>)
        requires
            model.id is Some,
        ensures
            outcome_view(r) == outcome_of(record_errors(*model, match tags {
                Some(t) => Some(t.deep_view()),
                None => None,
            }, match lines {
                Some(l) => Some(*l),
                None => None,
            })),
    {
        let mut errors: Vec<Error> = Vec::new();
        assert(errors_view(errors@) =~= Seq::empty());
        check_description(record::TYPE, &model.description, &mut errors);
        let ghost after_description = errors_view(errors@);
        if let Some(t) = tags {
            append_errors(&mut errors, Error::validate_tags(account::TYPE, t));
        }
        let ghost after_tags = errors_view(errors@);
        let id = match model.id {
            Some(id) => id,
            None => 0,
        };
        if let Some(l) = lines {
            check_lines(id, l, &mut errors);
        }
        assert(errors_view(errors@) =~= record_errors(*model, match tags {
            Some(t) => Some(t.deep_view()),
            None => None,
        }, match lines {
            Some(l) => Some(*l),
            None => None,
        }));
        into_outcome(errors)
    }
}

/// The account found for an id has that id.
pub proof fn lemma_find_account_id(accounts: Seq<account::Model>, id: u128)
    ensures
        find_account(accounts, id) matches Some(a) ==> a.id == id,
    decreases accounts.len(),
{
    if accounts.len() > 0 {
        lemma_find_account_id(accounts.drop_last(), id);
    }
}

/// A line that passes the checks names an account that exists and is not
/// archived, has a price where the units differ, and has an amount where it
/// has a price.
pub open spec fn line_ok(unit: Seq<char>, item: record_item::Presentation, accounts: Seq<account::Model>) -> bool {
    &&& find_account(accounts, item.account_id) matches Some(a)
    &&& !a.is_archived
    &&& (a.unit@ != unit ==> item.price is Some)
    &&& (item.price is Some ==> item.amount is Some)
}

/// Where the lines give no error, each line is sound and no two lines name
/// one account.
pub proof fn lemma_lines_ok(id: u128, unit: Seq<char>, items: Seq<record_item::Presentation>, accounts: Seq<account::Model>)
    requires
        lines_errors(id, unit, items, accounts).len() == 0,
    ensures
        forall|i: int| 0 <= i < items.len() ==> line_ok(unit, #[trigger] items[i], accounts),
        forall|i: int, j: int| 0 <= i < j < items.len() ==> #[trigger] items[i].account_id != #[trigger] items[j].account_id,
    decreases items.len(),
{
    if items.len() > 0 {
        let init = items.drop_last();
        let last = items.last();
        lemma_lines_ok(id, unit, init, accounts);
        lemma_find_account_id(accounts, last.account_id);
        assert(item_errors(id, unit, init, last, accounts).len() == 0);
        assert(line_ok(unit, last, accounts));
        assert forall|i: int| 0 <= i < items.len() implies line_ok(unit, #[trigger] items[i], accounts) by {
            if i < items.len() - 1 {
                assert(items[i] == init[i]);
            }
        }
        assert forall|i: int, j: int| 0 <= i < j < items.len() implies #[trigger] items[i].account_id
            != #[trigger] items[j].account_id by {
            if j == items.len() - 1 {
                assert(items[i] == init[i]);
                if init[i].account_id == last.account_id {
                    assert(uses_account(init, last.account_id));
                }
            } else {
                assert(items[i] == init[i]);
                assert(items[j] == init[j]);
            }
        }
    }
}

/// A record write that passes the checks of its lines has between
/// `MIN_RECORD_ITEMS` and `MAX_RECORD_ITEMS` lines, at most one of them
/// blank; each names an existing account that is not archived, with a price
/// where the units differ and an amount where there is a price; and no two
/// name one account.
pub proof fn lemma_checked_record_lines(
    id: u128,
    unit: Seq<char>,
    items: Seq<record_item::Presentation>,
    accounts: Seq<account::Model>,
)
    requires
        lines_errors_of(id, unit, items, accounts).len() == 0,
    ensures
        MIN_RECORD_ITEMS <= items.len() <= MAX_RECORD_ITEMS,
        empty_count(items) <= 1,
        forall|i: int| 0 <= i < items.len() ==> line_ok(unit, #[trigger] items[i], accounts),
        forall|i: int, j: int| 0 <= i < j < items.len() ==> #[trigger] items[i].account_id != #[trigger] items[j].account_id,
{
    lemma_lines_ok(id, unit, items, accounts);
}

// ---------------------------------------------------------------------------
// Whether a record balances

/// Where the sum of the lines of a record stands after some of them: the sum
/// so far and the number of lines without an amount; or the error that
/// stopped it; or an overflow of the decimal arithmetic.
pub enum Tally {
    Running { sum: Dec, blanks: nat },
    Failed(ErrorV),
    Overflow,
}

/// How an amount on an account counts in the sum: plus on assets and
/// expenses, minus on the other accounts.
pub open spec fn assign_of(typ: account::Type) -> Dec {
    match typ {
        account::Type::Asset | account::Type::Expense => Dec { mantissa: 1, scale: 0 },
        _ => Dec { mantissa: -1i128, scale: 0 },
    }
}

/// The price of a line in the unit of the journal: one where the units agree,
/// else the price of the line.
pub open spec fn price_of(journal: journal::Model, a: account::Model, item: record_item::Model) -> Option<Dec> {
    if journal.unit@ == a.unit@ {
        Some(Dec { mantissa: 1, scale: 0 })
    } else {
        item.price
    }
}

/// The sum after one more line: its account must exist; a line without an
/// amount counts as a blank; else `amount * price * assign` is added.
pub open spec fn tally_step(
    t: Tally,
    journal: journal::Model,
    item: record_item::Model,
    accounts: Seq<account::Model>,
) -> Tally {
    match t {
        Tally::Running { sum, blanks } => match find_account(accounts, item.account_id) {
            None => Tally::Failed(
                ErrorV::NotFound { entity: account::TYPE@, field: FIELD_ID@, value: uuid_hyphenated(item.account_id) },
            ),
            Some(a) => match item.amount {
                None => Tally::Running { sum, blanks: blanks + 1 },
                Some(amount) => match price_of(journal, a, item) {
                    None => Tally::Failed(ErrorV::RecordItemMustContainPrice { id: journal.id, account: a.id }),
                    Some(price) => match decimal_checked_mul(amount, price) {
                        None => Tally::Overflow,
                        Some(x) => match decimal_checked_mul(x, assign_of(a.typ)) {
                            None => Tally::Overflow,
                            Some(y) => match decimal_checked_add(sum, y) {
                                None => Tally::Overflow,
                                Some(z) => Tally::Running { sum: z, blanks },
                            },
                        },
                    },
                },
            },
        },
        _ => t,
    }
}

/// In the sum of a record, a line with an amount on an account in the unit of
/// the journal adds its amount (times a price of one) with a sign: plus on an
/// asset or expense account, minus on an income, liability or equity account.
pub proof fn lemma_tally_line_sign(
    sum: Dec,
    blanks: nat,
    journal: journal::Model,
    item: record_item::Model,
    accounts: Seq<account::Model>,
)
    requires
        find_account(accounts, item.account_id) is Some,
        find_account(accounts, item.account_id).unwrap().unit@ == journal.unit@,
        item.amount is Some,
    ensures
        ({
            let a = find_account(accounts, item.account_id).unwrap();
            let sign: i128 = if a.typ == account::Type::Asset || a.typ == account::Type::Expense { 1i128 } else { -1i128 };
            tally_step(Tally::Running { sum, blanks }, journal, item, accounts) == match decimal_checked_mul(
                item.amount.unwrap(),
                Dec { mantissa: 1, scale: 0 },
            ) {
                None => Tally::Overflow,
                Some(x) => match decimal_checked_mul(x, Dec { mantissa: sign, scale: 0 }) {
                    None => Tally::Overflow,
                    Some(y) => match decimal_checked_add(sum, y) {
                        None => Tally::Overflow,
                        Some(z) => Tally::Running { sum: z, blanks },
                    },
                },
            }
        }),
{
}

/// Two lines with equal amounts in the unit of the journal, one on an asset
/// (or expense) account and one on an income (liability, equity) account,
/// add the same product once with plus one and once with minus one: a salary
/// paid in cash sums the amount and its opposite.
pub proof fn lemma_opposite_lines(
    journal: journal::Model,
    plus: record_item::Model,
    minus: record_item::Model,
    accounts: Seq<account::Model>,
)
    requires
        find_account(accounts, plus.account_id) matches Some(a) && a.unit@ == journal.unit@ && (a.typ
            == account::Type::Asset || a.typ == account::Type::Expense),
        find_account(accounts, minus.account_id) matches Some(b) && b.unit@ == journal.unit@ && (b.typ
            == account::Type::Income || b.typ == account::Type::Liability || b.typ == account::Type::Equity),
        plus.amount is Some,
        minus.amount == plus.amount,
    ensures
        ({
            let zero = Dec { mantissa: 0, scale: 0 };
            let t = tally(journal, seq![plus, minus], accounts);
            match decimal_checked_mul(plus.amount.unwrap(), Dec { mantissa: 1, scale: 0 }) {
                None => t is Overflow,
                Some(p) => match (
                    decimal_checked_mul(p, Dec { mantissa: 1, scale: 0 }),
                    decimal_checked_mul(p, Dec { mantissa: -1i128, scale: 0 }),
                ) {
                    (Some(x), Some(y)) => match decimal_checked_add(zero, x) {
                        Some(s) => t == match decimal_checked_add(s, y) {
                            Some(z) => Tally::Running { sum: z, blanks: 0 },
                            None => Tally::Overflow,
                        },
                        None => t is Overflow,
                    },
                    (None, _) => t is Overflow,
                    (Some(x), None) => decimal_checked_add(zero, x) is Some ==> t is Overflow,
                },
            }
        }),
{
    let s2 = seq![plus, minus];
    assert(s2.drop_last() =~= seq![plus]);
    assert(seq![plus].drop_last() =~= Seq::<record_item::Model>::empty());
    let zero = Dec { mantissa: 0, scale: 0 };
    assert(tally(journal, Seq::<record_item::Model>::empty(), accounts) == Tally::Running { sum: zero, blanks: 0 });
    assert(seq![plus].last() == plus);
    assert(s2.last() == minus);
    assert(tally(journal, seq![plus], accounts) == tally_step(Tally::Running { sum: zero, blanks: 0 }, journal, plus, accounts));
    assert(tally(journal, s2, accounts) == tally_step(tally(journal, seq![plus], accounts), journal, minus, accounts));
    lemma_tally_line_sign(zero, 0, journal, plus, accounts);
    let t1 = tally(journal, seq![plus], accounts);
    if let Tally::Running { sum, blanks } = t1 {
        lemma_tally_line_sign(sum, blanks, journal, minus, accounts);
    }
}

/// The sum of the lines of a record, line by line from zero.
pub open spec fn tally(journal: journal::Model, items: Seq<record_item::Model>, accounts: Seq<account::Model>) -> Tally
    decreases items.len(),
{
    if items.len() == 0 {
        Tally::Running { sum: Dec { mantissa: 0, scale: 0 }, blanks: 0 }
    } else {
        tally_step(tally(journal, items.drop_last(), accounts), journal, items.last(), accounts)
    }
}

/// Once the sum stops (an error or an overflow), the later lines change nothing.
pub proof fn lemma_tally_stops(journal: journal::Model, items: Seq<record_item::Model>, accounts: Seq<account::Model>, i: int)
    requires
        0 <= i <= items.len(),
        !(tally(journal, items.take(i), accounts) is Running),
    ensures
        tally(journal, items, accounts) == tally(journal, items.take(i), accounts),
    decreases items.len() - i,
{
    if i < items.len() {
        assert(items.take(i + 1).drop_last() =~= items.take(i));
        lemma_tally_stops(journal, items, accounts, i + 1);
    } else {
        assert(items.take(i) =~= items);
    }
}

/// The lines are well-formed decimals.
pub open spec fn items_wf(items: Seq<record_item::Model>) -> bool {
    forall|i: int| 0 <= i < items.len() ==> #[trigger] items[i].wf()
}

/// Whether a record balances, from where its sum ends: the sum is zero with
/// no blank line, or exactly one line is blank (it takes up the rest).
pub open spec fn balanced(t: Tally) -> bool {
    match t {
        Tally::Running { sum, blanks } => (blanks == 0 && sum.same_value(Dec { mantissa: 0, scale: 0 })) || blanks == 1,
        _ => false,
    }
}

/// The state of a record as its sum gives it: `None` on an overflow.
pub open spec fn record_state_spec(t: Tally) -> Option<Result<bool, ErrorV>> {
    match t {
        Tally::Running { .. } => Some(Ok(balanced(t))),
        Tally::Failed(e) => Some(Err(e)),
        Tally::Overflow => None,
    }
}

/// The view of the outcome of working out a record state.
pub open spec fn record_state_view(r: Result<record::RecordState, Error>) -> Result<bool, ErrorV> {
    match r {
        Ok(record::RecordState::Record(b)) => Ok(b),
        Ok(record::RecordState::Check(_)) => Ok(false),
        Err(e) => Err(e@),
    }
}

impl RecordService {
    /// Whether a record balances, given its journal, its lines and the
    /// accounts that they name: `None` where the decimal arithmetic overflows.
    pub fn record_state_checked(
        journal: &journal::Model,
        items: &Vec<record_item::Model>,
        accounts: &Vec<account::Model>,
    ) -> (r: Option<Result<record::RecordState, Error>>)
        requires
            items_wf(items@),
        ensures
            match r {
                Some(s) => record_state_spec(tally(*journal, items@, accounts@)) == Some(record_state_view(s))
                    && (s matches Ok(st) ==> st is Record),
                None => tally(*journal, items@, accounts@) is Overflow,
            },
    {
        let mut sum = Dec::zero_value();
        let mut blanks: usize = 0;
        let ghost all = items@;
        for i in 0..items.len()
            invariant
                all == items@,
                items_wf(all),
                sum.wf(),
                blanks <= i,
                tally(*journal, all.take(i as int), accounts@) == (Tally::Running { sum, blanks: blanks as nat }),
        {
            assert(all.take(i + 1).drop_last() =~= all.take(i as int));
            assert(all.take(i + 1).last() == all[i as int]);
            let item = items[i];
            assert(item.wf());
            let k = match lookup_account(accounts, item.account_id) {
                Some(k) => k,
                None => {
                    proof {
                        lemma_tally_stops(*journal, all, accounts@, i + 1);
                    }
                    return Some(
                        Err(
                            Error::NotFound {
                                entity: account::TYPE.to_owned(),
                                field: FIELD_ID.to_owned(),
                                value: uuid_text(item.account_id),
                            },
                        ),
                    );
                },
            };
            let a = &accounts[k];
            match item.amount {
                None => {
                    blanks = blanks + 1;
                },
                Some(amount) => {
                    let price = if journal.unit == a.unit {
                        Dec::one()
                    } else {
                        match item.price {
                            Some(p) => p,
                            None => {
                                proof {
                                    lemma_tally_stops(*journal, all, accounts@, i + 1);
                                }
                                return Some(Err(Error::RecordItemMustContainPrice { id: journal.id, account: a.id }));
                            },
                        }
                    };
                    let assign = match a.typ {
                        account::Type::Asset | account::Type::Expense => Dec::one(),
                        _ => Dec::negative_one(),
                    };
                    let x = match checked_mul(amount, price) {
                        Some(x) => x,
                        None => {
                            proof {
                                lemma_tally_stops(*journal, all, accounts@, i + 1);
                            }
                            return None;
                        },
                    };
                    let y = match checked_mul(x, assign) {
                        Some(y) => y,
                        None => {
                            proof {
                                lemma_tally_stops(*journal, all, accounts@, i + 1);
                            }
                            return None;
                        },
                    };
                    sum = match checked_add(sum, y) {
                        Some(z) => z,
                        None => {
                            proof {
                                lemma_tally_stops(*journal, all, accounts@, i + 1);
                            }
                            return None;
                        },
                    };
                },
            }
        }
        assert(all.take(items.len() as int) =~= all);
        let zero = Dec::zero_value();
        let balanced = (blanks == 0 && dec_eq(sum, zero)) || blanks == 1;
        Some(Ok(record::RecordState::Record(balanced)))
    }

    /// Whether a record balances, given its journal, its lines and the
    /// accounts that they name; the sum must not overflow.
    pub fn record_state(
        journal: &journal::Model,
        items: &Vec<record_item::Model>,
        accounts: &Vec<account::Model>,
    ) -> (r: Result<record::RecordState, Error>)
        requires
            items_wf(items@),
            !(tally(*journal, items@, accounts@) is Overflow),
        ensures
            record_state_spec(tally(*journal, items@, accounts@)) == Some(record_state_view(r)),
            r matches Ok(st) ==> st is Record,
    {
        match RecordService::record_state_checked(journal, items, accounts) {
            Some(r) => r,
            None => Ok(record::RecordState::Record(false)),
        }
    }
}

// ---------------------------------------------------------------------------
// Whether a check holds

/// The amount of a line, zero where it has none.
pub open spec fn amount_or_zero(item: record_item::Model) -> Dec {
    match item.amount {
        Some(a) => a,
        None => Dec { mantissa: 0, scale: 0 },
    }
}

/// The balance of an account over the lines of earlier records, line by line
/// from zero: `None` where the sum overflows.
pub open spec fn balance(rows: Seq<record_item::Model>, account_id: u128) -> Option<Dec>
    decreases rows.len(),
{
    if rows.len() == 0 {
        Some(Dec { mantissa: 0, scale: 0 })
    } else {
        let prev = balance(rows.drop_last(), account_id);
        if rows.last().account_id == account_id {
            match prev {
                Some(p) => decimal_checked_add(p, amount_or_zero(rows.last())),
                None => None,
            }
        } else {
            prev
        }
    }
}

/// No balance over the lines overflows.
pub open spec fn balances_fit(rows: Seq<record_item::Model>) -> bool {
    forall|j: int| 0 <= j < rows.len() ==> #[trigger] balance(rows, rows[j].account_id) is Some
}

/// How a line of a check compares with the balance of its account.
pub open spec fn check_of(item: record_item::Model, rows: Seq<record_item::Model>) -> record::CheckRecordState {
    let expected = amount_or_zero(item);
    let actual = balance(rows, item.account_id).unwrap();
    if expected.same_value(actual) {
        record::CheckRecordState::Valid
    } else {
        record::CheckRecordState::Invalid { expected, actual }
    }
}

/// The comparisons of the lines of a check, by account (where two lines name
/// one account, the later one counts).
pub open spec fn check_map(items: Seq<record_item::Model>, rows: Seq<record_item::Model>) -> Map<u128, record::CheckRecordState>
    decreases items.len(),
{
    if items.len() == 0 {
        Map::empty()
    } else {
        check_map(items.drop_last(), rows).insert(items.last().account_id, check_of(items.last(), rows))
    }
}

/// A check compares exactly the accounts that its lines name.
pub proof fn lemma_check_map_accounts(items: Seq<record_item::Model>, rows: Seq<record_item::Model>)
    ensures
        forall|a: u128| #[trigger] check_map(items, rows).contains_key(a) <==> exists|i: int| 0 <= i < items.len() && items[i].account_id == a,
    decreases items.len(),
{
    if items.len() > 0 {
        let init = items.drop_last();
        lemma_check_map_accounts(init, rows);
        assert forall|a: u128| #[trigger] check_map(items, rows).contains_key(a) <==> exists|i: int| 0 <= i < items.len() && items[i].account_id == a by {
            if check_map(items, rows).contains_key(a) && a != items.last().account_id {
                assert(check_map(init, rows).contains_key(a));
                let i = choose|i: int| 0 <= i < init.len() && init[i].account_id == a;
                assert(items[i].account_id == a);
            }
            if a == items.last().account_id {
                assert(items[items.len() - 1].account_id == a);
            }
            if exists|i: int| 0 <= i < items.len() && items[i].account_id == a {
                let i = choose|i: int| 0 <= i < items.len() && items[i].account_id == a;
                if i < items.len() - 1 {
                    assert(init[i].account_id == a);
                    assert(check_map(init, rows).contains_key(a));
                }
            }
        }
    }
}

/// Once a balance overflows it stays so.
pub proof fn lemma_balance_stops(rows: Seq<record_item::Model>, account_id: u128, i: int)
    requires
        0 <= i <= rows.len(),
        balance(rows.take(i), account_id) is None,
    ensures
        balance(rows, account_id) is None,
    decreases rows.len() - i,
{
    if i < rows.len() {
        assert(rows.take(i + 1).drop_last() =~= rows.take(i));
        lemma_balance_stops(rows, account_id, i + 1);
    } else {
        assert(rows.take(i) =~= rows);
    }
}

/// The balance of an account that no line names is zero.
pub proof fn lemma_balance_unnamed(rows: Seq<record_item::Model>, account_id: u128)
    requires
        forall|j: int| 0 <= j < rows.len() ==> #[trigger] rows[j].account_id != account_id,
    ensures
        balance(rows, account_id) == Some(Dec { mantissa: 0, scale: 0 }),
    decreases rows.len(),
{
    if rows.len() > 0 {
        lemma_balance_unnamed(rows.drop_last(), account_id);
    }
}

fn amount_or_zero_of(item: &record_item::Model) -> (d: Dec)
    ensures
        d == amount_or_zero(*item),
{
    match item.amount {
        Some(a) => a,
        None => Dec::zero_value(),
    }
}

/// The balance of an account over the lines: `None` where it overflows.
fn balance_of(rows: &Vec<record_item::Model>, account_id: u128) -> (r: Option<Dec>)
    requires
        items_wf(rows@),
    ensures
        r == balance(rows@, account_id),
        r matches Some(d) ==> d.wf(),
{
    let mut acc = Dec::zero_value();
    let ghost all = rows@;
    for i in 0..rows.len()
        invariant
            all == rows@,
            items_wf(all),
            acc.wf(),
            balance(all.take(i as int), account_id) == Some(acc),
    {
        assert(all.take(i + 1).drop_last() =~= all.take(i as int));
        assert(all.take(i + 1).last() == all[i as int]);
        if rows[i].account_id == account_id {
            assert(rows@[i as int].wf());
            let amount = amount_or_zero_of(&rows[i]);
            match checked_add(acc, amount) {
                Some(z) => {
                    acc = z;
                },
                None => {
                    proof {
                        lemma_balance_stops(all, account_id, i + 1);
                    }
                    return None;
                },
            }
        }
    }
    assert(all.take(rows.len() as int) =~= all);
    Some(acc)
}

/// The view of the state of a check.
pub open spec fn check_state_view(s: record::RecordState) -> Option<Map<u128, record::CheckRecordState>> {
    match s {
        record::RecordState::Check(m) => Some(m@),
        _ => None,
    }
}

impl RecordService {
    /// The condition on the lines that a check compares with: lines of
    /// records (not checks) dated up to the check, on the accounts of the
    /// check.
    pub fn check_state_condition(model: &record::Model, items: &Vec<record_item::Model>) -> (cond: Condition)
        ensures
            cond@ == seq![
                ClauseV::All(
                    seq![
                        AtomV::Eq(Column::RecordTyp, ValueV::RecordType(record::Type::Record)),
                        AtomV::Lte(Column::RecordDate, ValueV::Date(model.date)),
                        AtomV::IsIn(Column::AccountId, Seq::new(items@.len(), |i: int| ValueV::Id(items@[i].account_id))),
                    ],
                ),
            ],
    {
        let mut ids: Vec<u128> = Vec::new();
        for i in 0..items.len()
            invariant
                ids@ =~= Seq::new(i as nat, |k: int| items@[k].account_id),
        {
            ids.push(items[i].account_id);
        }
        let vs = super::condition::id_values(&ids);
        let mut atoms: Vec<Atom> = Vec::new();
        atoms.push(Atom::Eq(Column::RecordTyp, Value::RecordType(record::Type::Record)));
        atoms.push(Atom::Lte(Column::RecordDate, Value::Date(model.date)));
        atoms.push(Atom::IsIn(Column::AccountId, vs));
        let clause = Clause::All(atoms);
        let mut cond = Condition::all();
        cond.add(clause);
        assert(super::condition::values_view(vs@) =~= Seq::new(items@.len(), |i: int| ValueV::Id(items@[i].account_id)));
        assert(clause@->All_0 =~= seq![
            AtomV::Eq(Column::RecordTyp, ValueV::RecordType(record::Type::Record)),
            AtomV::Lte(Column::RecordDate, ValueV::Date(model.date)),
            AtomV::IsIn(Column::AccountId, Seq::new(items@.len(), |i: int| ValueV::Id(items@[i].account_id))),
        ]);
        cond
    }

    /// How each line of a check compares with the balance of its account over
    /// the lines of earlier records: `None` where a balance overflows.
    pub fn check_state_checked(items: &Vec<record_item::Model>, rows: &Vec<record_item::Model>) -> (r: Option<record::RecordState>)
        requires
            items_wf(items@),
            items_wf(rows@),
        ensures
            match r {
                Some(s) => balances_fit(rows@) && check_state_view(s) == Some(check_map(items@, rows@)),
                None => !balances_fit(rows@),
            },
    {
        for j in 0..rows.len()
            invariant
                items_wf(rows@),
                forall|k: int| 0 <= k < j ==> #[trigger] balance(rows@, rows@[k].account_id) is Some,
        {
            if balance_of(rows, rows[j].account_id).is_none() {
                return None;
            }
        }
        let mut map: HashMap<u128, record::CheckRecordState> = HashMap::new();
        let ghost all = items@;
        for i in 0..items.len()
            invariant
                all == items@,
                items_wf(all),
                items_wf(rows@),
                balances_fit(rows@),
                map@ == check_map(all.take(i as int), rows@),
        {
            assert(all.take(i + 1).drop_last() =~= all.take(i as int));
            assert(all.take(i + 1).last() == all[i as int]);
            let item = items[i];
            assert(all[i as int].wf());
            let expected = amount_or_zero_of(&item);
            let actual = match balance_of(rows, item.account_id) {
                Some(d) => d,
                None => {
                    proof {
                        if forall|j: int| 0 <= j < rows@.len() ==> #[trigger] rows@[j].account_id != item.account_id {
                            lemma_balance_unnamed(rows@, item.account_id);
                        } else {
                            let j = choose|j: int| 0 <= j < rows@.len() && #[trigger] rows@[j].account_id == item.account_id;
                            assert(balance(rows@, rows@[j].account_id) is Some);
                        }
                    }
                    Dec::zero_value()
                },
            };
            let state = if dec_eq(expected, actual) {
                record::CheckRecordState::Valid
            } else {
                record::CheckRecordState::Invalid { expected, actual }
            };
            map.insert(item.account_id, state);
        }
        assert(all.take(items.len() as int) =~= all);
        Some(record::RecordState::Check(map))
    }

    /// How each line of a check compares with the balance of its account over
    /// the lines of earlier records; no balance may overflow.
    pub fn check_state(items: &Vec<record_item::Model>, rows: &Vec<record_item::Model>) -> (r: record::RecordState)
        requires
            items_wf(items@),
            items_wf(rows@),
            balances_fit(rows@),
        ensures
            check_state_view(r) == Some(check_map(items@, rows@)),
    {
        match RecordService::check_state_checked(items, rows) {
            Some(s) => s,
            None => record::RecordState::Record(false),
        }
    }
}

/// What working out the state of a record needs not to overflow: the sum of
/// a record, or the balances of a check.
pub open spec fn state_fits(
    model: record::Model,
    journal: Option<journal::Model>,
    items: Seq<record_item::Model>,
    accounts: Seq<account::Model>,
    rows: Seq<record_item::Model>,
) -> bool {
    journal matches Some(j) ==> if model.typ == record::Type::Record {
        !(tally(j, items, accounts) is Overflow)
    } else {
        balances_fit(rows)
    }
}

/// The state of a record as the contract of `state` gives it.
pub open spec fn state_matches(
    r: Result<record::RecordState, Error>,
    model: record::Model,
    journal: Option<journal::Model>,
    items: Seq<record_item::Model>,
    accounts: Seq<account::Model>,
    rows: Seq<record_item::Model>,
) -> bool {
    match journal {
        None => r matches Err(e) && e@ == id_not_found(journal::TYPE@, model.journal_id),
        Some(j) => if model.typ == record::Type::Record {
            record_state_spec(tally(j, items, accounts)) == Some(record_state_view(r)) && (r matches Ok(st)
                ==> st is Record)
        } else {
            r matches Ok(st) && check_state_view(st) == Some(check_map(items, rows))
        },
    }
}

impl RecordService {
    /// The state of a record, given its journal (if found), its lines, the
    /// accounts that they name and, for a check, the lines of earlier records
    /// on those accounts: `None` where the decimal arithmetic overflows.
    pub fn state_checked(
        model: &record::Model,
        journal: &Option<journal::Model>,
        items: &Vec<record_item::Model>,
        accounts: &Vec<account::Model>,
        rows: &Vec<record_item::Model>,
    ) -> (r: Option<Result<record::RecordState, Error>>)
        requires
            items_wf(items@),
            items_wf(rows@),
        ensures
            match r {
                Some(s) => state_matches(s, *model, *journal, items@, accounts@, rows@),
                None => !state_fits(*model, *journal, items@, accounts@, rows@),
            },
    {
        match journal {
            None => Some(Err(not_found(journal::TYPE, model.journal_id))),
            Some(j) => {
                if model.typ == record::Type::Record {
                    RecordService::record_state_checked(j, items, accounts)
                } else {
                    match RecordService::check_state_checked(items, rows) {
                        Some(s) => Some(Ok(s)),
                        None => None,
                    }
                }
            },
        }
    }

    /// The state of a record, given its journal (if found), its lines, the
    /// accounts that they name and, for a check, the lines of earlier records
    /// on those accounts; the decimal arithmetic must not overflow.
    pub fn state(
        model: &record::Model,
        journal: &Option<journal::Model>,
        items: &Vec<record_item::Model>,
        accounts: &Vec<account::Model>,
        rows: &Vec<record_item::Model>,
    ) -> (r: Result<record::RecordState, Error>)
        requires
            items_wf(items@),
            items_wf(rows@),
            state_fits(*model, *journal, items@, accounts@, rows@),
        ensures
            state_matches(r, *model, *journal, items@, accounts@, rows@),
    {
        match RecordService::state_checked(model, journal, items, accounts, rows) {
            Some(s) => s,
            None => Err(not_found(journal::TYPE, model.journal_id)),
        }
    }
}

// ---------------------------------------------------------------------------
// Writing records

/// A command on records.
#[derive(Debug)]
pub enum RecordCommand {
    Create(RecordCommandCreate),
    Update(RecordCommandUpdate),
    Delete(u128),
}

/// A new record of a journal. The tags and the lines are sets: a repetition
/// counts once.
#[derive(Debug)]
pub struct RecordCommandCreate {
    pub target_id: Option<u128>,
    pub journal_id: u128,
    pub description: String,
    pub typ: record::Type,
    pub date: i32,
    pub tags: Vec<String>,
    pub items: Vec<record_item::Presentation>,
}

/// A change of a record (`None`: left as it is).
#[derive(Debug)]
pub struct RecordCommandUpdate {
    pub target_id: u128,
    pub description: Option<String>,
    pub typ: Option<record::Type>,
    pub date: Option<i32>,
    pub tags: Option<Vec<String>>,
    pub items: Option<Vec<record_item::Presentation>>,
}

impl RecordCommandUpdate {
    /// The update changes nothing.
    pub fn is_empty(&self) -> (b: bool)
        ensures
            b == (self.description is None && self.typ is None && self.date is None && self.tags is None
                && self.items is None),
    {
        self.description.is_none() && self.typ.is_none() && self.date.is_none() && self.tags.is_none()
            && self.items.is_none()
    }
}

impl AbstractCommand for RecordCommand {
    open spec fn spec_target_id(&self) -> Option<u128> {
        match self {
            RecordCommand::Create(c) => c.target_id,
            RecordCommand::Update(c) => Some(c.target_id),
            RecordCommand::Delete(id) => Some(*id),
        }
    }

    open spec fn spec_with_target_id(self, id: u128) -> Self {
        match self {
            RecordCommand::Create(c) => RecordCommand::Create(RecordCommandCreate { target_id: Some(id), ..c }),
            RecordCommand::Update(c) => RecordCommand::Update(RecordCommandUpdate { target_id: id, ..c }),
            RecordCommand::Delete(_) => RecordCommand::Delete(id),
        }
    }

    proof fn lemma_with_target_id(self, id: u128) {
    }

    fn target_id(&self) -> (id: Option<u128>) {
        match self {
            RecordCommand::Create(c) => c.target_id,
            RecordCommand::Update(c) => Some(c.target_id),
            RecordCommand::Delete(id) => Some(*id),
        }
    }

    fn with_target_id(self, id: u128) -> (c: Self) {
        match self {
            RecordCommand::Create(c) => RecordCommand::Create(RecordCommandCreate { target_id: Some(id), ..c }),
            RecordCommand::Update(c) => RecordCommand::Update(RecordCommandUpdate { target_id: id, ..c }),
            RecordCommand::Delete(_) => RecordCommand::Delete(id),
        }
    }
}

fn has_item(items: &Vec<record_item::Presentation>, item: record_item::Presentation) -> (found: bool)
    ensures
        found == items@.contains(item),
{
    for i in 0..items.len()
        invariant
            forall|k: int| 0 <= k < i ==> items@[k] != item,
    {
        if items[i] == item {
            return true;
        }
    }
    false
}

/// The lines with each repetition of an earlier one left out, in order.
pub fn dedup_items(items: &Vec<record_item::Presentation>) -> (r: Vec<record_item::Presentation>)
    ensures
        r@ == distinct(items@),
{
    let mut r: Vec<record_item::Presentation> = Vec::new();
    for i in 0..items.len()
        invariant
            r@ == distinct(items@.take(i as int)),
    {
        assert(items@.take(i + 1).drop_last() =~= items@.take(i as int));
        if !has_item(&r, items[i]) {
            r.push(items[i]);
        }
    }
    assert(items@.take(items.len() as int) =~= items@);
    r
}

/// The stored lines of a record, one per line of the command, in order.
pub open spec fn item_rows(record_id: u128, items: Seq<record_item::Presentation>) -> Seq<record_item::Model> {
    Seq::new(
        items.len(),
        |i: int| record_item::Model { record_id, account_id: items[i].account_id, amount: items[i].amount, price: items[i].price },
    )
}

fn make_item_rows(record_id: u128, items: &Vec<record_item::Presentation>) -> (rows: Vec<record_item::Model>)
    ensures
        rows@ == item_rows(record_id, items@),
{
    let mut rows: Vec<record_item::Model> = Vec::new();
    for i in 0..items.len()
        invariant
            rows@ =~= item_rows(record_id, items@.take(i as int)),
    {
        rows.push(
            record_item::Model { record_id, account_id: items[i].account_id, amount: items[i].amount, price: items[i].price },
        );
    }
    assert(items@.take(items.len() as int) =~= items@);
    rows
}

/// The rows of the tags of a record, one per tag, in order.
pub open spec fn record_tag_rows(rows: Seq<record_tag::Model>, record_id: u128, tags: Seq<Seq<char>>) -> bool {
    &&& rows.len() == tags.len()
    &&& forall|i: int| 0 <= i < rows.len() ==> #[trigger] rows[i].record_id == record_id && rows[i].tag@ == tags[i]
}

fn make_tag_rows(record_id: u128, tags: &Vec<String>) -> (rows: Vec<record_tag::Model>)
    ensures
        record_tag_rows(rows@, record_id, tags.deep_view()),
{
    let mut rows: Vec<record_tag::Model> = Vec::new();
    let mut i: usize = 0;
    while i < tags.len()
        invariant
            i <= tags@.len(),
            rows@.len() == i,
            forall|k: int| 0 <= k < i ==> #[trigger] rows@[k].record_id == record_id && rows@[k].tag@ == tags@[k]@,
        decreases tags@.len() - i,
    {
        let tag = tags[i].clone();
        rows.push(record_tag::Model { record_id, tag });
        i = i + 1;
    }
    let ghost all = tags.deep_view();
    assert(all.len() == tags@.len());
    assert forall|k: int| 0 <= k < rows@.len() implies #[trigger] rows@[k].record_id == record_id && rows@[k].tag@ == all[k] by {
        assert(rows@[k].record_id == record_id);
        assert(all[k] == tags@[k]@);
    }
    assert(record_tag_rows(rows@, record_id, all));
    rows
}

/// What creating a record writes: the record, its tags and its lines.
#[derive(Debug)]
pub struct RecordCreation {
    pub model: record::Model,
    pub tags: Vec<record_tag::Model>,
    pub items: Vec<record_item::Model>,
}

/// The outcome of the checks of a new record with the given id in the given
/// journal: its description, its tags and its lines.
pub open spec fn create_outcome(
    id: u128,
    j: journal::Model,
    command: RecordCommandCreate,
    accounts: Seq<account::Model>,
) -> Result<(), ErrorV> {
    outcome_of(
        description_errors(record::TYPE@, Some(command.description@)) + tag_errors(
            account::TYPE@,
            distinct(command.tags.deep_view()),
        ) + lines_errors_of(id, j.unit@, distinct(command.items@), accounts),
    )
}

/// The errors of the lines of a record, given its id, the unit of its
/// journal, its lines and the loaded accounts.
pub open spec fn lines_errors_of(
    id: u128,
    unit: Seq<char>,
    items: Seq<record_item::Presentation>,
    accounts: Seq<account::Model>,
) -> Seq<ErrorV> {
    let n = items.len();
    (if n < MIN_RECORD_ITEMS || n > MAX_RECORD_ITEMS {
        seq![
            ErrorV::LengthRange {
                entity: record::TYPE@,
                field: FIELD_RECORD_ITEMS@,
                min: MIN_RECORD_ITEMS,
                max: MAX_RECORD_ITEMS,
            },
        ]
    } else {
        Seq::empty()
    }) + lines_errors(id, unit, items, accounts) + (if empty_count(items) > 1 {
        seq![ErrorV::RecordAtMostOneEmptyItem { id }]
    } else {
        Seq::empty()
    })
}

/// What updating a record does: nothing, or write the changed fields and
/// replace the tags and the lines that the command sets.
#[derive(Debug)]
pub enum RecordUpdate {
    Unchanged(record::Model),
    Write {
        model: record::ActiveModel,
        tags: Option<Vec<record_tag::Model>>,
        items: Option<Vec<record_item::Model>>,
    },
}

/// The fields that an update of a record sets.
pub open spec fn updated_record(command: RecordCommandUpdate) -> record::ActiveModel {
    record::ActiveModel {
        id: Some(command.target_id),
        journal_id: None,
        description: command.description,
        typ: command.typ,
        date: command.date,
    }
}

/// The fields that an update writes are those that the command sets, with
/// the command's values; the others are left as they are.
pub proof fn lemma_update_writes_command_fields(command: RecordCommandUpdate)
    ensures
        updated_record(command).id == Some(command.target_id),
        updated_record(command).journal_id is None,
        updated_record(command).description == command.description,
        updated_record(command).typ == command.typ,
        updated_record(command).date == command.date,
{
}

/// The outcome of an update of a record.
pub open spec fn record_update_spec(
    operator: user::Model,
    command: RecordCommandUpdate,
    existing: Option<record::Model>,
    journal: Option<journal::Model>,
    access: JournalAccess,
    accounts: Seq<account::Model>,
) -> Result<(), ErrorV> {
    match existing {
        None => Err(id_not_found(record::TYPE@, command.target_id)),
        Some(rec) => match writeable_in_journal(operator, rec.journal_id, journal, access) {
            Err(e) => Err(e),
            Ok(()) => if command.description is None && command.typ is None && command.date is None
                && command.tags is None && command.items is None {
                Ok(())
            } else if command.items is Some && journal is None {
                Err(id_not_found(journal::TYPE@, rec.journal_id))
            } else {
                outcome_of(
                    description_errors(record::TYPE@, opt_text(command.description)) + match command.tags {
                        Some(t) => tag_errors(account::TYPE@, distinct(t.deep_view())),
                        None => Seq::empty(),
                    } + match command.items {
                        Some(items) => lines_errors_of(
                            command.target_id,
                            journal.unwrap().unit@,
                            distinct(items@),
                            accounts,
                        ),
                        None => Seq::empty(),
                    },
                )
            },
        },
    }
}

impl RecordService {
    /// Creates a record: its journal must exist and be readable by the
    /// operator (given its access lists); its description, tags and lines
    /// (against the unit of the journal and the accounts loaded for the
    /// lines) must pass the checks.
    pub fn create(
        operator: &AuthUser,
        command: RecordCommandCreate,
        journal: Option<journal::Model>,
        access: &JournalAccess,
        accounts: Vec<account::Model>,
    ) -> (r: Result<RecordCreation, Error>)
        ensures
            !(journal is Some && JournalService::readable(*operator, journal.unwrap(), *access))
                ==> (r matches Err(e) && e@ == id_not_found(journal::TYPE@, command.journal_id)),
            journal is Some && JournalService::readable(*operator, journal.unwrap(), *access) ==> match r {
                Ok(c) => create_outcome(c.model.id, journal.unwrap(), command, accounts@) == Ok::<(), ErrorV>(())
                    && c.model.journal_id == journal.unwrap().id && c.model.description == command.description
                    && c.model.typ == command.typ && c.model.date == command.date
                    && record_tag_rows(c.tags@, c.model.id, distinct(command.tags.deep_view()))
                    && c.items@ == item_rows(c.model.id, distinct(command.items@)),
                Err(e) => exists|id: u128| Err::<(), ErrorV>(e@) == create_outcome(id, journal.unwrap(), command, accounts@),
            },
    {
        let j = match journal {
            Some(j) => j,
            None => {
                return Err(not_found(journal::TYPE, command.journal_id));
            },
        };
        if !JournalService::is_readable(operator, &j, access) {
            return Err(not_found(journal::TYPE, command.journal_id));
        }
        let ghost c0 = command;
        let typ = command.typ;
        let date = command.date;
        let id = new_id();
        let tags = dedup_texts(&command.tags);
        let items = dedup_items(&command.items);
        let model = record::ActiveModel {
            id: Some(id),
            journal_id: Some(j.id),
            description: Some(command.description),
            typ: Some(typ),
            date: Some(date),
        };
        let lines = Lines { unit: j.unit.clone(), items, accounts };
        let checked = RecordService::validate(&model, Some(&tags), Some(&lines));
        assert(record_errors(model, Some(tags.deep_view()), Some(lines)) =~= description_errors(
            record::TYPE@,
            Some(c0.description@),
        ) + tag_errors(account::TYPE@, distinct(c0.tags.deep_view())) + lines_errors_of(
            id,
            j.unit@,
            distinct(c0.items@),
            lines.accounts@,
        ));
        assert(outcome_view(checked) == create_outcome(id, j, c0, lines.accounts@));
        match checked {
            Err(e) => {
                assert(Err::<(), ErrorV>(e@) == create_outcome(id, j, c0, lines.accounts@));
                Err(e)
            },
            Ok(()) => {
                let tag_rows = make_tag_rows(id, &tags);
                let item_rows = make_item_rows(id, &lines.items);
                let description = match model.description { Some(d) => d, None => String::new() };
                Ok(RecordCreation {
                    model: record::Model { id, journal_id: j.id, description, typ, date },
                    tags: tag_rows,
                    items: item_rows,
                })
            },
        }
    }
}

impl RecordService {
    /// Updates a record, given the record (if found), its journal (if
    /// found), the access lists of that journal, and the accounts loaded for
    /// the lines of the command.
    pub fn update(
        operator: &user::Model,
        command: RecordCommandUpdate,
        existing: Option<record::Model>,
        journal: &Option<journal::Model>,
        access: &JournalAccess,
        accounts: Vec<account::Model>,
    ) -> (r: Result<RecordUpdate, Error>)
        ensures
            ({
                let expected = record_update_spec(*operator, command, existing, *journal, *access, accounts@);
                match r {
                    Err(e) => expected == Err::<(), ErrorV>(e@),
                    Ok(RecordUpdate::Unchanged(m)) => expected == Ok::<(), ErrorV>(()) && Some(m) == existing
                        && command.description is None && command.typ is None && command.date is None
                        && command.tags is None && command.items is None,
                    Ok(RecordUpdate::Write { model, tags, items }) => expected == Ok::<(), ErrorV>(())
                        && model == updated_record(command)
                        && model.id == Some(command.target_id) && model.journal_id is None
                        && model.description == command.description && model.typ == command.typ
                        && model.date == command.date
                        && (match command.tags {
                            Some(t) => tags is Some && record_tag_rows(tags.unwrap()@, command.target_id, distinct(t.deep_view())),
                            None => tags is None,
                        })
                        && (match command.items {
                            Some(l) => items is Some && items.unwrap()@ == item_rows(command.target_id, distinct(l@)),
                            None => items is None,
                        }),
                }
            }),
    {
        let rec = match existing {
            None => {
                return Err(not_found(record::TYPE, command.target_id));
            },
            Some(rec) => rec,
        };
        if let Err(e) = RecordService::check_writeable(operator, &rec, journal, access) {
            return Err(e);
        }
        if command.is_empty() {
            return Ok(RecordUpdate::Unchanged(rec));
        }
        let ghost c0 = command;
        let target = command.target_id;
        let lines = match &command.items {
            Some(l) => match journal {
                Some(j) => Some(Lines { unit: j.unit.clone(), items: dedup_items(l), accounts }),
                None => {
                    return Err(not_found(journal::TYPE, rec.journal_id));
                },
            },
            None => None,
        };
        let tags = match &command.tags {
            Some(t) => Some(dedup_texts(t)),
            None => None,
        };
        let model = record::ActiveModel {
            id: Some(target),
            journal_id: None,
            description: command.description,
            typ: command.typ,
            date: command.date,
        };
        let checked = match (&tags, &lines) {
            (Some(t), Some(l)) => RecordService::validate(&model, Some(t), Some(l)),
            (Some(t), None) => RecordService::validate(&model, Some(t), None),
            (None, Some(l)) => RecordService::validate(&model, None, Some(l)),
            (None, None) => RecordService::validate(&model, None, None),
        };
        proof {
            let expected_lines = match c0.items {
                Some(items) => lines_errors_of(target, journal.unwrap().unit@, distinct(items@), accounts@),
                None => Seq::<ErrorV>::empty(),
            };
            let got_lines = match &lines {
                Some(l) => record_lines_errors(target, *l),
                None => Seq::<ErrorV>::empty(),
            };
            assert(got_lines == expected_lines);
        }
        match checked {
            Err(e) => Err(e),
            Ok(()) => {
                let tag_rows = match &tags {
                    Some(t) => Some(make_tag_rows(target, t)),
                    None => None,
                };
                let item_rows = match &lines {
                    Some(l) => Some(make_item_rows(target, &l.items)),
                    None => None,
                };
                Ok(RecordUpdate::Write { model, tags: tag_rows, items: item_rows })
            },
        }
    }

    /// Whether the operator may delete the record with the given id, given
    /// the record (if found), its journal (if found) and the access lists of
    /// that journal.
    pub fn delete(
        operator: &user::Model,
        id: u128,
        existing: Option<record::Model>,
        journal: &Option<journal::Model>,
        access: &JournalAccess,
    ) -> (r: Result<(), Error>)
        ensures
            outcome_view(r) == match existing {
                None => Err(id_not_found(record::TYPE@, id)),
                Some(rec) => writeable_in_journal(*operator, rec.journal_id, *journal, *access),
            },
    {
        match existing {
            None => Err(not_found(record::TYPE, id)),
            Some(rec) => RecordService::check_writeable(operator, &rec, journal, access),
        }
    }
}

/// The checks of a query on a record: a record has no name, so a full-text
/// search that names no field (and so names the name) keeps every record; a
/// search of the description keeps it exactly when its description holds the
/// text; a containing-user query keeps no record.
pub proof fn lemma_record_keeps(model: record::Model, tags: Seq<Seq<char>>, value: Seq<char>, user: u128, object: bool, fields: Option<Seq<Seq<char>>>)
    ensures
        record_keeps(model, tags, ExternalQueryV::FullText { value, fields: None }),
        record_keeps(model, tags, ExternalQueryV::FullText { value, fields: Some(seq![FIELD_DESCRIPTION@]) })
            == crate::text::contains_text(model.description@, value),
        !record_keeps(model, tags, ExternalQueryV::ContainingUser { id: user, object, fields }),
{
    super::full_text::lemma_search_any_field(None, model.description@, tags, value, Seq::empty(), Seq::empty());
    reveal_strlit("name");
    reveal_strlit("description");
    reveal_strlit("tag");
    let f = seq![FIELD_DESCRIPTION@];
    assert(f[0] == FIELD_DESCRIPTION@);
    assert(FIELD_DESCRIPTION@ != FIELD_TAG@) by {
        assert(FIELD_DESCRIPTION@.len() != FIELD_TAG@.len());
    }
    assert(FIELD_DESCRIPTION@ != super::FIELD_NAME@) by {
        assert(FIELD_DESCRIPTION@.len() != super::FIELD_NAME@.len());
    }
    if super::full_text::some_field_matches(None, model.description@, tags, value, f) {
        let k = choose|k: int| 0 <= k < f.len() && super::full_text::field_matches(None, model.description@, tags, value, #[trigger] f[k]);
        assert(k == 0);
    }
}

/// Whether a record balances, from how its sum ends: it balances when its sum
/// is zero and no line is blank, or when exactly one line is blank (that line
/// takes up the rest); with two or more blank lines it never does, nor with a
/// sum other than zero and no blank line.
pub proof fn lemma_balance_rules(sum: Dec, blanks: nat)
    ensures
        balanced(Tally::Running { sum, blanks: 1 }),
        blanks >= 2 ==> !balanced(Tally::Running { sum, blanks }),
        !sum.same_value(Dec { mantissa: 0, scale: 0 }) ==> !balanced(Tally::Running { sum, blanks: 0 }),
        sum.same_value(Dec { mantissa: 0, scale: 0 }) ==> balanced(Tally::Running { sum, blanks: 0 }),
{
}

} // verus!
