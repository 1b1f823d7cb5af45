//! Accounts: their queries, who may see and change them, and the plans of
//! their writes.
use vstd::prelude::*;

use super::auth::{already_exists, id_not_found, name_taken, not_found, AuthUser};
use super::condition::{Atom, ClauseV, Column, Condition, Value, ValueV};
use super::full_text::{any_tag_contains, matches_text, text_matches};
use super::journal::{readable_in_journal, writeable_in_journal, JournalAccess, JournalService};
use super::read_service::{
    add_eq, add_id_query, add_text_value, eq_clauses, externals_view, full_text_view, id_clauses, marked,
    opt_value_view, plain_search, push_external, push_plain_search, push_text_search, text_search,
    text_value_clauses, ExternalQuery, ExternalQueryV, FullTextQuery, IdQuery, TextQuery,
};
use super::validation::{
    append_errors, check_description, check_name, check_unit, description_errors, name_errors, opt_text, unit_errors,
};
use super::write_service::AbstractCommand;
use super::{FIELD_DESCRIPTION, FIELD_NAME, FIELD_TAG};
use crate::errors::{errors_view, into_outcome, outcome_of, outcome_view, tag_errors, Error, ErrorV};
use crate::ids::new_id;
use crate::models::account::{Strategy, Type};
use crate::models::{account, account_tag, journal, user};
use crate::sets::distinct;
use crate::text::{contains_text, dedup_texts, text_is};

verus! {

/// A query on accounts.
#[derive(Clone, Debug)]
pub struct AccountQuery {
    pub full_text: Option<FullTextQuery>,
    pub id: Option<IdQuery>,
    pub journal: Option<u128>,
    pub name: Option<TextQuery>,
    pub description: Option<String>,
    pub typ: Option<Type>,
    pub strategy: Option<Strategy>,
    pub unit: Option<String>,
    pub tag: Option<TextQuery>,
    pub include_archived: Option<bool>,
}

/// The condition of an account query: its id, journal, exact name, type,
/// strategy, unit, exact tag, and that the account is not archived unless
/// archived accounts are asked for.
pub open spec fn account_condition(q: AccountQuery) -> Seq<ClauseV> {
    id_clauses(q.id, Column::AccountId)
        + eq_clauses(match q.journal { Some(j) => Some(ValueV::Id(j)), None => None }, Column::AccountJournalId)
        + text_value_clauses(q.name, Column::AccountName)
        + eq_clauses(match q.typ { Some(t) => Some(ValueV::AccountType(t)), None => None }, Column::AccountTyp)
        + eq_clauses(match q.strategy { Some(s) => Some(ValueV::Strategy(s)), None => None }, Column::AccountStrategy)
        + eq_clauses(match q.unit { Some(u) => Some(ValueV::Text(u@)), None => None }, Column::AccountUnit)
        + text_value_clauses(q.tag, Column::AccountTagTag)
        + if q.include_archived == Some(true) {
            Seq::<ClauseV>::empty()
        } else {
            seq![ClauseV::Atom(super::condition::AtomV::Eq(Column::AccountIsArchived, ValueV::Bool(false)))]
        }
}

/// The checks of an account query that the service makes itself.
pub open spec fn account_external(q: AccountQuery) -> Seq<ExternalQueryV> {
    (match q.full_text {
        Some(f) => seq![full_text_view(f)],
        None => Seq::empty(),
    }) + text_search(q.name, FIELD_NAME@) + plain_search(q.description, FIELD_DESCRIPTION@) + text_search(
        q.tag,
        FIELD_TAG@,
    )
}

impl AccountQuery {
    /// The condition that the accounts of the query meet in storage.
    pub fn into_condition(self) -> (cond: Condition)
        ensures
            cond@ == account_condition(self),
    {
        let ghost q = self;
        let mut cond = Condition::all();
        add_id_query(&mut cond, self.id, Column::AccountId);
        add_eq(&mut cond, match self.journal { Some(j) => Some(Value::Id(j)), None => None }, Column::AccountJournalId);
        add_text_value(&mut cond, self.name, Column::AccountName);
        add_eq(&mut cond, match self.typ { Some(t) => Some(Value::AccountType(t)), None => None }, Column::AccountTyp);
        add_eq(
            &mut cond,
            match self.strategy { Some(s) => Some(Value::Strategy(s)), None => None },
            Column::AccountStrategy,
        );
        add_eq(&mut cond, match self.unit { Some(u) => Some(Value::Text(u)), None => None }, Column::AccountUnit);
        add_text_value(&mut cond, self.tag, Column::AccountTagTag);
        let with_archived = match self.include_archived {
            Some(b) => b,
            None => false,
        };
        if !with_archived {
            cond.add_atom(Atom::Eq(Column::AccountIsArchived, Value::Bool(false)));
        }
        assert(cond@ =~= account_condition(q));
        cond
    }

    /// The parts of the query that the service checks itself: the full-text
    /// search, and full-text searches of the name, the description and the tags.
    pub fn into_external_queries(self) -> (v: Vec<ExternalQuery>)
        ensures
            externals_view(v@) == account_external(self),
    {
        let ghost q = self;
        let mut v: Vec<ExternalQuery> = Vec::new();
        if let Some(f) = self.full_text {
            push_external(&mut v, ExternalQuery::FullText(f));
        }
        assert(externals_view(v@) =~= match q.full_text {
            Some(f) => seq![full_text_view(f)],
            None => Seq::empty(),
        });
        push_text_search(&mut v, self.name, FIELD_NAME);
        push_plain_search(&mut v, self.description, FIELD_DESCRIPTION);
        push_text_search(&mut v, self.tag, FIELD_TAG);
        assert(externals_view(v@) =~= account_external(q));
        v
    }
}

// ---------------------------------------------------------------------------
// The service

/// Accounts.
pub struct AccountService {}

/// Whether an external query keeps an account, given its tags: a full-text
/// search as for journals; a containing-user query keeps none.
pub open spec fn account_keeps(model: account::Model, tags: Seq<Seq<char>>, q: ExternalQueryV) -> bool {
    match q {
        ExternalQueryV::FullText { value, fields } => text_matches(Some(model.name@), model.description@, tags, value, fields),
        ExternalQueryV::ContainingUser { .. } => false,
    }
}

/// The marks of the accounts that an external query keeps.
pub open spec fn account_marks(items: Seq<account::Model>, tags: Seq<Vec<String>>, q: ExternalQueryV) -> Seq<bool> {
    Seq::new(items.len(), |i: int| account_keeps(items[i], tags[i].deep_view(), q))
}

/// The column that a field sorts accounts by.
pub open spec fn account_sort_column(field: Seq<char>) -> Option<Column> {
    if field == "name"@ {
        Some(Column::AccountName)
    } else if field == "journal"@ {
        Some(Column::AccountJournalId)
    } else if field == "typ"@ {
        Some(Column::AccountTyp)
    } else if field == "strategy"@ {
        Some(Column::AccountStrategy)
    } else if field == "unit"@ {
        Some(Column::AccountUnit)
    } else if field == "is_archived"@ {
        Some(Column::AccountIsArchived)
    } else {
        None
    }
}

/// The value of an account in a column.
pub open spec fn account_value(model: account::Model, column: Column) -> ValueV {
    match column {
        Column::AccountName => ValueV::Text(model.name@),
        Column::AccountJournalId => ValueV::Id(model.journal_id),
        Column::AccountTyp => ValueV::AccountType(model.typ),
        Column::AccountStrategy => ValueV::Strategy(model.strategy),
        Column::AccountUnit => ValueV::Text(model.unit@),
        _ => ValueV::Bool(model.is_archived),
    }
}

/// The errors of an account write: name, description, unit, and the tags
/// when they are set.
pub open spec fn account_errors(model: account::ActiveModel, tags: Option<Seq<Seq<char>>>) -> Seq<ErrorV> {
    let entity = account::TYPE@;
    name_errors(entity, opt_text(model.name)) + description_errors(entity, opt_text(model.description)) + unit_errors(
        entity,
        opt_text(model.unit),
    ) + match tags {
        Some(t) => tag_errors(entity, t),
        None => Seq::empty(),
    }
}

/// The rows of the tags of an account, one per tag, in order.
pub open spec fn account_tag_rows(rows: Seq<account_tag::Model>, account_id: u128, tags: Seq<Seq<char>>) -> bool {
    &&& rows.len() == tags.len()
    &&& forall|i: int| 0 <= i < rows.len() ==> #[trigger] rows[i].account_id == account_id && rows[i].tag@ == tags[i]
}

fn make_tag_rows(account_id: u128, tags: &Vec<String>) -> (rows: Vec<account_tag::Model>)
    ensures
        account_tag_rows(rows@, account_id, tags.deep_view()),
{
    let mut rows: Vec<account_tag::Model> = Vec::new();
    let mut i: usize = 0;
    while i < tags.len()
        invariant
            i <= tags@.len(),
            rows@.len() == i,
            forall|k: int| 0 <= k < i ==> #[trigger] rows@[k].account_id == account_id && rows@[k].tag@ == tags@[k]@,
        decreases tags@.len() - i,
    {
        let tag = tags[i].clone();
        rows.push(account_tag::Model { account_id, tag });
        i = i + 1;
    }
    let ghost all = tags.deep_view();
    assert(all.len() == tags@.len());
    assert forall|k: int| 0 <= k < rows@.len() implies #[trigger] rows@[k].account_id == account_id && rows@[k].tag@ == all[k] by {
        assert(rows@[k].account_id == account_id);
        assert(all[k] == tags@[k]@);
    }
    assert(account_tag_rows(rows@, account_id, all));
    rows
}

impl AccountService {
    /// Whether the operator may read the account, given its journal (if
    /// found) and the access lists of that journal.
    pub fn is_readable(operator: &AuthUser, journal: &Option<journal::Model>, access: &JournalAccess) -> (b: bool)
        ensures
            b == readable_in_journal(*operator, *journal, *access),
    {
        JournalService::is_entity_readable(operator, journal, access)
    }

    /// Keeps the accounts that the external query keeps, in order, given the
    /// tags of each.
    pub fn filter_by_external_query(
        items: Vec<account::Model>,
        tags: &Vec<Vec<String>>,
        external_query: &ExternalQuery,
    ) -> (kept: Vec<account::Model>)
        requires
            tags@.len() == items@.len(),
        ensures
            kept@ == marked(items@, account_marks(items@, tags@, external_query@)),
    {
        let mut marks: Vec<bool> = Vec::new();
        for i in 0..items.len()
            invariant
                tags@.len() == items@.len(),
                marks@ =~= account_marks(items@, tags@, external_query@).take(i as int),
        {
            let keep = match external_query {
                ExternalQuery::FullText(q) => matches_text(Some(&items[i].name), &items[i].description, &tags[i], q),
                ExternalQuery::ContainingUser(_) => false,
            };
            marks.push(keep);
        }
        assert(marks@ =~= account_marks(items@, tags@, external_query@));
        super::read_service::keep_marked(items, &marks)
    }

    /// The column of a field that accounts can be sorted by.
    pub fn sortable_field(field: &str) -> (c: Option<Column>)
        ensures
            c == account_sort_column(field@),
    {
        let f = field.to_owned();
        if text_is(&f, "name") {
            Some(Column::AccountName)
        } else if text_is(&f, "journal") {
            Some(Column::AccountJournalId)
        } else if text_is(&f, "typ") {
            Some(Column::AccountTyp)
        } else if text_is(&f, "strategy") {
            Some(Column::AccountStrategy)
        } else if text_is(&f, "unit") {
            Some(Column::AccountUnit)
        } else if text_is(&f, "is_archived") {
            Some(Column::AccountIsArchived)
        } else {
            None
        }
    }

    /// The id column of accounts.
    pub fn primary_field() -> (c: Column)
        ensures
            c == Column::AccountId,
    {
        Column::AccountId
    }

    /// The id of an account.
    pub fn primary_value(model: &account::Model) -> (id: u128)
        ensures
            id == model.id,
    {
        model.id
    }

    /// The value of an account for a sortable field.
    pub fn sortable_value(field: &str, model: &account::Model) -> (v: Option<Value>)
        ensures
            opt_value_view(v) == match account_sort_column(field@) {
                Some(c) => Some(account_value(*model, c)),
                None => None::<ValueV>,
            },
    {
        match AccountService::sortable_field(field) {
            Some(Column::AccountName) => Some(Value::Text(model.name.clone())),
            Some(Column::AccountJournalId) => Some(Value::Id(model.journal_id)),
            Some(Column::AccountTyp) => Some(Value::AccountType(model.typ)),
            Some(Column::AccountStrategy) => Some(Value::Strategy(model.strategy)),
            Some(Column::AccountUnit) => Some(Value::Text(model.unit.clone())),
            Some(_) => Some(Value::Bool(model.is_archived)),
            None => None,
        }
    }

    /// Whether the user may change the account, given its journal (if found)
    /// and the access lists of that journal.
    pub fn check_writeable(
        user: &user::Model,
        model: &account::Model,
        journal: &Option<journal::Model>,
        access: &JournalAccess,
    ) -> (r: Result<(), Error>)
        ensures
            outcome_view(r) == writeable_in_journal(*user, model.journal_id, *journal, *access),
    {
        JournalService::check_entity_writeable(user, model.journal_id, journal, access)
    }

    /// The checks of an account write.
    pub fn validate(model: &account::ActiveModel, tags: Option<&Vec<String>>) -> (r: Result<(), Error>)
        ensures
            outcome_view(r) == outcome_of(account_errors(*model, match tags {
                Some(t) => Some(t.deep_view()),
                None => None,
            })),
    {
        let mut errors: Vec<Error> = Vec::new();
        assert(errors_view(errors@) =~= Seq::empty());
        check_name(account::TYPE, &model.name, &mut errors);
        check_description(account::TYPE, &model.description, &mut errors);
        check_unit(account::TYPE, &model.unit, &mut errors);
        if let Some(t) = tags {
            append_errors(&mut errors, Error::validate_tags(account::TYPE, t));
        }
        assert(errors_view(errors@) =~= account_errors(*model, match tags {
            Some(t) => Some(t.deep_view()),
            None => None,
        }));
        into_outcome(errors)
    }
}

/// A command on accounts.
#[derive(Debug)]
pub enum AccountCommand {
    Create(AccountCommandCreate),
    Update(AccountCommandUpdate),
    Delete(u128),
}

/// A new account of a journal. The tags are a set: a repetition counts once.
#[derive(Debug)]
pub struct AccountCommandCreate {
    pub target_id: Option<u128>,
    pub journal_id: u128,
    pub name: String,
    pub description: String,
    pub typ: Type,
    pub strategy: Strategy,
    pub unit: String,
    pub tags: Vec<String>,
}

/// A change of an account (`None`: left as it is).
#[derive(Debug)]
pub struct AccountCommandUpdate {
    pub target_id: u128,
    pub name: Option<String>,
    pub description: Option<String>,
    pub typ: Option<Type>,
    pub strategy: Option<Strategy>,
    pub unit: Option<String>,
    pub tags: Option<Vec<String>>,
    pub is_archived: Option<bool>,
}

impl AccountCommandUpdate {
    /// The update changes none of the fields that count: the tags and the
    /// archived flag alone do not.
    pub fn is_empty(&self) -> (b: bool)
        ensures
            b == (self.name is None && self.description is None && self.typ is None && self.strategy is None
                && self.unit is None),
    {
        self.name.is_none() && self.description.is_none() && self.typ.is_none() && self.strategy.is_none()
            && self.unit.is_none()
    }
}

impl AbstractCommand for AccountCommand {
    open spec fn spec_target_id(&self) -> Option<u128> {
        match self {
            AccountCommand::Create(c) => c.target_id,
            AccountCommand::Update(c) => Some(c.target_id),
            AccountCommand::Delete(id) => Some(*id),
        }
    }

    open spec fn spec_with_target_id(self, id: u128) -> Self {
        match self {
            AccountCommand::Create(c) => AccountCommand::Create(AccountCommandCreate { target_id: Some(id), ..c }),
            AccountCommand::Update(c) => AccountCommand::Update(AccountCommandUpdate { target_id: id, ..c }),
            AccountCommand::Delete(_) => AccountCommand::Delete(id),
        }
    }

    proof fn lemma_with_target_id(self, id: u128) {
    }

    fn target_id(&self) -> (id: Option<u128>) {
        match self {
            AccountCommand::Create(c) => c.target_id,
            AccountCommand::Update(c) => Some(c.target_id),
            AccountCommand::Delete(id) => Some(*id),
        }
    }

    fn with_target_id(self, id: u128) -> (c: Self) {
        match self {
            AccountCommand::Create(c) => AccountCommand::Create(AccountCommandCreate { target_id: Some(id), ..c }),
            AccountCommand::Update(c) => AccountCommand::Update(AccountCommandUpdate { target_id: id, ..c }),
            AccountCommand::Delete(_) => AccountCommand::Delete(id),
        }
    }
}

/// What creating an account writes: the account and its tags.
#[derive(Debug)]
pub struct AccountCreation {
    pub model: account::Model,
    pub tags: Vec<account_tag::Model>,
}

/// The fields that creating an account sets.
pub open spec fn created_account(id: u128, command: AccountCommandCreate) -> account::ActiveModel {
    account::ActiveModel {
        id: Some(id),
        journal_id: Some(command.journal_id),
        name: Some(command.name),
        description: Some(command.description),
        typ: Some(command.typ),
        strategy: Some(command.strategy),
        unit: Some(command.unit),
        is_archived: Some(false),
    }
}

/// What updating an account does: nothing, or write the changed fields and
/// replace the tags when the command sets them.
#[derive(Debug)]
pub enum AccountUpdate {
    Unchanged(account::Model),
    Write { model: account::ActiveModel, tags: Option<Vec<account_tag::Model>> },
}

/// The fields that an update of an account sets.
pub open spec fn updated_account(command: AccountCommandUpdate) -> account::ActiveModel {
    account::ActiveModel {
        id: Some(command.target_id),
        journal_id: None,
        name: command.name,
        description: command.description,
        typ: command.typ,
        strategy: command.strategy,
        unit: command.unit,
        is_archived: command.is_archived,
    }
}

/// The outcome of an update of an account.
pub open spec fn account_update_spec(
    operator: user::Model,
    command: AccountCommandUpdate,
    existing: Option<account::Model>,
    journal: Option<journal::Model>,
    access: JournalAccess,
    name_is_taken: bool,
) -> Result<(), ErrorV> {
    match existing {
        None => Err(id_not_found(account::TYPE@, command.target_id)),
        Some(a) => match writeable_in_journal(operator, a.journal_id, journal, access) {
            Err(e) => Err(e),
            Ok(()) => if command.name is None && command.description is None && command.typ is None
                && command.strategy is None && command.unit is None {
                Ok(())
            } else if command.name is Some && name_is_taken {
                Err(name_taken(account::TYPE@, command.name.unwrap()@))
            } else {
                outcome_of(account_errors(updated_account(command), match command.tags {
                    Some(t) => Some(distinct(t.deep_view())),
                    None => None,
                }))
            },
        },
    }
}

impl AccountService {
    /// Creates an account: its name must be free, its journal must exist and
    /// be readable by the operator (given its access lists), and its fields
    /// and tags must pass the checks.
    pub fn create(
        operator: &user::Model,
        command: AccountCommandCreate,
        name_is_taken: bool,
        journal: Option<journal::Model>,
        access: &JournalAccess,
    ) -> (r: Result<AccountCreation, Error>)
        ensures
            name_is_taken ==> (r matches Err(e) && e@ == name_taken(account::TYPE@, command.name@)),
            !name_is_taken && !(journal is Some && (operator.role.level() > user::Role::User.level()
                || super::journal::journal_contains(journal.unwrap().id, *access, operator.id, None)))
                ==> (r matches Err(e) && e@ == id_not_found(journal::TYPE@, command.journal_id)),
            !name_is_taken && journal is Some && (operator.role.level() > user::Role::User.level()
                || super::journal::journal_contains(journal.unwrap().id, *access, operator.id, None)) ==> match r {
                Ok(c) => outcome_of(account_errors(created_account(c.model.id, command), Some(distinct(command.tags.deep_view()))))
                    == Ok::<(), ErrorV>(())
                    && c.model.journal_id == journal.unwrap().id && c.model.name == command.name
                    && c.model.description == command.description && c.model.typ == command.typ
                    && c.model.strategy == command.strategy && c.model.unit == command.unit && !c.model.is_archived
                    && account_tag_rows(c.tags@, c.model.id, distinct(command.tags.deep_view())),
                Err(e) => exists|id: u128| Err::<(), ErrorV>(e@) == outcome_of(account_errors(created_account(id, command), Some(distinct(command.tags.deep_view())))),
            },
    {
        if name_is_taken {
            return Err(already_exists(account::TYPE, command.name));
        }
        let readable = match &journal {
            Some(j) => operator.role.rank() > user::Role::User.rank() || JournalService::contain_user(j, access, operator.id, None),
            None => false,
        };
        if !readable {
            return Err(not_found(journal::TYPE, command.journal_id));
        }
        let journal_id = match &journal {
            Some(j) => j.id,
            None => command.journal_id,
        };
        let ghost c0 = command;
        let typ = command.typ;
        let strategy = command.strategy;
        let id = new_id();
        let tags = dedup_texts(&command.tags);
        let model = account::ActiveModel {
            id: Some(id),
            journal_id: Some(command.journal_id),
            name: Some(command.name),
            description: Some(command.description),
            typ: Some(command.typ),
            strategy: Some(command.strategy),
            unit: Some(command.unit),
            is_archived: Some(false),
        };
        assert(model == created_account(id, c0));
        match AccountService::validate(&model, Some(&tags)) {
            Err(e) => Err(e),
            Ok(()) => {
                let tag_rows = make_tag_rows(id, &tags);
                let name = match model.name { Some(n) => n, None => String::new() };
                let description = match model.description { Some(d) => d, None => String::new() };
                let unit = match model.unit { Some(u) => u, None => String::new() };
                Ok(AccountCreation {
                    model: account::Model {
                        id,
                        journal_id,
                        name,
                        description,
                        typ,
                        strategy,
                        unit,
                        is_archived: false,
                    },
                    tags: tag_rows,
                })
            },
        }
    }

    /// Updates an account, given the account (if found), its journal (if
    /// found), the access lists of that journal, and whether the new name is
    /// taken.
    pub fn update(
        operator: &user::Model,
        command: AccountCommandUpdate,
        existing: Option<account::Model>,
        journal: &Option<journal::Model>,
        access: &JournalAccess,
        name_is_taken: bool,
    ) -> (r: Result<AccountUpdate, Error>)
        ensures
            ({
                let expected = account_update_spec(*operator, command, existing, *journal, *access, name_is_taken);
                match r {
                    Err(e) => expected == Err::<(), ErrorV>(e@),
                    Ok(AccountUpdate::Unchanged(m)) => expected == Ok::<(), ErrorV>(()) && Some(m) == existing
                        && command.name is None && command.description is None && command.typ is None
                        && command.strategy is None && command.unit is None,
                    Ok(AccountUpdate::Write { model, tags }) => expected == Ok::<(), ErrorV>(())
                        && model == updated_account(command)
                        && model.id == Some(command.target_id) && model.journal_id is None
                        && model.name == command.name && model.description == command.description
                        && model.typ == command.typ && model.strategy == command.strategy
                        && model.unit == command.unit && model.is_archived == command.is_archived
                        && match command.tags {
                            Some(t) => tags is Some && account_tag_rows(tags.unwrap()@, command.target_id, distinct(t.deep_view())),
                            None => tags is None,
                        },
                }
            }),
    {
        let a = match existing {
            None => {
                return Err(not_found(account::TYPE, command.target_id));
            },
            Some(a) => a,
        };
        if let Err(e) = AccountService::check_writeable(operator, &a, journal, access) {
            return Err(e);
        }
        if command.is_empty() {
            return Ok(AccountUpdate::Unchanged(a));
        }
        if name_is_taken && command.name.is_some() {
            let name = match command.name { Some(n) => n, None => String::new() };
            return Err(already_exists(account::TYPE, name));
        }
        let target = command.target_id;
        let tags = match &command.tags {
            Some(t) => Some(dedup_texts(t)),
            None => None,
        };
        let model = account::ActiveModel {
            id: Some(target),
            journal_id: None,
            name: command.name,
            description: command.description,
            typ: command.typ,
            strategy: command.strategy,
            unit: command.unit,
            is_archived: command.is_archived,
        };
        let checked = match &tags {
            Some(t) => AccountService::validate(&model, Some(t)),
            None => AccountService::validate(&model, None),
        };
        match checked {
            Err(e) => Err(e),
            Ok(()) => {
                let tag_rows = match &tags {
                    Some(t) => Some(make_tag_rows(target, t)),
                    None => None,
                };
                Ok(AccountUpdate::Write { model, tags: tag_rows })
            },
        }
    }

    /// Whether the operator may delete the account with the given id.
    pub fn delete(
        operator: &user::Model,
        id: u128,
        existing: Option<account::Model>,
        journal: &Option<journal::Model>,
        access: &JournalAccess,
    ) -> (r: Result<(), Error>)
        ensures
            outcome_view(r) == match existing {
                None => Err(id_not_found(account::TYPE@, id)),
                Some(a) => writeable_in_journal(*operator, a.journal_id, *journal, *access),
            },
    {
        match existing {
            None => Err(not_found(account::TYPE, id)),
            Some(a) => AccountService::check_writeable(operator, &a, journal, access),
        }
    }
}

/// The checks of a query on an account: a full-text search keeps it when its
/// name, description or one of its tags holds the text, and drops it when
/// none does; a containing-user query keeps no account.
pub proof fn lemma_account_keeps(model: account::Model, tags: Seq<Seq<char>>, value: Seq<char>, user: u128, object: bool, fields: Option<Seq<Seq<char>>>)
    ensures
        contains_text(model.name@, value) || contains_text(model.description@, value) || any_tag_contains(tags, value)
            <==> account_keeps(model, tags, ExternalQueryV::FullText { value, fields: None }),
        !account_keeps(model, tags, ExternalQueryV::ContainingUser { id: user, object, fields }),
{
    super::full_text::lemma_search_any_field(Some(model.name@), model.description@, tags, value, Seq::empty(), Seq::empty());
}

} // verus!
