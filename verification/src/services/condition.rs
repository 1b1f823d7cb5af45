//! Conditions on the stored entities, as the service layer builds them from
//! queries. A condition is a conjunction of clauses; a clause is one
//! comparison, a conjunction of comparisons, or a disjunction of
//! conjunctions of comparisons.
use vstd::prelude::*;

use crate::models::{account, record, user};

verus! {

/// The stored columns that conditions compare.
#[derive(Clone, Copy, Debug, PartialEq, Eq, Structural)]
pub enum Column {
    JournalId,
    JournalName,
    JournalUnit,
    JournalIsArchived,
    JournalTagTag,
    JournalUserUserId,
    JournalGroupGroupId,
    JournalGroupIsAdmin,
    AccountId,
    AccountJournalId,
    AccountName,
    AccountTyp,
    AccountStrategy,
    AccountUnit,
    AccountIsArchived,
    AccountTagTag,
    GroupId,
    GroupName,
    GroupUserUserId,
    GroupUserIsAdmin,
    RecordId,
    RecordJournalId,
    RecordTyp,
    RecordDate,
    RecordTagTag,
    RecordItemAccountId,
    UserId,
    UserName,
    UserRole,
    AuthIdProvider,
}

/// A value that a column is compared with.
#[derive(Debug)]
pub enum Value {
    Id(u128),
    Text(String),
    Bool(bool),
    AccountType(account::Type),
    Strategy(account::Strategy),
    RecordType(record::Type),
    Role(user::Role),
    Date(i32),
}

/// The mathematical value of a [`Value`].
pub enum ValueV {
    Id(u128),
    Text(Seq<char>),
    Bool(bool),
    AccountType(account::Type),
    Strategy(account::Strategy),
    RecordType(record::Type),
    Role(user::Role),
    Date(i32),
}

impl View for Value {
    type V = ValueV;

    open spec fn view(&self) -> ValueV {
        match self {
            Value::Id(v) => ValueV::Id(*v),
            Value::Text(v) => ValueV::Text(v@),
            Value::Bool(v) => ValueV::Bool(*v),
            Value::AccountType(v) => ValueV::AccountType(*v),
            Value::Strategy(v) => ValueV::Strategy(*v),
            Value::RecordType(v) => ValueV::RecordType(*v),
            Value::Role(v) => ValueV::Role(*v),
            Value::Date(v) => ValueV::Date(*v),
        }
    }
}

impl Clone for Value {
    fn clone(&self) -> (r: Self)
        ensures
            r@ == self@,
    {
        match self {
            Value::Id(v) => Value::Id(*v),
            Value::Text(v) => Value::Text(v.clone()),
            Value::Bool(v) => Value::Bool(*v),
            Value::AccountType(v) => Value::AccountType(*v),
            Value::Strategy(v) => Value::Strategy(*v),
            Value::RecordType(v) => Value::RecordType(*v),
            Value::Role(v) => Value::Role(*v),
            Value::Date(v) => Value::Date(*v),
        }
    }
}

/// One comparison of a column with a value (or a list of values).
#[derive(Debug)]
pub enum Atom {
    Eq(Column, Value),
    Gt(Column, Value),
    Lt(Column, Value),
    Gte(Column, Value),
    Lte(Column, Value),
    IsIn(Column, Vec<Value>),
}

/// The mathematical value of an [`Atom`].
pub enum AtomV {
    Eq(Column, ValueV),
    Gt(Column, ValueV),
    Lt(Column, ValueV),
    Gte(Column, ValueV),
    Lte(Column, ValueV),
    IsIn(Column, Seq<ValueV>),
}

/// The views of a sequence of values.
pub open spec fn values_view(vs: Seq<Value>) -> Seq<ValueV> {
    Seq::new(vs.len(), |i: int| vs[i]@)
}

impl View for Atom {
    type V = AtomV;

    open spec fn view(&self) -> AtomV {
        match self {
            Atom::Eq(c, v) => AtomV::Eq(*c, v@),
            Atom::Gt(c, v) => AtomV::Gt(*c, v@),
            Atom::Lt(c, v) => AtomV::Lt(*c, v@),
            Atom::Gte(c, v) => AtomV::Gte(*c, v@),
            Atom::Lte(c, v) => AtomV::Lte(*c, v@),
            Atom::IsIn(c, vs) => AtomV::IsIn(*c, values_view(vs@)),
        }
    }
}

/// A clause of a condition.
#[derive(Debug)]
pub enum Clause {
    /// One comparison.
    Atom(Atom),
    /// All of the comparisons hold.
    All(Vec<Atom>),
    /// One of the groups holds; a group holds when all its comparisons do.
    Any(Vec<Vec<Atom>>),
}

/// The mathematical value of a [`Clause`].
pub enum ClauseV {
    Atom(AtomV),
    All(Seq<AtomV>),
    Any(Seq<Seq<AtomV>>),
}

/// The views of a sequence of comparisons.
pub open spec fn atoms_view(atoms: Seq<Atom>) -> Seq<AtomV> {
    Seq::new(atoms.len(), |i: int| atoms[i]@)
}

impl View for Clause {
    type V = ClauseV;

    open spec fn view(&self) -> ClauseV {
        match self {
            Clause::Atom(a) => ClauseV::Atom(a@),
            Clause::All(atoms) => ClauseV::All(atoms_view(atoms@)),
            Clause::Any(groups) => ClauseV::Any(
                Seq::new(groups@.len(), |i: int| atoms_view(groups@[i]@)),
            ),
        }
    }
}

/// A condition: all of its clauses hold.
#[derive(Debug)]
pub struct Condition {
    pub clauses: Vec<Clause>,
}

/// The views of a sequence of clauses.
pub open spec fn clauses_view(clauses: Seq<Clause>) -> Seq<ClauseV> {
    Seq::new(clauses.len(), |i: int| clauses[i]@)
}

impl View for Condition {
    type V = Seq<ClauseV>;

    open spec fn view(&self) -> Seq<ClauseV> {
        clauses_view(self.clauses@)
    }
}

impl Condition {
    /// The condition that always holds (`Condition::all()` with nothing in it).
    pub fn all() -> (c: Condition)
        ensures
            c@ == Seq::<ClauseV>::empty(),
    {
        Condition { clauses: Vec::new() }
    }

    /// Adds a clause to the condition.
    pub fn add(&mut self, clause: Clause)
        ensures
            final(self)@ == old(self)@.push(clause@),
    {
        self.clauses.push(clause);
        proof {
            assert(clauses_view(self.clauses@) =~= old(self)@.push(clause@));
        }
    }

    /// Adds one comparison to the condition.
    pub fn add_atom(&mut self, atom: Atom)
        ensures
            final(self)@ == old(self)@.push(ClauseV::Atom(atom@)),
    {
        self.add(Clause::Atom(atom));
    }
}

/// The values of a list of identifiers.
pub fn id_values(ids: &Vec<u128>) -> (vs: Vec<Value>)
    ensures
        values_view(vs@) == Seq::new(ids@.len(), |i: int| ValueV::Id(ids@[i])),
{
    let mut vs: Vec<Value> = Vec::new();
    for i in 0..ids.len()
        invariant
            vs@.len() == i,
            forall|k: int| 0 <= k < i ==> #[trigger] vs@[k]@ == ValueV::Id(ids@[k]),
    {
        vs.push(Value::Id(ids[i]));
    }
    assert(values_view(vs@) =~= Seq::new(ids@.len(), |k: int| ValueV::Id(ids@[k])));
    vs
}

/// The values of a list of texts.
pub fn text_values(texts: &Vec<String>) -> (vs: Vec<Value>)
    ensures
        values_view(vs@) == Seq::new(texts@.len(), |i: int| ValueV::Text(texts@[i]@)),
{
    let mut vs: Vec<Value> = Vec::new();
    for i in 0..texts.len()
        invariant
            vs@.len() == i,
            forall|k: int| 0 <= k < i ==> #[trigger] vs@[k]@ == ValueV::Text(texts@[k]@),
    {
        vs.push(Value::Text(texts[i].clone()));
    }
    assert(values_view(vs@) =~= Seq::new(texts@.len(), |k: int| ValueV::Text(texts@[k]@)));
    vs
}

} // verus!
