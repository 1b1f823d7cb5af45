use vstd::prelude::*;

verus! {

pub const TYPE: &'static str = "account";
pub const MULTIPLE: &'static str = "accounts";

/// The kind of an account.
#[derive(Clone, Copy, Debug, PartialEq, Eq, Structural)]
pub enum Type {
    Income,
    Expense,
    Asset,
    Liability,
    Equity,
}

/// How an account values what it holds.
#[derive(Clone, Copy, Debug, PartialEq, Eq, Structural)]
pub enum Strategy {
    Fifo,
    Average,
}

/// An account of a journal.
#[derive(Debug)]
pub struct Model {
    pub id: u128,
    pub journal_id: u128,
    pub name: String,
    pub description: String,
    pub typ: Type,
    pub strategy: Strategy,
    pub unit: String,
    pub is_archived: bool,
}

impl Clone for Model {
    fn clone(&self) -> (r: Self)
        ensures
            r == *self,
    {
        Model {
            id: self.id,
            journal_id: self.journal_id,
            name: self.name.clone(),
            description: self.description.clone(),
            typ: self.typ,
            strategy: self.strategy,
            unit: self.unit.clone(),
            is_archived: self.is_archived,
        }
    }
}

/// The fields of an account that a write sets (`None`: left as it is).
#[derive(Debug)]
pub struct ActiveModel {
    pub id: Option<u128>,
    pub journal_id: Option<u128>,
    pub name: Option<String>,
    pub description: Option<String>,
    pub typ: Option<Type>,
    pub strategy: Option<Strategy>,
    pub unit: Option<String>,
    pub is_archived: Option<bool>,
}

/// An account as the service shows it.
#[derive(Debug)]
pub struct Presentation {
    pub id: u128,
    pub journal_id: u128,
    pub name: String,
    pub description: String,
    pub typ: Type,
    pub strategy: Strategy,
    pub unit: String,
    pub is_archived: bool,
    pub tags: Vec<String>,
}

impl Model {
    /// The presentation of the account, given its tags.
    pub fn into_presentation(self, tags: Vec<String>) -> (p: Presentation)
        ensures
            p.id == self.id,
            p.journal_id == self.journal_id,
            p.name == self.name,
            p.description == self.description,
            p.typ == self.typ,
            p.strategy == self.strategy,
            p.unit == self.unit,
            p.is_archived == self.is_archived,
            p.tags == tags,
    {
        let Model { id, journal_id, name, description, typ, strategy, unit, is_archived } = self;
        Presentation { id, journal_id, name, description, typ, strategy, unit, is_archived, tags }
    }
}

impl From<Presentation> for Model {
    fn from(p: Presentation) -> (m: Self) {
        Model {
            id: p.id,
            journal_id: p.journal_id,
            name: p.name,
            description: p.description,
            typ: p.typ,
            strategy: p.strategy,
            unit: p.unit,
            is_archived: p.is_archived,
        }
    }
}

impl vstd::std_specs::convert::FromSpecImpl<Presentation> for Model {
    open spec fn obeys_from_spec() -> bool {
        true
    }

    open spec fn from_spec(p: Presentation) -> Model {
        Model {
            id: p.id,
            journal_id: p.journal_id,
            name: p.name,
            description: p.description,
            typ: p.typ,
            strategy: p.strategy,
            unit: p.unit,
            is_archived: p.is_archived,
        }
    }
}

} // verus!
