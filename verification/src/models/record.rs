use std::collections::HashMap;

use vstd::prelude::*;

use super::record_item;
use crate::decimal::Dec;

verus! {

pub const TYPE: &'static str = "record";
pub const MULTIPLE: &'static str = "records";

/// A record moves amounts between accounts; a check states the balances
/// that accounts should have on a date.
#[derive(Clone, Copy, Debug, PartialEq, Eq, Structural)]
pub enum Type {
    Record,
    Check,
}

/// A record of a journal. Its date is held as the number of days since the
/// first day of the common era (as `chrono::NaiveDate::num_days_from_ce`).
#[derive(Debug)]
pub struct Model {
    pub id: u128,
    pub journal_id: u128,
    pub description: String,
    pub typ: Type,
    pub date: i32,
}

impl Clone for Model {
    fn clone(&self) -> (r: Self)
        ensures
            r == *self,
    {
        Model {
            id: self.id,
            journal_id: self.journal_id,
            description: self.description.clone(),
            typ: self.typ,
            date: self.date,
        }
    }
}

/// The fields of a record that a write sets (`None`: left as it is).
#[derive(Debug)]
pub struct ActiveModel {
    pub id: Option<u128>,
    pub journal_id: Option<u128>,
    pub description: Option<String>,
    pub typ: Option<Type>,
    pub date: Option<i32>,
}

/// Whether a record is balanced, or how a check compares with the balances.
#[derive(Debug)]
pub enum RecordState {
    Record(bool),
    Check(HashMap<u128, CheckRecordState>),
}

/// How the balance of one account compares with what a check expects.
#[derive(Clone, Copy, Debug, PartialEq, Eq, Structural)]
pub enum CheckRecordState {
    Valid,
    Invalid { expected: Dec, actual: Dec },
}

/// A record as the service shows it.
#[derive(Debug)]
pub struct Presentation {
    pub id: u128,
    pub journal_id: u128,
    pub description: String,
    pub typ: Type,
    pub date: i32,
    pub tags: Vec<String>,
    pub items: Vec<record_item::Presentation>,
}

impl Model {
    /// The presentation of the record, given its tags and its lines.
    pub fn into_presentation(self, tags: Vec<String>, items: Vec<record_item::Model>) -> (p: Presentation)
        ensures
            p.id == self.id,
            p.journal_id == self.journal_id,
            p.description == self.description,
            p.typ == self.typ,
            p.date == self.date,
            p.tags == tags,
            p.items@.len() == items@.len(),
            forall|i: int|
                0 <= i < items@.len() ==> #[trigger] p.items@[i] == (record_item::Presentation {
                    account_id: items@[i].account_id,
                    amount: items@[i].amount,
                    price: items@[i].price,
                }),
    {
        let mut lines: Vec<record_item::Presentation> = Vec::new();
        for i in 0..items.len()
            invariant
                lines@.len() == i,
                forall|k: int|
                    0 <= k < i ==> #[trigger] lines@[k] == (record_item::Presentation {
                        account_id: items@[k].account_id,
                        amount: items@[k].amount,
                        price: items@[k].price,
                    }),
        {
            lines.push(items[i].into());
        }
        let Model { id, journal_id, description, typ, date } = self;
        Presentation { id, journal_id, description, typ, date, tags, items: lines }
    }
}

impl From<Presentation> for Model {
    fn from(p: Presentation) -> (m: Self) {
        Model {
            id: p.id,
            journal_id: p.journal_id,
            description: p.description,
            typ: p.typ,
            date: p.date,
        }
    }
}

impl vstd::std_specs::convert::FromSpecImpl<Presentation> for Model {
    open spec fn obeys_from_spec() -> bool {
        true
    }

    open spec fn from_spec(p: Presentation) -> Model {
        Model {
            id: p.id,
            journal_id: p.journal_id,
            description: p.description,
            typ: p.typ,
            date: p.date,
        }
    }
}

} // verus!
