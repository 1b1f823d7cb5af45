use vstd::prelude::*;

use crate::decimal::Dec;

verus! {

/// One line of a record: an amount moved on an account, with the price of
/// one unit of the account in the unit of the journal where the units differ.
#[derive(Clone, Copy, Debug, PartialEq, Eq, Structural)]
pub struct Model {
    pub record_id: u128,
    pub account_id: u128,
    pub amount: Option<Dec>,
    pub price: Option<Dec>,
}

/// A line of a record as the service shows it and as commands give it.
#[derive(Clone, Copy, Debug, PartialEq, Eq, Structural)]
pub struct Presentation {
    pub account_id: u128,
    pub amount: Option<Dec>,
    pub price: Option<Dec>,
}

impl Model {
    /// The amounts and prices are well-formed decimals.
    pub open spec fn wf(self) -> bool {
        &&& (self.amount matches Some(a) ==> a.wf())
        &&& (self.price matches Some(p) ==> p.wf())
    }
}

impl From<Model> for Presentation {
    fn from(m: Model) -> (p: Self) {
        Presentation { account_id: m.account_id, amount: m.amount, price: m.price }
    }
}

impl vstd::std_specs::convert::FromSpecImpl<Model> for Presentation {
    open spec fn obeys_from_spec() -> bool {
        true
    }

    open spec fn from_spec(m: Model) -> Presentation {
        Presentation { account_id: m.account_id, amount: m.amount, price: m.price }
    }
}

} // verus!
