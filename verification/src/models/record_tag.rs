use vstd::prelude::*;

verus! {

/// A tag of a record.
#[derive(Debug)]
pub struct Model {
    pub record_id: u128,
    pub tag: String,
}

} // verus!
