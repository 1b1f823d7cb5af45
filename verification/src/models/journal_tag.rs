use vstd::prelude::*;

verus! {

/// A tag of a journal.
#[derive(Debug)]
pub struct Model {
    pub journal_id: u128,
    pub tag: String,
}

} // verus!
