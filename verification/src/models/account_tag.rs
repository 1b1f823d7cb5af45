use vstd::prelude::*;

verus! {

/// A tag of an account.
#[derive(Debug)]
pub struct Model {
    pub account_id: u128,
    pub tag: String,
}

} // verus!
