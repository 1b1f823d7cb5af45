use vstd::prelude::*;

verus! {

/// An identity of a user at an authentication provider.
#[derive(Debug)]
pub struct Model {
    pub user_id: u128,
    pub provider: String,
    pub value: String,
}

} // verus!
