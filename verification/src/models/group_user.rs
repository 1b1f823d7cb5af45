use vstd::prelude::*;

verus! {

/// The membership of a user in a group, as an admin or as a member.
#[derive(Clone, Copy, Debug, PartialEq, Eq, Structural)]
pub struct Model {
    pub group_id: u128,
    pub user_id: u128,
    pub is_admin: bool,
}

} // verus!
