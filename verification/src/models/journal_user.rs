use vstd::prelude::*;

use super::journal::AccessItem;
use super::AccessItemType;

verus! {

/// The link of a user to a journal, as an admin or as a member.
#[derive(Clone, Copy, Debug, PartialEq, Eq, Structural)]
pub struct Model {
    pub journal_id: u128,
    pub user_id: u128,
    pub is_admin: bool,
}

impl From<Model> for AccessItem {
    fn from(val: Model) -> (item: Self) {
        AccessItem { id: val.user_id, typ: AccessItemType::User }
    }
}

impl vstd::std_specs::convert::FromSpecImpl<Model> for AccessItem {
    open spec fn obeys_from_spec() -> bool {
        true
    }

    open spec fn from_spec(val: Model) -> AccessItem {
        AccessItem { id: val.user_id, typ: AccessItemType::User }
    }
}

} // verus!
