use vstd::prelude::*;

verus! {

/// The kind of an access item of a journal: a single user or a whole group.
#[derive(Clone, Copy, Debug, PartialEq, Eq, Structural)]
pub enum AccessItemType {
    User,
    Group,
}

} // verus!
