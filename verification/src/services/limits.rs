use vstd::prelude::*;

verus! {

pub const FIELD_ADMINS: &'static str = "admins";
pub const FIELD_MEMBERS: &'static str = "members";
pub const FIELD_NAME: &'static str = "name";
pub const FIELD_ID: &'static str = "id";
pub const FIELD_DESCRIPTION: &'static str = "description";
pub const FIELD_TAG: &'static str = "tag";
pub const FIELD_TAG_ITEM: &'static str = "tag.item";
pub const FIELD_UNIT: &'static str = "unit";
pub const FIELD_RECORD_ITEMS: &'static str = "items";
pub const FIELD_AUTH_IDS: &'static str = "authIds";

pub const MIN_NAME: usize = 4;
pub const MAX_NAME: usize = 128;
pub const MAX_DESCRIPTION: usize = 1024;
pub const MIN_ADMIN: usize = 1;
pub const MAX_ACCESS_ITEM: usize = 8;
pub const MAX_TAG: usize = 16;
pub const MAX_TAG_ITEM: usize = 16;
pub const MAX_UNIT: usize = 16;
pub const MIN_RECORD_ITEMS: usize = 2;
pub const MAX_RECORD_ITEMS: usize = 16;
pub const MIN_AUTH_IDS: usize = 1;
pub const MAX_AUTH_IDS: usize = 8;

} // verus!
