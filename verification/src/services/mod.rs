pub mod account;
pub mod auth;
pub mod condition;
pub mod full_text;
pub mod group;
pub mod journal;
pub mod limits;
pub mod read_service;
pub mod record;
pub mod user;
pub mod validation;
pub mod write_service;

pub use account::AccountService;
pub use auth::{AuthUser, Permission};
pub use group::GroupService;
pub use journal::JournalService;
pub use limits::{
    FIELD_ADMINS, FIELD_AUTH_IDS, FIELD_DESCRIPTION, FIELD_ID, FIELD_MEMBERS, FIELD_NAME, FIELD_RECORD_ITEMS, FIELD_TAG,
    FIELD_TAG_ITEM, FIELD_UNIT, MAX_ACCESS_ITEM, MAX_AUTH_IDS, MAX_DESCRIPTION, MAX_NAME, MAX_RECORD_ITEMS, MAX_TAG,
    MAX_TAG_ITEM, MAX_UNIT, MIN_ADMIN, MIN_AUTH_IDS, MIN_NAME, MIN_RECORD_ITEMS,
};
pub use read_service::{
    ComparableQuery, FullTextQuery, Order, Page, PageInfo, PageItem, Pagination, RangeQuery, Sort, TextQuery,
};
pub use record::RecordService;
pub use user::UserService;
