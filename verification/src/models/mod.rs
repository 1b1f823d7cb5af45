pub mod access;
pub mod account;
pub mod account_tag;
pub mod auth_id;
pub mod group;
pub mod group_user;
pub mod journal;
pub mod journal_group;
pub mod journal_tag;
pub mod journal_user;
pub mod record;
pub mod record_item;
pub mod record_tag;
pub mod user;

pub use access::AccessItemType;
