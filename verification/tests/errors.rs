use white_rabbit::errors::Error;
use white_rabbit::services::auth::{require_user, AuthUser};
use white_rabbit::models::user;
use white_rabbit::services::read_service::FullTextQuery;
use white_rabbit::services::user::UserService;
use white_rabbit::services::read_service::ExternalQuery;
use white_rabbit::text::dedup_texts;

#[test]
fn tags_within_limits_give_no_error() {
    let tags = vec!["a".to_owned(), "b".to_owned()];
    assert!(Error::validate_tags("journal", &tags).is_empty());
}

#[test]
fn too_many_tags_and_long_tags() {
    let mut tags: Vec<String> = (0..16).map(|i| format!("t{}", i)).collect();
    tags[3] = "x".repeat(17);
    tags.push("y".repeat(17));
    let errors = Error::validate_tags("journal", &tags);
    assert_eq!(errors.len(), 2);
    assert!(matches!(&errors[0], Error::MaxLength { entity, field, value: 16 } if entity == "journal" && field == "tag"));
    assert!(matches!(&errors[1], Error::MaxLength { field, value: 16, .. } if field == "tag.item"));
}

#[test]
fn tag_length_counts_bytes() {
    let tags = vec!["é".repeat(9)];
    assert_eq!(Error::validate_tags("account", &tags).len(), 1);
}

#[test]
fn dedup_keeps_first_occurrences() {
    let v = vec!["b".to_owned(), "a".to_owned(), "b".to_owned(), "c".to_owned(), "a".to_owned()];
    assert_eq!(dedup_texts(&v), vec!["b".to_owned(), "a".to_owned(), "c".to_owned()]);
}

#[test]
fn contains_is_substring() {
    let users = || vec![user::Model { id: 1, name: "Household".to_owned(), role: user::Role::User }];
    let search = |value: &str| ExternalQuery::FullText(FullTextQuery { value: value.to_owned(), fields: None });
    assert_eq!(UserService::filter_by_external_query(users(), &search("seh")).len(), 1);
    assert_eq!(UserService::filter_by_external_query(users(), &search("")).len(), 1);
    assert!(UserService::filter_by_external_query(users(), &search("hold!")).is_empty());
}

#[test]
fn unknown_identity_may_not_write() {
    let id = AuthUser::Id(("Provider".to_owned(), "Value".to_owned()));
    let r = require_user(&id, "journal", Some(3));
    assert!(matches!(r, Err(Error::InvalidPermission { user, entity, id: Some(3), .. }) if user == "Value" && entity == "journal"));
    let known = AuthUser::User(user::Model { id: 0x67e5504410b1426f9247bb680e5fe0c8, name: "a".to_owned(), role: user::Role::User });
    assert!(require_user(&known, "journal", None).is_ok());
    assert_eq!(known.get_id(), "67e55044-10b1-426f-9247-bb680e5fe0c8");
}
