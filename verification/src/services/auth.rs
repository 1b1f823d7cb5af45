use vstd::prelude::*;

use crate::errors::{Error, ErrorV};
use crate::ids::{uuid_hyphenated, uuid_text};
use crate::models::user;

verus! {

/// What an operator asks to do with an entity.
#[derive(Clone, Copy, Debug, PartialEq, Eq, Structural)]
pub enum Permission {
    Read,
    Write,
}

/// Who makes a request: an identity at a provider that belongs to no user
/// yet (`(provider, value)`), or a known user.
#[derive(Debug)]
pub enum AuthUser {
    Id((String, String)),
    User(user::Model),
}

impl AuthUser {
    /// The text that names the operator: the value of the identity, or the
    /// hyphenated id of the user.
    pub open spec fn id_text(&self) -> Seq<char> {
        match self {
            AuthUser::Id((_, value)) => value@,
            AuthUser::User(u) => uuid_hyphenated(u.id),
        }
    }

    /// The text that names the operator.
    pub fn get_id(&self) -> (id: String)
        ensures
            id@ == self.id_text(),
    {
        match self {
            AuthUser::Id((_, id)) => id.clone(),
            AuthUser::User(u) => uuid_text(u.id),
        }
    }
}

impl Clone for AuthUser {
    fn clone(&self) -> (r: Self)
        ensures
            r == *self,
    {
        match self {
            AuthUser::Id((provider, value)) => AuthUser::Id((provider.clone(), value.clone())),
            AuthUser::User(u) => AuthUser::User(u.clone()),
        }
    }
}

/// The refusal of a write to an operator that is not a known user.
pub open spec fn write_refused(operator: AuthUser, entity: Seq<char>, target: Option<u128>) -> ErrorV {
    ErrorV::InvalidPermission { user: operator.id_text(), entity, id: target, permission: Permission::Write }
}

/// Only a known user may write: the user, or the refusal of the write.
pub fn require_user<'a>(operator: &'a AuthUser, entity: &str, target: Option<u128>) -> (r: Result<&'a user::Model, Error>)
    ensures
        match *operator {
            AuthUser::User(u) => r matches Ok(v) && *v == u,
            AuthUser::Id(_) => r matches Err(e) && e@ == write_refused(*operator, entity@, target),
        },
{
    match operator {
        AuthUser::User(u) => Ok(u),
        AuthUser::Id(_) => Err(
            Error::InvalidPermission {
                user: operator.get_id(),
                entity: entity.to_owned(),
                id: target,
                permission: Permission::Write,
            },
        ),
    }
}

/// The refusal of a write on an entity to a user.
pub open spec fn permission_refused(user_id: u128, entity: Seq<char>, id: u128) -> ErrorV {
    ErrorV::InvalidPermission {
        user: uuid_hyphenated(user_id),
        entity,
        id: Some(id),
        permission: Permission::Write,
    }
}

/// The refusal of a write on an entity to a user.
pub fn refuse_write(user_id: u128, entity: &str, id: u128) -> (e: Error)
    ensures
        e@ == permission_refused(user_id, entity@, id),
{
    Error::InvalidPermission {
        user: uuid_text(user_id),
        entity: entity.to_owned(),
        id: Some(id),
        permission: Permission::Write,
    }
}

/// The error for an entity that does not exist: its id is not found.
pub open spec fn id_not_found(entity: Seq<char>, id: u128) -> ErrorV {
    ErrorV::NotFound { entity, field: crate::services::FIELD_ID@, value: uuid_hyphenated(id) }
}

/// The error for an entity that does not exist.
pub fn not_found(entity: &str, id: u128) -> (e: Error)
    ensures
        e@ == id_not_found(entity@, id),
{
    Error::NotFound {
        entity: entity.to_owned(),
        field: crate::services::FIELD_ID.to_owned(),
        value: uuid_text(id),
    }
}

/// The error for a name that another entity has.
pub open spec fn name_taken(entity: Seq<char>, name: Seq<char>) -> ErrorV {
    ErrorV::AlreadyExists { entity, field: crate::services::FIELD_NAME@, value: name }
}

/// The error for a name that another entity has.
pub fn already_exists(entity: &str, name: String) -> (e: Error)
    ensures
        e@ == name_taken(entity@, name@),
{
    Error::AlreadyExists { entity: entity.to_owned(), field: crate::services::FIELD_NAME.to_owned(), value: name }
}

} // verus!
