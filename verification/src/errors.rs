use vstd::prelude::*;
use vstd::utf8::encode_utf8;

use crate::models::AccessItemType;
use crate::services::{Permission, FIELD_TAG, FIELD_TAG_ITEM, MAX_TAG, MAX_TAG_ITEM};

verus! {

pub type Result<T> = core::result::Result<T, Error>;

#[verifier::external_type_specification]
#[verifier::external_body]
pub struct ExDecodeError(base64::DecodeError);

#[verifier::external_type_specification]
#[verifier::external_body]
pub struct ExFromUtf8Error(std::string::FromUtf8Error);

/// Every way in which a request to the service can be refused.
#[derive(Debug)]
pub enum Error {
    InvalidPermission { user: String, entity: String, id: Option<u128>, permission: Permission },
    MaxLength { entity: String, field: String, value: usize },
    LengthRange { entity: String, field: String, min: usize, max: usize },
    AlreadyExists { entity: String, field: String, value: String },
    NotFound { entity: String, field: String, value: String },
    DuplicatedAccessItem {
        entity: String,
        id: u128,
        access_item_type: AccessItemType,
        access_item_id: u128,
    },
    RecordAtMostOneEmptyItem { id: u128 },
    RecordItemMustContainPrice { id: u128, account: u128 },
    RecordItemForbidPrice { id: u128, account: u128 },
    RecordItemOnlyPriceExist { id: u128, account: u128 },
    DuplicateAccountsInRecord { id: u128, account: u128 },
    ArchivedAccount { id: u128 },
    Errors(Vec<Error>),
    Database(String),
    Base64(base64::DecodeError),
    Utf8(std::string::FromUtf8Error),
    Uuid,
}

/// The mathematical value of an [`Error`]: texts as character sequences.
pub enum ErrorV {
    InvalidPermission { user: Seq<char>, entity: Seq<char>, id: Option<u128>, permission: Permission },
    MaxLength { entity: Seq<char>, field: Seq<char>, value: usize },
    LengthRange { entity: Seq<char>, field: Seq<char>, min: usize, max: usize },
    AlreadyExists { entity: Seq<char>, field: Seq<char>, value: Seq<char> },
    NotFound { entity: Seq<char>, field: Seq<char>, value: Seq<char> },
    DuplicatedAccessItem {
        entity: Seq<char>,
        id: u128,
        access_item_type: AccessItemType,
        access_item_id: u128,
    },
    RecordAtMostOneEmptyItem { id: u128 },
    RecordItemMustContainPrice { id: u128, account: u128 },
    RecordItemForbidPrice { id: u128, account: u128 },
    RecordItemOnlyPriceExist { id: u128, account: u128 },
    DuplicateAccountsInRecord { id: u128, account: u128 },
    ArchivedAccount { id: u128 },
    Errors(Seq<ErrorV>),
    Database(Seq<char>),
    Base64,
    Utf8,
    Uuid,
}

pub open spec fn error_view(e: Error) -> ErrorV
    decreases e, 0nat,
{
    match e {
        Error::InvalidPermission { user, entity, id, permission } => ErrorV::InvalidPermission {
            user: user@,
            entity: entity@,
            id,
            permission,
        },
        Error::MaxLength { entity, field, value } => ErrorV::MaxLength {
            entity: entity@,
            field: field@,
            value,
        },
        Error::LengthRange { entity, field, min, max } => ErrorV::LengthRange {
            entity: entity@,
            field: field@,
            min,
            max,
        },
        Error::AlreadyExists { entity, field, value } => ErrorV::AlreadyExists {
            entity: entity@,
            field: field@,
            value: value@,
        },
        Error::NotFound { entity, field, value } => ErrorV::NotFound {
            entity: entity@,
            field: field@,
            value: value@,
        },
        Error::DuplicatedAccessItem { entity, id, access_item_type, access_item_id } =>
            ErrorV::DuplicatedAccessItem { entity: entity@, id, access_item_type, access_item_id },
        Error::RecordAtMostOneEmptyItem { id } => ErrorV::RecordAtMostOneEmptyItem { id },
        Error::RecordItemMustContainPrice { id, account } => ErrorV::RecordItemMustContainPrice {
            id,
            account,
        },
        Error::RecordItemForbidPrice { id, account } => ErrorV::RecordItemForbidPrice { id, account },
        Error::RecordItemOnlyPriceExist { id, account } => ErrorV::RecordItemOnlyPriceExist {
            id,
            account,
        },
        Error::DuplicateAccountsInRecord { id, account } => ErrorV::DuplicateAccountsInRecord {
            id,
            account,
        },
        Error::ArchivedAccount { id } => ErrorV::ArchivedAccount { id },
        Error::Errors(errors) => ErrorV::Errors(error_seq_view(errors@)),
        Error::Database(message) => ErrorV::Database(message@),
        Error::Base64(_) => ErrorV::Base64,
        Error::Utf8(_) => ErrorV::Utf8,
        Error::Uuid => ErrorV::Uuid,
    }
}

/// The views of a sequence of errors, element by element.
pub open spec fn error_seq_view(s: Seq<Error>) -> Seq<ErrorV>
    decreases s, s.len(),
{
    if s.len() == 0 {
        Seq::empty()
    } else {
        seq![error_view(s[0])] + error_seq_view(s.subrange(1, s.len() as int))
    }
}

impl View for Error {
    type V = ErrorV;

    open spec fn view(&self) -> ErrorV {
        error_view(*self)
    }
}

/// The views of a sequence of errors.
pub open spec fn errors_view(errors: Seq<Error>) -> Seq<ErrorV> {
    Seq::new(errors.len(), |i: int| errors[i]@)
}

/// The two ways of viewing a sequence of errors agree.
pub proof fn lemma_error_seq_view(s: Seq<Error>)
    ensures
        error_seq_view(s) =~= errors_view(s),
    decreases s.len(),
{
    if s.len() > 0 {
        lemma_error_seq_view(s.subrange(1, s.len() as int));
    }
}

/// The length of a text in bytes, as `str::len` counts it.
pub open spec fn byte_len(s: Seq<char>) -> usize {
    encode_utf8(s).len() as usize
}

/// How a list of validation errors becomes the outcome of a validation:
/// nothing is success, one error is that error, more are gathered.
pub open spec fn outcome_of(errors: Seq<ErrorV>) -> core::result::Result<(), ErrorV> {
    if errors.len() == 0 {
        Ok(())
    } else if errors.len() == 1 {
        Err(errors[0])
    } else {
        Err(ErrorV::Errors(errors))
    }
}

/// The view of the outcome of a validation.
pub open spec fn outcome_view(r: core::result::Result<(), Error>) -> core::result::Result<(), ErrorV> {
    match r {
        Ok(()) => Ok(()),
        Err(e) => Err(e@),
    }
}

/// The number of texts longer than `MAX_TAG_ITEM` bytes.
pub open spec fn count_long_tags(tags: Seq<Seq<char>>) -> nat
    decreases tags.len(),
{
    if tags.len() == 0 {
        0
    } else {
        count_long_tags(tags.drop_last()) + if byte_len(tags.last()) > MAX_TAG_ITEM {
            1nat
        } else {
            0nat
        }
    }
}

/// The errors that a set of tags gives: one if there are too many tags, and one
/// for each tag that is too long among the first `MAX_TAG` of them.
pub open spec fn tag_errors(entity: Seq<char>, tags: Seq<Seq<char>>) -> Seq<ErrorV> {
    let too_many = if tags.len() > MAX_TAG {
        seq![ErrorV::MaxLength { entity, field: FIELD_TAG@, value: MAX_TAG }]
    } else {
        Seq::<ErrorV>::empty()
    };
    let checked = if tags.len() > MAX_TAG { tags.take(MAX_TAG as int) } else { tags };
    too_many + Seq::new(
        count_long_tags(checked),
        |i: int| ErrorV::MaxLength { entity, field: FIELD_TAG_ITEM@, value: MAX_TAG_ITEM },
    )
}

/// Gathers a list of errors into the outcome of a validation.
pub fn into_outcome(errors: Vec<Error>) -> (r: core::result::Result<(), Error>)
    ensures
        outcome_view(r) == outcome_of(errors_view(errors@)),
{
    let mut errors = errors;
    if errors.len() == 0 {
        Ok(())
    } else if errors.len() == 1 {
        let e = errors.pop().unwrap();
        Err(e)
    } else {
        let r = Err(Error::Errors(errors));
        proof {
            lemma_error_seq_view(errors@);
        }
        r
    }
}

impl Error {
    /// The errors of a set of tags of an entity.
    pub fn validate_tags(entity: &str, tags: &Vec<String>) -> (errors: Vec<Error>)
        ensures
            errors_view(errors@) == tag_errors(entity@, tags.deep_view()),
    {
        let mut errors: Vec<Error> = Vec::new();
        if tags.len() > MAX_TAG {
            errors.push(
                Error::MaxLength {
                    entity: entity.to_owned(),
                    field: FIELD_TAG.to_owned(),
                    value: MAX_TAG,
                },
            );
        }
        let ghost prefix = errors_view(errors@);
        let n: usize = if tags.len() > MAX_TAG { MAX_TAG } else { tags.len() };
        let ghost all = tags.deep_view();
        let ghost checked = if tags.len() > MAX_TAG { all.take(MAX_TAG as int) } else { all };
        assert(checked =~= all.take(n as int));
        for i in 0..n
            invariant
                n <= tags.len(),
                all == tags.deep_view(),
                checked == all.take(n as int),
                errors_view(errors@) =~= prefix + Seq::new(
                    count_long_tags(all.take(i as int)),
                    |k: int| ErrorV::MaxLength { entity: entity@, field: FIELD_TAG_ITEM@, value: MAX_TAG_ITEM },
                ),
        {
            assert(all.take(i + 1).drop_last() =~= all.take(i as int));
            assert(all.take(i + 1).last() == tags@[i as int]@);
            let ghost before = errors@;
            let len = tags[i].as_str().len();
            assert(len == byte_len(all[i as int]));
            if len > MAX_TAG_ITEM {
                errors.push(
                    Error::MaxLength {
                        entity: entity.to_owned(),
                        field: FIELD_TAG_ITEM.to_owned(),
                        value: MAX_TAG_ITEM,
                    },
                );
                assert(errors_view(errors@) =~= errors_view(before).push(errors@.last()@));
                assert(errors@.last()@ == ErrorV::MaxLength { entity: entity@, field: FIELD_TAG_ITEM@, value: MAX_TAG_ITEM });
            }
        }
        errors
    }
}

/// At most `MAX_TAG` tags of at most `MAX_TAG_ITEM` bytes each give no error.
pub proof fn lemma_tags_within_limits(entity: Seq<char>, tags: Seq<Seq<char>>)
    requires
        tags.len() <= MAX_TAG,
        forall|i: int| 0 <= i < tags.len() ==> byte_len(#[trigger] tags[i]) <= MAX_TAG_ITEM,
    ensures
        tag_errors(entity, tags).len() == 0,
{
    lemma_no_long_tags(tags);
}

proof fn lemma_no_long_tags(tags: Seq<Seq<char>>)
    requires
        forall|i: int| 0 <= i < tags.len() ==> byte_len(#[trigger] tags[i]) <= MAX_TAG_ITEM,
    ensures
        count_long_tags(tags) == 0,
    decreases tags.len(),
{
    if tags.len() > 0 {
        let init = tags.drop_last();
        assert forall|i: int| 0 <= i < init.len() implies byte_len(#[trigger] init[i]) <= MAX_TAG_ITEM by {
            assert(init[i] == tags[i]);
        }
        lemma_no_long_tags(init);
        assert(byte_len(tags[tags.len() - 1]) <= MAX_TAG_ITEM);
    }
}

} // verus!
