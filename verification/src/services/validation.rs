//! The checks that every write makes before it is stored, as lists of errors.
use vstd::prelude::*;

use super::{FIELD_DESCRIPTION, FIELD_NAME, FIELD_UNIT, MAX_DESCRIPTION, MAX_NAME, MAX_UNIT, MIN_NAME};
use crate::errors::{byte_len, errors_view, Error, ErrorV};
use crate::models::AccessItemType;

verus! {

/// The view of an optional text.
pub open spec fn opt_text(v: Option<String>) -> Option<Seq<char>> {
    match v {
        Some(s) => Some(s@),
        None => None,
    }
}

/// A name that is set must be between `MIN_NAME` and `MAX_NAME` bytes long.
pub open spec fn name_errors(entity: Seq<char>, name: Option<Seq<char>>) -> Seq<ErrorV> {
    match name {
        Some(n) => if byte_len(n) < MIN_NAME || byte_len(n) > MAX_NAME {
            seq![ErrorV::LengthRange { entity, field: FIELD_NAME@, min: MIN_NAME, max: MAX_NAME }]
        } else {
            Seq::empty()
        },
        None => Seq::empty(),
    }
}

/// A description that is set must be at most `MAX_DESCRIPTION` bytes long.
pub open spec fn description_errors(entity: Seq<char>, description: Option<Seq<char>>) -> Seq<ErrorV> {
    match description {
        Some(d) => if byte_len(d) > MAX_DESCRIPTION {
            seq![ErrorV::MaxLength { entity, field: FIELD_DESCRIPTION@, value: MAX_DESCRIPTION }]
        } else {
            Seq::empty()
        },
        None => Seq::empty(),
    }
}

/// A unit that is set must be at most `MAX_UNIT` bytes long.
pub open spec fn unit_errors(entity: Seq<char>, unit: Option<Seq<char>>) -> Seq<ErrorV> {
    match unit {
        Some(u) => if byte_len(u) > MAX_UNIT {
            seq![ErrorV::MaxLength { entity, field: FIELD_UNIT@, value: MAX_UNIT }]
        } else {
            Seq::empty()
        },
        None => Seq::empty(),
    }
}

/// An error for each admin that is also a member, in the order of the admins.
pub open spec fn duplicate_errors(
    entity: Seq<char>,
    id: u128,
    typ: AccessItemType,
    admins: Seq<u128>,
    members: Seq<u128>,
) -> Seq<ErrorV>
    decreases admins.len(),
{
    if admins.len() == 0 {
        Seq::empty()
    } else {
        let rest = duplicate_errors(entity, id, typ, admins.drop_last(), members);
        if members.contains(admins.last()) {
            rest.push(ErrorV::DuplicatedAccessItem { entity, id, access_item_type: typ, access_item_id: admins.last() })
        } else {
            rest
        }
    }
}

/// An error list grown by an error.
pub fn push_error(errors: &mut Vec<Error>, e: Error)
    ensures
        errors_view(final(errors)@) == errors_view(old(errors)@).push(e@),
{
    errors.push(e);
    assert(errors_view(errors@) =~= errors_view(old(errors)@).push(e@));
}

/// Checks the length of a name that is set.
pub fn check_name(entity: &str, name: &Option<String>, errors: &mut Vec<Error>)
    ensures
        errors_view(final(errors)@) == errors_view(old(errors)@) + name_errors(entity@, opt_text(*name)),
{
    if let Some(n) = name {
        let len = n.as_str().len();
        if len < MIN_NAME || len > MAX_NAME {
            push_error(
                errors,
                Error::LengthRange {
                    entity: entity.to_owned(),
                    field: FIELD_NAME.to_owned(),
                    min: MIN_NAME,
                    max: MAX_NAME,
                },
            );
            return;
        }
    }
    assert(errors_view(errors@) =~= errors_view(old(errors)@) + name_errors(entity@, opt_text(*name)));
}

/// Checks the length of a description that is set.
pub fn check_description(entity: &str, description: &Option<String>, errors: &mut Vec<Error>)
    ensures
        errors_view(final(errors)@) == errors_view(old(errors)@) + description_errors(entity@, opt_text(*description)),
{
    if let Some(d) = description {
        if d.as_str().len() > MAX_DESCRIPTION {
            push_error(
                errors,
                Error::MaxLength {
                    entity: entity.to_owned(),
                    field: FIELD_DESCRIPTION.to_owned(),
                    value: MAX_DESCRIPTION,
                },
            );
            return;
        }
    }
    assert(errors_view(errors@) =~= errors_view(old(errors)@) + description_errors(entity@, opt_text(*description)));
}

/// Checks the length of a unit that is set.
pub fn check_unit(entity: &str, unit: &Option<String>, errors: &mut Vec<Error>)
    ensures
        errors_view(final(errors)@) == errors_view(old(errors)@) + unit_errors(entity@, opt_text(*unit)),
{
    if let Some(u) = unit {
        if u.as_str().len() > MAX_UNIT {
            push_error(
                errors,
                Error::MaxLength { entity: entity.to_owned(), field: FIELD_UNIT.to_owned(), value: MAX_UNIT },
            );
            return;
        }
    }
    assert(errors_view(errors@) =~= errors_view(old(errors)@) + unit_errors(entity@, opt_text(*unit)));
}

/// The id occurs in the list.
pub fn contains_id(ids: &Vec<u128>, id: u128) -> (found: bool)
    ensures
        found == ids@.contains(id),
{
    for i in 0..ids.len()
        invariant
            forall|k: int| 0 <= k < i ==> ids@[k] != id,
    {
        if ids[i] == id {
            return true;
        }
    }
    false
}

/// Adds an error for each admin that is also a member.
pub fn check_duplicates(
    entity: &str,
    id: u128,
    typ: AccessItemType,
    admins: &Vec<u128>,
    members: &Vec<u128>,
    errors: &mut Vec<Error>,
)
    ensures
        errors_view(final(errors)@) == errors_view(old(errors)@) + duplicate_errors(entity@, id, typ, admins@, members@),
{
    let ghost start = errors_view(errors@);
    for i in 0..admins.len()
        invariant
            errors_view(errors@) == start + duplicate_errors(entity@, id, typ, admins@.take(i as int), members@),
    {
        assert(admins@.take(i + 1).drop_last() =~= admins@.take(i as int));
        let ghost before = errors_view(errors@);
        if contains_id(members, admins[i]) {
            push_error(
                errors,
                Error::DuplicatedAccessItem {
                    entity: entity.to_owned(),
                    id,
                    access_item_type: typ,
                    access_item_id: admins[i],
                },
            );
        }
        assert(errors_view(errors@) =~= start + duplicate_errors(entity@, id, typ, admins@.take(i + 1), members@));
    }
    assert(admins@.take(admins.len() as int) =~= admins@);
}

/// An error list grown by a list of errors.
pub fn append_errors(errors: &mut Vec<Error>, more: Vec<Error>)
    ensures
        errors_view(final(errors)@) == errors_view(old(errors)@) + errors_view(more@),
{
    let ghost added = more@;
    let mut more = more;
    errors.append(&mut more);
    assert(errors_view(errors@) =~= errors_view(old(errors)@) + errors_view(added));
}

/// Where no access item gives a duplication error, no admin is a member.
pub proof fn lemma_no_duplicates(entity: Seq<char>, id: u128, typ: AccessItemType, admins: Seq<u128>, members: Seq<u128>)
    requires
        duplicate_errors(entity, id, typ, admins, members).len() == 0,
    ensures
        forall|i: int| 0 <= i < admins.len() ==> !members.contains(#[trigger] admins[i]),
    decreases admins.len(),
{
    if admins.len() > 0 {
        let init = admins.drop_last();
        lemma_no_duplicates(entity, id, typ, init, members);
        assert forall|i: int| 0 <= i < admins.len() implies !members.contains(#[trigger] admins[i]) by {
            if i < admins.len() - 1 {
                assert(admins[i] == init[i]);
            }
        }
    }
}

/// Where no admin is a member, no access item gives a duplication error.
pub proof fn lemma_no_duplicate_errors(entity: Seq<char>, id: u128, typ: AccessItemType, admins: Seq<u128>, members: Seq<u128>)
    requires
        forall|i: int| 0 <= i < admins.len() ==> !members.contains(#[trigger] admins[i]),
    ensures
        duplicate_errors(entity, id, typ, admins, members).len() == 0,
    decreases admins.len(),
{
    if admins.len() > 0 {
        let init = admins.drop_last();
        assert forall|i: int| 0 <= i < init.len() implies !members.contains(#[trigger] init[i]) by {
            assert(init[i] == admins[i]);
        }
        lemma_no_duplicate_errors(entity, id, typ, init, members);
        assert(!members.contains(admins[admins.len() - 1]));
    }
}

} // verus!
