//! Identifiers: every entity is identified by a UUID, held here as its
//! 128-bit value (most significant byte first, as `uuid::Uuid::as_u128`).
use vstd::prelude::*;
use vstd::arithmetic::power::pow;

verus! {

/// The lowercase hexadecimal digit of a number below 16.
pub open spec fn hex_digit(n: int) -> char {
    seq!['0', '1', '2', '3', '4', '5', '6', '7', '8', '9', 'a', 'b', 'c', 'd', 'e', 'f'][n]
}

/// The `k`-th hexadecimal digit of an identifier, the most significant first.
pub open spec fn nibble(id: u128, k: int) -> int {
    (id as int / pow(16, (31 - k) as nat)) % 16
}

/// Which digit a position of the hyphenated text shows (hyphens stand at 8, 13, 18, 23).
pub open spec fn digit_at(i: int) -> int {
    if i < 8 {
        i
    } else if i < 13 {
        i - 1
    } else if i < 18 {
        i - 2
    } else if i < 23 {
        i - 3
    } else {
        i - 4
    }
}

/// The hyphenated lowercase text of an identifier, such as
/// `67e55044-10b1-426f-9247-bb680e5fe0c8`.
pub open spec fn uuid_hyphenated(id: u128) -> Seq<char> {
    Seq::new(
        36,
        |i: int|
            if i == 8 || i == 13 || i == 18 || i == 23 {
                '-'
            } else {
                hex_digit(nibble(id, digit_at(i)))
            },
    )
}

/// What `uuid::Uuid::parse_str` makes of a text: `None` where it refuses it.
pub uninterp spec fn uuid_parsed(text: Seq<char>) -> Option<u128>;

/// The text of an identifier, through `uuid::Uuid`'s `Display`, which writes
/// the lowercase hyphenated form.
#[verifier::external_body]
pub(crate) fn uuid_text(id: u128) -> (text: String)
    ensures
        text@ == uuid_hyphenated(id),
{
    uuid::Uuid::from_u128(id).to_string()
}

/// Parses an identifier with `uuid::Uuid::parse_str`. The result is named by
/// `uuid_parsed`; the hyphenated lowercase form of an identifier, one of the
/// formats that the parser accepts, gives that identifier back.
#[verifier::external_body]
pub(crate) fn parse_uuid(text: &str) -> (id: Option<u128>)
    ensures
        id == uuid_parsed(text@),
        forall|u: u128| text@ == #[trigger] uuid_hyphenated(u) ==> id == Some(u),
{
    match uuid::Uuid::parse_str(text) {
        Ok(u) => Some(u.as_u128()),
        Err(_) => None,
    }
}

/// A fresh random identifier from `uuid::Uuid::new_v4`. Nothing is promised
/// of its value: it comes from a random number generator.
#[verifier::external_body]
pub(crate) fn new_id() -> u128 {
    uuid::Uuid::new_v4().as_u128()
}

} // verus!
