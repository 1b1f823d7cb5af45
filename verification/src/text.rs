//! Comparisons of texts.
use vstd::prelude::*;

use crate::sets::distinct;

verus! {

/// `needle` occurs in `text` as a run of consecutive characters.
pub open spec fn contains_text(text: Seq<char>, needle: Seq<char>) -> bool {
    exists|i: int| 0 <= i && i + needle.len() <= text.len() && #[trigger] text.subrange(i, i + needle.len()) == needle
}

/// `str::contains` with a text pattern: true exactly when the pattern occurs
/// in the text.
#[verifier::external_body]
pub(crate) fn str_contains(text: &str, needle: &str) -> (found: bool)
    ensures
        found == contains_text(text@, needle@),
{
    text.contains(needle)
}

/// The text equals the given one.
pub fn text_is(text: &String, other: &str) -> (same: bool)
    ensures
        same == (text@ == other@),
{
    let other = other.to_owned();
    *text == other
}

/// Whether a list of texts holds the given one.
pub fn has_text(texts: &Vec<String>, text: &String) -> (found: bool)
    ensures
        found == texts.deep_view().contains(text@),
{
    let ghost all = texts.deep_view();
    for i in 0..texts.len()
        invariant
            all == texts.deep_view(),
            forall|k: int| 0 <= k < i ==> all[k] != text@,
    {
        if texts[i] == *text {
            assert(all[i as int] == text@);
            return true;
        }
    }
    false
}

/// The texts with each repetition of an earlier one left out, in order.
pub fn dedup_texts(texts: &Vec<String>) -> (r: Vec<String>)
    ensures
        r.deep_view() == distinct(texts.deep_view()),
{
    let ghost all = texts.deep_view();
    let mut r: Vec<String> = Vec::new();
    for i in 0..texts.len()
        invariant
            all == texts.deep_view(),
            r.deep_view() == distinct(all.take(i as int)),
    {
        assert(all.take(i + 1).drop_last() =~= all.take(i as int));
        assert(all.take(i + 1).last() == texts@[i as int]@);
        if !has_text(&r, &texts[i]) {
            let t = texts[i].clone();
            let ghost before = r.deep_view();
            r.push(t);
            assert(r.deep_view() =~= before.push(t@));
        }
    }
    assert(all.take(texts.len() as int) =~= all);
    r
}

} // verus!
