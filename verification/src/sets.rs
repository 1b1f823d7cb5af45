//! Lists taken as sets: the first occurrence of each item counts.
use vstd::prelude::*;

verus! {

/// The items with each repetition of an earlier one left out, in order.
pub open spec fn distinct<T>(items: Seq<T>) -> Seq<T>
    decreases items.len(),
{
    if items.len() == 0 {
        Seq::empty()
    } else {
        let rest = distinct(items.drop_last());
        if rest.contains(items.last()) {
            rest
        } else {
            rest.push(items.last())
        }
    }
}

/// Leaving out repetitions gives a list without repetitions that holds the
/// same items: a list of tags (of lines, of identities) is taken as a set.
pub proof fn lemma_distinct_is_set<T>(items: Seq<T>)
    ensures
        distinct(items).no_duplicates(),
        distinct(items).to_set() == items.to_set(),
    decreases items.len(),
{
    if items.len() > 0 {
        let init = items.drop_last();
        lemma_distinct_is_set(init);
        let rest = distinct(init);
        assert(items =~= init.push(items.last()));
        init.lemma_push_to_set_commute(items.last());
        if !rest.contains(items.last()) {
            rest.lemma_push_to_set_commute(items.last());
            assert forall|i: int, j: int| 0 <= i < j < rest.push(items.last()).len() implies rest.push(items.last())[i]
                != rest.push(items.last())[j] by {
                if j == rest.len() {
                    assert(rest[i] == rest.push(items.last())[i]);
                }
            }
        } else {
            assert(rest.to_set().contains(items.last()));
            assert(rest.to_set().insert(items.last()) =~= rest.to_set());
        }
    }
}

} // verus!
