//! Linear search, stated once: the index of the first hit in a sequence of
//! answers. Every lookup of the engine (an exit by direction, an item by
//! name, a room by name) is a first hit over the answers of its own test.

use vstd::prelude::*;

verus! {

/// The index of the first `true` in `hits`, or the length of `hits` where
/// there is none.
pub open spec fn first_true(hits: Seq<bool>) -> int
    decreases hits.len(),
{
    if hits.len() == 0 {
        0
    } else if hits[0] {
        0
    } else {
        1 + first_true(hits.drop_first())
    }
}

/// The first hit lies within the sequence or at its end, it is a hit, and
/// nothing before it is.
pub proof fn lemma_first_true(hits: Seq<bool>)
    ensures
        0 <= first_true(hits) <= hits.len(),
        first_true(hits) < hits.len() ==> hits[first_true(hits)],
        forall|j: int| 0 <= j < first_true(hits) ==> !#[trigger] hits[j],
    decreases hits.len(),
{
    if hits.len() > 0 && !hits[0] {
        let rest = hits.drop_first();
        lemma_first_true(rest);
        assert forall|j: int| 0 <= j < first_true(hits) implies !#[trigger] hits[j] by {
            if j > 0 {
                assert(hits[j] == rest[j - 1]);
            }
        }
    }
}

/// An index with no hit before it, which is a hit or the end, is the first
/// hit.
pub proof fn lemma_first_true_is(hits: Seq<bool>, i: int)
    requires
        0 <= i <= hits.len(),
        forall|j: int| 0 <= j < i ==> !#[trigger] hits[j],
        i < hits.len() ==> hits[i],
    ensures
        first_true(hits) == i,
    decreases hits.len(),
{
    if hits.len() > 0 && i > 0 {
        let rest = hits.drop_first();
        assert(!hits[0]);
        assert forall|j: int| 0 <= j < i - 1 implies !#[trigger] rest[j] by {
            assert(rest[j] == hits[j + 1]);
        }
        lemma_first_true_is(rest, i - 1);
    }
}

} // verus!
