//! Facts about sequences that the store's proofs share.

use vstd::prelude::*;

verus! {

/// An occurrence with no earlier one is the first.
pub proof fn lemma_first_index<A>(keys: Seq<A>, k: A, i: int)
    requires
        0 <= i < keys.len(),
        keys[i] == k,
        forall|j: int| 0 <= j < i ==> keys[j] != k,
    ensures
        keys.index_of_first(k) == Some(i),
        keys.contains(k),
{
    keys.index_of_first_ensures(k);
}

/// What occurs nowhere has no first occurrence.
pub proof fn lemma_no_index<A>(keys: Seq<A>, k: A)
    requires
        forall|j: int| 0 <= j < keys.len() ==> keys[j] != k,
    ensures
        keys.index_of_first(k) == None::<int>,
        !keys.contains(k),
{
    keys.index_of_first_ensures(k);
}

/// Nothing passes a filter of nothing.
pub proof fn lemma_filter_empty<A>(pred: spec_fn(A) -> bool)
    ensures
        Seq::<A>::empty().filter(pred) == Seq::<A>::empty(),
{
    reveal(Seq::filter);
}

} // verus!
