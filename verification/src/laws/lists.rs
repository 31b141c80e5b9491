//! Where the elements of a flattened list come from.
use crate::seqs;
use vstd::prelude::*;

verus! {

/// Every element of a flattened list is one of those that some item gave.
pub proof fn every_element_comes_of_an_item<A, B>(
    items: Seq<A>,
    f: spec_fn(A) -> Seq<B>,
    k: int,
) -> (place: (int, int))
    requires
        0 <= k < seqs::flat_map(items, f).len(),
    ensures
        0 <= place.0 < items.len(),
        0 <= place.1 < f(items[place.0]).len(),
        seqs::flat_map(items, f)[k] == f(items[place.0])[place.1],
    decreases items.len(),
{
    let front = items.drop_last();
    let before = seqs::flat_map(front, f);
    if k < before.len() {
        let place = every_element_comes_of_an_item(front, f, k);
        assert(front[place.0] == items[place.0]);
        place
    } else {
        (items.len() - 1, k - before.len())
    }
}

/// Every element that an item gives is in the flattened list.
pub proof fn every_item_is_flattened<A, B>(
    items: Seq<A>,
    f: spec_fn(A) -> Seq<B>,
    i: int,
    j: int,
) -> (k: int)
    requires
        0 <= i < items.len(),
        0 <= j < f(items[i]).len(),
    ensures
        0 <= k < seqs::flat_map(items, f).len(),
        seqs::flat_map(items, f)[k] == f(items[i])[j],
    decreases items.len(),
{
    let front = items.drop_last();
    let before = seqs::flat_map(front, f);
    if i < items.len() - 1 {
        assert(front[i] == items[i]);
        every_item_is_flattened(front, f, i, j)
    } else {
        before.len() + j
    }
}

} // verus!
