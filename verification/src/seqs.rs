//! Sequences built element by element.
use vstd::prelude::*;

verus! {

/// The sequences that `f` gives for the elements of `items`, one after the other.
pub open spec fn flat_map<A, B>(items: Seq<A>, f: spec_fn(A) -> Seq<B>) -> Seq<B>
    decreases items.len(),
{
    if items.len() == 0 {
        Seq::empty()
    } else {
        flat_map(items.drop_last(), f) + f(items.last())
    }
}

/// What one more element adds to a flattened sequence.
pub proof fn lemma_flat_map_step<A, B>(items: Seq<A>, f: spec_fn(A) -> Seq<B>, n: int)
    requires
        0 <= n < items.len(),
    ensures
        flat_map(items.take(n + 1), f) == flat_map(items.take(n), f) + f(items[n]),
{
    assert(items.take(n + 1).drop_last() =~= items.take(n));
}

/// A flattened sequence over no elements, and over all of them.
pub proof fn lemma_flat_map_ends<A, B>(items: Seq<A>, f: spec_fn(A) -> Seq<B>)
    ensures
        flat_map(items.take(0), f) == Seq::<B>::empty(),
        flat_map(items.take(items.len() as int), f) == flat_map(items, f),
{
    assert(items.take(items.len() as int) =~= items);
}

/// Where `f` gives `width` elements each time, element `j` of the part that belongs to item `i`
/// stands at `i * width + j`.
pub proof fn lemma_flat_map_index<A, B>(
    items: Seq<A>,
    f: spec_fn(A) -> Seq<B>,
    width: int,
    i: int,
    j: int,
)
    requires
        forall|k: int| 0 <= k < items.len() ==> f(#[trigger] items[k]).len() == width,
        0 <= i < items.len(),
        0 <= j < width,
    ensures
        flat_map(items, f).len() == items.len() * width,
        0 <= i * width + j < items.len() * width,
        flat_map(items, f)[i * width + j] == f(items[i])[j],
    decreases items.len(),
{
    let n = items.len() - 1;
    let front = items.drop_last();
    assert forall|k: int| 0 <= k < front.len() implies f(#[trigger] front[k]).len() == width by {
        assert(front[k] == items[k]);
    }
    lemma_flat_map_len(front, f, width);
    assert(f(items[n]).len() == width);
    assert((n + 1) * width == n * width + width) by (nonlinear_arith);
    if i < n {
        lemma_flat_map_index(front, f, width, i, j);
        assert(front[i] == items[i]);
    }
}

/// Where `f` gives `width` elements each time, the flattened sequence is that many times as long.
pub proof fn lemma_flat_map_len<A, B>(items: Seq<A>, f: spec_fn(A) -> Seq<B>, width: int)
    requires
        forall|k: int| 0 <= k < items.len() ==> f(#[trigger] items[k]).len() == width,
    ensures
        flat_map(items, f).len() == items.len() * width,
    decreases items.len(),
{
    if items.len() > 0 {
        let front = items.drop_last();
        assert forall|k: int| 0 <= k < front.len() implies f(#[trigger] front[k]).len()
            == width by {
            assert(front[k] == items[k]);
        }
        lemma_flat_map_len(front, f, width);
        let n = items.len() - 1;
        assert(f(items[n]).len() == width);
        assert((n + 1) * width == n * width + width) by (nonlinear_arith);
    } else {
        assert(0 * width == 0) by (nonlinear_arith);
    }
}

} // verus!
