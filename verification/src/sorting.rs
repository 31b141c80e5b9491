//! Lists in the order of their items.
use vstd::prelude::*;

verus! {

/// An item with a place in an order. Several items can share a place.
pub trait Ranked: Copy {
    /// The place of the item.
    spec fn place(self) -> int;

    /// Whether the item comes before another one or shares its place.
    fn not_after(&self, other: &Self) -> (result: bool)
        ensures
            result == (self.place() <= other.place()),
    ;
}

/// An item that can stand for the same thing as another one.
pub trait Kin: Copy {
    /// What the item stands for.
    spec fn family(self) -> int;

    /// Whether both items stand for the same thing.
    fn is_kin(&self, other: &Self) -> (result: bool)
        ensures
            result == (self.family() == other.family()),
    ;
}

/// A sorted list with one more item, which goes behind the last one that does not come after it.
pub open spec fn inserted<T: Ranked>(list: Seq<T>, item: T) -> Seq<T>
    decreases list.len(),
{
    if list.len() == 0 || list.last().place() <= item.place() {
        list.push(item)
    } else {
        inserted(list.drop_last(), item).push(list.last())
    }
}

/// The items in the order of their places; items that share a place keep their order.
pub open spec fn sorted<T: Ranked>(items: Seq<T>) -> Seq<T>
    decreases items.len(),
{
    if items.len() == 0 {
        Seq::empty()
    } else {
        inserted(sorted(items.drop_last()), items.last())
    }
}

/// Whether no item comes after a later one.
pub open spec fn in_order<T: Ranked>(items: Seq<T>) -> bool {
    forall|i: int, j: int|
        0 <= i < j < items.len() ==> (#[trigger] items[i]).place() <= (#[trigger] items[j]).place()
}

/// The items that share a place, in list order.
pub open spec fn at_place<T: Ranked>(items: Seq<T>, place: int) -> Seq<T>
    decreases items.len(),
{
    if items.len() == 0 {
        Seq::empty()
    } else {
        let before = at_place(items.drop_last(), place);
        if items.last().place() == place {
            before.push(items.last())
        } else {
            before
        }
    }
}

/// The items without those that follow one of their kin directly.
pub open spec fn without_repeats<T: Kin>(items: Seq<T>) -> Seq<T>
    decreases items.len(),
{
    if items.len() == 0 {
        Seq::empty()
    } else {
        let before = without_repeats(items.drop_last());
        if before.len() > 0 && before.last().family() == items.last().family() {
            before
        } else {
            before.push(items.last())
        }
    }
}

proof fn lemma_inserted_at<T: Ranked>(list: Seq<T>, item: T, at: int)
    requires
        0 <= at <= list.len(),
        at > 0 ==> list[at - 1].place() <= item.place(),
        forall|k: int| at <= k < list.len() ==> (#[trigger] list[k]).place() > item.place(),
    ensures
        inserted(list, item) == list.insert(at, item),
    decreases list.len(),
{
    if at < list.len() {
        let front = list.drop_last();
        assert(list[list.len() - 1].place() > item.place());
        assert forall|k: int| at <= k < front.len() implies (#[trigger] front[k]).place()
            > item.place() by {
            assert(front[k] == list[k]);
        }
        lemma_inserted_at(front, item, at);
        assert(front.insert(at, item).push(list.last()) =~= list.insert(at, item));
    } else {
        assert(list.push(item) =~= list.insert(at, item));
    }
}

/// Sorts items; items that share a place keep their order.
pub fn sort<T: Ranked>(items: &Vec<T>) -> (list: Vec<T>)
    ensures
        list@ == sorted(items@),
{
    let mut list: Vec<T> = Vec::new();
    let mut i: usize = 0;
    assert(items@.take(0) =~= Seq::<T>::empty());
    while i < items.len()
        invariant
            i <= items@.len(),
            list@ == sorted(items@.take(i as int)),
        decreases items@.len() - i,
    {
        let item: T = items[i];
        let mut at: usize = list.len();
        while at > 0 && !list[at - 1].not_after(&item)
            invariant
                at <= list@.len(),
                forall|k: int| at <= k < list@.len() ==> (#[trigger] list@[k]).place() > item.place(),
            decreases at,
        {
            at -= 1;
        }
        proof {
            lemma_inserted_at(list@, item, at as int);
            assert(items@.take(i + 1).drop_last() =~= items@.take(i as int));
        }
        list.insert(at, item);
        i += 1;
    }
    assert(items@.take(i as int) =~= items@);
    list
}

/// Leaves out the items that follow one of their kin directly.
pub fn drop_repeats<T: Kin>(items: &Vec<T>) -> (list: Vec<T>)
    ensures
        list@ == without_repeats(items@),
{
    let mut list: Vec<T> = Vec::new();
    let mut i: usize = 0;
    assert(items@.take(0) =~= Seq::<T>::empty());
    while i < items.len()
        invariant
            i <= items@.len(),
            list@ == without_repeats(items@.take(i as int)),
        decreases items@.len() - i,
    {
        assert(items@.take(i + 1).drop_last() =~= items@.take(i as int));
        let item: T = items[i];
        let repeats: bool = list.len() > 0 && list[list.len() - 1].is_kin(&item);
        if !repeats {
            list.push(item);
        }
        i += 1;
    }
    assert(items@.take(i as int) =~= items@);
    list
}

proof fn lemma_insertion<T: Ranked>(list: Seq<T>, item: T, place: int)
    requires
        in_order(list),
    ensures
        in_order(inserted(list, item)),
        inserted(list, item).to_multiset() == list.to_multiset().insert(item),
        inserted(list, item).len() == list.len() + 1,
        at_place(inserted(list, item), place) == if item.place() == place {
            at_place(list, place).push(item)
        } else {
            at_place(list, place)
        },
        list.len() > 0 && list.last().place() > item.place() ==> inserted(list, item).last()
            == list.last(),
        !(list.len() > 0 && list.last().place() > item.place()) ==> inserted(list, item).last()
            == item,
    decreases list.len(),
{
    broadcast use vstd::seq_lib::group_to_multiset_ensures;

    if list.len() == 0 || list.last().place() <= item.place() {
        let all = list.push(item);
        assert(all.drop_last() =~= list);
        assert forall|i: int, j: int| 0 <= i < j < all.len() implies (#[trigger] all[i]).place() <= (
        #[trigger] all[j]).place() by {
            if j == list.len() && i < list.len() - 1 {
                assert(list[i].place() <= list[list.len() - 1].place());
            }
        }
    } else {
        let front = list.drop_last();
        let last = list.last();
        assert forall|i: int, j: int| 0 <= i < j < front.len() implies (#[trigger] front[i]).place()
            <= (#[trigger] front[j]).place() by {
            assert(list[i].place() <= list[j].place());
        }
        lemma_insertion(front, item, place);
        let middle = inserted(front, item);
        let all = middle.push(last);
        assert(all.drop_last() =~= middle);
        assert(middle.last().place() <= last.place()) by {
            if front.len() > 0 {
                assert(list[list.len() - 2].place() <= list[list.len() - 1].place());
            }
        }
        assert forall|i: int, j: int| 0 <= i < j < all.len() implies (#[trigger] all[i]).place() <= (
        #[trigger] all[j]).place() by {
            if j == middle.len() && i < middle.len() - 1 {
                assert(middle[i].place() <= middle[middle.len() - 1].place());
            }
        }
        assert(list =~= front.push(last));
        assert(all.to_multiset() =~= list.to_multiset().insert(item));
        if item.place() == place {
            assert(at_place(list, place) =~= at_place(front, place));
        }
    }
}

/// Sorting keeps every item as often as it occurs, puts the items in order, and leaves the items
/// that share a place in the order in which they stood.
pub proof fn sorting_is_stable<T: Ranked>(items: Seq<T>, place: int)
    ensures
        in_order(sorted(items)),
        sorted(items).to_multiset() == items.to_multiset(),
        sorted(items).len() == items.len(),
        at_place(sorted(items), place) == at_place(items, place),
    decreases items.len(),
{
    broadcast use vstd::seq_lib::group_to_multiset_ensures;

    if items.len() > 0 {
        let front = items.drop_last();
        sorting_is_stable(front, place);
        lemma_insertion(sorted(front), items.last(), place);
        assert(items =~= front.push(items.last()));
    }
}

/// What is left without repeats has no two neighbours that are kin, and every item that was left
/// out has its kin among what is left.
pub proof fn repeats_are_dropped<T: Kin>(items: Seq<T>)
    ensures
        forall|k: int|
            0 < k < without_repeats(items).len() ==> (#[trigger] without_repeats(items)[k]).family()
                != without_repeats(items)[k - 1].family(),
        forall|i: int|
            0 <= i < items.len() ==> exists|k: int|
                0 <= k < without_repeats(items).len() && (#[trigger] without_repeats(
                    items,
                )[k]).family() == (#[trigger] items[i]).family(),
        items.len() > 0 ==> without_repeats(items).len() > 0 && without_repeats(
            items,
        ).last().family() == items.last().family(),
    decreases items.len(),
{
    if items.len() > 0 {
        let front = items.drop_last();
        let before = without_repeats(front);
        let after = without_repeats(items);
        repeats_are_dropped(front);
        assert forall|i: int| 0 <= i < items.len() implies exists|k: int|
            0 <= k < after.len() && (#[trigger] after[k]).family() == (
            #[trigger] items[i]).family() by {
            if i < front.len() {
                assert(front[i] == items[i]);
                let k = choose|k: int|
                    0 <= k < before.len() && (#[trigger] before[k]).family() == front[i].family();
                assert(after[k] == before[k]);
            } else {
                assert(after[after.len() - 1].family() == items[i].family());
            }
        }
    }
}

/// Whether an item that does not come after another one stands for nothing later.
pub open spec fn follows<T: Ranked + Kin>(a: T, b: T) -> bool {
    a.place() <= b.place() ==> a.family() <= b.family()
}

/// Whether families go up with places.
pub open spec fn families_follow_places<T: Ranked + Kin>() -> bool {
    forall|a: T, b: T| #[trigger] follows(a, b)
}

/// Whether families go up strictly.
pub open spec fn families_ascend<T: Kin>(items: Seq<T>) -> bool {
    forall|i: int, j: int|
        0 <= i < j < items.len() ==> (#[trigger] items[i]).family() < (#[trigger] items[j]).family()
}

/// Whether every item of `kept` is one of `items`.
pub open spec fn taken_from<T>(kept: Seq<T>, items: Seq<T>) -> bool {
    forall|k: int| 0 <= k < kept.len() ==> items.contains(#[trigger] kept[k])
}

/// Whether no item of `items` comes before its kin in `kept`.
pub open spec fn comes_first<T: Ranked + Kin>(kept: Seq<T>, items: Seq<T>) -> bool {
    forall|k: int, i: int|
        0 <= k < kept.len() && 0 <= i < items.len() && (#[trigger] kept[k]).family() == (
        #[trigger] items[i]).family() ==> kept[k].place() <= items[i].place()
}

/// Whether every item of `items` has kin in `kept`.
#[verifier::opaque]
pub open spec fn covers<T: Kin>(kept: Seq<T>, items: Seq<T>) -> bool {
    forall|i: int|
        0 <= i < items.len() ==> exists|k: int|
            0 <= k < kept.len() && (#[trigger] kept[k]).family() == (#[trigger] items[i]).family()
}

proof fn lemma_front_in_order<T: Ranked>(list: Seq<T>)
    requires
        in_order(list),
        list.len() > 0,
    ensures
        in_order(list.drop_last()),
        list.len() > 1 ==> list[list.len() - 2].place() <= list.last().place(),
{
    let front = list.drop_last();
    assert forall|i: int, j: int| 0 <= i < j < front.len() implies (#[trigger] front[i]).place() <= (
    #[trigger] front[j]).place() by {
        assert(list[i].place() <= list[j].place());
    }
    if list.len() > 1 {
        assert(list[list.len() - 2].place() <= list[list.len() - 1].place());
    }
}

proof fn lemma_kept_are_taken<T: Kin>(list: Seq<T>)
    ensures
        taken_from(without_repeats(list), list),
    decreases list.len(),
{
    if list.len() > 0 {
        let front = list.drop_last();
        let before = without_repeats(front);
        let kept = without_repeats(list);
        lemma_kept_are_taken(front);
        assert forall|k: int| 0 <= k < kept.len() implies list.contains(#[trigger] kept[k]) by {
            if k < before.len() {
                assert(front.contains(before[k]));
                let i = choose|i: int| 0 <= i < front.len() && front[i] == before[k];
                assert(list[i] == kept[k]);
            } else {
                assert(list[list.len() - 1] == kept[k]);
            }
        }
    }
}

proof fn lemma_last_family<T: Kin>(list: Seq<T>)
    requires
        list.len() > 0,
    ensures
        without_repeats(list).len() > 0,
        without_repeats(list).last().family() == list.last().family(),
{
    repeats_are_dropped(list);
}

proof fn lemma_kept_ascend<T: Ranked + Kin>(list: Seq<T>)
    requires
        in_order(list),
        families_follow_places::<T>(),
    ensures
        families_ascend(without_repeats(list)),
    decreases list.len(),
{
    if list.len() > 0 {
        let front = list.drop_last();
        let before = without_repeats(front);
        let kept = without_repeats(list);
        lemma_front_in_order(list);
        lemma_kept_ascend(front);
        if front.len() > 0 {
            lemma_last_family(front);
            assert(follows(front.last(), list.last()));
        }
        assert forall|i: int, j: int| 0 <= i < j < kept.len() implies (#[trigger] kept[i]).family()
            < (#[trigger] kept[j]).family() by {
            if j < before.len() {
                assert(before[i].family() < before[j].family());
            } else if i < before.len() - 1 {
                assert(before[i].family() < before[before.len() - 1].family());
            }
        }
    }
}

proof fn lemma_kept_come_first<T: Ranked + Kin>(list: Seq<T>)
    requires
        in_order(list),
        families_follow_places::<T>(),
    ensures
        comes_first(without_repeats(list), list),
    decreases list.len(),
{
    if list.len() > 0 {
        let front = list.drop_last();
        let end = front.len() - 1;
        let before = without_repeats(front);
        let kept = without_repeats(list);
        lemma_front_in_order(list);
        lemma_kept_come_first(front);
        lemma_kept_ascend(front);
        if front.len() > 0 {
            lemma_last_family(front);
            assert(follows(front[end], list.last()));
        }
        assert forall|k: int, i: int|
            0 <= k < kept.len() && 0 <= i < list.len() && (#[trigger] kept[k]).family() == (
            #[trigger] list[i]).family() implies kept[k].place() <= list[i].place() by {
            if k < before.len() && i < front.len() {
                assert(before[k].family() == front[i].family());
            } else if k < before.len() {
                // The item before the last one is kin too.
                if k < before.len() - 1 {
                    assert(before[k].family() < before[before.len() - 1].family());
                }
                assert(before[k].family() == front[end].family());
            } else if i < front.len() {
                if i < end {
                    assert(front[i].place() <= front[end].place());
                }
                assert(follows(front[i], front[end]));
            }
        }
    }
}

proof fn lemma_same_items<T: Ranked>(items: Seq<T>, item: T)
    ensures
        sorted(items).contains(item) == items.contains(item),
{
    broadcast use vstd::seq_lib::group_to_multiset_ensures;

    sorting_is_stable(items, 0);
    assert(sorted(items).to_multiset().count(item) == items.to_multiset().count(item));
}

proof fn lemma_sorted_are_taken<T: Ranked + Kin>(items: Seq<T>)
    ensures
        taken_from(without_repeats(sorted(items)), items),
{
    let kept = without_repeats(sorted(items));
    lemma_kept_are_taken(sorted(items));
    assert forall|k: int| 0 <= k < kept.len() implies items.contains(#[trigger] kept[k]) by {
        lemma_same_items(items, kept[k]);
    }
}

proof fn lemma_sorted_come_first<T: Ranked + Kin>(items: Seq<T>)
    requires
        families_follow_places::<T>(),
    ensures
        comes_first(without_repeats(sorted(items)), items),
{
    let list = sorted(items);
    let kept = without_repeats(list);
    sorting_is_stable(items, 0);
    lemma_kept_come_first(list);
    assert forall|k: int, i: int|
        0 <= k < kept.len() && 0 <= i < items.len() && (#[trigger] kept[k]).family() == (
        #[trigger] items[i]).family() implies kept[k].place() <= items[i].place() by {
        lemma_same_items(items, items[i]);
        let j = choose|j: int| 0 <= j < list.len() && list[j] == items[i];
        assert(kept[k].family() == list[j].family());
    }
}

proof fn lemma_sorted_cover<T: Ranked + Kin>(items: Seq<T>)
    ensures
        covers(without_repeats(sorted(items)), items),
{
    reveal(covers);
    let list = sorted(items);
    let kept = without_repeats(list);
    repeats_are_dropped(list);
    assert forall|i: int| 0 <= i < items.len() implies exists|k: int|
        0 <= k < kept.len() && (#[trigger] kept[k]).family() == (#[trigger] items[i]).family() by {
        lemma_same_items(items, items[i]);
        let j = choose|j: int| 0 <= j < list.len() && list[j] == items[i];
        let k = choose|k: int|
            0 <= k < kept.len() && (#[trigger] kept[k]).family() == list[j].family();
        assert(kept[k].family() == items[i].family());
    }
}

/// What is left of sorted items without repeats is one item of each family, in the order of the
/// families: the one whose place comes first. Nothing else is in it, and no family is missing.
pub proof fn first_of_each_family_is_kept<T: Ranked + Kin>(items: Seq<T>)
    requires
        families_follow_places::<T>(),
    ensures
        families_ascend(without_repeats(sorted(items))),
        taken_from(without_repeats(sorted(items)), items),
        comes_first(without_repeats(sorted(items)), items),
        covers(without_repeats(sorted(items)), items),
{
    sorting_is_stable(items, 0);
    lemma_kept_ascend(sorted(items));
    lemma_sorted_are_taken(items);
    lemma_sorted_come_first(items);
    lemma_sorted_cover(items);
}

/// No family is missing: the item that is kept of the family of item `i`.
pub proof fn every_family_is_kept<T: Ranked + Kin>(items: Seq<T>, i: int) -> (k: int)
    requires
        0 <= i < items.len(),
    ensures
        0 <= k < without_repeats(sorted(items)).len(),
        without_repeats(sorted(items))[k].family() == items[i].family(),
{
    reveal(covers);
    let kept = without_repeats(sorted(items));
    lemma_sorted_cover(items);
    assert(exists|k: int|
        0 <= k < kept.len() && (#[trigger] kept[k]).family() == items[i].family());
    choose|k: int| 0 <= k < kept.len() && (#[trigger] kept[k]).family() == items[i].family()
}

proof fn lemma_nothing_at_place<T: Ranked>(items: Seq<T>, place: int)
    requires
        forall|i: int| 0 <= i < items.len() ==> (#[trigger] items[i]).place() != place,
    ensures
        at_place(items, place).len() == 0,
    decreases items.len(),
{
    if items.len() > 0 {
        let front = items.drop_last();
        assert forall|i: int| 0 <= i < front.len() implies (#[trigger] front[i]).place()
            != place by {
            assert(front[i] == items[i]);
        }
        lemma_nothing_at_place(front, place);
        assert(items[items.len() - 1].place() != place);
    }
}

proof fn lemma_first_at_place<T: Ranked + Kin>(list: Seq<T>, k: int)
    requires
        in_order(list),
        forall|item: T| (#[trigger] item.family()) == item.place(),
        0 <= k < without_repeats(list).len(),
    ensures
        at_place(list, without_repeats(list)[k].place()).len() > 0,
        at_place(list, without_repeats(list)[k].place())[0] == without_repeats(list)[k],
    decreases list.len(),
{
    if list.len() > 0 {
        let front = list.drop_last();
        let before = without_repeats(front);
        let kept = without_repeats(list);
        assert forall|i: int, j: int| 0 <= i < j < front.len() implies (#[trigger] front[i]).place()
            <= (#[trigger] front[j]).place() by {
            assert(list[i].place() <= list[j].place());
        }
        if k < before.len() {
            lemma_first_at_place(front, k);
        } else {
            let last = list.last();
            repeats_are_dropped(front);
            assert(kept[k] == last);
            assert(last.family() == last.place());
            assert forall|i: int| 0 <= i < front.len() implies (#[trigger] front[i]).place()
                != last.place() by {
                let end = front.len() - 1;
                assert(list[i].place() <= list[end].place() || i == end);
                assert(list[end].place() <= list[end + 1].place());
                assert(front[end].family() == front[end].place());
                assert(before.last().family() == before.last().place());
            }
            lemma_nothing_at_place(front, last.place());
        }
    }
}

/// Where items stand for the same thing exactly if they share a place, sorting and leaving out
/// repeats keeps the item of each place that stood first.
pub proof fn first_at_each_place_is_kept<T: Ranked + Kin>(items: Seq<T>, k: int)
    requires
        forall|item: T| (#[trigger] item.family()) == item.place(),
        0 <= k < without_repeats(sorted(items)).len(),
    ensures
        at_place(items, without_repeats(sorted(items))[k].place()).len() > 0,
        at_place(items, without_repeats(sorted(items))[k].place())[0] == without_repeats(
            sorted(items),
        )[k],
{
    let place = without_repeats(sorted(items))[k].place();
    sorting_is_stable(items, place);
    lemma_first_at_place(sorted(items), k);
}

} // verus!
