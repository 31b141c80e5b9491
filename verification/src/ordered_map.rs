//! A map kept as a vector sorted by key.
//!
//! Measurements are grouped by scope and reported in scope order, so the map exposes both its
//! contents (as a mathematical map) and the order in which it is walked.
use vstd::prelude::*;

verus! {

/// A key with a total order, given by an integer rank that determines the key.
pub trait Key: Copy {
    /// The position of the key in the order.
    spec fn rank(self) -> int;

    /// Keys of the same rank are the same key.
    proof fn rank_injective(a: Self, b: Self)
        requires
            a.rank() == b.rank(),
        ensures
            a == b,
    ;

    /// Whether `self` comes before `other`.
    fn precedes(&self, other: &Self) -> (result: bool)
        ensures
            result == (self.rank() < other.rank()),
    ;
}

/// A map whose entries are held in increasing key order.
#[derive(Debug)]
pub struct OrderedMap<K, V> {
    entries: Vec<(K, V)>,
}

/// Whether the keys of `entries` increase strictly.
pub open spec fn increasing<K: Key, V>(entries: Seq<(K, V)>) -> bool {
    forall|i: int, j: int|
        0 <= i < j < entries.len() ==> (#[trigger] entries[i]).0.rank() < (
        #[trigger] entries[j]).0.rank()
}

/// Whether `key` occurs in `entries`.
pub open spec fn occurs<K, V>(entries: Seq<(K, V)>, key: K) -> bool {
    exists|i: int| 0 <= i < entries.len() && (#[trigger] entries[i]).0 == key
}

/// A position of `key` in `entries`, where it occurs.
pub open spec fn position<K, V>(entries: Seq<(K, V)>, key: K) -> int {
    choose|i: int| 0 <= i < entries.len() && (#[trigger] entries[i]).0 == key
}

/// The map that `entries` stands for.
pub open spec fn as_map<K, V>(entries: Seq<(K, V)>) -> Map<K, V> {
    Map::new(|key: K| occurs(entries, key), |key: K| entries[position(entries, key)].1)
}

/// In a sequence of increasing keys, every entry is what the map holds at its key.
pub proof fn lemma_entry_at<K: Key, V>(entries: Seq<(K, V)>, i: int)
    requires
        increasing(entries),
        0 <= i < entries.len(),
    ensures
        as_map(entries).contains_key(entries[i].0),
        as_map(entries)[entries[i].0] == entries[i].1,
        position(entries, entries[i].0) == i,
{
    let p = position(entries, entries[i].0);
    assert(entries[i].0 == entries[i].0);
    assert(0 <= p < entries.len() && entries[p].0 == entries[i].0);
    if p < i {
        assert(entries[p].0.rank() < entries[i].0.rank());
    } else if i < p {
        assert(entries[i].0.rank() < entries[p].0.rank());
    }
}

impl<K, V> View for OrderedMap<K, V> {
    type V = Map<K, V>;

    closed spec fn view(&self) -> Map<K, V> {
        as_map(self.entries@)
    }
}

impl<K: Key, V> OrderedMap<K, V> {
    /// The entries in the order in which the map is walked.
    pub closed spec fn entries(self) -> Seq<(K, V)> {
        self.entries@
    }

    /// The invariant: keys increase strictly.
    pub open spec fn wf(self) -> bool {
        &&& increasing(self.entries())
        &&& self@ == as_map(self.entries())
    }

    /// An empty map.
    pub fn new() -> (map: Self)
        ensures
            map.wf(),
            map.entries() == Seq::<(K, V)>::empty(),
            map@ == Map::<K, V>::empty(),
    {
        let map = OrderedMap { entries: Vec::new() };
        assert(map@ =~= Map::<K, V>::empty());
        map
    }

    /// The number of entries.
    pub fn len(&self) -> (len: usize)
        ensures
            len == self.entries().len(),
    {
        self.entries.len()
    }

    /// Whether the map holds no entry.
    pub fn is_empty(&self) -> (empty: bool)
        ensures
            empty == (self.entries().len() == 0),
    {
        self.entries.len() == 0
    }

    /// The key of the entry at `index`.
    pub fn key_at(&self, index: usize) -> (key: K)
        requires
            index < self.entries().len(),
        ensures
            key == self.entries()[index as int].0,
    {
        self.entries[index].0
    }

    /// The value of the entry at `index`.
    pub fn value_at(&self, index: usize) -> (value: &V)
        requires
            index < self.entries().len(),
        ensures
            *value == self.entries()[index as int].1,
    {
        &self.entries[index].1
    }

    /// The first index whose key is not before `key`.
    fn lower_bound(&self, key: &K) -> (index: usize)
        requires
            self.wf(),
        ensures
            index <= self.entries().len(),
            forall|i: int|
                0 <= i < index ==> (#[trigger] self.entries()[i]).0.rank() < key.rank(),
            forall|i: int|
                index <= i < self.entries().len() ==> (#[trigger] self.entries()[i]).0.rank()
                    >= key.rank(),
    {
        let mut index: usize = 0;
        while index < self.entries.len()
            invariant
                self.wf(),
                index <= self.entries@.len(),
                forall|i: int|
                    0 <= i < index ==> (#[trigger] self.entries()[i]).0.rank() < key.rank(),
            decreases self.entries@.len() - index,
        {
            if !self.entries[index].0.precedes(key) {
                return index;
            }
            index += 1;
        }
        index
    }

    /// The index of `key`, if the map holds it.
    fn find(&self, key: &K) -> (found: Option<usize>)
        requires
            self.wf(),
        ensures
            match found {
                Some(index) => index < self.entries().len() && self.entries()[index as int].0
                    == *key,
                None => !self@.contains_key(*key),
            },
    {
        let index: usize = self.lower_bound(key);
        if index < self.entries.len() && !key.precedes(&self.entries[index].0) {
            proof {
                K::rank_injective(self.entries()[index as int].0, *key);
            }
            Some(index)
        } else {
            None
        }
    }

    /// The value held at `key`.
    pub fn get(&self, key: &K) -> (value: Option<&V>)
        requires
            self.wf(),
        ensures
            match value {
                Some(v) => self@.contains_key(*key) && *v == self@[*key],
                None => !self@.contains_key(*key),
            },
    {
        match self.find(key) {
            Some(index) => {
                proof {
                    lemma_entry_at(self.entries(), index as int);
                }
                Some(&self.entries[index].1)
            },
            None => None,
        }
    }

    /// Removes the entry at `key` and returns its value.
    pub fn take(&mut self, key: &K) -> (value: Option<V>)
        requires
            old(self).wf(),
        ensures
            final(self).wf(),
            final(self)@ == old(self)@.remove(*key),
            match value {
                Some(v) => old(self)@.contains_key(*key) && v == old(self)@[*key],
                None => !old(self)@.contains_key(*key),
            },
    {
        let ghost before = self.entries@;
        match self.find(key) {
            Some(index) => {
                let (_, value) = self.entries.remove(index);
                proof {
                    let after = self.entries@;
                    let p = index as int;
                    lemma_entry_at(before, p);
                    assert(after =~= before.remove(p));
                    assert forall|k: K| occurs(after, k) == (occurs(before, k) && k != *key) by {
                        if occurs(after, k) {
                            let i = position(after, k);
                            let j = if i < p { i } else { i + 1 };
                            assert(before[j] == after[i]);
                            assert(before[j].0.rank() != before[p].0.rank());
                        }
                        if occurs(before, k) && k != *key {
                            let i = position(before, k);
                            let j = if i < p { i } else { i - 1 };
                            assert(after[j] == before[i]);
                        }
                    }
                    assert forall|k: K| #[trigger] occurs(after, k) implies as_map(after)[k]
                        == as_map(before)[k] by {
                        let i = position(after, k);
                        let j = if i < p { i } else { i + 1 };
                        assert(before[j] == after[i]);
                        lemma_entry_at(before, j);
                        assert(increasing(after));
                        lemma_entry_at(after, i);
                    }
                    assert(as_map(after) =~= as_map(before).remove(*key));
                }
                Some(value)
            },
            None => {
                assert(self@.remove(*key) =~= self@);
                None
            },
        }
    }

    /// Sets the value at `key`, replacing the one that was held there.
    pub fn insert(&mut self, key: K, value: V)
        requires
            old(self).wf(),
        ensures
            final(self).wf(),
            final(self)@ == old(self)@.insert(key, value),
    {
        let _ = self.take(&key);
        let ghost before = self.entries@;
        let index: usize = self.lower_bound(&key);
        self.entries.insert(index, (key, value));
        proof {
            let after = self.entries@;
            let p = index as int;
            assert(after =~= before.insert(p, (key, value)));
            assert forall|i: int| 0 <= i < before.len() implies (
            #[trigger] before[i]).0.rank() != key.rank() by {
                lemma_entry_at(before, i);
                if before[i].0.rank() == key.rank() {
                    K::rank_injective(before[i].0, key);
                }
            }
            assert(increasing(after)) by {
                assert forall|i: int, j: int| 0 <= i < j < after.len() implies (
                #[trigger] after[i]).0.rank() < (#[trigger] after[j]).0.rank() by {
                    let oi = if i < p { i } else { i - 1 };
                    let oj = if j < p { j } else { j - 1 };
                    if i != p {
                        assert(after[i] == before[oi]);
                    }
                    if j != p {
                        assert(after[j] == before[oj]);
                    }
                }
            }
            assert forall|k: K| occurs(after, k) == (occurs(before, k) || k == key) by {
                if occurs(after, k) {
                    let i = position(after, k);
                    if i != p {
                        let j = if i < p { i } else { i - 1 };
                        assert(before[j] == after[i]);
                    }
                }
                if occurs(before, k) {
                    let i = position(before, k);
                    let j = if i < p { i } else { i + 1 };
                    assert(after[j] == before[i]);
                }
                if k == key {
                    assert(after[p].0 == k);
                }
            }
            assert forall|k: K| #[trigger] occurs(after, k) implies as_map(after)[k] == as_map(
                before,
            ).insert(key, value)[k] by {
                let i = position(after, k);
                lemma_entry_at(after, i);
                if i != p {
                    let j = if i < p { i } else { i - 1 };
                    assert(before[j] == after[i]);
                    lemma_entry_at(before, j);
                    assert(before[j].0.rank() != key.rank());
                } else {
                    assert(after[p].0 == key);
                }
            }
            assert(as_map(after) =~= as_map(before).insert(key, value));
            assert(self@ =~= old(self)@.insert(key, value));
        }
    }
}

} // verus!
