//! Collects measurements by scope and event kind over the slices of an interval.
use crate::ordered_map::{self, Key, OrderedMap};
use crate::schedule::MAX_SPAN_NANOS;
use vstd::prelude::*;

verus! {

/// A measurement to which a later one of the same scope and kind can be added.
pub trait Merge: Copy {
    /// Whether the totals of both still fit.
    spec fn fits(self, other: Self) -> bool;

    /// Both measurements as one.
    spec fn merged(self, other: Self) -> Self;

    /// Adds `other`, where the totals fit.
    fn merge(&self, other: &Self) -> (result: Option<Self>)
        ensures
            match result {
                Some(both) => self.fits(*other) && both == self.merged(*other),
                None => !self.fits(*other),
            },
    ;
}

/// An event that a counter can be set to. Some kinds stand for a counter that is not used.
pub trait EventKind: Key {
    /// Whether an event of this kind is counted; nothing is held of one that is not.
    spec fn is_counted(self) -> bool;

    /// Whether an event of this kind is counted.
    fn counts(&self) -> (result: bool)
        ensures
            result == self.is_counted(),
    ;
}

/// What one event counted in a scope: over which interval, for how long the counters ran, how
/// many clock ticks went by, and the count.
#[derive(Clone, Copy, Debug, PartialEq, Eq, Structural)]
pub struct EventMeasurement {
    pub enabled_nanos: u128,
    pub running_nanos: u128,
    pub ticks: u64,
    pub value: u64,
}

impl Merge for EventMeasurement {
    open spec fn fits(self, other: Self) -> bool {
        &&& self.running_nanos + other.running_nanos <= MAX_SPAN_NANOS
        &&& self.ticks + other.ticks <= u64::MAX
        &&& self.value + other.value <= u64::MAX
    }

    open spec fn merged(self, other: Self) -> Self {
        EventMeasurement {
            enabled_nanos: self.enabled_nanos,
            running_nanos: (self.running_nanos + other.running_nanos) as u128,
            ticks: (self.ticks + other.ticks) as u64,
            value: (self.value + other.value) as u64,
        }
    }

    fn merge(&self, other: &Self) -> (result: Option<Self>) {
        let running: Option<u128> = self.running_nanos.checked_add(other.running_nanos);
        let ticks: Option<u64> = self.ticks.checked_add(other.ticks);
        let value: Option<u64> = self.value.checked_add(other.value);
        match (running, ticks, value) {
            (Some(running_nanos), Some(ticks), Some(value)) => {
                if running_nanos <= MAX_SPAN_NANOS {
                    Some(
                        EventMeasurement {
                            enabled_nanos: self.enabled_nanos,
                            running_nanos,
                            ticks,
                            value,
                        },
                    )
                } else {
                    None
                }
            },
            _ => None,
        }
    }
}

/// A measurement with the scope and the event kind that it belongs to.
#[derive(Clone, Copy, Debug)]
pub struct Sample<S, K, M> {
    pub scope: S,
    pub kind: K,
    pub measurement: M,
}

/// Measurements by scope and event kind.
pub type Grid<S, K, M> = Map<S, Map<K, M>>;

/// The measurements of a scope; none where the scope has not been seen.
pub open spec fn row_of<S, K, M>(grid: Grid<S, K, M>, scope: S) -> Map<K, M> {
    if grid.contains_key(scope) {
        grid[scope]
    } else {
        Map::empty()
    }
}

/// Whether a measurement can be added: the totals that it is added to still fit. One of a kind
/// that is not counted is added to nothing.
pub open spec fn addable<S, K: EventKind, M: Merge>(
    grid: Grid<S, K, M>,
    sample: Sample<S, K, M>,
) -> bool {
    let row = row_of(grid, sample.scope);
    sample.kind.is_counted() && row.contains_key(sample.kind) ==> row[sample.kind].fits(
        sample.measurement,
    )
}

/// The measurements after one was added: the first of its scope and kind is taken as it is, a
/// later one is merged into what is held. One of a kind that is not counted leaves no trace.
pub open spec fn added<S, K: EventKind, M: Merge>(
    grid: Grid<S, K, M>,
    sample: Sample<S, K, M>,
) -> Grid<S, K, M> {
    let row = row_of(grid, sample.scope);
    let cell = if row.contains_key(sample.kind) {
        row[sample.kind].merged(sample.measurement)
    } else {
        sample.measurement
    };
    if sample.kind.is_counted() {
        grid.insert(sample.scope, row.insert(sample.kind, cell))
    } else {
        grid
    }
}

/// The measurements with the one of a scope and kind replaced.
pub open spec fn replaced<S, K, M>(grid: Grid<S, K, M>, sample: Sample<S, K, M>) -> Grid<S, K, M> {
    grid.insert(sample.scope, row_of(grid, sample.scope).insert(sample.kind, sample.measurement))
}

/// The measurements after all of `samples` were added in turn; nothing where some total does
/// not fit.
pub open spec fn accumulated<S, K: EventKind, M: Merge>(
    grid: Grid<S, K, M>,
    samples: Seq<Sample<S, K, M>>,
) -> Option<Grid<S, K, M>>
    decreases samples.len(),
{
    if samples.len() == 0 {
        Some(grid)
    } else {
        match accumulated(grid, samples.drop_last()) {
            Some(before) => if addable(before, samples.last()) {
                Some(added(before, samples.last()))
            } else {
                None
            },
            None => None,
        }
    }
}

/// A total of an accumulated measurement does not fit in its width.
#[derive(Clone, Copy, Debug, PartialEq, Eq, Structural)]
pub struct Overflow;

/// Measurements collected by scope and event kind, walked in scope order.
#[derive(Debug)]
pub struct Accumulator<S, K, M> {
    rows: OrderedMap<S, OrderedMap<K, M>>,
}

impl<S: Key, K: Key, M: Copy> Accumulator<S, K, M> {
    /// The scopes in increasing order, each with its measurements by event kind.
    pub closed spec fn rows(self) -> Seq<(S, Map<K, M>)> {
        self.rows.entries().map_values(|entry: (S, OrderedMap<K, M>)| (entry.0, entry.1@))
    }

    /// The measurements by scope and event kind.
    pub open spec fn grid(self) -> Grid<S, K, M> {
        ordered_map::as_map(self.rows())
    }

    /// Whether the rows and every row in them are well formed.
    pub closed spec fn inner_wf(self) -> bool {
        &&& self.rows.wf()
        &&& forall|i: int| 0 <= i < self.rows.entries().len() ==> (
            #[trigger] self.rows.entries()[i]
        ).1.wf()
    }

    /// The invariant: scopes increase strictly, and every scope has a measurement.
    pub open spec fn wf(self) -> bool {
        &&& self.inner_wf()
        &&& ordered_map::increasing(self.rows())
        &&& inhabited(self.grid())
    }

    proof fn lemma_rows(self)
        requires
            self.inner_wf(),
        ensures
            ordered_map::increasing(self.rows()),
            forall|scope: S| self.rows@.contains_key(scope) == self.grid().contains_key(scope),
            forall|scope: S| #[trigger]
                self.rows@.contains_key(scope) ==> self.rows@[scope].wf() && self.rows@[scope]@
                    == self.grid()[scope],
    {
        let entries = self.rows.entries();
        let rows = self.rows();
        assert forall|i: int, j: int| 0 <= i < j < rows.len() implies (#[trigger] rows[i]).0.rank()
            < (#[trigger] rows[j]).0.rank() by {
            assert(rows[i].0 == entries[i].0);
            assert(rows[j].0 == entries[j].0);
        }
        assert forall|scope: S| ordered_map::occurs(entries, scope) == ordered_map::occurs(rows, scope) by {
            if ordered_map::occurs(entries, scope) {
                let i = ordered_map::position(entries, scope);
                assert(rows[i].0 == entries[i].0);
            }
            if ordered_map::occurs(rows, scope) {
                let i = ordered_map::position(rows, scope);
                assert(rows[i].0 == entries[i].0);
            }
        }
        assert forall|scope: S| #[trigger] self.rows@.contains_key(scope) implies self.rows@[scope].wf() && self.rows@[scope]@
            == self.grid()[scope] by {
            let i = ordered_map::position(entries, scope);
            assert(ordered_map::occurs(entries, scope));
            ordered_map::lemma_entry_at(entries, i);
            ordered_map::lemma_entry_at(rows, i);
            assert(rows[i] == (entries[i].0, entries[i].1@));
        }
    }

    /// An accumulator without measurements.
    pub fn new() -> (accumulator: Self)
        ensures
            accumulator.wf(),
            accumulator.rows() == Seq::<(S, Map<K, M>)>::empty(),
            accumulator.grid() == Map::<S, Map<K, M>>::empty(),
    {
        let accumulator = Accumulator { rows: OrderedMap::new() };
        proof {
            assert(accumulator.rows() =~= Seq::<(S, Map<K, M>)>::empty());
            assert(accumulator.grid() =~= Map::<S, Map<K, M>>::empty());
        }
        accumulator
    }

    /// The number of scopes.
    pub fn len(&self) -> (len: usize)
        ensures
            len == self.rows().len(),
    {
        self.rows.len()
    }

    /// The scope at `index` in scope order.
    pub fn scope_at(&self, index: usize) -> (scope: S)
        requires
            index < self.rows().len(),
        ensures
            scope == self.rows()[index as int].0,
    {
        self.rows.key_at(index)
    }

    /// The measurement of `kind` in the scope at `index`.
    pub fn measurement_at(&self, index: usize, kind: K) -> (found: Option<M>)
        requires
            self.wf(),
            index < self.rows().len(),
        ensures
            found == held(self.rows()[index as int].1, kind),
    {
        let row = self.rows.value_at(index);
        assert(row.wf());
        match row.get(&kind) {
            Some(measurement) => Some(*measurement),
            None => None,
        }
    }

    /// The measurement of `kind` in the scope at `index`, which holds one.
    pub fn require(&self, index: usize, kind: K) -> (measurement: M)
        requires
            self.wf(),
            index < self.rows().len(),
            self.rows()[index as int].1.contains_key(kind),
        ensures
            measurement == self.rows()[index as int].1[kind],
    {
        let row = self.rows.value_at(index);
        assert(row.wf());
        *row.get(&kind).unwrap()
    }

    /// The first event of `kinds` that is missing in a scope, by scope order and then by the
    /// order of `kinds`.
    pub fn find_gap(&self, kinds: &Vec<K>) -> (gap: Option<K>)
        requires
            self.wf(),
        ensures
            gap == first_gap(self.rows(), kinds@),
    {
        let ghost rows = self.rows();
        let mut i: usize = 0;
        assert(rows.take(0) =~= Seq::<(S, Map<K, M>)>::empty());
        while i < self.len()
            invariant
                self.wf(),
                rows == self.rows(),
                i <= rows.len(),
                first_gap(rows.take(i as int), kinds@) is None,
            decreases rows.len() - i,
        {
            proof {
                assert(rows.take(i + 1).drop_last() =~= rows.take(i as int));
            }
            let mut j: usize = 0;
            while j < kinds.len()
                invariant
                    self.wf(),
                    rows == self.rows(),
                    i < rows.len(),
                    j <= kinds@.len(),
                    first_gap(rows.take(i as int), kinds@) is None,
                    rows.take(i + 1).drop_last() == rows.take(i as int),
                    first_missing(rows[i as int].1, kinds@, j as nat) is None,
                decreases kinds@.len() - j,
            {
                if self.measurement_at(i, kinds[j]).is_none() {
                    proof {
                        lemma_first_missing_stays(rows[i as int].1, kinds@, (j + 1) as nat);
                        lemma_first_gap_stays(rows, kinds@, i + 1);
                    }
                    return Some(kinds[j]);
                }
                j += 1;
            }
            i += 1;
        }
        assert(rows.take(i as int) =~= rows);
        None
    }

    /// The measurement of `kind` in `scope`.
    pub fn get(&self, scope: S, kind: K) -> (found: Option<M>)
        requires
            self.wf(),
        ensures
            found == held(row_of(self.grid(), scope), kind),
    {
        proof {
            self.lemma_rows();
        }
        match self.rows.get(&scope) {
            Some(row) => match row.get(&kind) {
                Some(measurement) => Some(*measurement),
                None => None,
            },
            None => None,
        }
    }

    /// Whether something is held of `scope`.
    pub fn has_scope(&self, scope: S) -> (found: bool)
        requires
            self.wf(),
        ensures
            found == self.grid().contains_key(scope),
    {
        proof {
            self.lemma_rows();
        }
        self.rows.get(&scope).is_some()
    }

    /// Replaces what is held of a scope and kind.
    pub fn put(self, sample: Sample<S, K, M>) -> (after: Self)
        requires
            self.wf(),
        ensures
            after.wf(),
            after.grid() == replaced(self.grid(), sample),
    {
        let mut rows = self.rows;
        proof {
            self.lemma_rows();
        }
        let ghost before = rows@;
        let mut row: OrderedMap<K, M> = match rows.take(&sample.scope) {
            Some(row) => row,
            None => OrderedMap::new(),
        };
        row.insert(sample.kind, sample.measurement);
        let ghost new_row = row;
        rows.insert(sample.scope, row);
        let after = Accumulator { rows };
        proof {
            let entries = after.rows.entries();
            let goal = replaced(self.grid(), sample);
            assert(after.rows@ =~= before.insert(sample.scope, new_row));
            assert forall|i: int| 0 <= i < entries.len() implies (#[trigger] entries[i]).1.wf() by {
                ordered_map::lemma_entry_at(entries, i);
                if entries[i].0 != sample.scope {
                    assert(before.contains_key(entries[i].0));
                }
            }
            after.lemma_rows();
            assert forall|scope: S| after.grid().contains_key(scope) == goal.contains_key(scope) by {
                assert(after.rows@.contains_key(scope) == after.grid().contains_key(scope));
                assert(self.rows@.contains_key(scope) == self.grid().contains_key(scope));
            }
            assert forall|scope: S| #[trigger] after.grid().contains_key(scope) implies after.grid()[scope]
                == goal[scope] by {
                assert(after.rows@.contains_key(scope));
                if scope != sample.scope {
                    assert(self.rows@.contains_key(scope));
                }
            }
            assert(after.grid() =~= goal);
            assert forall|scope: S| #[trigger] after.grid().contains_key(scope) implies exists|
                kind: K,
            | #[trigger] after.grid()[scope].contains_key(kind) by {
                if scope == sample.scope {
                    assert(after.grid()[scope].contains_key(sample.kind));
                } else {
                    assert(self.grid().contains_key(scope));
                    assert(after.grid()[scope] == self.grid()[scope]);
                }
            }
        }
        after
    }
}

impl<S: Key, K: EventKind, M: Merge> Accumulator<S, K, M> {
    /// Adds one measurement to what is held of its scope and kind. Nothing changes where the kind
    /// is not counted.
    pub fn add(self, sample: Sample<S, K, M>) -> (result: Result<Self, Overflow>)
        requires
            self.wf(),
        ensures
            match result {
                Ok(after) => addable(self.grid(), sample) && after.wf() && after.grid() == added(
                    self.grid(),
                    sample,
                ),
                Err(_) => !addable(self.grid(), sample),
            },
            !sample.kind.is_counted() ==> result == Ok::<Self, Overflow>(self),
    {
        if !sample.kind.counts() {
            return Ok(self);
        }
        let measurement: M = match self.get(sample.scope, sample.kind) {
            Some(earlier) => match earlier.merge(&sample.measurement) {
                Some(both) => both,
                None => {
                    return Err(Overflow);
                },
            },
            None => sample.measurement,
        };
        Ok(self.put(Sample { scope: sample.scope, kind: sample.kind, measurement }))
    }

    /// Adds measurements in turn.
    pub fn extend(self, samples: &Vec<Sample<S, K, M>>) -> (result: Result<Self, Overflow>)
        requires
            self.wf(),
        ensures
            match result {
                Ok(after) => after.wf() && accumulated(self.grid(), samples@) == Some(after.grid()),
                Err(_) => accumulated(self.grid(), samples@) is None,
            },
    {
        let ghost start = self.grid();
        let mut current = self;
        let mut i: usize = 0;
        assert(samples@.take(0) =~= Seq::<Sample<S, K, M>>::empty());
        while i < samples.len()
            invariant
                i <= samples@.len(),
                start == self.grid(),
                current.wf(),
                accumulated(start, samples@.take(i as int)) == Some(current.grid()),
            decreases samples@.len() - i,
        {
            proof {
                assert(samples@.take(i + 1).drop_last() =~= samples@.take(i as int));
            }
            match current.add(samples[i]) {
                Ok(after) => {
                    current = after;
                },
                Err(overflow) => {
                    proof {
                        lemma_overflow_stays(start, samples@, i + 1);
                    }
                    return Err(overflow);
                },
            }
            i += 1;
        }
        assert(samples@.take(i as int) =~= samples@);
        Ok(current)
    }
}

/// The first of the first `n` of `kinds` that is missing in a row.
pub open spec fn first_missing<K, M>(row: Map<K, M>, kinds: Seq<K>, n: nat) -> Option<K>
    decreases n,
{
    if n == 0 {
        None
    } else {
        match first_missing(row, kinds, (n - 1) as nat) {
            Some(kind) => Some(kind),
            None => if row.contains_key(kinds[n - 1]) {
                None
            } else {
                Some(kinds[n - 1])
            },
        }
    }
}

/// The first of `kinds` that is missing in the first row in which one is missing.
pub open spec fn first_gap<S, K, M>(rows: Seq<(S, Map<K, M>)>, kinds: Seq<K>) -> Option<K>
    decreases rows.len(),
{
    if rows.len() == 0 {
        None
    } else {
        match first_gap(rows.drop_last(), kinds) {
            Some(kind) => Some(kind),
            None => first_missing(rows.last().1, kinds, kinds.len()),
        }
    }
}

proof fn lemma_first_missing_stays<K, M>(row: Map<K, M>, kinds: Seq<K>, n: nat)
    requires
        n <= kinds.len(),
        first_missing(row, kinds, n) is Some,
    ensures
        first_missing(row, kinds, kinds.len()) == first_missing(row, kinds, n),
    decreases kinds.len() - n,
{
    if n < kinds.len() {
        lemma_first_missing_stays(row, kinds, (n + 1) as nat);
    }
}

proof fn lemma_first_gap_stays<S, K, M>(rows: Seq<(S, Map<K, M>)>, kinds: Seq<K>, n: int)
    requires
        0 <= n <= rows.len(),
        first_gap(rows.take(n), kinds) is Some,
    ensures
        first_gap(rows, kinds) == first_gap(rows.take(n), kinds),
    decreases rows.len() - n,
{
    if n == rows.len() {
        assert(rows.take(n) =~= rows);
    } else {
        assert(rows.take(n + 1).drop_last() =~= rows.take(n));
        lemma_first_gap_stays(rows, kinds, n + 1);
    }
}

proof fn lemma_none_missing<K, M>(row: Map<K, M>, kinds: Seq<K>, n: nat)
    requires
        n <= kinds.len(),
        first_missing(row, kinds, n) is None,
    ensures
        forall|j: int| 0 <= j < n ==> row.contains_key(#[trigger] kinds[j]),
    decreases n,
{
    if n > 0 {
        lemma_none_missing(row, kinds, (n - 1) as nat);
    }
}

/// Where nothing is missing, every row holds every event.
pub proof fn lemma_no_gap<S, K, M>(rows: Seq<(S, Map<K, M>)>, kinds: Seq<K>, i: int, j: int)
    requires
        first_gap(rows, kinds) is None,
        0 <= i < rows.len(),
        0 <= j < kinds.len(),
    ensures
        rows[i].1.contains_key(kinds[j]),
    decreases rows.len(),
{
    if i == rows.len() - 1 {
        lemma_none_missing(rows.last().1, kinds, kinds.len());
    } else {
        lemma_no_gap(rows.drop_last(), kinds, i, j);
    }
}

/// Whether every scope has a measurement.
pub open spec fn inhabited<S, K, M>(grid: Grid<S, K, M>) -> bool {
    forall|scope: S| #[trigger]
        grid.contains_key(scope) ==> exists|kind: K| #[trigger] grid[scope].contains_key(kind)
}

/// What is held of `kind`.
pub open spec fn held<K, M>(row: Map<K, M>, kind: K) -> Option<M> {
    if row.contains_key(kind) {
        Some(row[kind])
    } else {
        None
    }
}

proof fn lemma_overflow_stays<S, K: EventKind, M: Merge>(
    grid: Grid<S, K, M>,
    samples: Seq<Sample<S, K, M>>,
    n: int,
)
    requires
        0 <= n <= samples.len(),
        accumulated(grid, samples.take(n)) is None,
    ensures
        accumulated(grid, samples) is None,
    decreases samples.len() - n,
{
    if n == samples.len() {
        assert(samples.take(n) =~= samples);
    } else {
        assert(samples.take(n + 1).drop_last() =~= samples.take(n));
        lemma_overflow_stays(grid, samples, n + 1);
    }
}

/// Adding a measurement leaves what is held of every other scope and kind as it was.
pub proof fn adding_keeps_other_cells<S, K: EventKind, M: Merge>(
    grid: Grid<S, K, M>,
    sample: Sample<S, K, M>,
    scope: S,
    kind: K,
)
    requires
        scope != sample.scope || kind != sample.kind,
    ensures
        held(row_of(added(grid, sample), scope), kind) == held(row_of(grid, scope), kind),
{
}

/// Measurements of different scopes or kinds can be added in either order.
pub proof fn additions_commute<S, K: EventKind, M: Merge>(
    grid: Grid<S, K, M>,
    first: Sample<S, K, M>,
    second: Sample<S, K, M>,
)
    requires
        first.scope != second.scope || first.kind != second.kind,
    ensures
        addable(grid, first) && addable(added(grid, first), second) <==> addable(grid, second)
            && addable(added(grid, second), first),
        added(added(grid, first), second) == added(added(grid, second), first),
{
    let one = added(added(grid, first), second);
    let other = added(added(grid, second), first);
    assert forall|scope: S| #[trigger] one.contains_key(scope) implies one[scope]
        =~= other[scope] by {
    }
    assert(one =~= other);
}

/// Two measurements of one scope and kind are held as one: counts, ticks and running times are
/// summed and the interval of the first one is kept.
pub proof fn adding_twice_sums<S, K: EventKind>(
    grid: Grid<S, K, EventMeasurement>,
    scope: S,
    kind: K,
    first: EventMeasurement,
    second: EventMeasurement,
)
    requires
        kind.is_counted(),
        !row_of(grid, scope).contains_key(kind),
        first.fits(second),
    ensures
        accumulated(
            grid,
            seq![
                Sample { scope, kind, measurement: first },
                Sample { scope, kind, measurement: second },
            ],
        ) matches Some(after) && after[scope][kind] == (EventMeasurement {
            enabled_nanos: first.enabled_nanos,
            running_nanos: (first.running_nanos + second.running_nanos) as u128,
            ticks: (first.ticks + second.ticks) as u64,
            value: (first.value + second.value) as u64,
        }),
{
    let one = Sample { scope, kind, measurement: first };
    let two = Sample { scope, kind, measurement: second };
    let samples = seq![one, two];
    assert(samples.drop_last() =~= seq![one]);
    assert(seq![one].drop_last() =~= Seq::<Sample<S, K, EventMeasurement>>::empty());
    reveal_with_fuel(accumulated, 3);
}

} // verus!
