//! What a sample has measured once all of its slices were recorded.
use crate::accumulator::{self, Accumulator, EventKind, EventMeasurement, Grid, Merge, Sample};
use crate::error::CollectorError;
use crate::ordered_map::{self, Key};
use crate::schedule::{self, Slice};
use crate::units::{self, Clock, CounterUse, SliceReadings, Tally, Unit};
use vstd::prelude::*;

verus! {

/// Whether a slice that counts `kinds` in `scopes` leads from `before` to `after`: something is
/// held of an event in a scope where something was held before, where the slice counted it, and
/// nowhere else.
pub open spec fn extends<S, K, M>(
    before: Grid<S, K, M>,
    after: Grid<S, K, M>,
    scopes: spec_fn(S) -> bool,
    kinds: spec_fn(K) -> bool,
) -> bool {
    forall|scope: S, kind: K|
        (#[trigger] units::cell(after, scope, kind)) is Some <==> units::cell(
            before,
            scope,
            kind,
        ) is Some || (scopes(scope) && kinds(kind))
}

/// Whether one of the counters counts the event.
pub open spec fn occurs_in<K: EventKind>(kinds: Seq<Option<K>>, kind: K) -> bool {
    &&& kind.is_counted()
    &&& exists|j: int| 0 <= j < kinds.len() && (#[trigger] kinds[j]) == Some(kind)
}

/// Whether one of the samples is of the scope and the event.
pub open spec fn sampled<S, K, M>(samples: Seq<Sample<S, K, M>>, scope: S, kind: K) -> bool {
    exists|i: int|
        0 <= i < samples.len() && (#[trigger] samples[i]).scope == scope && samples[i].kind == kind
}

/// Recording a slice scope by scope extends the measurements by what its counters count.
pub proof fn record_by_scope_extends<S: Key, K: EventKind>(
    units: Seq<Unit<S>>,
    readings: SliceReadings,
    clock: Clock,
    tally: Tally,
    uses: Seq<CounterUse<K>>,
    held: Accumulator<S, K, EventMeasurement>,
    after: Accumulator<S, K, EventMeasurement>,
)
    requires
        units::is_record_by_scope(
            units,
            readings,
            clock,
            tally,
            uses,
            held,
            Ok::<Accumulator<S, K, EventMeasurement>, CollectorError>(after),
        ),
    ensures
        extends(
            held.grid(),
            after.grid(),
            |scope: S| units::has_scope(units, scope),
            |kind: K| units::has_kind(uses, kind),
        ),
{
}

/// Adding samples in turn extends the measurements by what they are samples of, as far as that is
/// counted.
pub proof fn accumulation_extends<S, K: EventKind, M: Merge>(
    grid: Grid<S, K, M>,
    samples: Seq<Sample<S, K, M>>,
    scope: S,
    kind: K,
)
    requires
        accumulator::accumulated(grid, samples) is Some,
    ensures
        units::cell(accumulator::accumulated(grid, samples)->0, scope, kind) is Some
            <==> units::cell(grid, scope, kind) is Some || (kind.is_counted() && sampled(
            samples,
            scope,
            kind,
        )),
    decreases samples.len(),
{
    if samples.len() > 0 {
        let front = samples.drop_last();
        let before = accumulator::accumulated(grid, front)->0;
        accumulation_extends(grid, front, scope, kind);
        units::lemma_added_cell(before, samples.last(), scope, kind);
        if sampled(front, scope, kind) {
            let i = choose|i: int|
                0 <= i < front.len() && (#[trigger] front[i]).scope == scope && front[i].kind
                    == kind;
            assert(samples[i] == front[i]);
        }
        if sampled(samples, scope, kind) && !sampled(front, scope, kind) {
            let i = choose|i: int|
                0 <= i < samples.len() && (#[trigger] samples[i]).scope == scope
                    && samples[i].kind == kind;
            if i < front.len() {
                assert(front[i] == samples[i]);
            }
        }
        if samples.last().scope == scope && samples.last().kind == kind {
            assert(samples[samples.len() - 1].scope == scope);
        }
    }
}

proof fn lemma_row_samples<S, K: EventKind>(
    unit_scope: S,
    values: Seq<u64>,
    base: int,
    kinds: Seq<Option<K>>,
    enabled_nanos: u128,
    running_nanos: u128,
    n: nat,
    scope: S,
    kind: K,
)
    requires
        n <= kinds.len(),
        kind.is_counted(),
    ensures
        sampled(
            units::unit_row(unit_scope, values, base, kinds, enabled_nanos, running_nanos, n),
            scope,
            kind,
        ) <==> unit_scope == scope && occurs_in(kinds.take(n as int), kind),
    decreases n,
{
    let row = units::unit_row(unit_scope, values, base, kinds, enabled_nanos, running_nanos, n);
    let now = kinds.take(n as int);
    if n > 0 {
        let m = (n - 1) as nat;
        let before = units::unit_row(
            unit_scope,
            values,
            base,
            kinds,
            enabled_nanos,
            running_nanos,
            m,
        );
        let earlier = kinds.take(m as int);
        lemma_row_samples(
            unit_scope,
            values,
            base,
            kinds,
            enabled_nanos,
            running_nanos,
            m,
            scope,
            kind,
        );
        if sampled(before, scope, kind) {
            let i = choose|i: int|
                0 <= i < before.len() && (#[trigger] before[i]).scope == scope && before[i].kind
                    == kind;
            assert(row[i] == before[i]);
            let j = choose|j: int| 0 <= j < earlier.len() && (#[trigger] earlier[j]) == Some(kind);
            assert(now[j] == earlier[j]);
        }
        if kinds[n - 1] == Some(kind) && unit_scope == scope {
            assert(row[row.len() - 1].scope == scope);
            assert(now[n - 1] == Some(kind));
        }
        if sampled(row, scope, kind) && !sampled(before, scope, kind) {
            let i = choose|i: int|
                0 <= i < row.len() && (#[trigger] row[i]).scope == scope && row[i].kind == kind;
            if i < before.len() {
                assert(before[i] == row[i]);
            }
            assert(now[n - 1] == Some(kind));
        }
        if unit_scope == scope && occurs_in(now, kind) && !occurs_in(earlier, kind) {
            let j = choose|j: int| 0 <= j < now.len() && (#[trigger] now[j]) == Some(kind);
            if j < earlier.len() {
                assert(earlier[j] == now[j]);
            }
        }
    }
}

/// What the samples of a slice are samples of.
pub proof fn lemma_samples_of_units<S, K: EventKind>(
    units: Seq<Unit<S>>,
    values: Seq<u64>,
    kinds: Seq<Option<K>>,
    enabled_nanos: u128,
    running_nanos: u128,
    scope: S,
    kind: K,
)
    requires
        kind.is_counted(),
    ensures
        sampled(
            units::unit_samples(units, values, kinds, enabled_nanos, running_nanos),
            scope,
            kind,
        ) <==> units::has_scope(units, scope) && occurs_in(kinds, kind),
    decreases units.len(),
{
    let all = units::unit_samples(units, values, kinds, enabled_nanos, running_nanos);
    if units.len() > 0 {
        let front = units.drop_last();
        let before = units::unit_samples(front, values, kinds, enabled_nanos, running_nanos);
        let row = units::unit_row(
            units.last().scope,
            values,
            (units.len() - 1) * kinds.len(),
            kinds,
            enabled_nanos,
            running_nanos,
            kinds.len(),
        );
        lemma_samples_of_units(front, values, kinds, enabled_nanos, running_nanos, scope, kind);
        lemma_row_samples(
            units.last().scope,
            values,
            (units.len() - 1) * kinds.len(),
            kinds,
            enabled_nanos,
            running_nanos,
            kinds.len(),
            scope,
            kind,
        );
        assert(kinds.take(kinds.len() as int) =~= kinds);
        lemma_sampled_together(before, row, scope, kind);
        lemma_scopes_together(units, scope);
    }
}

/// What two lists of samples are samples of together.
pub proof fn lemma_sampled_together<S, K, M>(
    first: Seq<Sample<S, K, M>>,
    second: Seq<Sample<S, K, M>>,
    scope: S,
    kind: K,
)
    ensures
        sampled(first + second, scope, kind) <==> sampled(first, scope, kind) || sampled(
            second,
            scope,
            kind,
        ),
{
    let all = first + second;
    if sampled(first, scope, kind) {
        let i = choose|i: int|
            0 <= i < first.len() && (#[trigger] first[i]).scope == scope && first[i].kind == kind;
        assert(all[i] == first[i]);
    }
    if sampled(second, scope, kind) {
        let i = choose|i: int|
            0 <= i < second.len() && (#[trigger] second[i]).scope == scope && second[i].kind
                == kind;
        assert(all[first.len() + i] == second[i]);
    }
    if sampled(all, scope, kind) {
        let i = choose|i: int|
            0 <= i < all.len() && (#[trigger] all[i]).scope == scope && all[i].kind == kind;
        if i < first.len() {
            assert(first[i] == all[i]);
        } else {
            assert(second[i - first.len()] == all[i]);
        }
    }
}

/// A list of units has the scopes of the units before the last one and that of the last one.
pub proof fn lemma_scopes_together<S>(units: Seq<Unit<S>>, scope: S)
    requires
        units.len() > 0,
    ensures
        units::has_scope(units, scope) <==> units::has_scope(units.drop_last(), scope)
            || units.last().scope == scope,
{
    let front = units.drop_last();
    if units::has_scope(front, scope) {
        let i = choose|i: int| 0 <= i < front.len() && (#[trigger] front[i]).scope == scope;
        assert(units[i] == front[i]);
    }
    if units.last().scope == scope {
        assert(units[units.len() - 1].scope == scope);
    }
    if units::has_scope(units, scope) {
        let i = choose|i: int| 0 <= i < units.len() && (#[trigger] units[i]).scope == scope;
        if i < front.len() {
            assert(front[i] == units[i]);
        }
    }
}

/// Recording a slice counter by counter extends the measurements by what its counters count.
pub proof fn record_by_unit_extends<S: Key, K: EventKind>(
    units: Seq<Unit<S>>,
    readings: SliceReadings,
    kinds: Seq<Option<K>>,
    held: Accumulator<S, K, EventMeasurement>,
    after: Accumulator<S, K, EventMeasurement>,
)
    requires
        units::is_record_by_unit(
            units,
            readings,
            kinds,
            held,
            Ok::<Accumulator<S, K, EventMeasurement>, CollectorError>(after),
        ),
    ensures
        extends(
            held.grid(),
            after.grid(),
            |scope: S| units::has_scope(units, scope),
            |kind: K| occurs_in(kinds, kind),
        ),
{
    let samples = units::unit_samples(
        units,
        readings.values@,
        kinds,
        readings.enabled_nanos,
        readings.running_nanos,
    );
    assert forall|scope: S, kind: K|
        (#[trigger] units::cell(after.grid(), scope, kind)) is Some <==> units::cell(
            held.grid(),
            scope,
            kind,
        ) is Some || (units::has_scope(units, scope) && occurs_in(kinds, kind)) by {
        accumulation_extends(held.grid(), samples, scope, kind);
        if kind.is_counted() {
            lemma_samples_of_units(
                units,
                readings.values@,
                kinds,
                readings.enabled_nanos,
                readings.running_nanos,
                scope,
                kind,
            );
        }
    }
}

/// Whether `grids` are the measurements from slice to slice: nothing at first, and then after
/// slice `i`, which counts what `counted` says, those of before extended.
pub open spec fn is_course<S, K, M>(
    grids: Seq<Grid<S, K, M>>,
    scopes: spec_fn(S) -> bool,
    counted: spec_fn(int, K) -> bool,
) -> bool {
    &&& grids.len() > 0
    &&& grids[0] == Map::<S, Map<K, M>>::empty()
    &&& forall|i: int|
        0 <= i < grids.len() - 1 ==> extends(
            #[trigger] grids[i],
            grids[i + 1],
            scopes,
            |kind: K| counted(i, kind),
        )
}

/// After `n` slices something is held of an event in a scope if and only if the scope has units
/// and one of the slices counted the event.
pub proof fn course_holds_what_was_counted<S, K, M>(
    grids: Seq<Grid<S, K, M>>,
    scopes: spec_fn(S) -> bool,
    counted: spec_fn(int, K) -> bool,
    n: int,
    scope: S,
    kind: K,
)
    requires
        is_course(grids, scopes, counted),
        0 <= n < grids.len(),
    ensures
        units::cell(grids[n], scope, kind) is Some <==> scopes(scope) && exists|i: int|
            0 <= i < n && #[trigger] counted(i, kind),
    decreases n,
{
    if n > 0 {
        course_holds_what_was_counted(grids, scopes, counted, n - 1, scope, kind);
        assert(extends(grids[n - 1], grids[n - 1 + 1], scopes, |k: K| counted(n - 1, k)));
        assert(units::cell(grids[n], scope, kind) is Some <==> units::cell(
            grids[n - 1],
            scope,
            kind,
        ) is Some || (scopes(scope) && counted(n - 1, kind)));
    }
}

/// Where a row holds every event, none is missing.
pub proof fn lemma_nothing_missing<K, M>(row: Map<K, M>, kinds: Seq<K>, n: nat)
    requires
        n <= kinds.len(),
        forall|j: int| 0 <= j < kinds.len() ==> row.contains_key(#[trigger] kinds[j]),
    ensures
        accumulator::first_missing(row, kinds, n) is None,
    decreases n,
{
    if n > 0 {
        lemma_nothing_missing(row, kinds, (n - 1) as nat);
        assert(row.contains_key(kinds[n - 1]));
    }
}

proof fn lemma_full_rows<S, K, M>(rows: Seq<(S, Map<K, M>)>, kinds: Seq<K>)
    requires
        forall|i: int, j: int|
            0 <= i < rows.len() && 0 <= j < kinds.len() ==> (#[trigger] rows[i]).1.contains_key(
                #[trigger] kinds[j],
            ),
    ensures
        accumulator::first_gap(rows, kinds) is None,
    decreases rows.len(),
{
    if rows.len() > 0 {
        let front = rows.drop_last();
        assert forall|i: int, j: int|
            0 <= i < front.len() && 0 <= j < kinds.len() implies (
        #[trigger] front[i]).1.contains_key(#[trigger] kinds[j]) by {
            assert(front[i] == rows[i]);
            assert(rows[i].1.contains_key(kinds[j]));
        }
        lemma_full_rows(front, kinds);
        let last = rows.len() - 1;
        assert forall|j: int| 0 <= j < kinds.len() implies rows[last].1.contains_key(
            #[trigger] kinds[j],
        ) by {
            assert(rows[last].1.contains_key(kinds[j]));
        }
        lemma_nothing_missing(rows.last().1, kinds, kinds.len());
    }
}

/// Where every event that is needed was counted by some slice, no scope lacks one: a sample that
/// ran to its end leaves no gap.
pub proof fn complete_course_has_no_gap<S: Key, K: Key, M: Copy>(
    measurements: Accumulator<S, K, M>,
    grids: Seq<Grid<S, K, M>>,
    scopes: spec_fn(S) -> bool,
    counted: spec_fn(int, K) -> bool,
    required: Seq<K>,
)
    requires
        measurements.wf(),
        is_course(grids, scopes, counted),
        grids.last() == measurements.grid(),
        forall|j: int|
            0 <= j < required.len() ==> exists|i: int|
                0 <= i < grids.len() - 1 && #[trigger] counted(i, #[trigger] required[j]),
    ensures
        accumulator::first_gap(measurements.rows(), required) is None,
        required.len() > 0 ==> forall|scope: S|
            measurements.grid().contains_key(scope) <==> #[trigger] scopes(scope),
{
    let n = grids.len() - 1;
    let grid = measurements.grid();
    let rows = measurements.rows();
    assert forall|i: int, j: int| 0 <= i < rows.len() && 0 <= j < required.len() implies (
    #[trigger] rows[i]).1.contains_key(#[trigger] required[j]) by {
        ordered_map::lemma_entry_at(rows, i);
        let scope = rows[i].0;
        assert(grid.contains_key(scope));
        let kind = choose|kind: K| #[trigger] grid[scope].contains_key(kind);
        course_holds_what_was_counted(grids, scopes, counted, n, scope, kind);
        assert(units::cell(grid, scope, kind) is Some);
        course_holds_what_was_counted(grids, scopes, counted, n, scope, required[j]);
        let t = choose|t: int| 0 <= t < n && #[trigger] counted(t, required[j]);
        assert(units::cell(grid, scope, required[j]) is Some);
    }
    lemma_full_rows(rows, required);
    if required.len() > 0 {
        assert forall|scope: S| grid.contains_key(scope) <==> #[trigger] scopes(scope) by {
            let t = choose|t: int| 0 <= t < n && #[trigger] counted(t, required[0]);
            course_holds_what_was_counted(grids, scopes, counted, n, scope, required[0]);
            if grid.contains_key(scope) {
                let kind = choose|kind: K| #[trigger] grid[scope].contains_key(kind);
                course_holds_what_was_counted(grids, scopes, counted, n, scope, kind);
                assert(units::cell(grid, scope, kind) is Some);
            }
        }
    }
}

/// The slice in which a group of a schedule has its first turn.
pub proof fn schedule_runs_group<G>(
    slices: Seq<Slice<G>>,
    groups: Seq<G>,
    next_group: int,
    interval_nanos: u128,
    rounds: nat,
    group: int,
) -> (slice: int)
    requires
        schedule::is_schedule(slices, groups, next_group, interval_nanos, rounds),
        0 <= next_group < groups.len(),
        rounds > 0,
        0 <= group < groups.len(),
    ensures
        0 <= slice < slices.len(),
        slices[slice].group == groups[group],
{
    let turn = schedule::round_runs_every_group_once(
        next_group,
        groups.len() as int,
        0,
        group,
    );
    assert(groups.len() <= groups.len() * rounds) by (nonlinear_arith)
        requires
            rounds > 0,
    ;
    assert(0 * groups.len() + turn == turn);
    turn
}

} // verus!
