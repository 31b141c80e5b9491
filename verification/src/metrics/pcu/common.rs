//! What the collectors of power control units share.
use crate::accumulator::{self, Accumulator, EventKind, Grid, Merge, Overflow, Sample};
use crate::completeness;
use crate::counter;
use crate::error::CollectorError;
use crate::export::{GaugeUpdate, Labels};
use crate::metrics::pcu::{
    self, PcuClockMetrics, PcuCoreCState, PcuCoreCStateMetrics, PcuCycleRatioMetrics,
    PcuFrequencyLimitMetrics, PcuFrequencyLimitReason, PcuPackageCStateMetrics,
    PcuThermalThrottleSource,
};
use crate::ordered_map::{self, Key, OrderedMap};
use crate::quantity::{self, ScaledCount};
use crate::schedule::{Slice, SliceShare, MAX_SPAN_NANOS};
use crate::seqs;
use crate::units::{self, Unit};
use vstd::arithmetic::div_mod::*;
use vstd::prelude::*;

verus! {

/// What is counted in a power control unit.
#[derive(Clone, Copy, Debug, PartialEq, Eq, Structural)]
pub enum PcuEventKind {
    Clockticks,
    CoreCState(PcuCoreCState),
    FrequencyLimit(PcuFrequencyLimitReason),
    FrequencyTransition,
    MemoryPhaseShedding,
    PackageCState(PcuCoreCState),
    ThermalThrottle(PcuThermalThrottleSource),
    Unused,
}

/// The place of an event in the order of the events.
pub open spec fn kind_index(kind: PcuEventKind) -> int {
    match kind {
        PcuEventKind::Clockticks => 0,
        PcuEventKind::CoreCState(state) => 1 + pcu::state_index(state),
        PcuEventKind::FrequencyLimit(reason) => 4 + pcu::reason_index(reason),
        PcuEventKind::FrequencyTransition => 10,
        PcuEventKind::MemoryPhaseShedding => 11,
        PcuEventKind::PackageCState(state) => 12 + pcu::state_index(state),
        PcuEventKind::ThermalThrottle(source) => 15 + pcu::source_index(source),
        PcuEventKind::Unused => 18,
    }
}

impl PcuEventKind {
    fn index(self) -> (index: u8)
        ensures
            index == kind_index(self),
    {
        match self {
            PcuEventKind::Clockticks => 0,
            PcuEventKind::CoreCState(state) => 1 + state.index(),
            PcuEventKind::FrequencyLimit(reason) => 4 + reason.index(),
            PcuEventKind::FrequencyTransition => 10,
            PcuEventKind::MemoryPhaseShedding => 11,
            PcuEventKind::PackageCState(state) => 12 + state.index(),
            PcuEventKind::ThermalThrottle(source) => 15 + source.index(),
            PcuEventKind::Unused => 18,
        }
    }
}

impl Key for PcuEventKind {
    open spec fn rank(self) -> int {
        kind_index(self)
    }

    proof fn rank_injective(a: Self, b: Self) {
    }

    fn precedes(&self, other: &Self) -> (result: bool) {
        self.index() < other.index()
    }
}

impl EventKind for PcuEventKind {
    open spec fn is_counted(self) -> bool {
        true
    }

    fn counts(&self) -> (result: bool) {
        true
    }
}

/// What one event counted: for how long the counters ran, how many clock ticks went by, and the
/// count.
#[derive(Clone, Copy, Debug, PartialEq, Eq, Structural)]
pub struct PcuMeasurement {
    pub running_nanos: u128,
    pub ticks: u64,
    pub value: u64,
}

impl Merge for PcuMeasurement {
    open spec fn fits(self, other: Self) -> bool {
        &&& self.running_nanos + other.running_nanos <= MAX_SPAN_NANOS
        &&& self.ticks + other.ticks <= u64::MAX
        &&& self.value + other.value <= u64::MAX
    }

    open spec fn merged(self, other: Self) -> Self {
        PcuMeasurement {
            running_nanos: (self.running_nanos + other.running_nanos) as u128,
            ticks: (self.ticks + other.ticks) as u64,
            value: (self.value + other.value) as u64,
        }
    }

    fn merge(&self, other: &Self) -> (result: Option<Self>) {
        let running: Option<u128> = self.running_nanos.checked_add(other.running_nanos);
        let ticks: Option<u64> = self.ticks.checked_add(other.ticks);
        let value: Option<u64> = self.value.checked_add(other.value);
        match (running, ticks, value) {
            (Some(running_nanos), Some(ticks), Some(value)) => {
                if running_nanos <= MAX_SPAN_NANOS {
                    Some(PcuMeasurement { running_nanos, ticks, value })
                } else {
                    None
                }
            },
            _ => None,
        }
    }
}

/// A scope of a power control unit.
pub trait PcuPlace: Key {
    /// The labels of the scope.
    spec fn place_labels(self) -> Labels;

    /// The error for a scope without clock ticks.
    spec fn clock_error(self) -> CollectorError;

    /// The labels of the scope.
    fn labels(&self) -> (labels: Labels)
        ensures
            labels == self.place_labels(),
    ;

    /// The error for a scope without clock ticks.
    fn missing_clock(&self) -> (error: CollectorError)
        ensures
            error == self.clock_error(),
    ;
}

/// Measurements by scope, in scope order.
pub type Rows<S> = Seq<(S, Map<PcuEventKind, PcuMeasurement>)>;

/// The clock ticks of a scope over the slice in which they were counted.
#[derive(Clone, Copy, Debug, PartialEq, Eq, Structural)]
pub struct ClockEstimate {
    pub running_nanos: u128,
    pub ticks: u64,
}

/// The ticks that go by in `running_nanos` where they go by as in the estimate; none where the
/// clock did not run.
pub open spec fn ticks_over(estimate: ClockEstimate, running_nanos: u128) -> ScaledCount {
    if estimate.running_nanos == 0 {
        quantity::no_count()
    } else {
        ScaledCount {
            value: estimate.ticks,
            enabled_nanos: running_nanos,
            running_nanos: estimate.running_nanos,
        }
    }
}

impl ClockEstimate {
    /// The ticks that go by in `running_nanos`.
    pub fn ticks_for(self, running_nanos: u128) -> (ticks: ScaledCount)
        ensures
            ticks == ticks_over(self, running_nanos),
    {
        if self.running_nanos == 0 {
            ScaledCount::none()
        } else {
            ScaledCount {
                value: self.ticks,
                enabled_nanos: running_nanos,
                running_nanos: self.running_nanos,
            }
        }
    }
}

/// The clock of a scope, by what was counted of it.
pub open spec fn clock_of(row: Map<PcuEventKind, PcuMeasurement>) -> ClockEstimate {
    ClockEstimate {
        running_nanos: row[PcuEventKind::Clockticks].running_nanos,
        ticks: row[PcuEventKind::Clockticks].value,
    }
}

/// The clocks of all scopes.
pub open spec fn clocks_of<S>(
    grid: Grid<S, PcuEventKind, PcuMeasurement>,
) -> Map<S, ClockEstimate> {
    Map::new(|scope: S| grid.contains_key(scope), |scope: S| clock_of(grid[scope]))
}

/// The events that every scope must have counted: the clock ticks.
pub open spec fn required_events() -> Seq<PcuEventKind> {
    seq![PcuEventKind::Clockticks]
}

/// The error where the clock ticks of a scope were not counted.
pub open spec fn no_clockticks() -> CollectorError {
    CollectorError::MissingMeasurement { unit: "PCU", event: "Clockticks" }
}

/// Takes the clocks of all scopes from what was counted; an error where the clock ticks of a scope
/// were not counted.
pub fn clock_estimates<S: Key>(
    measurements: &Accumulator<S, PcuEventKind, PcuMeasurement>,
) -> (result: Result<OrderedMap<S, ClockEstimate>, CollectorError>)
    requires
        measurements.wf(),
    ensures
        match accumulator::first_gap(measurements.rows(), required_events()) {
            Some(_) => result matches Err(error) && error == no_clockticks(),
            None => result matches Ok(map) && map.wf() && map@ == clocks_of(measurements.grid()),
        },
{
    let kinds: Vec<PcuEventKind> = vec![PcuEventKind::Clockticks];
    assert(kinds@ =~= required_events());
    if measurements.find_gap(&kinds).is_some() {
        return Err(CollectorError::MissingMeasurement { unit: "PCU", event: "Clockticks" });
    }
    let ghost rows = measurements.rows();
    let mut estimates: OrderedMap<S, ClockEstimate> = OrderedMap::new();
    let mut i: usize = 0;
    while i < measurements.len()
        invariant
            measurements.wf(),
            rows == measurements.rows(),
            accumulator::first_gap(rows, required_events()) is None,
            i <= rows.len(),
            estimates.wf(),
            forall|k: int|
                0 <= k < i ==> estimates@.contains_key((#[trigger] rows[k]).0)
                    && estimates@[rows[k].0] == clock_of(rows[k].1),
            forall|scope: S| #[trigger]
                estimates@.contains_key(scope) ==> exists|k: int|
                    0 <= k < i && (#[trigger] rows[k]).0 == scope,
        decreases rows.len() - i,
    {
        proof {
            accumulator::lemma_no_gap(rows, required_events(), i as int, 0);
            assert(required_events()[0] == PcuEventKind::Clockticks);
        }
        let scope = measurements.scope_at(i);
        let clockticks = measurements.require(i, PcuEventKind::Clockticks);
        let ghost before = estimates@;
        estimates.insert(
            scope,
            ClockEstimate { running_nanos: clockticks.running_nanos, ticks: clockticks.value },
        );
        proof {
            assert forall|k: int| 0 <= k < i + 1 implies estimates@.contains_key(
                (#[trigger] rows[k]).0,
            ) && estimates@[rows[k].0] == clock_of(rows[k].1) by {
                if k < i {
                    assert(rows[k].0.rank() < rows[i as int].0.rank());
                }
            }
            assert forall|other: S| #[trigger] estimates@.contains_key(other) implies exists|
                k: int,
            | 0 <= k < i + 1 && (#[trigger] rows[k]).0 == other by {
                if other == scope {
                    assert(rows[i as int].0 == other);
                } else {
                    assert(before.contains_key(other));
                }
            }
        }
        i += 1;
    }
    proof {
        let grid = measurements.grid();
        assert forall|scope: S| estimates@.contains_key(scope) == grid.contains_key(scope) by {
            if estimates@.contains_key(scope) {
                let k = choose|k: int| 0 <= k < rows.len() && (#[trigger] rows[k]).0 == scope;
                ordered_map::lemma_entry_at(rows, k);
            }
            if grid.contains_key(scope) {
                let k = ordered_map::position(rows, scope);
                assert(ordered_map::occurs(rows, scope));
                assert(rows[k].0 == scope);
            }
        }
        assert forall|scope: S| #[trigger] estimates@.contains_key(scope) implies estimates@[scope]
            == clock_of(grid[scope]) by {
            let k = choose|k: int| 0 <= k < rows.len() && (#[trigger] rows[k]).0 == scope;
            ordered_map::lemma_entry_at(rows, k);
        }
        assert(estimates@ =~= clocks_of(grid));
    }
    Ok(estimates)
}

/// Whether `result` holds the ticks that go by in `running_nanos` in the scope of each unit, in unit
/// order. It is an error where the clock of a scope is not known.
pub open spec fn is_estimate<S: PcuPlace>(
    units: Seq<Unit<S>>,
    estimates: Map<S, ClockEstimate>,
    running_nanos: u128,
    result: Result<Vec<ScaledCount>, CollectorError>,
) -> bool {
    match result {
        Ok(ticks) => {
            &&& ticks@.len() == units.len()
            &&& forall|i: int|
                0 <= i < units.len() ==> estimates.contains_key((#[trigger] units[i]).scope)
                    && ticks@[i] == ticks_over(estimates[units[i].scope], running_nanos)
        },
        Err(error) => exists|i: int|
            {
                &&& 0 <= i < units.len()
                &&& !estimates.contains_key((#[trigger] units[i]).scope)
                &&& forall|k: int|
                    0 <= k < i ==> estimates.contains_key((#[trigger] units[k]).scope)
                &&& error == units[i].scope.clock_error()
            },
    }
}

/// The ticks that go by in `running_nanos` in the scope of each unit, in unit order.
pub fn estimated_ticks<S: PcuPlace>(
    units: &Vec<Unit<S>>,
    estimates: &OrderedMap<S, ClockEstimate>,
    running_nanos: u128,
) -> (result: Result<Vec<ScaledCount>, CollectorError>)
    requires
        estimates.wf(),
    ensures
        is_estimate(units@, estimates@, running_nanos, result),
{
    let mut ticks: Vec<ScaledCount> = Vec::new();
    let mut i: usize = 0;
    while i < units.len()
        invariant
            i <= units@.len(),
            estimates.wf(),
            ticks@.len() == i,
            forall|k: int|
                0 <= k < i ==> estimates@.contains_key((#[trigger] units@[k]).scope) && ticks@[k]
                    == ticks_over(estimates@[units@[k].scope], running_nanos),
        decreases units@.len() - i,
    {
        match estimates.get(&units[i].scope) {
            Some(estimate) => {
                ticks.push(estimate.ticks_for(running_nanos));
            },
            None => {
                assert(!estimates@.contains_key(units@[i as int].scope));
                return Err(units[i].scope.missing_clock());
            },
        }
        i += 1;
    }
    Ok(ticks)
}

/// The readings of a slice: for each unit the counters that are used, unit by unit.
#[derive(Debug)]
pub struct PcuReadings {
    pub values: Vec<u64>,
    pub running_nanos: u128,
}

/// The values of counter registers of which the low 48 bits count.
pub open spec fn masked(values: Seq<u64>) -> Seq<u64> {
    values.map_values(|value: u64| units::counted(value))
}

/// Keeps the low 48 bits of every value.
pub fn mask_values(values: &Vec<u64>) -> (kept: Vec<u64>)
    ensures
        kept@ == masked(values@),
{
    let mut kept: Vec<u64> = Vec::new();
    let mut i: usize = 0;
    while i < values.len()
        invariant
            i <= values@.len(),
            kept@.len() == i,
            forall|k: int| 0 <= k < i ==> (#[trigger] kept@[k]) == units::counted(values@[k]),
        decreases values@.len() - i,
    {
        kept.push(counter::mask_counter(values[i]));
        i += 1;
    }
    assert(kept@ =~= masked(values@));
    kept
}

/// The last of the first `n` counters that counts clock ticks.
pub open spec fn clock_place(kinds: Seq<PcuEventKind>, n: nat) -> Option<int>
    decreases n,
{
    if n == 0 {
        None
    } else if kinds[n - 1] == PcuEventKind::Clockticks {
        Some(n - 1)
    } else {
        clock_place(kinds, (n - 1) as nat)
    }
}

fn find_clock(kinds: &Vec<PcuEventKind>) -> (place: Option<usize>)
    ensures
        match place {
            Some(place) => clock_place(kinds@, kinds@.len()) == Some(place as int) && place
                < kinds@.len(),
            None => clock_place(kinds@, kinds@.len()) is None,
        },
{
    let mut place: Option<usize> = None;
    let mut j: usize = 0;
    while j < kinds.len()
        invariant
            j <= kinds@.len(),
            match place {
                Some(place) => clock_place(kinds@, j as nat) == Some(place as int) && place < j,
                None => clock_place(kinds@, j as nat) is None,
            },
        decreases kinds@.len() - j,
    {
        match kinds[j] {
            PcuEventKind::Clockticks => {
                place = Some(j);
            },
            _ => {},
        }
        j += 1;
    }
    place
}

/// The clock ticks of a slice in a unit: those that it counted, where the clock is among its
/// events, and else those that were estimated.
pub open spec fn ticks_of(
    values: Seq<u64>,
    base: int,
    kinds: Seq<PcuEventKind>,
    estimated: u64,
) -> u64 {
    match clock_place(kinds, kinds.len()) {
        Some(place) => values[base + place],
        None => estimated,
    }
}

/// Whether no counter after counter `j` counts the same event.
pub open spec fn counts_last(kinds: Seq<PcuEventKind>, j: int) -> bool {
    forall|k: int| j < k < kinds.len() ==> (#[trigger] kinds[k]) != kinds[j]
}

fn is_counted_last(kinds: &Vec<PcuEventKind>, j: usize) -> (last: bool)
    requires
        j < kinds@.len(),
    ensures
        last == counts_last(kinds@, j as int),
{
    let count: usize = kinds.len();
    let mut k: usize = j + 1;
    while k < count
        invariant
            j < k <= count == kinds@.len(),
            forall|i: int| j < i < k ==> (#[trigger] kinds@[i]) != kinds@[j as int],
        decreases count - k,
    {
        if kinds[k] == kinds[j] {
            return false;
        }
        k += 1;
    }
    true
}

/// What the first `n` counters of a unit measured. Where several counters count one event, the
/// last of them stands for it.
pub open spec fn unit_row<S>(
    scope: S,
    values: Seq<u64>,
    base: int,
    kinds: Seq<PcuEventKind>,
    ticks: u64,
    running_nanos: u128,
    n: nat,
) -> Seq<Sample<S, PcuEventKind, PcuMeasurement>>
    decreases n,
{
    if n == 0 {
        Seq::empty()
    } else {
        let before = unit_row(scope, values, base, kinds, ticks, running_nanos, (n - 1) as nat);
        if counts_last(kinds, n - 1) {
            before.push(
                Sample {
                    scope,
                    kind: kinds[n - 1],
                    measurement: PcuMeasurement {
                        running_nanos,
                        ticks,
                        value: values[base + n - 1],
                    },
                },
            )
        } else {
            before
        }
    }
}

/// What the counters of the units measured in a slice, unit by unit.
pub open spec fn unit_samples<S>(
    units: Seq<Unit<S>>,
    values: Seq<u64>,
    kinds: Seq<PcuEventKind>,
    estimated: Seq<u64>,
    running_nanos: u128,
) -> Seq<Sample<S, PcuEventKind, PcuMeasurement>>
    decreases units.len(),
{
    if units.len() == 0 {
        Seq::empty()
    } else {
        let i = units.len() - 1;
        unit_samples(units.drop_last(), values, kinds, estimated, running_nanos) + unit_row(
            units.last().scope,
            values,
            i * kinds.len(),
            kinds,
            ticks_of(values, i * kinds.len(), kinds, estimated[i]),
            running_nanos,
            kinds.len(),
        )
    }
}

/// Whether `result` is what `held` becomes when a slice is added event by event. It is an error
/// where there are not as many readings as the units hand in, where clock ticks are neither counted
/// nor estimated for each unit, and where a total does not fit.
pub open spec fn is_record<S: Key>(
    units: Seq<Unit<S>>,
    values: Seq<u64>,
    kinds: Seq<PcuEventKind>,
    estimated: Seq<u64>,
    running_nanos: u128,
    held: Accumulator<S, PcuEventKind, PcuMeasurement>,
    result: Result<Accumulator<S, PcuEventKind, PcuMeasurement>, CollectorError>,
) -> bool {
    if values.len() != units.len() * kinds.len() {
        result matches Err(error) && error == (CollectorError::ReadingCount {
            expected: kinds.len() as usize,
            found: values.len() as usize,
        })
    } else if clock_place(kinds, kinds.len()) is None && estimated.len() != units.len() {
        result matches Err(error) && error == (CollectorError::CountMismatch {
            what: "PCU clock estimates",
            found: estimated.len() as usize,
            expected: units.len() as usize,
        })
    } else {
        let samples = unit_samples(units, values, kinds, estimated, running_nanos);
        match accumulator::accumulated(held.grid(), samples) {
            Some(grid) => result matches Ok(after) && after.wf() && after.grid() == grid,
            None => result matches Err(error) && error == CollectorError::Overflow,
        }
    }
}

/// Adds a slice to what is held, event by event.
pub fn record<S: Key>(
    units: &Vec<Unit<S>>,
    values: &Vec<u64>,
    kinds: &Vec<PcuEventKind>,
    estimated: &Vec<u64>,
    running_nanos: u128,
    held: Accumulator<S, PcuEventKind, PcuMeasurement>,
) -> (result: Result<Accumulator<S, PcuEventKind, PcuMeasurement>, CollectorError>)
    requires
        held.wf(),
    ensures
        is_record(units@, values@, kinds@, estimated@, running_nanos, held, result),
{
    let width: usize = kinds.len();
    let expected: Option<usize> = units.len().checked_mul(width);
    let complete: bool = match expected {
        Some(expected) => expected == values.len(),
        None => false,
    };
    if !complete {
        return Err(CollectorError::ReadingCount { expected: width, found: values.len() });
    }
    let clock: Option<usize> = find_clock(kinds);
    if clock.is_none() && estimated.len() != units.len() {
        return Err(
            CollectorError::CountMismatch {
                what: "PCU clock estimates",
                found: estimated.len(),
                expected: units.len(),
            },
        );
    }
    let mut samples: Vec<Sample<S, PcuEventKind, PcuMeasurement>> = Vec::new();
    let mut i: usize = 0;
    assert(units@.take(0) =~= Seq::<Unit<S>>::empty());
    while i < units.len()
        invariant
            i <= units@.len(),
            width == kinds@.len(),
            values@.len() == units@.len() * width,
            values@.len() <= usize::MAX,
            match clock {
                Some(place) => clock_place(kinds@, kinds@.len()) == Some(place as int) && place
                    < width,
                None => clock_place(kinds@, kinds@.len()) is None && estimated@.len()
                    == units@.len(),
            },
            samples@ == unit_samples(
                units@.take(i as int),
                values@,
                kinds@,
                estimated@,
                running_nanos,
            ),
        decreases units@.len() - i,
    {
        assert(i * width + width <= units@.len() * width) by (nonlinear_arith)
            requires
                i < units@.len(),
                width >= 0,
        ;
        assert(i * width <= units@.len() * width) by (nonlinear_arith)
            requires
                i < units@.len(),
                width >= 0,
        ;
        let base: usize = i * width;
        let ticks: u64 = match clock {
            Some(place) => values[base + place],
            None => estimated[i],
        };
        let scope = units[i].scope;
        let ghost before = samples@;
        let mut j: usize = 0;
        while j < width
            invariant
                j <= width,
                width == kinds@.len(),
                base + width <= values@.len() <= usize::MAX,
                samples@ == before + unit_row(
                    scope,
                    values@,
                    base as int,
                    kinds@,
                    ticks,
                    running_nanos,
                    j as nat,
                ),
            decreases width - j,
        {
            if is_counted_last(kinds, j) {
                samples.push(
                    Sample {
                        scope,
                        kind: kinds[j],
                        measurement: PcuMeasurement {
                            running_nanos,
                            ticks,
                            value: values[base + j],
                        },
                    },
                );
            }
            assert(samples@ =~= before + unit_row(
                scope,
                values@,
                base as int,
                kinds@,
                ticks,
                running_nanos,
                (j + 1) as nat,
            ));
            j += 1;
        }
        proof {
            assert(units@.take(i + 1).drop_last() =~= units@.take(i as int));
            assert(base == i as int * kinds@.len() as int) by (nonlinear_arith)
                requires
                    base == i * width,
                    width == kinds@.len(),
            ;
        }
        i += 1;
    }
    assert(units@.take(i as int) =~= units@);
    match held.extend(&samples) {
        Ok(after) => Ok(after),
        Err(_) => Err(CollectorError::Overflow),
    }
}

/// Whether `slices` are the turns of a sample: the first group, which counts the clock, and then
/// the others in cyclic order from `next_group`, each with the same share of the interval.
pub open spec fn is_plan<G>(
    slices: Seq<Slice<G>>,
    groups: Seq<G>,
    next_group: int,
    interval_nanos: u128,
) -> bool {
    &&& slices.len() == groups.len()
    &&& slices[0].group == groups[0]
    &&& forall|i: int|
        1 <= i < slices.len() ==> (
            #[trigger] slices[i]
        ).group == groups[1 + (next_group + i - 1) % (
        groups.len() - 1)]
    &&& forall|i: int|
        0 <= i < slices.len() ==> (#[trigger] slices[i]).share == (SliceShare {
            interval_nanos,
            slice_count: groups.len() as usize,
        })
}

/// Gives the groups their turns.
pub fn plan<G: Copy>(groups: &Vec<G>, next_group: usize, interval_nanos: u128) -> (slices: Vec<
    Slice<G>,
>)
    requires
        groups@.len() > 1,
        next_group < groups@.len() - 1,
    ensures
        is_plan(slices@, groups@, next_group as int, interval_nanos),
{
    let others: usize = groups.len() - 1;
    let share = SliceShare { interval_nanos, slice_count: groups.len() };
    let mut slices: Vec<Slice<G>> = vec![Slice { share, group: groups[0] }];
    let mut offset: usize = 0;
    while offset < others
        invariant
            others == groups@.len() - 1,
            next_group < others,
            offset <= others,
            slices@.len() == offset + 1,
            share == (SliceShare { interval_nanos, slice_count: groups@.len() as usize }),
            slices@[0].group == groups@[0],
            forall|i: int|
                1 <= i < slices@.len() ==> (#[trigger] slices@[i]).group == groups@[1 + (next_group
                    + i - 1) % (groups@.len() - 1)],
            forall|i: int| 0 <= i < slices@.len() ==> (#[trigger] slices@[i]).share == share,
        decreases others - offset,
    {
        let room: usize = others - next_group;
        let index: usize = if offset < room {
            next_group + offset
        } else {
            offset - room
        };
        proof {
            let n = others as int;
            if offset < room {
                lemma_small_mod((next_group + offset) as nat, n as nat);
            } else {
                lemma_mod_add_multiples_vanish(offset - room, n);
                lemma_small_mod((offset - room) as nat, n as nat);
            }
        }
        slices.push(Slice { share, group: groups[1 + index] });
        offset += 1;
    }
    slices
}

/// A sample runs every group exactly once: the group at place `g` runs in the slice that is found,
/// and in no other.
pub proof fn plan_runs_every_group_once<G>(
    slices: Seq<Slice<G>>,
    groups: Seq<G>,
    next_group: int,
    interval_nanos: u128,
    g: int,
) -> (slice: int)
    requires
        is_plan(slices, groups, next_group, interval_nanos),
        groups.len() > 1,
        0 <= next_group < groups.len() - 1,
        0 <= g < groups.len(),
        forall|a: int, b: int| 0 <= a < b < groups.len() ==> groups[a] != groups[b],
    ensures
        0 <= slice < slices.len(),
        slices[slice].group == groups[g],
        forall|i: int|
            0 <= i < slices.len() && (#[trigger] slices[i]).group == groups[g] ==> i == slice,
{
    let n = groups.len() - 1;
    let slice = if g == 0 {
        0
    } else if g - 1 >= next_group {
        g - next_group
    } else {
        g - next_group + n
    };
    if g > 0 {
        let turn = next_group + slice - 1;
        if g - 1 >= next_group {
            lemma_small_mod(turn as nat, n as nat);
        } else {
            lemma_mod_add_multiples_vanish(g - 1, n);
            lemma_small_mod((g - 1) as nat, n as nat);
        }
    }
    assert forall|i: int| 0 <= i < slices.len() && (
        #[trigger] slices[i]
    ).group == groups[g] implies i
        == slice by {
        if i > 0 {
            let turn = next_group + i - 1;
            lemma_mod_bound(turn, n);
            assert(groups[1 + turn % n] == groups[g]);
            assert(1 + turn % n == g);
            if turn < n {
                lemma_small_mod(turn as nat, n as nat);
            } else {
                lemma_mod_add_multiples_vanish(turn - n, n);
                lemma_small_mod((turn - n) as nat, n as nat);
            }
        } else {
            assert(g == 0);
        }
    }
    slice
}

/// The frequencies of the clocks of all scopes.
pub open spec fn clock_list<S>(rows: Rows<S>) -> Seq<PcuClockMetrics<S>> {
    rows.map_values(
        |row: (S, Map<PcuEventKind, PcuMeasurement>)| PcuClockMetrics {
            frequency_hz: quantity::frequency_of(
                row.1[PcuEventKind::Clockticks].value,
                row.1[PcuEventKind::Clockticks].running_nanos,
            ),
            scope: row.0,
        },
    )
}

/// Reports the clocks of all scopes; an error where the clock ticks of a scope were not counted.
pub fn report_clocks<S: Key>(
    measurements: &Accumulator<S, PcuEventKind, PcuMeasurement>,
) -> (result: Result<Vec<PcuClockMetrics<S>>, CollectorError>)
    requires
        measurements.wf(),
    ensures
        match accumulator::first_gap(measurements.rows(), required_events()) {
            Some(_) => result matches Err(error) && error == no_clockticks(),
            None => result matches Ok(clocks) && clocks@ == clock_list(measurements.rows()),
        },
{
    let kinds: Vec<PcuEventKind> = vec![PcuEventKind::Clockticks];
    assert(kinds@ =~= required_events());
    if measurements.find_gap(&kinds).is_some() {
        return Err(CollectorError::MissingMeasurement { unit: "PCU", event: "Clockticks" });
    }
    let ghost rows = measurements.rows();
    let mut clocks: Vec<PcuClockMetrics<S>> = Vec::new();
    let mut i: usize = 0;
    while i < measurements.len()
        invariant
            measurements.wf(),
            rows == measurements.rows(),
            accumulator::first_gap(rows, required_events()) is None,
            i <= rows.len(),
            clocks@ == clock_list(rows).take(i as int),
        decreases rows.len() - i,
    {
        proof {
            accumulator::lemma_no_gap(rows, required_events(), i as int, 0);
            assert(required_events()[0] == PcuEventKind::Clockticks);
        }
        let scope = measurements.scope_at(i);
        let clockticks = measurements.require(i, PcuEventKind::Clockticks);
        clocks.push(
            PcuClockMetrics {
                frequency_hz: quantity::frequency(clockticks.value, clockticks.running_nanos),
                scope,
            },
        );
        assert(clocks@ =~= clock_list(rows).take(i + 1));
        i += 1;
    }
    assert(clock_list(rows).take(i as int) =~= clock_list(rows));
    Ok(clocks)
}

/// How many cores were in each of the first `n` C-states, on average, in a scope that counted it.
pub open spec fn core_state_row<S>(
    row: (S, Map<PcuEventKind, PcuMeasurement>),
    keys: Seq<PcuCoreCState>,
    n: nat,
) -> Seq<PcuCoreCStateMetrics<S>>
    decreases n,
{
    if n == 0 {
        Seq::empty()
    } else {
        let before = core_state_row(row, keys, (n - 1) as nat);
        let kind = PcuEventKind::CoreCState(keys[n - 1]);
        if row.1.contains_key(kind) {
            before.push(
                PcuCoreCStateMetrics {
                    average_cores: quantity::ratio_of(row.1[kind].value, row.1[kind].ticks),
                    c_state: keys[n - 1],
                    scope: row.0,
                },
            )
        } else {
            before
        }
    }
}

/// How many cores were in each C-state, scope by scope.
pub open spec fn core_state_list<S>(
    rows: Rows<S>,
    keys: Seq<PcuCoreCState>,
) -> Seq<PcuCoreCStateMetrics<S>> {
    seqs::flat_map(
        rows,
        |row: (S, Map<PcuEventKind, PcuMeasurement>)| core_state_row(row, keys, keys.len()),
    )
}

/// Reports how many cores were in each C-state.
pub fn report_core_states<S: Key>(
    measurements: &Accumulator<S, PcuEventKind, PcuMeasurement>,
    keys: &Vec<PcuCoreCState>,
) -> (list: Vec<PcuCoreCStateMetrics<S>>)
    requires
        measurements.wf(),
    ensures
        list@ == core_state_list(measurements.rows(), keys@),
{
    let ghost rows = measurements.rows();
    let ghost f = |row: (S, Map<PcuEventKind, PcuMeasurement>)|
        core_state_row(row, keys@, keys@.len());
    let mut list: Vec<PcuCoreCStateMetrics<S>> = Vec::new();
    let mut i: usize = 0;
    proof {
        seqs::lemma_flat_map_ends(rows, f);
    }
    while i < measurements.len()
        invariant
            measurements.wf(),
            rows == measurements.rows(),
            f == (|row: (S, Map<PcuEventKind, PcuMeasurement>)|
                core_state_row(row, keys@, keys@.len())),
            i <= rows.len(),
            list@ == seqs::flat_map(rows.take(i as int), f),
        decreases rows.len() - i,
    {
        let scope = measurements.scope_at(i);
        let ghost before = list@;
        let mut j: usize = 0;
        while j < keys.len()
            invariant
                measurements.wf(),
                rows == measurements.rows(),
                i < rows.len(),
                scope == rows[i as int].0,
                j <= keys@.len(),
                list@ == before + core_state_row(rows[i as int], keys@, j as nat),
            decreases keys@.len() - j,
        {
            match measurements.measurement_at(i, PcuEventKind::CoreCState(keys[j])) {
                Some(measurement) => {
                    list.push(
                        PcuCoreCStateMetrics {
                            average_cores: quantity::ratio(measurement.value, measurement.ticks),
                            c_state: keys[j],
                            scope,
                        },
                    );
                },
                None => {},
            }
            assert(list@ =~= before + core_state_row(rows[i as int], keys@, (j + 1) as nat));
            j += 1;
        }
        proof {
            seqs::lemma_flat_map_step(rows, f, i as int);
        }
        i += 1;
    }
    proof {
        seqs::lemma_flat_map_ends(rows, f);
    }
    list
}

/// For which part of the time each of the first `n` reasons limited the frequency, in a scope that
/// counted it.
pub open spec fn limit_row<S>(
    row: (S, Map<PcuEventKind, PcuMeasurement>),
    keys: Seq<PcuFrequencyLimitReason>,
    n: nat,
) -> Seq<PcuFrequencyLimitMetrics<S>>
    decreases n,
{
    if n == 0 {
        Seq::empty()
    } else {
        let before = limit_row(row, keys, (n - 1) as nat);
        let kind = PcuEventKind::FrequencyLimit(keys[n - 1]);
        if row.1.contains_key(kind) {
            before.push(
                PcuFrequencyLimitMetrics {
                    ratio: quantity::ratio_of(row.1[kind].value, row.1[kind].ticks),
                    reason: keys[n - 1],
                    scope: row.0,
                },
            )
        } else {
            before
        }
    }
}

/// For which part of the time each reason limited the frequency, scope by scope.
pub open spec fn limit_list<S>(
    rows: Rows<S>,
    keys: Seq<PcuFrequencyLimitReason>,
) -> Seq<PcuFrequencyLimitMetrics<S>> {
    seqs::flat_map(
        rows,
        |row: (S, Map<PcuEventKind, PcuMeasurement>)| limit_row(row, keys, keys.len()),
    )
}

/// Reports for which part of the time each reason limited the frequency.
pub fn report_limits<S: Key>(
    measurements: &Accumulator<S, PcuEventKind, PcuMeasurement>,
    keys: &Vec<PcuFrequencyLimitReason>,
) -> (list: Vec<PcuFrequencyLimitMetrics<S>>)
    requires
        measurements.wf(),
    ensures
        list@ == limit_list(measurements.rows(), keys@),
{
    let ghost rows = measurements.rows();
    let ghost f = |row: (S, Map<PcuEventKind, PcuMeasurement>)|
        limit_row(row, keys@, keys@.len());
    let mut list: Vec<PcuFrequencyLimitMetrics<S>> = Vec::new();
    let mut i: usize = 0;
    proof {
        seqs::lemma_flat_map_ends(rows, f);
    }
    while i < measurements.len()
        invariant
            measurements.wf(),
            rows == measurements.rows(),
            f == (|row: (S, Map<PcuEventKind, PcuMeasurement>)|
                limit_row(row, keys@, keys@.len())),
            i <= rows.len(),
            list@ == seqs::flat_map(rows.take(i as int), f),
        decreases rows.len() - i,
    {
        let scope = measurements.scope_at(i);
        let ghost before = list@;
        let mut j: usize = 0;
        while j < keys.len()
            invariant
                measurements.wf(),
                rows == measurements.rows(),
                i < rows.len(),
                scope == rows[i as int].0,
                j <= keys@.len(),
                list@ == before + limit_row(rows[i as int], keys@, j as nat),
            decreases keys@.len() - j,
        {
            match measurements.measurement_at(i, PcuEventKind::FrequencyLimit(keys[j])) {
                Some(measurement) => {
                    list.push(
                        PcuFrequencyLimitMetrics {
                            ratio: quantity::ratio(measurement.value, measurement.ticks),
                            reason: keys[j],
                            scope,
                        },
                    );
                },
                None => {},
            }
            assert(list@ =~= before + limit_row(rows[i as int], keys@, (j + 1) as nat));
            j += 1;
        }
        proof {
            seqs::lemma_flat_map_step(rows, f, i as int);
        }
        i += 1;
    }
    proof {
        seqs::lemma_flat_map_ends(rows, f);
    }
    list
}

/// For which part of the time the package was in each of the first `n` C-states, in a scope that
/// counted it.
pub open spec fn package_state_row<S>(
    row: (S, Map<PcuEventKind, PcuMeasurement>),
    keys: Seq<PcuCoreCState>,
    n: nat,
) -> Seq<PcuPackageCStateMetrics<S>>
    decreases n,
{
    if n == 0 {
        Seq::empty()
    } else {
        let before = package_state_row(row, keys, (n - 1) as nat);
        let kind = PcuEventKind::PackageCState(keys[n - 1]);
        if row.1.contains_key(kind) {
            before.push(
                PcuPackageCStateMetrics {
                    c_state: keys[n - 1],
                    ratio: quantity::ratio_of(row.1[kind].value, row.1[kind].ticks),
                    scope: row.0,
                },
            )
        } else {
            before
        }
    }
}

/// For which part of the time the package was in each C-state, scope by scope.
pub open spec fn package_state_list<S>(
    rows: Rows<S>,
    keys: Seq<PcuCoreCState>,
) -> Seq<PcuPackageCStateMetrics<S>> {
    seqs::flat_map(
        rows,
        |row: (S, Map<PcuEventKind, PcuMeasurement>)| package_state_row(row, keys, keys.len()),
    )
}

/// Reports for which part of the time the package was in each C-state.
pub fn report_package_states<S: Key>(
    measurements: &Accumulator<S, PcuEventKind, PcuMeasurement>,
    keys: &Vec<PcuCoreCState>,
) -> (list: Vec<PcuPackageCStateMetrics<S>>)
    requires
        measurements.wf(),
    ensures
        list@ == package_state_list(measurements.rows(), keys@),
{
    let ghost rows = measurements.rows();
    let ghost f = |row: (S, Map<PcuEventKind, PcuMeasurement>)|
        package_state_row(row, keys@, keys@.len());
    let mut list: Vec<PcuPackageCStateMetrics<S>> = Vec::new();
    let mut i: usize = 0;
    proof {
        seqs::lemma_flat_map_ends(rows, f);
    }
    while i < measurements.len()
        invariant
            measurements.wf(),
            rows == measurements.rows(),
            f == (|row: (S, Map<PcuEventKind, PcuMeasurement>)|
                package_state_row(row, keys@, keys@.len())),
            i <= rows.len(),
            list@ == seqs::flat_map(rows.take(i as int), f),
        decreases rows.len() - i,
    {
        let scope = measurements.scope_at(i);
        let ghost before = list@;
        let mut j: usize = 0;
        while j < keys.len()
            invariant
                measurements.wf(),
                rows == measurements.rows(),
                i < rows.len(),
                scope == rows[i as int].0,
                j <= keys@.len(),
                list@ == before + package_state_row(rows[i as int], keys@, j as nat),
            decreases keys@.len() - j,
        {
            match measurements.measurement_at(i, PcuEventKind::PackageCState(keys[j])) {
                Some(measurement) => {
                    list.push(
                        PcuPackageCStateMetrics {
                            c_state: keys[j],
                            ratio: quantity::ratio(measurement.value, measurement.ticks),
                            scope,
                        },
                    );
                },
                None => {},
            }
            assert(list@ =~= before + package_state_row(rows[i as int], keys@, (j + 1) as nat));
            j += 1;
        }
        proof {
            seqs::lemma_flat_map_step(rows, f, i as int);
        }
        i += 1;
    }
    proof {
        seqs::lemma_flat_map_ends(rows, f);
    }
    list
}

/// For which part of the time each of the first `n` sources throttled, in a scope that counted it.
pub open spec fn throttle_row<S>(
    row: (S, Map<PcuEventKind, PcuMeasurement>),
    keys: Seq<PcuThermalThrottleSource>,
    n: nat,
) -> Seq<PcuCycleRatioMetrics<S, PcuThermalThrottleSource>>
    decreases n,
{
    if n == 0 {
        Seq::empty()
    } else {
        let before = throttle_row(row, keys, (n - 1) as nat);
        let kind = PcuEventKind::ThermalThrottle(keys[n - 1]);
        if row.1.contains_key(kind) {
            before.push(
                PcuCycleRatioMetrics {
                    ratio: quantity::ratio_of(row.1[kind].value, row.1[kind].ticks),
                    scope: row.0,
                    source: keys[n - 1],
                },
            )
        } else {
            before
        }
    }
}

/// For which part of the time each source throttled, scope by scope.
pub open spec fn throttle_list<S>(
    rows: Rows<S>,
    keys: Seq<PcuThermalThrottleSource>,
) -> Seq<PcuCycleRatioMetrics<S, PcuThermalThrottleSource>> {
    seqs::flat_map(
        rows,
        |row: (S, Map<PcuEventKind, PcuMeasurement>)| throttle_row(row, keys, keys.len()),
    )
}

/// Reports for which part of the time each source throttled.
pub fn report_throttles<S: Key>(
    measurements: &Accumulator<S, PcuEventKind, PcuMeasurement>,
    keys: &Vec<PcuThermalThrottleSource>,
) -> (list: Vec<PcuCycleRatioMetrics<S, PcuThermalThrottleSource>>)
    requires
        measurements.wf(),
    ensures
        list@ == throttle_list(measurements.rows(), keys@),
{
    let ghost rows = measurements.rows();
    let ghost f = |row: (S, Map<PcuEventKind, PcuMeasurement>)|
        throttle_row(row, keys@, keys@.len());
    let mut list: Vec<PcuCycleRatioMetrics<S, PcuThermalThrottleSource>> = Vec::new();
    let mut i: usize = 0;
    proof {
        seqs::lemma_flat_map_ends(rows, f);
    }
    while i < measurements.len()
        invariant
            measurements.wf(),
            rows == measurements.rows(),
            f == (|row: (S, Map<PcuEventKind, PcuMeasurement>)|
                throttle_row(row, keys@, keys@.len())),
            i <= rows.len(),
            list@ == seqs::flat_map(rows.take(i as int), f),
        decreases rows.len() - i,
    {
        let scope = measurements.scope_at(i);
        let ghost before = list@;
        let mut j: usize = 0;
        while j < keys.len()
            invariant
                measurements.wf(),
                rows == measurements.rows(),
                i < rows.len(),
                scope == rows[i as int].0,
                j <= keys@.len(),
                list@ == before + throttle_row(rows[i as int], keys@, j as nat),
            decreases keys@.len() - j,
        {
            match measurements.measurement_at(i, PcuEventKind::ThermalThrottle(keys[j])) {
                Some(measurement) => {
                    list.push(
                        PcuCycleRatioMetrics {
                            ratio: quantity::ratio(measurement.value, measurement.ticks),
                            scope,
                            source: keys[j],
                        },
                    );
                },
                None => {},
            }
            assert(list@ =~= before + throttle_row(rows[i as int], keys@, (j + 1) as nat));
            j += 1;
        }
        proof {
            seqs::lemma_flat_map_step(rows, f, i as int);
        }
        i += 1;
    }
    proof {
        seqs::lemma_flat_map_ends(rows, f);
    }
    list
}

/// For which part of the time an event went on, in a scope that counted it.
pub open spec fn cycle_row<S>(
    row: (S, Map<PcuEventKind, PcuMeasurement>),
    kind: PcuEventKind,
    source: &'static str,
) -> Seq<PcuCycleRatioMetrics<S, &'static str>> {
    if row.1.contains_key(kind) {
        seq![
            PcuCycleRatioMetrics {
                ratio: quantity::ratio_of(row.1[kind].value, row.1[kind].ticks),
                scope: row.0,
                source,
            },
        ]
    } else {
        Seq::empty()
    }
}

/// For which part of the time an event went on, scope by scope.
pub open spec fn cycle_list<S>(
    rows: Rows<S>,
    kind: PcuEventKind,
    source: &'static str,
) -> Seq<PcuCycleRatioMetrics<S, &'static str>> {
    seqs::flat_map(
        rows,
        |row: (S, Map<PcuEventKind, PcuMeasurement>)| cycle_row(row, kind, source),
    )
}

/// Reports for which part of the time an event went on.
pub fn report_cycles<S: Key>(
    measurements: &Accumulator<S, PcuEventKind, PcuMeasurement>,
    kind: PcuEventKind,
    source: &'static str,
) -> (list: Vec<PcuCycleRatioMetrics<S, &'static str>>)
    requires
        measurements.wf(),
    ensures
        list@ == cycle_list(measurements.rows(), kind, source),
{
    let ghost rows = measurements.rows();
    let ghost f = |row: (S, Map<PcuEventKind, PcuMeasurement>)| cycle_row(row, kind, source);
    let mut list: Vec<PcuCycleRatioMetrics<S, &'static str>> = Vec::new();
    let mut i: usize = 0;
    proof {
        seqs::lemma_flat_map_ends(rows, f);
    }
    while i < measurements.len()
        invariant
            measurements.wf(),
            rows == measurements.rows(),
            f == (|row: (S, Map<PcuEventKind, PcuMeasurement>)| cycle_row(row, kind, source)),
            i <= rows.len(),
            list@ == seqs::flat_map(rows.take(i as int), f),
        decreases rows.len() - i,
    {
        let ghost before = list@;
        match measurements.measurement_at(i, kind) {
            Some(measurement) => {
                list.push(
                    PcuCycleRatioMetrics {
                        ratio: quantity::ratio(measurement.value, measurement.ticks),
                        scope: measurements.scope_at(i),
                        source,
                    },
                );
            },
            None => {},
        }
        proof {
            assert(list@ =~= before + cycle_row(rows[i as int], kind, source));
            seqs::lemma_flat_map_step(rows, f, i as int);
        }
        i += 1;
    }
    proof {
        seqs::lemma_flat_map_ends(rows, f);
    }
    list
}

/// Sets the frequency of a clock.
pub open spec fn clock_metric<S: PcuPlace>(metric: PcuClockMetrics<S>) -> GaugeUpdate {
    GaugeUpdate {
        family: "ocellus_pcu_frequency_hz",
        labels: metric.scope.place_labels(),
        value: metric.frequency_hz,
    }
}

/// Sets the frequency of a clock.
pub fn clock_updates<S: PcuPlace>(metrics: &Vec<PcuClockMetrics<S>>) -> (updates: Vec<GaugeUpdate>)
    ensures
        updates@ == metrics@.map_values(|metric: PcuClockMetrics<S>| clock_metric(metric)),
{
    let mut updates: Vec<GaugeUpdate> = Vec::new();
    let mut i: usize = 0;
    while i < metrics.len()
        invariant
            i <= metrics@.len(),
            updates@.len() == i,
            forall|k: int|
                0 <= k < i ==> (#[trigger] updates@[k]) == clock_metric(metrics@[k]),
        decreases metrics@.len() - i,
    {
        let metric = &metrics[i];
        updates.push(
            GaugeUpdate {
                family: "ocellus_pcu_frequency_hz",
                labels: metric.scope.labels(),
                value: metric.frequency_hz,
            },
        );
        i += 1;
    }
    assert(updates@ =~= metrics@.map_values(|metric: PcuClockMetrics<S>| clock_metric(metric)));
    updates
}

/// Sets how many cores are in a C-state.
pub open spec fn core_state_metric<S: PcuPlace>(metric: PcuCoreCStateMetrics<S>) -> GaugeUpdate {
    GaugeUpdate { family: "ocellus_pcu_core_c_state_average_cores", labels: Labels {
            c_state: Some(pcu::state_label(metric.c_state)),
            ..metric.scope.place_labels()
        }, value: metric.average_cores }
}

/// Sets how many cores are in a C-state.
pub fn core_state_updates<S: PcuPlace>(
    metrics: &Vec<PcuCoreCStateMetrics<S>>,
) -> (updates: Vec<GaugeUpdate>)
    ensures
        updates@ == metrics@.map_values(
            |metric: PcuCoreCStateMetrics<S>| core_state_metric(metric),
        ),
{
    let mut updates: Vec<GaugeUpdate> = Vec::new();
    let mut i: usize = 0;
    while i < metrics.len()
        invariant
            i <= metrics@.len(),
            updates@.len() == i,
            forall|k: int|
                0 <= k < i ==> (#[trigger] updates@[k]) == core_state_metric(metrics@[k]),
        decreases metrics@.len() - i,
    {
        let metric = &metrics[i];
        updates.push(
            GaugeUpdate {
                family: "ocellus_pcu_core_c_state_average_cores",
                labels: Labels { c_state: Some(metric.c_state.label()), ..metric.scope.labels() },
                value: metric.average_cores,
            },
        );
        i += 1;
    }
    assert(
        updates@ =~= metrics@.map_values(
            |metric: PcuCoreCStateMetrics<S>| core_state_metric(metric),
        )
    );
    updates
}

/// Sets how often a reason limits the frequency.
pub open spec fn limit_metric<S: PcuPlace>(metric: PcuFrequencyLimitMetrics<S>) -> GaugeUpdate {
    GaugeUpdate { family: "ocellus_pcu_frequency_limit_ratio", labels: Labels {
            reason: Some(pcu::reason_label(metric.reason)),
            ..metric.scope.place_labels()
        }, value: metric.ratio }
}

/// Sets how often a reason limits the frequency.
pub fn limit_updates<S: PcuPlace>(
    metrics: &Vec<PcuFrequencyLimitMetrics<S>>,
) -> (updates: Vec<GaugeUpdate>)
    ensures
        updates@ == metrics@.map_values(|metric: PcuFrequencyLimitMetrics<S>| limit_metric(metric)),
{
    let mut updates: Vec<GaugeUpdate> = Vec::new();
    let mut i: usize = 0;
    while i < metrics.len()
        invariant
            i <= metrics@.len(),
            updates@.len() == i,
            forall|k: int|
                0 <= k < i ==> (#[trigger] updates@[k]) == limit_metric(metrics@[k]),
        decreases metrics@.len() - i,
    {
        let metric = &metrics[i];
        updates.push(
            GaugeUpdate {
                family: "ocellus_pcu_frequency_limit_ratio",
                labels: Labels { reason: Some(metric.reason.label()), ..metric.scope.labels() },
                value: metric.ratio,
            },
        );
        i += 1;
    }
    assert(
        updates@ =~= metrics@.map_values(|metric: PcuFrequencyLimitMetrics<S>| limit_metric(metric))
    );
    updates
}

/// Sets how often something goes on.
pub open spec fn cycle_metric<S: PcuPlace>(
    metric: PcuCycleRatioMetrics<S, &'static str>,
    family: &'static str,
) -> GaugeUpdate {
    GaugeUpdate { family, labels: metric.scope.place_labels(), value: metric.ratio }
}

/// Sets how often something goes on.
pub fn cycle_updates<S: PcuPlace>(
    metrics: &Vec<PcuCycleRatioMetrics<S, &'static str>>,
    family: &'static str,
) -> (updates: Vec<GaugeUpdate>)
    ensures
        updates@ == metrics@.map_values(
            |metric: PcuCycleRatioMetrics<S, &'static str>| cycle_metric(metric, family),
        ),
{
    let mut updates: Vec<GaugeUpdate> = Vec::new();
    let mut i: usize = 0;
    while i < metrics.len()
        invariant
            i <= metrics@.len(),
            updates@.len() == i,
            forall|k: int|
                0 <= k < i ==> (#[trigger] updates@[k]) == cycle_metric(metrics@[k], family),
        decreases metrics@.len() - i,
    {
        let metric = &metrics[i];
        updates.push(
            GaugeUpdate {
                family,
                labels: metric.scope.labels(),
                value: metric.ratio,
            },
        );
        i += 1;
    }
    assert(
        updates@ =~= metrics@.map_values(
            |metric: PcuCycleRatioMetrics<S, &'static str>| cycle_metric(metric, family),
        )
    );
    updates
}

/// Sets how often the package is in a C-state.
pub open spec fn package_state_metric<S: PcuPlace>(
    metric: PcuPackageCStateMetrics<S>,
) -> GaugeUpdate {
    GaugeUpdate { family: "ocellus_pcu_package_c_state_ratio", labels: Labels {
            c_state: Some(pcu::state_label(metric.c_state)),
            ..metric.scope.place_labels()
        }, value: metric.ratio }
}

/// Sets how often the package is in a C-state.
pub fn package_state_updates<S: PcuPlace>(
    metrics: &Vec<PcuPackageCStateMetrics<S>>,
) -> (updates: Vec<GaugeUpdate>)
    ensures
        updates@ == metrics@.map_values(
            |metric: PcuPackageCStateMetrics<S>| package_state_metric(metric),
        ),
{
    let mut updates: Vec<GaugeUpdate> = Vec::new();
    let mut i: usize = 0;
    while i < metrics.len()
        invariant
            i <= metrics@.len(),
            updates@.len() == i,
            forall|k: int|
                0 <= k < i ==> (#[trigger] updates@[k]) == package_state_metric(metrics@[k]),
        decreases metrics@.len() - i,
    {
        let metric = &metrics[i];
        updates.push(
            GaugeUpdate {
                family: "ocellus_pcu_package_c_state_ratio",
                labels: Labels { c_state: Some(metric.c_state.label()), ..metric.scope.labels() },
                value: metric.ratio,
            },
        );
        i += 1;
    }
    assert(
        updates@ =~= metrics@.map_values(
            |metric: PcuPackageCStateMetrics<S>| package_state_metric(metric),
        )
    );
    updates
}

/// Sets how often a source throttles.
pub open spec fn throttle_metric<S: PcuPlace>(
    metric: PcuCycleRatioMetrics<S, PcuThermalThrottleSource>,
) -> GaugeUpdate {
    GaugeUpdate { family: "ocellus_pcu_thermal_throttle_ratio", labels: Labels {
            source: Some(pcu::source_label(metric.source)),
            ..metric.scope.place_labels()
        }, value: metric.ratio }
}

/// Sets how often a source throttles.
pub fn throttle_updates<S: PcuPlace>(
    metrics: &Vec<PcuCycleRatioMetrics<S, PcuThermalThrottleSource>>,
) -> (updates: Vec<GaugeUpdate>)
    ensures
        updates@ == metrics@.map_values(
            |metric: PcuCycleRatioMetrics<S, PcuThermalThrottleSource>| throttle_metric(metric),
        ),
{
    let mut updates: Vec<GaugeUpdate> = Vec::new();
    let mut i: usize = 0;
    while i < metrics.len()
        invariant
            i <= metrics@.len(),
            updates@.len() == i,
            forall|k: int|
                0 <= k < i ==> (#[trigger] updates@[k]) == throttle_metric(metrics@[k]),
        decreases metrics@.len() - i,
    {
        let metric = &metrics[i];
        updates.push(
            GaugeUpdate {
                family: "ocellus_pcu_thermal_throttle_ratio",
                labels: Labels { source: Some(metric.source.label()), ..metric.scope.labels() },
                value: metric.ratio,
            },
        );
        i += 1;
    }
    assert(
        updates@ =~= metrics@.map_values(
            |metric: PcuCycleRatioMetrics<S, PcuThermalThrottleSource>| throttle_metric(metric),
        )
    );
    updates
}

proof fn lemma_last_place(kinds: Seq<PcuEventKind>, kind: PcuEventKind, j: int) -> (last: int)
    requires
        0 <= j < kinds.len(),
        kinds[j] == kind,
    ensures
        0 <= last < kinds.len(),
        kinds[last] == kind,
        counts_last(kinds, last),
    decreases kinds.len() - j,
{
    if counts_last(kinds, j) {
        j
    } else {
        let k = choose|k: int| j < k < kinds.len() && (#[trigger] kinds[k]) == kinds[j];
        lemma_last_place(kinds, kind, k)
    }
}

proof fn lemma_row_samples<S>(
    place: S,
    values: Seq<u64>,
    base: int,
    kinds: Seq<PcuEventKind>,
    ticks: u64,
    running_nanos: u128,
    n: nat,
    scope: S,
    kind: PcuEventKind,
)
    requires
        n <= kinds.len(),
    ensures
        completeness::sampled(
            unit_row(place, values, base, kinds, ticks, running_nanos, n),
            scope,
            kind,
        ) <==> place == scope && exists|j: int|
            0 <= j < n && (#[trigger] kinds[j]) == kind && counts_last(kinds, j),
    decreases n,
{
    let row = unit_row(place, values, base, kinds, ticks, running_nanos, n);
    if n > 0 {
        let m = (n - 1) as nat;
        let before = unit_row(place, values, base, kinds, ticks, running_nanos, m);
        lemma_row_samples(place, values, base, kinds, ticks, running_nanos, m, scope, kind);
        let last = row.subrange(before.len() as int, row.len() as int);
        assert(row =~= before + last);
        completeness::lemma_sampled_together(before, last, scope, kind);
        if counts_last(kinds, n - 1) && kinds[n - 1] == kind && place == scope {
            assert(last[0].scope == scope && last[0].kind == kind);
        }
    }
}

proof fn lemma_unit_samples<S>(
    units: Seq<Unit<S>>,
    values: Seq<u64>,
    kinds: Seq<PcuEventKind>,
    estimated: Seq<u64>,
    running_nanos: u128,
    scope: S,
    kind: PcuEventKind,
)
    ensures
        completeness::sampled(
            unit_samples(units, values, kinds, estimated, running_nanos),
            scope,
            kind,
        ) <==> units::has_scope(units, scope) && kinds.contains(kind),
    decreases units.len(),
{
    if units.len() > 0 {
        let i = units.len() - 1;
        let front = units.drop_last();
        let before = unit_samples(front, values, kinds, estimated, running_nanos);
        let row = unit_row(
            units.last().scope,
            values,
            i * kinds.len(),
            kinds,
            ticks_of(values, i * kinds.len(), kinds, estimated[i]),
            running_nanos,
            kinds.len(),
        );
        lemma_unit_samples(front, values, kinds, estimated, running_nanos, scope, kind);
        completeness::lemma_sampled_together(before, row, scope, kind);
        completeness::lemma_scopes_together(units, scope);
        lemma_row_samples(
            units.last().scope,
            values,
            i * kinds.len(),
            kinds,
            ticks_of(values, i * kinds.len(), kinds, estimated[i]),
            running_nanos,
            kinds.len(),
            scope,
            kind,
        );
        if kinds.contains(kind) {
            let j = lemma_last_place(kinds, kind, kinds.index_of(kind));
            assert(kinds[j] == kind && counts_last(kinds, j));
        }
    }
}

/// Recording a slice extends the measurements by what its counters count.
pub proof fn record_extends<S: Key>(
    units: Seq<Unit<S>>,
    values: Seq<u64>,
    kinds: Seq<PcuEventKind>,
    estimated: Seq<u64>,
    running_nanos: u128,
    held: Accumulator<S, PcuEventKind, PcuMeasurement>,
    after: Accumulator<S, PcuEventKind, PcuMeasurement>,
)
    requires
        is_record(
            units,
            values,
            kinds,
            estimated,
            running_nanos,
            held,
            Ok::<Accumulator<S, PcuEventKind, PcuMeasurement>, CollectorError>(after),
        ),
    ensures
        completeness::extends(
            held.grid(),
            after.grid(),
            |scope: S| units::has_scope(units, scope),
            |kind: PcuEventKind| kinds.contains(kind),
        ),
{
    let samples = unit_samples(units, values, kinds, estimated, running_nanos);
    assert forall|scope: S, kind: PcuEventKind|
        (#[trigger] units::cell(after.grid(), scope, kind)) is Some <==> units::cell(
            held.grid(),
            scope,
            kind,
        ) is Some || (units::has_scope(units, scope) && kinds.contains(kind)) by {
        completeness::accumulation_extends(held.grid(), samples, scope, kind);
        lemma_unit_samples(units, values, kinds, estimated, running_nanos, scope, kind);
    }
}

/// Once a slice that counts the clock was recorded, the clock of every unit is known: the clock
/// ticks of the later slices can always be estimated.
pub proof fn clocks_are_known_after_clock_slice<S: PcuPlace>(
    units: Seq<Unit<S>>,
    values: Seq<u64>,
    kinds: Seq<PcuEventKind>,
    running_nanos: u128,
    held: Accumulator<S, PcuEventKind, PcuMeasurement>,
    after: Accumulator<S, PcuEventKind, PcuMeasurement>,
    later_nanos: u128,
    estimated: Result<Vec<ScaledCount>, CollectorError>,
)
    requires
        held.grid() == Map::<S, Map<PcuEventKind, PcuMeasurement>>::empty(),
        kinds.contains(PcuEventKind::Clockticks),
        is_record(
            units,
            values,
            kinds,
            Seq::empty(),
            running_nanos,
            held,
            Ok::<Accumulator<S, PcuEventKind, PcuMeasurement>, CollectorError>(after),
        ),
        is_estimate(units, clocks_of(after.grid()), later_nanos, estimated),
    ensures
        accumulator::first_gap(after.rows(), required_events()) is None,
        estimated is Ok,
{
    record_extends(units, values, kinds, Seq::empty(), running_nanos, held, after);
    let grids = seq![held.grid(), after.grid()];
    let scopes = |scope: S| units::has_scope(units, scope);
    let counted = |i: int, kind: PcuEventKind| kinds.contains(kind);
    assert forall|e: int| 0 <= e < required_events().len() implies exists|i: int|
        0 <= i < grids.len() - 1 && #[trigger] counted(i, #[trigger] required_events()[e]) by {
        assert(counted(0, required_events()[e]));
    }
    assert forall|i: int| 0 <= i < grids.len() - 1 implies completeness::extends(
        #[trigger] grids[i],
        grids[i + 1],
        scopes,
        |kind: PcuEventKind| counted(i, kind),
    ) by {
    }
    completeness::complete_course_has_no_gap(after, grids, scopes, counted, required_events());
    assert forall|i: int| 0 <= i < units.len() implies clocks_of(after.grid()).contains_key(
        (#[trigger] units[i]).scope,
    ) by {
        assert(scopes(units[i].scope));
    }
}

/// A sample whose first slice counts the clock leaves no scope without clock ticks.
#[verifier::spinoff_prover]
pub proof fn complete_sample_has_clocks<S: Key>(
    units: Seq<Unit<S>>,
    values: Seq<Seq<u64>>,
    kinds: Seq<Seq<PcuEventKind>>,
    estimated: Seq<Seq<u64>>,
    running_nanos: Seq<u128>,
    steps: Seq<Accumulator<S, PcuEventKind, PcuMeasurement>>,
)
    requires
        kinds.len() > 0,
        kinds[0].contains(PcuEventKind::Clockticks),
        steps.len() == kinds.len() + 1,
        steps.last().wf(),
        steps[0].grid() == Map::<S, Map<PcuEventKind, PcuMeasurement>>::empty(),
        forall|i: int|
            0 <= i < kinds.len() ==> is_record(
                units,
                values[i],
                #[trigger] kinds[i],
                estimated[i],
                running_nanos[i],
                steps[i],
                Ok::<Accumulator<S, PcuEventKind, PcuMeasurement>, CollectorError>(steps[i + 1]),
            ),
    ensures
        accumulator::first_gap(steps.last().rows(), required_events()) is None,
        forall|scope: S|
            steps.last().grid().contains_key(scope) <==> #[trigger] units::has_scope(units, scope),
{
    let grids = steps.map_values(
        |step: Accumulator<S, PcuEventKind, PcuMeasurement>| step.grid(),
    );
    let scopes = |scope: S| units::has_scope(units, scope);
    let counted = |i: int, kind: PcuEventKind| kinds[i].contains(kind);
    assert forall|i: int| 0 <= i < grids.len() - 1 implies completeness::extends(
        #[trigger] grids[i],
        grids[i + 1],
        scopes,
        |kind: PcuEventKind| counted(i, kind),
    ) by {
        record_extends(
            units,
            values[i],
            kinds[i],
            estimated[i],
            running_nanos[i],
            steps[i],
            steps[i + 1],
        );
    }
    assert forall|e: int| 0 <= e < required_events().len() implies exists|i: int|
        0 <= i < grids.len() - 1 && #[trigger] counted(i, #[trigger] required_events()[e]) by {
        assert(counted(0, required_events()[e]));
    }
    completeness::complete_course_has_no_gap(
        steps.last(),
        grids,
        scopes,
        counted,
        required_events(),
    );
    assert forall|scope: S|
        steps.last().grid().contains_key(scope) <==> #[trigger] units::has_scope(units, scope) by {
        assert(scopes(scope) == units::has_scope(units, scope));
    }
}

} // verus!
