//! What a slice adds to the measurements of the power control units.
use crate::accumulator::{Accumulator, Grid, Sample};
use crate::counter;
use crate::error::CollectorError;
use crate::laws::recorded;
use crate::metrics::pcu::common::{
    self, ClockEstimate, PcuEventKind, PcuMeasurement, PcuReadings,
};
use crate::metrics::pcu::{hsx, icx, skx, snb, spr};
use crate::metrics::pcu::{PcuCoreCState, PcuPackageScope, PcuScope};
use crate::ordered_map::{Key, OrderedMap};
use crate::quantity::{self, ScaledCount};
use crate::units::Unit;
use vstd::arithmetic::div_mod::lemma_mod_decreases;
use vstd::arithmetic::power2::{lemma_pow2_pos, pow2};
use vstd::prelude::*;

verus! {

/// Whether counter `j` is the last one that is set to an event.
pub open spec fn is_last(kinds: Seq<PcuEventKind>, kind: PcuEventKind, j: int) -> bool {
    &&& 0 <= j < kinds.len()
    &&& kinds[j] == kind
    &&& forall|k: int| j < k < kinds.len() ==> (#[trigger] kinds[k]) != kind
}

proof fn lemma_clock_place(kinds: Seq<PcuEventKind>, n: nat)
    requires
        n <= kinds.len(),
    ensures
        match common::clock_place(kinds, n) {
            Some(place) => {
                &&& 0 <= place < n
                &&& kinds[place] is Clockticks
                &&& forall|k: int| place < k < n ==> !((#[trigger] kinds[k]) is Clockticks)
            },
            None => forall|k: int| 0 <= k < n ==> !((#[trigger] kinds[k]) is Clockticks),
        },
    decreases n,
{
    if n > 0 {
        lemma_clock_place(kinds, (n - 1) as nat);
    }
}

/// The ticks of a unit are what its clock counter read, where it counts the clock, and else what
/// was estimated.
pub proof fn ticks_are_read_or_estimated(
    values: Seq<u64>,
    base: int,
    kinds: Seq<PcuEventKind>,
    estimated: u64,
    j: int,
)
    ensures
        is_last(kinds, PcuEventKind::Clockticks, j) ==> common::ticks_of(
            values,
            base,
            kinds,
            estimated,
        ) == values[base + j],
        (forall|k: int| 0 <= k < kinds.len() ==> !((#[trigger] kinds[k]) is Clockticks))
            ==> common::ticks_of(values, base, kinds, estimated) == estimated,
{
    lemma_clock_place(kinds, kinds.len());
}

/// Whether a sample is that of counter `j` of unit `i`: for its scope and event, with its reading,
/// the ticks of the unit and the running time.
pub open spec fn is_sample_at<S>(
    sample: Sample<S, PcuEventKind, PcuMeasurement>,
    units: Seq<Unit<S>>,
    values: Seq<u64>,
    kinds: Seq<PcuEventKind>,
    estimated: Seq<u64>,
    running_nanos: u128,
    i: int,
    j: int,
) -> bool {
    let base = i * kinds.len();
    &&& sample.scope == units[i].scope
    &&& sample.kind == kinds[j]
    &&& sample.measurement.value == values[base + j]
    &&& sample.measurement.running_nanos == running_nanos
    &&& sample.measurement.ticks == common::ticks_of(values, base, kinds, estimated[i])
}

proof fn lemma_row_at<S>(
    scope: S,
    values: Seq<u64>,
    base: int,
    kinds: Seq<PcuEventKind>,
    ticks: u64,
    running_nanos: u128,
    n: nat,
    k: int,
) -> (j: int)
    requires
        n <= kinds.len(),
        0 <= k < common::unit_row(scope, values, base, kinds, ticks, running_nanos, n).len(),
    ensures
        0 <= j < n,
        is_last(kinds, kinds[j], j),
        common::unit_row(scope, values, base, kinds, ticks, running_nanos, n)[k] == (Sample {
            scope,
            kind: kinds[j],
            measurement: PcuMeasurement { running_nanos, ticks, value: values[base + j] },
        }),
    decreases n,
{
    let before = common::unit_row(
        scope,
        values,
        base,
        kinds,
        ticks,
        running_nanos,
        (n - 1) as nat,
    );
    if k < before.len() {
        lemma_row_at(scope, values, base, kinds, ticks, running_nanos, (n - 1) as nat, k)
    } else {
        n - 1
    }
}

/// Every sample of a slice of power control units is what some counter of some unit read: the last
/// one that is set to its event.
pub proof fn power_samples_are_of_their_units<S>(
    units: Seq<Unit<S>>,
    values: Seq<u64>,
    kinds: Seq<PcuEventKind>,
    estimated: Seq<u64>,
    running_nanos: u128,
    k: int,
) -> (place: (int, int))
    requires
        0 <= k < common::unit_samples(units, values, kinds, estimated, running_nanos).len(),
    ensures
        0 <= place.0 < units.len(),
        is_last(kinds, kinds[place.1], place.1),
        is_sample_at(
            common::unit_samples(units, values, kinds, estimated, running_nanos)[k],
            units,
            values,
            kinds,
            estimated,
            running_nanos,
            place.0,
            place.1,
        ),
    decreases units.len(),
{
    let front = units.drop_last();
    let before = common::unit_samples(front, values, kinds, estimated, running_nanos);
    if k < before.len() {
        let place = power_samples_are_of_their_units(
            front,
            values,
            kinds,
            estimated,
            running_nanos,
            k,
        );
        assert(front[place.0] == units[place.0]);
        place
    } else {
        let i = units.len() - 1;
        let base = i * kinds.len();
        let j = lemma_row_at(
            units.last().scope,
            values,
            base,
            kinds,
            common::ticks_of(values, base, kinds, estimated[i]),
            running_nanos,
            kinds.len(),
            k - before.len(),
        );
        (i, j)
    }
}

proof fn lemma_row_has<S>(
    scope: S,
    values: Seq<u64>,
    base: int,
    kinds: Seq<PcuEventKind>,
    ticks: u64,
    running_nanos: u128,
    n: nat,
    j: int,
) -> (k: int)
    requires
        0 <= j < n <= kinds.len(),
        is_last(kinds, kinds[j], j),
    ensures
        0 <= k < common::unit_row(scope, values, base, kinds, ticks, running_nanos, n).len(),
        common::unit_row(scope, values, base, kinds, ticks, running_nanos, n)[k] == (Sample {
            scope,
            kind: kinds[j],
            measurement: PcuMeasurement { running_nanos, ticks, value: values[base + j] },
        }),
    decreases n,
{
    let before = common::unit_row(
        scope,
        values,
        base,
        kinds,
        ticks,
        running_nanos,
        (n - 1) as nat,
    );
    if j < n - 1 {
        lemma_row_has(scope, values, base, kinds, ticks, running_nanos, (n - 1) as nat, j)
    } else {
        assert(common::counts_last(kinds, n - 1));
        before.len() as int
    }
}

/// Every event that a power control unit counts has its sample.
pub proof fn every_power_event_has_its_sample<S>(
    units: Seq<Unit<S>>,
    values: Seq<u64>,
    kinds: Seq<PcuEventKind>,
    estimated: Seq<u64>,
    running_nanos: u128,
    i: int,
    j: int,
) -> (k: int)
    requires
        0 <= i < units.len(),
        is_last(kinds, kinds[j], j),
    ensures
        0 <= k < common::unit_samples(units, values, kinds, estimated, running_nanos).len(),
        is_sample_at(
            common::unit_samples(units, values, kinds, estimated, running_nanos)[k],
            units,
            values,
            kinds,
            estimated,
            running_nanos,
            i,
            j,
        ),
    decreases units.len(),
{
    let front = units.drop_last();
    let before = common::unit_samples(front, values, kinds, estimated, running_nanos);
    if i < units.len() - 1 {
        assert(front[i] == units[i]);
        every_power_event_has_its_sample(front, values, kinds, estimated, running_nanos, i, j)
    } else {
        let base = i * kinds.len();
        let k = lemma_row_has(
            units.last().scope,
            values,
            base,
            kinds,
            common::ticks_of(values, base, kinds, estimated[i]),
            running_nanos,
            kinds.len(),
            j,
        );
        before.len() + k
    }
}

/// What the units of a scope come to: the sum, over the units, of the number that `g` has for each.
pub open spec fn units_total<S>(units: Seq<Unit<S>>, scope: S, g: spec_fn(int) -> int) -> int
    decreases units.len(),
{
    if units.len() == 0 {
        0
    } else {
        units_total(units.drop_last(), scope, g) + if units.last().scope == scope {
            g(units.len() - 1)
        } else {
            0
        }
    }
}

proof fn lemma_row_power_total<S>(
    at: S,
    values: Seq<u64>,
    base: int,
    kinds: Seq<PcuEventKind>,
    ticks: u64,
    running_nanos: u128,
    n: nat,
    j: int,
    scope: S,
    f: spec_fn(PcuMeasurement) -> int,
)
    requires
        n <= kinds.len(),
        is_last(kinds, kinds[j], j),
    ensures
        recorded::total(
            common::unit_row(at, values, base, kinds, ticks, running_nanos, n),
            scope,
            kinds[j],
            f,
        ) == if at == scope && j < n {
            f(PcuMeasurement { running_nanos, ticks, value: values[base + j] })
        } else {
            0
        },
    decreases n,
{
    if n > 0 {
        let before = common::unit_row(
            at,
            values,
            base,
            kinds,
            ticks,
            running_nanos,
            (n - 1) as nat,
        );
        let row = common::unit_row(at, values, base, kinds, ticks, running_nanos, n);
        lemma_row_power_total(
            at,
            values,
            base,
            kinds,
            ticks,
            running_nanos,
            (n - 1) as nat,
            j,
            scope,
            f,
        );
        if common::counts_last(kinds, n - 1) {
            assert(row.drop_last() =~= before);
            if kinds[n - 1] == kinds[j] && n - 1 < j {
                assert(kinds[j] != kinds[n - 1]);
            }
        } else if n - 1 == j {
            assert(common::counts_last(kinds, n - 1));
        }
    }
}

proof fn lemma_append<S>(
    first: Seq<Sample<S, PcuEventKind, PcuMeasurement>>,
    second: Seq<Sample<S, PcuEventKind, PcuMeasurement>>,
    scope: S,
    kind: PcuEventKind,
    f: spec_fn(PcuMeasurement) -> int,
)
    ensures
        recorded::total(first + second, scope, kind, f) == recorded::total(first, scope, kind, f)
            + recorded::total(second, scope, kind, f),
    decreases second.len(),
{
    if second.len() == 0 {
        assert(first + second =~= first);
    } else {
        assert((first + second).drop_last() =~= first + second.drop_last());
        lemma_append(first, second.drop_last(), scope, kind, f);
    }
}

/// The samples of an event come to what each unit of the scope measured of it, once for each unit.
pub proof fn power_totals_are_those_of_the_units<S>(
    units: Seq<Unit<S>>,
    values: Seq<u64>,
    kinds: Seq<PcuEventKind>,
    estimated: Seq<u64>,
    running_nanos: u128,
    j: int,
    scope: S,
    f: spec_fn(PcuMeasurement) -> int,
    g: spec_fn(int) -> int,
)
    requires
        is_last(kinds, kinds[j], j),
        forall|i: int|
            0 <= i < units.len() ==> #[trigger] g(i) == f(
                PcuMeasurement {
                    running_nanos,
                    ticks: common::ticks_of(values, i * kinds.len(), kinds, estimated[i]),
                    value: values[i * kinds.len() + j],
                },
            ),
    ensures
        recorded::total(
            common::unit_samples(units, values, kinds, estimated, running_nanos),
            scope,
            kinds[j],
            f,
        ) == units_total(units, scope, g),
    decreases units.len(),
{
    if units.len() > 0 {
        let front = units.drop_last();
        let i = units.len() - 1;
        let base = i * kinds.len();
        let before = common::unit_samples(front, values, kinds, estimated, running_nanos);
        let ticks = common::ticks_of(values, base, kinds, estimated[i]);
        let row = common::unit_row(
            units.last().scope,
            values,
            base,
            kinds,
            ticks,
            running_nanos,
            kinds.len(),
        );
        power_totals_are_those_of_the_units(
            front,
            values,
            kinds,
            estimated,
            running_nanos,
            j,
            scope,
            f,
            g,
        );
        lemma_row_power_total(
            units.last().scope,
            values,
            base,
            kinds,
            ticks,
            running_nanos,
            kinds.len(),
            j,
            scope,
            f,
        );
        lemma_append(before, row, scope, kinds[j], f);
        assert(g(i) == f(PcuMeasurement { running_nanos, ticks, value: values[base + j] }));
    }
}

/// Whether a slice added to the event of counter `j`, in a scope, what that counter of every unit
/// of the scope read, the ticks of the unit and the running time.
pub open spec fn adds_power_slice<S>(
    before: Grid<S, PcuEventKind, PcuMeasurement>,
    after: Grid<S, PcuEventKind, PcuMeasurement>,
    units: Seq<Unit<S>>,
    values: Seq<u64>,
    kinds: Seq<PcuEventKind>,
    estimated: Seq<u64>,
    running_nanos: u128,
    scope: S,
    j: int,
) -> bool {
    let value = |held: PcuMeasurement| held.value as int;
    let ticks = |held: PcuMeasurement| held.ticks as int;
    let running = |held: PcuMeasurement| held.running_nanos as int;
    let kind = kinds[j];
    &&& recorded::part(after, scope, kind, value) == recorded::part(before, scope, kind, value)
        + units_total(units, scope, |i: int| values[i * kinds.len() + j] as int)
    &&& recorded::part(after, scope, kind, ticks) == recorded::part(before, scope, kind, ticks)
        + units_total(
        units,
        scope,
        |i: int| common::ticks_of(values, i * kinds.len(), kinds, estimated[i]) as int,
    )
    &&& recorded::part(after, scope, kind, running) == recorded::part(
        before,
        scope,
        kind,
        running,
    ) + units_total(units, scope, |i: int| running_nanos as int)
}

proof fn lemma_adds_power<S: Key>(
    units: Seq<Unit<S>>,
    values: Seq<u64>,
    kinds: Seq<PcuEventKind>,
    estimated: Seq<u64>,
    running_nanos: u128,
    held: Accumulator<S, PcuEventKind, PcuMeasurement>,
    after: Accumulator<S, PcuEventKind, PcuMeasurement>,
    scope: S,
    j: int,
)
    requires
        common::is_record(
            units,
            values,
            kinds,
            estimated,
            running_nanos,
            held,
            Ok::<Accumulator<S, PcuEventKind, PcuMeasurement>, CollectorError>(after),
        ),
        is_last(kinds, kinds[j], j),
    ensures
        adds_power_slice(
            held.grid(),
            after.grid(),
            units,
            values,
            kinds,
            estimated,
            running_nanos,
            scope,
            j,
        ),
        values.len() == units.len() * kinds.len(),
{
    let value = |held: PcuMeasurement| held.value as int;
    let ticks = |held: PcuMeasurement| held.ticks as int;
    let running = |held: PcuMeasurement| held.running_nanos as int;
    let kind = kinds[j];
    let samples = common::unit_samples(units, values, kinds, estimated, running_nanos);
    recorded::samples_add_up(held.grid(), samples, after.grid(), scope, kind, value);
    recorded::samples_add_up(held.grid(), samples, after.grid(), scope, kind, ticks);
    recorded::samples_add_up(held.grid(), samples, after.grid(), scope, kind, running);
    power_totals_are_those_of_the_units(
        units,
        values,
        kinds,
        estimated,
        running_nanos,
        j,
        scope,
        value,
        |i: int| values[i * kinds.len() + j] as int,
    );
    power_totals_are_those_of_the_units(
        units,
        values,
        kinds,
        estimated,
        running_nanos,
        j,
        scope,
        ticks,
        |i: int| common::ticks_of(values, i * kinds.len(), kinds, estimated[i]) as int,
    );
    power_totals_are_those_of_the_units(
        units,
        values,
        kinds,
        estimated,
        running_nanos,
        j,
        scope,
        running,
        |i: int| running_nanos as int,
    );
}

/// The low 48 bits of every reading, which are those that count.
pub open spec fn low48_of(values: Seq<u64>) -> Seq<u64> {
    values.map_values(|value: u64| (value % 0x1_0000_0000_0000) as u64)
}

/// A slice of the power control units of Haswell and Broadwell adds what the counters read to their
/// events, with the ticks of their unit; the low 48 bits of a reading count.
pub proof fn hsx_power_slice_is_added(
    collector: hsx::HsxPcuCollector,
    group: hsx::HsxPcuEventGroup,
    readings: PcuReadings,
    estimated: Vec<u64>,
    held: Accumulator<PcuPackageScope, PcuEventKind, PcuMeasurement>,
    after: Accumulator<PcuPackageScope, PcuEventKind, PcuMeasurement>,
    scope: PcuPackageScope,
    j: int,
)
    requires
        call_ensures(
            hsx::HsxPcuCollector::record,
            (&collector, group, &readings, &estimated, held),
            Ok::<Accumulator<PcuPackageScope, PcuEventKind, PcuMeasurement>, CollectorError>(after),
        ),
        is_last(hsx::used_kinds(group, 4), hsx::used_kinds(group, 4)[j], j),
    ensures
        adds_power_slice(
            held.grid(),
            after.grid(),
            collector.units(),
            low48_of(readings.values@),
            hsx::used_kinds(group, 4),
            estimated@,
            readings.running_nanos,
            scope,
            j,
        ),
        readings.values@.len() == collector.units().len() * hsx::used_kinds(group, 4).len(),
{
    let values = common::masked(readings.values@);
    assert(values =~= low48_of(readings.values@));
    lemma_adds_power(
        collector.units(),
        values,
        hsx::used_kinds(group, 4),
        estimated@,
        readings.running_nanos,
        held,
        after,
        scope,
        j,
    );
}

/// A slice of the power control units of Skylake adds what the counters read to their events, with
/// the ticks of their unit; the low 48 bits of a reading count.
pub proof fn skx_power_slice_is_added(
    collector: skx::SkxPcuCollector,
    group: skx::SkxPcuEventGroup,
    readings: PcuReadings,
    estimated: Vec<u64>,
    held: Accumulator<PcuScope, PcuEventKind, PcuMeasurement>,
    after: Accumulator<PcuScope, PcuEventKind, PcuMeasurement>,
    scope: PcuScope,
    j: int,
)
    requires
        call_ensures(
            skx::SkxPcuCollector::record,
            (&collector, group, &readings, &estimated, held),
            Ok::<Accumulator<PcuScope, PcuEventKind, PcuMeasurement>, CollectorError>(after),
        ),
        is_last(skx::used_kinds(group, 4), skx::used_kinds(group, 4)[j], j),
    ensures
        adds_power_slice(
            held.grid(),
            after.grid(),
            collector.units(),
            low48_of(readings.values@),
            skx::used_kinds(group, 4),
            estimated@,
            readings.running_nanos,
            scope,
            j,
        ),
        readings.values@.len() == collector.units().len() * skx::used_kinds(group, 4).len(),
{
    let values = common::masked(readings.values@);
    assert(values =~= low48_of(readings.values@));
    lemma_adds_power(
        collector.units(),
        values,
        skx::used_kinds(group, 4),
        estimated@,
        readings.running_nanos,
        held,
        after,
        scope,
        j,
    );
}

/// A slice of the power control units of Sandy and Ivy Bridge adds what the counters read to their
/// events, with the ticks of their unit; the low 48 bits of a reading count.
pub proof fn snb_power_slice_is_added(
    collector: snb::SnbPcuCollector,
    group: snb::SnbPcuEventGroup,
    readings: PcuReadings,
    estimated: Vec<u64>,
    held: Accumulator<PcuPackageScope, PcuEventKind, PcuMeasurement>,
    after: Accumulator<PcuPackageScope, PcuEventKind, PcuMeasurement>,
    scope: PcuPackageScope,
    j: int,
)
    requires
        call_ensures(
            snb::SnbPcuCollector::record,
            (&collector, group, &readings, &estimated, held),
            Ok::<Accumulator<PcuPackageScope, PcuEventKind, PcuMeasurement>, CollectorError>(after),
        ),
        is_last(snb::used_kinds(group, 4), snb::used_kinds(group, 4)[j], j),
    ensures
        adds_power_slice(
            held.grid(),
            after.grid(),
            collector.units(),
            low48_of(readings.values@),
            snb::used_kinds(group, 4),
            estimated@,
            readings.running_nanos,
            scope,
            j,
        ),
        readings.values@.len() == collector.units().len() * snb::used_kinds(group, 4).len(),
{
    let values = common::masked(readings.values@);
    assert(values =~= low48_of(readings.values@));
    lemma_adds_power(
        collector.units(),
        values,
        snb::used_kinds(group, 4),
        estimated@,
        readings.running_nanos,
        held,
        after,
        scope,
        j,
    );
}

/// A sample of the power control units of Sapphire Rapids adds what the three counters of each unit
/// read to their events, with the ticks of their unit, which the first of them counts. As many low
/// bits of a reading count as the counters of its unit are wide.
pub proof fn spr_power_sample_is_added(
    collector: spr::SprPcuCollector,
    readings: PcuReadings,
    held: Accumulator<PcuScope, PcuEventKind, PcuMeasurement>,
    after: Accumulator<PcuScope, PcuEventKind, PcuMeasurement>,
    scope: PcuScope,
    i: int,
    j: int,
)
    requires
        collector.wf(),
        call_ensures(
            spr::SprPcuCollector::record,
            (&collector, &readings, held),
            Ok::<Accumulator<PcuScope, PcuEventKind, PcuMeasurement>, CollectorError>(after),
        ),
        0 <= i < collector.units().len(),
        0 <= j < 3,
    ensures
        readings.values@.len() == collector.units().len() * 3,
        spr::used_kinds() == seq![
            PcuEventKind::Clockticks,
            PcuEventKind::CoreCState(PcuCoreCState::C0),
            PcuEventKind::CoreCState(PcuCoreCState::C6),
        ],
        ({
            let values = spr::masked_by(readings.values@, collector.widths(), 3);
            let width = collector.widths()[i] as nat;
            &&& adds_power_slice(
                held.grid(),
                after.grid(),
                collector.units(),
                values,
                spr::used_kinds(),
                Seq::empty(),
                readings.running_nanos,
                scope,
                j,
            )
            &&& width < 64 ==> values[i * 3 + j] == readings.values@[i * 3 + j] as nat % pow2(
                width,
            )
            &&& width >= 64 ==> values[i * 3 + j] == readings.values@[i * 3 + j]
            &&& common::ticks_of(values, i * 3, spr::used_kinds(), 0) == values[i * 3]
        }),
{
    let values = spr::masked_by(readings.values@, collector.widths(), 3);
    let kinds = spr::used_kinds();
    assert(j == 0 || j == 1 || j == 2);
    assert(is_last(kinds, kinds[j], j));
    assert(is_last(kinds, PcuEventKind::Clockticks, 0));
    ticks_are_read_or_estimated(values, i * 3, kinds, 0, 0);
    lemma_adds_power(
        collector.units(),
        values,
        kinds,
        Seq::empty(),
        readings.running_nanos,
        held,
        after,
        scope,
        j,
    );
    let at = i * 3 + j;
    assert(at / 3 == i);
    let width = collector.widths()[i] as nat;
    lemma_pow2_pos(width);
    lemma_mod_decreases(readings.values@[at] as nat, pow2(width));
    assert(values[at] == counter::low_bits(readings.values@[at] as nat, width) as u64);
}

/// The readings of the power control units of Ice Lake are the low 48 bits of what each unit read,
/// for its scope, over the running time.
pub proof fn icx_power_readings_are_of_their_units(
    collector: icx::IcxPcuCollector,
    values: Vec<u64>,
    running_nanos: u128,
    result: Result<Vec<icx::IcxPcuReading>, CollectorError>,
    i: int,
)
    requires
        call_ensures(icx::IcxPcuCollector::readings, (&collector, &values, running_nanos), result),
        0 <= i < collector.units().len(),
    ensures
        result is Ok <==> values@.len() == collector.units().len(),
        result matches Ok(readings) ==> {
            &&& readings@.len() == collector.units().len()
            &&& readings@[i].scope == collector.units()[i].scope
            &&& readings@[i].ticks == values@[i] % 0x1_0000_0000_0000
            &&& readings@[i].running_nanos == running_nanos
        },
{
}

/// Over another running time the clock ticks in proportion: as many ticks as were counted, times
/// the one time over the other.
pub proof fn estimate_is_in_proportion(
    estimate: ClockEstimate,
    running_nanos: u128,
    ticks: ScaledCount,
)
    requires
        call_ensures(ClockEstimate::ticks_for, (estimate, running_nanos), ticks),
    ensures
        estimate.running_nanos > 0 ==> {
            &&& ticks.value == estimate.ticks
            &&& ticks.enabled_nanos == running_nanos
            &&& ticks.running_nanos == estimate.running_nanos
        },
        estimate.running_nanos == 0 ==> ticks == quantity::no_count(),
{
}

/// On Haswell and Broadwell the clock of a scope is estimated from its own clock ticks, and every
/// unit gets the ticks of its own scope.
pub proof fn hsx_clock_is_estimated_by_scope(
    collector: hsx::HsxPcuCollector,
    measurements: Accumulator<PcuPackageScope, PcuEventKind, PcuMeasurement>,
    estimates: OrderedMap<PcuPackageScope, ClockEstimate>,
    running_nanos: u128,
    ticks: Vec<ScaledCount>,
    i: int,
)
    requires
        call_ensures(
            hsx::HsxPcuCollector::clock_estimates,
            (&collector, &measurements),
            Ok::<OrderedMap<PcuPackageScope, ClockEstimate>, CollectorError>(estimates),
        ),
        call_ensures(
            hsx::HsxPcuCollector::estimated_ticks,
            (&collector, &estimates, running_nanos),
            Ok::<Vec<ScaledCount>, CollectorError>(ticks),
        ),
        0 <= i < collector.units().len(),
    ensures
        ticks@.len() == collector.units().len(),
        ({
            let scope = collector.units()[i].scope;
            let clock = measurements.grid()[scope][PcuEventKind::Clockticks];
            &&& measurements.grid().contains_key(scope)
            &&& clock.running_nanos > 0 ==> ticks@[i].value == clock.value
                && ticks@[i].enabled_nanos == running_nanos && ticks@[i].running_nanos
                == clock.running_nanos
            &&& clock.running_nanos == 0 ==> ticks@[i] == quantity::no_count()
        }),
{
    assert(estimates@.contains_key(collector.units()[i].scope));
}

/// On Skylake the clock of a scope is estimated from its own clock ticks, and every unit gets the
/// ticks of its own scope.
pub proof fn skx_clock_is_estimated_by_scope(
    collector: skx::SkxPcuCollector,
    measurements: Accumulator<PcuScope, PcuEventKind, PcuMeasurement>,
    estimates: OrderedMap<PcuScope, ClockEstimate>,
    running_nanos: u128,
    ticks: Vec<ScaledCount>,
    i: int,
)
    requires
        call_ensures(
            skx::SkxPcuCollector::clock_estimates,
            (&collector, &measurements),
            Ok::<OrderedMap<PcuScope, ClockEstimate>, CollectorError>(estimates),
        ),
        call_ensures(
            skx::SkxPcuCollector::estimated_ticks,
            (&collector, &estimates, running_nanos),
            Ok::<Vec<ScaledCount>, CollectorError>(ticks),
        ),
        0 <= i < collector.units().len(),
    ensures
        ticks@.len() == collector.units().len(),
        ({
            let scope = collector.units()[i].scope;
            let clock = measurements.grid()[scope][PcuEventKind::Clockticks];
            &&& measurements.grid().contains_key(scope)
            &&& clock.running_nanos > 0 ==> ticks@[i].value == clock.value
                && ticks@[i].enabled_nanos == running_nanos && ticks@[i].running_nanos
                == clock.running_nanos
            &&& clock.running_nanos == 0 ==> ticks@[i] == quantity::no_count()
        }),
{
    assert(estimates@.contains_key(collector.units()[i].scope));
}

/// On Sandy and Ivy Bridge the clock of a scope is estimated from its own clock ticks, and every
/// unit gets the ticks of its own scope.
pub proof fn snb_clock_is_estimated_by_scope(
    collector: snb::SnbPcuCollector,
    measurements: Accumulator<PcuPackageScope, PcuEventKind, PcuMeasurement>,
    estimates: OrderedMap<PcuPackageScope, ClockEstimate>,
    running_nanos: u128,
    ticks: Vec<ScaledCount>,
    i: int,
)
    requires
        call_ensures(
            snb::SnbPcuCollector::clock_estimates,
            (&collector, &measurements),
            Ok::<OrderedMap<PcuPackageScope, ClockEstimate>, CollectorError>(estimates),
        ),
        call_ensures(
            snb::SnbPcuCollector::estimated_ticks,
            (&collector, &estimates, running_nanos),
            Ok::<Vec<ScaledCount>, CollectorError>(ticks),
        ),
        0 <= i < collector.units().len(),
    ensures
        ticks@.len() == collector.units().len(),
        ({
            let scope = collector.units()[i].scope;
            let clock = measurements.grid()[scope][PcuEventKind::Clockticks];
            &&& measurements.grid().contains_key(scope)
            &&& clock.running_nanos > 0 ==> ticks@[i].value == clock.value
                && ticks@[i].enabled_nanos == running_nanos && ticks@[i].running_nanos
                == clock.running_nanos
            &&& clock.running_nanos == 0 ==> ticks@[i] == quantity::no_count()
        }),
{
    assert(estimates@.contains_key(collector.units()[i].scope));
}

} // verus!
