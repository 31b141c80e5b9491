//! What a slice adds to the measurements.
use crate::accumulator::{self, Accumulator, EventKind, EventMeasurement, Grid, Merge, Sample};
use crate::error::CollectorError;
use crate::laws::counting;
use crate::metrics::imc::hsx as imc_hsx;
use crate::metrics::imc::icx as imc_icx;
use crate::metrics::imc::skx as imc_skx;
use crate::metrics::imc::snb as imc_snb;
use crate::metrics::imc::spr as imc_spr;
use crate::metrics::interconnect::qpi_common::{self, QpiEventKind, QpiSample};
use crate::metrics::interconnect::upi_common::{self, UpiEventKind, UpiEventMeasurement};
use crate::metrics::interconnect::InterconnectScope;
use crate::metrics::irp::hsx as irp_hsx;
use crate::metrics::irp::icx as irp_icx;
use crate::metrics::irp::skx as irp_skx;
use crate::metrics::irp::snb as irp_snb;
use crate::metrics::irp::spr as irp_spr;
use crate::ordered_map::Key;
use crate::topology::HsxUncoreScope;
use crate::units::{self, Clock, CounterUse, SliceReadings, Tally, Unit};
use vstd::prelude::*;

verus! {

/// What the samples of an event in a scope come to, where `f` takes a number from a measurement.
pub open spec fn total<S, K, M>(
    samples: Seq<Sample<S, K, M>>,
    scope: S,
    kind: K,
    f: spec_fn(M) -> int,
) -> int
    decreases samples.len(),
{
    if samples.len() == 0 {
        0
    } else {
        let last = samples.last();
        total(samples.drop_last(), scope, kind, f) + if last.scope == scope && last.kind == kind {
            f(last.measurement)
        } else {
            0
        }
    }
}

/// What is held of an event in a scope, or nothing.
pub open spec fn part<S, K, M>(
    grid: Grid<S, K, M>,
    scope: S,
    kind: K,
    f: spec_fn(M) -> int,
) -> int {
    match units::cell(grid, scope, kind) {
        Some(held) => f(held),
        None => 0,
    }
}

/// Whether a number of two measurements that are merged is the sum of theirs.
pub open spec fn adds<M: Merge>(f: spec_fn(M) -> int) -> bool {
    forall|a: M, b: M| #[trigger] a.fits(b) ==> f(a.merged(b)) == f(a) + f(b)
}

/// Whatever adds up when two measurements are merged adds up over all samples of an event in a
/// scope, on top of what was held.
pub proof fn samples_add_up<S, K: EventKind, M: Merge>(
    grid: Grid<S, K, M>,
    samples: Seq<Sample<S, K, M>>,
    after: Grid<S, K, M>,
    scope: S,
    kind: K,
    f: spec_fn(M) -> int,
)
    requires
        accumulator::accumulated(grid, samples) == Some(after),
        kind.is_counted(),
        adds(f),
    ensures
        part(after, scope, kind, f) == part(grid, scope, kind, f) + total(samples, scope, kind, f),
    decreases samples.len(),
{
    if samples.len() > 0 {
        let front = samples.drop_last();
        let before = accumulator::accumulated(grid, front)->0;
        let last = samples.last();
        samples_add_up(grid, front, before, scope, kind, f);
        if last.scope == scope && last.kind == kind {
            let row = accumulator::row_of(before, scope);
            if row.contains_key(kind) {
                assert(row[kind].fits(last.measurement));
            }
        } else {
            accumulator::adding_keeps_other_cells(before, last, scope, kind);
        }
    }
}

proof fn lemma_total_append<S, K, M>(
    first: Seq<Sample<S, K, M>>,
    second: Seq<Sample<S, K, M>>,
    scope: S,
    kind: K,
    f: spec_fn(M) -> int,
)
    ensures
        total(first + second, scope, kind, f) == total(first, scope, kind, f) + total(
            second,
            scope,
            kind,
            f,
        ),
    decreases second.len(),
{
    if second.len() == 0 {
        assert(first + second =~= first);
    } else {
        assert((first + second).drop_last() =~= first + second.drop_last());
        lemma_total_append(first, second.drop_last(), scope, kind, f);
    }
}

/// What the counters of a unit that are set to an event come to, where `g` takes a number from a
/// reading: those among the first `n`, whose readings start at `base`.
pub open spec fn unit_total<K>(
    values: Seq<u64>,
    base: int,
    kinds: Seq<Option<K>>,
    kind: K,
    g: spec_fn(u64) -> int,
    n: nat,
) -> int
    decreases n,
{
    if n == 0 {
        0
    } else {
        unit_total(values, base, kinds, kind, g, (n - 1) as nat) + if kinds[n - 1] == Some(kind) {
            g(values[base + n - 1])
        } else {
            0
        }
    }
}

/// What all counters of the units of a scope that are set to an event come to. The readings of
/// every unit follow those of the unit before it.
pub open spec fn scope_total<S, K>(
    units: Seq<Unit<S>>,
    values: Seq<u64>,
    kinds: Seq<Option<K>>,
    scope: S,
    kind: K,
    g: spec_fn(u64) -> int,
) -> int
    decreases units.len(),
{
    if units.len() == 0 {
        0
    } else {
        let base = (units.len() - 1) * kinds.len();
        scope_total(units.drop_last(), values, kinds, scope, kind, g) + if units.last().scope
            == scope {
            unit_total(values, base, kinds, kind, g, kinds.len())
        } else {
            0
        }
    }
}

proof fn lemma_row_total<S, K>(
    at: S,
    values: Seq<u64>,
    base: int,
    kinds: Seq<Option<K>>,
    enabled_nanos: u128,
    running_nanos: u128,
    n: nat,
    scope: S,
    kind: K,
    f: spec_fn(EventMeasurement) -> int,
    g: spec_fn(u64) -> int,
)
    requires
        n <= kinds.len(),
        forall|value: u64| #[trigger]
            g(value) == f(
                EventMeasurement {
                    enabled_nanos,
                    running_nanos,
                    ticks: 0,
                    value: (value % 0x1_0000_0000_0000) as u64,
                },
            ),
    ensures
        total(
            units::unit_row(at, values, base, kinds, enabled_nanos, running_nanos, n),
            scope,
            kind,
            f,
        ) == if at == scope {
            unit_total(values, base, kinds, kind, g, n)
        } else {
            0
        },
    decreases n,
{
    if n > 0 {
        let before = units::unit_row(
            at,
            values,
            base,
            kinds,
            enabled_nanos,
            running_nanos,
            (n - 1) as nat,
        );
        let row = units::unit_row(at, values, base, kinds, enabled_nanos, running_nanos, n);
        lemma_row_total(
            at,
            values,
            base,
            kinds,
            enabled_nanos,
            running_nanos,
            (n - 1) as nat,
            scope,
            kind,
            f,
            g,
        );
        if kinds[n - 1] is Some {
            assert(row.drop_last() =~= before);
            let value = values[base + n - 1];
            assert(g(value) == f(row.last().measurement));
        }
    }
}

/// The samples of a slice come to what the counters of the units come to.
pub proof fn slice_totals_are_those_of_the_counters<S, K>(
    units: Seq<Unit<S>>,
    values: Seq<u64>,
    kinds: Seq<Option<K>>,
    enabled_nanos: u128,
    running_nanos: u128,
    scope: S,
    kind: K,
    f: spec_fn(EventMeasurement) -> int,
    g: spec_fn(u64) -> int,
)
    requires
        forall|value: u64| #[trigger]
            g(value) == f(
                EventMeasurement {
                    enabled_nanos,
                    running_nanos,
                    ticks: 0,
                    value: (value % 0x1_0000_0000_0000) as u64,
                },
            ),
    ensures
        total(
            units::unit_samples(units, values, kinds, enabled_nanos, running_nanos),
            scope,
            kind,
            f,
        ) == scope_total(units, values, kinds, scope, kind, g),
    decreases units.len(),
{
    if units.len() > 0 {
        let front = units.drop_last();
        let before = units::unit_samples(front, values, kinds, enabled_nanos, running_nanos);
        let base = (units.len() - 1) * kinds.len();
        let row = units::unit_row(
            units.last().scope,
            values,
            base,
            kinds,
            enabled_nanos,
            running_nanos,
            kinds.len(),
        );
        slice_totals_are_those_of_the_counters(
            front,
            values,
            kinds,
            enabled_nanos,
            running_nanos,
            scope,
            kind,
            f,
            g,
        );
        lemma_row_total(
            units.last().scope,
            values,
            base,
            kinds,
            enabled_nanos,
            running_nanos,
            kinds.len(),
            scope,
            kind,
            f,
            g,
        );
        lemma_total_append(before, row, scope, kind, f);
    }
}

/// The count of a reading: its low 48 bits.
pub open spec fn low48() -> spec_fn(u64) -> int {
    |value: u64| value as int % 0x1_0000_0000_0000
}

/// Whether a slice added to an event in a scope what the counters of its units read, and the
/// running time once for each of these counters.
pub open spec fn adds_slice<S, K>(
    before: Grid<S, K, EventMeasurement>,
    after: Grid<S, K, EventMeasurement>,
    units: Seq<Unit<S>>,
    readings: SliceReadings,
    kinds: Seq<Option<K>>,
    scope: S,
    kind: K,
) -> bool {
    let value = |held: EventMeasurement| held.value as int;
    let running = |held: EventMeasurement| held.running_nanos as int;
    let each = |value: u64| readings.running_nanos as int;
    &&& part(after, scope, kind, value) == part(before, scope, kind, value) + scope_total(
        units,
        readings.values@,
        kinds,
        scope,
        kind,
        low48(),
    )
    &&& part(after, scope, kind, running) == part(before, scope, kind, running) + scope_total(
        units,
        readings.values@,
        kinds,
        scope,
        kind,
        each,
    )
}

proof fn lemma_adds_slice<S: Key, K: EventKind>(
    units: Seq<Unit<S>>,
    readings: SliceReadings,
    kinds: Seq<Option<K>>,
    held: Accumulator<S, K, EventMeasurement>,
    after: Accumulator<S, K, EventMeasurement>,
    scope: S,
    kind: K,
)
    requires
        units::is_record_by_unit(
            units,
            readings,
            kinds,
            held,
            Ok::<Accumulator<S, K, EventMeasurement>, CollectorError>(after),
        ),
        kind.is_counted(),
    ensures
        adds_slice(held.grid(), after.grid(), units, readings, kinds, scope, kind),
{
    let value = |held: EventMeasurement| held.value as int;
    let running = |held: EventMeasurement| held.running_nanos as int;
    let each = |value: u64| readings.running_nanos as int;
    let values = readings.values@;
    let samples = units::unit_samples(
        units,
        values,
        kinds,
        readings.enabled_nanos,
        readings.running_nanos,
    );
    samples_add_up(held.grid(), samples, after.grid(), scope, kind, value);
    samples_add_up(held.grid(), samples, after.grid(), scope, kind, running);
    slice_totals_are_those_of_the_counters(
        units,
        values,
        kinds,
        readings.enabled_nanos,
        readings.running_nanos,
        scope,
        kind,
        value,
        low48(),
    );
    slice_totals_are_those_of_the_counters(
        units,
        values,
        kinds,
        readings.enabled_nanos,
        readings.running_nanos,
        scope,
        kind,
        running,
        each,
    );
}

/// Whether a slice added to an event in a scope what was measured of it there, and nothing where
/// the event is not counted or the scope has no unit.
pub open spec fn adds_measured<S, K: EventKind>(
    before: Grid<S, K, EventMeasurement>,
    after: Grid<S, K, EventMeasurement>,
    units: Seq<Unit<S>>,
    readings: SliceReadings,
    clock: Clock,
    tally: Tally,
    uses: Seq<CounterUse<K>>,
    scope: S,
    kind: K,
) -> bool {
    let held = units::cell(before, scope, kind);
    let now = units::cell(after, scope, kind);
    let counts = units::has_scope(units, scope) && units::has_kind(uses, kind);
    let measured = units::measured(
        units,
        readings.values@,
        clock,
        tally,
        scope,
        uses,
        kind,
        readings.enabled_nanos,
        readings.running_nanos,
    );
    &&& !counts ==> now == held
    &&& counts && held is None ==> now == Some(measured)
    &&& counts && held is Some ==> {
        &&& now is Some
        &&& now->0.value == held->0.value + measured.value
        &&& now->0.ticks == held->0.ticks + measured.ticks
        &&& now->0.running_nanos == held->0.running_nanos + measured.running_nanos
        &&& now->0.enabled_nanos == held->0.enabled_nanos
    }
}

proof fn lemma_adds_measured<S: Key, K: EventKind>(
    units: Seq<Unit<S>>,
    readings: SliceReadings,
    clock: Clock,
    tally: Tally,
    uses: Seq<CounterUse<K>>,
    held: Accumulator<S, K, EventMeasurement>,
    after: Accumulator<S, K, EventMeasurement>,
    scope: S,
    kind: K,
)
    requires
        units::is_record_by_scope(
            units,
            readings,
            clock,
            tally,
            uses,
            held,
            Ok::<Accumulator<S, K, EventMeasurement>, CollectorError>(after),
        ),
    ensures
        adds_measured(
            held.grid(),
            after.grid(),
            units,
            readings,
            clock,
            tally,
            uses,
            scope,
            kind,
        ),
{
    if units::has_scope(units, scope) && units::has_kind(uses, kind) {
        assert(units::scope_recordable(
            held.grid(),
            units,
            readings,
            clock,
            tally,
            uses,
            scope,
        ));
        assert(units::event_recordable(
            held.grid(),
            units,
            readings,
            clock,
            tally,
            uses,
            scope,
            kind,
        ));
    }
    counting::slice_adds_what_it_measured(
        held.grid(),
        after.grid(),
        units,
        readings,
        clock,
        tally,
        uses,
        scope,
        kind,
    );
}

/// A slice of the inbound units of Haswell and Broadwell adds what every counter read to the event
/// that it counts, in the scope of its unit; a slice without a reading for every counter is
/// refused.
pub proof fn hsx_inbound_slice_is_added(
    collector: irp_hsx::HsxIrpCollector,
    group: irp_hsx::HsxIrpEventGroup,
    readings: SliceReadings,
    held: Accumulator<HsxUncoreScope, irp_hsx::HsxIrpEventKind, EventMeasurement>,
    result: Result<Accumulator<HsxUncoreScope, irp_hsx::HsxIrpEventKind, EventMeasurement>, CollectorError>,
    scope: HsxUncoreScope,
    kind: irp_hsx::HsxIrpEventKind,
)
    requires
        call_ensures(
            irp_hsx::HsxIrpCollector::record,
            (&collector, group, &readings, held),
            result,
        ),
        kind !is Disabled,
    ensures
        result matches Ok(after) ==> adds_slice(
            held.grid(),
            after.grid(),
            collector.units(),
            readings,
            irp_hsx::counter_kinds(group),
            scope,
            kind,
        ),
        result is Ok ==> readings.values@.len() == collector.units().len() * 4,
        readings.values@.len() != collector.units().len() * 4 ==> result == Err::<
            Accumulator<HsxUncoreScope, irp_hsx::HsxIrpEventKind, EventMeasurement>,
            CollectorError,
        >(CollectorError::ReadingCount { expected: 4, found: readings.values@.len() as usize }),
{
    assert(irp_hsx::counter_kinds(group).len() == 4);
    if result is Ok {
        lemma_adds_slice(
            collector.units(),
            readings,
            irp_hsx::counter_kinds(group),
            held,
            result->Ok_0,
            scope,
            kind,
        );
    }
}

/// A slice of the inbound units of Ice Lake adds what every counter read to the event that it
/// counts, in the scope of its unit; a slice without a reading for every counter is refused.
pub proof fn icx_inbound_slice_is_added(
    collector: irp_icx::IcxIrpCollector,
    group: irp_icx::IcxIrpEventGroup,
    readings: SliceReadings,
    held: Accumulator<irp_icx::IcxIrpStackScope, irp_icx::IcxIrpEventKind, EventMeasurement>,
    result: Result<Accumulator<irp_icx::IcxIrpStackScope, irp_icx::IcxIrpEventKind, EventMeasurement>, CollectorError>,
    scope: irp_icx::IcxIrpStackScope,
    kind: irp_icx::IcxIrpEventKind,
)
    requires
        call_ensures(
            irp_icx::IcxIrpCollector::record,
            (&collector, group, &readings, held),
            result,
        ),
    ensures
        result matches Ok(after) ==> adds_slice(
            held.grid(),
            after.grid(),
            collector.units(),
            readings,
            irp_icx::counter_kinds(group),
            scope,
            kind,
        ),
        result is Ok ==> readings.values@.len() == collector.units().len() * 2,
        readings.values@.len() != collector.units().len() * 2 ==> result == Err::<
            Accumulator<irp_icx::IcxIrpStackScope, irp_icx::IcxIrpEventKind, EventMeasurement>,
            CollectorError,
        >(CollectorError::ReadingCount { expected: 2, found: readings.values@.len() as usize }),
{
    assert(irp_icx::counter_kinds(group).len() == 2);
    if result is Ok {
        lemma_adds_slice(
            collector.units(),
            readings,
            irp_icx::counter_kinds(group),
            held,
            result->Ok_0,
            scope,
            kind,
        );
    }
}

/// A slice of the inbound units of Skylake adds what every counter read to the event that it
/// counts, in the scope of its unit; a slice without a reading for every counter is refused.
pub proof fn skx_inbound_slice_is_added(
    collector: irp_skx::IrpCollector,
    group: irp_skx::IrpEventGroup,
    readings: SliceReadings,
    held: Accumulator<irp_skx::IrpStackScope, irp_skx::IrpEventKind, EventMeasurement>,
    result: Result<Accumulator<irp_skx::IrpStackScope, irp_skx::IrpEventKind, EventMeasurement>, CollectorError>,
    scope: irp_skx::IrpStackScope,
    kind: irp_skx::IrpEventKind,
)
    requires
        call_ensures(irp_skx::IrpCollector::record, (&collector, group, &readings, held), result),
    ensures
        result matches Ok(after) ==> adds_slice(
            held.grid(),
            after.grid(),
            collector.units(),
            readings,
            irp_skx::counter_kinds(group),
            scope,
            kind,
        ),
        result is Ok ==> readings.values@.len() == collector.units().len() * 2,
        readings.values@.len() != collector.units().len() * 2 ==> result == Err::<
            Accumulator<irp_skx::IrpStackScope, irp_skx::IrpEventKind, EventMeasurement>,
            CollectorError,
        >(CollectorError::ReadingCount { expected: 2, found: readings.values@.len() as usize }),
{
    assert(irp_skx::counter_kinds(group).len() == 2);
    if result is Ok {
        lemma_adds_slice(
            collector.units(),
            readings,
            irp_skx::counter_kinds(group),
            held,
            result->Ok_0,
            scope,
            kind,
        );
    }
}

/// A slice of the inbound units of Sandy and Ivy Bridge adds what every counter read to the event
/// that it counts, in the scope of its unit; a slice without a reading for every counter is
/// refused.
pub proof fn snb_inbound_slice_is_added(
    collector: irp_snb::SnbIrpCollector,
    group: irp_snb::SnbIrpEventGroup,
    readings: SliceReadings,
    held: Accumulator<irp_snb::SnbIrpScope, irp_snb::SnbIrpEventKind, EventMeasurement>,
    result: Result<Accumulator<irp_snb::SnbIrpScope, irp_snb::SnbIrpEventKind, EventMeasurement>, CollectorError>,
    scope: irp_snb::SnbIrpScope,
    kind: irp_snb::SnbIrpEventKind,
)
    requires
        call_ensures(
            irp_snb::SnbIrpCollector::record,
            (&collector, group, &readings, held),
            result,
        ),
        kind !is Disabled,
    ensures
        result matches Ok(after) ==> adds_slice(
            held.grid(),
            after.grid(),
            collector.units(),
            readings,
            irp_snb::counter_kinds(group),
            scope,
            kind,
        ),
        result is Ok ==> readings.values@.len() == collector.units().len() * 4,
        readings.values@.len() != collector.units().len() * 4 ==> result == Err::<
            Accumulator<irp_snb::SnbIrpScope, irp_snb::SnbIrpEventKind, EventMeasurement>,
            CollectorError,
        >(CollectorError::ReadingCount { expected: 4, found: readings.values@.len() as usize }),
{
    assert(irp_snb::counter_kinds(group).len() == 4);
    if result is Ok {
        lemma_adds_slice(
            collector.units(),
            readings,
            irp_snb::counter_kinds(group),
            held,
            result->Ok_0,
            scope,
            kind,
        );
    }
}

/// A slice of the inbound units of Sapphire Rapids adds what every counter read to the event that
/// it counts, in the scope of its unit; a slice without a reading for every counter is refused.
pub proof fn spr_inbound_slice_is_added(
    collector: irp_spr::SprIrpCollector,
    group: irp_spr::SprIrpEventGroup,
    readings: SliceReadings,
    held: Accumulator<irp_spr::SprIrpStackScope, irp_spr::SprIrpEventKind, EventMeasurement>,
    result: Result<Accumulator<irp_spr::SprIrpStackScope, irp_spr::SprIrpEventKind, EventMeasurement>, CollectorError>,
    scope: irp_spr::SprIrpStackScope,
    kind: irp_spr::SprIrpEventKind,
)
    requires
        call_ensures(
            irp_spr::SprIrpCollector::record,
            (&collector, group, &readings, held),
            result,
        ),
    ensures
        result matches Ok(after) ==> adds_slice(
            held.grid(),
            after.grid(),
            collector.units(),
            readings,
            irp_spr::counter_kinds(group),
            scope,
            kind,
        ),
        result is Ok ==> readings.values@.len() == collector.units().len() * 2,
        readings.values@.len() != collector.units().len() * 2 ==> result == Err::<
            Accumulator<irp_spr::SprIrpStackScope, irp_spr::SprIrpEventKind, EventMeasurement>,
            CollectorError,
        >(CollectorError::ReadingCount { expected: 2, found: readings.values@.len() as usize }),
{
    assert(irp_spr::counter_kinds(group).len() == 2);
    if result is Ok {
        lemma_adds_slice(
            collector.units(),
            readings,
            irp_spr::counter_kinds(group),
            held,
            result->Ok_0,
            scope,
            kind,
        );
    }
}

/// A slice of the memory channels of Ice Lake adds to every event what was measured of it in a
/// scope, over the low 48 bits of the clock counters, counting an event as running once; a slice
/// without a reading for every counter and clock is refused.
pub proof fn icx_memory_slice_is_added(
    collector: imc_icx::IcxImcCollector,
    group: imc_icx::IcxImcEventGroup,
    readings: SliceReadings,
    held: Accumulator<imc_icx::IcxImcScope, imc_icx::IcxImcEventKind, EventMeasurement>,
    result: Result<Accumulator<imc_icx::IcxImcScope, imc_icx::IcxImcEventKind, EventMeasurement>, CollectorError>,
    scope: imc_icx::IcxImcScope,
    kind: imc_icx::IcxImcEventKind,
)
    requires
        call_ensures(
            imc_icx::IcxImcCollector::record,
            (&collector, group, &readings, held),
            result,
        ),
    ensures
        result matches Ok(after) ==> adds_measured(
            held.grid(),
            after.grid(),
            collector.units(),
            readings,
            Clock::Masked,
            Tally::Event,
            imc_icx::counter_uses(group),
            scope,
            kind,
        ),
        result is Ok ==> readings.values@.len() == collector.units().len() * 5,
        readings.values@.len() != collector.units().len() * 5 ==> result == Err::<
            Accumulator<imc_icx::IcxImcScope, imc_icx::IcxImcEventKind, EventMeasurement>,
            CollectorError,
        >(CollectorError::ReadingCount { expected: 5, found: readings.values@.len() as usize }),
{
    assert(imc_icx::counter_uses(group).len() == 4);
    if result is Ok {
        lemma_adds_measured(
            collector.units(),
            readings,
            Clock::Masked,
            Tally::Event,
            imc_icx::counter_uses(group),
            held,
            result->Ok_0,
            scope,
            kind,
        );
    }
}

/// A slice of the memory channels of Skylake adds to every event what was measured of it in a
/// scope, over all bits of the clock counters, counting a counter as running once; a slice without
/// a reading for every counter and clock is refused.
pub proof fn skx_memory_slice_is_added(
    collector: imc_skx::SkxImcCollector,
    group: imc_skx::ImcEventGroup,
    readings: SliceReadings,
    held: Accumulator<imc_skx::ImcScope, imc_skx::ImcEventKind, EventMeasurement>,
    result: Result<Accumulator<imc_skx::ImcScope, imc_skx::ImcEventKind, EventMeasurement>, CollectorError>,
    scope: imc_skx::ImcScope,
    kind: imc_skx::ImcEventKind,
)
    requires
        call_ensures(
            imc_skx::SkxImcCollector::record,
            (&collector, group, &readings, held),
            result,
        ),
    ensures
        result matches Ok(after) ==> adds_measured(
            held.grid(),
            after.grid(),
            collector.units(),
            readings,
            Clock::Full,
            Tally::Counter,
            imc_skx::counter_uses(group),
            scope,
            kind,
        ),
        result is Ok ==> readings.values@.len() == collector.units().len() * 5,
        readings.values@.len() != collector.units().len() * 5 ==> result == Err::<
            Accumulator<imc_skx::ImcScope, imc_skx::ImcEventKind, EventMeasurement>,
            CollectorError,
        >(CollectorError::ReadingCount { expected: 5, found: readings.values@.len() as usize }),
{
    assert(imc_skx::counter_uses(group).len() == 4);
    if result is Ok {
        lemma_adds_measured(
            collector.units(),
            readings,
            Clock::Full,
            Tally::Counter,
            imc_skx::counter_uses(group),
            held,
            result->Ok_0,
            scope,
            kind,
        );
    }
}

/// A slice of the memory channels of Sandy and Ivy Bridge adds to every event what was measured of
/// it in a scope, over all bits of the clock counters, counting a counter as running once; a slice
/// without a reading for every counter and clock is refused.
pub proof fn snb_memory_slice_is_added(
    collector: imc_snb::SnbImcCollector,
    group: imc_snb::SnbImcEventGroup,
    readings: SliceReadings,
    held: Accumulator<imc_snb::SnbImcScope, imc_snb::SnbImcEventKind, EventMeasurement>,
    result: Result<Accumulator<imc_snb::SnbImcScope, imc_snb::SnbImcEventKind, EventMeasurement>, CollectorError>,
    scope: imc_snb::SnbImcScope,
    kind: imc_snb::SnbImcEventKind,
)
    requires
        call_ensures(
            imc_snb::SnbImcCollector::record,
            (&collector, group, &readings, held),
            result,
        ),
    ensures
        result matches Ok(after) ==> adds_measured(
            held.grid(),
            after.grid(),
            collector.units(),
            readings,
            Clock::Full,
            Tally::Counter,
            imc_snb::counter_uses(group),
            scope,
            kind,
        ),
        result is Ok ==> readings.values@.len() == collector.units().len() * 5,
        readings.values@.len() != collector.units().len() * 5 ==> result == Err::<
            Accumulator<imc_snb::SnbImcScope, imc_snb::SnbImcEventKind, EventMeasurement>,
            CollectorError,
        >(CollectorError::ReadingCount { expected: 5, found: readings.values@.len() as usize }),
{
    assert(imc_snb::counter_uses(group).len() == 4);
    if result is Ok {
        lemma_adds_measured(
            collector.units(),
            readings,
            Clock::Full,
            Tally::Counter,
            imc_snb::counter_uses(group),
            held,
            result->Ok_0,
            scope,
            kind,
        );
    }
}

/// A slice of the memory channels of Sapphire Rapids adds to every event what was measured of it in
/// a scope, over the low 48 bits of the clock counters, counting an event as running once; a slice
/// without a reading for every counter and clock is refused.
pub proof fn spr_memory_slice_is_added(
    collector: imc_spr::SprImcCollector,
    group: imc_spr::SprImcEventGroup,
    readings: SliceReadings,
    held: Accumulator<imc_spr::SprImcScope, imc_spr::SprImcEventKind, EventMeasurement>,
    result: Result<Accumulator<imc_spr::SprImcScope, imc_spr::SprImcEventKind, EventMeasurement>, CollectorError>,
    scope: imc_spr::SprImcScope,
    kind: imc_spr::SprImcEventKind,
)
    requires
        call_ensures(
            imc_spr::SprImcCollector::record,
            (&collector, group, &readings, held),
            result,
        ),
    ensures
        result matches Ok(after) ==> adds_measured(
            held.grid(),
            after.grid(),
            collector.units(),
            readings,
            Clock::Masked,
            Tally::Event,
            imc_spr::counter_uses(group),
            scope,
            kind,
        ),
        result is Ok ==> readings.values@.len() == collector.units().len() * 5,
        readings.values@.len() != collector.units().len() * 5 ==> result == Err::<
            Accumulator<imc_spr::SprImcScope, imc_spr::SprImcEventKind, EventMeasurement>,
            CollectorError,
        >(CollectorError::ReadingCount { expected: 5, found: readings.values@.len() as usize }),
{
    assert(imc_spr::counter_uses(group).len() == 4);
    if result is Ok {
        lemma_adds_measured(
            collector.units(),
            readings,
            Clock::Masked,
            Tally::Event,
            imc_spr::counter_uses(group),
            held,
            result->Ok_0,
            scope,
            kind,
        );
    }
}

/// A slice of the home agents or of the memory channels of Haswell and Broadwell adds to every
/// event what was measured of it in a scope, and leaves the measurements of the other ones as they
/// are. The home agents have no clock.
pub proof fn hsx_memory_slice_is_added(
    collector: imc_hsx::HsxImcCollector,
    group: imc_hsx::HsxMeasurementGroup,
    readings: SliceReadings,
    held: imc_hsx::HsxImcMeasurements,
    after: imc_hsx::HsxImcMeasurements,
    scope: HsxUncoreScope,
    agent: imc_hsx::HsxHaEventKind,
    kind: imc_hsx::HsxImcEventKind,
)
    requires
        call_ensures(
            imc_hsx::HsxImcCollector::record,
            (&collector, group, &readings, held),
            Ok::<imc_hsx::HsxImcMeasurements, CollectorError>(after),
        ),
    ensures
        match group {
            imc_hsx::HsxMeasurementGroup::Ha(group) => {
                &&& after.imc == held.imc
                &&& readings.values@.len() == collector.ha_units().len() * 4
                &&& adds_measured(
                    held.ha.grid(),
                    after.ha.grid(),
                    collector.ha_units(),
                    readings,
                    Clock::Absent,
                    Tally::Counter,
                    imc_hsx::ha_uses(group),
                    scope,
                    agent,
                )
            },
            imc_hsx::HsxMeasurementGroup::Imc(group) => {
                &&& after.ha == held.ha
                &&& readings.values@.len() == collector.channels().len() * 5
                &&& adds_measured(
                    held.imc.grid(),
                    after.imc.grid(),
                    collector.channels(),
                    readings,
                    Clock::Full,
                    Tally::Counter,
                    imc_hsx::imc_uses(group),
                    scope,
                    kind,
                )
            },
        },
{
    match group {
        imc_hsx::HsxMeasurementGroup::Ha(group) => {
            assert(imc_hsx::ha_uses(group).len() == 4);
            lemma_adds_measured(
                collector.ha_units(),
                readings,
                Clock::Absent,
                Tally::Counter,
                imc_hsx::ha_uses(group),
                held.ha,
                after.ha,
                scope,
                agent,
            );
        },
        imc_hsx::HsxMeasurementGroup::Imc(group) => {
            assert(imc_hsx::imc_uses(group).len() == 4);
            lemma_adds_measured(
                collector.channels(),
                readings,
                Clock::Full,
                Tally::Counter,
                imc_hsx::imc_uses(group),
                held.imc,
                after.imc,
                scope,
                kind,
            );
        },
    }
}

/// A slice of the UPI links adds what every counter read to the event that it counts, for its link,
/// and how long it ran and was meant to run once for each counter.
pub proof fn upi_slice_is_added(
    collector: upi_common::UpiCollector,
    group: upi_common::UpiEventGroup,
    readings: SliceReadings,
    held: upi_common::UpiMeasurementAccumulator,
    after: upi_common::UpiMeasurementAccumulator,
    scope: InterconnectScope,
    kind: UpiEventKind,
)
    requires
        call_ensures(
            upi_common::UpiCollector::record,
            (&collector, group, &readings, held),
            Ok::<upi_common::UpiMeasurementAccumulator, CollectorError>(after),
        ),
        kind !is Unused,
    ensures
        ({
            let value = |held: UpiEventMeasurement| held.value as int;
            let running = |held: UpiEventMeasurement| held.running_nanos as int;
            let enabled = |held: UpiEventMeasurement| held.enabled_nanos as int;
            let kinds = upi_common::counter_kinds(group);
            let units = collector.units();
            &&& readings.values@.len() == units.len() * 4
            &&& part(after.grid(), scope, kind, value) == part(held.grid(), scope, kind, value)
                + scope_total(units, readings.values@, kinds, scope, kind, low48())
            &&& part(after.grid(), scope, kind, running) == part(held.grid(), scope, kind, running)
                + scope_total(
                units,
                readings.values@,
                kinds,
                scope,
                kind,
                |value: u64| readings.running_nanos as int,
            )
            &&& part(after.grid(), scope, kind, enabled) == part(held.grid(), scope, kind, enabled)
                + scope_total(
                units,
                readings.values@,
                kinds,
                scope,
                kind,
                |value: u64| readings.enabled_nanos as int,
            )
        }),
{
    let value = |held: UpiEventMeasurement| held.value as int;
    let running = |held: UpiEventMeasurement| held.running_nanos as int;
    let enabled = |held: UpiEventMeasurement| held.enabled_nanos as int;
    let kinds = upi_common::counter_kinds(group);
    lemma_upi_part(collector.units(), readings, group, held, after, scope, kind, value, low48());
    lemma_upi_part(
        collector.units(),
        readings,
        group,
        held,
        after,
        scope,
        kind,
        running,
        |value: u64| readings.running_nanos as int,
    );
    lemma_upi_part(
        collector.units(),
        readings,
        group,
        held,
        after,
        scope,
        kind,
        enabled,
        |value: u64| readings.enabled_nanos as int,
    );
}

/// What a measurement of a UPI event keeps of a measurement.
pub open spec fn as_upi(measurement: EventMeasurement) -> UpiEventMeasurement {
    UpiEventMeasurement {
        enabled_nanos: measurement.enabled_nanos,
        running_nanos: measurement.running_nanos,
        value: measurement.value,
    }
}

proof fn lemma_upi_samples(
    samples: Seq<Sample<InterconnectScope, UpiEventKind, EventMeasurement>>,
    scope: InterconnectScope,
    kind: UpiEventKind,
    f: spec_fn(UpiEventMeasurement) -> int,
)
    ensures
        total(upi_common::link_samples(samples), scope, kind, f) == total(
            samples,
            scope,
            kind,
            |measurement: EventMeasurement| f(as_upi(measurement)),
        ),
    decreases samples.len(),
{
    if samples.len() > 0 {
        let list = upi_common::link_samples(samples);
        assert(list.drop_last() =~= upi_common::link_samples(samples.drop_last()));
        lemma_upi_samples(samples.drop_last(), scope, kind, f);
        assert(list.last().measurement == as_upi(samples.last().measurement));
    }
}

proof fn lemma_upi_part(
    units: Seq<Unit<InterconnectScope>>,
    readings: SliceReadings,
    group: upi_common::UpiEventGroup,
    held: upi_common::UpiMeasurementAccumulator,
    after: upi_common::UpiMeasurementAccumulator,
    scope: InterconnectScope,
    kind: UpiEventKind,
    f: spec_fn(UpiEventMeasurement) -> int,
    g: spec_fn(u64) -> int,
)
    requires
        upi_common::recorded(units, readings, group, held.grid()) == Some(after.grid()),
        kind !is Unused,
        adds(f),
        forall|value: u64| #[trigger]
            g(value) == f(
                UpiEventMeasurement {
                    enabled_nanos: readings.enabled_nanos,
                    running_nanos: readings.running_nanos,
                    value: (value % 0x1_0000_0000_0000) as u64,
                },
            ),
    ensures
        part(after.grid(), scope, kind, f) == part(held.grid(), scope, kind, f) + scope_total(
            units,
            readings.values@,
            upi_common::counter_kinds(group),
            scope,
            kind,
            g,
        ),
{
    let kinds = upi_common::counter_kinds(group);
    let samples = units::unit_samples(
        units,
        readings.values@,
        kinds,
        readings.enabled_nanos,
        readings.running_nanos,
    );
    let inner = |measurement: EventMeasurement| f(as_upi(measurement));
    samples_add_up(held.grid(), upi_common::link_samples(samples), after.grid(), scope, kind, f);
    lemma_upi_samples(samples, scope, kind, f);
    slice_totals_are_those_of_the_counters(
        units,
        readings.values@,
        kinds,
        readings.enabled_nanos,
        readings.running_nanos,
        scope,
        kind,
        inner,
        g,
    );
}

/// The samples of a slice of the QPI links come to what every counter read of its event, for its
/// link.
pub proof fn qpi_slice_is_sampled(
    collector: qpi_common::QpiCollector,
    group: qpi_common::QpiEventGroup,
    readings: SliceReadings,
    samples: Vec<QpiSample>,
    scope: InterconnectScope,
    kind: QpiEventKind,
)
    requires
        call_ensures(
            qpi_common::QpiCollector::samples,
            (&collector, group, &readings),
            Ok::<Vec<QpiSample>, CollectorError>(samples),
        ),
    ensures
        readings.values@.len() == collector.units().len() * 4,
        total(samples@, scope, kind, |measurement: EventMeasurement| measurement.value as int)
            == scope_total(
            collector.units(),
            readings.values@,
            qpi_common::counter_kinds(group),
            scope,
            kind,
            low48(),
        ),
{
    slice_totals_are_those_of_the_counters(
        collector.units(),
        readings.values@,
        qpi_common::counter_kinds(group),
        readings.enabled_nanos,
        readings.running_nanos,
        scope,
        kind,
        |measurement: EventMeasurement| measurement.value as int,
        low48(),
    );
}

} // verus!
