//! What is said of the power control units.
use crate::accumulator::Accumulator;
use crate::error::CollectorError;
use crate::export::{GaugeUpdate, Labels};
use crate::laws::labels;
use crate::laws::lists;
use crate::laws::value;
use crate::metrics::pcu::common::{self, PcuEventKind, PcuMeasurement, Rows};
use crate::metrics::pcu::{
    hsx, icx, skx, snb, spr, PcuClockMetrics, PcuCoreCState, PcuCoreCStateMetrics,
    PcuCycleRatioMetrics, PcuFrequencyLimitMetrics, PcuFrequencyLimitReason,
    PcuPackageCStateMetrics, PcuPackageScope, PcuScope, PcuThermalThrottleSource,
};
use vstd::prelude::*;

verus! {

/// Whether a metric says of a row how many cores are in a C-state: what that event counted for
/// each tick of the clock that was counted with it.
pub open spec fn is_core_state<S>(
    metric: PcuCoreCStateMetrics<S>,
    row: (S, Map<PcuEventKind, PcuMeasurement>),
) -> bool {
    let kind = PcuEventKind::CoreCState(metric.c_state);
    &&& metric.scope == row.0
    &&& row.1.contains_key(kind)
    &&& value::is_quotient(metric.average_cores, row.1[kind].value as nat, row.1[kind].ticks as nat)
}

/// Whether a metric says of some row how many cores are in a C-state.
pub open spec fn is_core_state_of<S>(metric: PcuCoreCStateMetrics<S>, rows: Rows<S>) -> bool {
    exists|i: int| 0 <= i < rows.len() && is_core_state(metric, #[trigger] rows[i])
}

/// Whether what a row holds of an event is reported.
pub open spec fn has_core_state<S>(
    metrics: Seq<PcuCoreCStateMetrics<S>>,
    row: (S, Map<PcuEventKind, PcuMeasurement>),
    key: PcuCoreCState,
) -> bool {
    exists|k: int|
        0 <= k < metrics.len() && (
            #[trigger] metrics[k]
        ).c_state == key && is_core_state(metrics[k], row)
}

proof fn lemma_core_state_row<S>(
    row: (S, Map<PcuEventKind, PcuMeasurement>),
    keys: Seq<PcuCoreCState>,
    n: nat,
    j: int,
)
    requires
        n <= keys.len(),
        0 <= j < common::core_state_row(row, keys, n).len(),
    ensures
        is_core_state(common::core_state_row(row, keys, n)[j], row),
    decreases n,
{
    if n > 0 && j < common::core_state_row(row, keys, (n - 1) as nat).len() {
        lemma_core_state_row(row, keys, (n - 1) as nat, j);
    }
}

proof fn lemma_core_state_held<S>(
    row: (S, Map<PcuEventKind, PcuMeasurement>),
    keys: Seq<PcuCoreCState>,
    n: nat,
    j: int,
) -> (place: int)
    requires
        0 <= j < n <= keys.len(),
        row.1.contains_key(PcuEventKind::CoreCState(keys[j])),
    ensures
        0 <= place < common::core_state_row(row, keys, n).len(),
        common::core_state_row(row, keys, n)[place].c_state == keys[j],
    decreases n,
{
    if j < n - 1 {
        lemma_core_state_held(row, keys, (n - 1) as nat, j)
    } else {
        common::core_state_row(row, keys, (n - 1) as nat).len() as int
    }
}

/// Of a list on how many cores are in a C-state,
/// every metric is made of the event of its own row, and every event that a row holds is reported.
pub proof fn core_state_list_is_made_of_its_events<S>(
    rows: Rows<S>,
    keys: Seq<PcuCoreCState>,
)
    ensures
        forall|k: int|
            0 <= k < common::core_state_list(rows, keys).len() ==> is_core_state_of(
                #[trigger] common::core_state_list(rows, keys)[k],
                rows,
            ),
        forall|i: int, key: PcuCoreCState|
            0 <= i < rows.len() && keys.contains(key) && (#[trigger] rows[i]).1.contains_key(
                PcuEventKind::CoreCState(key),
            ) ==> #[trigger] has_core_state(common::core_state_list(rows, keys), rows[i], key),
{
    let f = |row: (
        S,
        Map<PcuEventKind, PcuMeasurement>
    )| common::core_state_row(row, keys, keys.len());
    let list = common::core_state_list(rows, keys);
    assert forall|k: int| 0 <= k < list.len() implies is_core_state_of(
        #[trigger] list[k],
        rows,
    ) by {
        let place = lists::every_element_comes_of_an_item(rows, f, k);
        lemma_core_state_row(rows[place.0], keys, keys.len(), place.1);
    }
    assert forall|i: int, key: PcuCoreCState|
        0 <= i < rows.len() && keys.contains(key) && (#[trigger] rows[i]).1.contains_key(
            PcuEventKind::CoreCState(key),
        ) implies #[trigger] has_core_state(list, rows[i], key) by {
        let j = choose|j: int| 0 <= j < keys.len() && keys[j] == key;
        let place = lemma_core_state_held(rows[i], keys, keys.len(), j);
        let k = lists::every_item_is_flattened(rows, f, i, place);
        lemma_core_state_row(rows[i], keys, keys.len(), place);
        assert(list[k].c_state == key);
    }
}

/// Whether a metric says of a row for which part of the time a reason limits the frequency: what
/// that event counted for each tick of the clock that was counted with it.
pub open spec fn is_limit<S>(
    metric: PcuFrequencyLimitMetrics<S>,
    row: (S, Map<PcuEventKind, PcuMeasurement>),
) -> bool {
    let kind = PcuEventKind::FrequencyLimit(metric.reason);
    &&& metric.scope == row.0
    &&& row.1.contains_key(kind)
    &&& value::is_quotient(metric.ratio, row.1[kind].value as nat, row.1[kind].ticks as nat)
}

/// Whether a metric says of some row for which part of the time a reason limits the frequency.
pub open spec fn is_limit_of<S>(metric: PcuFrequencyLimitMetrics<S>, rows: Rows<S>) -> bool {
    exists|i: int| 0 <= i < rows.len() && is_limit(metric, #[trigger] rows[i])
}

/// Whether what a row holds of an event is reported.
pub open spec fn has_limit<S>(
    metrics: Seq<PcuFrequencyLimitMetrics<S>>,
    row: (S, Map<PcuEventKind, PcuMeasurement>),
    key: PcuFrequencyLimitReason,
) -> bool {
    exists|k: int|
        0 <= k < metrics.len() && (#[trigger] metrics[k]).reason == key && is_limit(metrics[k], row)
}

proof fn lemma_limit_row<S>(
    row: (S, Map<PcuEventKind, PcuMeasurement>),
    keys: Seq<PcuFrequencyLimitReason>,
    n: nat,
    j: int,
)
    requires
        n <= keys.len(),
        0 <= j < common::limit_row(row, keys, n).len(),
    ensures
        is_limit(common::limit_row(row, keys, n)[j], row),
    decreases n,
{
    if n > 0 && j < common::limit_row(row, keys, (n - 1) as nat).len() {
        lemma_limit_row(row, keys, (n - 1) as nat, j);
    }
}

proof fn lemma_limit_held<S>(
    row: (S, Map<PcuEventKind, PcuMeasurement>),
    keys: Seq<PcuFrequencyLimitReason>,
    n: nat,
    j: int,
) -> (place: int)
    requires
        0 <= j < n <= keys.len(),
        row.1.contains_key(PcuEventKind::FrequencyLimit(keys[j])),
    ensures
        0 <= place < common::limit_row(row, keys, n).len(),
        common::limit_row(row, keys, n)[place].reason == keys[j],
    decreases n,
{
    if j < n - 1 {
        lemma_limit_held(row, keys, (n - 1) as nat, j)
    } else {
        common::limit_row(row, keys, (n - 1) as nat).len() as int
    }
}

/// Of a list on for which part of the time a reason limits the frequency,
/// every metric is made of the event of its own row, and every event that a row holds is reported.
pub proof fn limit_list_is_made_of_its_events<S>(
    rows: Rows<S>,
    keys: Seq<PcuFrequencyLimitReason>,
)
    ensures
        forall|k: int|
            0 <= k < common::limit_list(rows, keys).len() ==> is_limit_of(
                #[trigger] common::limit_list(rows, keys)[k],
                rows,
            ),
        forall|i: int, key: PcuFrequencyLimitReason|
            0 <= i < rows.len() && keys.contains(key) && (#[trigger] rows[i]).1.contains_key(
                PcuEventKind::FrequencyLimit(key),
            ) ==> #[trigger] has_limit(common::limit_list(rows, keys), rows[i], key),
{
    let f = |row: (S, Map<PcuEventKind, PcuMeasurement>)| common::limit_row(row, keys, keys.len());
    let list = common::limit_list(rows, keys);
    assert forall|k: int| 0 <= k < list.len() implies is_limit_of(#[trigger] list[k], rows) by {
        let place = lists::every_element_comes_of_an_item(rows, f, k);
        lemma_limit_row(rows[place.0], keys, keys.len(), place.1);
    }
    assert forall|i: int, key: PcuFrequencyLimitReason|
        0 <= i < rows.len() && keys.contains(key) && (#[trigger] rows[i]).1.contains_key(
            PcuEventKind::FrequencyLimit(key),
        ) implies #[trigger] has_limit(list, rows[i], key) by {
        let j = choose|j: int| 0 <= j < keys.len() && keys[j] == key;
        let place = lemma_limit_held(rows[i], keys, keys.len(), j);
        let k = lists::every_item_is_flattened(rows, f, i, place);
        lemma_limit_row(rows[i], keys, keys.len(), place);
        assert(list[k].reason == key);
    }
}

/// Whether a metric says of a row for which part of the time the package is in a C-state: what that
/// event counted for each tick of the clock that was counted with it.
pub open spec fn is_package_state<S>(
    metric: PcuPackageCStateMetrics<S>,
    row: (S, Map<PcuEventKind, PcuMeasurement>),
) -> bool {
    let kind = PcuEventKind::PackageCState(metric.c_state);
    &&& metric.scope == row.0
    &&& row.1.contains_key(kind)
    &&& value::is_quotient(metric.ratio, row.1[kind].value as nat, row.1[kind].ticks as nat)
}

/// Whether a metric says of some row for which part of the time the package is in a C-state.
pub open spec fn is_package_state_of<S>(metric: PcuPackageCStateMetrics<S>, rows: Rows<S>) -> bool {
    exists|i: int| 0 <= i < rows.len() && is_package_state(metric, #[trigger] rows[i])
}

/// Whether what a row holds of an event is reported.
pub open spec fn has_package_state<S>(
    metrics: Seq<PcuPackageCStateMetrics<S>>,
    row: (S, Map<PcuEventKind, PcuMeasurement>),
    key: PcuCoreCState,
) -> bool {
    exists|k: int|
        0 <= k < metrics.len() && (
            #[trigger] metrics[k]
        ).c_state == key && is_package_state(metrics[k], row)
}

proof fn lemma_package_state_row<S>(
    row: (S, Map<PcuEventKind, PcuMeasurement>),
    keys: Seq<PcuCoreCState>,
    n: nat,
    j: int,
)
    requires
        n <= keys.len(),
        0 <= j < common::package_state_row(row, keys, n).len(),
    ensures
        is_package_state(common::package_state_row(row, keys, n)[j], row),
    decreases n,
{
    if n > 0 && j < common::package_state_row(row, keys, (n - 1) as nat).len() {
        lemma_package_state_row(row, keys, (n - 1) as nat, j);
    }
}

proof fn lemma_package_state_held<S>(
    row: (S, Map<PcuEventKind, PcuMeasurement>),
    keys: Seq<PcuCoreCState>,
    n: nat,
    j: int,
) -> (place: int)
    requires
        0 <= j < n <= keys.len(),
        row.1.contains_key(PcuEventKind::PackageCState(keys[j])),
    ensures
        0 <= place < common::package_state_row(row, keys, n).len(),
        common::package_state_row(row, keys, n)[place].c_state == keys[j],
    decreases n,
{
    if j < n - 1 {
        lemma_package_state_held(row, keys, (n - 1) as nat, j)
    } else {
        common::package_state_row(row, keys, (n - 1) as nat).len() as int
    }
}

/// Of a list on for which part of the time the package is in a C-state,
/// every metric is made of the event of its own row, and every event that a row holds is reported.
pub proof fn package_state_list_is_made_of_its_events<S>(
    rows: Rows<S>,
    keys: Seq<PcuCoreCState>,
)
    ensures
        forall|k: int|
            0 <= k < common::package_state_list(rows, keys).len() ==> is_package_state_of(
                #[trigger] common::package_state_list(rows, keys)[k],
                rows,
            ),
        forall|i: int, key: PcuCoreCState|
            0 <= i < rows.len() && keys.contains(key) && (#[trigger] rows[i]).1.contains_key(
                PcuEventKind::PackageCState(key),
            ) ==> #[trigger] has_package_state(
                common::package_state_list(rows, keys),
                rows[i],
                key,
            ),
{
    let f = |row: (
        S,
        Map<PcuEventKind, PcuMeasurement>
    )| common::package_state_row(row, keys, keys.len());
    let list = common::package_state_list(rows, keys);
    assert forall|k: int| 0 <= k < list.len() implies is_package_state_of(
        #[trigger] list[k],
        rows,
    ) by {
        let place = lists::every_element_comes_of_an_item(rows, f, k);
        lemma_package_state_row(rows[place.0], keys, keys.len(), place.1);
    }
    assert forall|i: int, key: PcuCoreCState|
        0 <= i < rows.len() && keys.contains(key) && (#[trigger] rows[i]).1.contains_key(
            PcuEventKind::PackageCState(key),
        ) implies #[trigger] has_package_state(list, rows[i], key) by {
        let j = choose|j: int| 0 <= j < keys.len() && keys[j] == key;
        let place = lemma_package_state_held(rows[i], keys, keys.len(), j);
        let k = lists::every_item_is_flattened(rows, f, i, place);
        lemma_package_state_row(rows[i], keys, keys.len(), place);
        assert(list[k].c_state == key);
    }
}

/// Whether a metric says of a row for which part of the time a source throttles: what that event
/// counted for each tick of the clock that was counted with it.
pub open spec fn is_throttle<S>(
    metric: PcuCycleRatioMetrics<S, PcuThermalThrottleSource>,
    row: (S, Map<PcuEventKind, PcuMeasurement>),
) -> bool {
    let kind = PcuEventKind::ThermalThrottle(metric.source);
    &&& metric.scope == row.0
    &&& row.1.contains_key(kind)
    &&& value::is_quotient(metric.ratio, row.1[kind].value as nat, row.1[kind].ticks as nat)
}

/// Whether a metric says of some row for which part of the time a source throttles.
pub open spec fn is_throttle_of<S>(
    metric: PcuCycleRatioMetrics<S, PcuThermalThrottleSource>,
    rows: Rows<S>,
) -> bool {
    exists|i: int| 0 <= i < rows.len() && is_throttle(metric, #[trigger] rows[i])
}

/// Whether what a row holds of an event is reported.
pub open spec fn has_throttle<S>(
    metrics: Seq<PcuCycleRatioMetrics<S, PcuThermalThrottleSource>>,
    row: (S, Map<PcuEventKind, PcuMeasurement>),
    key: PcuThermalThrottleSource,
) -> bool {
    exists|k: int|
        0 <= k < metrics.len() && (
            #[trigger] metrics[k]
        ).source == key && is_throttle(metrics[k], row)
}

proof fn lemma_throttle_row<S>(
    row: (S, Map<PcuEventKind, PcuMeasurement>),
    keys: Seq<PcuThermalThrottleSource>,
    n: nat,
    j: int,
)
    requires
        n <= keys.len(),
        0 <= j < common::throttle_row(row, keys, n).len(),
    ensures
        is_throttle(common::throttle_row(row, keys, n)[j], row),
    decreases n,
{
    if n > 0 && j < common::throttle_row(row, keys, (n - 1) as nat).len() {
        lemma_throttle_row(row, keys, (n - 1) as nat, j);
    }
}

proof fn lemma_throttle_held<S>(
    row: (S, Map<PcuEventKind, PcuMeasurement>),
    keys: Seq<PcuThermalThrottleSource>,
    n: nat,
    j: int,
) -> (place: int)
    requires
        0 <= j < n <= keys.len(),
        row.1.contains_key(PcuEventKind::ThermalThrottle(keys[j])),
    ensures
        0 <= place < common::throttle_row(row, keys, n).len(),
        common::throttle_row(row, keys, n)[place].source == keys[j],
    decreases n,
{
    if j < n - 1 {
        lemma_throttle_held(row, keys, (n - 1) as nat, j)
    } else {
        common::throttle_row(row, keys, (n - 1) as nat).len() as int
    }
}

/// Of a list on for which part of the time a source throttles,
/// every metric is made of the event of its own row, and every event that a row holds is reported.
pub proof fn throttle_list_is_made_of_its_events<S>(
    rows: Rows<S>,
    keys: Seq<PcuThermalThrottleSource>,
)
    ensures
        forall|k: int|
            0 <= k < common::throttle_list(rows, keys).len() ==> is_throttle_of(
                #[trigger] common::throttle_list(rows, keys)[k],
                rows,
            ),
        forall|i: int, key: PcuThermalThrottleSource|
            0 <= i < rows.len() && keys.contains(key) && (#[trigger] rows[i]).1.contains_key(
                PcuEventKind::ThermalThrottle(key),
            ) ==> #[trigger] has_throttle(common::throttle_list(rows, keys), rows[i], key),
{
    let f = |row: (
        S,
        Map<PcuEventKind, PcuMeasurement>
    )| common::throttle_row(row, keys, keys.len());
    let list = common::throttle_list(rows, keys);
    assert forall|k: int| 0 <= k < list.len() implies is_throttle_of(#[trigger] list[k], rows) by {
        let place = lists::every_element_comes_of_an_item(rows, f, k);
        lemma_throttle_row(rows[place.0], keys, keys.len(), place.1);
    }
    assert forall|i: int, key: PcuThermalThrottleSource|
        0 <= i < rows.len() && keys.contains(key) && (#[trigger] rows[i]).1.contains_key(
            PcuEventKind::ThermalThrottle(key),
        ) implies #[trigger] has_throttle(list, rows[i], key) by {
        let j = choose|j: int| 0 <= j < keys.len() && keys[j] == key;
        let place = lemma_throttle_held(rows[i], keys, keys.len(), j);
        let k = lists::every_item_is_flattened(rows, f, i, place);
        lemma_throttle_row(rows[i], keys, keys.len(), place);
        assert(list[k].source == key);
    }
}

/// Whether a metric says of a row for which part of the time something goes on, and names it.
pub open spec fn is_cycle<S>(
    metric: PcuCycleRatioMetrics<S, &'static str>,
    row: (S, Map<PcuEventKind, PcuMeasurement>),
    kind: PcuEventKind,
    source: &'static str,
) -> bool {
    &&& metric.scope == row.0
    &&& metric.source == source
    &&& row.1.contains_key(kind)
    &&& value::is_quotient(metric.ratio, row.1[kind].value as nat, row.1[kind].ticks as nat)
}

/// Whether a metric says of some row for which part of the time something goes on.
pub open spec fn is_cycle_of<S>(
    metric: PcuCycleRatioMetrics<S, &'static str>,
    rows: Rows<S>,
    kind: PcuEventKind,
    source: &'static str,
) -> bool {
    exists|i: int| 0 <= i < rows.len() && is_cycle(metric, #[trigger] rows[i], kind, source)
}

/// Whether what a row holds of an event is reported.
pub open spec fn has_cycle<S>(
    metrics: Seq<PcuCycleRatioMetrics<S, &'static str>>,
    row: (S, Map<PcuEventKind, PcuMeasurement>),
    kind: PcuEventKind,
    source: &'static str,
) -> bool {
    exists|k: int| 0 <= k < metrics.len() && is_cycle(#[trigger] metrics[k], row, kind, source)
}

/// Of a list on what goes on part of the time, every metric is made of the event of its own row,
/// and every event that a row holds is reported.
pub proof fn cycle_list_is_made_of_its_events<S>(
    rows: Rows<S>,
    kind: PcuEventKind,
    source: &'static str,
)
    ensures
        forall|k: int|
            0 <= k < common::cycle_list(rows, kind, source).len() ==> is_cycle_of(
                #[trigger] common::cycle_list(rows, kind, source)[k],
                rows,
                kind,
                source,
            ),
        forall|i: int|
            0 <= i < rows.len() && (#[trigger] rows[i]).1.contains_key(kind) ==> has_cycle(
                common::cycle_list(rows, kind, source),
                rows[i],
                kind,
                source,
            ),
{
    let f = |row: (S, Map<PcuEventKind, PcuMeasurement>)| common::cycle_row(row, kind, source);
    let list = common::cycle_list(rows, kind, source);
    assert forall|k: int| 0 <= k < list.len() implies is_cycle_of(
        #[trigger] list[k],
        rows,
        kind,
        source,
    ) by {
        let place = lists::every_element_comes_of_an_item(rows, f, k);
        assert(is_cycle(list[k], rows[place.0], kind, source));
    }
    assert forall|i: int| 0 <= i < rows.len() && (#[trigger] rows[i]).1.contains_key(
        kind,
    ) implies has_cycle(list, rows[i], kind, source) by {
        let k = lists::every_item_is_flattened(rows, f, i, 0);
        assert(is_cycle(list[k], rows[i], kind, source));
    }
}

/// Whether the clocks of a report are, row by row, how often the clock ticked per second.
pub open spec fn are_clocks<S>(clocks: Seq<PcuClockMetrics<S>>, rows: Rows<S>) -> bool {
    &&& clocks.len() == rows.len()
    &&& forall|i: int|
        0 <= i < rows.len() ==> {
            let ticked = rows[i].1[PcuEventKind::Clockticks];
            &&& (#[trigger] clocks[i]).scope == rows[i].0
            &&& value::is_quotient(
                clocks[i].frequency_hz,
                ticked.value as nat * value::NANOS as nat,
                ticked.running_nanos as nat,
            )
        }
}

/// Whether every metric of these lists is made of the event of its own row.
pub open spec fn are_made_of<S>(
    rows: Rows<S>,
    core_c_states: Seq<PcuCoreCStateMetrics<S>>,
    frequency_limits: Seq<PcuFrequencyLimitMetrics<S>>,
    frequency_transition: Seq<PcuCycleRatioMetrics<S, &'static str>>,
    memory_phase_shedding: Seq<PcuCycleRatioMetrics<S, &'static str>>,
    package_c_states: Seq<PcuPackageCStateMetrics<S>>,
    thermal_throttles: Seq<PcuCycleRatioMetrics<S, PcuThermalThrottleSource>>,
) -> bool {
    &&& forall|k: int|
        0 <= k < core_c_states.len() ==> is_core_state_of(#[trigger] core_c_states[k], rows)
    &&& forall|k: int|
        0 <= k < frequency_limits.len() ==> is_limit_of(#[trigger] frequency_limits[k], rows)
    &&& forall|k: int|
        0 <= k < frequency_transition.len() ==> is_cycle_of(
            #[trigger] frequency_transition[k],
            rows,
            PcuEventKind::FrequencyTransition,
            "frequency_transition",
        )
    &&& forall|k: int|
        0 <= k < memory_phase_shedding.len() ==> is_cycle_of(
            #[trigger] memory_phase_shedding[k],
            rows,
            PcuEventKind::MemoryPhaseShedding,
            "memory_phase_shedding",
        )
    &&& forall|k: int|
        0 <= k < package_c_states.len() ==> is_package_state_of(
            #[trigger] package_c_states[k],
            rows,
        )
    &&& forall|k: int|
        0 <= k < thermal_throttles.len() ==> is_throttle_of(#[trigger] thermal_throttles[k], rows)
}

/// A reported share of the time in a package C-state is at most one where the state was counted
/// at most as often as the clock ticked, and zero where it was not counted at all.
pub proof fn package_state_share_is_bounded<S>(
    metric: PcuPackageCStateMetrics<S>,
    row: (S, Map<PcuEventKind, PcuMeasurement>),
)
    requires
        is_package_state(metric, row),
    ensures
        ({
            let counted = row.1[PcuEventKind::PackageCState(metric.c_state)];
            &&& counted.value <= counted.ticks ==> value::value(metric.ratio).0 <= value::value(
                metric.ratio,
            ).1
            &&& counted.value == 0 ==> value::value(metric.ratio).0 == 0
            &&& counted.value == counted.ticks && counted.ticks > 0 ==> value::value(
                metric.ratio,
            ).0 == value::value(metric.ratio).1
        }),
{
}

/// On Haswell and Broadwell every number of a report is made of the event that it is named after,
/// in its own scope, over the clock ticks of that event.
pub proof fn hsx_report_is_made_of_its_events(
    measurements: Accumulator<PcuPackageScope, PcuEventKind, PcuMeasurement>,
    metrics: hsx::HsxPcuMetrics,
)
    requires
        call_ensures(
            hsx::HsxPcuMetrics::from_measurements,
            (&measurements,),
            Ok::<hsx::HsxPcuMetrics, CollectorError>(metrics),
        ),
    ensures
        are_clocks(metrics.clocks@, measurements.rows()),
        are_made_of(
            measurements.rows(),
            metrics.core_c_states@,
            metrics.frequency_limits@,
            metrics.frequency_transition@,
            metrics.memory_phase_shedding@,
            metrics.package_c_states@,
            metrics.thermal_throttles@,
        ),
{
    let rows = measurements.rows();
    core_state_list_is_made_of_its_events(rows, hsx::c_states());
    limit_list_is_made_of_its_events(rows, hsx::limit_reasons());
    cycle_list_is_made_of_its_events(
        rows,
        PcuEventKind::FrequencyTransition,
        "frequency_transition",
    );
    cycle_list_is_made_of_its_events(
        rows,
        PcuEventKind::MemoryPhaseShedding,
        "memory_phase_shedding",
    );
    package_state_list_is_made_of_its_events(rows, hsx::c_states());
    throttle_list_is_made_of_its_events(rows, hsx::throttle_sources());
}

/// On Haswell and Broadwell whatever a scope holds of an event is in the report.
pub proof fn hsx_report_leaves_nothing_out(
    measurements: Accumulator<PcuPackageScope, PcuEventKind, PcuMeasurement>,
    metrics: hsx::HsxPcuMetrics,
    i: int,
)
    requires
        call_ensures(
            hsx::HsxPcuMetrics::from_measurements,
            (&measurements,),
            Ok::<hsx::HsxPcuMetrics, CollectorError>(metrics),
        ),
        0 <= i < measurements.rows().len(),
    ensures
        forall|state: PcuCoreCState| #[trigger]
            measurements.rows()[i].1.contains_key(
                PcuEventKind::CoreCState(state),
            ) ==> has_core_state(
                metrics.core_c_states@,
                measurements.rows()[i],
                state,
            ),
        forall|reason: PcuFrequencyLimitReason|
            (#[trigger] measurements.rows()[i].1.contains_key(
                PcuEventKind::FrequencyLimit(reason),
            )) && (
                reason == PcuFrequencyLimitReason::Power
                    || reason == PcuFrequencyLimitReason::Thermal
                    || reason == PcuFrequencyLimitReason::Os
                    || reason == PcuFrequencyLimitReason::IoP
            ) ==>
                has_limit(metrics.frequency_limits@, measurements.rows()[i], reason),
        forall|state: PcuCoreCState| #[trigger]
            measurements.rows()[i].1.contains_key(
                PcuEventKind::PackageCState(state),
            ) ==> has_package_state(
                metrics.package_c_states@,
                measurements.rows()[i],
                state,
            ),
        forall|source: PcuThermalThrottleSource| #[trigger]
            measurements.rows()[i].1.contains_key(
                PcuEventKind::ThermalThrottle(source),
            ) ==> has_throttle(
                metrics.thermal_throttles@,
                measurements.rows()[i],
                source,
            ),
        measurements.rows()[i].1.contains_key(PcuEventKind::FrequencyTransition) ==> has_cycle(
            metrics.frequency_transition@,
            measurements.rows()[i],
            PcuEventKind::FrequencyTransition,
            "frequency_transition",
        ),
        measurements.rows()[i].1.contains_key(PcuEventKind::MemoryPhaseShedding) ==> has_cycle(
            metrics.memory_phase_shedding@,
            measurements.rows()[i],
            PcuEventKind::MemoryPhaseShedding,
            "memory_phase_shedding",
        ),
{
    let rows = measurements.rows();
    lemma_all_states(hsx::c_states());
    lemma_all_sources(hsx::throttle_sources());
    core_state_list_is_made_of_its_events(rows, hsx::c_states());
    limit_list_is_made_of_its_events(rows, hsx::limit_reasons());
    cycle_list_is_made_of_its_events(
        rows,
        PcuEventKind::FrequencyTransition,
        "frequency_transition",
    );
    cycle_list_is_made_of_its_events(
        rows,
        PcuEventKind::MemoryPhaseShedding,
        "memory_phase_shedding",
    );
    package_state_list_is_made_of_its_events(rows, hsx::c_states());
    throttle_list_is_made_of_its_events(rows, hsx::throttle_sources());
    let reasons = hsx::limit_reasons();
    assert(reasons[0] == PcuFrequencyLimitReason::Power);
    assert(reasons[1] == PcuFrequencyLimitReason::Thermal);
    assert(reasons[2] == PcuFrequencyLimitReason::Os);
    assert(reasons[3] == PcuFrequencyLimitReason::IoP);
}

/// On Skylake every number of a report is made of the event that it is named after, in its own
/// scope, over the clock ticks of that event.
pub proof fn skx_report_is_made_of_its_events(
    measurements: Accumulator<PcuScope, PcuEventKind, PcuMeasurement>,
    metrics: skx::SkxPcuMetrics,
)
    requires
        call_ensures(
            skx::SkxPcuMetrics::from_measurements,
            (&measurements,),
            Ok::<skx::SkxPcuMetrics, CollectorError>(metrics),
        ),
    ensures
        are_clocks(metrics.clocks@, measurements.rows()),
        are_made_of(
            measurements.rows(),
            metrics.core_c_states@,
            metrics.frequency_limits@,
            metrics.frequency_transition@,
            metrics.memory_phase_shedding@,
            metrics.package_c_states@,
            metrics.thermal_throttles@,
        ),
{
    let rows = measurements.rows();
    core_state_list_is_made_of_its_events(rows, skx::c_states());
    limit_list_is_made_of_its_events(rows, skx::limit_reasons());
    cycle_list_is_made_of_its_events(
        rows,
        PcuEventKind::FrequencyTransition,
        "frequency_transition",
    );
    cycle_list_is_made_of_its_events(
        rows,
        PcuEventKind::MemoryPhaseShedding,
        "memory_phase_shedding",
    );
    package_state_list_is_made_of_its_events(rows, skx::c_states());
    throttle_list_is_made_of_its_events(rows, skx::throttle_sources());
}

/// On Skylake whatever a scope holds of an event is in the report.
pub proof fn skx_report_leaves_nothing_out(
    measurements: Accumulator<PcuScope, PcuEventKind, PcuMeasurement>,
    metrics: skx::SkxPcuMetrics,
    i: int,
)
    requires
        call_ensures(
            skx::SkxPcuMetrics::from_measurements,
            (&measurements,),
            Ok::<skx::SkxPcuMetrics, CollectorError>(metrics),
        ),
        0 <= i < measurements.rows().len(),
    ensures
        forall|state: PcuCoreCState| #[trigger]
            measurements.rows()[i].1.contains_key(
                PcuEventKind::CoreCState(state),
            ) ==> has_core_state(
                metrics.core_c_states@,
                measurements.rows()[i],
                state,
            ),
        forall|reason: PcuFrequencyLimitReason|
            (#[trigger] measurements.rows()[i].1.contains_key(
                PcuEventKind::FrequencyLimit(reason),
            )) && (
                reason == PcuFrequencyLimitReason::Power
                    || reason == PcuFrequencyLimitReason::Thermal
                    || reason == PcuFrequencyLimitReason::IoP
            ) ==>
                has_limit(metrics.frequency_limits@, measurements.rows()[i], reason),
        forall|state: PcuCoreCState| #[trigger]
            measurements.rows()[i].1.contains_key(
                PcuEventKind::PackageCState(state),
            ) ==> has_package_state(
                metrics.package_c_states@,
                measurements.rows()[i],
                state,
            ),
        forall|source: PcuThermalThrottleSource| #[trigger]
            measurements.rows()[i].1.contains_key(
                PcuEventKind::ThermalThrottle(source),
            ) ==> has_throttle(
                metrics.thermal_throttles@,
                measurements.rows()[i],
                source,
            ),
        measurements.rows()[i].1.contains_key(PcuEventKind::FrequencyTransition) ==> has_cycle(
            metrics.frequency_transition@,
            measurements.rows()[i],
            PcuEventKind::FrequencyTransition,
            "frequency_transition",
        ),
        measurements.rows()[i].1.contains_key(PcuEventKind::MemoryPhaseShedding) ==> has_cycle(
            metrics.memory_phase_shedding@,
            measurements.rows()[i],
            PcuEventKind::MemoryPhaseShedding,
            "memory_phase_shedding",
        ),
{
    let rows = measurements.rows();
    lemma_all_states(skx::c_states());
    lemma_all_sources(skx::throttle_sources());
    core_state_list_is_made_of_its_events(rows, skx::c_states());
    limit_list_is_made_of_its_events(rows, skx::limit_reasons());
    cycle_list_is_made_of_its_events(
        rows,
        PcuEventKind::FrequencyTransition,
        "frequency_transition",
    );
    cycle_list_is_made_of_its_events(
        rows,
        PcuEventKind::MemoryPhaseShedding,
        "memory_phase_shedding",
    );
    package_state_list_is_made_of_its_events(rows, skx::c_states());
    throttle_list_is_made_of_its_events(rows, skx::throttle_sources());
    let reasons = skx::limit_reasons();
    assert(reasons[0] == PcuFrequencyLimitReason::Power);
    assert(reasons[1] == PcuFrequencyLimitReason::Thermal);
    assert(reasons[2] == PcuFrequencyLimitReason::IoP);
}

/// On Sandy and Ivy Bridge every number of a report is made of the event that it is named after, in
/// its own scope, over the clock ticks of that event.
pub proof fn snb_report_is_made_of_its_events(
    measurements: Accumulator<PcuPackageScope, PcuEventKind, PcuMeasurement>,
    metrics: snb::SnbPcuMetrics,
)
    requires
        call_ensures(
            snb::SnbPcuMetrics::from_measurements,
            (&measurements,),
            Ok::<snb::SnbPcuMetrics, CollectorError>(metrics),
        ),
    ensures
        are_clocks(metrics.clocks@, measurements.rows()),
        are_made_of(
            measurements.rows(),
            metrics.core_c_states@,
            metrics.frequency_limits@,
            metrics.frequency_transition@,
            metrics.memory_phase_shedding@,
            metrics.package_c_states@,
            metrics.thermal_throttles@,
        ),
{
    let rows = measurements.rows();
    core_state_list_is_made_of_its_events(rows, snb::c_states());
    limit_list_is_made_of_its_events(rows, snb::limit_reasons());
    cycle_list_is_made_of_its_events(
        rows,
        PcuEventKind::FrequencyTransition,
        "frequency_transition",
    );
    cycle_list_is_made_of_its_events(
        rows,
        PcuEventKind::MemoryPhaseShedding,
        "memory_phase_shedding",
    );
    package_state_list_is_made_of_its_events(rows, snb::c_states());
    throttle_list_is_made_of_its_events(rows, snb::throttle_sources());
}

/// On Sandy and Ivy Bridge whatever a scope holds of an event is in the report.
pub proof fn snb_report_leaves_nothing_out(
    measurements: Accumulator<PcuPackageScope, PcuEventKind, PcuMeasurement>,
    metrics: snb::SnbPcuMetrics,
    i: int,
)
    requires
        call_ensures(
            snb::SnbPcuMetrics::from_measurements,
            (&measurements,),
            Ok::<snb::SnbPcuMetrics, CollectorError>(metrics),
        ),
        0 <= i < measurements.rows().len(),
    ensures
        forall|state: PcuCoreCState| #[trigger]
            measurements.rows()[i].1.contains_key(
                PcuEventKind::CoreCState(state),
            ) ==> has_core_state(
                metrics.core_c_states@,
                measurements.rows()[i],
                state,
            ),
        forall|reason: PcuFrequencyLimitReason|
            (#[trigger] measurements.rows()[i].1.contains_key(
                PcuEventKind::FrequencyLimit(reason),
            )) ==>
                has_limit(metrics.frequency_limits@, measurements.rows()[i], reason),
        forall|state: PcuCoreCState| #[trigger]
            measurements.rows()[i].1.contains_key(
                PcuEventKind::PackageCState(state),
            ) ==> has_package_state(
                metrics.package_c_states@,
                measurements.rows()[i],
                state,
            ),
        forall|source: PcuThermalThrottleSource| #[trigger]
            measurements.rows()[i].1.contains_key(
                PcuEventKind::ThermalThrottle(source),
            ) ==> has_throttle(
                metrics.thermal_throttles@,
                measurements.rows()[i],
                source,
            ),
        measurements.rows()[i].1.contains_key(PcuEventKind::FrequencyTransition) ==> has_cycle(
            metrics.frequency_transition@,
            measurements.rows()[i],
            PcuEventKind::FrequencyTransition,
            "frequency_transition",
        ),
        measurements.rows()[i].1.contains_key(PcuEventKind::MemoryPhaseShedding) ==> has_cycle(
            metrics.memory_phase_shedding@,
            measurements.rows()[i],
            PcuEventKind::MemoryPhaseShedding,
            "memory_phase_shedding",
        ),
{
    let rows = measurements.rows();
    lemma_all_states(snb::c_states());
    lemma_all_sources(snb::throttle_sources());
    core_state_list_is_made_of_its_events(rows, snb::c_states());
    limit_list_is_made_of_its_events(rows, snb::limit_reasons());
    cycle_list_is_made_of_its_events(
        rows,
        PcuEventKind::FrequencyTransition,
        "frequency_transition",
    );
    cycle_list_is_made_of_its_events(
        rows,
        PcuEventKind::MemoryPhaseShedding,
        "memory_phase_shedding",
    );
    package_state_list_is_made_of_its_events(rows, snb::c_states());
    throttle_list_is_made_of_its_events(rows, snb::throttle_sources());
    let reasons = snb::limit_reasons();
    assert(reasons[0] == PcuFrequencyLimitReason::Power);
    assert(reasons[1] == PcuFrequencyLimitReason::Thermal);
    assert(reasons[2] == PcuFrequencyLimitReason::Os);
    assert(reasons[3] == PcuFrequencyLimitReason::Current);
    assert(reasons[4] == PcuFrequencyLimitReason::IoP);
    assert(reasons[5] == PcuFrequencyLimitReason::PerfP);
}

proof fn lemma_all_states(states: Seq<PcuCoreCState>)
    requires
        states.len() == 3,
        states[0] == PcuCoreCState::C0,
        states[1] == PcuCoreCState::C3,
        states[2] == PcuCoreCState::C6,
    ensures
        forall|state: PcuCoreCState| #[trigger] states.contains(state),
{
    assert forall|state: PcuCoreCState| #[trigger] states.contains(state) by {
        match state {
            PcuCoreCState::C0 => assert(states[0] == state),
            PcuCoreCState::C3 => assert(states[1] == state),
            PcuCoreCState::C6 => assert(states[2] == state),
        }
    }
}

proof fn lemma_all_sources(sources: Seq<PcuThermalThrottleSource>)
    requires
        sources.len() == 3,
        sources[0] == PcuThermalThrottleSource::InternalProchot,
        sources[1] == PcuThermalThrottleSource::ExternalProchot,
        sources[2] == PcuThermalThrottleSource::VrHot,
    ensures
        forall|source: PcuThermalThrottleSource| #[trigger] sources.contains(source),
{
    assert forall|source: PcuThermalThrottleSource| #[trigger] sources.contains(source) by {
        match source {
            PcuThermalThrottleSource::InternalProchot => assert(sources[0] == source),
            PcuThermalThrottleSource::ExternalProchot => assert(sources[1] == source),
            PcuThermalThrottleSource::VrHot => assert(sources[2] == source),
        }
    }
}

/// On Sapphire and Emerald Rapids the clocks and the core C-states of a report are made of the
/// events that they are named after, and whatever a scope holds of them is in the report.
pub proof fn spr_report_is_made_of_its_events(
    measurements: Accumulator<PcuScope, PcuEventKind, PcuMeasurement>,
    metrics: spr::SprPcuMetrics,
)
    requires
        call_ensures(
            spr::SprPcuMetrics::from_measurements,
            (&measurements,),
            Ok::<spr::SprPcuMetrics, CollectorError>(metrics),
        ),
    ensures
        are_clocks(metrics.clocks@, measurements.rows()),
        forall|k: int|
            0 <= k < metrics.core_c_states@.len() ==> is_core_state_of(
                #[trigger] metrics.core_c_states@[k],
                measurements.rows(),
            ),
        forall|i: int|
            0 <= i < measurements.rows().len() && (
                #[trigger] measurements.rows()[i]
            ).1.contains_key(
                PcuEventKind::CoreCState(PcuCoreCState::C0),
            ) ==> has_core_state(metrics.core_c_states@, measurements.rows()[i], PcuCoreCState::C0),
        forall|i: int|
            0 <= i < measurements.rows().len() && (
                #[trigger] measurements.rows()[i]
            ).1.contains_key(
                PcuEventKind::CoreCState(PcuCoreCState::C6),
            ) ==> has_core_state(metrics.core_c_states@, measurements.rows()[i], PcuCoreCState::C6),
{
    let rows = measurements.rows();
    let states = spr::c_states();
    assert(states[0] == PcuCoreCState::C0);
    assert(states[1] == PcuCoreCState::C6);
    core_state_list_is_made_of_its_events(rows, spr::c_states());
}

/// On Ice Lake the clock of a die is how often it ticked per second while it was counted.
pub proof fn icx_clock_is_ticks_over_time(reading: icx::IcxPcuReading)
    ensures
        icx::clock_metrics(reading).scope.die_group_id == reading.scope.die_group_id,
        icx::clock_metrics(reading).scope.die_id == reading.scope.die_id,
        icx::clock_metrics(reading).scope.package_id == reading.scope.package_id,
        value::is_quotient(
            icx::clock_metrics(reading).frequency_hz,
            reading.ticks as nat * value::NANOS as nat,
            reading.running_nanos as nat,
        ),
{
}

/// What a C-state is called.
pub open spec fn state_name(state: PcuCoreCState) -> &'static str {
    match state {
        PcuCoreCState::C0 => "c0",
        PcuCoreCState::C3 => "c3",
        PcuCoreCState::C6 => "c6",
    }
}

/// What a reason to limit the frequency is called.
pub open spec fn reason_name(reason: PcuFrequencyLimitReason) -> &'static str {
    match reason {
        PcuFrequencyLimitReason::Current => "current",
        PcuFrequencyLimitReason::IoP => "io_p",
        PcuFrequencyLimitReason::Os => "os",
        PcuFrequencyLimitReason::PerfP => "perf_p",
        PcuFrequencyLimitReason::Power => "power",
        PcuFrequencyLimitReason::Thermal => "thermal",
    }
}

/// What a source of throttling is called.
pub open spec fn source_name(source: PcuThermalThrottleSource) -> &'static str {
    match source {
        PcuThermalThrottleSource::ExternalProchot => "external_prochot",
        PcuThermalThrottleSource::InternalProchot => "internal_prochot",
        PcuThermalThrottleSource::VrHot => "vr_hot",
    }
}

/// The labels of a die.
pub open spec fn die_labels(scope: PcuScope) -> Labels {
    labels::die_only(scope.die_group_id, scope.die_id, scope.package_id)
}

/// The labels of a package.
pub open spec fn package_labels(scope: PcuPackageScope) -> Labels {
    labels::package_only(scope.package_id)
}

/// On Haswell and Broadwell every number of a report is handed out under its own name, with the
/// labels of its scope and of what it is about.
pub proof fn hsx_hands_out_each_number_under_its_name(
    families: hsx::HsxPcuPrometheusMetrics,
    metrics: hsx::HsxPcuMetrics,
    given: Vec<GaugeUpdate>,
)
    requires
        call_ensures(hsx::HsxPcuPrometheusMetrics::update, (&families, &metrics), given),
    ensures
        given@.len() == metrics.clocks@.len() + metrics.core_c_states@.len()
            + metrics.frequency_limits@.len() + metrics.frequency_transition@.len()
            + metrics.memory_phase_shedding@.len() + metrics.package_c_states@.len()
            + metrics.thermal_throttles@.len(),
        forall|k: int|
            0 <= k < metrics.clocks@.len() ==> {
                let metric = #[trigger] metrics.clocks@[k];
                let place = package_labels(metric.scope);
                labels::hands_out(
                    given@,
                    "ocellus_pcu_frequency_hz",
                    place,
                    metric.frequency_hz,
                )
            },
        forall|k: int|
            0 <= k < metrics.core_c_states@.len() ==> {
                let metric = #[trigger] metrics.core_c_states@[k];
                let place = package_labels(metric.scope);
                labels::hands_out(
                    given@,
                    "ocellus_pcu_core_c_state_average_cores",
                    (Labels { c_state: Some(state_name(metric.c_state)), ..place }),
                    metric.average_cores,
                )
            },
        forall|k: int|
            0 <= k < metrics.frequency_limits@.len() ==> {
                let metric = #[trigger] metrics.frequency_limits@[k];
                let place = package_labels(metric.scope);
                labels::hands_out(
                    given@,
                    "ocellus_pcu_frequency_limit_ratio",
                    (Labels { reason: Some(reason_name(metric.reason)), ..place }),
                    metric.ratio,
                )
            },
        forall|k: int|
            0 <= k < metrics.frequency_transition@.len() ==> {
                let metric = #[trigger] metrics.frequency_transition@[k];
                let place = package_labels(metric.scope);
                labels::hands_out(
                    given@,
                    "ocellus_pcu_frequency_transition_ratio",
                    place,
                    metric.ratio,
                )
            },
        forall|k: int|
            0 <= k < metrics.memory_phase_shedding@.len() ==> {
                let metric = #[trigger] metrics.memory_phase_shedding@[k];
                let place = package_labels(metric.scope);
                labels::hands_out(
                    given@,
                    "ocellus_pcu_memory_phase_shedding_ratio",
                    place,
                    metric.ratio,
                )
            },
        forall|k: int|
            0 <= k < metrics.package_c_states@.len() ==> {
                let metric = #[trigger] metrics.package_c_states@[k];
                let place = package_labels(metric.scope);
                labels::hands_out(
                    given@,
                    "ocellus_pcu_package_c_state_ratio",
                    (Labels { c_state: Some(state_name(metric.c_state)), ..place }),
                    metric.ratio,
                )
            },
        forall|k: int|
            0 <= k < metrics.thermal_throttles@.len() ==> {
                let metric = #[trigger] metrics.thermal_throttles@[k];
                let place = package_labels(metric.scope);
                labels::hands_out(
                    given@,
                    "ocellus_pcu_thermal_throttle_ratio",
                    (Labels { source: Some(source_name(metric.source)), ..place }),
                    metric.ratio,
                )
            },
{
    let updates = hsx::all_updates(metrics);
    let part0 = metrics.clocks@.map_values(
        |metric: PcuClockMetrics<PcuPackageScope>| common::clock_metric(metric),
    );
    let part1 = metrics.core_c_states@.map_values(
        |metric: PcuCoreCStateMetrics<PcuPackageScope>| common::core_state_metric(metric),
    );
    let part2 = metrics.frequency_limits@.map_values(
        |metric: PcuFrequencyLimitMetrics<PcuPackageScope>| common::limit_metric(metric),
    );
    let part3 = metrics.frequency_transition@.map_values(
        |metric: PcuCycleRatioMetrics<PcuPackageScope, &'static str>| common::cycle_metric(
            metric,
            "ocellus_pcu_frequency_transition_ratio",
        ),
    );
    let part4 = metrics.memory_phase_shedding@.map_values(
        |metric: PcuCycleRatioMetrics<PcuPackageScope, &'static str>| common::cycle_metric(
            metric,
            "ocellus_pcu_memory_phase_shedding_ratio",
        ),
    );
    let part5 = metrics.package_c_states@.map_values(
        |metric: PcuPackageCStateMetrics<PcuPackageScope>| common::package_state_metric(metric),
    );
    let part6 = metrics.thermal_throttles@.map_values(
        |metric: PcuCycleRatioMetrics<PcuPackageScope, PcuThermalThrottleSource>| common::throttle_metric(metric),
    );
    let sum0 = part0;
    let sum1 = sum0 + part1;
    let sum2 = sum1 + part2;
    let sum3 = sum2 + part3;
    let sum4 = sum3 + part4;
    let sum5 = sum4 + part5;
    let sum6 = sum5 + part6;
    assert(updates == sum6);
    assert forall|k: int| 0 <= k < metrics.clocks@.len() implies {
        let metric = #[trigger] metrics.clocks@[k];
        let place = package_labels(metric.scope);
        labels::hands_out(
            updates,
            "ocellus_pcu_frequency_hz",
            place,
            metric.frequency_hz,
        )
    } by {
        let at = 0 + k;
        assert(updates[at] == part0[k]);
        assert(updates[at].family == "ocellus_pcu_frequency_hz");
    }
    assert forall|k: int| 0 <= k < metrics.core_c_states@.len() implies {
        let metric = #[trigger] metrics.core_c_states@[k];
        let place = package_labels(metric.scope);
        labels::hands_out(
            updates,
            "ocellus_pcu_core_c_state_average_cores",
            (Labels { c_state: Some(state_name(metric.c_state)), ..place }),
            metric.average_cores,
        )
    } by {
        let at = sum0.len() + k;
        assert(updates[at] == part1[k]);
        assert(updates[at].family == "ocellus_pcu_core_c_state_average_cores");
    }
    assert forall|k: int| 0 <= k < metrics.frequency_limits@.len() implies {
        let metric = #[trigger] metrics.frequency_limits@[k];
        let place = package_labels(metric.scope);
        labels::hands_out(
            updates,
            "ocellus_pcu_frequency_limit_ratio",
            (Labels { reason: Some(reason_name(metric.reason)), ..place }),
            metric.ratio,
        )
    } by {
        let at = sum1.len() + k;
        assert(updates[at] == part2[k]);
        assert(updates[at].family == "ocellus_pcu_frequency_limit_ratio");
    }
    assert forall|k: int| 0 <= k < metrics.frequency_transition@.len() implies {
        let metric = #[trigger] metrics.frequency_transition@[k];
        let place = package_labels(metric.scope);
        labels::hands_out(
            updates,
            "ocellus_pcu_frequency_transition_ratio",
            place,
            metric.ratio,
        )
    } by {
        let at = sum2.len() + k;
        assert(updates[at] == part3[k]);
        assert(updates[at].family == "ocellus_pcu_frequency_transition_ratio");
    }
    assert forall|k: int| 0 <= k < metrics.memory_phase_shedding@.len() implies {
        let metric = #[trigger] metrics.memory_phase_shedding@[k];
        let place = package_labels(metric.scope);
        labels::hands_out(
            updates,
            "ocellus_pcu_memory_phase_shedding_ratio",
            place,
            metric.ratio,
        )
    } by {
        let at = sum3.len() + k;
        assert(updates[at] == part4[k]);
        assert(updates[at].family == "ocellus_pcu_memory_phase_shedding_ratio");
    }
    assert forall|k: int| 0 <= k < metrics.package_c_states@.len() implies {
        let metric = #[trigger] metrics.package_c_states@[k];
        let place = package_labels(metric.scope);
        labels::hands_out(
            updates,
            "ocellus_pcu_package_c_state_ratio",
            (Labels { c_state: Some(state_name(metric.c_state)), ..place }),
            metric.ratio,
        )
    } by {
        let at = sum4.len() + k;
        assert(updates[at] == part5[k]);
        assert(updates[at].family == "ocellus_pcu_package_c_state_ratio");
    }
    assert forall|k: int| 0 <= k < metrics.thermal_throttles@.len() implies {
        let metric = #[trigger] metrics.thermal_throttles@[k];
        let place = package_labels(metric.scope);
        labels::hands_out(
            updates,
            "ocellus_pcu_thermal_throttle_ratio",
            (Labels { source: Some(source_name(metric.source)), ..place }),
            metric.ratio,
        )
    } by {
        let at = sum5.len() + k;
        assert(updates[at] == part6[k]);
        assert(updates[at].family == "ocellus_pcu_thermal_throttle_ratio");
    }
}

/// On Skylake every number of a report is handed out under its own name, with the labels of its
/// scope and of what it is about.
pub proof fn skx_hands_out_each_number_under_its_name(
    families: skx::SkxPcuPrometheusMetrics,
    metrics: skx::SkxPcuMetrics,
    given: Vec<GaugeUpdate>,
)
    requires
        call_ensures(skx::SkxPcuPrometheusMetrics::update, (&families, &metrics), given),
    ensures
        given@.len() == metrics.clocks@.len() + metrics.core_c_states@.len()
            + metrics.frequency_limits@.len() + metrics.frequency_transition@.len()
            + metrics.memory_phase_shedding@.len() + metrics.package_c_states@.len()
            + metrics.thermal_throttles@.len(),
        forall|k: int|
            0 <= k < metrics.clocks@.len() ==> {
                let metric = #[trigger] metrics.clocks@[k];
                let place = die_labels(metric.scope);
                labels::hands_out(
                    given@,
                    "ocellus_pcu_frequency_hz",
                    place,
                    metric.frequency_hz,
                )
            },
        forall|k: int|
            0 <= k < metrics.core_c_states@.len() ==> {
                let metric = #[trigger] metrics.core_c_states@[k];
                let place = die_labels(metric.scope);
                labels::hands_out(
                    given@,
                    "ocellus_pcu_core_c_state_average_cores",
                    (Labels { c_state: Some(state_name(metric.c_state)), ..place }),
                    metric.average_cores,
                )
            },
        forall|k: int|
            0 <= k < metrics.frequency_limits@.len() ==> {
                let metric = #[trigger] metrics.frequency_limits@[k];
                let place = die_labels(metric.scope);
                labels::hands_out(
                    given@,
                    "ocellus_pcu_frequency_limit_ratio",
                    (Labels { reason: Some(reason_name(metric.reason)), ..place }),
                    metric.ratio,
                )
            },
        forall|k: int|
            0 <= k < metrics.frequency_transition@.len() ==> {
                let metric = #[trigger] metrics.frequency_transition@[k];
                let place = die_labels(metric.scope);
                labels::hands_out(
                    given@,
                    "ocellus_pcu_frequency_transition_ratio",
                    place,
                    metric.ratio,
                )
            },
        forall|k: int|
            0 <= k < metrics.memory_phase_shedding@.len() ==> {
                let metric = #[trigger] metrics.memory_phase_shedding@[k];
                let place = die_labels(metric.scope);
                labels::hands_out(
                    given@,
                    "ocellus_pcu_memory_phase_shedding_ratio",
                    place,
                    metric.ratio,
                )
            },
        forall|k: int|
            0 <= k < metrics.package_c_states@.len() ==> {
                let metric = #[trigger] metrics.package_c_states@[k];
                let place = die_labels(metric.scope);
                labels::hands_out(
                    given@,
                    "ocellus_pcu_package_c_state_ratio",
                    (Labels { c_state: Some(state_name(metric.c_state)), ..place }),
                    metric.ratio,
                )
            },
        forall|k: int|
            0 <= k < metrics.thermal_throttles@.len() ==> {
                let metric = #[trigger] metrics.thermal_throttles@[k];
                let place = die_labels(metric.scope);
                labels::hands_out(
                    given@,
                    "ocellus_pcu_thermal_throttle_ratio",
                    (Labels { source: Some(source_name(metric.source)), ..place }),
                    metric.ratio,
                )
            },
{
    let updates = skx::all_updates(metrics);
    let part0 = metrics.clocks@.map_values(
        |metric: PcuClockMetrics<PcuScope>| common::clock_metric(metric),
    );
    let part1 = metrics.core_c_states@.map_values(
        |metric: PcuCoreCStateMetrics<PcuScope>| common::core_state_metric(metric),
    );
    let part2 = metrics.frequency_limits@.map_values(
        |metric: PcuFrequencyLimitMetrics<PcuScope>| common::limit_metric(metric),
    );
    let part3 = metrics.frequency_transition@.map_values(
        |metric: PcuCycleRatioMetrics<PcuScope, &'static str>| common::cycle_metric(
            metric,
            "ocellus_pcu_frequency_transition_ratio",
        ),
    );
    let part4 = metrics.memory_phase_shedding@.map_values(
        |metric: PcuCycleRatioMetrics<PcuScope, &'static str>| common::cycle_metric(
            metric,
            "ocellus_pcu_memory_phase_shedding_ratio",
        ),
    );
    let part5 = metrics.package_c_states@.map_values(
        |metric: PcuPackageCStateMetrics<PcuScope>| common::package_state_metric(metric),
    );
    let part6 = metrics.thermal_throttles@.map_values(
        |metric: PcuCycleRatioMetrics<PcuScope, PcuThermalThrottleSource>| common::throttle_metric(metric),
    );
    let sum0 = part0;
    let sum1 = sum0 + part1;
    let sum2 = sum1 + part2;
    let sum3 = sum2 + part3;
    let sum4 = sum3 + part4;
    let sum5 = sum4 + part5;
    let sum6 = sum5 + part6;
    assert(updates == sum6);
    assert forall|k: int| 0 <= k < metrics.clocks@.len() implies {
        let metric = #[trigger] metrics.clocks@[k];
        let place = die_labels(metric.scope);
        labels::hands_out(
            updates,
            "ocellus_pcu_frequency_hz",
            place,
            metric.frequency_hz,
        )
    } by {
        let at = 0 + k;
        assert(updates[at] == part0[k]);
        assert(updates[at].family == "ocellus_pcu_frequency_hz");
    }
    assert forall|k: int| 0 <= k < metrics.core_c_states@.len() implies {
        let metric = #[trigger] metrics.core_c_states@[k];
        let place = die_labels(metric.scope);
        labels::hands_out(
            updates,
            "ocellus_pcu_core_c_state_average_cores",
            (Labels { c_state: Some(state_name(metric.c_state)), ..place }),
            metric.average_cores,
        )
    } by {
        let at = sum0.len() + k;
        assert(updates[at] == part1[k]);
        assert(updates[at].family == "ocellus_pcu_core_c_state_average_cores");
    }
    assert forall|k: int| 0 <= k < metrics.frequency_limits@.len() implies {
        let metric = #[trigger] metrics.frequency_limits@[k];
        let place = die_labels(metric.scope);
        labels::hands_out(
            updates,
            "ocellus_pcu_frequency_limit_ratio",
            (Labels { reason: Some(reason_name(metric.reason)), ..place }),
            metric.ratio,
        )
    } by {
        let at = sum1.len() + k;
        assert(updates[at] == part2[k]);
        assert(updates[at].family == "ocellus_pcu_frequency_limit_ratio");
    }
    assert forall|k: int| 0 <= k < metrics.frequency_transition@.len() implies {
        let metric = #[trigger] metrics.frequency_transition@[k];
        let place = die_labels(metric.scope);
        labels::hands_out(
            updates,
            "ocellus_pcu_frequency_transition_ratio",
            place,
            metric.ratio,
        )
    } by {
        let at = sum2.len() + k;
        assert(updates[at] == part3[k]);
        assert(updates[at].family == "ocellus_pcu_frequency_transition_ratio");
    }
    assert forall|k: int| 0 <= k < metrics.memory_phase_shedding@.len() implies {
        let metric = #[trigger] metrics.memory_phase_shedding@[k];
        let place = die_labels(metric.scope);
        labels::hands_out(
            updates,
            "ocellus_pcu_memory_phase_shedding_ratio",
            place,
            metric.ratio,
        )
    } by {
        let at = sum3.len() + k;
        assert(updates[at] == part4[k]);
        assert(updates[at].family == "ocellus_pcu_memory_phase_shedding_ratio");
    }
    assert forall|k: int| 0 <= k < metrics.package_c_states@.len() implies {
        let metric = #[trigger] metrics.package_c_states@[k];
        let place = die_labels(metric.scope);
        labels::hands_out(
            updates,
            "ocellus_pcu_package_c_state_ratio",
            (Labels { c_state: Some(state_name(metric.c_state)), ..place }),
            metric.ratio,
        )
    } by {
        let at = sum4.len() + k;
        assert(updates[at] == part5[k]);
        assert(updates[at].family == "ocellus_pcu_package_c_state_ratio");
    }
    assert forall|k: int| 0 <= k < metrics.thermal_throttles@.len() implies {
        let metric = #[trigger] metrics.thermal_throttles@[k];
        let place = die_labels(metric.scope);
        labels::hands_out(
            updates,
            "ocellus_pcu_thermal_throttle_ratio",
            (Labels { source: Some(source_name(metric.source)), ..place }),
            metric.ratio,
        )
    } by {
        let at = sum5.len() + k;
        assert(updates[at] == part6[k]);
        assert(updates[at].family == "ocellus_pcu_thermal_throttle_ratio");
    }
}

/// On Sandy and Ivy Bridge every number of a report is handed out under its own name, with the
/// labels of its scope and of what it is about.
pub proof fn snb_hands_out_each_number_under_its_name(
    families: snb::SnbPcuPrometheusMetrics,
    metrics: snb::SnbPcuMetrics,
    given: Vec<GaugeUpdate>,
)
    requires
        call_ensures(snb::SnbPcuPrometheusMetrics::update, (&families, &metrics), given),
    ensures
        given@.len() == metrics.clocks@.len() + metrics.core_c_states@.len()
            + metrics.frequency_limits@.len() + metrics.frequency_transition@.len()
            + metrics.memory_phase_shedding@.len() + metrics.package_c_states@.len()
            + metrics.thermal_throttles@.len(),
        forall|k: int|
            0 <= k < metrics.clocks@.len() ==> {
                let metric = #[trigger] metrics.clocks@[k];
                let place = package_labels(metric.scope);
                labels::hands_out(
                    given@,
                    "ocellus_pcu_frequency_hz",
                    place,
                    metric.frequency_hz,
                )
            },
        forall|k: int|
            0 <= k < metrics.core_c_states@.len() ==> {
                let metric = #[trigger] metrics.core_c_states@[k];
                let place = package_labels(metric.scope);
                labels::hands_out(
                    given@,
                    "ocellus_pcu_core_c_state_average_cores",
                    (Labels { c_state: Some(state_name(metric.c_state)), ..place }),
                    metric.average_cores,
                )
            },
        forall|k: int|
            0 <= k < metrics.frequency_limits@.len() ==> {
                let metric = #[trigger] metrics.frequency_limits@[k];
                let place = package_labels(metric.scope);
                labels::hands_out(
                    given@,
                    "ocellus_pcu_frequency_limit_ratio",
                    (Labels { reason: Some(reason_name(metric.reason)), ..place }),
                    metric.ratio,
                )
            },
        forall|k: int|
            0 <= k < metrics.frequency_transition@.len() ==> {
                let metric = #[trigger] metrics.frequency_transition@[k];
                let place = package_labels(metric.scope);
                labels::hands_out(
                    given@,
                    "ocellus_pcu_frequency_transition_ratio",
                    place,
                    metric.ratio,
                )
            },
        forall|k: int|
            0 <= k < metrics.memory_phase_shedding@.len() ==> {
                let metric = #[trigger] metrics.memory_phase_shedding@[k];
                let place = package_labels(metric.scope);
                labels::hands_out(
                    given@,
                    "ocellus_pcu_memory_phase_shedding_ratio",
                    place,
                    metric.ratio,
                )
            },
        forall|k: int|
            0 <= k < metrics.package_c_states@.len() ==> {
                let metric = #[trigger] metrics.package_c_states@[k];
                let place = package_labels(metric.scope);
                labels::hands_out(
                    given@,
                    "ocellus_pcu_package_c_state_ratio",
                    (Labels { c_state: Some(state_name(metric.c_state)), ..place }),
                    metric.ratio,
                )
            },
        forall|k: int|
            0 <= k < metrics.thermal_throttles@.len() ==> {
                let metric = #[trigger] metrics.thermal_throttles@[k];
                let place = package_labels(metric.scope);
                labels::hands_out(
                    given@,
                    "ocellus_pcu_thermal_throttle_ratio",
                    (Labels { source: Some(source_name(metric.source)), ..place }),
                    metric.ratio,
                )
            },
{
    let updates = snb::all_updates(metrics);
    let part0 = metrics.clocks@.map_values(
        |metric: PcuClockMetrics<PcuPackageScope>| common::clock_metric(metric),
    );
    let part1 = metrics.core_c_states@.map_values(
        |metric: PcuCoreCStateMetrics<PcuPackageScope>| common::core_state_metric(metric),
    );
    let part2 = metrics.frequency_limits@.map_values(
        |metric: PcuFrequencyLimitMetrics<PcuPackageScope>| common::limit_metric(metric),
    );
    let part3 = metrics.frequency_transition@.map_values(
        |metric: PcuCycleRatioMetrics<PcuPackageScope, &'static str>| common::cycle_metric(
            metric,
            "ocellus_pcu_frequency_transition_ratio",
        ),
    );
    let part4 = metrics.memory_phase_shedding@.map_values(
        |metric: PcuCycleRatioMetrics<PcuPackageScope, &'static str>| common::cycle_metric(
            metric,
            "ocellus_pcu_memory_phase_shedding_ratio",
        ),
    );
    let part5 = metrics.package_c_states@.map_values(
        |metric: PcuPackageCStateMetrics<PcuPackageScope>| common::package_state_metric(metric),
    );
    let part6 = metrics.thermal_throttles@.map_values(
        |metric: PcuCycleRatioMetrics<PcuPackageScope, PcuThermalThrottleSource>| common::throttle_metric(metric),
    );
    let sum0 = part0;
    let sum1 = sum0 + part1;
    let sum2 = sum1 + part2;
    let sum3 = sum2 + part3;
    let sum4 = sum3 + part4;
    let sum5 = sum4 + part5;
    let sum6 = sum5 + part6;
    assert(updates == sum6);
    assert forall|k: int| 0 <= k < metrics.clocks@.len() implies {
        let metric = #[trigger] metrics.clocks@[k];
        let place = package_labels(metric.scope);
        labels::hands_out(
            updates,
            "ocellus_pcu_frequency_hz",
            place,
            metric.frequency_hz,
        )
    } by {
        let at = 0 + k;
        assert(updates[at] == part0[k]);
        assert(updates[at].family == "ocellus_pcu_frequency_hz");
    }
    assert forall|k: int| 0 <= k < metrics.core_c_states@.len() implies {
        let metric = #[trigger] metrics.core_c_states@[k];
        let place = package_labels(metric.scope);
        labels::hands_out(
            updates,
            "ocellus_pcu_core_c_state_average_cores",
            (Labels { c_state: Some(state_name(metric.c_state)), ..place }),
            metric.average_cores,
        )
    } by {
        let at = sum0.len() + k;
        assert(updates[at] == part1[k]);
        assert(updates[at].family == "ocellus_pcu_core_c_state_average_cores");
    }
    assert forall|k: int| 0 <= k < metrics.frequency_limits@.len() implies {
        let metric = #[trigger] metrics.frequency_limits@[k];
        let place = package_labels(metric.scope);
        labels::hands_out(
            updates,
            "ocellus_pcu_frequency_limit_ratio",
            (Labels { reason: Some(reason_name(metric.reason)), ..place }),
            metric.ratio,
        )
    } by {
        let at = sum1.len() + k;
        assert(updates[at] == part2[k]);
        assert(updates[at].family == "ocellus_pcu_frequency_limit_ratio");
    }
    assert forall|k: int| 0 <= k < metrics.frequency_transition@.len() implies {
        let metric = #[trigger] metrics.frequency_transition@[k];
        let place = package_labels(metric.scope);
        labels::hands_out(
            updates,
            "ocellus_pcu_frequency_transition_ratio",
            place,
            metric.ratio,
        )
    } by {
        let at = sum2.len() + k;
        assert(updates[at] == part3[k]);
        assert(updates[at].family == "ocellus_pcu_frequency_transition_ratio");
    }
    assert forall|k: int| 0 <= k < metrics.memory_phase_shedding@.len() implies {
        let metric = #[trigger] metrics.memory_phase_shedding@[k];
        let place = package_labels(metric.scope);
        labels::hands_out(
            updates,
            "ocellus_pcu_memory_phase_shedding_ratio",
            place,
            metric.ratio,
        )
    } by {
        let at = sum3.len() + k;
        assert(updates[at] == part4[k]);
        assert(updates[at].family == "ocellus_pcu_memory_phase_shedding_ratio");
    }
    assert forall|k: int| 0 <= k < metrics.package_c_states@.len() implies {
        let metric = #[trigger] metrics.package_c_states@[k];
        let place = package_labels(metric.scope);
        labels::hands_out(
            updates,
            "ocellus_pcu_package_c_state_ratio",
            (Labels { c_state: Some(state_name(metric.c_state)), ..place }),
            metric.ratio,
        )
    } by {
        let at = sum4.len() + k;
        assert(updates[at] == part5[k]);
        assert(updates[at].family == "ocellus_pcu_package_c_state_ratio");
    }
    assert forall|k: int| 0 <= k < metrics.thermal_throttles@.len() implies {
        let metric = #[trigger] metrics.thermal_throttles@[k];
        let place = package_labels(metric.scope);
        labels::hands_out(
            updates,
            "ocellus_pcu_thermal_throttle_ratio",
            (Labels { source: Some(source_name(metric.source)), ..place }),
            metric.ratio,
        )
    } by {
        let at = sum5.len() + k;
        assert(updates[at] == part6[k]);
        assert(updates[at].family == "ocellus_pcu_thermal_throttle_ratio");
    }
}

/// On Sapphire Rapids every number of a report is handed out under its own name, with the labels of
/// its scope and of what it is about.
pub proof fn spr_hands_out_each_number_under_its_name(
    families: spr::SprPcuPrometheusMetrics,
    metrics: spr::SprPcuMetrics,
    given: Vec<GaugeUpdate>,
)
    requires
        call_ensures(spr::SprPcuPrometheusMetrics::update, (&families, &metrics), given),
    ensures
        given@.len() == metrics.clocks@.len() + metrics.core_c_states@.len(),
        forall|k: int|
            0 <= k < metrics.clocks@.len() ==> {
                let metric = #[trigger] metrics.clocks@[k];
                let place = die_labels(metric.scope);
                labels::hands_out(
                    given@,
                    "ocellus_pcu_frequency_hz",
                    place,
                    metric.frequency_hz,
                )
            },
        forall|k: int|
            0 <= k < metrics.core_c_states@.len() ==> {
                let metric = #[trigger] metrics.core_c_states@[k];
                let place = die_labels(metric.scope);
                labels::hands_out(
                    given@,
                    "ocellus_pcu_core_c_state_average_cores",
                    (Labels { c_state: Some(state_name(metric.c_state)), ..place }),
                    metric.average_cores,
                )
            },
{
    let updates = spr::all_updates(metrics);
    let part0 = metrics.clocks@.map_values(
        |metric: PcuClockMetrics<PcuScope>| common::clock_metric(metric),
    );
    let part1 = metrics.core_c_states@.map_values(
        |metric: PcuCoreCStateMetrics<PcuScope>| common::core_state_metric(metric),
    );
    let sum0 = part0;
    let sum1 = sum0 + part1;
    assert(updates == sum1);
    assert forall|k: int| 0 <= k < metrics.clocks@.len() implies {
        let metric = #[trigger] metrics.clocks@[k];
        let place = die_labels(metric.scope);
        labels::hands_out(
            updates,
            "ocellus_pcu_frequency_hz",
            place,
            metric.frequency_hz,
        )
    } by {
        let at = 0 + k;
        assert(updates[at] == part0[k]);
        assert(updates[at].family == "ocellus_pcu_frequency_hz");
    }
    assert forall|k: int| 0 <= k < metrics.core_c_states@.len() implies {
        let metric = #[trigger] metrics.core_c_states@[k];
        let place = die_labels(metric.scope);
        labels::hands_out(
            updates,
            "ocellus_pcu_core_c_state_average_cores",
            (Labels { c_state: Some(state_name(metric.c_state)), ..place }),
            metric.average_cores,
        )
    } by {
        let at = sum0.len() + k;
        assert(updates[at] == part1[k]);
        assert(updates[at].family == "ocellus_pcu_core_c_state_average_cores");
    }
}

/// On Ice Lake every number of a report is handed out under its own name, with the labels of its
/// scope and of what it is about.
pub proof fn icx_hands_out_each_number_under_its_name(
    families: icx::IcxPcuPrometheusMetrics,
    metrics: icx::IcxPcuMetrics,
    given: Vec<GaugeUpdate>,
)
    requires
        call_ensures(icx::IcxPcuPrometheusMetrics::update, (&families, &metrics), given),
    ensures
        given@.len() == metrics.clocks@.len(),
        forall|k: int|
            0 <= k < metrics.clocks@.len() ==> {
                let metric = #[trigger] metrics.clocks@[k];
                let place = die_labels(metric.scope);
                labels::hands_out(
                    given@,
                    "ocellus_pcu_frequency_hz",
                    place,
                    metric.frequency_hz,
                )
            },
{
    let updates = icx::all_updates(metrics);
    let part0 = metrics.clocks@.map_values(
        |metric: PcuClockMetrics<PcuScope>| common::clock_metric(metric),
    );
    assert(updates == part0);
    assert forall|k: int| 0 <= k < metrics.clocks@.len() implies {
        let metric = #[trigger] metrics.clocks@[k];
        let place = die_labels(metric.scope);
        labels::hands_out(
            updates,
            "ocellus_pcu_frequency_hz",
            place,
            metric.frequency_hz,
        )
    } by {
        let at = 0 + k;
        assert(updates[at] == part0[k]);
        assert(updates[at].family == "ocellus_pcu_frequency_hz");
    }
}

} // verus!
