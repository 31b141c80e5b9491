//! What is said of the memory.
use crate::accumulator::{Accumulator, EventMeasurement, Grid};
use crate::error::CollectorError;
use crate::export::GaugeUpdate;
use crate::laws::labels;
use crate::laws::value;
use crate::metrics::imc::{hsx, icx, skx, snb, spr};
use crate::quantity::{self, Quantity};
use crate::topology::HsxUncoreScope;
use vstd::prelude::*;

verus! {

/// On Skylake the report on a die is made of the events of that die: read commands and read bytes
/// of read commands, write ones of write commands, and each queue of its own inserts and occupancy.
pub proof fn skx_reports_what_was_counted(
    measurements: Accumulator<skx::ImcScope, skx::ImcEventKind, EventMeasurement>,
    metrics: skx::ImcMetrics,
    i: int,
)
    requires
        call_ensures(
            skx::ImcMetrics::from_measurements,
            (&measurements,),
            Ok::<skx::ImcMetrics, CollectorError>(metrics),
        ),
        0 <= i < measurements.rows().len(),
    ensures
        metrics.scopes@.len() == measurements.rows().len(),
        ({
            let row = measurements.rows()[i].1;
            let report = metrics.scopes@[i];
            &&& report.scope == measurements.rows()[i].0
            &&& value::is_rate(
                report.activate_commands_per_second,
                row[skx::ImcEventKind::Activate],
            )
            &&& value::is_clock(report.frequency_hz, row[skx::ImcEventKind::ReadInsert])
            &&& value::is_rate(
                report.page_miss_precharge_commands_per_second,
                row[skx::ImcEventKind::PageMissPrecharge],
            )
            &&& value::is_rate(report.read_cas_commands_per_second, row[skx::ImcEventKind::ReadCas])
            &&& value::is_rate(
                report.write_cas_commands_per_second,
                row[skx::ImcEventKind::WriteCas],
            )
            &&& value::is_line_rate(report.read_bytes_per_second, row[skx::ImcEventKind::ReadCas])
            &&& value::is_line_rate(report.write_bytes_per_second, row[skx::ImcEventKind::WriteCas])
            &&& value::is_tick_residency(
                report.rpq_residency_seconds,
                row[skx::ImcEventKind::ReadOccupancy],
                row[skx::ImcEventKind::ReadInsert],
            )
            &&& value::is_tick_residency(
                report.wpq_residency_seconds,
                row[skx::ImcEventKind::WriteOccupancy],
                row[skx::ImcEventKind::WriteInsert],
            )
            &&& value::is_per_tick(
                report.rpq_occupancy_entries,
                row[skx::ImcEventKind::ReadOccupancy],
            )
            &&& value::is_per_tick(
                report.wpq_occupancy_entries,
                row[skx::ImcEventKind::WriteOccupancy],
            )
        }),
{
    let rows = measurements.rows();
    assert(metrics.scopes@[i] == skx::scope_metrics(rows[i].0, rows[i].1));
    value::rates_are_counts_over_time(
        rows[i].1[skx::ImcEventKind::Activate],
        quantity::no_count(),
        0,
        0,
        0,
    );
    value::rates_are_counts_over_time(
        rows[i].1[skx::ImcEventKind::PageMissPrecharge],
        quantity::no_count(),
        0,
        0,
        0,
    );
    value::rates_are_counts_over_time(
        rows[i].1[skx::ImcEventKind::ReadCas],
        quantity::no_count(),
        0,
        0,
        0,
    );
    value::rates_are_counts_over_time(
        rows[i].1[skx::ImcEventKind::WriteCas],
        quantity::no_count(),
        0,
        0,
        0,
    );
    value::residencies_are_occupancy_over_inserts(
        rows[i].1[skx::ImcEventKind::ReadOccupancy],
        None,
        rows[i].1[skx::ImcEventKind::ReadInsert],
        rows[i].1[skx::ImcEventKind::ReadInsert],
    );
    value::residencies_are_occupancy_over_inserts(
        rows[i].1[skx::ImcEventKind::WriteOccupancy],
        None,
        rows[i].1[skx::ImcEventKind::WriteInsert],
        rows[i].1[skx::ImcEventKind::WriteInsert],
    );
}

/// On Skylake every number of a report is handed out under its own name, with the labels of its
/// die.
pub proof fn skx_hands_out_each_number_under_its_name(
    families: skx::ImcPrometheusMetrics,
    metrics: skx::ImcMetrics,
    i: int,
    given: Vec<GaugeUpdate>,
)
    requires
        call_ensures(skx::ImcPrometheusMetrics::update, (&families, &metrics), given),
        0 <= i < metrics.scopes@.len(),
    ensures
        given@.len() == metrics.scopes@.len() * 11,
        ({
            let updates = given@;
            let report = metrics.scopes@[i];
            let labels = labels::die_only(
                report.scope.die_group_id,
                report.scope.die_id,
                report.scope.package_id,
            );
            &&& labels::hands_out(
                updates,
                "ocellus_imc_activate_commands_per_second",
                labels,
                report.activate_commands_per_second,
            )
            &&& labels::hands_out(updates, "ocellus_imc_frequency_hz", labels, report.frequency_hz)
            &&& labels::hands_out(
                updates,
                "ocellus_imc_page_miss_precharge_commands_per_second",
                labels,
                report.page_miss_precharge_commands_per_second,
            )
            &&& labels::hands_out(
                updates,
                "ocellus_imc_read_cas_commands_per_second",
                labels,
                report.read_cas_commands_per_second,
            )
            &&& labels::hands_out(
                updates,
                "ocellus_imc_read_bytes_per_second",
                labels,
                report.read_bytes_per_second,
            )
            &&& labels::hands_out(
                updates,
                "ocellus_imc_rpq_residency_seconds",
                labels,
                report.rpq_residency_seconds,
            )
            &&& labels::hands_out(
                updates,
                "ocellus_imc_rpq_occupancy_entries",
                labels,
                report.rpq_occupancy_entries,
            )
            &&& labels::hands_out(
                updates,
                "ocellus_imc_write_cas_commands_per_second",
                labels,
                report.write_cas_commands_per_second,
            )
            &&& labels::hands_out(
                updates,
                "ocellus_imc_write_bytes_per_second",
                labels,
                report.write_bytes_per_second,
            )
            &&& labels::hands_out(
                updates,
                "ocellus_imc_wpq_residency_seconds",
                labels,
                report.wpq_residency_seconds,
            )
            &&& labels::hands_out(
                updates,
                "ocellus_imc_wpq_occupancy_entries",
                labels,
                report.wpq_occupancy_entries,
            )
        }),
{
    let f = |metrics: skx::ImcScopeMetrics| skx::scope_updates(metrics);
    let report = metrics.scopes@[i];
    let list = skx::scope_updates(report);
    labels::lemma_handed_out(metrics.scopes@, f, 11, i, 0, list[0]);
    labels::lemma_handed_out(metrics.scopes@, f, 11, i, 1, list[1]);
    labels::lemma_handed_out(metrics.scopes@, f, 11, i, 2, list[2]);
    labels::lemma_handed_out(metrics.scopes@, f, 11, i, 3, list[3]);
    labels::lemma_handed_out(metrics.scopes@, f, 11, i, 4, list[4]);
    labels::lemma_handed_out(metrics.scopes@, f, 11, i, 5, list[5]);
    labels::lemma_handed_out(metrics.scopes@, f, 11, i, 6, list[6]);
    labels::lemma_handed_out(metrics.scopes@, f, 11, i, 7, list[7]);
    labels::lemma_handed_out(metrics.scopes@, f, 11, i, 8, list[8]);
    labels::lemma_handed_out(metrics.scopes@, f, 11, i, 9, list[9]);
    labels::lemma_handed_out(metrics.scopes@, f, 11, i, 10, list[10]);
}

/// On Ice Lake the report on a die is made of the events of that die: read commands and read bytes
/// of read commands, write ones of write commands, and each queue of its own inserts and occupancy.
pub proof fn icx_reports_what_was_counted(
    measurements: Accumulator<icx::IcxImcScope, icx::IcxImcEventKind, EventMeasurement>,
    metrics: icx::IcxImcMetrics,
    i: int,
)
    requires
        call_ensures(
            icx::IcxImcMetrics::from_measurements,
            (&measurements,),
            Ok::<icx::IcxImcMetrics, CollectorError>(metrics),
        ),
        0 <= i < measurements.rows().len(),
    ensures
        metrics.scopes@.len() == measurements.rows().len(),
        ({
            let row = measurements.rows()[i].1;
            let report = metrics.scopes@[i];
            &&& report.scope == measurements.rows()[i].0
            &&& value::is_rate(
                report.activate_commands_per_second,
                row[icx::IcxImcEventKind::Activate],
            )
            &&& value::is_clock(report.frequency_hz, row[icx::IcxImcEventKind::ReadInsert])
            &&& value::is_rate(
                report.page_miss_precharge_commands_per_second,
                row[icx::IcxImcEventKind::PageMissPrecharge],
            )
            &&& value::is_rate(
                report.read_cas_commands_per_second,
                row[icx::IcxImcEventKind::ReadCas],
            )
            &&& value::is_rate(
                report.write_cas_commands_per_second,
                row[icx::IcxImcEventKind::WriteCas],
            )
            &&& value::is_line_rate(
                report.read_bytes_per_second,
                row[icx::IcxImcEventKind::ReadCas],
            )
            &&& value::is_line_rate(
                report.write_bytes_per_second,
                row[icx::IcxImcEventKind::WriteCas],
            )
            &&& value::is_rate_residency(
                report.rpq_residency_seconds,
                row[icx::IcxImcEventKind::ReadOccupancy],
                row[icx::IcxImcEventKind::ReadInsert],
            )
            &&& value::is_rate_residency(
                report.wpq_residency_seconds,
                row[icx::IcxImcEventKind::WriteOccupancy],
                row[icx::IcxImcEventKind::WriteInsert],
            )
            &&& value::is_per_tick(
                report.rpq_occupancy_entries,
                row[icx::IcxImcEventKind::ReadOccupancy],
            )
            &&& value::is_per_tick(
                report.wpq_occupancy_entries,
                row[icx::IcxImcEventKind::WriteOccupancy],
            )
        }),
{
    let rows = measurements.rows();
    assert(metrics.scopes@[i] == icx::scope_metrics(rows[i].0, rows[i].1));
    value::rates_are_counts_over_time(
        rows[i].1[icx::IcxImcEventKind::Activate],
        quantity::no_count(),
        0,
        0,
        0,
    );
    value::rates_are_counts_over_time(
        rows[i].1[icx::IcxImcEventKind::PageMissPrecharge],
        quantity::no_count(),
        0,
        0,
        0,
    );
    value::rates_are_counts_over_time(
        rows[i].1[icx::IcxImcEventKind::ReadCas],
        quantity::no_count(),
        0,
        0,
        0,
    );
    value::rates_are_counts_over_time(
        rows[i].1[icx::IcxImcEventKind::WriteCas],
        quantity::no_count(),
        0,
        0,
        0,
    );
    value::residencies_are_occupancy_over_inserts(
        rows[i].1[icx::IcxImcEventKind::ReadOccupancy],
        None,
        rows[i].1[icx::IcxImcEventKind::ReadInsert],
        rows[i].1[icx::IcxImcEventKind::ReadInsert],
    );
    value::residencies_are_occupancy_over_inserts(
        rows[i].1[icx::IcxImcEventKind::WriteOccupancy],
        None,
        rows[i].1[icx::IcxImcEventKind::WriteInsert],
        rows[i].1[icx::IcxImcEventKind::WriteInsert],
    );
}

/// On Ice Lake every number of a report is handed out under its own name, with the labels of its
/// die.
pub proof fn icx_hands_out_each_number_under_its_name(
    families: icx::IcxImcPrometheusMetrics,
    metrics: icx::IcxImcMetrics,
    i: int,
    given: Vec<GaugeUpdate>,
)
    requires
        call_ensures(icx::IcxImcPrometheusMetrics::update, (&families, &metrics), given),
        0 <= i < metrics.scopes@.len(),
    ensures
        given@.len() == metrics.scopes@.len() * 11,
        ({
            let updates = given@;
            let report = metrics.scopes@[i];
            let labels = labels::die_only(
                report.scope.die_group_id,
                report.scope.die_id,
                report.scope.package_id,
            );
            &&& labels::hands_out(
                updates,
                "ocellus_imc_activate_commands_per_second",
                labels,
                report.activate_commands_per_second,
            )
            &&& labels::hands_out(updates, "ocellus_imc_frequency_hz", labels, report.frequency_hz)
            &&& labels::hands_out(
                updates,
                "ocellus_imc_page_miss_precharge_commands_per_second",
                labels,
                report.page_miss_precharge_commands_per_second,
            )
            &&& labels::hands_out(
                updates,
                "ocellus_imc_read_cas_commands_per_second",
                labels,
                report.read_cas_commands_per_second,
            )
            &&& labels::hands_out(
                updates,
                "ocellus_imc_read_bytes_per_second",
                labels,
                report.read_bytes_per_second,
            )
            &&& labels::hands_out(
                updates,
                "ocellus_imc_rpq_residency_seconds",
                labels,
                report.rpq_residency_seconds,
            )
            &&& labels::hands_out(
                updates,
                "ocellus_imc_rpq_occupancy_entries",
                labels,
                report.rpq_occupancy_entries,
            )
            &&& labels::hands_out(
                updates,
                "ocellus_imc_write_cas_commands_per_second",
                labels,
                report.write_cas_commands_per_second,
            )
            &&& labels::hands_out(
                updates,
                "ocellus_imc_write_bytes_per_second",
                labels,
                report.write_bytes_per_second,
            )
            &&& labels::hands_out(
                updates,
                "ocellus_imc_wpq_residency_seconds",
                labels,
                report.wpq_residency_seconds,
            )
            &&& labels::hands_out(
                updates,
                "ocellus_imc_wpq_occupancy_entries",
                labels,
                report.wpq_occupancy_entries,
            )
        }),
{
    let f = |metrics: icx::IcxImcScopeMetrics| icx::scope_updates(metrics);
    let report = metrics.scopes@[i];
    let list = icx::scope_updates(report);
    labels::lemma_handed_out(metrics.scopes@, f, 11, i, 0, list[0]);
    labels::lemma_handed_out(metrics.scopes@, f, 11, i, 1, list[1]);
    labels::lemma_handed_out(metrics.scopes@, f, 11, i, 2, list[2]);
    labels::lemma_handed_out(metrics.scopes@, f, 11, i, 3, list[3]);
    labels::lemma_handed_out(metrics.scopes@, f, 11, i, 4, list[4]);
    labels::lemma_handed_out(metrics.scopes@, f, 11, i, 5, list[5]);
    labels::lemma_handed_out(metrics.scopes@, f, 11, i, 6, list[6]);
    labels::lemma_handed_out(metrics.scopes@, f, 11, i, 7, list[7]);
    labels::lemma_handed_out(metrics.scopes@, f, 11, i, 8, list[8]);
    labels::lemma_handed_out(metrics.scopes@, f, 11, i, 9, list[9]);
    labels::lemma_handed_out(metrics.scopes@, f, 11, i, 10, list[10]);
}

/// On Sapphire Rapids the report on a die is made of the events of that die: read commands and read
/// bytes of read commands, write ones of write commands, and each queue of its own inserts and
/// occupancy.
pub proof fn spr_reports_what_was_counted(
    measurements: Accumulator<spr::SprImcScope, spr::SprImcEventKind, EventMeasurement>,
    metrics: spr::SprImcMetrics,
    i: int,
)
    requires
        call_ensures(
            spr::SprImcMetrics::from_measurements,
            (&measurements,),
            Ok::<spr::SprImcMetrics, CollectorError>(metrics),
        ),
        0 <= i < measurements.rows().len(),
    ensures
        metrics.scopes@.len() == measurements.rows().len(),
        ({
            let row = measurements.rows()[i].1;
            let report = metrics.scopes@[i];
            &&& report.scope == measurements.rows()[i].0
            &&& value::is_rate(
                report.activate_commands_per_second,
                row[spr::SprImcEventKind::Activate],
            )
            &&& value::is_clock(report.frequency_hz, row[spr::SprImcEventKind::ReadInsert])
            &&& value::is_rate(
                report.page_miss_precharge_commands_per_second,
                row[spr::SprImcEventKind::PageMissPrecharge],
            )
            &&& value::is_rate(
                report.read_cas_commands_per_second,
                row[spr::SprImcEventKind::ReadCas],
            )
            &&& value::is_rate(
                report.write_cas_commands_per_second,
                row[spr::SprImcEventKind::WriteCas],
            )
            &&& value::is_line_rate(
                report.read_bytes_per_second,
                row[spr::SprImcEventKind::ReadCas],
            )
            &&& value::is_line_rate(
                report.write_bytes_per_second,
                row[spr::SprImcEventKind::WriteCas],
            )
            &&& value::is_rate_residency(
                report.rpq_residency_seconds,
                row[spr::SprImcEventKind::ReadOccupancy],
                row[spr::SprImcEventKind::ReadInsert],
            )
            &&& value::is_rate_residency(
                report.wpq_residency_seconds,
                row[spr::SprImcEventKind::WriteOccupancy],
                row[spr::SprImcEventKind::WriteInsert],
            )
            &&& value::is_per_tick(
                report.rpq_occupancy_entries,
                row[spr::SprImcEventKind::ReadOccupancy],
            )
            &&& value::is_per_tick(
                report.wpq_occupancy_entries,
                row[spr::SprImcEventKind::WriteOccupancy],
            )
        }),
{
    let rows = measurements.rows();
    assert(metrics.scopes@[i] == spr::scope_metrics(rows[i].0, rows[i].1));
    value::rates_are_counts_over_time(
        rows[i].1[spr::SprImcEventKind::Activate],
        quantity::no_count(),
        0,
        0,
        0,
    );
    value::rates_are_counts_over_time(
        rows[i].1[spr::SprImcEventKind::PageMissPrecharge],
        quantity::no_count(),
        0,
        0,
        0,
    );
    value::rates_are_counts_over_time(
        rows[i].1[spr::SprImcEventKind::ReadCas],
        quantity::no_count(),
        0,
        0,
        0,
    );
    value::rates_are_counts_over_time(
        rows[i].1[spr::SprImcEventKind::WriteCas],
        quantity::no_count(),
        0,
        0,
        0,
    );
    value::residencies_are_occupancy_over_inserts(
        rows[i].1[spr::SprImcEventKind::ReadOccupancy],
        None,
        rows[i].1[spr::SprImcEventKind::ReadInsert],
        rows[i].1[spr::SprImcEventKind::ReadInsert],
    );
    value::residencies_are_occupancy_over_inserts(
        rows[i].1[spr::SprImcEventKind::WriteOccupancy],
        None,
        rows[i].1[spr::SprImcEventKind::WriteInsert],
        rows[i].1[spr::SprImcEventKind::WriteInsert],
    );
}

/// On Sapphire Rapids every number of a report is handed out under its own name, with the labels of
/// its die.
pub proof fn spr_hands_out_each_number_under_its_name(
    families: spr::SprImcPrometheusMetrics,
    metrics: spr::SprImcMetrics,
    i: int,
    given: Vec<GaugeUpdate>,
)
    requires
        call_ensures(spr::SprImcPrometheusMetrics::update, (&families, &metrics), given),
        0 <= i < metrics.scopes@.len(),
    ensures
        given@.len() == metrics.scopes@.len() * 11,
        ({
            let updates = given@;
            let report = metrics.scopes@[i];
            let labels = labels::die_only(
                report.scope.die_group_id,
                report.scope.die_id,
                report.scope.package_id,
            );
            &&& labels::hands_out(
                updates,
                "ocellus_imc_activate_commands_per_second",
                labels,
                report.activate_commands_per_second,
            )
            &&& labels::hands_out(updates, "ocellus_imc_frequency_hz", labels, report.frequency_hz)
            &&& labels::hands_out(
                updates,
                "ocellus_imc_page_miss_precharge_commands_per_second",
                labels,
                report.page_miss_precharge_commands_per_second,
            )
            &&& labels::hands_out(
                updates,
                "ocellus_imc_read_cas_commands_per_second",
                labels,
                report.read_cas_commands_per_second,
            )
            &&& labels::hands_out(
                updates,
                "ocellus_imc_read_bytes_per_second",
                labels,
                report.read_bytes_per_second,
            )
            &&& labels::hands_out(
                updates,
                "ocellus_imc_rpq_residency_seconds",
                labels,
                report.rpq_residency_seconds,
            )
            &&& labels::hands_out(
                updates,
                "ocellus_imc_rpq_occupancy_entries",
                labels,
                report.rpq_occupancy_entries,
            )
            &&& labels::hands_out(
                updates,
                "ocellus_imc_write_cas_commands_per_second",
                labels,
                report.write_cas_commands_per_second,
            )
            &&& labels::hands_out(
                updates,
                "ocellus_imc_write_bytes_per_second",
                labels,
                report.write_bytes_per_second,
            )
            &&& labels::hands_out(
                updates,
                "ocellus_imc_wpq_residency_seconds",
                labels,
                report.wpq_residency_seconds,
            )
            &&& labels::hands_out(
                updates,
                "ocellus_imc_wpq_occupancy_entries",
                labels,
                report.wpq_occupancy_entries,
            )
        }),
{
    let f = |metrics: spr::SprImcScopeMetrics| spr::scope_updates(metrics);
    let report = metrics.scopes@[i];
    let list = spr::scope_updates(report);
    labels::lemma_handed_out(metrics.scopes@, f, 11, i, 0, list[0]);
    labels::lemma_handed_out(metrics.scopes@, f, 11, i, 1, list[1]);
    labels::lemma_handed_out(metrics.scopes@, f, 11, i, 2, list[2]);
    labels::lemma_handed_out(metrics.scopes@, f, 11, i, 3, list[3]);
    labels::lemma_handed_out(metrics.scopes@, f, 11, i, 4, list[4]);
    labels::lemma_handed_out(metrics.scopes@, f, 11, i, 5, list[5]);
    labels::lemma_handed_out(metrics.scopes@, f, 11, i, 6, list[6]);
    labels::lemma_handed_out(metrics.scopes@, f, 11, i, 7, list[7]);
    labels::lemma_handed_out(metrics.scopes@, f, 11, i, 8, list[8]);
    labels::lemma_handed_out(metrics.scopes@, f, 11, i, 9, list[9]);
    labels::lemma_handed_out(metrics.scopes@, f, 11, i, 10, list[10]);
}

/// On Sandy and Ivy Bridge the report on a package is made of the events of that package.
pub proof fn snb_reports_what_was_counted(
    measurements: Accumulator<snb::SnbImcScope, snb::SnbImcEventKind, EventMeasurement>,
    metrics: snb::SnbImcMetrics,
    i: int,
)
    requires
        call_ensures(
            snb::SnbImcMetrics::from_measurements,
            (&measurements,),
            Ok::<snb::SnbImcMetrics, CollectorError>(metrics),
        ),
        0 <= i < measurements.rows().len(),
    ensures
        metrics.scopes@.len() == measurements.rows().len(),
        ({
            let row = measurements.rows()[i].1;
            let report = metrics.scopes@[i];
            &&& report.scope == measurements.rows()[i].0
            &&& value::is_rate(
                report.activate_commands_per_second,
                row[snb::SnbImcEventKind::Activate],
            )
            &&& value::is_clock(report.frequency_hz, row[snb::SnbImcEventKind::ReadInsert])
            &&& value::is_rate(
                report.page_miss_precharge_commands_per_second,
                row[snb::SnbImcEventKind::PageMissPrecharge],
            )
            &&& value::is_rate(
                report.read_cas_commands_per_second,
                row[snb::SnbImcEventKind::ReadCas],
            )
            &&& value::is_rate(
                report.write_cas_commands_per_second,
                row[snb::SnbImcEventKind::WriteCas],
            )
            &&& value::is_line_rate(
                report.read_bytes_per_second,
                row[snb::SnbImcEventKind::ReadCas],
            )
            &&& value::is_line_rate(
                report.write_bytes_per_second,
                row[snb::SnbImcEventKind::WriteCas],
            )
            &&& value::is_per_tick(
                report.rpq_non_empty_ratio,
                row[snb::SnbImcEventKind::RpqNonEmpty],
            )
            &&& value::is_per_tick(report.wpq_full_ratio, row[snb::SnbImcEventKind::WpqFull])
            &&& value::is_per_tick(
                report.wpq_non_empty_ratio,
                row[snb::SnbImcEventKind::WpqNonEmpty],
            )
        }),
{
    let rows = measurements.rows();
    assert(metrics.scopes@[i] == snb::scope_metrics(rows[i].0, rows[i].1));
    value::rates_are_counts_over_time(
        rows[i].1[snb::SnbImcEventKind::Activate],
        quantity::no_count(),
        0,
        0,
        0,
    );
    value::rates_are_counts_over_time(
        rows[i].1[snb::SnbImcEventKind::PageMissPrecharge],
        quantity::no_count(),
        0,
        0,
        0,
    );
    value::rates_are_counts_over_time(
        rows[i].1[snb::SnbImcEventKind::ReadCas],
        quantity::no_count(),
        0,
        0,
        0,
    );
    value::rates_are_counts_over_time(
        rows[i].1[snb::SnbImcEventKind::WriteCas],
        quantity::no_count(),
        0,
        0,
        0,
    );
}

/// On Sandy and Ivy Bridge every number of a report is handed out under its own name, with the
/// label of its package.
pub proof fn snb_hands_out_each_number_under_its_name(
    families: snb::SnbImcPrometheusMetrics,
    metrics: snb::SnbImcMetrics,
    i: int,
    given: Vec<GaugeUpdate>,
)
    requires
        call_ensures(snb::SnbImcPrometheusMetrics::update, (&families, &metrics), given),
        0 <= i < metrics.scopes@.len(),
    ensures
        given@.len() == metrics.scopes@.len() * 10,
        ({
            let updates = given@;
            let report = metrics.scopes@[i];
            let labels = labels::package_only(report.scope.package_id);
            &&& labels::hands_out(
                updates,
                "ocellus_imc_activate_commands_per_second",
                labels,
                report.activate_commands_per_second,
            )
            &&& labels::hands_out(updates, "ocellus_imc_frequency_hz", labels, report.frequency_hz)
            &&& labels::hands_out(
                updates,
                "ocellus_imc_page_miss_precharge_commands_per_second",
                labels,
                report.page_miss_precharge_commands_per_second,
            )
            &&& labels::hands_out(
                updates,
                "ocellus_imc_read_bytes_per_second",
                labels,
                report.read_bytes_per_second,
            )
            &&& labels::hands_out(
                updates,
                "ocellus_imc_read_cas_commands_per_second",
                labels,
                report.read_cas_commands_per_second,
            )
            &&& labels::hands_out(
                updates,
                "ocellus_imc_rpq_non_empty_ratio",
                labels,
                report.rpq_non_empty_ratio,
            )
            &&& labels::hands_out(
                updates,
                "ocellus_imc_write_bytes_per_second",
                labels,
                report.write_bytes_per_second,
            )
            &&& labels::hands_out(
                updates,
                "ocellus_imc_write_cas_commands_per_second",
                labels,
                report.write_cas_commands_per_second,
            )
            &&& labels::hands_out(
                updates,
                "ocellus_imc_wpq_full_ratio",
                labels,
                report.wpq_full_ratio,
            )
            &&& labels::hands_out(
                updates,
                "ocellus_imc_wpq_non_empty_ratio",
                labels,
                report.wpq_non_empty_ratio,
            )
        }),
{
    let f = |metrics: snb::SnbImcScopeMetrics| snb::scope_updates(metrics);
    let report = metrics.scopes@[i];
    let list = snb::scope_updates(report);
    labels::lemma_handed_out(metrics.scopes@, f, 10, i, 0, list[0]);
    labels::lemma_handed_out(metrics.scopes@, f, 10, i, 1, list[1]);
    labels::lemma_handed_out(metrics.scopes@, f, 10, i, 2, list[2]);
    labels::lemma_handed_out(metrics.scopes@, f, 10, i, 3, list[3]);
    labels::lemma_handed_out(metrics.scopes@, f, 10, i, 4, list[4]);
    labels::lemma_handed_out(metrics.scopes@, f, 10, i, 5, list[5]);
    labels::lemma_handed_out(metrics.scopes@, f, 10, i, 6, list[6]);
    labels::lemma_handed_out(metrics.scopes@, f, 10, i, 7, list[7]);
    labels::lemma_handed_out(metrics.scopes@, f, 10, i, 8, list[8]);
    labels::lemma_handed_out(metrics.scopes@, f, 10, i, 9, list[9]);
}

proof fn lemma_report_at(
    agents: Grid<HsxUncoreScope, hsx::HsxHaEventKind, EventMeasurement>,
    rows: Seq<(HsxUncoreScope, Map<hsx::HsxImcEventKind, EventMeasurement>)>,
    i: int,
)
    requires
        hsx::all_reports(agents, rows) is Ok,
        0 <= i < rows.len(),
    ensures
        hsx::all_reports(agents, rows)->Ok_0.len() == rows.len(),
        agents.contains_key(rows[i].0),
        hsx::all_reports(agents, rows)->Ok_0[i] == hsx::scope_metrics(
            rows[i].0,
            agents[rows[i].0],
            rows[i].1,
        ),
    decreases rows.len(),
{
    if i < rows.len() - 1 {
        lemma_report_at(agents, rows.drop_last(), i);
        assert(rows.drop_last()[i] == rows[i]);
    } else if rows.len() > 1 {
        lemma_report_at(agents, rows.drop_last(), 0);
    } else {
        assert(rows.drop_last().len() == 0);
    }
}

/// On Haswell and Broadwell the report on a package is made of what its own memory channels and
/// home agents counted: bandwidth of reads comes of reads and of writes of writes, local bandwidth
/// of local requests and remote bandwidth of remote ones, and the local share is that of the local
/// requests in both.
pub proof fn hsx_reports_what_was_counted(
    measurements: hsx::HsxImcMeasurements,
    metrics: hsx::HsxImcMetrics,
    i: int,
)
    requires
        call_ensures(
            hsx::HsxImcMetrics::from_measurements,
            (&measurements,),
            Ok::<hsx::HsxImcMetrics, CollectorError>(metrics),
        ),
        0 <= i < measurements.imc.rows().len(),
    ensures
        metrics.scopes@.len() == measurements.imc.rows().len(),
        measurements.ha.grid().contains_key(measurements.imc.rows()[i].0),
        ({
            let channels = measurements.imc.rows()[i].1;
            let agents = measurements.ha.grid()[measurements.imc.rows()[i].0];
            let report = metrics.scopes@[i];
            &&& report.scope == measurements.imc.rows()[i].0
            &&& value::is_rate(
                report.activate_commands_per_second,
                channels[hsx::HsxImcEventKind::Activate],
            )
            &&& value::is_clock(report.frequency_hz, channels[hsx::HsxImcEventKind::ReadCas])
            &&& value::is_rate(
                report.page_miss_precharge_commands_per_second,
                channels[hsx::HsxImcEventKind::PageMissPrecharge],
            )
            &&& value::is_rate(
                report.read_cas_commands_per_second,
                channels[hsx::HsxImcEventKind::ReadCas],
            )
            &&& value::is_rate(
                report.write_cas_commands_per_second,
                channels[hsx::HsxImcEventKind::WriteCas],
            )
            &&& value::is_line_rate(
                report.read_bytes_per_second,
                channels[hsx::HsxImcEventKind::ReadCas],
            )
            &&& value::is_line_rate(
                report.write_bytes_per_second,
                channels[hsx::HsxImcEventKind::WriteCas],
            )
            &&& value::is_per_tick(
                report.rpq_non_empty_ratio,
                channels[hsx::HsxImcEventKind::RpqNonEmpty],
            )
            &&& value::is_per_tick(
                report.wpq_non_empty_ratio,
                channels[hsx::HsxImcEventKind::WpqNonEmpty],
            )
            &&& value::is_per_tick(report.wpq_full_ratio, channels[hsx::HsxImcEventKind::WpqFull])
            &&& value::is_line_rate(
                report.ha_local_read_bytes_per_second,
                agents[hsx::HsxHaEventKind::LocalRead],
            )
            &&& value::is_line_rate(
                report.ha_remote_read_bytes_per_second,
                agents[hsx::HsxHaEventKind::RemoteRead],
            )
            &&& value::is_line_rate(
                report.ha_local_write_bytes_per_second,
                agents[hsx::HsxHaEventKind::LocalWrite],
            )
            &&& value::is_line_rate(
                report.ha_remote_write_bytes_per_second,
                agents[hsx::HsxHaEventKind::RemoteWrite],
            )
            &&& value::is_share(
                report.ha_local_read_ratio,
                agents[hsx::HsxHaEventKind::LocalRead],
                agents[hsx::HsxHaEventKind::RemoteRead],
            )
            &&& value::is_share(
                report.ha_local_write_ratio,
                agents[hsx::HsxHaEventKind::LocalWrite],
                agents[hsx::HsxHaEventKind::RemoteWrite],
            )
        }),
{
    let channels = measurements.imc.rows()[i].1;
    let agents = measurements.ha.grid()[measurements.imc.rows()[i].0];
    lemma_report_at(measurements.ha.grid(), measurements.imc.rows(), i);
    value::rates_are_counts_over_time(
        channels[hsx::HsxImcEventKind::Activate],
        quantity::no_count(),
        0,
        0,
        0,
    );
    value::rates_are_counts_over_time(
        channels[hsx::HsxImcEventKind::PageMissPrecharge],
        quantity::no_count(),
        0,
        0,
        0,
    );
    value::rates_are_counts_over_time(
        channels[hsx::HsxImcEventKind::ReadCas],
        quantity::no_count(),
        0,
        0,
        0,
    );
    value::rates_are_counts_over_time(
        channels[hsx::HsxImcEventKind::WriteCas],
        quantity::no_count(),
        0,
        0,
        0,
    );
    value::rates_are_counts_over_time(
        agents[hsx::HsxHaEventKind::LocalRead],
        quantity::no_count(),
        0,
        0,
        0,
    );
    value::rates_are_counts_over_time(
        agents[hsx::HsxHaEventKind::RemoteRead],
        quantity::no_count(),
        0,
        0,
        0,
    );
    value::rates_are_counts_over_time(
        agents[hsx::HsxHaEventKind::LocalWrite],
        quantity::no_count(),
        0,
        0,
        0,
    );
    value::rates_are_counts_over_time(
        agents[hsx::HsxHaEventKind::RemoteWrite],
        quantity::no_count(),
        0,
        0,
        0,
    );
}

/// On Haswell and Broadwell every number of a report is handed out under its own name, with the
/// label of its package.
pub proof fn hsx_hands_out_each_number_under_its_name(
    families: hsx::HsxImcPrometheusMetrics,
    metrics: hsx::HsxImcMetrics,
    i: int,
    given: Vec<GaugeUpdate>,
)
    requires
        call_ensures(hsx::HsxImcPrometheusMetrics::update, (&families, &metrics), given),
        0 <= i < metrics.scopes@.len(),
    ensures
        given@.len() == metrics.scopes@.len() * 16,
        ({
            let updates = given@;
            let report = metrics.scopes@[i];
            let labels = labels::package_only(report.scope.package_id);
            &&& labels::hands_out(
                updates,
                "ocellus_haswell_imc_activate_commands_per_second",
                labels,
                report.activate_commands_per_second,
            )
            &&& labels::hands_out(
                updates,
                "ocellus_haswell_imc_frequency_hz",
                labels,
                report.frequency_hz,
            )
            &&& labels::hands_out(
                updates,
                "ocellus_haswell_ha_local_read_bytes_per_second",
                labels,
                report.ha_local_read_bytes_per_second,
            )
            &&& labels::hands_out(
                updates,
                "ocellus_haswell_ha_local_read_ratio",
                labels,
                report.ha_local_read_ratio,
            )
            &&& labels::hands_out(
                updates,
                "ocellus_haswell_ha_local_write_bytes_per_second",
                labels,
                report.ha_local_write_bytes_per_second,
            )
            &&& labels::hands_out(
                updates,
                "ocellus_haswell_ha_local_write_ratio",
                labels,
                report.ha_local_write_ratio,
            )
            &&& labels::hands_out(
                updates,
                "ocellus_haswell_ha_remote_read_bytes_per_second",
                labels,
                report.ha_remote_read_bytes_per_second,
            )
            &&& labels::hands_out(
                updates,
                "ocellus_haswell_ha_remote_write_bytes_per_second",
                labels,
                report.ha_remote_write_bytes_per_second,
            )
            &&& labels::hands_out(
                updates,
                "ocellus_haswell_imc_page_miss_precharge_commands_per_second",
                labels,
                report.page_miss_precharge_commands_per_second,
            )
            &&& labels::hands_out(
                updates,
                "ocellus_haswell_imc_read_cas_commands_per_second",
                labels,
                report.read_cas_commands_per_second,
            )
            &&& labels::hands_out(
                updates,
                "ocellus_haswell_imc_read_bytes_per_second",
                labels,
                report.read_bytes_per_second,
            )
            &&& labels::hands_out(
                updates,
                "ocellus_haswell_imc_rpq_non_empty_ratio",
                labels,
                report.rpq_non_empty_ratio,
            )
            &&& labels::hands_out(
                updates,
                "ocellus_haswell_imc_write_cas_commands_per_second",
                labels,
                report.write_cas_commands_per_second,
            )
            &&& labels::hands_out(
                updates,
                "ocellus_haswell_imc_write_bytes_per_second",
                labels,
                report.write_bytes_per_second,
            )
            &&& labels::hands_out(
                updates,
                "ocellus_haswell_imc_wpq_full_ratio",
                labels,
                report.wpq_full_ratio,
            )
            &&& labels::hands_out(
                updates,
                "ocellus_haswell_imc_wpq_non_empty_ratio",
                labels,
                report.wpq_non_empty_ratio,
            )
        }),
{
    let f = |metrics: hsx::HsxImcMetricsByScope| hsx::scope_updates(metrics);
    let report = metrics.scopes@[i];
    let list = hsx::scope_updates(report);
    labels::lemma_handed_out(metrics.scopes@, f, 16, i, 0, list[0]);
    labels::lemma_handed_out(metrics.scopes@, f, 16, i, 1, list[1]);
    labels::lemma_handed_out(metrics.scopes@, f, 16, i, 2, list[2]);
    labels::lemma_handed_out(metrics.scopes@, f, 16, i, 3, list[3]);
    labels::lemma_handed_out(metrics.scopes@, f, 16, i, 4, list[4]);
    labels::lemma_handed_out(metrics.scopes@, f, 16, i, 5, list[5]);
    labels::lemma_handed_out(metrics.scopes@, f, 16, i, 6, list[6]);
    labels::lemma_handed_out(metrics.scopes@, f, 16, i, 7, list[7]);
    labels::lemma_handed_out(metrics.scopes@, f, 16, i, 8, list[8]);
    labels::lemma_handed_out(metrics.scopes@, f, 16, i, 9, list[9]);
    labels::lemma_handed_out(metrics.scopes@, f, 16, i, 10, list[10]);
    labels::lemma_handed_out(metrics.scopes@, f, 16, i, 11, list[11]);
    labels::lemma_handed_out(metrics.scopes@, f, 16, i, 12, list[12]);
    labels::lemma_handed_out(metrics.scopes@, f, 16, i, 13, list[13]);
    labels::lemma_handed_out(metrics.scopes@, f, 16, i, 14, list[14]);
    labels::lemma_handed_out(metrics.scopes@, f, 16, i, 15, list[15]);
}

/// The share of local requests is one where some were local and none remote, zero where none was
/// local, and it grows with the local requests and falls with the remote ones.
pub proof fn local_share_grows_with_local_requests(
    share: Quantity,
    local: EventMeasurement,
    remote: EventMeasurement,
    other_share: Quantity,
    other_local: EventMeasurement,
    other_remote: EventMeasurement,
)
    requires
        value::is_share(share, local, remote),
        value::is_share(other_share, other_local, other_remote),
    ensures
        value::times(local) > 0 && value::times(remote) == 0 ==> value::value(share).0
            == value::value(share).1,
        value::times(local) == 0 ==> value::value(share).0 == 0,
        value::value(share).0 <= value::value(share).1,
        value::times(local) <= value::times(other_local) && value::times(remote)
            >= value::times(other_remote) ==> value::value(share).0 * value::value(other_share).1
            <= value::value(other_share).0 * value::value(share).1,
{
    let a = value::times(local);
    let b = value::times(remote);
    let c = value::times(other_local);
    let d = value::times(other_remote);
    if a <= c && b >= d {
        assert(a * (c + d) <= c * (a + b)) by (nonlinear_arith)
            requires
                a <= c,
                d <= b,
        ;
    }
}

/// Two reports that differ in what one kind of request counted differ in nothing that is made of
/// the other kinds: local writes do not move the bandwidth of remote writes, nor remote writes
/// that of local ones, and neither moves what is said of reads.
pub proof fn hsx_requests_are_kept_apart(
    first: hsx::HsxImcMeasurements,
    second: hsx::HsxImcMeasurements,
    one: hsx::HsxImcMetrics,
    other: hsx::HsxImcMetrics,
    i: int,
)
    requires
        call_ensures(
            hsx::HsxImcMetrics::from_measurements,
            (&first,),
            Ok::<hsx::HsxImcMetrics, CollectorError>(one),
        ),
        call_ensures(
            hsx::HsxImcMetrics::from_measurements,
            (&second,),
            Ok::<hsx::HsxImcMetrics, CollectorError>(other),
        ),
        first.imc.rows() == second.imc.rows(),
        0 <= i < first.imc.rows().len(),
    ensures
        ({
            let scope = first.imc.rows()[i].0;
            let agents = first.ha.grid()[scope];
            let others = second.ha.grid()[scope];
            let a = one.scopes@[i];
            let b = other.scopes@[i];
            &&& agents[hsx::HsxHaEventKind::LocalWrite] == others[hsx::HsxHaEventKind::LocalWrite]
                ==> a.ha_local_write_bytes_per_second == b.ha_local_write_bytes_per_second
            &&& agents[hsx::HsxHaEventKind::RemoteWrite] == others[hsx::HsxHaEventKind::RemoteWrite]
                ==> a.ha_remote_write_bytes_per_second == b.ha_remote_write_bytes_per_second
            &&& agents[hsx::HsxHaEventKind::LocalRead] == others[hsx::HsxHaEventKind::LocalRead]
                ==> a.ha_local_read_bytes_per_second == b.ha_local_read_bytes_per_second
            &&& agents[hsx::HsxHaEventKind::RemoteRead] == others[hsx::HsxHaEventKind::RemoteRead]
                ==> a.ha_remote_read_bytes_per_second == b.ha_remote_read_bytes_per_second
        }),
{
    lemma_report_at(first.ha.grid(), first.imc.rows(), i);
    lemma_report_at(second.ha.grid(), second.imc.rows(), i);
}

} // verus!
