//! What is said of the traffic that comes in from devices.
use crate::accumulator::{self, Accumulator, EventMeasurement};
use crate::error::CollectorError;
use crate::export::{GaugeUpdate, Labels};
use crate::laws::labels;
use crate::laws::value;
use crate::metrics::irp::{hsx, icx, skx, snb, spr};
use crate::quantity;
use crate::topology::HsxUncoreScope;
use vstd::prelude::*;

verus! {

/// What the stacks of Skylake are called.
pub open spec fn skx_stack_name(stack: skx::SkxIioStack) -> &'static str {
    match stack {
        skx::SkxIioStack::CbdmaDmi => "cbdma_dmi",
        skx::SkxIioStack::Pcie0 => "pcie0",
        skx::SkxIioStack::Pcie1 => "pcie1",
        skx::SkxIioStack::Pcie2 => "pcie2",
        skx::SkxIioStack::Mcp0 => "mcp0",
        skx::SkxIioStack::Mcp1 => "mcp1",
    }
}

/// Whether a stack of Ice Lake is reported under its own number and name.
pub open spec fn icx_stack_is(stack: icx::IcxIrpStack, id: icx::IcxIrpStackId) -> bool {
    match id {
        icx::IcxIrpStackId::Pcie0 => stack.id == 0 && stack.label == "pcie0",
        icx::IcxIrpStackId::Pcie1 => stack.id == 1 && stack.label == "pcie1",
        icx::IcxIrpStackId::Mcp => stack.id == 2 && stack.label == "mcp",
        icx::IcxIrpStackId::Pcie2 => stack.id == 3 && stack.label == "pcie2",
        icx::IcxIrpStackId::Pcie3 => stack.id == 4 && stack.label == "pcie3",
        icx::IcxIrpStackId::CbdmaDmi => stack.id == 5 && stack.label == "cbdma_dmi",
    }
}

/// Whether a stack of Sapphire Rapids is reported under its own number and name.
pub open spec fn spr_stack_is(stack: spr::SprIrpStack, id: spr::SprIrpStackId) -> bool {
    match id {
        spr::SprIrpStackId::M2iosf0 => stack.id == 0 && stack.label == "m2iosf0",
        spr::SprIrpStackId::M2iosf1 => stack.id == 1 && stack.label == "m2iosf1",
        spr::SprIrpStackId::M2iosf2 => stack.id == 2 && stack.label == "m2iosf2",
        spr::SprIrpStackId::M2iosf3 => stack.id == 3 && stack.label == "m2iosf3",
        spr::SprIrpStackId::M2iosf4 => stack.id == 4 && stack.label == "m2iosf4",
        spr::SprIrpStackId::M2iosf5 => stack.id == 5 && stack.label == "m2iosf5",
        spr::SprIrpStackId::M2iosf6 => stack.id == 6 && stack.label == "m2iosf6",
        spr::SprIrpStackId::M2iosf7 => stack.id == 7 && stack.label == "m2iosf7",
        spr::SprIrpStackId::M2iosf8 => stack.id == 8 && stack.label == "m2iosf8",
        spr::SprIrpStackId::M2iosf9 => stack.id == 9 && stack.label == "m2iosf9",
        spr::SprIrpStackId::M2iosf10 => stack.id == 10 && stack.label == "m2iosf10",
        spr::SprIrpStackId::M2iosf11 => stack.id == 11 && stack.label == "m2iosf11",
    }
}

/// On Haswell and Broadwell the report on inbound traffic is made of the events of that place: each
/// transaction type of its own event, inbound reads of reads and inbound writes of writes.
pub proof fn hsx_reports_what_was_counted(
    measurements: Accumulator<HsxUncoreScope, hsx::HsxIrpEventKind, EventMeasurement>,
    metrics: hsx::HsxIrpMetrics,
    i: int,
)
    requires
        call_ensures(
            hsx::HsxIrpMetrics::from_measurements,
            (&measurements,),
            Ok::<hsx::HsxIrpMetrics, CollectorError>(metrics),
        ),
        0 <= i < measurements.rows().len(),
    ensures
        metrics.scopes@.len() == measurements.rows().len(),
        ({
            let row = measurements.rows()[i].1;
            let report = metrics.scopes@[i];
            &&& report.scope == measurements.rows()[i].0
            &&& value::is_line_rate(
                report.clflush_bytes_per_second,
                row[hsx::HsxIrpEventKind::ClFlush],
            )
            &&& value::is_line_rate(
                report.core_read_bytes_per_second,
                row[hsx::HsxIrpEventKind::CoreRead],
            )
            &&& value::is_line_rate(
                report.demand_read_bytes_per_second,
                row[hsx::HsxIrpEventKind::DemandRead],
            )
            &&& value::is_line_rate(
                report.pci_dca_hint_bytes_per_second,
                row[hsx::HsxIrpEventKind::PciDcaHint],
            )
            &&& value::is_line_rate(
                report.pci_itom_bytes_per_second,
                row[hsx::HsxIrpEventKind::PciItoM],
            )
            &&& value::is_line_rate(
                report.pcie_read_current_bytes_per_second,
                row[hsx::HsxIrpEventKind::PcieReadCurrent],
            )
            &&& value::is_line_rate(
                report.read_for_ownership_bytes_per_second,
                row[hsx::HsxIrpEventKind::ReadForOwnership],
            )
            &&& value::is_line_rate(
                report.wbmtoi_bytes_per_second,
                row[hsx::HsxIrpEventKind::WbMtoI],
            )
            &&& value::is_frequency(report.frequency_hz, row[hsx::HsxIrpEventKind::Clockticks])
            &&& value::is_ratio(
                report.io_write_conflict_ratio,
                row[hsx::HsxIrpEventKind::LostFwd],
                row[hsx::HsxIrpEventKind::PcieInboundWrites],
            )
            &&& value::is_rate(
                report.pcie_inbound_reads_per_second,
                row[hsx::HsxIrpEventKind::PcieInboundReads],
            )
            &&& value::is_rate(
                report.pcie_inbound_writes_per_second,
                row[hsx::HsxIrpEventKind::PcieInboundWrites],
            )
            &&& value::is_ratio(
                report.total_irp_occupancy_entries,
                row[hsx::HsxIrpEventKind::TotalIrpOccupancy],
                row[hsx::HsxIrpEventKind::Clockticks],
            )
        }),
{
    let rows = measurements.rows();
    assert(metrics.scopes@[i] == hsx::scope_metrics(rows[i].0, rows[i].1));
    value::rates_are_counts_over_time(
        rows[i].1[hsx::HsxIrpEventKind::ClFlush],
        quantity::no_count(),
        0,
        0,
        0,
    );
    value::rates_are_counts_over_time(
        rows[i].1[hsx::HsxIrpEventKind::CoreRead],
        quantity::no_count(),
        0,
        0,
        0,
    );
    value::rates_are_counts_over_time(
        rows[i].1[hsx::HsxIrpEventKind::DemandRead],
        quantity::no_count(),
        0,
        0,
        0,
    );
    value::rates_are_counts_over_time(
        rows[i].1[hsx::HsxIrpEventKind::PciDcaHint],
        quantity::no_count(),
        0,
        0,
        0,
    );
    value::rates_are_counts_over_time(
        rows[i].1[hsx::HsxIrpEventKind::PciItoM],
        quantity::no_count(),
        0,
        0,
        0,
    );
    value::rates_are_counts_over_time(
        rows[i].1[hsx::HsxIrpEventKind::PcieReadCurrent],
        quantity::no_count(),
        0,
        0,
        0,
    );
    value::rates_are_counts_over_time(
        rows[i].1[hsx::HsxIrpEventKind::ReadForOwnership],
        quantity::no_count(),
        0,
        0,
        0,
    );
    value::rates_are_counts_over_time(
        rows[i].1[hsx::HsxIrpEventKind::WbMtoI],
        quantity::no_count(),
        0,
        0,
        0,
    );
    value::rates_are_counts_over_time(
        rows[i].1[hsx::HsxIrpEventKind::PcieInboundReads],
        quantity::no_count(),
        0,
        0,
        0,
    );
    value::rates_are_counts_over_time(
        rows[i].1[hsx::HsxIrpEventKind::PcieInboundWrites],
        quantity::no_count(),
        0,
        0,
        0,
    );
}

/// On Haswell and Broadwell every number of a report is handed out under its own name, with the
/// labels of its place.
pub proof fn hsx_hands_out_each_number_under_its_name(
    families: hsx::HsxIrpPrometheusMetrics,
    metrics: hsx::HsxIrpMetrics,
    i: int,
    given: Vec<GaugeUpdate>,
)
    requires
        call_ensures(hsx::HsxIrpPrometheusMetrics::update, (&families, &metrics), given),
        0 <= i < metrics.scopes@.len(),
    ensures
        given@.len() == metrics.scopes@.len() * 13,
        ({
            let updates = given@;
            let report = metrics.scopes@[i];
            let labels = labels::package_only(report.scope.package_id);
            &&& labels::hands_out(
                updates,
                "ocellus_irp_clflush_bytes_per_second",
                labels,
                report.clflush_bytes_per_second,
            )
            &&& labels::hands_out(
                updates,
                "ocellus_irp_core_read_bytes_per_second",
                labels,
                report.core_read_bytes_per_second,
            )
            &&& labels::hands_out(
                updates,
                "ocellus_irp_demand_read_bytes_per_second",
                labels,
                report.demand_read_bytes_per_second,
            )
            &&& labels::hands_out(updates, "ocellus_irp_frequency_hz", labels, report.frequency_hz)
            &&& labels::hands_out(
                updates,
                "ocellus_irp_io_write_conflict_ratio",
                labels,
                report.io_write_conflict_ratio,
            )
            &&& labels::hands_out(
                updates,
                "ocellus_irp_pci_dca_hint_bytes_per_second",
                labels,
                report.pci_dca_hint_bytes_per_second,
            )
            &&& labels::hands_out(
                updates,
                "ocellus_irp_pci_itom_bytes_per_second",
                labels,
                report.pci_itom_bytes_per_second,
            )
            &&& labels::hands_out(
                updates,
                "ocellus_irp_pcie_inbound_reads_per_second",
                labels,
                report.pcie_inbound_reads_per_second,
            )
            &&& labels::hands_out(
                updates,
                "ocellus_irp_pcie_inbound_writes_per_second",
                labels,
                report.pcie_inbound_writes_per_second,
            )
            &&& labels::hands_out(
                updates,
                "ocellus_irp_pcie_read_current_bytes_per_second",
                labels,
                report.pcie_read_current_bytes_per_second,
            )
            &&& labels::hands_out(
                updates,
                "ocellus_irp_read_for_ownership_bytes_per_second",
                labels,
                report.read_for_ownership_bytes_per_second,
            )
            &&& labels::hands_out(
                updates,
                "ocellus_irp_total_occupancy_entries",
                labels,
                report.total_irp_occupancy_entries,
            )
            &&& labels::hands_out(
                updates,
                "ocellus_irp_wbmtoi_bytes_per_second",
                labels,
                report.wbmtoi_bytes_per_second,
            )
        }),
{
    let f = |metrics: hsx::HsxIrpScopeMetrics| hsx::scope_updates(metrics);
    let report = metrics.scopes@[i];
    let list = hsx::scope_updates(report);
    labels::lemma_handed_out(metrics.scopes@, f, 13, i, 0, list[0]);
    labels::lemma_handed_out(metrics.scopes@, f, 13, i, 1, list[1]);
    labels::lemma_handed_out(metrics.scopes@, f, 13, i, 2, list[2]);
    labels::lemma_handed_out(metrics.scopes@, f, 13, i, 3, list[3]);
    labels::lemma_handed_out(metrics.scopes@, f, 13, i, 4, list[4]);
    labels::lemma_handed_out(metrics.scopes@, f, 13, i, 5, list[5]);
    labels::lemma_handed_out(metrics.scopes@, f, 13, i, 6, list[6]);
    labels::lemma_handed_out(metrics.scopes@, f, 13, i, 7, list[7]);
    labels::lemma_handed_out(metrics.scopes@, f, 13, i, 8, list[8]);
    labels::lemma_handed_out(metrics.scopes@, f, 13, i, 9, list[9]);
    labels::lemma_handed_out(metrics.scopes@, f, 13, i, 10, list[10]);
    labels::lemma_handed_out(metrics.scopes@, f, 13, i, 11, list[11]);
    labels::lemma_handed_out(metrics.scopes@, f, 13, i, 12, list[12]);
}

/// On Ice Lake the report on inbound traffic is made of the events of that place: each transaction
/// type of its own event, inbound reads of reads and inbound writes of writes.
pub proof fn icx_reports_what_was_counted(
    measurements: Accumulator<icx::IcxIrpStackScope, icx::IcxIrpEventKind, EventMeasurement>,
    metrics: icx::IcxIrpMetrics,
    i: int,
)
    requires
        call_ensures(
            icx::IcxIrpMetrics::from_measurements,
            (&measurements,),
            Ok::<icx::IcxIrpMetrics, CollectorError>(metrics),
        ),
        0 <= i < measurements.rows().len(),
    ensures
        metrics.scopes@.len() == measurements.rows().len(),
        ({
            let row = measurements.rows()[i].1;
            let report = metrics.scopes@[i];
            &&& report.scope == measurements.rows()[i].0.scope
            &&& icx_stack_is(report.stack, measurements.rows()[i].0.stack)
            &&& value::is_line_rate_if_any(
                report.clflush_bytes_per_second,
                accumulator::held(row, icx::IcxIrpEventKind::ClFlush),
            )
            &&& value::is_line_rate_if_any(
                report.pci_itom_bytes_per_second,
                accumulator::held(row, icx::IcxIrpEventKind::PciItoM),
            )
            &&& value::is_line_rate_if_any(
                report.pcie_read_current_bytes_per_second,
                accumulator::held(row, icx::IcxIrpEventKind::PcieReadCurrent),
            )
            &&& value::is_line_rate_if_any(
                report.read_for_ownership_bytes_per_second,
                accumulator::held(row, icx::IcxIrpEventKind::ReadForOwnership),
            )
            &&& value::is_line_rate_if_any(
                report.wbmtoi_bytes_per_second,
                accumulator::held(row, icx::IcxIrpEventKind::WbMtoI),
            )
            &&& value::is_rate_if_any(
                report.all_hit_m_snoop_responses_per_second,
                accumulator::held(row, icx::IcxIrpEventKind::AllHitM),
            )
            &&& value::is_ratio_if_any(
                report.faf_full_ratio,
                accumulator::held(row, icx::IcxIrpEventKind::FafFull),
                row[icx::IcxIrpEventKind::Clockticks],
            )
            &&& value::is_ratio_if_any(
                report.faf_occupancy_entries,
                accumulator::held(row, icx::IcxIrpEventKind::FafOccupancy),
                row[icx::IcxIrpEventKind::Clockticks],
            )
            &&& value::is_frequency(report.frequency_hz, row[icx::IcxIrpEventKind::Clockticks])
            &&& value::is_ratio_if_any(
                report.io_write_conflict_ratio,
                accumulator::held(row, icx::IcxIrpEventKind::LostFwd),
                row[icx::IcxIrpEventKind::WriteInserts],
            )
            &&& value::is_ratio(
                report.total_irp_occupancy_entries,
                row[icx::IcxIrpEventKind::TotalIrpOccupancy],
                row[icx::IcxIrpEventKind::Clockticks],
            )
            &&& value::is_rate_if_any(
                report.pcie_inbound_reads_per_second,
                accumulator::held(row, icx::IcxIrpEventKind::FafInserts),
            )
            &&& value::is_rate(
                report.pcie_inbound_writes_per_second,
                row[icx::IcxIrpEventKind::WriteInserts],
            )
            &&& value::is_write_residency(
                report.pcie_inbound_write_latency_seconds,
                row[icx::IcxIrpEventKind::TotalIrpOccupancy],
                accumulator::held(row, icx::IcxIrpEventKind::FafOccupancy),
                row[icx::IcxIrpEventKind::WriteInserts],
                row[icx::IcxIrpEventKind::Clockticks],
            )
        }),
{
    let rows = measurements.rows();
    assert(metrics.scopes@[i] == icx::scope_metrics(rows[i].0, rows[i].1));
    value::unmeasured_events_have_no_rate(
        accumulator::held(rows[i].1, icx::IcxIrpEventKind::ClFlush),
    );
    value::unmeasured_events_have_no_rate(
        accumulator::held(rows[i].1, icx::IcxIrpEventKind::PciItoM),
    );
    value::unmeasured_events_have_no_rate(
        accumulator::held(rows[i].1, icx::IcxIrpEventKind::PcieReadCurrent),
    );
    value::unmeasured_events_have_no_rate(
        accumulator::held(rows[i].1, icx::IcxIrpEventKind::ReadForOwnership),
    );
    value::unmeasured_events_have_no_rate(
        accumulator::held(rows[i].1, icx::IcxIrpEventKind::WbMtoI),
    );
    value::unmeasured_events_have_no_rate(
        accumulator::held(rows[i].1, icx::IcxIrpEventKind::AllHitM),
    );
    value::unmeasured_events_have_no_rate(
        accumulator::held(rows[i].1, icx::IcxIrpEventKind::FafInserts),
    );
    value::rates_are_counts_over_time(
        rows[i].1[icx::IcxIrpEventKind::WriteInserts],
        quantity::no_count(),
        0,
        0,
        0,
    );
    value::residencies_are_occupancy_over_inserts(
        rows[i].1[icx::IcxIrpEventKind::TotalIrpOccupancy],
        accumulator::held(rows[i].1, icx::IcxIrpEventKind::FafOccupancy),
        rows[i].1[icx::IcxIrpEventKind::WriteInserts],
        rows[i].1[icx::IcxIrpEventKind::Clockticks],
    );
}

/// On Ice Lake every number of a report is handed out under its own name, with the labels of its
/// place.
pub proof fn icx_hands_out_each_number_under_its_name(
    families: icx::IcxIrpPrometheusMetrics,
    metrics: icx::IcxIrpMetrics,
    i: int,
    given: Vec<GaugeUpdate>,
)
    requires
        call_ensures(icx::IcxIrpPrometheusMetrics::update, (&families, &metrics), given),
        0 <= i < metrics.scopes@.len(),
    ensures
        given@.len() == metrics.scopes@.len() * 14,
        ({
            let updates = given@;
            let report = metrics.scopes@[i];
            let labels = (Labels {
                stack: Some(report.stack.label),
                ..labels::die_only(
                    report.scope.die_group_id,
                    report.scope.die_id,
                    report.scope.package_id,
                )
            });
            &&& labels::hands_out(
                updates,
                "ocellus_irp_all_hit_m_snoop_responses_per_second",
                labels,
                report.all_hit_m_snoop_responses_per_second,
            )
            &&& labels::hands_out(
                updates,
                "ocellus_irp_clflush_bytes_per_second",
                labels,
                report.clflush_bytes_per_second,
            )
            &&& labels::hands_out(
                updates,
                "ocellus_irp_faf_full_ratio",
                labels,
                report.faf_full_ratio,
            )
            &&& labels::hands_out(
                updates,
                "ocellus_irp_faf_occupancy_entries",
                labels,
                report.faf_occupancy_entries,
            )
            &&& labels::hands_out(
                updates,
                "ocellus_irp_pcie_inbound_reads_per_second",
                labels,
                report.pcie_inbound_reads_per_second,
            )
            &&& labels::hands_out(updates, "ocellus_irp_frequency_hz", labels, report.frequency_hz)
            &&& labels::hands_out(
                updates,
                "ocellus_irp_io_write_conflict_ratio",
                labels,
                report.io_write_conflict_ratio,
            )
            &&& labels::hands_out(
                updates,
                "ocellus_irp_pci_itom_bytes_per_second",
                labels,
                report.pci_itom_bytes_per_second,
            )
            &&& labels::hands_out(
                updates,
                "ocellus_irp_pcie_read_current_bytes_per_second",
                labels,
                report.pcie_read_current_bytes_per_second,
            )
            &&& labels::hands_out(
                updates,
                "ocellus_irp_read_for_ownership_bytes_per_second",
                labels,
                report.read_for_ownership_bytes_per_second,
            )
            &&& labels::hands_out(
                updates,
                "ocellus_irp_total_occupancy_entries",
                labels,
                report.total_irp_occupancy_entries,
            )
            &&& labels::hands_out(
                updates,
                "ocellus_irp_wbmtoi_bytes_per_second",
                labels,
                report.wbmtoi_bytes_per_second,
            )
            &&& labels::hands_out(
                updates,
                "ocellus_irp_pcie_inbound_writes_per_second",
                labels,
                report.pcie_inbound_writes_per_second,
            )
            &&& labels::hands_out(
                updates,
                "ocellus_irp_pcie_inbound_write_latency_seconds",
                labels,
                report.pcie_inbound_write_latency_seconds,
            )
        }),
{
    let f = |metrics: icx::IcxIrpScopeMetrics| icx::scope_updates(metrics);
    let report = metrics.scopes@[i];
    let list = icx::scope_updates(report);
    labels::lemma_handed_out(metrics.scopes@, f, 14, i, 0, list[0]);
    labels::lemma_handed_out(metrics.scopes@, f, 14, i, 1, list[1]);
    labels::lemma_handed_out(metrics.scopes@, f, 14, i, 2, list[2]);
    labels::lemma_handed_out(metrics.scopes@, f, 14, i, 3, list[3]);
    labels::lemma_handed_out(metrics.scopes@, f, 14, i, 4, list[4]);
    labels::lemma_handed_out(metrics.scopes@, f, 14, i, 5, list[5]);
    labels::lemma_handed_out(metrics.scopes@, f, 14, i, 6, list[6]);
    labels::lemma_handed_out(metrics.scopes@, f, 14, i, 7, list[7]);
    labels::lemma_handed_out(metrics.scopes@, f, 14, i, 8, list[8]);
    labels::lemma_handed_out(metrics.scopes@, f, 14, i, 9, list[9]);
    labels::lemma_handed_out(metrics.scopes@, f, 14, i, 10, list[10]);
    labels::lemma_handed_out(metrics.scopes@, f, 14, i, 11, list[11]);
    labels::lemma_handed_out(metrics.scopes@, f, 14, i, 12, list[12]);
    labels::lemma_handed_out(metrics.scopes@, f, 14, i, 13, list[13]);
}

/// On Skylake the report on inbound traffic is made of the events of that place: each transaction
/// type of its own event, inbound reads of reads and inbound writes of writes.
pub proof fn skx_reports_what_was_counted(
    measurements: Accumulator<skx::IrpStackScope, skx::IrpEventKind, EventMeasurement>,
    metrics: skx::IrpMetrics,
    i: int,
)
    requires
        call_ensures(
            skx::IrpMetrics::from_measurements,
            (&measurements,),
            Ok::<skx::IrpMetrics, CollectorError>(metrics),
        ),
        0 <= i < measurements.rows().len(),
    ensures
        metrics.scopes@.len() == measurements.rows().len(),
        ({
            let row = measurements.rows()[i].1;
            let report = metrics.scopes@[i];
            &&& report.scope == measurements.rows()[i].0.scope
            &&& report.stack == measurements.rows()[i].0.stack
            &&& value::is_line_rate(
                report.clflush_bytes_per_second,
                row[skx::IrpEventKind::ClFlush],
            )
            &&& value::is_line_rate(
                report.core_read_bytes_per_second,
                row[skx::IrpEventKind::CoreRead],
            )
            &&& value::is_line_rate(
                report.demand_read_bytes_per_second,
                row[skx::IrpEventKind::DemandRead],
            )
            &&& value::is_line_rate(
                report.pci_dca_hint_bytes_per_second,
                row[skx::IrpEventKind::PciDcaHint],
            )
            &&& value::is_line_rate(
                report.pci_itom_bytes_per_second,
                row[skx::IrpEventKind::PciItoM],
            )
            &&& value::is_line_rate(
                report.pcie_read_current_bytes_per_second,
                row[skx::IrpEventKind::PcieReadCurrent],
            )
            &&& value::is_line_rate(
                report.read_for_ownership_bytes_per_second,
                row[skx::IrpEventKind::ReadForOwnership],
            )
            &&& value::is_line_rate(report.wbmtoi_bytes_per_second, row[skx::IrpEventKind::WbMtoI])
            &&& value::is_frequency(report.frequency_hz, row[skx::IrpEventKind::Clockticks])
            &&& value::is_ratio(
                report.faf_occupancy_entries,
                row[skx::IrpEventKind::FafOccupancy],
                row[skx::IrpEventKind::Clockticks],
            )
            &&& value::is_ratio(
                report.total_irp_occupancy_entries,
                row[skx::IrpEventKind::TotalIrpOccupancy],
                row[skx::IrpEventKind::Clockticks],
            )
            &&& value::is_rate(
                report.write_inserts_per_second,
                row[skx::IrpEventKind::WriteInserts],
            )
            &&& value::is_write_residency(
                report.write_latency_seconds,
                row[skx::IrpEventKind::TotalIrpOccupancy],
                Some(row[skx::IrpEventKind::FafOccupancy]),
                row[skx::IrpEventKind::WriteInserts],
                row[skx::IrpEventKind::Clockticks],
            )
        }),
{
    let rows = measurements.rows();
    assert(metrics.scopes@[i] == skx::scope_metrics(rows[i].0, rows[i].1));
    value::rates_are_counts_over_time(
        rows[i].1[skx::IrpEventKind::ClFlush],
        quantity::no_count(),
        0,
        0,
        0,
    );
    value::rates_are_counts_over_time(
        rows[i].1[skx::IrpEventKind::CoreRead],
        quantity::no_count(),
        0,
        0,
        0,
    );
    value::rates_are_counts_over_time(
        rows[i].1[skx::IrpEventKind::DemandRead],
        quantity::no_count(),
        0,
        0,
        0,
    );
    value::rates_are_counts_over_time(
        rows[i].1[skx::IrpEventKind::PciDcaHint],
        quantity::no_count(),
        0,
        0,
        0,
    );
    value::rates_are_counts_over_time(
        rows[i].1[skx::IrpEventKind::PciItoM],
        quantity::no_count(),
        0,
        0,
        0,
    );
    value::rates_are_counts_over_time(
        rows[i].1[skx::IrpEventKind::PcieReadCurrent],
        quantity::no_count(),
        0,
        0,
        0,
    );
    value::rates_are_counts_over_time(
        rows[i].1[skx::IrpEventKind::ReadForOwnership],
        quantity::no_count(),
        0,
        0,
        0,
    );
    value::rates_are_counts_over_time(
        rows[i].1[skx::IrpEventKind::WbMtoI],
        quantity::no_count(),
        0,
        0,
        0,
    );
    value::rates_are_counts_over_time(
        rows[i].1[skx::IrpEventKind::WriteInserts],
        quantity::no_count(),
        0,
        0,
        0,
    );
    value::residencies_are_occupancy_over_inserts(
        rows[i].1[skx::IrpEventKind::TotalIrpOccupancy],
        Some(rows[i].1[skx::IrpEventKind::FafOccupancy]),
        rows[i].1[skx::IrpEventKind::WriteInserts],
        rows[i].1[skx::IrpEventKind::Clockticks],
    );
}

/// On Skylake every number of a report is handed out under its own name, with the labels of its
/// place.
pub proof fn skx_hands_out_each_number_under_its_name(
    families: skx::IrpPrometheusMetrics,
    metrics: skx::IrpMetrics,
    i: int,
    given: Vec<GaugeUpdate>,
)
    requires
        call_ensures(skx::IrpPrometheusMetrics::update, (&families, &metrics), given),
        0 <= i < metrics.scopes@.len(),
    ensures
        given@.len() == metrics.scopes@.len() * 13,
        ({
            let updates = given@;
            let report = metrics.scopes@[i];
            let labels = (Labels {
                stack: Some(skx_stack_name(report.stack)),
                ..labels::die_only(
                    report.scope.die_group_id,
                    report.scope.die_id,
                    report.scope.package_id,
                )
            });
            &&& labels::hands_out(
                updates,
                "ocellus_irp_clflush_bytes_per_second",
                labels,
                report.clflush_bytes_per_second,
            )
            &&& labels::hands_out(
                updates,
                "ocellus_irp_core_read_bytes_per_second",
                labels,
                report.core_read_bytes_per_second,
            )
            &&& labels::hands_out(
                updates,
                "ocellus_irp_demand_read_bytes_per_second",
                labels,
                report.demand_read_bytes_per_second,
            )
            &&& labels::hands_out(
                updates,
                "ocellus_irp_faf_occupancy_entries",
                labels,
                report.faf_occupancy_entries,
            )
            &&& labels::hands_out(updates, "ocellus_irp_frequency_hz", labels, report.frequency_hz)
            &&& labels::hands_out(
                updates,
                "ocellus_irp_pci_dca_hint_bytes_per_second",
                labels,
                report.pci_dca_hint_bytes_per_second,
            )
            &&& labels::hands_out(
                updates,
                "ocellus_irp_pci_itom_bytes_per_second",
                labels,
                report.pci_itom_bytes_per_second,
            )
            &&& labels::hands_out(
                updates,
                "ocellus_irp_pcie_read_current_bytes_per_second",
                labels,
                report.pcie_read_current_bytes_per_second,
            )
            &&& labels::hands_out(
                updates,
                "ocellus_irp_read_for_ownership_bytes_per_second",
                labels,
                report.read_for_ownership_bytes_per_second,
            )
            &&& labels::hands_out(
                updates,
                "ocellus_irp_total_occupancy_entries",
                labels,
                report.total_irp_occupancy_entries,
            )
            &&& labels::hands_out(
                updates,
                "ocellus_irp_wbmtoi_bytes_per_second",
                labels,
                report.wbmtoi_bytes_per_second,
            )
            &&& labels::hands_out(
                updates,
                "ocellus_irp_write_inserts_per_second",
                labels,
                report.write_inserts_per_second,
            )
            &&& labels::hands_out(
                updates,
                "ocellus_irp_write_latency_seconds",
                labels,
                report.write_latency_seconds,
            )
        }),
{
    let f = |metrics: skx::IrpScopeMetrics| skx::scope_updates(metrics);
    let report = metrics.scopes@[i];
    let list = skx::scope_updates(report);
    labels::lemma_handed_out(metrics.scopes@, f, 13, i, 0, list[0]);
    labels::lemma_handed_out(metrics.scopes@, f, 13, i, 1, list[1]);
    labels::lemma_handed_out(metrics.scopes@, f, 13, i, 2, list[2]);
    labels::lemma_handed_out(metrics.scopes@, f, 13, i, 3, list[3]);
    labels::lemma_handed_out(metrics.scopes@, f, 13, i, 4, list[4]);
    labels::lemma_handed_out(metrics.scopes@, f, 13, i, 5, list[5]);
    labels::lemma_handed_out(metrics.scopes@, f, 13, i, 6, list[6]);
    labels::lemma_handed_out(metrics.scopes@, f, 13, i, 7, list[7]);
    labels::lemma_handed_out(metrics.scopes@, f, 13, i, 8, list[8]);
    labels::lemma_handed_out(metrics.scopes@, f, 13, i, 9, list[9]);
    labels::lemma_handed_out(metrics.scopes@, f, 13, i, 10, list[10]);
    labels::lemma_handed_out(metrics.scopes@, f, 13, i, 11, list[11]);
    labels::lemma_handed_out(metrics.scopes@, f, 13, i, 12, list[12]);
}

/// On Sandy and Ivy Bridge the report on inbound traffic is made of the events of that place: each
/// transaction type of its own event, inbound reads of reads and inbound writes of writes.
pub proof fn snb_reports_what_was_counted(
    measurements: Accumulator<snb::SnbIrpScope, snb::SnbIrpEventKind, EventMeasurement>,
    metrics: snb::SnbIrpMetrics,
    i: int,
)
    requires
        call_ensures(
            snb::SnbIrpMetrics::from_measurements,
            (&measurements,),
            Ok::<snb::SnbIrpMetrics, CollectorError>(metrics),
        ),
        0 <= i < measurements.rows().len(),
    ensures
        metrics.scopes@.len() == measurements.rows().len(),
        ({
            let row = measurements.rows()[i].1;
            let report = metrics.scopes@[i];
            &&& report.scope == measurements.rows()[i].0
            &&& value::is_frequency(report.frequency_hz, row[snb::SnbIrpEventKind::Clockticks])
            &&& value::is_ratio(
                report.io_write_conflict_ratio,
                row[snb::SnbIrpEventKind::LostOwnership],
                row[snb::SnbIrpEventKind::PcieInboundWrites],
            )
            &&& value::is_rate(
                report.pcie_inbound_reads_per_second,
                row[snb::SnbIrpEventKind::PcieInboundReads],
            )
            &&& value::is_rate(
                report.pcie_inbound_writes_per_second,
                row[snb::SnbIrpEventKind::PcieInboundWrites],
            )
            &&& value::is_ratio(
                report.total_irp_occupancy_entries,
                row[snb::SnbIrpEventKind::TotalIrpOccupancy],
                row[snb::SnbIrpEventKind::Clockticks],
            )
        }),
{
    let rows = measurements.rows();
    assert(metrics.scopes@[i] == snb::scope_metrics(rows[i].0, rows[i].1));
    value::rates_are_counts_over_time(
        rows[i].1[snb::SnbIrpEventKind::PcieInboundReads],
        quantity::no_count(),
        0,
        0,
        0,
    );
    value::rates_are_counts_over_time(
        rows[i].1[snb::SnbIrpEventKind::PcieInboundWrites],
        quantity::no_count(),
        0,
        0,
        0,
    );
}

/// On Sandy and Ivy Bridge every number of a report is handed out under its own name, with the
/// labels of its place.
pub proof fn snb_hands_out_each_number_under_its_name(
    families: snb::SnbIrpPrometheusMetrics,
    metrics: snb::SnbIrpMetrics,
    i: int,
    given: Vec<GaugeUpdate>,
)
    requires
        call_ensures(snb::SnbIrpPrometheusMetrics::update, (&families, &metrics), given),
        0 <= i < metrics.scopes@.len(),
    ensures
        given@.len() == metrics.scopes@.len() * 5,
        ({
            let updates = given@;
            let report = metrics.scopes@[i];
            let labels = labels::package_only(report.scope.package_id);
            &&& labels::hands_out(updates, "ocellus_irp_frequency_hz", labels, report.frequency_hz)
            &&& labels::hands_out(
                updates,
                "ocellus_irp_io_write_conflict_ratio",
                labels,
                report.io_write_conflict_ratio,
            )
            &&& labels::hands_out(
                updates,
                "ocellus_irp_pcie_inbound_reads_per_second",
                labels,
                report.pcie_inbound_reads_per_second,
            )
            &&& labels::hands_out(
                updates,
                "ocellus_irp_pcie_inbound_writes_per_second",
                labels,
                report.pcie_inbound_writes_per_second,
            )
            &&& labels::hands_out(
                updates,
                "ocellus_irp_total_occupancy_entries",
                labels,
                report.total_irp_occupancy_entries,
            )
        }),
{
    let f = |metrics: snb::SnbIrpScopeMetrics| snb::scope_updates(metrics);
    let report = metrics.scopes@[i];
    let list = snb::scope_updates(report);
    labels::lemma_handed_out(metrics.scopes@, f, 5, i, 0, list[0]);
    labels::lemma_handed_out(metrics.scopes@, f, 5, i, 1, list[1]);
    labels::lemma_handed_out(metrics.scopes@, f, 5, i, 2, list[2]);
    labels::lemma_handed_out(metrics.scopes@, f, 5, i, 3, list[3]);
    labels::lemma_handed_out(metrics.scopes@, f, 5, i, 4, list[4]);
}

/// On Sapphire Rapids the report on inbound traffic is made of the events of that place: each
/// transaction type of its own event, inbound reads of reads and inbound writes of writes.
pub proof fn spr_reports_what_was_counted(
    measurements: Accumulator<spr::SprIrpStackScope, spr::SprIrpEventKind, EventMeasurement>,
    metrics: spr::SprIrpMetrics,
    i: int,
)
    requires
        call_ensures(
            spr::SprIrpMetrics::from_measurements,
            (&measurements,),
            Ok::<spr::SprIrpMetrics, CollectorError>(metrics),
        ),
        0 <= i < measurements.rows().len(),
    ensures
        metrics.scopes@.len() == measurements.rows().len(),
        ({
            let row = measurements.rows()[i].1;
            let report = metrics.scopes@[i];
            &&& report.scope == measurements.rows()[i].0.scope
            &&& spr_stack_is(report.stack, measurements.rows()[i].0.stack)
            &&& value::is_rate_if_any(
                report.all_hit_m_snoop_responses_per_second,
                accumulator::held(row, spr::SprIrpEventKind::AllHitM),
            )
            &&& value::is_ratio_if_any(
                report.faf_full_ratio,
                accumulator::held(row, spr::SprIrpEventKind::FafFull),
                row[spr::SprIrpEventKind::Clockticks],
            )
            &&& value::is_ratio_if_any(
                report.faf_occupancy_entries,
                accumulator::held(row, spr::SprIrpEventKind::FafOccupancy),
                row[spr::SprIrpEventKind::Clockticks],
            )
            &&& value::is_frequency(report.frequency_hz, row[spr::SprIrpEventKind::Clockticks])
            &&& value::is_ratio_if_any(
                report.io_write_conflict_ratio,
                accumulator::held(row, spr::SprIrpEventKind::LostFwd),
                row[spr::SprIrpEventKind::WriteInserts],
            )
            &&& value::is_ratio(
                report.total_irp_occupancy_entries,
                row[spr::SprIrpEventKind::TotalIrpOccupancy],
                row[spr::SprIrpEventKind::Clockticks],
            )
            &&& value::is_rate_if_any(
                report.pcie_inbound_reads_per_second,
                accumulator::held(row, spr::SprIrpEventKind::FafInserts),
            )
            &&& value::is_rate(
                report.pcie_inbound_writes_per_second,
                row[spr::SprIrpEventKind::WriteInserts],
            )
            &&& value::is_write_residency(
                report.pcie_inbound_write_latency_seconds,
                row[spr::SprIrpEventKind::TotalIrpOccupancy],
                accumulator::held(row, spr::SprIrpEventKind::FafOccupancy),
                row[spr::SprIrpEventKind::WriteInserts],
                row[spr::SprIrpEventKind::Clockticks],
            )
        }),
{
    let rows = measurements.rows();
    assert(metrics.scopes@[i] == spr::scope_metrics(rows[i].0, rows[i].1));
    value::unmeasured_events_have_no_rate(
        accumulator::held(rows[i].1, spr::SprIrpEventKind::AllHitM),
    );
    value::unmeasured_events_have_no_rate(
        accumulator::held(rows[i].1, spr::SprIrpEventKind::FafInserts),
    );
    value::rates_are_counts_over_time(
        rows[i].1[spr::SprIrpEventKind::WriteInserts],
        quantity::no_count(),
        0,
        0,
        0,
    );
    value::residencies_are_occupancy_over_inserts(
        rows[i].1[spr::SprIrpEventKind::TotalIrpOccupancy],
        accumulator::held(rows[i].1, spr::SprIrpEventKind::FafOccupancy),
        rows[i].1[spr::SprIrpEventKind::WriteInserts],
        rows[i].1[spr::SprIrpEventKind::Clockticks],
    );
}

/// On Sapphire Rapids every number of a report is handed out under its own name, with the labels of
/// its place.
pub proof fn spr_hands_out_each_number_under_its_name(
    families: spr::SprIrpPrometheusMetrics,
    metrics: spr::SprIrpMetrics,
    i: int,
    given: Vec<GaugeUpdate>,
)
    requires
        call_ensures(spr::SprIrpPrometheusMetrics::update, (&families, &metrics), given),
        0 <= i < metrics.scopes@.len(),
    ensures
        given@.len() == metrics.scopes@.len() * 9,
        ({
            let updates = given@;
            let report = metrics.scopes@[i];
            let labels = (Labels {
                stack: Some(report.stack.label),
                ..labels::die_only(
                    report.scope.die_group_id,
                    report.scope.die_id,
                    report.scope.package_id,
                )
            });
            &&& labels::hands_out(
                updates,
                "ocellus_irp_all_hit_m_snoop_responses_per_second",
                labels,
                report.all_hit_m_snoop_responses_per_second,
            )
            &&& labels::hands_out(
                updates,
                "ocellus_irp_faf_full_ratio",
                labels,
                report.faf_full_ratio,
            )
            &&& labels::hands_out(
                updates,
                "ocellus_irp_faf_occupancy_entries",
                labels,
                report.faf_occupancy_entries,
            )
            &&& labels::hands_out(
                updates,
                "ocellus_irp_pcie_inbound_reads_per_second",
                labels,
                report.pcie_inbound_reads_per_second,
            )
            &&& labels::hands_out(updates, "ocellus_irp_frequency_hz", labels, report.frequency_hz)
            &&& labels::hands_out(
                updates,
                "ocellus_irp_io_write_conflict_ratio",
                labels,
                report.io_write_conflict_ratio,
            )
            &&& labels::hands_out(
                updates,
                "ocellus_irp_total_occupancy_entries",
                labels,
                report.total_irp_occupancy_entries,
            )
            &&& labels::hands_out(
                updates,
                "ocellus_irp_pcie_inbound_writes_per_second",
                labels,
                report.pcie_inbound_writes_per_second,
            )
            &&& labels::hands_out(
                updates,
                "ocellus_irp_pcie_inbound_write_latency_seconds",
                labels,
                report.pcie_inbound_write_latency_seconds,
            )
        }),
{
    let f = |metrics: spr::SprIrpScopeMetrics| spr::scope_updates(metrics);
    let report = metrics.scopes@[i];
    let list = spr::scope_updates(report);
    labels::lemma_handed_out(metrics.scopes@, f, 9, i, 0, list[0]);
    labels::lemma_handed_out(metrics.scopes@, f, 9, i, 1, list[1]);
    labels::lemma_handed_out(metrics.scopes@, f, 9, i, 2, list[2]);
    labels::lemma_handed_out(metrics.scopes@, f, 9, i, 3, list[3]);
    labels::lemma_handed_out(metrics.scopes@, f, 9, i, 4, list[4]);
    labels::lemma_handed_out(metrics.scopes@, f, 9, i, 5, list[5]);
    labels::lemma_handed_out(metrics.scopes@, f, 9, i, 6, list[6]);
    labels::lemma_handed_out(metrics.scopes@, f, 9, i, 7, list[7]);
    labels::lemma_handed_out(metrics.scopes@, f, 9, i, 8, list[8]);
}

/// The rate of inbound reads moves with the reads that were counted and with nothing else, and
/// that of inbound writes with the writes: two reports on Ice Lake that agree on the one event
/// agree on its rate, whatever the other event counted.
pub proof fn icx_reads_and_writes_are_kept_apart(
    first: Accumulator<icx::IcxIrpStackScope, icx::IcxIrpEventKind, EventMeasurement>,
    second: Accumulator<icx::IcxIrpStackScope, icx::IcxIrpEventKind, EventMeasurement>,
    one: icx::IcxIrpMetrics,
    other: icx::IcxIrpMetrics,
    i: int,
)
    requires
        call_ensures(
            icx::IcxIrpMetrics::from_measurements,
            (&first,),
            Ok::<icx::IcxIrpMetrics, CollectorError>(one),
        ),
        call_ensures(
            icx::IcxIrpMetrics::from_measurements,
            (&second,),
            Ok::<icx::IcxIrpMetrics, CollectorError>(other),
        ),
        0 <= i < first.rows().len(),
        i < second.rows().len(),
    ensures
        ({
            let reads = icx::IcxIrpEventKind::FafInserts;
            let writes = icx::IcxIrpEventKind::WriteInserts;
            let a = one.scopes@[i];
            let b = other.scopes@[i];
            &&& accumulator::held(first.rows()[i].1, reads) == accumulator::held(
                second.rows()[i].1,
                reads,
            ) ==>
                a.pcie_inbound_reads_per_second == b.pcie_inbound_reads_per_second
            &&& first.rows()[i].1[writes] == second.rows()[i].1[writes]
                ==> a.pcie_inbound_writes_per_second
                == b.pcie_inbound_writes_per_second
            &&& !first.rows()[i].1.contains_key(reads) ==> value::value(
                a.pcie_inbound_reads_per_second,
            )
                == value::zero()
        }),
{
    icx_reports_what_was_counted(first, one, i);
    assert(one.scopes@[i] == icx::scope_metrics(first.rows()[i].0, first.rows()[i].1));
    assert(other.scopes@[i] == icx::scope_metrics(second.rows()[i].0, second.rows()[i].1));
}

} // verus!
