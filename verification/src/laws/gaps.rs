//! What a report needs.
use crate::accumulator::{self, Accumulator, EventMeasurement, Grid};
use crate::error::CollectorError;
use crate::metrics::imc::hsx as imc_hsx;
use crate::metrics::imc::icx as imc_icx;
use crate::metrics::imc::skx as imc_skx;
use crate::metrics::imc::snb as imc_snb;
use crate::metrics::imc::spr as imc_spr;
use crate::metrics::interconnect::qpi_common;
use crate::metrics::interconnect::upi_common;
use crate::metrics::interconnect::InterconnectScope;
use crate::metrics::irp::hsx as irp_hsx;
use crate::metrics::irp::icx as irp_icx;
use crate::metrics::irp::skx as irp_skx;
use crate::metrics::irp::snb as irp_snb;
use crate::metrics::irp::spr as irp_spr;
use crate::metrics::pcu::common::{self, PcuEventKind, PcuMeasurement};
use crate::metrics::pcu::hsx as pcu_hsx;
use crate::metrics::pcu::skx as pcu_skx;
use crate::metrics::pcu::snb as pcu_snb;
use crate::metrics::pcu::spr as pcu_spr;
use crate::metrics::pcu::{PcuPackageScope, PcuScope};
use crate::topology::HsxUncoreScope;
use vstd::prelude::*;

verus! {

proof fn lemma_first_missing<K, M>(row: Map<K, M>, kinds: Seq<K>, n: nat)
    requires
        n <= kinds.len(),
    ensures
        accumulator::first_missing(row, kinds, n) matches Some(kind) ==> !row.contains_key(kind)
            && kinds.contains(kind),
        accumulator::first_missing(row, kinds, n) is None <==> forall|j: int|
            0 <= j < n ==> row.contains_key(#[trigger] kinds[j]),
    decreases n,
{
    if n > 0 {
        lemma_first_missing(row, kinds, (n - 1) as nat);
        assert(kinds[n - 1] == kinds[n - 1]);
    }
}

/// A gap is an event that some scope is missing; there is none exactly where every scope has every
/// event.
pub proof fn gap_is_a_missing_event<S, K, M>(rows: Seq<(S, Map<K, M>)>, kinds: Seq<K>)
    ensures
        accumulator::first_gap(rows, kinds) matches Some(kind) ==> kinds.contains(kind)
            && some_row_lacks(rows, kind),
        accumulator::first_gap(rows, kinds) is None <==> forall|i: int|
            0 <= i < rows.len() ==> has_all((#[trigger] rows[i]).1, kinds),
    decreases rows.len(),
{
    if rows.len() > 0 {
        let front = rows.drop_last();
        let last = rows.len() - 1;
        gap_is_a_missing_event(front, kinds);
        lemma_first_missing(rows.last().1, kinds, kinds.len());
        if let Some(kind) = accumulator::first_gap(front, kinds) {
            let i = choose|i: int|
                0 <= i < front.len() && !(#[trigger] front[i]).1.contains_key(kind);
            assert(front[i] == rows[i]);
            assert(!has_all(rows[i].1, kinds)) by {
                let j = choose|j: int| 0 <= j < kinds.len() && kinds[j] == kind;
                assert(!rows[i].1.contains_key(kinds[j]));
            }
        } else {
            if accumulator::first_gap(rows, kinds) is None {
                assert forall|i: int| 0 <= i < rows.len() implies has_all(
                    (#[trigger] rows[i]).1,
                    kinds,
                ) by {
                    if i < last {
                        assert(front[i] == rows[i]);
                    }
                }
            } else {
                assert(!has_all(rows[last].1, kinds));
            }
        }
    }
}

/// Whether a row holds every one of some events.
pub open spec fn has_all<K, M>(row: Map<K, M>, kinds: Seq<K>) -> bool {
    forall|j: int| 0 <= j < kinds.len() ==> row.contains_key(#[trigger] kinds[j])
}

/// Whether some row is missing an event.
pub open spec fn some_row_lacks<S, K, M>(rows: Seq<(S, Map<K, M>)>, kind: K) -> bool {
    exists|i: int| 0 <= i < rows.len() && !(#[trigger] rows[i]).1.contains_key(kind)
}

/// Whether a row has what a report on the memory of Skylake needs.
pub open spec fn skx_memory_is_complete(row: Map<imc_skx::ImcEventKind, EventMeasurement>) -> bool {
    &&& row.contains_key(imc_skx::ImcEventKind::ReadInsert)
    &&& row.contains_key(imc_skx::ImcEventKind::WriteInsert)
    &&& row.contains_key(imc_skx::ImcEventKind::ReadOccupancy)
    &&& row.contains_key(imc_skx::ImcEventKind::WriteOccupancy)
    &&& row.contains_key(imc_skx::ImcEventKind::Activate)
    &&& row.contains_key(imc_skx::ImcEventKind::PageMissPrecharge)
    &&& row.contains_key(imc_skx::ImcEventKind::ReadCas)
    &&& row.contains_key(imc_skx::ImcEventKind::WriteCas)
}

/// Whether an error says that a row is missing an event that a report on the memory of Skylake
/// needs, and names the event.
pub open spec fn skx_memory_names_gap(
    error: CollectorError,
    row: Map<imc_skx::ImcEventKind, EventMeasurement>,
) -> bool {
    error matches CollectorError::MissingMeasurement { unit, event } && unit == "IMC" && {
        ||| !row.contains_key(imc_skx::ImcEventKind::ReadInsert) && event == "ReadInsert"
        ||| !row.contains_key(imc_skx::ImcEventKind::WriteInsert) && event == "WriteInsert"
        ||| !row.contains_key(imc_skx::ImcEventKind::ReadOccupancy) && event == "ReadOccupancy"
        ||| !row.contains_key(imc_skx::ImcEventKind::WriteOccupancy) && event == "WriteOccupancy"
        ||| !row.contains_key(imc_skx::ImcEventKind::Activate) && event == "Activate"
        ||| !row.contains_key(
            imc_skx::ImcEventKind::PageMissPrecharge,
        ) && event == "PageMissPrecharge"
        ||| !row.contains_key(imc_skx::ImcEventKind::ReadCas) && event == "ReadCas"
        ||| !row.contains_key(imc_skx::ImcEventKind::WriteCas) && event == "WriteCas"
    }
}

/// There is a report on the memory of Skylake exactly where every row has what it needs; else
/// the error names an event that some row is missing.
pub proof fn skx_memory_report_needs_its_events(
    measurements: Accumulator<imc_skx::ImcScope, imc_skx::ImcEventKind, EventMeasurement>,
    result: Result<imc_skx::ImcMetrics, CollectorError>,
)
    requires
        call_ensures(imc_skx::ImcMetrics::from_measurements, (&measurements,), result),
    ensures
        result is Ok <==> forall|i: int|
            0 <= i < measurements.rows().len() ==> skx_memory_is_complete(
                (#[trigger] measurements.rows()[i]).1,
            ),
        result matches Err(error) ==> exists|i: int|
            0 <= i < measurements.rows().len() && skx_memory_names_gap(
                error,
                (#[trigger] measurements.rows()[i]).1,
            ),
{
    let rows = measurements.rows();
    let kinds = imc_skx::required_events();
    gap_is_a_missing_event(rows, kinds);
    assert forall|i: int| 0 <= i < rows.len() implies (has_all((#[trigger] rows[i]).1, kinds)
        <==> skx_memory_is_complete(rows[i].1)) by {
        assert(kinds[0] == imc_skx::ImcEventKind::ReadInsert);
        assert(kinds[1] == imc_skx::ImcEventKind::WriteInsert);
        assert(kinds[2] == imc_skx::ImcEventKind::ReadOccupancy);
        assert(kinds[3] == imc_skx::ImcEventKind::WriteOccupancy);
        assert(kinds[4] == imc_skx::ImcEventKind::Activate);
        assert(kinds[5] == imc_skx::ImcEventKind::PageMissPrecharge);
        assert(kinds[6] == imc_skx::ImcEventKind::ReadCas);
        assert(kinds[7] == imc_skx::ImcEventKind::WriteCas);
    }
    if let Err(error) = result {
        let kind = accumulator::first_gap(rows, kinds)->0;
        let i = choose|i: int| 0 <= i < rows.len() && !(#[trigger] rows[i]).1.contains_key(kind);
        let j = choose|j: int| 0 <= j < kinds.len() && kinds[j] == kind;
        assert(j == 0 || j == 1 || j == 2 || j == 3 || j == 4 || j == 5 || j == 6 || j == 7);
        assert(skx_memory_names_gap(error, rows[i].1));
    }
}

/// Whether a row has what a report on the memory of Ice Lake needs.
pub open spec fn icx_memory_is_complete(
    row: Map<imc_icx::IcxImcEventKind, EventMeasurement>,
) -> bool {
    &&& row.contains_key(imc_icx::IcxImcEventKind::ReadInsert)
    &&& row.contains_key(imc_icx::IcxImcEventKind::WriteInsert)
    &&& row.contains_key(imc_icx::IcxImcEventKind::ReadOccupancy)
    &&& row.contains_key(imc_icx::IcxImcEventKind::WriteOccupancy)
    &&& row.contains_key(imc_icx::IcxImcEventKind::Activate)
    &&& row.contains_key(imc_icx::IcxImcEventKind::PageMissPrecharge)
    &&& row.contains_key(imc_icx::IcxImcEventKind::ReadCas)
    &&& row.contains_key(imc_icx::IcxImcEventKind::WriteCas)
}

/// Whether an error says that a row is missing an event that a report on the memory of Ice Lake
/// needs, and names the event.
pub open spec fn icx_memory_names_gap(
    error: CollectorError,
    row: Map<imc_icx::IcxImcEventKind, EventMeasurement>,
) -> bool {
    error matches CollectorError::MissingMeasurement { unit, event } && unit == "IMC" && {
        ||| !row.contains_key(imc_icx::IcxImcEventKind::ReadInsert) && event == "ReadInsert"
        ||| !row.contains_key(imc_icx::IcxImcEventKind::WriteInsert) && event == "WriteInsert"
        ||| !row.contains_key(imc_icx::IcxImcEventKind::ReadOccupancy) && event == "ReadOccupancy"
        ||| !row.contains_key(imc_icx::IcxImcEventKind::WriteOccupancy) && event == "WriteOccupancy"
        ||| !row.contains_key(imc_icx::IcxImcEventKind::Activate) && event == "Activate"
        ||| !row.contains_key(
            imc_icx::IcxImcEventKind::PageMissPrecharge,
        ) && event == "PageMissPrecharge"
        ||| !row.contains_key(imc_icx::IcxImcEventKind::ReadCas) && event == "ReadCas"
        ||| !row.contains_key(imc_icx::IcxImcEventKind::WriteCas) && event == "WriteCas"
    }
}

/// There is a report on the memory of Ice Lake exactly where every row has what it needs; else
/// the error names an event that some row is missing.
pub proof fn icx_memory_report_needs_its_events(
    measurements: Accumulator<imc_icx::IcxImcScope, imc_icx::IcxImcEventKind, EventMeasurement>,
    result: Result<imc_icx::IcxImcMetrics, CollectorError>,
)
    requires
        call_ensures(imc_icx::IcxImcMetrics::from_measurements, (&measurements,), result),
    ensures
        result is Ok <==> forall|i: int|
            0 <= i < measurements.rows().len() ==> icx_memory_is_complete(
                (#[trigger] measurements.rows()[i]).1,
            ),
        result matches Err(error) ==> exists|i: int|
            0 <= i < measurements.rows().len() && icx_memory_names_gap(
                error,
                (#[trigger] measurements.rows()[i]).1,
            ),
{
    let rows = measurements.rows();
    let kinds = imc_icx::required_events();
    gap_is_a_missing_event(rows, kinds);
    assert forall|i: int| 0 <= i < rows.len() implies (has_all((#[trigger] rows[i]).1, kinds)
        <==> icx_memory_is_complete(rows[i].1)) by {
        assert(kinds[0] == imc_icx::IcxImcEventKind::ReadInsert);
        assert(kinds[1] == imc_icx::IcxImcEventKind::WriteInsert);
        assert(kinds[2] == imc_icx::IcxImcEventKind::ReadOccupancy);
        assert(kinds[3] == imc_icx::IcxImcEventKind::WriteOccupancy);
        assert(kinds[4] == imc_icx::IcxImcEventKind::Activate);
        assert(kinds[5] == imc_icx::IcxImcEventKind::PageMissPrecharge);
        assert(kinds[6] == imc_icx::IcxImcEventKind::ReadCas);
        assert(kinds[7] == imc_icx::IcxImcEventKind::WriteCas);
    }
    if let Err(error) = result {
        let kind = accumulator::first_gap(rows, kinds)->0;
        let i = choose|i: int| 0 <= i < rows.len() && !(#[trigger] rows[i]).1.contains_key(kind);
        let j = choose|j: int| 0 <= j < kinds.len() && kinds[j] == kind;
        assert(j == 0 || j == 1 || j == 2 || j == 3 || j == 4 || j == 5 || j == 6 || j == 7);
        assert(icx_memory_names_gap(error, rows[i].1));
    }
}

/// Whether a row has what a report on the memory of Sapphire Rapids needs.
pub open spec fn spr_memory_is_complete(
    row: Map<imc_spr::SprImcEventKind, EventMeasurement>,
) -> bool {
    &&& row.contains_key(imc_spr::SprImcEventKind::ReadInsert)
    &&& row.contains_key(imc_spr::SprImcEventKind::WriteInsert)
    &&& row.contains_key(imc_spr::SprImcEventKind::ReadOccupancy)
    &&& row.contains_key(imc_spr::SprImcEventKind::WriteOccupancy)
    &&& row.contains_key(imc_spr::SprImcEventKind::Activate)
    &&& row.contains_key(imc_spr::SprImcEventKind::PageMissPrecharge)
    &&& row.contains_key(imc_spr::SprImcEventKind::ReadCas)
    &&& row.contains_key(imc_spr::SprImcEventKind::WriteCas)
}

/// Whether an error says that a row is missing an event that a report on the memory of Sapphire
/// Rapids needs, and names the event.
pub open spec fn spr_memory_names_gap(
    error: CollectorError,
    row: Map<imc_spr::SprImcEventKind, EventMeasurement>,
) -> bool {
    error matches CollectorError::MissingMeasurement { unit, event } && unit == "IMC" && {
        ||| !row.contains_key(imc_spr::SprImcEventKind::ReadInsert) && event == "ReadInsert"
        ||| !row.contains_key(imc_spr::SprImcEventKind::WriteInsert) && event == "WriteInsert"
        ||| !row.contains_key(imc_spr::SprImcEventKind::ReadOccupancy) && event == "ReadOccupancy"
        ||| !row.contains_key(imc_spr::SprImcEventKind::WriteOccupancy) && event == "WriteOccupancy"
        ||| !row.contains_key(imc_spr::SprImcEventKind::Activate) && event == "Activate"
        ||| !row.contains_key(
            imc_spr::SprImcEventKind::PageMissPrecharge,
        ) && event == "PageMissPrecharge"
        ||| !row.contains_key(imc_spr::SprImcEventKind::ReadCas) && event == "ReadCas"
        ||| !row.contains_key(imc_spr::SprImcEventKind::WriteCas) && event == "WriteCas"
    }
}

/// There is a report on the memory of Sapphire Rapids exactly where every row has what it needs;
/// else the error names an event that some row is missing.
pub proof fn spr_memory_report_needs_its_events(
    measurements: Accumulator<imc_spr::SprImcScope, imc_spr::SprImcEventKind, EventMeasurement>,
    result: Result<imc_spr::SprImcMetrics, CollectorError>,
)
    requires
        call_ensures(imc_spr::SprImcMetrics::from_measurements, (&measurements,), result),
    ensures
        result is Ok <==> forall|i: int|
            0 <= i < measurements.rows().len() ==> spr_memory_is_complete(
                (#[trigger] measurements.rows()[i]).1,
            ),
        result matches Err(error) ==> exists|i: int|
            0 <= i < measurements.rows().len() && spr_memory_names_gap(
                error,
                (#[trigger] measurements.rows()[i]).1,
            ),
{
    let rows = measurements.rows();
    let kinds = imc_spr::required_events();
    gap_is_a_missing_event(rows, kinds);
    assert forall|i: int| 0 <= i < rows.len() implies (has_all((#[trigger] rows[i]).1, kinds)
        <==> spr_memory_is_complete(rows[i].1)) by {
        assert(kinds[0] == imc_spr::SprImcEventKind::ReadInsert);
        assert(kinds[1] == imc_spr::SprImcEventKind::WriteInsert);
        assert(kinds[2] == imc_spr::SprImcEventKind::ReadOccupancy);
        assert(kinds[3] == imc_spr::SprImcEventKind::WriteOccupancy);
        assert(kinds[4] == imc_spr::SprImcEventKind::Activate);
        assert(kinds[5] == imc_spr::SprImcEventKind::PageMissPrecharge);
        assert(kinds[6] == imc_spr::SprImcEventKind::ReadCas);
        assert(kinds[7] == imc_spr::SprImcEventKind::WriteCas);
    }
    if let Err(error) = result {
        let kind = accumulator::first_gap(rows, kinds)->0;
        let i = choose|i: int| 0 <= i < rows.len() && !(#[trigger] rows[i]).1.contains_key(kind);
        let j = choose|j: int| 0 <= j < kinds.len() && kinds[j] == kind;
        assert(j == 0 || j == 1 || j == 2 || j == 3 || j == 4 || j == 5 || j == 6 || j == 7);
        assert(spr_memory_names_gap(error, rows[i].1));
    }
}

/// Whether a row has what a report on the memory of Sandy and Ivy Bridge needs.
pub open spec fn snb_memory_is_complete(
    row: Map<imc_snb::SnbImcEventKind, EventMeasurement>,
) -> bool {
    &&& row.contains_key(imc_snb::SnbImcEventKind::Activate)
    &&& row.contains_key(imc_snb::SnbImcEventKind::PageMissPrecharge)
    &&& row.contains_key(imc_snb::SnbImcEventKind::ReadCas)
    &&& row.contains_key(imc_snb::SnbImcEventKind::ReadInsert)
    &&& row.contains_key(imc_snb::SnbImcEventKind::RpqNonEmpty)
    &&& row.contains_key(imc_snb::SnbImcEventKind::WriteCas)
    &&& row.contains_key(imc_snb::SnbImcEventKind::WpqFull)
    &&& row.contains_key(imc_snb::SnbImcEventKind::WpqNonEmpty)
}

/// Whether an error says that a row is missing an event that a report on the memory of Sandy and
/// Ivy Bridge needs, and names the event.
pub open spec fn snb_memory_names_gap(
    error: CollectorError,
    row: Map<imc_snb::SnbImcEventKind, EventMeasurement>,
) -> bool {
    error matches CollectorError::MissingMeasurement { unit, event } && unit == "IMC" && {
        ||| !row.contains_key(imc_snb::SnbImcEventKind::Activate) && event == "Activate"
        ||| !row.contains_key(
            imc_snb::SnbImcEventKind::PageMissPrecharge,
        ) && event == "PageMissPrecharge"
        ||| !row.contains_key(imc_snb::SnbImcEventKind::ReadCas) && event == "ReadCas"
        ||| !row.contains_key(imc_snb::SnbImcEventKind::ReadInsert) && event == "ReadInsert"
        ||| !row.contains_key(imc_snb::SnbImcEventKind::RpqNonEmpty) && event == "RpqNonEmpty"
        ||| !row.contains_key(imc_snb::SnbImcEventKind::WriteCas) && event == "WriteCas"
        ||| !row.contains_key(imc_snb::SnbImcEventKind::WpqFull) && event == "WpqFull"
        ||| !row.contains_key(imc_snb::SnbImcEventKind::WpqNonEmpty) && event == "WpqNonEmpty"
    }
}

/// There is a report on the memory of Sandy and Ivy Bridge exactly where every row has what it
/// needs; else the error names an event that some row is missing.
pub proof fn snb_memory_report_needs_its_events(
    measurements: Accumulator<imc_snb::SnbImcScope, imc_snb::SnbImcEventKind, EventMeasurement>,
    result: Result<imc_snb::SnbImcMetrics, CollectorError>,
)
    requires
        call_ensures(imc_snb::SnbImcMetrics::from_measurements, (&measurements,), result),
    ensures
        result is Ok <==> forall|i: int|
            0 <= i < measurements.rows().len() ==> snb_memory_is_complete(
                (#[trigger] measurements.rows()[i]).1,
            ),
        result matches Err(error) ==> exists|i: int|
            0 <= i < measurements.rows().len() && snb_memory_names_gap(
                error,
                (#[trigger] measurements.rows()[i]).1,
            ),
{
    let rows = measurements.rows();
    let kinds = imc_snb::required_events();
    gap_is_a_missing_event(rows, kinds);
    assert forall|i: int| 0 <= i < rows.len() implies (has_all((#[trigger] rows[i]).1, kinds)
        <==> snb_memory_is_complete(rows[i].1)) by {
        assert(kinds[0] == imc_snb::SnbImcEventKind::Activate);
        assert(kinds[1] == imc_snb::SnbImcEventKind::PageMissPrecharge);
        assert(kinds[2] == imc_snb::SnbImcEventKind::ReadCas);
        assert(kinds[3] == imc_snb::SnbImcEventKind::ReadInsert);
        assert(kinds[4] == imc_snb::SnbImcEventKind::RpqNonEmpty);
        assert(kinds[5] == imc_snb::SnbImcEventKind::WriteCas);
        assert(kinds[6] == imc_snb::SnbImcEventKind::WpqFull);
        assert(kinds[7] == imc_snb::SnbImcEventKind::WpqNonEmpty);
    }
    if let Err(error) = result {
        let kind = accumulator::first_gap(rows, kinds)->0;
        let i = choose|i: int| 0 <= i < rows.len() && !(#[trigger] rows[i]).1.contains_key(kind);
        let j = choose|j: int| 0 <= j < kinds.len() && kinds[j] == kind;
        assert(j == 0 || j == 1 || j == 2 || j == 3 || j == 4 || j == 5 || j == 6 || j == 7);
        assert(snb_memory_names_gap(error, rows[i].1));
    }
}

/// Whether a row has what a report on the inbound traffic of Skylake needs.
pub open spec fn skx_inbound_is_complete(
    row: Map<irp_skx::IrpEventKind, EventMeasurement>,
) -> bool {
    &&& row.contains_key(irp_skx::IrpEventKind::ClFlush)
    &&& row.contains_key(irp_skx::IrpEventKind::Clockticks)
    &&& row.contains_key(irp_skx::IrpEventKind::CoreRead)
    &&& row.contains_key(irp_skx::IrpEventKind::DemandRead)
    &&& row.contains_key(irp_skx::IrpEventKind::FafOccupancy)
    &&& row.contains_key(irp_skx::IrpEventKind::PciDcaHint)
    &&& row.contains_key(irp_skx::IrpEventKind::PciItoM)
    &&& row.contains_key(irp_skx::IrpEventKind::PcieReadCurrent)
    &&& row.contains_key(irp_skx::IrpEventKind::ReadForOwnership)
    &&& row.contains_key(irp_skx::IrpEventKind::TotalIrpOccupancy)
    &&& row.contains_key(irp_skx::IrpEventKind::WbMtoI)
    &&& row.contains_key(irp_skx::IrpEventKind::WriteInserts)
}

/// Whether an error says that a row is missing an event that a report on the inbound traffic of
/// Skylake needs, and names the event.
pub open spec fn skx_inbound_names_gap(
    error: CollectorError,
    row: Map<irp_skx::IrpEventKind, EventMeasurement>,
) -> bool {
    error matches CollectorError::MissingMeasurement { unit, event } && unit == "IRP" && {
        ||| !row.contains_key(irp_skx::IrpEventKind::ClFlush) && event == "ClFlush"
        ||| !row.contains_key(irp_skx::IrpEventKind::Clockticks) && event == "Clockticks"
        ||| !row.contains_key(irp_skx::IrpEventKind::CoreRead) && event == "CoreRead"
        ||| !row.contains_key(irp_skx::IrpEventKind::DemandRead) && event == "DemandRead"
        ||| !row.contains_key(irp_skx::IrpEventKind::FafOccupancy) && event == "FafOccupancy"
        ||| !row.contains_key(irp_skx::IrpEventKind::PciDcaHint) && event == "PciDcaHint"
        ||| !row.contains_key(irp_skx::IrpEventKind::PciItoM) && event == "PciItoM"
        ||| !row.contains_key(irp_skx::IrpEventKind::PcieReadCurrent) && event == "PcieReadCurrent"
        ||| !row.contains_key(
            irp_skx::IrpEventKind::ReadForOwnership,
        ) && event == "ReadForOwnership"
        ||| !row.contains_key(
            irp_skx::IrpEventKind::TotalIrpOccupancy,
        ) && event == "TotalIrpOccupancy"
        ||| !row.contains_key(irp_skx::IrpEventKind::WbMtoI) && event == "WbMtoI"
        ||| !row.contains_key(irp_skx::IrpEventKind::WriteInserts) && event == "WriteInserts"
    }
}

/// There is a report on the inbound traffic of Skylake exactly where every row has what it needs;
/// else the error names an event that some row is missing.
pub proof fn skx_inbound_report_needs_its_events(
    measurements: Accumulator<irp_skx::IrpStackScope, irp_skx::IrpEventKind, EventMeasurement>,
    result: Result<irp_skx::IrpMetrics, CollectorError>,
)
    requires
        call_ensures(irp_skx::IrpMetrics::from_measurements, (&measurements,), result),
    ensures
        result is Ok <==> forall|i: int|
            0 <= i < measurements.rows().len() ==> skx_inbound_is_complete(
                (#[trigger] measurements.rows()[i]).1,
            ),
        result matches Err(error) ==> exists|i: int|
            0 <= i < measurements.rows().len() && skx_inbound_names_gap(
                error,
                (#[trigger] measurements.rows()[i]).1,
            ),
{
    let rows = measurements.rows();
    let kinds = irp_skx::required_events();
    gap_is_a_missing_event(rows, kinds);
    assert forall|i: int| 0 <= i < rows.len() implies (has_all((#[trigger] rows[i]).1, kinds)
        <==> skx_inbound_is_complete(rows[i].1)) by {
        assert(kinds[0] == irp_skx::IrpEventKind::ClFlush);
        assert(kinds[1] == irp_skx::IrpEventKind::Clockticks);
        assert(kinds[2] == irp_skx::IrpEventKind::CoreRead);
        assert(kinds[3] == irp_skx::IrpEventKind::DemandRead);
        assert(kinds[4] == irp_skx::IrpEventKind::FafOccupancy);
        assert(kinds[5] == irp_skx::IrpEventKind::PciDcaHint);
        assert(kinds[6] == irp_skx::IrpEventKind::PciItoM);
        assert(kinds[7] == irp_skx::IrpEventKind::PcieReadCurrent);
        assert(kinds[8] == irp_skx::IrpEventKind::ReadForOwnership);
        assert(kinds[9] == irp_skx::IrpEventKind::TotalIrpOccupancy);
        assert(kinds[10] == irp_skx::IrpEventKind::WbMtoI);
        assert(kinds[11] == irp_skx::IrpEventKind::WriteInserts);
    }
    if let Err(error) = result {
        let kind = accumulator::first_gap(rows, kinds)->0;
        let i = choose|i: int| 0 <= i < rows.len() && !(#[trigger] rows[i]).1.contains_key(kind);
        let j = choose|j: int| 0 <= j < kinds.len() && kinds[j] == kind;
        assert(
            j == 0 || j == 1 || j == 2 || j == 3 || j == 4 || j == 5 || j == 6 || j == 7 || j == 8
                || j == 9 || j == 10 || j == 11
        );
        assert(skx_inbound_names_gap(error, rows[i].1));
    }
}

/// Whether a row has what a report on the inbound traffic of Ice Lake needs.
pub open spec fn icx_inbound_is_complete(
    row: Map<irp_icx::IcxIrpEventKind, EventMeasurement>,
) -> bool {
    &&& row.contains_key(irp_icx::IcxIrpEventKind::Clockticks)
    &&& row.contains_key(irp_icx::IcxIrpEventKind::TotalIrpOccupancy)
    &&& row.contains_key(irp_icx::IcxIrpEventKind::WriteInserts)
}

/// Whether an error says that a row is missing an event that a report on the inbound traffic of Ice
/// Lake needs, and names the event.
pub open spec fn icx_inbound_names_gap(
    error: CollectorError,
    row: Map<irp_icx::IcxIrpEventKind, EventMeasurement>,
) -> bool {
    error matches CollectorError::MissingMeasurement { unit, event } && unit == "IRP" && {
        ||| !row.contains_key(irp_icx::IcxIrpEventKind::Clockticks) && event == "Clockticks"
        ||| !row.contains_key(
            irp_icx::IcxIrpEventKind::TotalIrpOccupancy,
        ) && event == "TotalIrpOccupancy"
        ||| !row.contains_key(irp_icx::IcxIrpEventKind::WriteInserts) && event == "WriteInserts"
    }
}

/// There is a report on the inbound traffic of Ice Lake exactly where every row has what it needs;
/// else the error names an event that some row is missing.
pub proof fn icx_inbound_report_needs_its_events(
    measurements: Accumulator<irp_icx::IcxIrpStackScope, irp_icx::IcxIrpEventKind, EventMeasurement>,
    result: Result<irp_icx::IcxIrpMetrics, CollectorError>,
)
    requires
        call_ensures(irp_icx::IcxIrpMetrics::from_measurements, (&measurements,), result),
    ensures
        result is Ok <==> forall|i: int|
            0 <= i < measurements.rows().len() ==> icx_inbound_is_complete(
                (#[trigger] measurements.rows()[i]).1,
            ),
        result matches Err(error) ==> exists|i: int|
            0 <= i < measurements.rows().len() && icx_inbound_names_gap(
                error,
                (#[trigger] measurements.rows()[i]).1,
            ),
{
    let rows = measurements.rows();
    let kinds = irp_icx::required_events();
    gap_is_a_missing_event(rows, kinds);
    assert forall|i: int| 0 <= i < rows.len() implies (has_all((#[trigger] rows[i]).1, kinds)
        <==> icx_inbound_is_complete(rows[i].1)) by {
        assert(kinds[0] == irp_icx::IcxIrpEventKind::Clockticks);
        assert(kinds[1] == irp_icx::IcxIrpEventKind::TotalIrpOccupancy);
        assert(kinds[2] == irp_icx::IcxIrpEventKind::WriteInserts);
    }
    if let Err(error) = result {
        let kind = accumulator::first_gap(rows, kinds)->0;
        let i = choose|i: int| 0 <= i < rows.len() && !(#[trigger] rows[i]).1.contains_key(kind);
        let j = choose|j: int| 0 <= j < kinds.len() && kinds[j] == kind;
        assert(j == 0 || j == 1 || j == 2);
        assert(icx_inbound_names_gap(error, rows[i].1));
    }
}

/// Whether a row has what a report on the inbound traffic of Sapphire Rapids needs.
pub open spec fn spr_inbound_is_complete(
    row: Map<irp_spr::SprIrpEventKind, EventMeasurement>,
) -> bool {
    &&& row.contains_key(irp_spr::SprIrpEventKind::Clockticks)
    &&& row.contains_key(irp_spr::SprIrpEventKind::TotalIrpOccupancy)
    &&& row.contains_key(irp_spr::SprIrpEventKind::WriteInserts)
}

/// Whether an error says that a row is missing an event that a report on the inbound traffic of
/// Sapphire Rapids needs, and names the event.
pub open spec fn spr_inbound_names_gap(
    error: CollectorError,
    row: Map<irp_spr::SprIrpEventKind, EventMeasurement>,
) -> bool {
    error matches CollectorError::MissingMeasurement { unit, event } && unit == "IRP" && {
        ||| !row.contains_key(irp_spr::SprIrpEventKind::Clockticks) && event == "Clockticks"
        ||| !row.contains_key(
            irp_spr::SprIrpEventKind::TotalIrpOccupancy,
        ) && event == "TotalIrpOccupancy"
        ||| !row.contains_key(irp_spr::SprIrpEventKind::WriteInserts) && event == "WriteInserts"
    }
}

/// There is a report on the inbound traffic of Sapphire Rapids exactly where every row has what it
/// needs; else the error names an event that some row is missing.
pub proof fn spr_inbound_report_needs_its_events(
    measurements: Accumulator<irp_spr::SprIrpStackScope, irp_spr::SprIrpEventKind, EventMeasurement>,
    result: Result<irp_spr::SprIrpMetrics, CollectorError>,
)
    requires
        call_ensures(irp_spr::SprIrpMetrics::from_measurements, (&measurements,), result),
    ensures
        result is Ok <==> forall|i: int|
            0 <= i < measurements.rows().len() ==> spr_inbound_is_complete(
                (#[trigger] measurements.rows()[i]).1,
            ),
        result matches Err(error) ==> exists|i: int|
            0 <= i < measurements.rows().len() && spr_inbound_names_gap(
                error,
                (#[trigger] measurements.rows()[i]).1,
            ),
{
    let rows = measurements.rows();
    let kinds = irp_spr::required_events();
    gap_is_a_missing_event(rows, kinds);
    assert forall|i: int| 0 <= i < rows.len() implies (has_all((#[trigger] rows[i]).1, kinds)
        <==> spr_inbound_is_complete(rows[i].1)) by {
        assert(kinds[0] == irp_spr::SprIrpEventKind::Clockticks);
        assert(kinds[1] == irp_spr::SprIrpEventKind::TotalIrpOccupancy);
        assert(kinds[2] == irp_spr::SprIrpEventKind::WriteInserts);
    }
    if let Err(error) = result {
        let kind = accumulator::first_gap(rows, kinds)->0;
        let i = choose|i: int| 0 <= i < rows.len() && !(#[trigger] rows[i]).1.contains_key(kind);
        let j = choose|j: int| 0 <= j < kinds.len() && kinds[j] == kind;
        assert(j == 0 || j == 1 || j == 2);
        assert(spr_inbound_names_gap(error, rows[i].1));
    }
}

/// Whether a row has what a report on the inbound traffic of Sandy and Ivy Bridge needs.
pub open spec fn snb_inbound_is_complete(
    row: Map<irp_snb::SnbIrpEventKind, EventMeasurement>,
) -> bool {
    &&& row.contains_key(irp_snb::SnbIrpEventKind::Clockticks)
    &&& row.contains_key(irp_snb::SnbIrpEventKind::LostOwnership)
    &&& row.contains_key(irp_snb::SnbIrpEventKind::PcieInboundReads)
    &&& row.contains_key(irp_snb::SnbIrpEventKind::PcieInboundWrites)
    &&& row.contains_key(irp_snb::SnbIrpEventKind::TotalIrpOccupancy)
}

/// Whether an error says that a row is missing an event that a report on the inbound traffic of
/// Sandy and Ivy Bridge needs, and names the event.
pub open spec fn snb_inbound_names_gap(
    error: CollectorError,
    row: Map<irp_snb::SnbIrpEventKind, EventMeasurement>,
) -> bool {
    error matches CollectorError::MissingMeasurement { unit, event } && unit == "Sandy/Ivy Bridge-EP IRP" && {
        ||| !row.contains_key(irp_snb::SnbIrpEventKind::Clockticks) && event == "Clockticks"
        ||| !row.contains_key(irp_snb::SnbIrpEventKind::LostOwnership) && event == "LostOwnership"
        ||| !row.contains_key(
            irp_snb::SnbIrpEventKind::PcieInboundReads,
        ) && event == "PcieInboundReads"
        ||| !row.contains_key(
            irp_snb::SnbIrpEventKind::PcieInboundWrites,
        ) && event == "PcieInboundWrites"
        ||| !row.contains_key(
            irp_snb::SnbIrpEventKind::TotalIrpOccupancy,
        ) && event == "TotalIrpOccupancy"
    }
}

/// There is a report on the inbound traffic of Sandy and Ivy Bridge exactly where every row has
/// what it needs; else the error names an event that some row is missing.
pub proof fn snb_inbound_report_needs_its_events(
    measurements: Accumulator<irp_snb::SnbIrpScope, irp_snb::SnbIrpEventKind, EventMeasurement>,
    result: Result<irp_snb::SnbIrpMetrics, CollectorError>,
)
    requires
        call_ensures(irp_snb::SnbIrpMetrics::from_measurements, (&measurements,), result),
    ensures
        result is Ok <==> forall|i: int|
            0 <= i < measurements.rows().len() ==> snb_inbound_is_complete(
                (#[trigger] measurements.rows()[i]).1,
            ),
        result matches Err(error) ==> exists|i: int|
            0 <= i < measurements.rows().len() && snb_inbound_names_gap(
                error,
                (#[trigger] measurements.rows()[i]).1,
            ),
{
    let rows = measurements.rows();
    let kinds = irp_snb::required_events();
    gap_is_a_missing_event(rows, kinds);
    assert forall|i: int| 0 <= i < rows.len() implies (has_all((#[trigger] rows[i]).1, kinds)
        <==> snb_inbound_is_complete(rows[i].1)) by {
        assert(kinds[0] == irp_snb::SnbIrpEventKind::Clockticks);
        assert(kinds[1] == irp_snb::SnbIrpEventKind::LostOwnership);
        assert(kinds[2] == irp_snb::SnbIrpEventKind::PcieInboundReads);
        assert(kinds[3] == irp_snb::SnbIrpEventKind::PcieInboundWrites);
        assert(kinds[4] == irp_snb::SnbIrpEventKind::TotalIrpOccupancy);
    }
    if let Err(error) = result {
        let kind = accumulator::first_gap(rows, kinds)->0;
        let i = choose|i: int| 0 <= i < rows.len() && !(#[trigger] rows[i]).1.contains_key(kind);
        let j = choose|j: int| 0 <= j < kinds.len() && kinds[j] == kind;
        assert(j == 0 || j == 1 || j == 2 || j == 3 || j == 4);
        assert(snb_inbound_names_gap(error, rows[i].1));
    }
}

/// Whether a row has what a report on the inbound traffic of Haswell and Broadwell needs.
pub open spec fn hsx_inbound_is_complete(
    row: Map<irp_hsx::HsxIrpEventKind, EventMeasurement>,
) -> bool {
    &&& row.contains_key(irp_hsx::HsxIrpEventKind::ClFlush)
    &&& row.contains_key(irp_hsx::HsxIrpEventKind::Clockticks)
    &&& row.contains_key(irp_hsx::HsxIrpEventKind::CoreRead)
    &&& row.contains_key(irp_hsx::HsxIrpEventKind::DemandRead)
    &&& row.contains_key(irp_hsx::HsxIrpEventKind::LostFwd)
    &&& row.contains_key(irp_hsx::HsxIrpEventKind::PciDcaHint)
    &&& row.contains_key(irp_hsx::HsxIrpEventKind::PciItoM)
    &&& row.contains_key(irp_hsx::HsxIrpEventKind::PcieInboundReads)
    &&& row.contains_key(irp_hsx::HsxIrpEventKind::PcieInboundWrites)
    &&& row.contains_key(irp_hsx::HsxIrpEventKind::PcieReadCurrent)
    &&& row.contains_key(irp_hsx::HsxIrpEventKind::ReadForOwnership)
    &&& row.contains_key(irp_hsx::HsxIrpEventKind::TotalIrpOccupancy)
    &&& row.contains_key(irp_hsx::HsxIrpEventKind::WbMtoI)
}

/// Whether an error says that a row is missing an event that a report on the inbound traffic of
/// Haswell and Broadwell needs, and names the event.
pub open spec fn hsx_inbound_names_gap(
    error: CollectorError,
    row: Map<irp_hsx::HsxIrpEventKind, EventMeasurement>,
) -> bool {
    error matches CollectorError::MissingMeasurement { unit, event } && unit == "Haswell/Broadwell IRP" && {
        ||| !row.contains_key(irp_hsx::HsxIrpEventKind::ClFlush) && event == "ClFlush"
        ||| !row.contains_key(irp_hsx::HsxIrpEventKind::Clockticks) && event == "Clockticks"
        ||| !row.contains_key(irp_hsx::HsxIrpEventKind::CoreRead) && event == "CoreRead"
        ||| !row.contains_key(irp_hsx::HsxIrpEventKind::DemandRead) && event == "DemandRead"
        ||| !row.contains_key(irp_hsx::HsxIrpEventKind::LostFwd) && event == "LostFwd"
        ||| !row.contains_key(irp_hsx::HsxIrpEventKind::PciDcaHint) && event == "PciDcaHint"
        ||| !row.contains_key(irp_hsx::HsxIrpEventKind::PciItoM) && event == "PciItoM"
        ||| !row.contains_key(
            irp_hsx::HsxIrpEventKind::PcieInboundReads,
        ) && event == "PcieInboundReads"
        ||| !row.contains_key(
            irp_hsx::HsxIrpEventKind::PcieInboundWrites,
        ) && event == "PcieInboundWrites"
        ||| !row.contains_key(
            irp_hsx::HsxIrpEventKind::PcieReadCurrent,
        ) && event == "PcieReadCurrent"
        ||| !row.contains_key(
            irp_hsx::HsxIrpEventKind::ReadForOwnership,
        ) && event == "ReadForOwnership"
        ||| !row.contains_key(
            irp_hsx::HsxIrpEventKind::TotalIrpOccupancy,
        ) && event == "TotalIrpOccupancy"
        ||| !row.contains_key(irp_hsx::HsxIrpEventKind::WbMtoI) && event == "WbMtoI"
    }
}

/// There is a report on the inbound traffic of Haswell and Broadwell exactly where every row has
/// what it needs; else the error names an event that some row is missing.
pub proof fn hsx_inbound_report_needs_its_events(
    measurements: Accumulator<HsxUncoreScope, irp_hsx::HsxIrpEventKind, EventMeasurement>,
    result: Result<irp_hsx::HsxIrpMetrics, CollectorError>,
)
    requires
        call_ensures(irp_hsx::HsxIrpMetrics::from_measurements, (&measurements,), result),
    ensures
        result is Ok <==> forall|i: int|
            0 <= i < measurements.rows().len() ==> hsx_inbound_is_complete(
                (#[trigger] measurements.rows()[i]).1,
            ),
        result matches Err(error) ==> exists|i: int|
            0 <= i < measurements.rows().len() && hsx_inbound_names_gap(
                error,
                (#[trigger] measurements.rows()[i]).1,
            ),
{
    let rows = measurements.rows();
    let kinds = irp_hsx::required_events();
    gap_is_a_missing_event(rows, kinds);
    assert forall|i: int| 0 <= i < rows.len() implies (has_all((#[trigger] rows[i]).1, kinds)
        <==> hsx_inbound_is_complete(rows[i].1)) by {
        assert(kinds[0] == irp_hsx::HsxIrpEventKind::ClFlush);
        assert(kinds[1] == irp_hsx::HsxIrpEventKind::Clockticks);
        assert(kinds[2] == irp_hsx::HsxIrpEventKind::CoreRead);
        assert(kinds[3] == irp_hsx::HsxIrpEventKind::DemandRead);
        assert(kinds[4] == irp_hsx::HsxIrpEventKind::LostFwd);
        assert(kinds[5] == irp_hsx::HsxIrpEventKind::PciDcaHint);
        assert(kinds[6] == irp_hsx::HsxIrpEventKind::PciItoM);
        assert(kinds[7] == irp_hsx::HsxIrpEventKind::PcieInboundReads);
        assert(kinds[8] == irp_hsx::HsxIrpEventKind::PcieInboundWrites);
        assert(kinds[9] == irp_hsx::HsxIrpEventKind::PcieReadCurrent);
        assert(kinds[10] == irp_hsx::HsxIrpEventKind::ReadForOwnership);
        assert(kinds[11] == irp_hsx::HsxIrpEventKind::TotalIrpOccupancy);
        assert(kinds[12] == irp_hsx::HsxIrpEventKind::WbMtoI);
    }
    if let Err(error) = result {
        let kind = accumulator::first_gap(rows, kinds)->0;
        let i = choose|i: int| 0 <= i < rows.len() && !(#[trigger] rows[i]).1.contains_key(kind);
        let j = choose|j: int| 0 <= j < kinds.len() && kinds[j] == kind;
        assert(
            j == 0 || j == 1 || j == 2 || j == 3 || j == 4 || j == 5 || j == 6 || j == 7 || j == 8
                || j == 9 || j == 10 || j == 11 || j == 12
        );
        assert(hsx_inbound_names_gap(error, rows[i].1));
    }
}

/// Whether a row has what a report on QPI links needs.
pub open spec fn qpi_is_complete(
    row: Map<qpi_common::QpiEventKind, qpi_common::QpiEventMeasurement>,
) -> bool {
    &&& row.contains_key(qpi_common::QpiEventKind::Clockticks)
    &&& row.contains_key(qpi_common::QpiEventKind::L1PowerCycles)
    &&& row.contains_key(qpi_common::QpiEventKind::RxL0pPowerCycles)
    &&& row.contains_key(qpi_common::QpiEventKind::TxL0pPowerCycles)
    &&& row.contains_key(qpi_common::QpiEventKind::RxQueueInserts)
    &&& row.contains_key(qpi_common::QpiEventKind::RxQueueOccupancy)
    &&& row.contains_key(qpi_common::QpiEventKind::TxQueueInserts)
    &&& row.contains_key(qpi_common::QpiEventKind::TxQueueOccupancy)
}

/// Whether an error says that a row is missing an event that a report on QPI links
/// needs, and names the event.
pub open spec fn qpi_names_gap(
    error: CollectorError,
    row: Map<qpi_common::QpiEventKind, qpi_common::QpiEventMeasurement>,
) -> bool {
    error matches CollectorError::MissingMeasurement { unit, event } && unit == "QPI" && {
        ||| !row.contains_key(qpi_common::QpiEventKind::Clockticks) && event == "Clockticks"
        ||| !row.contains_key(qpi_common::QpiEventKind::L1PowerCycles) && event == "L1PowerCycles"
        ||| !row.contains_key(
            qpi_common::QpiEventKind::RxL0pPowerCycles,
        ) && event == "RxL0pPowerCycles"
        ||| !row.contains_key(
            qpi_common::QpiEventKind::TxL0pPowerCycles,
        ) && event == "TxL0pPowerCycles"
        ||| !row.contains_key(qpi_common::QpiEventKind::RxQueueInserts) && event == "RxQueueInserts"
        ||| !row.contains_key(
            qpi_common::QpiEventKind::RxQueueOccupancy,
        ) && event == "RxQueueOccupancy"
        ||| !row.contains_key(qpi_common::QpiEventKind::TxQueueInserts) && event == "TxQueueInserts"
        ||| !row.contains_key(
            qpi_common::QpiEventKind::TxQueueOccupancy,
        ) && event == "TxQueueOccupancy"
    }
}

/// There is a report on QPI links exactly where every row has what it needs; else
/// the error names an event that some row is missing.
pub proof fn qpi_report_needs_its_events(
    measurements: qpi_common::QpiMeasurementAccumulator,
    result: Result<qpi_common::QpiMetrics, CollectorError>,
)
    requires
        call_ensures(qpi_common::QpiMetrics::from_measurements, (&measurements,), result),
    ensures
        result is Ok <==> forall|i: int|
            0 <= i < measurements.rows().len() ==> qpi_is_complete(
                (#[trigger] measurements.rows()[i]).1,
            ),
        result matches Err(error) ==> exists|i: int|
            0 <= i < measurements.rows().len() && qpi_names_gap(
                error,
                (#[trigger] measurements.rows()[i]).1,
            ),
{
    let rows = measurements.rows();
    let kinds = qpi_common::required_events();
    gap_is_a_missing_event(rows, kinds);
    assert forall|i: int| 0 <= i < rows.len() implies (has_all((#[trigger] rows[i]).1, kinds)
        <==> qpi_is_complete(rows[i].1)) by {
        assert(kinds[0] == qpi_common::QpiEventKind::Clockticks);
        assert(kinds[1] == qpi_common::QpiEventKind::L1PowerCycles);
        assert(kinds[2] == qpi_common::QpiEventKind::RxL0pPowerCycles);
        assert(kinds[3] == qpi_common::QpiEventKind::TxL0pPowerCycles);
        assert(kinds[4] == qpi_common::QpiEventKind::RxQueueInserts);
        assert(kinds[5] == qpi_common::QpiEventKind::RxQueueOccupancy);
        assert(kinds[6] == qpi_common::QpiEventKind::TxQueueInserts);
        assert(kinds[7] == qpi_common::QpiEventKind::TxQueueOccupancy);
    }
    if let Err(error) = result {
        let kind = accumulator::first_gap(rows, kinds)->0;
        let i = choose|i: int| 0 <= i < rows.len() && !(#[trigger] rows[i]).1.contains_key(kind);
        let j = choose|j: int| 0 <= j < kinds.len() && kinds[j] == kind;
        assert(j == 0 || j == 1 || j == 2 || j == 3 || j == 4 || j == 5 || j == 6 || j == 7);
        assert(qpi_names_gap(error, rows[i].1));
    }
}

/// Whether a row has what a report on UPI links needs.
pub open spec fn upi_is_complete(
    row: Map<upi_common::UpiEventKind, upi_common::UpiEventMeasurement>,
) -> bool {
    &&& row.contains_key(upi_common::UpiEventKind::Clockticks)
    &&& row.contains_key(upi_common::UpiEventKind::TxDataFlits)
    &&& row.contains_key(upi_common::UpiEventKind::TxNonDataFlits)
    &&& row.contains_key(upi_common::UpiEventKind::RxDataFlits)
    &&& row.contains_key(upi_common::UpiEventKind::RxNonDataFlits)
    &&& row.contains_key(upi_common::UpiEventKind::L1PowerCycles)
}

/// Whether an error says that a row is missing an event that a report on UPI links
/// needs, and names the event.
pub open spec fn upi_names_gap(
    error: CollectorError,
    row: Map<upi_common::UpiEventKind, upi_common::UpiEventMeasurement>,
) -> bool {
    error matches CollectorError::MissingMeasurement { unit, event } && unit == "UPI" && {
        ||| !row.contains_key(upi_common::UpiEventKind::Clockticks) && event == "Clockticks"
        ||| !row.contains_key(upi_common::UpiEventKind::TxDataFlits) && event == "TxDataFlits"
        ||| !row.contains_key(upi_common::UpiEventKind::TxNonDataFlits) && event == "TxNonDataFlits"
        ||| !row.contains_key(upi_common::UpiEventKind::RxDataFlits) && event == "RxDataFlits"
        ||| !row.contains_key(upi_common::UpiEventKind::RxNonDataFlits) && event == "RxNonDataFlits"
        ||| !row.contains_key(upi_common::UpiEventKind::L1PowerCycles) && event == "L1PowerCycles"
    }
}

/// There is a report on UPI links exactly where every row has what it needs; else
/// the error names an event that some row is missing.
pub proof fn upi_report_needs_its_events(
    measurements: upi_common::UpiMeasurementAccumulator,
    result: Result<upi_common::UpiMetrics, CollectorError>,
)
    requires
        call_ensures(upi_common::UpiMetrics::from_measurements, (&measurements,), result),
    ensures
        result is Ok <==> forall|i: int|
            0 <= i < measurements.rows().len() ==> upi_is_complete(
                (#[trigger] measurements.rows()[i]).1,
            ),
        result matches Err(error) ==> exists|i: int|
            0 <= i < measurements.rows().len() && upi_names_gap(
                error,
                (#[trigger] measurements.rows()[i]).1,
            ),
{
    let rows = measurements.rows();
    let kinds = upi_common::required_events();
    gap_is_a_missing_event(rows, kinds);
    assert forall|i: int| 0 <= i < rows.len() implies (has_all((#[trigger] rows[i]).1, kinds)
        <==> upi_is_complete(rows[i].1)) by {
        assert(kinds[0] == upi_common::UpiEventKind::Clockticks);
        assert(kinds[1] == upi_common::UpiEventKind::TxDataFlits);
        assert(kinds[2] == upi_common::UpiEventKind::TxNonDataFlits);
        assert(kinds[3] == upi_common::UpiEventKind::RxDataFlits);
        assert(kinds[4] == upi_common::UpiEventKind::RxNonDataFlits);
        assert(kinds[5] == upi_common::UpiEventKind::L1PowerCycles);
    }
    if let Err(error) = result {
        let kind = accumulator::first_gap(rows, kinds)->0;
        let i = choose|i: int| 0 <= i < rows.len() && !(#[trigger] rows[i]).1.contains_key(kind);
        let j = choose|j: int| 0 <= j < kinds.len() && kinds[j] == kind;
        assert(j == 0 || j == 1 || j == 2 || j == 3 || j == 4 || j == 5);
        assert(upi_names_gap(error, rows[i].1));
    }
}

/// There is a report on the power control units of Haswell and Broadwell exactly where the clock
/// of every scope was counted; else the error names the clock.
pub proof fn hsx_power_report_needs_the_clock(
    measurements: Accumulator<PcuPackageScope, PcuEventKind, PcuMeasurement>,
    result: Result<pcu_hsx::HsxPcuMetrics, CollectorError>,
)
    requires
        call_ensures(pcu_hsx::HsxPcuMetrics::from_measurements, (&measurements,), result),
    ensures
        result is Ok <==> forall|i: int|
            0 <= i < measurements.rows().len() ==> (
                #[trigger] measurements.rows()[i]
            ).1.contains_key(PcuEventKind::Clockticks),
        result matches Err(error) ==> error == (CollectorError::MissingMeasurement {
            unit: "PCU",
            event: "Clockticks",
        }),
{
    let rows = measurements.rows();
    let kinds = common::required_events();
    gap_is_a_missing_event(rows, kinds);
    assert(kinds[0] == PcuEventKind::Clockticks);
    assert forall|i: int| 0 <= i < rows.len() implies (has_all((#[trigger] rows[i]).1, kinds)
        <==> rows[i].1.contains_key(PcuEventKind::Clockticks)) by {
        assert(kinds[0] == PcuEventKind::Clockticks);
    }
}

/// There is a report on the power control units of Skylake exactly where the clock
/// of every scope was counted; else the error names the clock.
pub proof fn skx_power_report_needs_the_clock(
    measurements: Accumulator<PcuScope, PcuEventKind, PcuMeasurement>,
    result: Result<pcu_skx::SkxPcuMetrics, CollectorError>,
)
    requires
        call_ensures(pcu_skx::SkxPcuMetrics::from_measurements, (&measurements,), result),
    ensures
        result is Ok <==> forall|i: int|
            0 <= i < measurements.rows().len() ==> (
                #[trigger] measurements.rows()[i]
            ).1.contains_key(PcuEventKind::Clockticks),
        result matches Err(error) ==> error == (CollectorError::MissingMeasurement {
            unit: "PCU",
            event: "Clockticks",
        }),
{
    let rows = measurements.rows();
    let kinds = common::required_events();
    gap_is_a_missing_event(rows, kinds);
    assert(kinds[0] == PcuEventKind::Clockticks);
    assert forall|i: int| 0 <= i < rows.len() implies (has_all((#[trigger] rows[i]).1, kinds)
        <==> rows[i].1.contains_key(PcuEventKind::Clockticks)) by {
        assert(kinds[0] == PcuEventKind::Clockticks);
    }
}

/// There is a report on the power control units of Sandy and Ivy Bridge exactly where the clock
/// of every scope was counted; else the error names the clock.
pub proof fn snb_power_report_needs_the_clock(
    measurements: Accumulator<PcuPackageScope, PcuEventKind, PcuMeasurement>,
    result: Result<pcu_snb::SnbPcuMetrics, CollectorError>,
)
    requires
        call_ensures(pcu_snb::SnbPcuMetrics::from_measurements, (&measurements,), result),
    ensures
        result is Ok <==> forall|i: int|
            0 <= i < measurements.rows().len() ==> (
                #[trigger] measurements.rows()[i]
            ).1.contains_key(PcuEventKind::Clockticks),
        result matches Err(error) ==> error == (CollectorError::MissingMeasurement {
            unit: "PCU",
            event: "Clockticks",
        }),
{
    let rows = measurements.rows();
    let kinds = common::required_events();
    gap_is_a_missing_event(rows, kinds);
    assert(kinds[0] == PcuEventKind::Clockticks);
    assert forall|i: int| 0 <= i < rows.len() implies (has_all((#[trigger] rows[i]).1, kinds)
        <==> rows[i].1.contains_key(PcuEventKind::Clockticks)) by {
        assert(kinds[0] == PcuEventKind::Clockticks);
    }
}

/// There is a report on the power control units of Sapphire Rapids exactly where the clock
/// of every scope was counted; else the error names the clock.
pub proof fn spr_power_report_needs_the_clock(
    measurements: Accumulator<PcuScope, PcuEventKind, PcuMeasurement>,
    result: Result<pcu_spr::SprPcuMetrics, CollectorError>,
)
    requires
        call_ensures(pcu_spr::SprPcuMetrics::from_measurements, (&measurements,), result),
    ensures
        result is Ok <==> forall|i: int|
            0 <= i < measurements.rows().len() ==> (
                #[trigger] measurements.rows()[i]
            ).1.contains_key(PcuEventKind::Clockticks),
        result matches Err(error) ==> error == (CollectorError::MissingMeasurement {
            unit: "PCU",
            event: "Clockticks",
        }),
{
    let rows = measurements.rows();
    let kinds = common::required_events();
    gap_is_a_missing_event(rows, kinds);
    assert(kinds[0] == PcuEventKind::Clockticks);
    assert forall|i: int| 0 <= i < rows.len() implies (has_all((#[trigger] rows[i]).1, kinds)
        <==> rows[i].1.contains_key(PcuEventKind::Clockticks)) by {
        assert(kinds[0] == PcuEventKind::Clockticks);
    }
}

/// Whether the measurements of a scope have everything that a report on the memory of Haswell and
/// Broadwell is made of.
pub open spec fn hsx_memory_is_complete(
    agents: Map<imc_hsx::HsxHaEventKind, EventMeasurement>,
    channels: Map<imc_hsx::HsxImcEventKind, EventMeasurement>,
) -> bool {
    &&& agents.contains_key(imc_hsx::HsxHaEventKind::LocalRead)
    &&& agents.contains_key(imc_hsx::HsxHaEventKind::RemoteRead)
    &&& agents.contains_key(imc_hsx::HsxHaEventKind::LocalWrite)
    &&& agents.contains_key(imc_hsx::HsxHaEventKind::RemoteWrite)
    &&& channels.contains_key(imc_hsx::HsxImcEventKind::Activate)
    &&& channels.contains_key(imc_hsx::HsxImcEventKind::PageMissPrecharge)
    &&& channels.contains_key(imc_hsx::HsxImcEventKind::ReadCas)
    &&& channels.contains_key(imc_hsx::HsxImcEventKind::RpqNonEmpty)
    &&& channels.contains_key(imc_hsx::HsxImcEventKind::WriteCas)
    &&& channels.contains_key(imc_hsx::HsxImcEventKind::WpqNonEmpty)
    &&& channels.contains_key(imc_hsx::HsxImcEventKind::WpqFull)
}

/// Whether an error names an event that the measurements of a scope lack.
pub open spec fn hsx_memory_names_gap(
    error: CollectorError,
    agents: Map<imc_hsx::HsxHaEventKind, EventMeasurement>,
    channels: Map<imc_hsx::HsxImcEventKind, EventMeasurement>,
) -> bool {
    exists|unit: &'static str, event: &'static str|
        {
            &&& error == (CollectorError::MissingMeasurement { unit, event })
            &&& #[trigger] hsx_memory_lacks(unit, event, agents, channels)
        }
}

/// Whether the measurements of a scope lack the event with a name, of the home agents or of the
/// channels.
pub open spec fn hsx_memory_lacks(
    unit: &'static str,
    event: &'static str,
    agents: Map<imc_hsx::HsxHaEventKind, EventMeasurement>,
    channels: Map<imc_hsx::HsxImcEventKind, EventMeasurement>,
) -> bool {
    ||| unit == "HSX HA" && event == "LocalRead" && !agents.contains_key(
        imc_hsx::HsxHaEventKind::LocalRead,
    )
    ||| unit == "HSX HA" && event == "RemoteRead" && !agents.contains_key(
        imc_hsx::HsxHaEventKind::RemoteRead,
    )
    ||| unit == "HSX HA" && event == "LocalWrite" && !agents.contains_key(
        imc_hsx::HsxHaEventKind::LocalWrite,
    )
    ||| unit == "HSX HA" && event == "RemoteWrite" && !agents.contains_key(
        imc_hsx::HsxHaEventKind::RemoteWrite,
    )
    ||| unit == "HSX IMC" && event == "Activate" && !channels.contains_key(
        imc_hsx::HsxImcEventKind::Activate,
    )
    ||| unit == "HSX IMC" && event == "PageMissPrecharge" && !channels.contains_key(
        imc_hsx::HsxImcEventKind::PageMissPrecharge,
    )
    ||| unit == "HSX IMC" && event == "ReadCas" && !channels.contains_key(
        imc_hsx::HsxImcEventKind::ReadCas,
    )
    ||| unit == "HSX IMC" && event == "RpqNonEmpty" && !channels.contains_key(
        imc_hsx::HsxImcEventKind::RpqNonEmpty,
    )
    ||| unit == "HSX IMC" && event == "WriteCas" && !channels.contains_key(
        imc_hsx::HsxImcEventKind::WriteCas,
    )
    ||| unit == "HSX IMC" && event == "WpqNonEmpty" && !channels.contains_key(
        imc_hsx::HsxImcEventKind::WpqNonEmpty,
    )
    ||| unit == "HSX IMC" && event == "WpqFull" && !channels.contains_key(
        imc_hsx::HsxImcEventKind::WpqFull,
    )
}

proof fn lemma_hsx_obstacle(
    agents: Map<imc_hsx::HsxHaEventKind, EventMeasurement>,
    channels: Map<imc_hsx::HsxImcEventKind, EventMeasurement>,
)
    ensures
        match imc_hsx::obstacle(agents, channels) {
            Some(error) => hsx_memory_names_gap(error, agents, channels),
            None => hsx_memory_is_complete(agents, channels),
        },
        hsx_memory_is_complete(agents, channels) ==> imc_hsx::obstacle(agents, channels) is None,
{
    let ha = imc_hsx::ha_required();
    let imc = imc_hsx::imc_required();
    lemma_first_missing(agents, ha, ha.len());
    lemma_first_missing(channels, imc, imc.len());
    assert(ha[0] == imc_hsx::HsxHaEventKind::LocalRead && ha[1]
        == imc_hsx::HsxHaEventKind::RemoteRead && ha[2] == imc_hsx::HsxHaEventKind::LocalWrite
        && ha[3] == imc_hsx::HsxHaEventKind::RemoteWrite);
    assert(imc[0] == imc_hsx::HsxImcEventKind::PageMissPrecharge && imc[1]
        == imc_hsx::HsxImcEventKind::ReadCas && imc[2] == imc_hsx::HsxImcEventKind::RpqNonEmpty
        && imc[3] == imc_hsx::HsxImcEventKind::WriteCas && imc[4]
        == imc_hsx::HsxImcEventKind::WpqNonEmpty && imc[5] == imc_hsx::HsxImcEventKind::WpqFull);
    if imc_hsx::obstacle(agents, channels) is Some {
        let error = imc_hsx::obstacle(agents, channels)->0;
        let unit = error->MissingMeasurement_unit;
        let event = error->MissingMeasurement_event;
        assert(hsx_memory_lacks(unit, event, agents, channels));
    }
}

/// There is a report on the memory of Haswell and Broadwell exactly where every scope with channels
/// has home agents and both have all the events that it is made of; else the error names a scope
/// without home agents or an event that a scope lacks.
pub proof fn hsx_memory_report_needs_its_events(
    measurements: imc_hsx::HsxImcMeasurements,
    result: Result<imc_hsx::HsxImcMetrics, CollectorError>,
)
    requires
        call_ensures(imc_hsx::HsxImcMetrics::from_measurements, (&measurements,), result),
    ensures
        result is Ok <==> forall|i: int|
            0 <= i < measurements.imc.rows().len() ==> hsx_scope_is_complete(
                measurements.ha.grid(),
                #[trigger] measurements.imc.rows()[i],
            ),
        result matches Err(error) ==> exists|i: int|
            0 <= i < measurements.imc.rows().len() && hsx_scope_fails(
                error,
                measurements.ha.grid(),
                #[trigger] measurements.imc.rows()[i],
            ),
{
    lemma_hsx_reports(measurements.ha.grid(), measurements.imc.rows());
}

/// Whether a scope has everything that a report on it is made of.
pub open spec fn hsx_scope_is_complete(
    ha: Grid<HsxUncoreScope, imc_hsx::HsxHaEventKind, EventMeasurement>,
    row: (HsxUncoreScope, Map<imc_hsx::HsxImcEventKind, EventMeasurement>),
) -> bool {
    ha.contains_key(row.0) && hsx_memory_is_complete(ha[row.0], row.1)
}

/// Whether an error says what a scope lacks.
pub open spec fn hsx_scope_fails(
    error: CollectorError,
    ha: Grid<HsxUncoreScope, imc_hsx::HsxHaEventKind, EventMeasurement>,
    row: (HsxUncoreScope, Map<imc_hsx::HsxImcEventKind, EventMeasurement>),
) -> bool {
    if ha.contains_key(row.0) {
        hsx_memory_names_gap(error, ha[row.0], row.1)
    } else {
        error == (CollectorError::MissingPackage { unit: "HSX HA", package_id: row.0.package_id })
    }
}

proof fn lemma_hsx_reports(
    ha: Grid<HsxUncoreScope, imc_hsx::HsxHaEventKind, EventMeasurement>,
    rows: Seq<(HsxUncoreScope, Map<imc_hsx::HsxImcEventKind, EventMeasurement>)>,
)
    ensures
        imc_hsx::all_reports(ha, rows) is Ok <==> forall|i: int|
            0 <= i < rows.len() ==> hsx_scope_is_complete(ha, #[trigger] rows[i]),
        imc_hsx::all_reports(ha, rows) matches Err(error) ==> exists|i: int|
            0 <= i < rows.len() && hsx_scope_fails(error, ha, #[trigger] rows[i]),
    decreases rows.len(),
{
    if rows.len() > 0 {
        let front = rows.drop_last();
        let n = rows.len() - 1;
        lemma_hsx_reports(ha, front);
        lemma_hsx_obstacle(ha[rows[n].0], rows[n].1);
        assert(forall|i: int| 0 <= i < n ==> (#[trigger] rows[i]) == front[i]);
        assert(rows[n] == rows.last());
        if imc_hsx::all_reports(ha, front) is Err {
            let error = imc_hsx::all_reports(ha, front)->Err_0;
            let i = choose|i: int|
                0 <= i < front.len() && hsx_scope_fails(error, ha, #[trigger] front[i]);
            assert(hsx_scope_fails(error, ha, rows[i]));
            let j = choose|j: int|
                0 <= j < front.len() && !hsx_scope_is_complete(ha, #[trigger] front[j]);
            assert(!hsx_scope_is_complete(ha, rows[j]));
        }
    }
}

} // verus!
