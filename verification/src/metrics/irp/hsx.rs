//! The I/O ring ports of Haswell and Broadwell processors.
use crate::accumulator::{self, Accumulator, EventKind, EventMeasurement};
use crate::arch::Architecture;
use crate::completeness;
use crate::error::CollectorError;
use crate::export::{self, GaugeUpdate, Labels, MetricDescriptor};
use crate::hsx;
use crate::ordered_map::Key;
use crate::pci::PciLocation;
use crate::quantity::{self, Quantity};
use crate::registers::{self, PmonWords, Register, RegisterRead, RegisterWrite, Width};
use crate::schedule::{self, Slice};
use crate::seqs;
use crate::topology::{HsxUncoreScope};
use crate::units::{self, SliceReadings, Unit};
use vstd::prelude::*;

verus! {

/// Where the events of the counters are selected.
pub const COUNTER_CONTROLS: [u64; 4] = [0xd8, 0xdc, 0xe0, 0xe4];

/// Where the counters are.
pub const COUNTERS: [u64; 4] = [0xa0, 0xb0, 0xb8, 0xc0];

/// Where a unit is frozen, reset and released.
pub const UNIT_CONTROL: u64 = 0xf4;

/// What is counted in an I/O ring port.
#[derive(Clone, Copy, Debug, PartialEq, Eq, Structural)]
pub enum HsxIrpEventKind {
    ClFlush,
    Clockticks,
    CoreRead,
    DemandRead,
    Disabled,
    LostFwd,
    PciDcaHint,
    PciItoM,
    PcieInboundReads,
    PcieInboundWrites,
    PcieReadCurrent,
    ReadForOwnership,
    TotalIrpOccupancy,
    WbMtoI,
}

/// The place of an event in the order of the events.
pub open spec fn event_index(kind: HsxIrpEventKind) -> int {
    match kind {
        HsxIrpEventKind::ClFlush => 0,
        HsxIrpEventKind::Clockticks => 1,
        HsxIrpEventKind::CoreRead => 2,
        HsxIrpEventKind::DemandRead => 3,
        HsxIrpEventKind::Disabled => 4,
        HsxIrpEventKind::LostFwd => 5,
        HsxIrpEventKind::PciDcaHint => 6,
        HsxIrpEventKind::PciItoM => 7,
        HsxIrpEventKind::PcieInboundReads => 8,
        HsxIrpEventKind::PcieInboundWrites => 9,
        HsxIrpEventKind::PcieReadCurrent => 10,
        HsxIrpEventKind::ReadForOwnership => 11,
        HsxIrpEventKind::TotalIrpOccupancy => 12,
        HsxIrpEventKind::WbMtoI => 13,
    }
}

/// The name of an event, as it is shown in an error.
pub open spec fn event_name(kind: HsxIrpEventKind) -> &'static str {
    match kind {
        HsxIrpEventKind::ClFlush => "ClFlush",
        HsxIrpEventKind::Clockticks => "Clockticks",
        HsxIrpEventKind::CoreRead => "CoreRead",
        HsxIrpEventKind::DemandRead => "DemandRead",
        HsxIrpEventKind::Disabled => "Disabled",
        HsxIrpEventKind::LostFwd => "LostFwd",
        HsxIrpEventKind::PciDcaHint => "PciDcaHint",
        HsxIrpEventKind::PciItoM => "PciItoM",
        HsxIrpEventKind::PcieInboundReads => "PcieInboundReads",
        HsxIrpEventKind::PcieInboundWrites => "PcieInboundWrites",
        HsxIrpEventKind::PcieReadCurrent => "PcieReadCurrent",
        HsxIrpEventKind::ReadForOwnership => "ReadForOwnership",
        HsxIrpEventKind::TotalIrpOccupancy => "TotalIrpOccupancy",
        HsxIrpEventKind::WbMtoI => "WbMtoI",
    }
}

impl HsxIrpEventKind {
    fn index(self) -> (index: u8)
        ensures
            index == event_index(self),
    {
        match self {
            HsxIrpEventKind::ClFlush => 0,
            HsxIrpEventKind::Clockticks => 1,
            HsxIrpEventKind::CoreRead => 2,
            HsxIrpEventKind::DemandRead => 3,
            HsxIrpEventKind::Disabled => 4,
            HsxIrpEventKind::LostFwd => 5,
            HsxIrpEventKind::PciDcaHint => 6,
            HsxIrpEventKind::PciItoM => 7,
            HsxIrpEventKind::PcieInboundReads => 8,
            HsxIrpEventKind::PcieInboundWrites => 9,
            HsxIrpEventKind::PcieReadCurrent => 10,
            HsxIrpEventKind::ReadForOwnership => 11,
            HsxIrpEventKind::TotalIrpOccupancy => 12,
            HsxIrpEventKind::WbMtoI => 13,
        }
    }

    /// The name of the event, as it is shown in an error.
    pub fn name(self) -> (name: &'static str)
        ensures
            name == event_name(self),
    {
        match self {
            HsxIrpEventKind::ClFlush => "ClFlush",
            HsxIrpEventKind::Clockticks => "Clockticks",
            HsxIrpEventKind::CoreRead => "CoreRead",
            HsxIrpEventKind::DemandRead => "DemandRead",
            HsxIrpEventKind::Disabled => "Disabled",
            HsxIrpEventKind::LostFwd => "LostFwd",
            HsxIrpEventKind::PciDcaHint => "PciDcaHint",
            HsxIrpEventKind::PciItoM => "PciItoM",
            HsxIrpEventKind::PcieInboundReads => "PcieInboundReads",
            HsxIrpEventKind::PcieInboundWrites => "PcieInboundWrites",
            HsxIrpEventKind::PcieReadCurrent => "PcieReadCurrent",
            HsxIrpEventKind::ReadForOwnership => "ReadForOwnership",
            HsxIrpEventKind::TotalIrpOccupancy => "TotalIrpOccupancy",
            HsxIrpEventKind::WbMtoI => "WbMtoI",
        }
    }
}

impl Key for HsxIrpEventKind {
    open spec fn rank(self) -> int {
        event_index(self)
    }

    proof fn rank_injective(a: Self, b: Self) {
    }

    fn precedes(&self, other: &Self) -> (result: bool) {
        self.index() < other.index()
    }
}

impl EventKind for HsxIrpEventKind {
    open spec fn is_counted(self) -> bool {
        self != HsxIrpEventKind::Disabled
    }

    fn counts(&self) -> (result: bool) {
        match self {
            HsxIrpEventKind::Disabled => false,
            _ => true,
        }
    }
}

/// An event that a counter can count.
#[derive(Clone, Copy, Debug, PartialEq, Eq, Structural)]
pub struct HsxIrpEventSpec {
    pub event: u8,
    pub kind: HsxIrpEventKind,
    pub umask: u8,
}

/// An event of which the counts are summed.
pub open spec fn sum_of(kind: HsxIrpEventKind, event: u8, umask: u8) -> HsxIrpEventSpec {
    HsxIrpEventSpec { event, kind, umask }
}

/// No event.
pub open spec fn no_event() -> HsxIrpEventSpec {
    HsxIrpEventSpec { event: 0, kind: HsxIrpEventKind::Disabled, umask: 0 }
}

impl HsxIrpEventSpec {
    /// An event of which the counts are summed.
    pub fn sum(kind: HsxIrpEventKind, event: u8, umask: u8) -> (spec: Self)
        ensures
            spec == sum_of(kind, event, umask),
    {
        HsxIrpEventSpec { event, kind, umask }
    }

    /// No event.
    pub fn disabled() -> (spec: Self)
        ensures
            spec == no_event(),
    {
        HsxIrpEventSpec { event: 0, kind: HsxIrpEventKind::Disabled, umask: 0 }
    }
}

/// The events that the counters of a unit count at the same time.
#[derive(Clone, Copy, Debug, PartialEq, Eq)]
pub struct HsxIrpEventGroup {
    pub events: [HsxIrpEventSpec; 4],
}

/// What a counter counts, if anything.
pub open spec fn kind_of(event: HsxIrpEventSpec) -> Option<HsxIrpEventKind> {
    if event.kind == HsxIrpEventKind::Disabled {
        None
    } else {
        Some(event.kind)
    }
}

/// The control word of an event: event number, unit mask, reset, overflow and enable bits; zero
/// without an event.
pub open spec fn control_word(event: HsxIrpEventSpec) -> u64 {
    if event.kind == HsxIrpEventKind::Disabled {
        0
    } else {
        (event.event + event.umask * 0x100 + registers::COUNT_AND_REPORT_OVERFLOW) as u64
    }
}

/// What each counter counts while a group is programmed.
pub open spec fn counter_kinds(group: HsxIrpEventGroup) -> Seq<Option<HsxIrpEventKind>> {
    group.events@.map_values(|event: HsxIrpEventSpec| kind_of(event))
}

/// The control words of the counters while a group is programmed.
pub open spec fn control_words(group: HsxIrpEventGroup) -> Seq<Option<u64>> {
    group.events@.map_values(|event: HsxIrpEventSpec| Some(control_word(event)))
}

fn counted_kind(event: HsxIrpEventSpec) -> (kind: Option<HsxIrpEventKind>)
    ensures
        kind == kind_of(event),
{
    match event.kind {
        HsxIrpEventKind::Disabled => None,
        kind => Some(kind),
    }
}

/// The control word of an event.
pub fn counter_control(event: HsxIrpEventSpec) -> (word: u64)
    ensures
        word == control_word(event),
{
    match event.kind {
        HsxIrpEventKind::Disabled => 0,
        _ => registers::select_word(event.event, event.umask, registers::COUNT_AND_REPORT_OVERFLOW),
    }
}

impl HsxIrpEventGroup {
    /// What each counter counts.
    pub fn kinds(&self) -> (kinds: Vec<Option<HsxIrpEventKind>>)
        ensures
            kinds@ == counter_kinds(*self),
    {
        let kinds: Vec<Option<HsxIrpEventKind>> = vec![
            counted_kind(self.events[0]),
            counted_kind(self.events[1]),
            counted_kind(self.events[2]),
            counted_kind(self.events[3]),
        ];
        assert(kinds@ =~= counter_kinds(*self));
        kinds
    }

    /// The control words of the counters.
    pub fn controls(&self) -> (words: Vec<Option<u64>>)
        ensures
            words@ == control_words(*self),
    {
        let words: Vec<Option<u64>> = vec![
            Some(counter_control(self.events[0])),
            Some(counter_control(self.events[1])),
            Some(counter_control(self.events[2])),
            Some(counter_control(self.events[3])),
        ];
        assert(words@ =~= control_words(*self));
        words
    }
}

/// The event groups, in the order in which they take turns.
pub open spec fn groups() -> Seq<HsxIrpEventGroup> {
    seq![
        HsxIrpEventGroup {
            events: [
                sum_of(HsxIrpEventKind::PcieReadCurrent, 0x13, 0x01),
                sum_of(HsxIrpEventKind::CoreRead, 0x13, 0x02),
                sum_of(HsxIrpEventKind::DemandRead, 0x13, 0x04),
                sum_of(HsxIrpEventKind::ReadForOwnership, 0x13, 0x08),
            ],
        },
        HsxIrpEventGroup {
            events: [
                sum_of(HsxIrpEventKind::PciItoM, 0x13, 0x10),
                sum_of(HsxIrpEventKind::PciDcaHint, 0x13, 0x20),
                sum_of(HsxIrpEventKind::WbMtoI, 0x13, 0x40),
                sum_of(HsxIrpEventKind::ClFlush, 0x13, 0x80),
            ],
        },
        HsxIrpEventGroup {
            events: [
                sum_of(HsxIrpEventKind::TotalIrpOccupancy, 0x12, 0x01),
                sum_of(HsxIrpEventKind::PcieInboundReads, 0x16, 0x01),
                sum_of(HsxIrpEventKind::PcieInboundWrites, 0x16, 0x02),
                sum_of(HsxIrpEventKind::LostFwd, 0x15, 0x10),
            ],
        },
        HsxIrpEventGroup {
            events: [
                sum_of(HsxIrpEventKind::Clockticks, 0x00, 0x00),
                no_event(),
                no_event(),
                no_event(),
            ],
        },
    ]
}

/// The event groups, in the order in which they take turns.
pub fn event_groups() -> (table: Vec<HsxIrpEventGroup>)
    ensures
        table@ == groups(),
{
    vec![
        HsxIrpEventGroup {
            events: [
                HsxIrpEventSpec::sum(HsxIrpEventKind::PcieReadCurrent, 0x13, 0x01),
                HsxIrpEventSpec::sum(HsxIrpEventKind::CoreRead, 0x13, 0x02),
                HsxIrpEventSpec::sum(HsxIrpEventKind::DemandRead, 0x13, 0x04),
                HsxIrpEventSpec::sum(HsxIrpEventKind::ReadForOwnership, 0x13, 0x08),
            ],
        },
        HsxIrpEventGroup {
            events: [
                HsxIrpEventSpec::sum(HsxIrpEventKind::PciItoM, 0x13, 0x10),
                HsxIrpEventSpec::sum(HsxIrpEventKind::PciDcaHint, 0x13, 0x20),
                HsxIrpEventSpec::sum(HsxIrpEventKind::WbMtoI, 0x13, 0x40),
                HsxIrpEventSpec::sum(HsxIrpEventKind::ClFlush, 0x13, 0x80),
            ],
        },
        HsxIrpEventGroup {
            events: [
                HsxIrpEventSpec::sum(HsxIrpEventKind::TotalIrpOccupancy, 0x12, 0x01),
                HsxIrpEventSpec::sum(HsxIrpEventKind::PcieInboundReads, 0x16, 0x01),
                HsxIrpEventSpec::sum(HsxIrpEventKind::PcieInboundWrites, 0x16, 0x02),
                HsxIrpEventSpec::sum(HsxIrpEventKind::LostFwd, 0x15, 0x10),
            ],
        },
        HsxIrpEventGroup {
            events: [
                HsxIrpEventSpec::sum(HsxIrpEventKind::Clockticks, 0x00, 0x00),
                HsxIrpEventSpec::disabled(),
                HsxIrpEventSpec::disabled(),
                HsxIrpEventSpec::disabled(),
            ],
        },
    ]
}

/// What is reported for the I/O ring port of a package.
#[derive(Clone, Copy, Debug)]
pub struct HsxIrpScopeMetrics {
    pub scope: HsxUncoreScope,
    pub clflush_bytes_per_second: Quantity,
    pub core_read_bytes_per_second: Quantity,
    pub demand_read_bytes_per_second: Quantity,
    pub frequency_hz: Quantity,
    pub io_write_conflict_ratio: Quantity,
    pub pci_dca_hint_bytes_per_second: Quantity,
    pub pci_itom_bytes_per_second: Quantity,
    pub pcie_inbound_reads_per_second: Quantity,
    pub pcie_inbound_writes_per_second: Quantity,
    pub pcie_read_current_bytes_per_second: Quantity,
    pub read_for_ownership_bytes_per_second: Quantity,
    pub total_irp_occupancy_entries: Quantity,
    pub wbmtoi_bytes_per_second: Quantity,
}

/// The events that a report needs, in the order in which they are looked up.
pub open spec fn required_events() -> Seq<HsxIrpEventKind> {
    seq![
        HsxIrpEventKind::ClFlush,
        HsxIrpEventKind::Clockticks,
        HsxIrpEventKind::CoreRead,
        HsxIrpEventKind::DemandRead,
        HsxIrpEventKind::LostFwd,
        HsxIrpEventKind::PciDcaHint,
        HsxIrpEventKind::PciItoM,
        HsxIrpEventKind::PcieInboundReads,
        HsxIrpEventKind::PcieInboundWrites,
        HsxIrpEventKind::PcieReadCurrent,
        HsxIrpEventKind::ReadForOwnership,
        HsxIrpEventKind::TotalIrpOccupancy,
        HsxIrpEventKind::WbMtoI,
    ]
}

fn required_list() -> (kinds: Vec<HsxIrpEventKind>)
    ensures
        kinds@ == required_events(),
{
    vec![
        HsxIrpEventKind::ClFlush,
        HsxIrpEventKind::Clockticks,
        HsxIrpEventKind::CoreRead,
        HsxIrpEventKind::DemandRead,
        HsxIrpEventKind::LostFwd,
        HsxIrpEventKind::PciDcaHint,
        HsxIrpEventKind::PciItoM,
        HsxIrpEventKind::PcieInboundReads,
        HsxIrpEventKind::PcieInboundWrites,
        HsxIrpEventKind::PcieReadCurrent,
        HsxIrpEventKind::ReadForOwnership,
        HsxIrpEventKind::TotalIrpOccupancy,
        HsxIrpEventKind::WbMtoI,
    ]
}

/// What is reported for a scope.
pub open spec fn scope_metrics(
    scope: HsxUncoreScope,
    row: Map<HsxIrpEventKind, EventMeasurement>,
) -> HsxIrpScopeMetrics {
    let clflush = row[HsxIrpEventKind::ClFlush];
    let clockticks = row[HsxIrpEventKind::Clockticks];
    let core_read = row[HsxIrpEventKind::CoreRead];
    let demand_read = row[HsxIrpEventKind::DemandRead];
    let lost_fwd = row[HsxIrpEventKind::LostFwd];
    let pci_dca_hint = row[HsxIrpEventKind::PciDcaHint];
    let pci_itom = row[HsxIrpEventKind::PciItoM];
    let pcie_inbound_reads = row[HsxIrpEventKind::PcieInboundReads];
    let pcie_inbound_writes = row[HsxIrpEventKind::PcieInboundWrites];
    let pcie_read_current = row[HsxIrpEventKind::PcieReadCurrent];
    let read_for_ownership = row[HsxIrpEventKind::ReadForOwnership];
    let total_irp_occupancy = row[HsxIrpEventKind::TotalIrpOccupancy];
    let wbmtoi = row[HsxIrpEventKind::WbMtoI];
    HsxIrpScopeMetrics {
        scope,
        clflush_bytes_per_second: quantity::line_rate_of(clflush),
        core_read_bytes_per_second: quantity::line_rate_of(core_read),
        demand_read_bytes_per_second: quantity::line_rate_of(demand_read),
        frequency_hz: quantity::count_frequency_of(clockticks),
        io_write_conflict_ratio: quantity::scaled_ratio_of(lost_fwd, pcie_inbound_writes),
        pci_dca_hint_bytes_per_second: quantity::line_rate_of(pci_dca_hint),
        pci_itom_bytes_per_second: quantity::line_rate_of(pci_itom),
        pcie_inbound_reads_per_second: quantity::event_rate_of(pcie_inbound_reads),
        pcie_inbound_writes_per_second: quantity::event_rate_of(pcie_inbound_writes),
        pcie_read_current_bytes_per_second: quantity::line_rate_of(pcie_read_current),
        read_for_ownership_bytes_per_second: quantity::line_rate_of(read_for_ownership),
        total_irp_occupancy_entries: quantity::scaled_ratio_of(total_irp_occupancy, clockticks),
        wbmtoi_bytes_per_second: quantity::line_rate_of(wbmtoi),
    }
}

impl HsxIrpScopeMetrics {
    fn from_measurements(
        measurements: &Accumulator<HsxUncoreScope, HsxIrpEventKind, EventMeasurement>,
        index: usize,
    ) -> (metrics: Self)
        requires
            measurements.wf(),
            index < measurements.rows().len(),
            accumulator::first_gap(measurements.rows(), required_events()) is None,
        ensures
            metrics == scope_metrics(
                measurements.rows()[index as int].0,
                measurements.rows()[index as int].1,
            ),
    {
        proof {
            let rows = measurements.rows();
            assert forall|j: int| 0 <= j < required_events().len() implies rows[index as int].1.contains_key(
                #[trigger] required_events()[j],
            ) by {
                accumulator::lemma_no_gap(rows, required_events(), index as int, j);
            }
            assert(required_events()[0] == HsxIrpEventKind::ClFlush);
            assert(required_events()[1] == HsxIrpEventKind::Clockticks);
            assert(required_events()[2] == HsxIrpEventKind::CoreRead);
            assert(required_events()[3] == HsxIrpEventKind::DemandRead);
            assert(required_events()[4] == HsxIrpEventKind::LostFwd);
            assert(required_events()[5] == HsxIrpEventKind::PciDcaHint);
            assert(required_events()[6] == HsxIrpEventKind::PciItoM);
            assert(required_events()[7] == HsxIrpEventKind::PcieInboundReads);
            assert(required_events()[8] == HsxIrpEventKind::PcieInboundWrites);
            assert(required_events()[9] == HsxIrpEventKind::PcieReadCurrent);
            assert(required_events()[10] == HsxIrpEventKind::ReadForOwnership);
            assert(required_events()[11] == HsxIrpEventKind::TotalIrpOccupancy);
            assert(required_events()[12] == HsxIrpEventKind::WbMtoI);
        }
        let clflush = measurements.require(index, HsxIrpEventKind::ClFlush);
        let clockticks = measurements.require(index, HsxIrpEventKind::Clockticks);
        let core_read = measurements.require(index, HsxIrpEventKind::CoreRead);
        let demand_read = measurements.require(index, HsxIrpEventKind::DemandRead);
        let lost_fwd = measurements.require(index, HsxIrpEventKind::LostFwd);
        let pci_dca_hint = measurements.require(index, HsxIrpEventKind::PciDcaHint);
        let pci_itom = measurements.require(index, HsxIrpEventKind::PciItoM);
        let pcie_inbound_reads = measurements.require(index, HsxIrpEventKind::PcieInboundReads);
        let pcie_inbound_writes = measurements.require(index, HsxIrpEventKind::PcieInboundWrites);
        let pcie_read_current = measurements.require(index, HsxIrpEventKind::PcieReadCurrent);
        let read_for_ownership = measurements.require(index, HsxIrpEventKind::ReadForOwnership);
        let total_irp_occupancy = measurements.require(index, HsxIrpEventKind::TotalIrpOccupancy);
        let wbmtoi = measurements.require(index, HsxIrpEventKind::WbMtoI);
        let scope = measurements.scope_at(index);
        HsxIrpScopeMetrics {
            scope,
            clflush_bytes_per_second: quantity::line_rate(clflush),
            core_read_bytes_per_second: quantity::line_rate(core_read),
            demand_read_bytes_per_second: quantity::line_rate(demand_read),
            frequency_hz: quantity::count_frequency(clockticks),
            io_write_conflict_ratio: quantity::scaled_ratio(lost_fwd, pcie_inbound_writes),
            pci_dca_hint_bytes_per_second: quantity::line_rate(pci_dca_hint),
            pci_itom_bytes_per_second: quantity::line_rate(pci_itom),
            pcie_inbound_reads_per_second: quantity::event_rate(pcie_inbound_reads),
            pcie_inbound_writes_per_second: quantity::event_rate(pcie_inbound_writes),
            pcie_read_current_bytes_per_second: quantity::line_rate(pcie_read_current),
            read_for_ownership_bytes_per_second: quantity::line_rate(read_for_ownership),
            total_irp_occupancy_entries: quantity::scaled_ratio(total_irp_occupancy, clockticks),
            wbmtoi_bytes_per_second: quantity::line_rate(wbmtoi),
        }
    }
}

/// What is reported for all I/O ring ports.
#[derive(Debug)]
pub struct HsxIrpMetrics {
    pub scopes: Vec<HsxIrpScopeMetrics>,
}

/// Whether `result` is the report on measurements: one entry for each scope, in scope order, or
/// the first event that is needed and was not counted.
pub open spec fn reported(
    rows: Seq<(HsxUncoreScope, Map<HsxIrpEventKind, EventMeasurement>)>,
    result: Result<HsxIrpMetrics, CollectorError>,
) -> bool {
    match accumulator::first_gap(rows, required_events()) {
        Some(kind) => result matches Err(error) && error == (CollectorError::MissingMeasurement {
            unit: "Haswell/Broadwell IRP",
            event: event_name(kind),
        }),
        None => result matches Ok(metrics) && metrics.scopes@ == rows.map_values(
            |row: (
                HsxUncoreScope,
                Map<HsxIrpEventKind, EventMeasurement>
            )| scope_metrics(row.0, row.1),
        ),
    }
}

impl HsxIrpMetrics {
    /// Reports every scope, in scope order; an error where an event that is needed was not
    /// counted in some scope.
    pub fn from_measurements(
        measurements: &Accumulator<HsxUncoreScope, HsxIrpEventKind, EventMeasurement>,
    ) -> (result: Result<Self, CollectorError>)
        requires
            measurements.wf(),
        ensures
            reported(measurements.rows(), result),
    {
        match measurements.find_gap(&required_list()) {
            Some(kind) => Err(
                CollectorError::MissingMeasurement {
                    unit: "Haswell/Broadwell IRP",
                    event: kind.name(),
                },
            ),
            None => {
                let ghost rows = measurements.rows();
                let mut scopes: Vec<HsxIrpScopeMetrics> = Vec::new();
                let mut i: usize = 0;
                while i < measurements.len()
                    invariant
                        measurements.wf(),
                        rows == measurements.rows(),
                        accumulator::first_gap(rows, required_events()) is None,
                        i <= rows.len(),
                        scopes@.len() == i,
                        forall|k: int|
                            0 <= k < i ==> (#[trigger] scopes@[k]) == scope_metrics(
                                rows[k].0,
                                rows[k].1,
                            ),
                    decreases rows.len() - i,
                {
                    scopes.push(HsxIrpScopeMetrics::from_measurements(measurements, i));
                    i += 1;
                }
                assert(scopes@ =~= rows.map_values(
                    |row: (
                        HsxUncoreScope,
                        Map<HsxIrpEventKind, EventMeasurement>
                    )| scope_metrics(row.0, row.1),
                ));
                Ok(HsxIrpMetrics { scopes })
            },
        }
    }
}

/// Where the I/O ring port of a package stands.
#[derive(Clone, Copy, Debug, PartialEq, Eq, Structural)]
pub struct SocketLocation {
    pub location: PciLocation,
    pub package_id: u32,
}

/// The registers of the I/O ring port of a package.
pub open spec fn is_package(unit: Unit<HsxUncoreScope>, place: SocketLocation) -> bool {
    let location = place.location;
    &&& unit.scope == (HsxUncoreScope { package_id: place.package_id })
    &&& unit.control == Register::Pci { location, offset: UNIT_CONTROL }
    &&& unit.width == Width::Bits32
    &&& unit.filter is None
    &&& unit.controls@ == Seq::new(
        4,
        |i: int| Register::Pci { location, offset: COUNTER_CONTROLS@[i] },
    )
    &&& unit.counters@ == Seq::new(4, |i: int| Register::Pci { location, offset: COUNTERS@[i] })
    &&& unit.fixed_control is None
    &&& unit.fixed_counter is None
}

fn package(place: SocketLocation) -> (unit: Unit<HsxUncoreScope>)
    ensures
        is_package(unit, place),
{
    let location = place.location;
    let unit = Unit {
        scope: HsxUncoreScope { package_id: place.package_id },
        control: Register::Pci { location, offset: UNIT_CONTROL },
        width: Width::Bits32,
        filter: None,
        controls: vec![
            Register::Pci { location, offset: COUNTER_CONTROLS[0] },
            Register::Pci { location, offset: COUNTER_CONTROLS[1] },
            Register::Pci { location, offset: COUNTER_CONTROLS[2] },
            Register::Pci { location, offset: COUNTER_CONTROLS[3] },
        ],
        counters: vec![
            Register::Pci { location, offset: COUNTERS[0] },
            Register::Pci { location, offset: COUNTERS[1] },
            Register::Pci { location, offset: COUNTERS[2] },
            Register::Pci { location, offset: COUNTERS[3] },
        ],
        fixed_control: None,
        fixed_counter: None,
    };
    assert(unit.controls@ =~= Seq::new(
        4,
        |i: int| Register::Pci { location, offset: COUNTER_CONTROLS@[i] },
    ));
    assert(unit.counters@ =~= Seq::new(
        4,
        |i: int| Register::Pci { location, offset: COUNTERS@[i] },
    ));
    unit
}

/// Whether `result` is the collector for the processor: Haswell and Broadwell servers only, with
/// one unit for each location.
pub open spec fn created(
    architecture: Architecture,
    words: PmonWords,
    locations: Seq<SocketLocation>,
    result: Result<HsxIrpCollector, CollectorError>,
) -> bool {
    let model = architecture.server_model()->0;
    if hsx::is_member(model) {
        &&& result matches Ok(collector)
        &&& collector.wf()
        &&& collector.words() == words
        &&& collector.next_group() == 0
        &&& collector.units().len() == locations.len()
        &&& forall|i: int|
            0 <= i < locations.len() ==> is_package(#[trigger] collector.units()[i], locations[i])
    } else {
        result matches Err(error) && error == (CollectorError::Unsupported {
            unit: "Haswell/Broadwell IRP",
            model,
        })
    }
}

/// Samples the I/O ring ports of Haswell and Broadwell processors.
#[derive(Debug)]
pub struct HsxIrpCollector {
    packages: Vec<Unit<HsxUncoreScope>>,
    next_group: usize,
    words: PmonWords,
}

impl HsxIrpCollector {
    /// The units whose counters are read.
    pub closed spec fn units(self) -> Seq<Unit<HsxUncoreScope>> {
        self.packages@
    }

    /// The group that goes first in the next sample.
    pub closed spec fn next_group(self) -> usize {
        self.next_group
    }

    /// The invariant: the next group is one of the groups, and every unit has the counters that a
    /// group uses.
    pub open spec fn wf(self) -> bool {
        &&& self.next_group() < groups().len()
        &&& units::units_have(self.units(), 4)
    }

    /// The number of rounds in a sample over an interval.
    pub open spec fn rounds(interval_nanos: u128) -> nat {
        schedule::dealt_rounds(interval_nanos as nat, groups().len() as nat)
    }

    /// Makes the next group in cyclic order go first.
    pub fn rotate_group(&mut self)
        requires
            old(self).wf(),
        ensures
            final(self).wf(),
            final(self).next_group() == (old(self).next_group() + 1) % groups().len() as int,
            final(self).units() == old(self).units(),
            final(self).words() == old(self).words(),
    {
        self.next_group = schedule::rotate(self.next_group, event_groups().len());
    }

    /// The turns of the event groups over an interval.
    pub fn schedule(&self, interval_nanos: u128) -> (slices: Vec<Slice<HsxIrpEventGroup>>)
        requires
            self.wf(),
            groups().len() * Self::rounds(interval_nanos) <= usize::MAX,
        ensures
            schedule::is_schedule(
                slices@,
                groups(),
                self.next_group() as int,
                interval_nanos,
                Self::rounds(interval_nanos),
            ),
    {
        let groups = event_groups();
        let round_count: usize = schedule::dealt_round_count(interval_nanos, groups.len());
        schedule::schedule_rounds(&groups, self.next_group, interval_nanos, round_count)
    }

    /// The slices of a sample over an interval; an error over no time, or where there are more
    /// slices than can be numbered.
    pub fn begin_sample(&self, interval_nanos: u128) -> (result: Result<
        Vec<Slice<HsxIrpEventGroup>>,
        CollectorError,
    >)
        requires
            self.wf(),
        ensures
            match result {
                Ok(slices) => interval_nanos > 0 && schedule::is_schedule(
                    slices@,
                    groups(),
                    self.next_group() as int,
                    interval_nanos,
                    Self::rounds(interval_nanos),
                ),
                Err(error) => if interval_nanos == 0 {
                    error == (CollectorError::ZeroInterval { unit: "Haswell/Broadwell IRP" })
                } else {
                    error == CollectorError::Overflow && groups().len() * Self::rounds(
                        interval_nanos,
                    ) > usize::MAX
                },
            },
    {
        if interval_nanos == 0 {
            return Err(CollectorError::ZeroInterval { unit: "Haswell/Broadwell IRP" });
        }
        let group_count: usize = event_groups().len();
        let round_count: usize = schedule::dealt_round_count(interval_nanos, group_count);
        if group_count.checked_mul(round_count).is_none() {
            return Err(CollectorError::Overflow);
        }
        Ok(self.schedule(interval_nanos))
    }

    /// Freezes and resets the counters of all units and then selects the events of a group.
    pub fn program_writes(&self, group: HsxIrpEventGroup) -> (writes: Vec<RegisterWrite>)
        requires
            self.wf(),
        ensures
            writes@ == units::all_control_writes(self.units(), seq![self.words().freeze_and_reset])
                + units::all_program_writes(self.units(), control_words(group), 0),
    {
        let reset: Vec<u64> = vec![self.words.freeze_and_reset];
        assert(reset@ =~= seq![self.words().freeze_and_reset]);
        let mut writes: Vec<RegisterWrite> = units::write_controls(&self.packages, &reset);
        let mut events: Vec<RegisterWrite> = units::write_events(
            &self.packages,
            &group.controls(),
            0,
        );
        writes.append(&mut events);
        writes
    }

    /// Releases the counters of all units.
    pub fn unfreeze_writes(&self) -> (writes: Vec<RegisterWrite>)
        ensures
            writes@ == units::all_control_writes(self.units(), seq![self.words().unfreeze]),
    {
        let words: Vec<u64> = vec![self.words.unfreeze];
        assert(words@ =~= seq![self.words().unfreeze]);
        units::write_controls(&self.packages, &words)
    }

    /// Freezes the counters of all units.
    pub fn freeze_writes(&self) -> (writes: Vec<RegisterWrite>)
        ensures
            writes@ == units::all_control_writes(self.units(), seq![self.words().freeze]),
    {
        let words: Vec<u64> = vec![self.words.freeze];
        assert(words@ =~= seq![self.words().freeze]);
        units::write_controls(&self.packages, &words)
    }

    /// Shows that the units can be written: setting up the collector freezes them, and it cannot be
    /// used where one of these writes is refused.
    pub fn probe_writes(&self) -> (writes: Vec<RegisterWrite>)
        ensures
            writes@ == units::all_control_writes(self.units(), seq![self.words().freeze]),
    {
        self.freeze_writes()
    }

    /// Reads the counters of all units.
    pub fn reads(&self) -> (reads: Vec<RegisterRead>)
        requires
            self.wf(),
        ensures
            reads@ == units::all_reads(self.units(), units::every_counter(4)),
    {
        units::reads(&self.packages, &units::all_used(4))
    }

    /// Adds what a slice counted to the measurements, counter by counter.
    pub fn record(
        &self,
        group: HsxIrpEventGroup,
        readings: &SliceReadings,
        measurements: Accumulator<HsxUncoreScope, HsxIrpEventKind, EventMeasurement>,
    ) -> (
        result: Result<Accumulator<HsxUncoreScope, HsxIrpEventKind, EventMeasurement>, CollectorError>
    )
        requires
            measurements.wf(),
        ensures
            units::is_record_by_unit(
                self.units(),
                *readings,
                counter_kinds(group),
                measurements,
                result,
            ),
    {
        units::record_by_unit(&self.packages, readings, &group.kinds(), measurements)
    }

    /// Ends a sample: the next group goes first in the next one, and the measurements are
    /// reported.
    pub fn finish_sample(
        &mut self,
        measurements: &Accumulator<HsxUncoreScope, HsxIrpEventKind, EventMeasurement>,
    ) -> (result: Result<HsxIrpMetrics, CollectorError>)
        requires
            old(self).wf(),
            measurements.wf(),
        ensures
            final(self).wf(),
            final(self).next_group() == (old(self).next_group() + 1) % groups().len() as int,
            final(self).units() == old(self).units(),
            final(self).words() == old(self).words(),
            reported(measurements.rows(), result),
    {
        self.rotate_group();
        HsxIrpMetrics::from_measurements(measurements)
    }

    /// A collector for given units.
    pub fn from_units(words: PmonWords, packages: Vec<Unit<HsxUncoreScope>>) -> (collector: Self)
        requires
            units::units_have(packages@, 4),
        ensures
            collector.wf(),
            collector.units() == packages@,
            collector.next_group() == 0,
            collector.words() == words,
    {
        HsxIrpCollector { packages, next_group: 0, words }
    }

    /// The words that the units take in their control registers.
    pub closed spec fn words(self) -> PmonWords {
        self.words
    }

    /// A collector for the processor.
    pub fn new(
        architecture: &Architecture,
        words: PmonWords,
        locations: &Vec<SocketLocation>,
    ) -> (result: Result<Self, CollectorError>)
        requires
            architecture.server_model() is Some,
        ensures
            created(*architecture, words, locations@, result),
    {
        let model = architecture.intel_server_model();
        if !hsx::belongs(model) {
            return Err(CollectorError::Unsupported { unit: "Haswell/Broadwell IRP", model });
        }
        let mut packages: Vec<Unit<HsxUncoreScope>> = Vec::new();
        let mut i: usize = 0;
        while i < locations.len()
            invariant
                i <= locations@.len(),
                packages@.len() == i,
                forall|k: int| 0 <= k < i ==> is_package(#[trigger] packages@[k], locations@[k]),
            decreases locations@.len() - i,
        {
            packages.push(package(locations[i]));
            i += 1;
        }
        Ok(HsxIrpCollector { packages, next_group: 0, words })
    }
}

/// The families that are registered, in this order.
pub open spec fn families() -> Seq<MetricDescriptor> {
    seq![
        MetricDescriptor {
            name: "ocellus_irp_clflush_bytes_per_second",
            help: "Interval-derived IRP CLFlush bandwidth in bytes per second",
        },
        MetricDescriptor {
            name: "ocellus_irp_core_read_bytes_per_second",
            help: "Interval-derived IRP core read bandwidth in bytes per second",
        },
        MetricDescriptor {
            name: "ocellus_irp_demand_read_bytes_per_second",
            help: "Interval-derived IRP demand read bandwidth in bytes per second",
        },
        MetricDescriptor {
            name: "ocellus_irp_frequency_hz",
            help: "Interval-derived IRP clock frequency in hertz",
        },
        MetricDescriptor {
            name: "ocellus_irp_io_write_conflict_ratio",
            help: "Interval-derived IRP I/O write conflict ratio from lost forwards over PCIe inbound writes",
        },
        MetricDescriptor {
            name: "ocellus_irp_pci_dca_hint_bytes_per_second",
            help: "Interval-derived IRP PCI DCA hint bandwidth in bytes per second",
        },
        MetricDescriptor {
            name: "ocellus_irp_pci_itom_bytes_per_second",
            help: "Interval-derived IRP PCI ItoM bandwidth in bytes per second",
        },
        MetricDescriptor {
            name: "ocellus_irp_pcie_inbound_reads_per_second",
            help: "Interval-derived IRP PCIe inbound reads per second",
        },
        MetricDescriptor {
            name: "ocellus_irp_pcie_inbound_writes_per_second",
            help: "Interval-derived IRP PCIe inbound writes per second",
        },
        MetricDescriptor {
            name: "ocellus_irp_pcie_read_current_bytes_per_second",
            help: "Interval-derived IRP PCIe read current bandwidth in bytes per second",
        },
        MetricDescriptor {
            name: "ocellus_irp_read_for_ownership_bytes_per_second",
            help: "Interval-derived IRP RFO bandwidth in bytes per second",
        },
        MetricDescriptor {
            name: "ocellus_irp_total_occupancy_entries",
            help: "Average total IRP read and write occupancy in entries",
        },
        MetricDescriptor {
            name: "ocellus_irp_wbmtoi_bytes_per_second",
            help: "Interval-derived IRP WbMtoI bandwidth in bytes per second",
        },
    ]
}

/// The metrics that are set for a scope, in this order.
pub open spec fn scope_updates(metrics: HsxIrpScopeMetrics) -> Seq<GaugeUpdate> {
    let labels = export::of_package(metrics.scope.package_id);
    seq![
        GaugeUpdate {
            family: "ocellus_irp_clflush_bytes_per_second",
            labels,
            value: metrics.clflush_bytes_per_second,
        },
        GaugeUpdate {
            family: "ocellus_irp_core_read_bytes_per_second",
            labels,
            value: metrics.core_read_bytes_per_second,
        },
        GaugeUpdate {
            family: "ocellus_irp_demand_read_bytes_per_second",
            labels,
            value: metrics.demand_read_bytes_per_second,
        },
        GaugeUpdate { family: "ocellus_irp_frequency_hz", labels, value: metrics.frequency_hz },
        GaugeUpdate {
            family: "ocellus_irp_io_write_conflict_ratio",
            labels,
            value: metrics.io_write_conflict_ratio,
        },
        GaugeUpdate {
            family: "ocellus_irp_pci_dca_hint_bytes_per_second",
            labels,
            value: metrics.pci_dca_hint_bytes_per_second,
        },
        GaugeUpdate {
            family: "ocellus_irp_pci_itom_bytes_per_second",
            labels,
            value: metrics.pci_itom_bytes_per_second,
        },
        GaugeUpdate {
            family: "ocellus_irp_pcie_inbound_reads_per_second",
            labels,
            value: metrics.pcie_inbound_reads_per_second,
        },
        GaugeUpdate {
            family: "ocellus_irp_pcie_inbound_writes_per_second",
            labels,
            value: metrics.pcie_inbound_writes_per_second,
        },
        GaugeUpdate {
            family: "ocellus_irp_pcie_read_current_bytes_per_second",
            labels,
            value: metrics.pcie_read_current_bytes_per_second,
        },
        GaugeUpdate {
            family: "ocellus_irp_read_for_ownership_bytes_per_second",
            labels,
            value: metrics.read_for_ownership_bytes_per_second,
        },
        GaugeUpdate {
            family: "ocellus_irp_total_occupancy_entries",
            labels,
            value: metrics.total_irp_occupancy_entries,
        },
        GaugeUpdate {
            family: "ocellus_irp_wbmtoi_bytes_per_second",
            labels,
            value: metrics.wbmtoi_bytes_per_second,
        },
    ]
}

/// The metrics that are set for all of them, one after the other.
pub open spec fn all_updates(metrics: HsxIrpMetrics) -> Seq<GaugeUpdate> {
    seqs::flat_map(metrics.scopes@, |metrics: HsxIrpScopeMetrics| scope_updates(metrics))
}

/// The metric families of the I/O ring ports of a processor.
#[derive(Clone, Copy, Debug)]
pub struct HsxIrpPrometheusMetrics;

impl HsxIrpPrometheusMetrics {
    /// The families to be registered.
    pub fn register() -> (families: Vec<MetricDescriptor>)
        ensures
            families@ == self::families(),
    {
        vec![
            MetricDescriptor {
                name: "ocellus_irp_clflush_bytes_per_second",
                help: "Interval-derived IRP CLFlush bandwidth in bytes per second",
            },
            MetricDescriptor {
                name: "ocellus_irp_core_read_bytes_per_second",
                help: "Interval-derived IRP core read bandwidth in bytes per second",
            },
            MetricDescriptor {
                name: "ocellus_irp_demand_read_bytes_per_second",
                help: "Interval-derived IRP demand read bandwidth in bytes per second",
            },
            MetricDescriptor {
                name: "ocellus_irp_frequency_hz",
                help: "Interval-derived IRP clock frequency in hertz",
            },
            MetricDescriptor {
                name: "ocellus_irp_io_write_conflict_ratio",
                help: "Interval-derived IRP I/O write conflict ratio from lost forwards over PCIe inbound writes",
            },
            MetricDescriptor {
                name: "ocellus_irp_pci_dca_hint_bytes_per_second",
                help: "Interval-derived IRP PCI DCA hint bandwidth in bytes per second",
            },
            MetricDescriptor {
                name: "ocellus_irp_pci_itom_bytes_per_second",
                help: "Interval-derived IRP PCI ItoM bandwidth in bytes per second",
            },
            MetricDescriptor {
                name: "ocellus_irp_pcie_inbound_reads_per_second",
                help: "Interval-derived IRP PCIe inbound reads per second",
            },
            MetricDescriptor {
                name: "ocellus_irp_pcie_inbound_writes_per_second",
                help: "Interval-derived IRP PCIe inbound writes per second",
            },
            MetricDescriptor {
                name: "ocellus_irp_pcie_read_current_bytes_per_second",
                help: "Interval-derived IRP PCIe read current bandwidth in bytes per second",
            },
            MetricDescriptor {
                name: "ocellus_irp_read_for_ownership_bytes_per_second",
                help: "Interval-derived IRP RFO bandwidth in bytes per second",
            },
            MetricDescriptor {
                name: "ocellus_irp_total_occupancy_entries",
                help: "Average total IRP read and write occupancy in entries",
            },
            MetricDescriptor {
                name: "ocellus_irp_wbmtoi_bytes_per_second",
                help: "Interval-derived IRP WbMtoI bandwidth in bytes per second",
            },
        ]
    }

    /// The metrics to be set.
    pub fn update(&self, metrics: &HsxIrpMetrics) -> (updates: Vec<GaugeUpdate>)
        ensures
            updates@ == all_updates(*metrics),
    {
        let ghost f = |metrics: HsxIrpScopeMetrics| scope_updates(metrics);
        let mut updates: Vec<GaugeUpdate> = Vec::new();
        let mut i: usize = 0;
        proof {
            seqs::lemma_flat_map_ends(metrics.scopes@, f);
        }
        while i < metrics.scopes.len()
            invariant
                i <= metrics.scopes@.len(),
                f == (|metrics: HsxIrpScopeMetrics| scope_updates(metrics)),
                updates@ == seqs::flat_map(metrics.scopes@.take(i as int), f),
            decreases metrics.scopes@.len() - i,
        {
            let scope = &metrics.scopes[i];
            let labels = Labels::package(scope.scope.package_id);
            let ghost before = updates@;
            updates.push(
                GaugeUpdate {
                    family: "ocellus_irp_clflush_bytes_per_second",
                    labels,
                    value: scope.clflush_bytes_per_second,
                },
            );
            updates.push(
                GaugeUpdate {
                    family: "ocellus_irp_core_read_bytes_per_second",
                    labels,
                    value: scope.core_read_bytes_per_second,
                },
            );
            updates.push(
                GaugeUpdate {
                    family: "ocellus_irp_demand_read_bytes_per_second",
                    labels,
                    value: scope.demand_read_bytes_per_second,
                },
            );
            updates.push(
                GaugeUpdate {
                    family: "ocellus_irp_frequency_hz",
                    labels,
                    value: scope.frequency_hz,
                },
            );
            updates.push(
                GaugeUpdate {
                    family: "ocellus_irp_io_write_conflict_ratio",
                    labels,
                    value: scope.io_write_conflict_ratio,
                },
            );
            updates.push(
                GaugeUpdate {
                    family: "ocellus_irp_pci_dca_hint_bytes_per_second",
                    labels,
                    value: scope.pci_dca_hint_bytes_per_second,
                },
            );
            updates.push(
                GaugeUpdate {
                    family: "ocellus_irp_pci_itom_bytes_per_second",
                    labels,
                    value: scope.pci_itom_bytes_per_second,
                },
            );
            updates.push(
                GaugeUpdate {
                    family: "ocellus_irp_pcie_inbound_reads_per_second",
                    labels,
                    value: scope.pcie_inbound_reads_per_second,
                },
            );
            updates.push(
                GaugeUpdate {
                    family: "ocellus_irp_pcie_inbound_writes_per_second",
                    labels,
                    value: scope.pcie_inbound_writes_per_second,
                },
            );
            updates.push(
                GaugeUpdate {
                    family: "ocellus_irp_pcie_read_current_bytes_per_second",
                    labels,
                    value: scope.pcie_read_current_bytes_per_second,
                },
            );
            updates.push(
                GaugeUpdate {
                    family: "ocellus_irp_read_for_ownership_bytes_per_second",
                    labels,
                    value: scope.read_for_ownership_bytes_per_second,
                },
            );
            updates.push(
                GaugeUpdate {
                    family: "ocellus_irp_total_occupancy_entries",
                    labels,
                    value: scope.total_irp_occupancy_entries,
                },
            );
            updates.push(
                GaugeUpdate {
                    family: "ocellus_irp_wbmtoi_bytes_per_second",
                    labels,
                    value: scope.wbmtoi_bytes_per_second,
                },
            );
            proof {
                assert(updates@ =~= before + scope_updates(*scope));
                seqs::lemma_flat_map_step(metrics.scopes@, f, i as int);
            }
            i += 1;
        }
        proof {
            seqs::lemma_flat_map_ends(metrics.scopes@, f);
        }
        updates
    }
}

/// Every metric that is set belongs to a family that is registered.
pub proof fn updates_are_registered(metrics: HsxIrpMetrics)
    ensures
        export::all_registered(all_updates(metrics), families()),
{
    let descriptors = families();
    let scopes = metrics.scopes@;
    let f = |metrics: HsxIrpScopeMetrics| scope_updates(metrics);
    assert forall|k: int| 0 <= k < scopes.len() implies export::all_registered(
        f(#[trigger] scopes[k]),
        descriptors,
    ) by {
        let updates = f(scopes[k]);
        assert forall|i: int| 0 <= i < updates.len() implies export::is_registered(
            #[trigger] updates[i],
            descriptors,
        ) by {
            assert(descriptors[0].name == updates[0].family);
            assert(descriptors[1].name == updates[1].family);
            assert(descriptors[2].name == updates[2].family);
            assert(descriptors[3].name == updates[3].family);
            assert(descriptors[4].name == updates[4].family);
            assert(descriptors[5].name == updates[5].family);
            assert(descriptors[6].name == updates[6].family);
            assert(descriptors[7].name == updates[7].family);
            assert(descriptors[8].name == updates[8].family);
            assert(descriptors[9].name == updates[9].family);
            assert(descriptors[10].name == updates[10].family);
            assert(descriptors[11].name == updates[11].family);
            assert(descriptors[12].name == updates[12].family);
        }
    }
    export::lemma_all_registered(scopes, f, descriptors);
}

/// A sample that ran all of its slices is reported: no event that a report needs is missing, and
/// every scope that has units is in it.
#[verifier::spinoff_prover]
pub proof fn complete_sample_is_reported(
    collector: HsxIrpCollector,
    interval_nanos: u128,
    slices: Seq<Slice<HsxIrpEventGroup>>,
    readings: Seq<SliceReadings>,
    steps: Seq<Accumulator<HsxUncoreScope, HsxIrpEventKind, EventMeasurement>>,
    result: Result<HsxIrpMetrics, CollectorError>,
)
    requires
        collector.wf(),
        schedule::is_schedule(
            slices,
            groups(),
            collector.next_group() as int,
            interval_nanos,
            HsxIrpCollector::rounds(interval_nanos),
        ),
        steps.len() == slices.len() + 1,
        steps.last().wf(),
        steps[0].grid() == Map::<HsxUncoreScope, Map<HsxIrpEventKind, EventMeasurement>>::empty(),
        forall|i: int|
            0 <= i < slices.len() ==> units::is_record_by_unit(
                collector.units(),
                readings[i],
                counter_kinds((#[trigger] slices[i]).group),
                steps[i],
                Ok::<Accumulator<HsxUncoreScope, HsxIrpEventKind, EventMeasurement>, CollectorError>(steps[i + 1]),
            ),
        reported(steps.last().rows(), result),
    ensures
        result is Ok,
        forall|scope: HsxUncoreScope|
            steps.last().grid().contains_key(scope) <==> #[trigger] units::has_scope(
                collector.units(),
                scope,
            ),
{
    let grids = steps.map_values(
        |step: Accumulator<HsxUncoreScope, HsxIrpEventKind, EventMeasurement>| step.grid(),
    );
    let scopes = |scope: HsxUncoreScope| units::has_scope(collector.units(), scope);
    let counted = |i: int, kind: HsxIrpEventKind| completeness::occurs_in(
        counter_kinds(slices[i].group),
        kind,
    );
    schedule::rounds_are_positive(interval_nanos as nat, groups().len());
    assert forall|i: int| 0 <= i < grids.len() - 1 implies completeness::extends(
        #[trigger] grids[i],
        grids[i + 1],
        scopes,
        |kind: HsxIrpEventKind| counted(i, kind),
    ) by {
        completeness::record_by_unit_extends(
            collector.units(),
            readings[i],
            counter_kinds(slices[i].group),
            steps[i],
            steps[i + 1],
        );
    }
    assert forall|e: int| 0 <= e < required_events().len() implies exists|i: int|
        0 <= i < grids.len() - 1 && #[trigger] counted(i, #[trigger] required_events()[e]) by {
        let group: int = if e == 2 || e == 3 || e == 9 || e == 10 {
            0
        } else if e == 0 || e == 5 || e == 6 || e == 12 {
            1
        } else if e == 4 || e == 7 || e == 8 || e == 11 {
            2
        } else {
            3
        };
        let i = completeness::schedule_runs_group(
            slices,
            groups(),
            collector.next_group() as int,
            interval_nanos,
            HsxIrpCollector::rounds(interval_nanos),
            group,
        );
        assert(counter_kinds(groups()[1])[3] == Some(HsxIrpEventKind::ClFlush));
        assert(counter_kinds(groups()[3])[0] == Some(HsxIrpEventKind::Clockticks));
        assert(counter_kinds(groups()[0])[1] == Some(HsxIrpEventKind::CoreRead));
        assert(counter_kinds(groups()[0])[2] == Some(HsxIrpEventKind::DemandRead));
        assert(counter_kinds(groups()[2])[3] == Some(HsxIrpEventKind::LostFwd));
        assert(counter_kinds(groups()[1])[1] == Some(HsxIrpEventKind::PciDcaHint));
        assert(counter_kinds(groups()[1])[0] == Some(HsxIrpEventKind::PciItoM));
        assert(counter_kinds(groups()[2])[1] == Some(HsxIrpEventKind::PcieInboundReads));
        assert(counter_kinds(groups()[2])[2] == Some(HsxIrpEventKind::PcieInboundWrites));
        assert(counter_kinds(groups()[0])[0] == Some(HsxIrpEventKind::PcieReadCurrent));
        assert(counter_kinds(groups()[0])[3] == Some(HsxIrpEventKind::ReadForOwnership));
        assert(counter_kinds(groups()[2])[0] == Some(HsxIrpEventKind::TotalIrpOccupancy));
        assert(counter_kinds(groups()[1])[2] == Some(HsxIrpEventKind::WbMtoI));
        assert(counted(i, required_events()[e]));
    }
    completeness::complete_course_has_no_gap(
        steps.last(),
        grids,
        scopes,
        counted,
        required_events(),
    );
    assert forall|scope: HsxUncoreScope|
        steps.last().grid().contains_key(scope) <==> #[trigger] units::has_scope(
            collector.units(),
            scope,
        ) by {
        assert(scopes(scope) == units::has_scope(collector.units(), scope));
    }
}

} // verus!
