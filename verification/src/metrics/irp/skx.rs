//! The I/O ring ports of Skylake and Cascade Lake processors.
use crate::accumulator::{self, Accumulator, EventKind, EventMeasurement};
use crate::arch::{Architecture, IntelServerCpuModel};
use crate::completeness;
use crate::error::CollectorError;
use crate::export::{self, GaugeUpdate, Labels, MetricDescriptor};
use crate::ordered_map::Key;
use crate::quantity::{self, Quantity};
use crate::registers::{self, PmonWords, Register, RegisterRead, RegisterWrite, Width};
use crate::schedule::{self, Slice};
use crate::seqs;
use crate::topology::{self, CpuTopology, Leader, UncoreScope};
use crate::units::{self, SliceReadings, Unit};
use vstd::prelude::*;

verus! {

/// The first counter of the first unit.
pub const COUNTER_BASE: u64 = 0x0a59;

/// The first event selection of the first unit.
pub const CONTROL_BASE: u64 = 0x0a5b;

/// The unit control register of the first unit.
pub const UNIT_CONTROL_BASE: u64 = 0x0a58;

/// The distance between the registers of two units.
pub const UNIT_STRIDE: u64 = 0x20;

/// What is counted in an I/O ring port.
#[derive(Clone, Copy, Debug, PartialEq, Eq, Structural)]
pub enum IrpEventKind {
    ClFlush,
    Clockticks,
    CoreRead,
    DemandRead,
    FafOccupancy,
    PciDcaHint,
    PciItoM,
    PcieReadCurrent,
    ReadForOwnership,
    TotalIrpOccupancy,
    WbMtoI,
    WriteInserts,
}

/// The place of an event in the order of the events.
pub open spec fn event_index(kind: IrpEventKind) -> int {
    match kind {
        IrpEventKind::ClFlush => 0,
        IrpEventKind::Clockticks => 1,
        IrpEventKind::CoreRead => 2,
        IrpEventKind::DemandRead => 3,
        IrpEventKind::FafOccupancy => 4,
        IrpEventKind::PciDcaHint => 5,
        IrpEventKind::PciItoM => 6,
        IrpEventKind::PcieReadCurrent => 7,
        IrpEventKind::ReadForOwnership => 8,
        IrpEventKind::TotalIrpOccupancy => 9,
        IrpEventKind::WbMtoI => 10,
        IrpEventKind::WriteInserts => 11,
    }
}

/// The name of an event, as it is shown in an error.
pub open spec fn event_name(kind: IrpEventKind) -> &'static str {
    match kind {
        IrpEventKind::ClFlush => "ClFlush",
        IrpEventKind::Clockticks => "Clockticks",
        IrpEventKind::CoreRead => "CoreRead",
        IrpEventKind::DemandRead => "DemandRead",
        IrpEventKind::FafOccupancy => "FafOccupancy",
        IrpEventKind::PciDcaHint => "PciDcaHint",
        IrpEventKind::PciItoM => "PciItoM",
        IrpEventKind::PcieReadCurrent => "PcieReadCurrent",
        IrpEventKind::ReadForOwnership => "ReadForOwnership",
        IrpEventKind::TotalIrpOccupancy => "TotalIrpOccupancy",
        IrpEventKind::WbMtoI => "WbMtoI",
        IrpEventKind::WriteInserts => "WriteInserts",
    }
}

impl IrpEventKind {
    fn index(self) -> (index: u8)
        ensures
            index == event_index(self),
    {
        match self {
            IrpEventKind::ClFlush => 0,
            IrpEventKind::Clockticks => 1,
            IrpEventKind::CoreRead => 2,
            IrpEventKind::DemandRead => 3,
            IrpEventKind::FafOccupancy => 4,
            IrpEventKind::PciDcaHint => 5,
            IrpEventKind::PciItoM => 6,
            IrpEventKind::PcieReadCurrent => 7,
            IrpEventKind::ReadForOwnership => 8,
            IrpEventKind::TotalIrpOccupancy => 9,
            IrpEventKind::WbMtoI => 10,
            IrpEventKind::WriteInserts => 11,
        }
    }

    /// The name of the event, as it is shown in an error.
    pub fn name(self) -> (name: &'static str)
        ensures
            name == event_name(self),
    {
        match self {
            IrpEventKind::ClFlush => "ClFlush",
            IrpEventKind::Clockticks => "Clockticks",
            IrpEventKind::CoreRead => "CoreRead",
            IrpEventKind::DemandRead => "DemandRead",
            IrpEventKind::FafOccupancy => "FafOccupancy",
            IrpEventKind::PciDcaHint => "PciDcaHint",
            IrpEventKind::PciItoM => "PciItoM",
            IrpEventKind::PcieReadCurrent => "PcieReadCurrent",
            IrpEventKind::ReadForOwnership => "ReadForOwnership",
            IrpEventKind::TotalIrpOccupancy => "TotalIrpOccupancy",
            IrpEventKind::WbMtoI => "WbMtoI",
            IrpEventKind::WriteInserts => "WriteInserts",
        }
    }
}

impl Key for IrpEventKind {
    open spec fn rank(self) -> int {
        event_index(self)
    }

    proof fn rank_injective(a: Self, b: Self) {
    }

    fn precedes(&self, other: &Self) -> (result: bool) {
        self.index() < other.index()
    }
}

impl EventKind for IrpEventKind {
    open spec fn is_counted(self) -> bool {
        true
    }

    fn counts(&self) -> (result: bool) {
        true
    }
}

/// An event that a counter can count.
#[derive(Clone, Copy, Debug, PartialEq, Eq, Structural)]
pub struct IrpEventSpec {
    pub event: u8,
    pub kind: IrpEventKind,
    pub umask: u8,
}

/// An event of which the counts are summed.
pub open spec fn sum_of(kind: IrpEventKind, event: u8, umask: u8) -> IrpEventSpec {
    IrpEventSpec { event, kind, umask }
}

impl IrpEventSpec {
    /// An event of which the counts are summed.
    pub fn sum(kind: IrpEventKind, event: u8, umask: u8) -> (spec: Self)
        ensures
            spec == sum_of(kind, event, umask),
    {
        IrpEventSpec { event, kind, umask }
    }
}

/// The events that the counters of a unit count at the same time.
#[derive(Clone, Copy, Debug, PartialEq, Eq)]
pub struct IrpEventGroup {
    pub events: [IrpEventSpec; 2],
}

/// What a counter counts.
pub open spec fn kind_of(event: IrpEventSpec) -> Option<IrpEventKind> {
    Some(event.kind)
}

/// The control word of an event: event number, unit mask, reset, overflow and enable bits.
pub open spec fn control_word(event: IrpEventSpec) -> u64 {
    (event.event + event.umask * 0x100 + registers::COUNT_AND_REPORT_OVERFLOW) as u64
}

/// What each counter counts while a group is programmed.
pub open spec fn counter_kinds(group: IrpEventGroup) -> Seq<Option<IrpEventKind>> {
    group.events@.map_values(|event: IrpEventSpec| kind_of(event))
}

/// The control words of the counters while a group is programmed.
pub open spec fn control_words(group: IrpEventGroup) -> Seq<Option<u64>> {
    group.events@.map_values(|event: IrpEventSpec| Some(control_word(event)))
}

fn counted_kind(event: IrpEventSpec) -> (kind: Option<IrpEventKind>)
    ensures
        kind == kind_of(event),
{
    Some(event.kind)
}

/// The control word of an event.
pub fn counter_control(event: IrpEventSpec) -> (word: u64)
    ensures
        word == control_word(event),
{
    registers::select_word(event.event, event.umask, registers::COUNT_AND_REPORT_OVERFLOW)
}

impl IrpEventGroup {
    /// The events, counter by counter.
    pub fn events(self) -> (events: [IrpEventSpec; 2])
        ensures
            events == self.events,
    {
        self.events
    }

    /// What each counter counts.
    pub fn kinds(&self) -> (kinds: Vec<Option<IrpEventKind>>)
        ensures
            kinds@ == counter_kinds(*self),
    {
        let kinds: Vec<Option<IrpEventKind>> = vec![
            counted_kind(self.events[0]),
            counted_kind(self.events[1]),
        ];
        assert(kinds@ =~= counter_kinds(*self));
        kinds
    }

    /// The control words of the counters.
    pub fn controls(&self) -> (words: Vec<Option<u64>>)
        ensures
            words@ == control_words(*self),
    {
        let words: Vec<Option<u64>> = vec![
            Some(counter_control(self.events[0])),
            Some(counter_control(self.events[1])),
        ];
        assert(words@ =~= control_words(*self));
        words
    }
}

/// The event groups, in the order in which they take turns.
pub open spec fn groups() -> Seq<IrpEventGroup> {
    seq![
        IrpEventGroup {
            events: [
                sum_of(IrpEventKind::PcieReadCurrent, 0x10, 0x01),
                sum_of(IrpEventKind::CoreRead, 0x10, 0x02),
            ],
        },
        IrpEventGroup {
            events: [
                sum_of(IrpEventKind::DemandRead, 0x10, 0x04),
                sum_of(IrpEventKind::ReadForOwnership, 0x10, 0x08),
            ],
        },
        IrpEventGroup {
            events: [
                sum_of(IrpEventKind::PciItoM, 0x10, 0x10),
                sum_of(IrpEventKind::PciDcaHint, 0x10, 0x20),
            ],
        },
        IrpEventGroup {
            events: [
                sum_of(IrpEventKind::WbMtoI, 0x10, 0x40),
                sum_of(IrpEventKind::ClFlush, 0x10, 0x80),
            ],
        },
        IrpEventGroup {
            events: [
                sum_of(IrpEventKind::TotalIrpOccupancy, 0x0f, 0x04),
                sum_of(IrpEventKind::FafOccupancy, 0x19, 0x00),
            ],
        },
        IrpEventGroup {
            events: [
                sum_of(IrpEventKind::WriteInserts, 0x11, 0x08),
                sum_of(IrpEventKind::Clockticks, 0x01, 0x00),
            ],
        },
    ]
}

/// The event groups, in the order in which they take turns.
pub fn event_groups() -> (table: Vec<IrpEventGroup>)
    ensures
        table@ == groups(),
{
    vec![
        IrpEventGroup {
            events: [
                IrpEventSpec::sum(IrpEventKind::PcieReadCurrent, 0x10, 0x01),
                IrpEventSpec::sum(IrpEventKind::CoreRead, 0x10, 0x02),
            ],
        },
        IrpEventGroup {
            events: [
                IrpEventSpec::sum(IrpEventKind::DemandRead, 0x10, 0x04),
                IrpEventSpec::sum(IrpEventKind::ReadForOwnership, 0x10, 0x08),
            ],
        },
        IrpEventGroup {
            events: [
                IrpEventSpec::sum(IrpEventKind::PciItoM, 0x10, 0x10),
                IrpEventSpec::sum(IrpEventKind::PciDcaHint, 0x10, 0x20),
            ],
        },
        IrpEventGroup {
            events: [
                IrpEventSpec::sum(IrpEventKind::WbMtoI, 0x10, 0x40),
                IrpEventSpec::sum(IrpEventKind::ClFlush, 0x10, 0x80),
            ],
        },
        IrpEventGroup {
            events: [
                IrpEventSpec::sum(IrpEventKind::TotalIrpOccupancy, 0x0f, 0x04),
                IrpEventSpec::sum(IrpEventKind::FafOccupancy, 0x19, 0x00),
            ],
        },
        IrpEventGroup {
            events: [
                IrpEventSpec::sum(IrpEventKind::WriteInserts, 0x11, 0x08),
                IrpEventSpec::sum(IrpEventKind::Clockticks, 0x01, 0x00),
            ],
        },
    ]
}

/// The stacks of a die.
#[derive(Clone, Copy, Debug, PartialEq, Eq, Structural)]
pub enum SkxIioStack {
    CbdmaDmi,
    Pcie0,
    Pcie1,
    Pcie2,
    Mcp0,
    Mcp1,
}

/// The number of a stack.
pub open spec fn stack_index(stack: SkxIioStack) -> int {
    match stack {
        SkxIioStack::CbdmaDmi => 0,
        SkxIioStack::Pcie0 => 1,
        SkxIioStack::Pcie1 => 2,
        SkxIioStack::Pcie2 => 3,
        SkxIioStack::Mcp0 => 4,
        SkxIioStack::Mcp1 => 5,
    }
}

/// The label of a stack.
pub open spec fn stack_label(stack: SkxIioStack) -> &'static str {
    match stack {
        SkxIioStack::CbdmaDmi => "cbdma_dmi",
        SkxIioStack::Pcie0 => "pcie0",
        SkxIioStack::Pcie1 => "pcie1",
        SkxIioStack::Pcie2 => "pcie2",
        SkxIioStack::Mcp0 => "mcp0",
        SkxIioStack::Mcp1 => "mcp1",
    }
}

/// All stacks, in the order of their numbers.
pub open spec fn all_stacks() -> Seq<SkxIioStack> {
    seq![
        SkxIioStack::CbdmaDmi,
        SkxIioStack::Pcie0,
        SkxIioStack::Pcie1,
        SkxIioStack::Pcie2,
        SkxIioStack::Mcp0,
        SkxIioStack::Mcp1,
    ]
}

impl SkxIioStack {
    /// All stacks, in the order of their numbers.
    pub fn all() -> (stacks: Vec<Self>)
        ensures
            stacks@ == all_stacks(),
    {
        vec![
            SkxIioStack::CbdmaDmi,
            SkxIioStack::Pcie0,
            SkxIioStack::Pcie1,
            SkxIioStack::Pcie2,
            SkxIioStack::Mcp0,
            SkxIioStack::Mcp1,
        ]
    }

    /// The number of the stack.
    pub fn id(self) -> (id: usize)
        ensures
            id == stack_index(self),
            id < 6,
    {
        match self {
            SkxIioStack::CbdmaDmi => 0,
            SkxIioStack::Pcie0 => 1,
            SkxIioStack::Pcie1 => 2,
            SkxIioStack::Pcie2 => 3,
            SkxIioStack::Mcp0 => 4,
            SkxIioStack::Mcp1 => 5,
        }
    }

    /// The label of the stack.
    pub fn label(self) -> (label: &'static str)
        ensures
            label == stack_label(self),
    {
        match self {
            SkxIioStack::CbdmaDmi => "cbdma_dmi",
            SkxIioStack::Pcie0 => "pcie0",
            SkxIioStack::Pcie1 => "pcie1",
            SkxIioStack::Pcie2 => "pcie2",
            SkxIioStack::Mcp0 => "mcp0",
            SkxIioStack::Mcp1 => "mcp1",
        }
    }
}

fn irp_unit_offset(base: u64, stack: SkxIioStack) -> (offset: u64)
    requires
        base <= 0x1_0000,
    ensures
        offset == base + UNIT_STRIDE * stack_index(stack),
{
    base + UNIT_STRIDE * stack.id() as u64
}

/// The register that selects the event of a counter.
pub fn irp_control_offset(stack: SkxIioStack, counter_index: usize) -> (offset: u64)
    requires
        CONTROL_BASE + UNIT_STRIDE * stack_index(stack) + counter_index <= u64::MAX,
    ensures
        offset == CONTROL_BASE + UNIT_STRIDE * stack_index(stack) + counter_index,
{
    irp_unit_offset(CONTROL_BASE, stack) + counter_index as u64
}

/// The register of a counter.
pub fn irp_counter_offset(stack: SkxIioStack, counter_index: usize) -> (offset: u64)
    requires
        COUNTER_BASE + UNIT_STRIDE * stack_index(stack) + counter_index <= u64::MAX,
    ensures
        offset == COUNTER_BASE + UNIT_STRIDE * stack_index(stack) + counter_index,
{
    irp_unit_offset(COUNTER_BASE, stack) + counter_index as u64
}

/// The register that freezes, resets and releases the counters of a stack.
pub fn irp_unit_control_offset(stack: SkxIioStack) -> (offset: u64)
    ensures
        offset == UNIT_CONTROL_BASE + UNIT_STRIDE * stack_index(stack),
{
    irp_unit_offset(UNIT_CONTROL_BASE, stack)
}

/// A stack of a die.
#[derive(Clone, Copy, Debug, PartialEq, Eq, Structural)]
pub struct IrpStackScope {
    pub scope: UncoreScope,
    pub stack: SkxIioStack,
}

impl Key for IrpStackScope {
    open spec fn rank(self) -> int {
        self.scope.rank() * 0x10 + stack_index(self.stack)
    }

    proof fn rank_injective(a: Self, b: Self) {
        assert(a.scope.rank() == b.scope.rank());
        UncoreScope::rank_injective(a.scope, b.scope);
    }

    fn precedes(&self, other: &Self) -> (result: bool) {
        if self.scope.precedes(&other.scope) {
            true
        } else if other.scope.precedes(&self.scope) {
            false
        } else {
            self.stack.id() < other.stack.id()
        }
    }
}

/// What is reported for a stack.
#[derive(Clone, Copy, Debug)]
pub struct IrpScopeMetrics {
    pub scope: UncoreScope,
    pub stack: SkxIioStack,
    pub clflush_bytes_per_second: Quantity,
    pub core_read_bytes_per_second: Quantity,
    pub demand_read_bytes_per_second: Quantity,
    pub faf_occupancy_entries: Quantity,
    pub frequency_hz: Quantity,
    pub pci_dca_hint_bytes_per_second: Quantity,
    pub pci_itom_bytes_per_second: Quantity,
    pub pcie_read_current_bytes_per_second: Quantity,
    pub read_for_ownership_bytes_per_second: Quantity,
    pub total_irp_occupancy_entries: Quantity,
    pub wbmtoi_bytes_per_second: Quantity,
    pub write_inserts_per_second: Quantity,
    pub write_latency_seconds: Quantity,
}

/// The events that a report needs, in the order in which they are looked up.
pub open spec fn required_events() -> Seq<IrpEventKind> {
    seq![
        IrpEventKind::ClFlush,
        IrpEventKind::Clockticks,
        IrpEventKind::CoreRead,
        IrpEventKind::DemandRead,
        IrpEventKind::FafOccupancy,
        IrpEventKind::PciDcaHint,
        IrpEventKind::PciItoM,
        IrpEventKind::PcieReadCurrent,
        IrpEventKind::ReadForOwnership,
        IrpEventKind::TotalIrpOccupancy,
        IrpEventKind::WbMtoI,
        IrpEventKind::WriteInserts,
    ]
}

fn required_list() -> (kinds: Vec<IrpEventKind>)
    ensures
        kinds@ == required_events(),
{
    vec![
        IrpEventKind::ClFlush,
        IrpEventKind::Clockticks,
        IrpEventKind::CoreRead,
        IrpEventKind::DemandRead,
        IrpEventKind::FafOccupancy,
        IrpEventKind::PciDcaHint,
        IrpEventKind::PciItoM,
        IrpEventKind::PcieReadCurrent,
        IrpEventKind::ReadForOwnership,
        IrpEventKind::TotalIrpOccupancy,
        IrpEventKind::WbMtoI,
        IrpEventKind::WriteInserts,
    ]
}

/// What is reported for a scope.
pub open spec fn scope_metrics(
    scope: IrpStackScope,
    row: Map<IrpEventKind, EventMeasurement>,
) -> IrpScopeMetrics {
    let clflush = row[IrpEventKind::ClFlush];
    let clockticks = row[IrpEventKind::Clockticks];
    let core_read = row[IrpEventKind::CoreRead];
    let demand_read = row[IrpEventKind::DemandRead];
    let faf_occupancy = row[IrpEventKind::FafOccupancy];
    let pci_dca_hint = row[IrpEventKind::PciDcaHint];
    let pci_itom = row[IrpEventKind::PciItoM];
    let pcie_read_current = row[IrpEventKind::PcieReadCurrent];
    let read_for_ownership = row[IrpEventKind::ReadForOwnership];
    let total_irp_occupancy = row[IrpEventKind::TotalIrpOccupancy];
    let wbmtoi = row[IrpEventKind::WbMtoI];
    let write_inserts = row[IrpEventKind::WriteInserts];
    IrpScopeMetrics {
        scope: scope.scope,
        stack: scope.stack,
        clflush_bytes_per_second: quantity::line_rate_of(clflush),
        core_read_bytes_per_second: quantity::line_rate_of(core_read),
        demand_read_bytes_per_second: quantity::line_rate_of(demand_read),
        faf_occupancy_entries: quantity::scaled_ratio_of(faf_occupancy, clockticks),
        frequency_hz: quantity::count_frequency_of(clockticks),
        pci_dca_hint_bytes_per_second: quantity::line_rate_of(pci_dca_hint),
        pci_itom_bytes_per_second: quantity::line_rate_of(pci_itom),
        pcie_read_current_bytes_per_second: quantity::line_rate_of(pcie_read_current),
        read_for_ownership_bytes_per_second: quantity::line_rate_of(read_for_ownership),
        total_irp_occupancy_entries: quantity::scaled_ratio_of(total_irp_occupancy, clockticks),
        wbmtoi_bytes_per_second: quantity::line_rate_of(wbmtoi),
        write_inserts_per_second: quantity::event_rate_of(write_inserts),
        write_latency_seconds: quantity::write_residency_of(
            total_irp_occupancy,
            Some(faf_occupancy),
            write_inserts,
            clockticks,
        ),
    }
}

impl IrpScopeMetrics {
    fn from_measurements(
        measurements: &Accumulator<IrpStackScope, IrpEventKind, EventMeasurement>,
        index: usize,
    ) -> (metrics: Self)
        requires
            measurements.wf(),
            index < measurements.rows().len(),
            accumulator::first_gap(measurements.rows(), required_events()) is None,
        ensures
            metrics == scope_metrics(
                measurements.rows()[index as int].0,
                measurements.rows()[index as int].1,
            ),
    {
        proof {
            let rows = measurements.rows();
            assert forall|j: int| 0 <= j < required_events().len() implies rows[index as int].1.contains_key(
                #[trigger] required_events()[j],
            ) by {
                accumulator::lemma_no_gap(rows, required_events(), index as int, j);
            }
            assert(required_events()[0] == IrpEventKind::ClFlush);
            assert(required_events()[1] == IrpEventKind::Clockticks);
            assert(required_events()[2] == IrpEventKind::CoreRead);
            assert(required_events()[3] == IrpEventKind::DemandRead);
            assert(required_events()[4] == IrpEventKind::FafOccupancy);
            assert(required_events()[5] == IrpEventKind::PciDcaHint);
            assert(required_events()[6] == IrpEventKind::PciItoM);
            assert(required_events()[7] == IrpEventKind::PcieReadCurrent);
            assert(required_events()[8] == IrpEventKind::ReadForOwnership);
            assert(required_events()[9] == IrpEventKind::TotalIrpOccupancy);
            assert(required_events()[10] == IrpEventKind::WbMtoI);
            assert(required_events()[11] == IrpEventKind::WriteInserts);
        }
        let clflush = measurements.require(index, IrpEventKind::ClFlush);
        let clockticks = measurements.require(index, IrpEventKind::Clockticks);
        let core_read = measurements.require(index, IrpEventKind::CoreRead);
        let demand_read = measurements.require(index, IrpEventKind::DemandRead);
        let faf_occupancy = measurements.require(index, IrpEventKind::FafOccupancy);
        let pci_dca_hint = measurements.require(index, IrpEventKind::PciDcaHint);
        let pci_itom = measurements.require(index, IrpEventKind::PciItoM);
        let pcie_read_current = measurements.require(index, IrpEventKind::PcieReadCurrent);
        let read_for_ownership = measurements.require(index, IrpEventKind::ReadForOwnership);
        let total_irp_occupancy = measurements.require(index, IrpEventKind::TotalIrpOccupancy);
        let wbmtoi = measurements.require(index, IrpEventKind::WbMtoI);
        let write_inserts = measurements.require(index, IrpEventKind::WriteInserts);
        let scope = measurements.scope_at(index);
        IrpScopeMetrics {
            scope: scope.scope,
            stack: scope.stack,
            clflush_bytes_per_second: quantity::line_rate(clflush),
            core_read_bytes_per_second: quantity::line_rate(core_read),
            demand_read_bytes_per_second: quantity::line_rate(demand_read),
            faf_occupancy_entries: quantity::scaled_ratio(faf_occupancy, clockticks),
            frequency_hz: quantity::count_frequency(clockticks),
            pci_dca_hint_bytes_per_second: quantity::line_rate(pci_dca_hint),
            pci_itom_bytes_per_second: quantity::line_rate(pci_itom),
            pcie_read_current_bytes_per_second: quantity::line_rate(pcie_read_current),
            read_for_ownership_bytes_per_second: quantity::line_rate(read_for_ownership),
            total_irp_occupancy_entries: quantity::scaled_ratio(total_irp_occupancy, clockticks),
            wbmtoi_bytes_per_second: quantity::line_rate(wbmtoi),
            write_inserts_per_second: quantity::event_rate(write_inserts),
            write_latency_seconds: quantity::write_residency(
                total_irp_occupancy,
                Some(faf_occupancy),
                write_inserts,
                clockticks,
            ),
        }
    }
}

/// What is reported for all stacks.
#[derive(Debug)]
pub struct IrpMetrics {
    pub scopes: Vec<IrpScopeMetrics>,
}

/// Whether `result` is the report on measurements: one entry for each scope, in scope order, or
/// the first event that is needed and was not counted.
pub open spec fn reported(
    rows: Seq<(IrpStackScope, Map<IrpEventKind, EventMeasurement>)>,
    result: Result<IrpMetrics, CollectorError>,
) -> bool {
    match accumulator::first_gap(rows, required_events()) {
        Some(kind) => result matches Err(error) && error == (CollectorError::MissingMeasurement {
            unit: "IRP",
            event: event_name(kind),
        }),
        None => result matches Ok(metrics) && metrics.scopes@ == rows.map_values(
            |row: (IrpStackScope, Map<IrpEventKind, EventMeasurement>)| scope_metrics(row.0, row.1),
        ),
    }
}

impl IrpMetrics {
    /// Reports every scope, in scope order; an error where an event that is needed was not
    /// counted in some scope.
    pub fn from_measurements(
        measurements: &Accumulator<IrpStackScope, IrpEventKind, EventMeasurement>,
    ) -> (result: Result<Self, CollectorError>)
        requires
            measurements.wf(),
        ensures
            reported(measurements.rows(), result),
    {
        match measurements.find_gap(&required_list()) {
            Some(kind) => Err(
                CollectorError::MissingMeasurement { unit: "IRP", event: kind.name() },
            ),
            None => {
                let ghost rows = measurements.rows();
                let mut scopes: Vec<IrpScopeMetrics> = Vec::new();
                let mut i: usize = 0;
                while i < measurements.len()
                    invariant
                        measurements.wf(),
                        rows == measurements.rows(),
                        accumulator::first_gap(rows, required_events()) is None,
                        i <= rows.len(),
                        scopes@.len() == i,
                        forall|k: int|
                            0 <= k < i ==> (#[trigger] scopes@[k]) == scope_metrics(
                                rows[k].0,
                                rows[k].1,
                            ),
                    decreases rows.len() - i,
                {
                    scopes.push(IrpScopeMetrics::from_measurements(measurements, i));
                    i += 1;
                }
                assert(scopes@ =~= rows.map_values(
                    |row: (
                        IrpStackScope,
                        Map<IrpEventKind, EventMeasurement>
                    )| scope_metrics(row.0, row.1),
                ));
                Ok(IrpMetrics { scopes })
            },
        }
    }
}

/// A unit: a stack of a die, reached through a processor of the die.
#[derive(Clone, Copy, Debug, PartialEq, Eq, Structural)]
pub struct UnitPlace {
    pub cpu: u32,
    pub scope: IrpStackScope,
}

/// The units of a die, stack by stack.
pub open spec fn die_places(leader: Leader<UncoreScope>) -> Seq<UnitPlace> {
    all_stacks().map_values(
        |stack: SkxIioStack| UnitPlace {
            cpu: leader.cpu,
            scope: IrpStackScope { scope: leader.scope, stack },
        },
    )
}

/// The units of all dies, die by die.
pub open spec fn all_places(leaders: Seq<Leader<UncoreScope>>) -> Seq<UnitPlace>
    decreases leaders.len(),
{
    if leaders.len() == 0 {
        Seq::empty()
    } else {
        all_places(leaders.drop_last()) + die_places(leaders.last())
    }
}

fn list_places(leaders: &Vec<Leader<UncoreScope>>) -> (places: Vec<UnitPlace>)
    ensures
        places@ == all_places(leaders@),
{
    let stacks: Vec<SkxIioStack> = SkxIioStack::all();
    let mut places: Vec<UnitPlace> = Vec::new();
    let mut i: usize = 0;
    assert(leaders@.take(0) =~= Seq::<Leader<UncoreScope>>::empty());
    while i < leaders.len()
        invariant
            i <= leaders@.len(),
            stacks@ == all_stacks(),
            places@ == all_places(leaders@.take(i as int)),
        decreases leaders@.len() - i,
    {
        let leader = leaders[i];
        let ghost before = places@;
        let mut j: usize = 0;
        while j < stacks.len()
            invariant
                j <= stacks@.len(),
                stacks@ == all_stacks(),
                places@ == before + die_places(leader).take(j as int),
            decreases stacks@.len() - j,
        {
            places.push(
                UnitPlace {
                    cpu: leader.cpu,
                    scope: IrpStackScope { scope: leader.scope, stack: stacks[j] },
                },
            );
            proof {
                let all = die_places(leader);
                assert(all.take(j + 1) =~= all.take(j as int).push(all[j as int]));
                assert(places@ =~= before + all.take(j + 1));
            }
            j += 1;
        }
        proof {
            assert(die_places(leader).take(j as int) =~= die_places(leader));
            assert(leaders@.take(i + 1).drop_last() =~= leaders@.take(i as int));
        }
        i += 1;
    }
    assert(leaders@.take(i as int) =~= leaders@);
    places
}

/// The registers of a unit.
pub open spec fn is_unit(unit: Unit<IrpStackScope>, place: UnitPlace) -> bool {
    let cpu = place.cpu;
    let base = UNIT_CONTROL_BASE + UNIT_STRIDE * stack_index(place.scope.stack);
    &&& unit.scope == place.scope
    &&& unit.control == Register::Msr { address: base as u64, cpu }
    &&& unit.width == Width::Bits64
    &&& unit.filter is None
    &&& unit.controls@ == seq![
        Register::Msr { address: (base + 3) as u64, cpu },
        Register::Msr { address: (base + 3 + 1) as u64, cpu },
    ]
    &&& unit.counters@ == seq![
        Register::Msr { address: (base + 1) as u64, cpu },
        Register::Msr { address: (base + 1 + 1) as u64, cpu },
    ]
    &&& unit.fixed_control is None
    &&& unit.fixed_counter is None
}

fn unit_at(place: UnitPlace) -> (unit: Unit<IrpStackScope>)
    ensures
        is_unit(unit, place),
{
    let cpu: u32 = place.cpu;
    let stack = place.scope.stack;
    let unit = Unit {
        scope: place.scope,
        control: Register::Msr { address: irp_unit_control_offset(stack), cpu },
        width: Width::Bits64,
        filter: None,
        controls: vec![
            Register::Msr { address: irp_control_offset(stack, 0), cpu },
            Register::Msr { address: irp_control_offset(stack, 1), cpu },
        ],
        counters: vec![
            Register::Msr { address: irp_counter_offset(stack, 0), cpu },
            Register::Msr { address: irp_counter_offset(stack, 1), cpu },
        ],
        fixed_control: None,
        fixed_counter: None,
    };
    proof {
        let base = UNIT_CONTROL_BASE + UNIT_STRIDE * stack_index(place.scope.stack);
        assert(unit.controls@ =~= seq![
            Register::Msr { address: (base + 3) as u64, cpu },
            Register::Msr { address: (base + 3 + 1) as u64, cpu },
        ]);
        assert(unit.counters@ =~= seq![
            Register::Msr { address: (base + 1) as u64, cpu },
            Register::Msr { address: (base + 1 + 1) as u64, cpu },
        ]);
    }
    unit
}

/// Whether `units` are the units at `places`, in the same order.
pub open spec fn are_units(units: Seq<Unit<IrpStackScope>>, places: Seq<UnitPlace>) -> bool {
    &&& units.len() == places.len()
    &&& forall|i: int| 0 <= i < places.len() ==> is_unit(#[trigger] units[i], places[i])
}

/// Whether `result` is the collector for the processors: one unit for each stack of each die, in
/// die order. It is an error for any other processor, and where there is no die, or a processor has
/// no package.
pub open spec fn created(
    architecture: Architecture,
    words: PmonWords,
    topologies: Seq<CpuTopology>,
    result: Result<IrpCollector, CollectorError>,
) -> bool {
    if architecture.server_model() != Some(IntelServerCpuModel::SkylakeXeon) {
        result matches Err(error) && error == (CollectorError::Unsupported {
            unit: "IRP",
            model: architecture.server_model()->0,
        })
    } else if topology::first_cpus::<UncoreScope>(topologies) is None {
        result matches Err(error) && error == CollectorError::MissingPackageLevel
    } else if topologies.len() == 0 {
        result matches Err(error) && error == (CollectorError::NothingFound {
            what: "uncore scope leaders",
        })
    } else {
        &&& result matches Ok(collector)
        &&& collector.wf()
        &&& collector.words() == words
        &&& collector.next_group() == 0
        &&& exists|leaders: Seq<Leader<UncoreScope>>|
            {
                &&& #[trigger] topology::lists_leaders(
                    leaders,
                    topology::first_cpus::<UncoreScope>(topologies)->0,
                )
                &&& are_units(collector.units(), all_places(leaders))
            }
    }
}

/// Samples the I/O ring ports of Skylake and Cascade Lake processors.
#[derive(Debug)]
pub struct IrpCollector {
    units: Vec<Unit<IrpStackScope>>,
    next_group: usize,
    words: PmonWords,
}

impl IrpCollector {
    /// The units whose counters are read.
    pub closed spec fn units(self) -> Seq<Unit<IrpStackScope>> {
        self.units@
    }

    /// The group that goes first in the next sample.
    pub closed spec fn next_group(self) -> usize {
        self.next_group
    }

    /// The invariant: the next group is one of the groups, and every unit has the counters that a
    /// group uses.
    pub open spec fn wf(self) -> bool {
        &&& self.next_group() < groups().len()
        &&& units::units_have(self.units(), 2)
    }

    /// The number of rounds in a sample over an interval.
    pub open spec fn rounds(interval_nanos: u128) -> nat {
        schedule::saturated(schedule::bounded_rounds(interval_nanos as nat, groups().len() as nat))
    }

    /// Makes the next group in cyclic order go first.
    pub fn rotate_group(&mut self)
        requires
            old(self).wf(),
        ensures
            final(self).wf(),
            final(self).next_group() == (old(self).next_group() + 1) % groups().len() as int,
            final(self).units() == old(self).units(),
            final(self).words() == old(self).words(),
    {
        self.next_group = schedule::rotate(self.next_group, event_groups().len());
    }

    /// The turns of the event groups over an interval.
    pub fn schedule(&self, interval_nanos: u128) -> (slices: Vec<Slice<IrpEventGroup>>)
        requires
            self.wf(),
            groups().len() * Self::rounds(interval_nanos) <= usize::MAX,
        ensures
            schedule::is_schedule(
                slices@,
                groups(),
                self.next_group() as int,
                interval_nanos,
                Self::rounds(interval_nanos),
            ),
    {
        let groups = event_groups();
        let round_count: usize = schedule::bounded_round_count(interval_nanos, groups.len());
        schedule::schedule_rounds(&groups, self.next_group, interval_nanos, round_count)
    }

    /// The slices of a sample over an interval; an error over no time, or where there are more
    /// slices than can be numbered.
    pub fn begin_sample(&self, interval_nanos: u128) -> (result: Result<
        Vec<Slice<IrpEventGroup>>,
        CollectorError,
    >)
        requires
            self.wf(),
        ensures
            match result {
                Ok(slices) => interval_nanos > 0 && schedule::is_schedule(
                    slices@,
                    groups(),
                    self.next_group() as int,
                    interval_nanos,
                    Self::rounds(interval_nanos),
                ),
                Err(error) => if interval_nanos == 0 {
                    error == (CollectorError::ZeroInterval { unit: "IRP" })
                } else {
                    error == CollectorError::Overflow && groups().len() * Self::rounds(
                        interval_nanos,
                    ) > usize::MAX
                },
            },
    {
        if interval_nanos == 0 {
            return Err(CollectorError::ZeroInterval { unit: "IRP" });
        }
        let group_count: usize = event_groups().len();
        let round_count: usize = schedule::bounded_round_count(interval_nanos, group_count);
        if group_count.checked_mul(round_count).is_none() {
            return Err(CollectorError::Overflow);
        }
        Ok(self.schedule(interval_nanos))
    }

    /// Freezes and resets the counters of all units and then selects the events of a group.
    pub fn program_writes(&self, group: IrpEventGroup) -> (writes: Vec<RegisterWrite>)
        requires
            self.wf(),
        ensures
            writes@ == units::all_control_writes(self.units(), seq![self.words().freeze_and_reset])
                + units::all_program_writes(self.units(), control_words(group), 0),
    {
        let reset: Vec<u64> = vec![self.words.freeze_and_reset];
        assert(reset@ =~= seq![self.words().freeze_and_reset]);
        let mut writes: Vec<RegisterWrite> = units::write_controls(&self.units, &reset);
        let mut events: Vec<RegisterWrite> = units::write_events(
            &self.units,
            &group.controls(),
            0,
        );
        writes.append(&mut events);
        writes
    }

    /// Releases the counters of all units.
    pub fn unfreeze_writes(&self) -> (writes: Vec<RegisterWrite>)
        ensures
            writes@ == units::all_control_writes(self.units(), seq![self.words().unfreeze]),
    {
        let words: Vec<u64> = vec![self.words.unfreeze];
        assert(words@ =~= seq![self.words().unfreeze]);
        units::write_controls(&self.units, &words)
    }

    /// Freezes the counters of all units.
    pub fn freeze_writes(&self) -> (writes: Vec<RegisterWrite>)
        ensures
            writes@ == units::all_control_writes(self.units(), seq![self.words().freeze]),
    {
        let words: Vec<u64> = vec![self.words.freeze];
        assert(words@ =~= seq![self.words().freeze]);
        units::write_controls(&self.units, &words)
    }

    /// The processors whose registers are written, package by package: setting up the collector
    /// opens them for writing, and it cannot be used where that is refused.
    pub fn probe_cpus(&self) -> (cpus: Vec<u32>)
        ensures
            cpus@ == units::processors(self.units()),
    {
        units::processors_of(&self.units)
    }

    /// Reads the counters of all units.
    pub fn reads(&self) -> (reads: Vec<RegisterRead>)
        requires
            self.wf(),
        ensures
            reads@ == units::all_reads(self.units(), units::every_counter(2)),
    {
        units::reads(&self.units, &units::all_used(2))
    }

    /// Adds what a slice counted to the measurements, counter by counter.
    pub fn record(
        &self,
        group: IrpEventGroup,
        readings: &SliceReadings,
        measurements: Accumulator<IrpStackScope, IrpEventKind, EventMeasurement>,
    ) -> (
        result: Result<Accumulator<IrpStackScope, IrpEventKind, EventMeasurement>, CollectorError>
    )
        requires
            measurements.wf(),
        ensures
            units::is_record_by_unit(
                self.units(),
                *readings,
                counter_kinds(group),
                measurements,
                result,
            ),
    {
        units::record_by_unit(&self.units, readings, &group.kinds(), measurements)
    }

    /// Ends a sample: the next group goes first in the next one, and the measurements are
    /// reported.
    pub fn finish_sample(
        &mut self,
        measurements: &Accumulator<IrpStackScope, IrpEventKind, EventMeasurement>,
    ) -> (result: Result<IrpMetrics, CollectorError>)
        requires
            old(self).wf(),
            measurements.wf(),
        ensures
            final(self).wf(),
            final(self).next_group() == (old(self).next_group() + 1) % groups().len() as int,
            final(self).units() == old(self).units(),
            final(self).words() == old(self).words(),
            reported(measurements.rows(), result),
    {
        self.rotate_group();
        IrpMetrics::from_measurements(measurements)
    }

    /// A collector for given units.
    pub fn from_units(words: PmonWords, units: Vec<Unit<IrpStackScope>>) -> (collector: Self)
        requires
            units::units_have(units@, 2),
        ensures
            collector.wf(),
            collector.units() == units@,
            collector.next_group() == 0,
            collector.words() == words,
    {
        IrpCollector { units, next_group: 0, words }
    }

    /// The words that the units take in their control registers.
    pub closed spec fn words(self) -> PmonWords {
        self.words
    }

    /// Whether the processor has such units: Skylake servers only.
    pub fn is_supported(architecture: &Architecture) -> (supported: bool)
        requires
            architecture.server_model() is Some,
        ensures
            supported == (architecture.server_model() == Some(IntelServerCpuModel::SkylakeXeon)),
    {
        match architecture.intel_server_model() {
            IntelServerCpuModel::SkylakeXeon => true,
            _ => false,
        }
    }

    /// A collector for the processors.
    pub fn new(
        architecture: &Architecture,
        words: PmonWords,
        topologies: &Vec<CpuTopology>,
    ) -> (result: Result<
        Self,
        CollectorError,
    >)
        requires
            architecture.server_model() is Some,
        ensures
            created(*architecture, words, topologies@, result),
    {
        let model = architecture.intel_server_model();
        match model {
            IntelServerCpuModel::SkylakeXeon => {},
            _ => {
                return Err(CollectorError::Unsupported { unit: "IRP", model });
            },
        }
        let leaders: Vec<Leader<UncoreScope>> = match topology::leaders_in_order::<UncoreScope>(topologies) {
            Ok(leaders) => leaders,
            Err(error) => {
                return Err(error);
            },
        };
        if leaders.len() == 0 {
            return Err(CollectorError::NothingFound { what: "uncore scope leaders" });
        }
        let places: Vec<UnitPlace> = list_places(&leaders);
        let mut units: Vec<Unit<IrpStackScope>> = Vec::new();
        let mut i: usize = 0;
        while i < places.len()
            invariant
                i <= places@.len(),
                units@.len() == i,
                forall|k: int| 0 <= k < i ==> is_unit(#[trigger] units@[k], places@[k]),
            decreases places@.len() - i,
        {
            units.push(unit_at(places[i]));
            i += 1;
        }
        assert(are_units(units@, all_places(leaders@)));
        Ok(IrpCollector { units, next_group: 0, words })
    }
}

/// The families that are registered, in this order.
pub open spec fn families() -> Seq<MetricDescriptor> {
    seq![
        MetricDescriptor {
            name: "ocellus_irp_clflush_bytes_per_second",
            help: "Interval-derived IRP CLFlush bandwidth in bytes per second",
        },
        MetricDescriptor {
            name: "ocellus_irp_core_read_bytes_per_second",
            help: "Interval-derived IRP core read bandwidth in bytes per second",
        },
        MetricDescriptor {
            name: "ocellus_irp_demand_read_bytes_per_second",
            help: "Interval-derived IRP demand read bandwidth in bytes per second",
        },
        MetricDescriptor {
            name: "ocellus_irp_faf_occupancy_entries",
            help: "Average IRP fire-and-forget queue occupancy in entries",
        },
        MetricDescriptor {
            name: "ocellus_irp_frequency_hz",
            help: "Interval-derived IRP clock frequency in hertz",
        },
        MetricDescriptor {
            name: "ocellus_irp_pci_dca_hint_bytes_per_second",
            help: "Interval-derived IRP PCI DCA hint bandwidth in bytes per second",
        },
        MetricDescriptor {
            name: "ocellus_irp_pci_itom_bytes_per_second",
            help: "Interval-derived IRP PCI ItoM bandwidth in bytes per second",
        },
        MetricDescriptor {
            name: "ocellus_irp_pcie_read_current_bytes_per_second",
            help: "Interval-derived IRP PCIe read current bandwidth in bytes per second",
        },
        MetricDescriptor {
            name: "ocellus_irp_read_for_ownership_bytes_per_second",
            help: "Interval-derived IRP RFO bandwidth in bytes per second",
        },
        MetricDescriptor {
            name: "ocellus_irp_total_occupancy_entries",
            help: "Average total IRP read and write occupancy in entries",
        },
        MetricDescriptor {
            name: "ocellus_irp_wbmtoi_bytes_per_second",
            help: "Interval-derived IRP WbMtoI bandwidth in bytes per second",
        },
        MetricDescriptor {
            name: "ocellus_irp_write_inserts_per_second",
            help: "Interval-derived IRP inbound write fast-path inserts per second",
        },
        MetricDescriptor {
            name: "ocellus_irp_write_latency_seconds",
            help: "Interval-derived IRP inbound write residency latency in seconds",
        },
    ]
}

/// The metrics that are set for a scope, in this order.
pub open spec fn scope_updates(metrics: IrpScopeMetrics) -> Seq<GaugeUpdate> {
    let labels = (Labels {
        stack: Some(stack_label(metrics.stack)),
        ..export::of_die(
            metrics.scope.die_group_id,
            metrics.scope.die_id,
            metrics.scope.package_id,
        )
    });
    seq![
        GaugeUpdate {
            family: "ocellus_irp_clflush_bytes_per_second",
            labels,
            value: metrics.clflush_bytes_per_second,
        },
        GaugeUpdate {
            family: "ocellus_irp_core_read_bytes_per_second",
            labels,
            value: metrics.core_read_bytes_per_second,
        },
        GaugeUpdate {
            family: "ocellus_irp_demand_read_bytes_per_second",
            labels,
            value: metrics.demand_read_bytes_per_second,
        },
        GaugeUpdate {
            family: "ocellus_irp_faf_occupancy_entries",
            labels,
            value: metrics.faf_occupancy_entries,
        },
        GaugeUpdate { family: "ocellus_irp_frequency_hz", labels, value: metrics.frequency_hz },
        GaugeUpdate {
            family: "ocellus_irp_pci_dca_hint_bytes_per_second",
            labels,
            value: metrics.pci_dca_hint_bytes_per_second,
        },
        GaugeUpdate {
            family: "ocellus_irp_pci_itom_bytes_per_second",
            labels,
            value: metrics.pci_itom_bytes_per_second,
        },
        GaugeUpdate {
            family: "ocellus_irp_pcie_read_current_bytes_per_second",
            labels,
            value: metrics.pcie_read_current_bytes_per_second,
        },
        GaugeUpdate {
            family: "ocellus_irp_read_for_ownership_bytes_per_second",
            labels,
            value: metrics.read_for_ownership_bytes_per_second,
        },
        GaugeUpdate {
            family: "ocellus_irp_total_occupancy_entries",
            labels,
            value: metrics.total_irp_occupancy_entries,
        },
        GaugeUpdate {
            family: "ocellus_irp_wbmtoi_bytes_per_second",
            labels,
            value: metrics.wbmtoi_bytes_per_second,
        },
        GaugeUpdate {
            family: "ocellus_irp_write_inserts_per_second",
            labels,
            value: metrics.write_inserts_per_second,
        },
        GaugeUpdate {
            family: "ocellus_irp_write_latency_seconds",
            labels,
            value: metrics.write_latency_seconds,
        },
    ]
}

/// The metrics that are set for all of them, one after the other.
pub open spec fn all_updates(metrics: IrpMetrics) -> Seq<GaugeUpdate> {
    seqs::flat_map(metrics.scopes@, |metrics: IrpScopeMetrics| scope_updates(metrics))
}

/// The metric families of the I/O ring ports of a processor.
#[derive(Clone, Copy, Debug)]
pub struct IrpPrometheusMetrics;

impl IrpPrometheusMetrics {
    /// The families to be registered.
    pub fn register() -> (families: Vec<MetricDescriptor>)
        ensures
            families@ == self::families(),
    {
        vec![
            MetricDescriptor {
                name: "ocellus_irp_clflush_bytes_per_second",
                help: "Interval-derived IRP CLFlush bandwidth in bytes per second",
            },
            MetricDescriptor {
                name: "ocellus_irp_core_read_bytes_per_second",
                help: "Interval-derived IRP core read bandwidth in bytes per second",
            },
            MetricDescriptor {
                name: "ocellus_irp_demand_read_bytes_per_second",
                help: "Interval-derived IRP demand read bandwidth in bytes per second",
            },
            MetricDescriptor {
                name: "ocellus_irp_faf_occupancy_entries",
                help: "Average IRP fire-and-forget queue occupancy in entries",
            },
            MetricDescriptor {
                name: "ocellus_irp_frequency_hz",
                help: "Interval-derived IRP clock frequency in hertz",
            },
            MetricDescriptor {
                name: "ocellus_irp_pci_dca_hint_bytes_per_second",
                help: "Interval-derived IRP PCI DCA hint bandwidth in bytes per second",
            },
            MetricDescriptor {
                name: "ocellus_irp_pci_itom_bytes_per_second",
                help: "Interval-derived IRP PCI ItoM bandwidth in bytes per second",
            },
            MetricDescriptor {
                name: "ocellus_irp_pcie_read_current_bytes_per_second",
                help: "Interval-derived IRP PCIe read current bandwidth in bytes per second",
            },
            MetricDescriptor {
                name: "ocellus_irp_read_for_ownership_bytes_per_second",
                help: "Interval-derived IRP RFO bandwidth in bytes per second",
            },
            MetricDescriptor {
                name: "ocellus_irp_total_occupancy_entries",
                help: "Average total IRP read and write occupancy in entries",
            },
            MetricDescriptor {
                name: "ocellus_irp_wbmtoi_bytes_per_second",
                help: "Interval-derived IRP WbMtoI bandwidth in bytes per second",
            },
            MetricDescriptor {
                name: "ocellus_irp_write_inserts_per_second",
                help: "Interval-derived IRP inbound write fast-path inserts per second",
            },
            MetricDescriptor {
                name: "ocellus_irp_write_latency_seconds",
                help: "Interval-derived IRP inbound write residency latency in seconds",
            },
        ]
    }

    /// The metrics to be set.
    pub fn update(&self, metrics: &IrpMetrics) -> (updates: Vec<GaugeUpdate>)
        ensures
            updates@ == all_updates(*metrics),
    {
        let ghost f = |metrics: IrpScopeMetrics| scope_updates(metrics);
        let mut updates: Vec<GaugeUpdate> = Vec::new();
        let mut i: usize = 0;
        proof {
            seqs::lemma_flat_map_ends(metrics.scopes@, f);
        }
        while i < metrics.scopes.len()
            invariant
                i <= metrics.scopes@.len(),
                f == (|metrics: IrpScopeMetrics| scope_updates(metrics)),
                updates@ == seqs::flat_map(metrics.scopes@.take(i as int), f),
            decreases metrics.scopes@.len() - i,
        {
            let scope = &metrics.scopes[i];
            let labels = Labels {
                stack: Some(scope.stack.label()),
                ..Labels::die(
                    scope.scope.die_group_id,
                    scope.scope.die_id,
                    scope.scope.package_id,
                )
            };
            let ghost before = updates@;
            updates.push(
                GaugeUpdate {
                    family: "ocellus_irp_clflush_bytes_per_second",
                    labels,
                    value: scope.clflush_bytes_per_second,
                },
            );
            updates.push(
                GaugeUpdate {
                    family: "ocellus_irp_core_read_bytes_per_second",
                    labels,
                    value: scope.core_read_bytes_per_second,
                },
            );
            updates.push(
                GaugeUpdate {
                    family: "ocellus_irp_demand_read_bytes_per_second",
                    labels,
                    value: scope.demand_read_bytes_per_second,
                },
            );
            updates.push(
                GaugeUpdate {
                    family: "ocellus_irp_faf_occupancy_entries",
                    labels,
                    value: scope.faf_occupancy_entries,
                },
            );
            updates.push(
                GaugeUpdate {
                    family: "ocellus_irp_frequency_hz",
                    labels,
                    value: scope.frequency_hz,
                },
            );
            updates.push(
                GaugeUpdate {
                    family: "ocellus_irp_pci_dca_hint_bytes_per_second",
                    labels,
                    value: scope.pci_dca_hint_bytes_per_second,
                },
            );
            updates.push(
                GaugeUpdate {
                    family: "ocellus_irp_pci_itom_bytes_per_second",
                    labels,
                    value: scope.pci_itom_bytes_per_second,
                },
            );
            updates.push(
                GaugeUpdate {
                    family: "ocellus_irp_pcie_read_current_bytes_per_second",
                    labels,
                    value: scope.pcie_read_current_bytes_per_second,
                },
            );
            updates.push(
                GaugeUpdate {
                    family: "ocellus_irp_read_for_ownership_bytes_per_second",
                    labels,
                    value: scope.read_for_ownership_bytes_per_second,
                },
            );
            updates.push(
                GaugeUpdate {
                    family: "ocellus_irp_total_occupancy_entries",
                    labels,
                    value: scope.total_irp_occupancy_entries,
                },
            );
            updates.push(
                GaugeUpdate {
                    family: "ocellus_irp_wbmtoi_bytes_per_second",
                    labels,
                    value: scope.wbmtoi_bytes_per_second,
                },
            );
            updates.push(
                GaugeUpdate {
                    family: "ocellus_irp_write_inserts_per_second",
                    labels,
                    value: scope.write_inserts_per_second,
                },
            );
            updates.push(
                GaugeUpdate {
                    family: "ocellus_irp_write_latency_seconds",
                    labels,
                    value: scope.write_latency_seconds,
                },
            );
            proof {
                assert(updates@ =~= before + scope_updates(*scope));
                seqs::lemma_flat_map_step(metrics.scopes@, f, i as int);
            }
            i += 1;
        }
        proof {
            seqs::lemma_flat_map_ends(metrics.scopes@, f);
        }
        updates
    }
}

/// Every metric that is set belongs to a family that is registered.
pub proof fn updates_are_registered(metrics: IrpMetrics)
    ensures
        export::all_registered(all_updates(metrics), families()),
{
    let descriptors = families();
    let scopes = metrics.scopes@;
    let f = |metrics: IrpScopeMetrics| scope_updates(metrics);
    assert forall|k: int| 0 <= k < scopes.len() implies export::all_registered(
        f(#[trigger] scopes[k]),
        descriptors,
    ) by {
        let updates = f(scopes[k]);
        assert forall|i: int| 0 <= i < updates.len() implies export::is_registered(
            #[trigger] updates[i],
            descriptors,
        ) by {
            assert(descriptors[0].name == updates[0].family);
            assert(descriptors[1].name == updates[1].family);
            assert(descriptors[2].name == updates[2].family);
            assert(descriptors[3].name == updates[3].family);
            assert(descriptors[4].name == updates[4].family);
            assert(descriptors[5].name == updates[5].family);
            assert(descriptors[6].name == updates[6].family);
            assert(descriptors[7].name == updates[7].family);
            assert(descriptors[8].name == updates[8].family);
            assert(descriptors[9].name == updates[9].family);
            assert(descriptors[10].name == updates[10].family);
            assert(descriptors[11].name == updates[11].family);
            assert(descriptors[12].name == updates[12].family);
        }
    }
    export::lemma_all_registered(scopes, f, descriptors);
}

/// A sample that ran all of its slices is reported: no event that a report needs is missing, and
/// every scope that has units is in it.
#[verifier::spinoff_prover]
pub proof fn complete_sample_is_reported(
    collector: IrpCollector,
    interval_nanos: u128,
    slices: Seq<Slice<IrpEventGroup>>,
    readings: Seq<SliceReadings>,
    steps: Seq<Accumulator<IrpStackScope, IrpEventKind, EventMeasurement>>,
    result: Result<IrpMetrics, CollectorError>,
)
    requires
        collector.wf(),
        schedule::is_schedule(
            slices,
            groups(),
            collector.next_group() as int,
            interval_nanos,
            IrpCollector::rounds(interval_nanos),
        ),
        steps.len() == slices.len() + 1,
        steps.last().wf(),
        steps[0].grid() == Map::<IrpStackScope, Map<IrpEventKind, EventMeasurement>>::empty(),
        forall|i: int|
            0 <= i < slices.len() ==> units::is_record_by_unit(
                collector.units(),
                readings[i],
                counter_kinds((#[trigger] slices[i]).group),
                steps[i],
                Ok::<Accumulator<IrpStackScope, IrpEventKind, EventMeasurement>, CollectorError>(steps[i + 1]),
            ),
        reported(steps.last().rows(), result),
    ensures
        result is Ok,
        forall|scope: IrpStackScope|
            steps.last().grid().contains_key(scope) <==> #[trigger] units::has_scope(
                collector.units(),
                scope,
            ),
{
    let grids = steps.map_values(
        |step: Accumulator<IrpStackScope, IrpEventKind, EventMeasurement>| step.grid(),
    );
    let scopes = |scope: IrpStackScope| units::has_scope(collector.units(), scope);
    let counted = |i: int, kind: IrpEventKind| completeness::occurs_in(
        counter_kinds(slices[i].group),
        kind,
    );
    schedule::rounds_are_positive(interval_nanos as nat, groups().len());
    assert forall|i: int| 0 <= i < grids.len() - 1 implies completeness::extends(
        #[trigger] grids[i],
        grids[i + 1],
        scopes,
        |kind: IrpEventKind| counted(i, kind),
    ) by {
        completeness::record_by_unit_extends(
            collector.units(),
            readings[i],
            counter_kinds(slices[i].group),
            steps[i],
            steps[i + 1],
        );
    }
    assert forall|e: int| 0 <= e < required_events().len() implies exists|i: int|
        0 <= i < grids.len() - 1 && #[trigger] counted(i, #[trigger] required_events()[e]) by {
        let group: int = if e == 2 || e == 7 {
            0
        } else if e == 3 || e == 8 {
            1
        } else if e == 5 || e == 6 {
            2
        } else if e == 0 || e == 10 {
            3
        } else if e == 4 || e == 9 {
            4
        } else {
            5
        };
        let i = completeness::schedule_runs_group(
            slices,
            groups(),
            collector.next_group() as int,
            interval_nanos,
            IrpCollector::rounds(interval_nanos),
            group,
        );
        assert(counter_kinds(groups()[3])[1] == Some(IrpEventKind::ClFlush));
        assert(counter_kinds(groups()[5])[1] == Some(IrpEventKind::Clockticks));
        assert(counter_kinds(groups()[0])[1] == Some(IrpEventKind::CoreRead));
        assert(counter_kinds(groups()[1])[0] == Some(IrpEventKind::DemandRead));
        assert(counter_kinds(groups()[4])[1] == Some(IrpEventKind::FafOccupancy));
        assert(counter_kinds(groups()[2])[1] == Some(IrpEventKind::PciDcaHint));
        assert(counter_kinds(groups()[2])[0] == Some(IrpEventKind::PciItoM));
        assert(counter_kinds(groups()[0])[0] == Some(IrpEventKind::PcieReadCurrent));
        assert(counter_kinds(groups()[1])[1] == Some(IrpEventKind::ReadForOwnership));
        assert(counter_kinds(groups()[4])[0] == Some(IrpEventKind::TotalIrpOccupancy));
        assert(counter_kinds(groups()[3])[0] == Some(IrpEventKind::WbMtoI));
        assert(counter_kinds(groups()[5])[0] == Some(IrpEventKind::WriteInserts));
        assert(counted(i, required_events()[e]));
    }
    completeness::complete_course_has_no_gap(
        steps.last(),
        grids,
        scopes,
        counted,
        required_events(),
    );
    assert forall|scope: IrpStackScope|
        steps.last().grid().contains_key(scope) <==> #[trigger] units::has_scope(
            collector.units(),
            scope,
        ) by {
        assert(scopes(scope) == units::has_scope(collector.units(), scope));
    }
}

} // verus!
