//! The I/O ring ports of Ice Lake processors.
use crate::accumulator::{self, Accumulator, EventKind, EventMeasurement};
use crate::arch::{Architecture, IntelServerCpuModel};
use crate::completeness;
use crate::error::CollectorError;
use crate::export::{self, GaugeUpdate, Labels, MetricDescriptor};
use crate::ordered_map::Key;
use crate::quantity::{self, Quantity};
use crate::registers::{self, Register, RegisterRead, RegisterWrite, Width};
use crate::schedule::{self, Slice};
use crate::seqs;
use crate::topology::{self, CpuTopology, Leader, TopologyLevel, TopologyScope, UncoreScope};
use crate::units::{self, SliceReadings, Unit};
use vstd::prelude::*;

verus! {

/// Freezes the counters of a unit.
pub const UNIT_FREEZE: u64 = 0x3_0100;

/// Freezes the counters of a unit and resets its counters and event selections.
pub const UNIT_FREEZE_AND_RESET: u64 = 0x3_0103;

/// Releases the counters of a unit.
pub const UNIT_UNFREEZE: u64 = 0x3_0000;

/// The scope of an I/O ring port: a die.
#[derive(Clone, Copy, Debug, PartialEq, Eq, Structural)]
pub struct IcxUncoreScope {
    pub die_group_id: u32,
    pub die_id: u32,
    pub package_id: u32,
}

impl Key for IcxUncoreScope {
    open spec fn rank(self) -> int {
        (self.die_group_id * 0x1_0000_0000 + self.die_id) * 0x1_0000_0000 + self.package_id
    }

    proof fn rank_injective(a: Self, b: Self) {
    }

    fn precedes(&self, other: &Self) -> (result: bool) {
        if self.die_group_id != other.die_group_id {
            self.die_group_id < other.die_group_id
        } else if self.die_id != other.die_id {
            self.die_id < other.die_id
        } else {
            self.package_id < other.package_id
        }
    }
}

impl TopologyScope for IcxUncoreScope {
    open spec fn of(levels: Seq<TopologyLevel>) -> Option<Self> {
        match topology::die_scope(levels) {
            Some(scope) => Some(
                IcxUncoreScope {
                    die_group_id: scope.die_group_id,
                    die_id: scope.die_id,
                    package_id: scope.package_id,
                },
            ),
            None => None,
        }
    }

    fn from_topology(topology: &CpuTopology) -> (scope: Result<Self, CollectorError>) {
        match UncoreScope::from_topology(topology) {
            Ok(scope) => Ok(
                IcxUncoreScope {
                    die_group_id: scope.die_group_id,
                    die_id: scope.die_id,
                    package_id: scope.package_id,
                },
            ),
            Err(error) => Err(error),
        }
    }
}

/// What is counted in an I/O ring port.
#[derive(Clone, Copy, Debug, PartialEq, Eq, Structural)]
pub enum IcxIrpEventKind {
    AllHitM,
    ClFlush,
    Clockticks,
    FafFull,
    FafInserts,
    FafOccupancy,
    LostFwd,
    PciItoM,
    PcieReadCurrent,
    ReadForOwnership,
    TotalIrpOccupancy,
    WbMtoI,
    WriteInserts,
}

/// The place of an event in the order of the events.
pub open spec fn event_index(kind: IcxIrpEventKind) -> int {
    match kind {
        IcxIrpEventKind::AllHitM => 0,
        IcxIrpEventKind::ClFlush => 1,
        IcxIrpEventKind::Clockticks => 2,
        IcxIrpEventKind::FafFull => 3,
        IcxIrpEventKind::FafInserts => 4,
        IcxIrpEventKind::FafOccupancy => 5,
        IcxIrpEventKind::LostFwd => 6,
        IcxIrpEventKind::PciItoM => 7,
        IcxIrpEventKind::PcieReadCurrent => 8,
        IcxIrpEventKind::ReadForOwnership => 9,
        IcxIrpEventKind::TotalIrpOccupancy => 10,
        IcxIrpEventKind::WbMtoI => 11,
        IcxIrpEventKind::WriteInserts => 12,
    }
}

/// The name of an event, as it is shown in an error.
pub open spec fn event_name(kind: IcxIrpEventKind) -> &'static str {
    match kind {
        IcxIrpEventKind::AllHitM => "AllHitM",
        IcxIrpEventKind::ClFlush => "ClFlush",
        IcxIrpEventKind::Clockticks => "Clockticks",
        IcxIrpEventKind::FafFull => "FafFull",
        IcxIrpEventKind::FafInserts => "FafInserts",
        IcxIrpEventKind::FafOccupancy => "FafOccupancy",
        IcxIrpEventKind::LostFwd => "LostFwd",
        IcxIrpEventKind::PciItoM => "PciItoM",
        IcxIrpEventKind::PcieReadCurrent => "PcieReadCurrent",
        IcxIrpEventKind::ReadForOwnership => "ReadForOwnership",
        IcxIrpEventKind::TotalIrpOccupancy => "TotalIrpOccupancy",
        IcxIrpEventKind::WbMtoI => "WbMtoI",
        IcxIrpEventKind::WriteInserts => "WriteInserts",
    }
}

impl IcxIrpEventKind {
    fn index(self) -> (index: u8)
        ensures
            index == event_index(self),
    {
        match self {
            IcxIrpEventKind::AllHitM => 0,
            IcxIrpEventKind::ClFlush => 1,
            IcxIrpEventKind::Clockticks => 2,
            IcxIrpEventKind::FafFull => 3,
            IcxIrpEventKind::FafInserts => 4,
            IcxIrpEventKind::FafOccupancy => 5,
            IcxIrpEventKind::LostFwd => 6,
            IcxIrpEventKind::PciItoM => 7,
            IcxIrpEventKind::PcieReadCurrent => 8,
            IcxIrpEventKind::ReadForOwnership => 9,
            IcxIrpEventKind::TotalIrpOccupancy => 10,
            IcxIrpEventKind::WbMtoI => 11,
            IcxIrpEventKind::WriteInserts => 12,
        }
    }

    /// The name of the event, as it is shown in an error.
    pub fn name(self) -> (name: &'static str)
        ensures
            name == event_name(self),
    {
        match self {
            IcxIrpEventKind::AllHitM => "AllHitM",
            IcxIrpEventKind::ClFlush => "ClFlush",
            IcxIrpEventKind::Clockticks => "Clockticks",
            IcxIrpEventKind::FafFull => "FafFull",
            IcxIrpEventKind::FafInserts => "FafInserts",
            IcxIrpEventKind::FafOccupancy => "FafOccupancy",
            IcxIrpEventKind::LostFwd => "LostFwd",
            IcxIrpEventKind::PciItoM => "PciItoM",
            IcxIrpEventKind::PcieReadCurrent => "PcieReadCurrent",
            IcxIrpEventKind::ReadForOwnership => "ReadForOwnership",
            IcxIrpEventKind::TotalIrpOccupancy => "TotalIrpOccupancy",
            IcxIrpEventKind::WbMtoI => "WbMtoI",
            IcxIrpEventKind::WriteInserts => "WriteInserts",
        }
    }
}

impl Key for IcxIrpEventKind {
    open spec fn rank(self) -> int {
        event_index(self)
    }

    proof fn rank_injective(a: Self, b: Self) {
    }

    fn precedes(&self, other: &Self) -> (result: bool) {
        self.index() < other.index()
    }
}

impl EventKind for IcxIrpEventKind {
    open spec fn is_counted(self) -> bool {
        true
    }

    fn counts(&self) -> (result: bool) {
        true
    }
}

/// An event that a counter can count.
#[derive(Clone, Copy, Debug, PartialEq, Eq, Structural)]
pub struct IcxIrpEventSpec {
    pub event: u8,
    pub kind: IcxIrpEventKind,
    pub umask: u8,
}

/// An event of which the counts are summed.
pub open spec fn sum_of(kind: IcxIrpEventKind, event: u8, umask: u8) -> IcxIrpEventSpec {
    IcxIrpEventSpec { event, kind, umask }
}

impl IcxIrpEventSpec {
    /// An event of which the counts are summed.
    pub fn sum(kind: IcxIrpEventKind, event: u8, umask: u8) -> (spec: Self)
        ensures
            spec == sum_of(kind, event, umask),
    {
        IcxIrpEventSpec { event, kind, umask }
    }
}

/// The events that the counters of a unit count at the same time.
#[derive(Clone, Copy, Debug, PartialEq, Eq)]
pub struct IcxIrpEventGroup {
    pub events: [IcxIrpEventSpec; 2],
}

/// What a counter counts.
pub open spec fn kind_of(event: IcxIrpEventSpec) -> Option<IcxIrpEventKind> {
    Some(event.kind)
}

/// The control word of an event: event number, unit mask, reset, overflow and enable bits.
pub open spec fn control_word(event: IcxIrpEventSpec) -> u64 {
    (event.event + event.umask * 0x100 + registers::COUNT_AND_REPORT_OVERFLOW) as u64
}

/// What each counter counts while a group is programmed.
pub open spec fn counter_kinds(group: IcxIrpEventGroup) -> Seq<Option<IcxIrpEventKind>> {
    group.events@.map_values(|event: IcxIrpEventSpec| kind_of(event))
}

/// The control words of the counters while a group is programmed.
pub open spec fn control_words(group: IcxIrpEventGroup) -> Seq<Option<u64>> {
    group.events@.map_values(|event: IcxIrpEventSpec| Some(control_word(event)))
}

fn counted_kind(event: IcxIrpEventSpec) -> (kind: Option<IcxIrpEventKind>)
    ensures
        kind == kind_of(event),
{
    Some(event.kind)
}

/// The control word of an event.
pub fn counter_control(event: IcxIrpEventSpec) -> (word: u64)
    ensures
        word == control_word(event),
{
    registers::select_word(event.event, event.umask, registers::COUNT_AND_REPORT_OVERFLOW)
}

impl IcxIrpEventGroup {
    /// The events, counter by counter.
    pub fn events(self) -> (events: [IcxIrpEventSpec; 2])
        ensures
            events == self.events,
    {
        self.events
    }

    /// What each counter counts.
    pub fn kinds(&self) -> (kinds: Vec<Option<IcxIrpEventKind>>)
        ensures
            kinds@ == counter_kinds(*self),
    {
        let kinds: Vec<Option<IcxIrpEventKind>> = vec![
            counted_kind(self.events[0]),
            counted_kind(self.events[1]),
        ];
        assert(kinds@ =~= counter_kinds(*self));
        kinds
    }

    /// The control words of the counters.
    pub fn controls(&self) -> (words: Vec<Option<u64>>)
        ensures
            words@ == control_words(*self),
    {
        let words: Vec<Option<u64>> = vec![
            Some(counter_control(self.events[0])),
            Some(counter_control(self.events[1])),
        ];
        assert(words@ =~= control_words(*self));
        words
    }
}

/// The event groups, in the order in which they take turns.
pub open spec fn groups() -> Seq<IcxIrpEventGroup> {
    seq![
        IcxIrpEventGroup {
            events: [
                sum_of(IcxIrpEventKind::PcieReadCurrent, 0x10, 0x01),
                sum_of(IcxIrpEventKind::ReadForOwnership, 0x10, 0x08),
            ],
        },
        IcxIrpEventGroup {
            events: [
                sum_of(IcxIrpEventKind::PciItoM, 0x10, 0x10),
                sum_of(IcxIrpEventKind::WbMtoI, 0x10, 0x40),
            ],
        },
        IcxIrpEventGroup {
            events: [
                sum_of(IcxIrpEventKind::ClFlush, 0x10, 0x80),
                sum_of(IcxIrpEventKind::TotalIrpOccupancy, 0x0f, 0x04),
            ],
        },
        IcxIrpEventGroup {
            events: [
                sum_of(IcxIrpEventKind::FafOccupancy, 0x19, 0x00),
                sum_of(IcxIrpEventKind::WriteInserts, 0x11, 0x08),
            ],
        },
        IcxIrpEventGroup {
            events: [
                sum_of(IcxIrpEventKind::LostFwd, 0x1f, 0x10),
                sum_of(IcxIrpEventKind::FafInserts, 0x18, 0x00),
            ],
        },
        IcxIrpEventGroup {
            events: [
                sum_of(IcxIrpEventKind::AllHitM, 0x12, 0x78),
                sum_of(IcxIrpEventKind::Clockticks, 0x01, 0x00),
            ],
        },
        IcxIrpEventGroup {
            events: [
                sum_of(IcxIrpEventKind::FafFull, 0x17, 0x00),
                sum_of(IcxIrpEventKind::Clockticks, 0x01, 0x00),
            ],
        },
    ]
}

/// The event groups, in the order in which they take turns.
pub fn event_groups() -> (table: Vec<IcxIrpEventGroup>)
    ensures
        table@ == groups(),
{
    vec![
        IcxIrpEventGroup {
            events: [
                IcxIrpEventSpec::sum(IcxIrpEventKind::PcieReadCurrent, 0x10, 0x01),
                IcxIrpEventSpec::sum(IcxIrpEventKind::ReadForOwnership, 0x10, 0x08),
            ],
        },
        IcxIrpEventGroup {
            events: [
                IcxIrpEventSpec::sum(IcxIrpEventKind::PciItoM, 0x10, 0x10),
                IcxIrpEventSpec::sum(IcxIrpEventKind::WbMtoI, 0x10, 0x40),
            ],
        },
        IcxIrpEventGroup {
            events: [
                IcxIrpEventSpec::sum(IcxIrpEventKind::ClFlush, 0x10, 0x80),
                IcxIrpEventSpec::sum(IcxIrpEventKind::TotalIrpOccupancy, 0x0f, 0x04),
            ],
        },
        IcxIrpEventGroup {
            events: [
                IcxIrpEventSpec::sum(IcxIrpEventKind::FafOccupancy, 0x19, 0x00),
                IcxIrpEventSpec::sum(IcxIrpEventKind::WriteInserts, 0x11, 0x08),
            ],
        },
        IcxIrpEventGroup {
            events: [
                IcxIrpEventSpec::sum(IcxIrpEventKind::LostFwd, 0x1f, 0x10),
                IcxIrpEventSpec::sum(IcxIrpEventKind::FafInserts, 0x18, 0x00),
            ],
        },
        IcxIrpEventGroup {
            events: [
                IcxIrpEventSpec::sum(IcxIrpEventKind::AllHitM, 0x12, 0x78),
                IcxIrpEventSpec::sum(IcxIrpEventKind::Clockticks, 0x01, 0x00),
            ],
        },
        IcxIrpEventGroup {
            events: [
                IcxIrpEventSpec::sum(IcxIrpEventKind::FafFull, 0x17, 0x00),
                IcxIrpEventSpec::sum(IcxIrpEventKind::Clockticks, 0x01, 0x00),
            ],
        },
    ]
}

/// The stacks of a die.
#[derive(Clone, Copy, Debug, PartialEq, Eq, Structural)]
pub enum IcxIrpStackId {
    Pcie0,
    Pcie1,
    Mcp,
    Pcie2,
    Pcie3,
    CbdmaDmi,
}

/// The number of a stack.
pub open spec fn stack_index(stack: IcxIrpStackId) -> int {
    match stack {
        IcxIrpStackId::Pcie0 => 0,
        IcxIrpStackId::Pcie1 => 1,
        IcxIrpStackId::Mcp => 2,
        IcxIrpStackId::Pcie2 => 3,
        IcxIrpStackId::Pcie3 => 4,
        IcxIrpStackId::CbdmaDmi => 5,
    }
}

/// The label of a stack.
pub open spec fn stack_label(stack: IcxIrpStackId) -> &'static str {
    match stack {
        IcxIrpStackId::Pcie0 => "pcie0",
        IcxIrpStackId::Pcie1 => "pcie1",
        IcxIrpStackId::Mcp => "mcp",
        IcxIrpStackId::Pcie2 => "pcie2",
        IcxIrpStackId::Pcie3 => "pcie3",
        IcxIrpStackId::CbdmaDmi => "cbdma_dmi",
    }
}

/// All stacks, in the order of their numbers.
pub open spec fn all_stacks() -> Seq<IcxIrpStackId> {
    seq![
        IcxIrpStackId::Pcie0,
        IcxIrpStackId::Pcie1,
        IcxIrpStackId::Mcp,
        IcxIrpStackId::Pcie2,
        IcxIrpStackId::Pcie3,
        IcxIrpStackId::CbdmaDmi,
    ]
}

impl IcxIrpStackId {
    /// All stacks, in the order of their numbers.
    pub fn all() -> (stacks: Vec<Self>)
        ensures
            stacks@ == all_stacks(),
    {
        vec![
            IcxIrpStackId::Pcie0,
            IcxIrpStackId::Pcie1,
            IcxIrpStackId::Mcp,
            IcxIrpStackId::Pcie2,
            IcxIrpStackId::Pcie3,
            IcxIrpStackId::CbdmaDmi,
        ]
    }

    /// The number of the stack.
    pub fn id(self) -> (id: usize)
        ensures
            id == stack_index(self),
            id < 6,
    {
        match self {
            IcxIrpStackId::Pcie0 => 0,
            IcxIrpStackId::Pcie1 => 1,
            IcxIrpStackId::Mcp => 2,
            IcxIrpStackId::Pcie2 => 3,
            IcxIrpStackId::Pcie3 => 4,
            IcxIrpStackId::CbdmaDmi => 5,
        }
    }

    /// The label of the stack.
    pub fn label(self) -> (label: &'static str)
        ensures
            label == stack_label(self),
    {
        match self {
            IcxIrpStackId::Pcie0 => "pcie0",
            IcxIrpStackId::Pcie1 => "pcie1",
            IcxIrpStackId::Mcp => "mcp",
            IcxIrpStackId::Pcie2 => "pcie2",
            IcxIrpStackId::Pcie3 => "pcie3",
            IcxIrpStackId::CbdmaDmi => "cbdma_dmi",
        }
    }
}

/// A stack: its number and its label.
#[derive(Clone, Copy, Debug, PartialEq, Eq, Hash)]
pub struct IcxIrpStack {
    pub id: usize,
    pub label: &'static str,
}

impl IcxIrpStack {
    /// A stack with a number and a label.
    pub fn new(id: usize, label: &'static str) -> (stack: Self)
        ensures
            stack == (IcxIrpStack { id, label }),
    {
        IcxIrpStack { id, label }
    }

    /// The number of the stack.
    pub fn id(self) -> (id: usize)
        ensures
            id == self.id,
    {
        self.id
    }

    /// The label of the stack.
    pub fn label(self) -> (label: &'static str)
        ensures
            label == self.label,
    {
        self.label
    }
}

/// A stack by its number and label.
pub open spec fn stack_of(stack: IcxIrpStackId) -> IcxIrpStack {
    IcxIrpStack { id: stack_index(stack) as usize, label: stack_label(stack) }
}

/// Where the units of a processor have their registers, and what they count.
#[derive(Clone, Copy, Debug)]
pub struct IcxIrpSpec {
    pub counter_offset: u64,
    pub control_offset: u64,
    pub event_groups: [IcxIrpEventGroup; 7],
    pub name: &'static str,
    pub stacks: [IcxIrpStack; 6],
    pub unit_control_offsets: [u64; 6],
}

/// Where each stack has its unit control register.
pub const UNIT_CONTROL_OFFSETS: [u64; 6] = [0x0a4a, 0x0a6a, 0x0a8a, 0x0ada, 0x0afa, 0x0b1a];

/// The distance of the first event selection of a unit from its control register.
pub const CONTROL_OFFSET: u64 = 0x0003;

/// The distance of the first counter of a unit from its control register.
pub const COUNTER_OFFSET: u64 = 0x0001;

/// Whether a specification holds the tables of the processor.
pub open spec fn is_spec(spec: IcxIrpSpec) -> bool {
    &&& spec.counter_offset == COUNTER_OFFSET
    &&& spec.control_offset == CONTROL_OFFSET
    &&& spec.event_groups@ == groups()
    &&& spec.name == "Ice Lake"
    &&& spec.unit_control_offsets == UNIT_CONTROL_OFFSETS
    &&& spec.stacks@ == all_stacks().map_values(|stack: IcxIrpStackId| stack_of(stack))
}

/// The tables of the processor.
pub fn icx_irp_spec() -> (spec: IcxIrpSpec)
    ensures
        is_spec(spec),
{
    let table = event_groups();
    let spec = IcxIrpSpec {
        counter_offset: COUNTER_OFFSET,
        control_offset: CONTROL_OFFSET,
        event_groups: [table[0], table[1], table[2], table[3], table[4], table[5], table[6]],
        name: "Ice Lake",
        stacks: [
            IcxIrpStackId::all()[0].stack(),
            IcxIrpStackId::all()[1].stack(),
            IcxIrpStackId::all()[2].stack(),
            IcxIrpStackId::all()[3].stack(),
            IcxIrpStackId::all()[4].stack(),
            IcxIrpStackId::all()[5].stack(),
        ],
        unit_control_offsets: UNIT_CONTROL_OFFSETS,
    };
    assert(spec.event_groups@ =~= groups());
    assert(spec.stacks@ =~= all_stacks().map_values(|stack: IcxIrpStackId| stack_of(stack)));
    spec
}

impl IcxIrpStackId {
    /// The number and label of the stack.
    pub fn stack(self) -> (stack: IcxIrpStack)
        ensures
            stack == stack_of(self),
    {
        IcxIrpStack::new(self.id(), self.label())
    }
}

/// The register that selects the event of a counter.
pub fn irp_control_offset(
    spec: IcxIrpSpec,
    stack: IcxIrpStack,
    counter_index: usize,
) -> (offset: u64)
    requires
        stack.id < 6,
        spec.unit_control_offsets@[stack.id as int] + spec.control_offset + counter_index
            <= u64::MAX,
    ensures
        offset == spec.unit_control_offsets@[stack.id as int] + spec.control_offset
            + counter_index,
{
    irp_unit_control_offset(spec, stack) + spec.control_offset + counter_index as u64
}

/// The register of a counter.
pub fn irp_counter_offset(
    spec: IcxIrpSpec,
    stack: IcxIrpStack,
    counter_index: usize,
) -> (offset: u64)
    requires
        stack.id < 6,
        spec.unit_control_offsets@[stack.id as int] + spec.counter_offset + counter_index
            <= u64::MAX,
    ensures
        offset == spec.unit_control_offsets@[stack.id as int] + spec.counter_offset
            + counter_index,
{
    irp_unit_control_offset(spec, stack) + spec.counter_offset + counter_index as u64
}

/// The register that freezes, resets and releases the counters of a stack.
pub fn irp_unit_control_offset(spec: IcxIrpSpec, stack: IcxIrpStack) -> (offset: u64)
    requires
        stack.id < 6,
    ensures
        offset == spec.unit_control_offsets@[stack.id as int],
{
    spec.unit_control_offsets[stack.id()]
}

/// A stack of a die.
#[derive(Clone, Copy, Debug, PartialEq, Eq, Structural)]
pub struct IcxIrpStackScope {
    pub scope: IcxUncoreScope,
    pub stack: IcxIrpStackId,
}

impl Key for IcxIrpStackScope {
    open spec fn rank(self) -> int {
        self.scope.rank() * 0x10 + stack_index(self.stack)
    }

    proof fn rank_injective(a: Self, b: Self) {
        assert(a.scope.rank() == b.scope.rank());
        IcxUncoreScope::rank_injective(a.scope, b.scope);
    }

    fn precedes(&self, other: &Self) -> (result: bool) {
        if self.scope.precedes(&other.scope) {
            true
        } else if other.scope.precedes(&self.scope) {
            false
        } else {
            self.stack.id() < other.stack.id()
        }
    }
}

/// What is reported for a stack.
#[derive(Clone, Copy, Debug)]
pub struct IcxIrpScopeMetrics {
    pub scope: IcxUncoreScope,
    pub stack: IcxIrpStack,
    pub all_hit_m_snoop_responses_per_second: Quantity,
    pub clflush_bytes_per_second: Quantity,
    pub faf_full_ratio: Quantity,
    pub faf_occupancy_entries: Quantity,
    pub pcie_inbound_reads_per_second: Quantity,
    pub frequency_hz: Quantity,
    pub io_write_conflict_ratio: Quantity,
    pub pci_itom_bytes_per_second: Quantity,
    pub pcie_read_current_bytes_per_second: Quantity,
    pub read_for_ownership_bytes_per_second: Quantity,
    pub total_irp_occupancy_entries: Quantity,
    pub wbmtoi_bytes_per_second: Quantity,
    pub pcie_inbound_writes_per_second: Quantity,
    pub pcie_inbound_write_latency_seconds: Quantity,
}

/// The events that a report needs, in the order in which they are looked up.
pub open spec fn required_events() -> Seq<IcxIrpEventKind> {
    seq![
        IcxIrpEventKind::Clockticks,
        IcxIrpEventKind::TotalIrpOccupancy,
        IcxIrpEventKind::WriteInserts,
    ]
}

fn required_list() -> (kinds: Vec<IcxIrpEventKind>)
    ensures
        kinds@ == required_events(),
{
    vec![
        IcxIrpEventKind::Clockticks,
        IcxIrpEventKind::TotalIrpOccupancy,
        IcxIrpEventKind::WriteInserts,
    ]
}

/// What is reported for a scope.
pub open spec fn scope_metrics(
    scope: IcxIrpStackScope,
    row: Map<IcxIrpEventKind, EventMeasurement>,
) -> IcxIrpScopeMetrics {
    let clockticks = row[IcxIrpEventKind::Clockticks];
    let total_irp_occupancy = row[IcxIrpEventKind::TotalIrpOccupancy];
    let write_inserts = row[IcxIrpEventKind::WriteInserts];
    let all_hit_m = accumulator::held(row, IcxIrpEventKind::AllHitM);
    let clflush = accumulator::held(row, IcxIrpEventKind::ClFlush);
    let faf_full = accumulator::held(row, IcxIrpEventKind::FafFull);
    let faf_inserts = accumulator::held(row, IcxIrpEventKind::FafInserts);
    let faf_occupancy = accumulator::held(row, IcxIrpEventKind::FafOccupancy);
    let lost_fwd = accumulator::held(row, IcxIrpEventKind::LostFwd);
    let pci_itom = accumulator::held(row, IcxIrpEventKind::PciItoM);
    let pcie_read_current = accumulator::held(row, IcxIrpEventKind::PcieReadCurrent);
    let read_for_ownership = accumulator::held(row, IcxIrpEventKind::ReadForOwnership);
    let wbmtoi = accumulator::held(row, IcxIrpEventKind::WbMtoI);
    IcxIrpScopeMetrics {
        scope: scope.scope,
        stack: stack_of(scope.stack),
        all_hit_m_snoop_responses_per_second: quantity::optional_event_rate_of(all_hit_m),
        clflush_bytes_per_second: quantity::optional_line_rate_of(clflush),
        faf_full_ratio: quantity::optional_ratio_of(faf_full, clockticks),
        faf_occupancy_entries: quantity::optional_occupancy_of(faf_occupancy, clockticks),
        pcie_inbound_reads_per_second: quantity::optional_event_rate_of(faf_inserts),
        frequency_hz: quantity::count_frequency_of(clockticks),
        io_write_conflict_ratio: quantity::optional_ratio_of(lost_fwd, write_inserts),
        pci_itom_bytes_per_second: quantity::optional_line_rate_of(pci_itom),
        pcie_read_current_bytes_per_second: quantity::optional_line_rate_of(pcie_read_current),
        read_for_ownership_bytes_per_second: quantity::optional_line_rate_of(read_for_ownership),
        total_irp_occupancy_entries: quantity::scaled_ratio_of(total_irp_occupancy, clockticks),
        wbmtoi_bytes_per_second: quantity::optional_line_rate_of(wbmtoi),
        pcie_inbound_writes_per_second: quantity::event_rate_of(write_inserts),
        pcie_inbound_write_latency_seconds: quantity::write_residency_of(
            total_irp_occupancy,
            faf_occupancy,
            write_inserts,
            clockticks,
        ),
    }
}

impl IcxIrpScopeMetrics {
    fn from_measurements(
        measurements: &Accumulator<IcxIrpStackScope, IcxIrpEventKind, EventMeasurement>,
        index: usize,
    ) -> (metrics: Self)
        requires
            measurements.wf(),
            index < measurements.rows().len(),
            accumulator::first_gap(measurements.rows(), required_events()) is None,
        ensures
            metrics == scope_metrics(
                measurements.rows()[index as int].0,
                measurements.rows()[index as int].1,
            ),
    {
        proof {
            let rows = measurements.rows();
            assert forall|j: int| 0 <= j < required_events().len() implies rows[index as int].1.contains_key(
                #[trigger] required_events()[j],
            ) by {
                accumulator::lemma_no_gap(rows, required_events(), index as int, j);
            }
            assert(required_events()[0] == IcxIrpEventKind::Clockticks);
            assert(required_events()[1] == IcxIrpEventKind::TotalIrpOccupancy);
            assert(required_events()[2] == IcxIrpEventKind::WriteInserts);
        }
        let clockticks = measurements.require(index, IcxIrpEventKind::Clockticks);
        let total_irp_occupancy = measurements.require(index, IcxIrpEventKind::TotalIrpOccupancy);
        let write_inserts = measurements.require(index, IcxIrpEventKind::WriteInserts);
        let all_hit_m = measurements.measurement_at(index, IcxIrpEventKind::AllHitM);
        let clflush = measurements.measurement_at(index, IcxIrpEventKind::ClFlush);
        let faf_full = measurements.measurement_at(index, IcxIrpEventKind::FafFull);
        let faf_inserts = measurements.measurement_at(index, IcxIrpEventKind::FafInserts);
        let faf_occupancy = measurements.measurement_at(index, IcxIrpEventKind::FafOccupancy);
        let lost_fwd = measurements.measurement_at(index, IcxIrpEventKind::LostFwd);
        let pci_itom = measurements.measurement_at(index, IcxIrpEventKind::PciItoM);
        let pcie_read_current = measurements.measurement_at(
            index,
            IcxIrpEventKind::PcieReadCurrent,
        );
        let read_for_ownership = measurements.measurement_at(
            index,
            IcxIrpEventKind::ReadForOwnership,
        );
        let wbmtoi = measurements.measurement_at(index, IcxIrpEventKind::WbMtoI);
        let scope = measurements.scope_at(index);
        IcxIrpScopeMetrics {
            scope: scope.scope,
            stack: scope.stack.stack(),
            all_hit_m_snoop_responses_per_second: quantity::optional_event_rate(all_hit_m),
            clflush_bytes_per_second: quantity::optional_line_rate(clflush),
            faf_full_ratio: quantity::optional_ratio(faf_full, clockticks),
            faf_occupancy_entries: quantity::optional_occupancy(faf_occupancy, clockticks),
            pcie_inbound_reads_per_second: quantity::optional_event_rate(faf_inserts),
            frequency_hz: quantity::count_frequency(clockticks),
            io_write_conflict_ratio: quantity::optional_ratio(lost_fwd, write_inserts),
            pci_itom_bytes_per_second: quantity::optional_line_rate(pci_itom),
            pcie_read_current_bytes_per_second: quantity::optional_line_rate(pcie_read_current),
            read_for_ownership_bytes_per_second: quantity::optional_line_rate(read_for_ownership),
            total_irp_occupancy_entries: quantity::scaled_ratio(total_irp_occupancy, clockticks),
            wbmtoi_bytes_per_second: quantity::optional_line_rate(wbmtoi),
            pcie_inbound_writes_per_second: quantity::event_rate(write_inserts),
            pcie_inbound_write_latency_seconds: quantity::write_residency(
                total_irp_occupancy,
                faf_occupancy,
                write_inserts,
                clockticks,
            ),
        }
    }
}

/// What is reported for all stacks.
#[derive(Debug)]
pub struct IcxIrpMetrics {
    pub scopes: Vec<IcxIrpScopeMetrics>,
}

/// Whether `result` is the report on measurements: one entry for each scope, in scope order, or
/// the first event that is needed and was not counted.
pub open spec fn reported(
    rows: Seq<(IcxIrpStackScope, Map<IcxIrpEventKind, EventMeasurement>)>,
    result: Result<IcxIrpMetrics, CollectorError>,
) -> bool {
    match accumulator::first_gap(rows, required_events()) {
        Some(kind) => result matches Err(error) && error == (CollectorError::MissingMeasurement {
            unit: "IRP",
            event: event_name(kind),
        }),
        None => result matches Ok(metrics) && metrics.scopes@ == rows.map_values(
            |row: (
                IcxIrpStackScope,
                Map<IcxIrpEventKind, EventMeasurement>
            )| scope_metrics(row.0, row.1),
        ),
    }
}

impl IcxIrpMetrics {
    /// Reports every scope, in scope order; an error where an event that is needed was not
    /// counted in some scope.
    pub fn from_measurements(
        measurements: &Accumulator<IcxIrpStackScope, IcxIrpEventKind, EventMeasurement>,
    ) -> (result: Result<Self, CollectorError>)
        requires
            measurements.wf(),
        ensures
            reported(measurements.rows(), result),
    {
        match measurements.find_gap(&required_list()) {
            Some(kind) => Err(
                CollectorError::MissingMeasurement { unit: "IRP", event: kind.name() },
            ),
            None => {
                let ghost rows = measurements.rows();
                let mut scopes: Vec<IcxIrpScopeMetrics> = Vec::new();
                let mut i: usize = 0;
                while i < measurements.len()
                    invariant
                        measurements.wf(),
                        rows == measurements.rows(),
                        accumulator::first_gap(rows, required_events()) is None,
                        i <= rows.len(),
                        scopes@.len() == i,
                        forall|k: int|
                            0 <= k < i ==> (#[trigger] scopes@[k]) == scope_metrics(
                                rows[k].0,
                                rows[k].1,
                            ),
                    decreases rows.len() - i,
                {
                    scopes.push(IcxIrpScopeMetrics::from_measurements(measurements, i));
                    i += 1;
                }
                assert(scopes@ =~= rows.map_values(
                    |row: (
                        IcxIrpStackScope,
                        Map<IcxIrpEventKind, EventMeasurement>
                    )| scope_metrics(row.0, row.1),
                ));
                Ok(IcxIrpMetrics { scopes })
            },
        }
    }
}

/// A unit: a stack of a die, reached through a processor of the die.
#[derive(Clone, Copy, Debug, PartialEq, Eq, Structural)]
pub struct UnitPlace {
    pub cpu: u32,
    pub scope: IcxIrpStackScope,
}

/// The units of a die, stack by stack.
pub open spec fn die_places(leader: Leader<IcxUncoreScope>) -> Seq<UnitPlace> {
    all_stacks().map_values(
        |stack: IcxIrpStackId| UnitPlace {
            cpu: leader.cpu,
            scope: IcxIrpStackScope { scope: leader.scope, stack },
        },
    )
}

/// The units of all dies, die by die.
pub open spec fn all_places(leaders: Seq<Leader<IcxUncoreScope>>) -> Seq<UnitPlace>
    decreases leaders.len(),
{
    if leaders.len() == 0 {
        Seq::empty()
    } else {
        all_places(leaders.drop_last()) + die_places(leaders.last())
    }
}

fn list_places(leaders: &Vec<Leader<IcxUncoreScope>>) -> (places: Vec<UnitPlace>)
    ensures
        places@ == all_places(leaders@),
{
    let stacks: Vec<IcxIrpStackId> = IcxIrpStackId::all();
    let mut places: Vec<UnitPlace> = Vec::new();
    let mut i: usize = 0;
    assert(leaders@.take(0) =~= Seq::<Leader<IcxUncoreScope>>::empty());
    while i < leaders.len()
        invariant
            i <= leaders@.len(),
            stacks@ == all_stacks(),
            places@ == all_places(leaders@.take(i as int)),
        decreases leaders@.len() - i,
    {
        let leader = leaders[i];
        let ghost before = places@;
        let mut j: usize = 0;
        while j < stacks.len()
            invariant
                j <= stacks@.len(),
                stacks@ == all_stacks(),
                places@ == before + die_places(leader).take(j as int),
            decreases stacks@.len() - j,
        {
            places.push(
                UnitPlace {
                    cpu: leader.cpu,
                    scope: IcxIrpStackScope { scope: leader.scope, stack: stacks[j] },
                },
            );
            proof {
                let all = die_places(leader);
                assert(all.take(j + 1) =~= all.take(j as int).push(all[j as int]));
                assert(places@ =~= before + all.take(j + 1));
            }
            j += 1;
        }
        proof {
            assert(die_places(leader).take(j as int) =~= die_places(leader));
            assert(leaders@.take(i + 1).drop_last() =~= leaders@.take(i as int));
        }
        i += 1;
    }
    assert(leaders@.take(i as int) =~= leaders@);
    places
}

/// The registers of a unit.
pub open spec fn is_unit(unit: Unit<IcxIrpStackScope>, place: UnitPlace) -> bool {
    let cpu = place.cpu;
    let base = UNIT_CONTROL_OFFSETS@[stack_index(place.scope.stack)];
    &&& unit.scope == place.scope
    &&& unit.control == Register::Msr { address: base as u64, cpu }
    &&& unit.width == Width::Bits64
    &&& unit.filter is None
    &&& unit.controls@ == seq![
        Register::Msr { address: (base + CONTROL_OFFSET) as u64, cpu },
        Register::Msr { address: (base + CONTROL_OFFSET + 1) as u64, cpu },
    ]
    &&& unit.counters@ == seq![
        Register::Msr { address: (base + COUNTER_OFFSET) as u64, cpu },
        Register::Msr { address: (base + COUNTER_OFFSET + 1) as u64, cpu },
    ]
    &&& unit.fixed_control is None
    &&& unit.fixed_counter is None
}

fn unit_at(place: UnitPlace) -> (unit: Unit<IcxIrpStackScope>)
    ensures
        is_unit(unit, place),
{
    let cpu: u32 = place.cpu;
    let spec = icx_irp_spec();
    let stack = place.scope.stack.stack();
    let unit = Unit {
        scope: place.scope,
        control: Register::Msr { address: irp_unit_control_offset(spec, stack), cpu },
        width: Width::Bits64,
        filter: None,
        controls: vec![
            Register::Msr { address: irp_control_offset(spec, stack, 0), cpu },
            Register::Msr { address: irp_control_offset(spec, stack, 1), cpu },
        ],
        counters: vec![
            Register::Msr { address: irp_counter_offset(spec, stack, 0), cpu },
            Register::Msr { address: irp_counter_offset(spec, stack, 1), cpu },
        ],
        fixed_control: None,
        fixed_counter: None,
    };
    proof {
        let base = UNIT_CONTROL_OFFSETS@[stack_index(place.scope.stack)];
        assert(unit.controls@ =~= seq![
            Register::Msr { address: (base + CONTROL_OFFSET) as u64, cpu },
            Register::Msr { address: (base + CONTROL_OFFSET + 1) as u64, cpu },
        ]);
        assert(unit.counters@ =~= seq![
            Register::Msr { address: (base + COUNTER_OFFSET) as u64, cpu },
            Register::Msr { address: (base + COUNTER_OFFSET + 1) as u64, cpu },
        ]);
    }
    unit
}

/// Whether `units` are the units at `places`, in the same order.
pub open spec fn are_units(units: Seq<Unit<IcxIrpStackScope>>, places: Seq<UnitPlace>) -> bool {
    &&& units.len() == places.len()
    &&& forall|i: int| 0 <= i < places.len() ==> is_unit(#[trigger] units[i], places[i])
}

/// Whether `result` is the collector for the processors: one unit for each stack of each die, in
/// die order. It is an error for any other processor, and where there is no die, or a processor has
/// no package.
pub open spec fn created(
    architecture: Architecture,
    topologies: Seq<CpuTopology>,
    result: Result<IcxIrpCollector, CollectorError>,
) -> bool {
    if architecture.server_model() != Some(IntelServerCpuModel::IceLakeXeon) {
        result matches Err(error) && error == (CollectorError::Unsupported {
            unit: "Ice Lake IRP",
            model: architecture.server_model()->0,
        })
    } else if topology::first_cpus::<IcxUncoreScope>(topologies) is None {
        result matches Err(error) && error == CollectorError::MissingPackageLevel
    } else if topologies.len() == 0 {
        result matches Err(error) && error == (CollectorError::NothingFound {
            what: "Ice Lake uncore scope leaders",
        })
    } else {
        &&& result matches Ok(collector)
        &&& collector.wf()
        &&& collector.next_group() == 0
        &&& exists|leaders: Seq<Leader<IcxUncoreScope>>|
            {
                &&& #[trigger] topology::lists_leaders(
                    leaders,
                    topology::first_cpus::<IcxUncoreScope>(topologies)->0,
                )
                &&& are_units(collector.units(), all_places(leaders))
            }
    }
}

/// Samples the I/O ring ports of Ice Lake processors.
#[derive(Debug)]
pub struct IcxIrpCollector {
    units: Vec<Unit<IcxIrpStackScope>>,
    next_group: usize,
}

impl IcxIrpCollector {
    /// The units whose counters are read.
    pub closed spec fn units(self) -> Seq<Unit<IcxIrpStackScope>> {
        self.units@
    }

    /// The group that goes first in the next sample.
    pub closed spec fn next_group(self) -> usize {
        self.next_group
    }

    /// The invariant: the next group is one of the groups, and every unit has the counters that a
    /// group uses.
    pub open spec fn wf(self) -> bool {
        &&& self.next_group() < groups().len()
        &&& units::units_have(self.units(), 2)
    }

    /// The number of rounds in a sample over an interval.
    pub open spec fn rounds(interval_nanos: u128) -> nat {
        schedule::saturated(schedule::bounded_rounds(interval_nanos as nat, groups().len() as nat))
    }

    /// Makes the next group in cyclic order go first.
    pub fn rotate_group(&mut self)
        requires
            old(self).wf(),
        ensures
            final(self).wf(),
            final(self).next_group() == (old(self).next_group() + 1) % groups().len() as int,
            final(self).units() == old(self).units(),
    {
        self.next_group = schedule::rotate(self.next_group, event_groups().len());
    }

    /// The turns of the event groups over an interval.
    pub fn schedule(&self, interval_nanos: u128) -> (slices: Vec<Slice<IcxIrpEventGroup>>)
        requires
            self.wf(),
            groups().len() * Self::rounds(interval_nanos) <= usize::MAX,
        ensures
            schedule::is_schedule(
                slices@,
                groups(),
                self.next_group() as int,
                interval_nanos,
                Self::rounds(interval_nanos),
            ),
    {
        let groups = event_groups();
        let round_count: usize = schedule::bounded_round_count(interval_nanos, groups.len());
        schedule::schedule_rounds(&groups, self.next_group, interval_nanos, round_count)
    }

    /// The slices of a sample over an interval; an error over no time, or where there are more
    /// slices than can be numbered.
    pub fn begin_sample(&self, interval_nanos: u128) -> (result: Result<
        Vec<Slice<IcxIrpEventGroup>>,
        CollectorError,
    >)
        requires
            self.wf(),
        ensures
            match result {
                Ok(slices) => interval_nanos > 0 && schedule::is_schedule(
                    slices@,
                    groups(),
                    self.next_group() as int,
                    interval_nanos,
                    Self::rounds(interval_nanos),
                ),
                Err(error) => if interval_nanos == 0 {
                    error == (CollectorError::ZeroInterval { unit: "Ice Lake IRP" })
                } else {
                    error == CollectorError::Overflow && groups().len() * Self::rounds(
                        interval_nanos,
                    ) > usize::MAX
                },
            },
    {
        if interval_nanos == 0 {
            return Err(CollectorError::ZeroInterval { unit: "Ice Lake IRP" });
        }
        let group_count: usize = event_groups().len();
        let round_count: usize = schedule::bounded_round_count(interval_nanos, group_count);
        if group_count.checked_mul(round_count).is_none() {
            return Err(CollectorError::Overflow);
        }
        Ok(self.schedule(interval_nanos))
    }

    /// Freezes and resets the counters of all units and then selects the events of a group.
    pub fn program_writes(&self, group: IcxIrpEventGroup) -> (writes: Vec<RegisterWrite>)
        requires
            self.wf(),
        ensures
            writes@ == units::all_control_writes(self.units(), seq![UNIT_FREEZE_AND_RESET])
                + units::all_program_writes(self.units(), control_words(group), 0),
    {
        let reset: Vec<u64> = vec![UNIT_FREEZE_AND_RESET];
        assert(reset@ =~= seq![UNIT_FREEZE_AND_RESET]);
        let mut writes: Vec<RegisterWrite> = units::write_controls(&self.units, &reset);
        let mut events: Vec<RegisterWrite> = units::write_events(
            &self.units,
            &group.controls(),
            0,
        );
        writes.append(&mut events);
        writes
    }

    /// Releases the counters of all units.
    pub fn unfreeze_writes(&self) -> (writes: Vec<RegisterWrite>)
        ensures
            writes@ == units::all_control_writes(self.units(), seq![UNIT_UNFREEZE]),
    {
        let words: Vec<u64> = vec![UNIT_UNFREEZE];
        assert(words@ =~= seq![UNIT_UNFREEZE]);
        units::write_controls(&self.units, &words)
    }

    /// Freezes the counters of all units.
    pub fn freeze_writes(&self) -> (writes: Vec<RegisterWrite>)
        ensures
            writes@ == units::all_control_writes(self.units(), seq![UNIT_FREEZE]),
    {
        let words: Vec<u64> = vec![UNIT_FREEZE];
        assert(words@ =~= seq![UNIT_FREEZE]);
        units::write_controls(&self.units, &words)
    }

    /// The processors whose registers are written, package by package: setting up the collector
    /// opens them for writing, and it cannot be used where that is refused.
    pub fn probe_cpus(&self) -> (cpus: Vec<u32>)
        ensures
            cpus@ == units::processors(self.units()),
    {
        units::processors_of(&self.units)
    }

    /// Reads the counters of all units.
    pub fn reads(&self) -> (reads: Vec<RegisterRead>)
        requires
            self.wf(),
        ensures
            reads@ == units::all_reads(self.units(), units::every_counter(2)),
    {
        units::reads(&self.units, &units::all_used(2))
    }

    /// Adds what a slice counted to the measurements, counter by counter.
    pub fn record(
        &self,
        group: IcxIrpEventGroup,
        readings: &SliceReadings,
        measurements: Accumulator<IcxIrpStackScope, IcxIrpEventKind, EventMeasurement>,
    ) -> (
        result: Result<Accumulator<IcxIrpStackScope, IcxIrpEventKind, EventMeasurement>, CollectorError>
    )
        requires
            measurements.wf(),
        ensures
            units::is_record_by_unit(
                self.units(),
                *readings,
                counter_kinds(group),
                measurements,
                result,
            ),
    {
        units::record_by_unit(&self.units, readings, &group.kinds(), measurements)
    }

    /// Ends a sample: the next group goes first in the next one, and the measurements are
    /// reported.
    pub fn finish_sample(
        &mut self,
        measurements: &Accumulator<IcxIrpStackScope, IcxIrpEventKind, EventMeasurement>,
    ) -> (result: Result<IcxIrpMetrics, CollectorError>)
        requires
            old(self).wf(),
            measurements.wf(),
        ensures
            final(self).wf(),
            final(self).next_group() == (old(self).next_group() + 1) % groups().len() as int,
            final(self).units() == old(self).units(),
            reported(measurements.rows(), result),
    {
        self.rotate_group();
        IcxIrpMetrics::from_measurements(measurements)
    }

    /// A collector for given units.
    pub fn from_units(units: Vec<Unit<IcxIrpStackScope>>) -> (collector: Self)
        requires
            units::units_have(units@, 2),
        ensures
            collector.wf(),
            collector.units() == units@,
            collector.next_group() == 0,
    {
        IcxIrpCollector { units, next_group: 0 }
    }

    /// A collector for the processors.
    pub fn new(architecture: &Architecture, topologies: &Vec<CpuTopology>) -> (result: Result<
        Self,
        CollectorError,
    >)
        requires
            architecture.server_model() is Some,
        ensures
            created(*architecture, topologies@, result),
    {
        let model = architecture.intel_server_model();
        match model {
            IntelServerCpuModel::IceLakeXeon => {},
            _ => {
                return Err(CollectorError::Unsupported { unit: "Ice Lake IRP", model });
            },
        }
        let leaders: Vec<Leader<IcxUncoreScope>> = match topology::leaders_in_order::<IcxUncoreScope>(topologies) {
            Ok(leaders) => leaders,
            Err(error) => {
                return Err(error);
            },
        };
        if leaders.len() == 0 {
            return Err(CollectorError::NothingFound { what: "Ice Lake uncore scope leaders" });
        }
        let places: Vec<UnitPlace> = list_places(&leaders);
        let mut units: Vec<Unit<IcxIrpStackScope>> = Vec::new();
        let mut i: usize = 0;
        while i < places.len()
            invariant
                i <= places@.len(),
                units@.len() == i,
                forall|k: int| 0 <= k < i ==> is_unit(#[trigger] units@[k], places@[k]),
            decreases places@.len() - i,
        {
            units.push(unit_at(places[i]));
            i += 1;
        }
        assert(are_units(units@, all_places(leaders@)));
        Ok(IcxIrpCollector { units, next_group: 0 })
    }
}

/// The families that are registered, in this order.
pub open spec fn families() -> Seq<MetricDescriptor> {
    seq![
        MetricDescriptor {
            name: "ocellus_irp_all_hit_m_snoop_responses_per_second",
            help: "Interval-derived IRP snoop responses that hit modified lines per second",
        },
        MetricDescriptor {
            name: "ocellus_irp_clflush_bytes_per_second",
            help: "Interval-derived IRP CLFlush bandwidth in bytes per second",
        },
        MetricDescriptor {
            name: "ocellus_irp_faf_full_ratio",
            help: "Interval-derived fraction of IRP fire-and-forget queue full cycles",
        },
        MetricDescriptor {
            name: "ocellus_irp_faf_occupancy_entries",
            help: "Average IRP fire-and-forget queue occupancy in entries",
        },
        MetricDescriptor {
            name: "ocellus_irp_pcie_inbound_reads_per_second",
            help: "Interval-derived IRP PCIe inbound reads per second",
        },
        MetricDescriptor {
            name: "ocellus_irp_frequency_hz",
            help: "Interval-derived IRP clock frequency in hertz",
        },
        MetricDescriptor {
            name: "ocellus_irp_io_write_conflict_ratio",
            help: "Interval-derived IRP I/O write conflict ratio from lost forwards over PCIe inbound writes",
        },
        MetricDescriptor {
            name: "ocellus_irp_pci_itom_bytes_per_second",
            help: "Interval-derived IRP PCI ItoM bandwidth in bytes per second",
        },
        MetricDescriptor {
            name: "ocellus_irp_pcie_read_current_bytes_per_second",
            help: "Interval-derived IRP PCIe read current bandwidth in bytes per second",
        },
        MetricDescriptor {
            name: "ocellus_irp_read_for_ownership_bytes_per_second",
            help: "Interval-derived IRP RFO bandwidth in bytes per second",
        },
        MetricDescriptor {
            name: "ocellus_irp_total_occupancy_entries",
            help: "Average total IRP read and write occupancy in entries",
        },
        MetricDescriptor {
            name: "ocellus_irp_wbmtoi_bytes_per_second",
            help: "Interval-derived IRP WbMtoI bandwidth in bytes per second",
        },
        MetricDescriptor {
            name: "ocellus_irp_pcie_inbound_writes_per_second",
            help: "Interval-derived IRP PCIe inbound writes per second",
        },
        MetricDescriptor {
            name: "ocellus_irp_pcie_inbound_write_latency_seconds",
            help: "Interval-derived IRP inbound write residency latency in seconds",
        },
    ]
}

/// The metrics that are set for a scope, in this order.
pub open spec fn scope_updates(metrics: IcxIrpScopeMetrics) -> Seq<GaugeUpdate> {
    let labels = (Labels {
        stack: Some(metrics.stack.label),
        ..export::of_die(
            metrics.scope.die_group_id,
            metrics.scope.die_id,
            metrics.scope.package_id,
        )
    });
    seq![
        GaugeUpdate {
            family: "ocellus_irp_all_hit_m_snoop_responses_per_second",
            labels,
            value: metrics.all_hit_m_snoop_responses_per_second,
        },
        GaugeUpdate {
            family: "ocellus_irp_clflush_bytes_per_second",
            labels,
            value: metrics.clflush_bytes_per_second,
        },
        GaugeUpdate { family: "ocellus_irp_faf_full_ratio", labels, value: metrics.faf_full_ratio },
        GaugeUpdate {
            family: "ocellus_irp_faf_occupancy_entries",
            labels,
            value: metrics.faf_occupancy_entries,
        },
        GaugeUpdate {
            family: "ocellus_irp_pcie_inbound_reads_per_second",
            labels,
            value: metrics.pcie_inbound_reads_per_second,
        },
        GaugeUpdate { family: "ocellus_irp_frequency_hz", labels, value: metrics.frequency_hz },
        GaugeUpdate {
            family: "ocellus_irp_io_write_conflict_ratio",
            labels,
            value: metrics.io_write_conflict_ratio,
        },
        GaugeUpdate {
            family: "ocellus_irp_pci_itom_bytes_per_second",
            labels,
            value: metrics.pci_itom_bytes_per_second,
        },
        GaugeUpdate {
            family: "ocellus_irp_pcie_read_current_bytes_per_second",
            labels,
            value: metrics.pcie_read_current_bytes_per_second,
        },
        GaugeUpdate {
            family: "ocellus_irp_read_for_ownership_bytes_per_second",
            labels,
            value: metrics.read_for_ownership_bytes_per_second,
        },
        GaugeUpdate {
            family: "ocellus_irp_total_occupancy_entries",
            labels,
            value: metrics.total_irp_occupancy_entries,
        },
        GaugeUpdate {
            family: "ocellus_irp_wbmtoi_bytes_per_second",
            labels,
            value: metrics.wbmtoi_bytes_per_second,
        },
        GaugeUpdate {
            family: "ocellus_irp_pcie_inbound_writes_per_second",
            labels,
            value: metrics.pcie_inbound_writes_per_second,
        },
        GaugeUpdate {
            family: "ocellus_irp_pcie_inbound_write_latency_seconds",
            labels,
            value: metrics.pcie_inbound_write_latency_seconds,
        },
    ]
}

/// The metrics that are set for all of them, one after the other.
pub open spec fn all_updates(metrics: IcxIrpMetrics) -> Seq<GaugeUpdate> {
    seqs::flat_map(metrics.scopes@, |metrics: IcxIrpScopeMetrics| scope_updates(metrics))
}

/// The metric families of the I/O ring ports of a processor.
#[derive(Clone, Copy, Debug)]
pub struct IcxIrpPrometheusMetrics;

impl IcxIrpPrometheusMetrics {
    /// The families to be registered.
    pub fn register() -> (families: Vec<MetricDescriptor>)
        ensures
            families@ == self::families(),
    {
        vec![
            MetricDescriptor {
                name: "ocellus_irp_all_hit_m_snoop_responses_per_second",
                help: "Interval-derived IRP snoop responses that hit modified lines per second",
            },
            MetricDescriptor {
                name: "ocellus_irp_clflush_bytes_per_second",
                help: "Interval-derived IRP CLFlush bandwidth in bytes per second",
            },
            MetricDescriptor {
                name: "ocellus_irp_faf_full_ratio",
                help: "Interval-derived fraction of IRP fire-and-forget queue full cycles",
            },
            MetricDescriptor {
                name: "ocellus_irp_faf_occupancy_entries",
                help: "Average IRP fire-and-forget queue occupancy in entries",
            },
            MetricDescriptor {
                name: "ocellus_irp_pcie_inbound_reads_per_second",
                help: "Interval-derived IRP PCIe inbound reads per second",
            },
            MetricDescriptor {
                name: "ocellus_irp_frequency_hz",
                help: "Interval-derived IRP clock frequency in hertz",
            },
            MetricDescriptor {
                name: "ocellus_irp_io_write_conflict_ratio",
                help: "Interval-derived IRP I/O write conflict ratio from lost forwards over PCIe inbound writes",
            },
            MetricDescriptor {
                name: "ocellus_irp_pci_itom_bytes_per_second",
                help: "Interval-derived IRP PCI ItoM bandwidth in bytes per second",
            },
            MetricDescriptor {
                name: "ocellus_irp_pcie_read_current_bytes_per_second",
                help: "Interval-derived IRP PCIe read current bandwidth in bytes per second",
            },
            MetricDescriptor {
                name: "ocellus_irp_read_for_ownership_bytes_per_second",
                help: "Interval-derived IRP RFO bandwidth in bytes per second",
            },
            MetricDescriptor {
                name: "ocellus_irp_total_occupancy_entries",
                help: "Average total IRP read and write occupancy in entries",
            },
            MetricDescriptor {
                name: "ocellus_irp_wbmtoi_bytes_per_second",
                help: "Interval-derived IRP WbMtoI bandwidth in bytes per second",
            },
            MetricDescriptor {
                name: "ocellus_irp_pcie_inbound_writes_per_second",
                help: "Interval-derived IRP PCIe inbound writes per second",
            },
            MetricDescriptor {
                name: "ocellus_irp_pcie_inbound_write_latency_seconds",
                help: "Interval-derived IRP inbound write residency latency in seconds",
            },
        ]
    }

    /// The metrics to be set.
    pub fn update(&self, metrics: &IcxIrpMetrics) -> (updates: Vec<GaugeUpdate>)
        ensures
            updates@ == all_updates(*metrics),
    {
        let ghost f = |metrics: IcxIrpScopeMetrics| scope_updates(metrics);
        let mut updates: Vec<GaugeUpdate> = Vec::new();
        let mut i: usize = 0;
        proof {
            seqs::lemma_flat_map_ends(metrics.scopes@, f);
        }
        while i < metrics.scopes.len()
            invariant
                i <= metrics.scopes@.len(),
                f == (|metrics: IcxIrpScopeMetrics| scope_updates(metrics)),
                updates@ == seqs::flat_map(metrics.scopes@.take(i as int), f),
            decreases metrics.scopes@.len() - i,
        {
            let scope = &metrics.scopes[i];
            let labels = Labels {
                stack: Some(scope.stack.label()),
                ..Labels::die(
                    scope.scope.die_group_id,
                    scope.scope.die_id,
                    scope.scope.package_id,
                )
            };
            let ghost before = updates@;
            updates.push(
                GaugeUpdate {
                    family: "ocellus_irp_all_hit_m_snoop_responses_per_second",
                    labels,
                    value: scope.all_hit_m_snoop_responses_per_second,
                },
            );
            updates.push(
                GaugeUpdate {
                    family: "ocellus_irp_clflush_bytes_per_second",
                    labels,
                    value: scope.clflush_bytes_per_second,
                },
            );
            updates.push(
                GaugeUpdate {
                    family: "ocellus_irp_faf_full_ratio",
                    labels,
                    value: scope.faf_full_ratio,
                },
            );
            updates.push(
                GaugeUpdate {
                    family: "ocellus_irp_faf_occupancy_entries",
                    labels,
                    value: scope.faf_occupancy_entries,
                },
            );
            updates.push(
                GaugeUpdate {
                    family: "ocellus_irp_pcie_inbound_reads_per_second",
                    labels,
                    value: scope.pcie_inbound_reads_per_second,
                },
            );
            updates.push(
                GaugeUpdate {
                    family: "ocellus_irp_frequency_hz",
                    labels,
                    value: scope.frequency_hz,
                },
            );
            updates.push(
                GaugeUpdate {
                    family: "ocellus_irp_io_write_conflict_ratio",
                    labels,
                    value: scope.io_write_conflict_ratio,
                },
            );
            updates.push(
                GaugeUpdate {
                    family: "ocellus_irp_pci_itom_bytes_per_second",
                    labels,
                    value: scope.pci_itom_bytes_per_second,
                },
            );
            updates.push(
                GaugeUpdate {
                    family: "ocellus_irp_pcie_read_current_bytes_per_second",
                    labels,
                    value: scope.pcie_read_current_bytes_per_second,
                },
            );
            updates.push(
                GaugeUpdate {
                    family: "ocellus_irp_read_for_ownership_bytes_per_second",
                    labels,
                    value: scope.read_for_ownership_bytes_per_second,
                },
            );
            updates.push(
                GaugeUpdate {
                    family: "ocellus_irp_total_occupancy_entries",
                    labels,
                    value: scope.total_irp_occupancy_entries,
                },
            );
            updates.push(
                GaugeUpdate {
                    family: "ocellus_irp_wbmtoi_bytes_per_second",
                    labels,
                    value: scope.wbmtoi_bytes_per_second,
                },
            );
            updates.push(
                GaugeUpdate {
                    family: "ocellus_irp_pcie_inbound_writes_per_second",
                    labels,
                    value: scope.pcie_inbound_writes_per_second,
                },
            );
            updates.push(
                GaugeUpdate {
                    family: "ocellus_irp_pcie_inbound_write_latency_seconds",
                    labels,
                    value: scope.pcie_inbound_write_latency_seconds,
                },
            );
            proof {
                assert(updates@ =~= before + scope_updates(*scope));
                seqs::lemma_flat_map_step(metrics.scopes@, f, i as int);
            }
            i += 1;
        }
        proof {
            seqs::lemma_flat_map_ends(metrics.scopes@, f);
        }
        updates
    }
}

/// Every metric that is set belongs to a family that is registered.
pub proof fn updates_are_registered(metrics: IcxIrpMetrics)
    ensures
        export::all_registered(all_updates(metrics), families()),
{
    let descriptors = families();
    let scopes = metrics.scopes@;
    let f = |metrics: IcxIrpScopeMetrics| scope_updates(metrics);
    assert forall|k: int| 0 <= k < scopes.len() implies export::all_registered(
        f(#[trigger] scopes[k]),
        descriptors,
    ) by {
        let updates = f(scopes[k]);
        assert forall|i: int| 0 <= i < updates.len() implies export::is_registered(
            #[trigger] updates[i],
            descriptors,
        ) by {
            assert(descriptors[0].name == updates[0].family);
            assert(descriptors[1].name == updates[1].family);
            assert(descriptors[2].name == updates[2].family);
            assert(descriptors[3].name == updates[3].family);
            assert(descriptors[4].name == updates[4].family);
            assert(descriptors[5].name == updates[5].family);
            assert(descriptors[6].name == updates[6].family);
            assert(descriptors[7].name == updates[7].family);
            assert(descriptors[8].name == updates[8].family);
            assert(descriptors[9].name == updates[9].family);
            assert(descriptors[10].name == updates[10].family);
            assert(descriptors[11].name == updates[11].family);
            assert(descriptors[12].name == updates[12].family);
            assert(descriptors[13].name == updates[13].family);
        }
    }
    export::lemma_all_registered(scopes, f, descriptors);
}

/// A sample that ran all of its slices is reported: no event that a report needs is missing, and
/// every scope that has units is in it.
#[verifier::spinoff_prover]
pub proof fn complete_sample_is_reported(
    collector: IcxIrpCollector,
    interval_nanos: u128,
    slices: Seq<Slice<IcxIrpEventGroup>>,
    readings: Seq<SliceReadings>,
    steps: Seq<Accumulator<IcxIrpStackScope, IcxIrpEventKind, EventMeasurement>>,
    result: Result<IcxIrpMetrics, CollectorError>,
)
    requires
        collector.wf(),
        schedule::is_schedule(
            slices,
            groups(),
            collector.next_group() as int,
            interval_nanos,
            IcxIrpCollector::rounds(interval_nanos),
        ),
        steps.len() == slices.len() + 1,
        steps.last().wf(),
        steps[0].grid() == Map::<IcxIrpStackScope, Map<IcxIrpEventKind, EventMeasurement>>::empty(),
        forall|i: int|
            0 <= i < slices.len() ==> units::is_record_by_unit(
                collector.units(),
                readings[i],
                counter_kinds((#[trigger] slices[i]).group),
                steps[i],
                Ok::<Accumulator<IcxIrpStackScope, IcxIrpEventKind, EventMeasurement>, CollectorError>(steps[i + 1]),
            ),
        reported(steps.last().rows(), result),
    ensures
        result is Ok,
        forall|scope: IcxIrpStackScope|
            steps.last().grid().contains_key(scope) <==> #[trigger] units::has_scope(
                collector.units(),
                scope,
            ),
{
    let grids = steps.map_values(
        |step: Accumulator<IcxIrpStackScope, IcxIrpEventKind, EventMeasurement>| step.grid(),
    );
    let scopes = |scope: IcxIrpStackScope| units::has_scope(collector.units(), scope);
    let counted = |i: int, kind: IcxIrpEventKind| completeness::occurs_in(
        counter_kinds(slices[i].group),
        kind,
    );
    schedule::rounds_are_positive(interval_nanos as nat, groups().len());
    assert forall|i: int| 0 <= i < grids.len() - 1 implies completeness::extends(
        #[trigger] grids[i],
        grids[i + 1],
        scopes,
        |kind: IcxIrpEventKind| counted(i, kind),
    ) by {
        completeness::record_by_unit_extends(
            collector.units(),
            readings[i],
            counter_kinds(slices[i].group),
            steps[i],
            steps[i + 1],
        );
    }
    assert forall|e: int| 0 <= e < required_events().len() implies exists|i: int|
        0 <= i < grids.len() - 1 && #[trigger] counted(i, #[trigger] required_events()[e]) by {
        let group: int = if e == 1 {
            2
        } else if e == 2 {
            3
        } else {
            5
        };
        let i = completeness::schedule_runs_group(
            slices,
            groups(),
            collector.next_group() as int,
            interval_nanos,
            IcxIrpCollector::rounds(interval_nanos),
            group,
        );
        assert(counter_kinds(groups()[5])[1] == Some(IcxIrpEventKind::Clockticks));
        assert(counter_kinds(groups()[2])[1] == Some(IcxIrpEventKind::TotalIrpOccupancy));
        assert(counter_kinds(groups()[3])[1] == Some(IcxIrpEventKind::WriteInserts));
        assert(counted(i, required_events()[e]));
    }
    completeness::complete_course_has_no_gap(
        steps.last(),
        grids,
        scopes,
        counted,
        required_events(),
    );
    assert forall|scope: IcxIrpStackScope|
        steps.last().grid().contains_key(scope) <==> #[trigger] units::has_scope(
            collector.units(),
            scope,
        ) by {
        assert(scopes(scope) == units::has_scope(collector.units(), scope));
    }
}

} // verus!
