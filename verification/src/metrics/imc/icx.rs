//! The memory controllers of Ice Lake processors.
use crate::accumulator::{self, Accumulator, EventKind, EventMeasurement};
use crate::arch::{Architecture, IntelServerCpuModel};
use crate::completeness;
use crate::counter::Aggregate;
use crate::error::CollectorError;
use crate::export::{self, GaugeUpdate, Labels, MetricDescriptor};
use crate::ordered_map::Key;
use crate::pci::{PciLocation, PciVendorDevice};
use crate::quantity::{self, Quantity};
use crate::registers::{self, Register, RegisterRead, RegisterWrite, Width};
use crate::schedule::{self, Slice};
use crate::seqs;
use crate::topology::{self, CpuTopology, TopologyLevel, TopologyScope, UncoreScope};
use crate::units::{self, Clock, CounterUse, SliceReadings, Tally, Unit};
use vstd::prelude::*;

verus! {

/// The distance of the counter block of a memory channel from the base of its controller.
pub const CHANNEL_BASE: u64 = 0x22800;

/// The distance between the counter blocks of two channels of a controller.
pub const CHANNEL_STEP: u64 = 0x4000;

/// The device number under which each socket shows the register that holds its memory base.
pub const UBOX_DEVICE: u8 = 0;

/// The function number under which each socket shows the register that holds its memory base.
pub const UBOX_FUNCTION: u8 = 1;

/// The register that holds the memory base of a socket.
pub const UBOX_MMIO_BASE: u64 = 0xd0;

/// The first of the registers that hold the offsets of the controllers of a socket.
pub const UBOX_MEMORY_OFFSET: u64 = 0xd8;

/// Freezes the counters of a channel.
pub const UNIT_FREEZE: u64 = 0x1_0100;

/// Freezes the counters of a channel and resets its counters and event selections.
pub const UNIT_FREEZE_AND_RESET: u64 = 0x1_0103;

/// Releases the counters of a channel.
pub const UNIT_UNFREEZE: u64 = 0x1_0000;

/// The scope of a memory controller report: a die.
#[derive(Clone, Copy, Debug, PartialEq, Eq, Structural)]
pub struct IcxImcScope {
    pub die_group_id: u32,
    pub die_id: u32,
    pub package_id: u32,
}

impl Key for IcxImcScope {
    open spec fn rank(self) -> int {
        (self.die_group_id * 0x1_0000_0000 + self.die_id) * 0x1_0000_0000 + self.package_id
    }

    proof fn rank_injective(a: Self, b: Self) {
    }

    fn precedes(&self, other: &Self) -> (result: bool) {
        if self.die_group_id != other.die_group_id {
            self.die_group_id < other.die_group_id
        } else if self.die_id != other.die_id {
            self.die_id < other.die_id
        } else {
            self.package_id < other.package_id
        }
    }
}

impl TopologyScope for IcxImcScope {
    open spec fn of(levels: Seq<TopologyLevel>) -> Option<Self> {
        match topology::die_scope(levels) {
            Some(scope) => Some(
                IcxImcScope {
                    die_group_id: scope.die_group_id,
                    die_id: scope.die_id,
                    package_id: scope.package_id,
                },
            ),
            None => None,
        }
    }

    fn from_topology(topology: &CpuTopology) -> (scope: Result<Self, CollectorError>) {
        match UncoreScope::from_topology(topology) {
            Ok(scope) => Ok(
                IcxImcScope {
                    die_group_id: scope.die_group_id,
                    die_id: scope.die_id,
                    package_id: scope.package_id,
                },
            ),
            Err(error) => Err(error),
        }
    }
}

/// What is counted in a memory channel.
#[derive(Clone, Copy, Debug, PartialEq, Eq, Structural)]
pub enum IcxImcEventKind {
    Activate,
    PageMissPrecharge,
    ReadCas,
    ReadInsert,
    ReadOccupancy,
    WriteCas,
    WriteInsert,
    WriteOccupancy,
}

/// The place of an event in the order of the events.
pub open spec fn event_index(kind: IcxImcEventKind) -> int {
    match kind {
        IcxImcEventKind::Activate => 0,
        IcxImcEventKind::PageMissPrecharge => 1,
        IcxImcEventKind::ReadCas => 2,
        IcxImcEventKind::ReadInsert => 3,
        IcxImcEventKind::ReadOccupancy => 4,
        IcxImcEventKind::WriteCas => 5,
        IcxImcEventKind::WriteInsert => 6,
        IcxImcEventKind::WriteOccupancy => 7,
    }
}

/// The name of an event, as it is shown in an error.
pub open spec fn event_name(kind: IcxImcEventKind) -> &'static str {
    match kind {
        IcxImcEventKind::Activate => "Activate",
        IcxImcEventKind::PageMissPrecharge => "PageMissPrecharge",
        IcxImcEventKind::ReadCas => "ReadCas",
        IcxImcEventKind::ReadInsert => "ReadInsert",
        IcxImcEventKind::ReadOccupancy => "ReadOccupancy",
        IcxImcEventKind::WriteCas => "WriteCas",
        IcxImcEventKind::WriteInsert => "WriteInsert",
        IcxImcEventKind::WriteOccupancy => "WriteOccupancy",
    }
}

impl IcxImcEventKind {
    fn index(self) -> (index: u8)
        ensures
            index == event_index(self),
    {
        match self {
            IcxImcEventKind::Activate => 0,
            IcxImcEventKind::PageMissPrecharge => 1,
            IcxImcEventKind::ReadCas => 2,
            IcxImcEventKind::ReadInsert => 3,
            IcxImcEventKind::ReadOccupancy => 4,
            IcxImcEventKind::WriteCas => 5,
            IcxImcEventKind::WriteInsert => 6,
            IcxImcEventKind::WriteOccupancy => 7,
        }
    }

    /// The name of the event, as it is shown in an error.
    pub fn name(self) -> (name: &'static str)
        ensures
            name == event_name(self),
    {
        match self {
            IcxImcEventKind::Activate => "Activate",
            IcxImcEventKind::PageMissPrecharge => "PageMissPrecharge",
            IcxImcEventKind::ReadCas => "ReadCas",
            IcxImcEventKind::ReadInsert => "ReadInsert",
            IcxImcEventKind::ReadOccupancy => "ReadOccupancy",
            IcxImcEventKind::WriteCas => "WriteCas",
            IcxImcEventKind::WriteInsert => "WriteInsert",
            IcxImcEventKind::WriteOccupancy => "WriteOccupancy",
        }
    }
}

impl Key for IcxImcEventKind {
    open spec fn rank(self) -> int {
        event_index(self)
    }

    proof fn rank_injective(a: Self, b: Self) {
    }

    fn precedes(&self, other: &Self) -> (result: bool) {
        self.index() < other.index()
    }
}

impl EventKind for IcxImcEventKind {
    open spec fn is_counted(self) -> bool {
        true
    }

    fn counts(&self) -> (result: bool) {
        true
    }
}

/// An event that a counter can count; a counter without one stays off.
#[derive(Clone, Copy, Debug, PartialEq, Eq, Structural)]
pub struct IcxImcEventSpec {
    pub event: u8,
    pub kind: Option<IcxImcEventKind>,
    pub umask: u8,
}

impl IcxImcEventSpec {
    /// An event of which the counts of several channels are summed.
    pub fn sum(kind: IcxImcEventKind, event: u8, umask: u8) -> (spec: Self)
        ensures
            spec == sum_of(kind, event, umask),
    {
        IcxImcEventSpec { event, kind: Some(kind), umask }
    }

    /// No event.
    pub fn disabled() -> (spec: Self)
        ensures
            spec == no_event(),
    {
        IcxImcEventSpec { event: 0, kind: None, umask: 0 }
    }
}

/// An event of which the counts of several channels are summed.
pub open spec fn sum_of(kind: IcxImcEventKind, event: u8, umask: u8) -> IcxImcEventSpec {
    IcxImcEventSpec { event, kind: Some(kind), umask }
}

/// No event.
pub open spec fn no_event() -> IcxImcEventSpec {
    IcxImcEventSpec { event: 0, kind: None, umask: 0 }
}

/// The events that the counters of a channel count at the same time.
#[derive(Clone, Copy, Debug, PartialEq, Eq)]
pub struct IcxImcEventGroup {
    pub events: [IcxImcEventSpec; 4],
}

/// What each counter counts while a group is programmed.
pub open spec fn counter_uses(group: IcxImcEventGroup) -> Seq<CounterUse<IcxImcEventKind>> {
    group.events@.map_values(
        |event: IcxImcEventSpec| CounterUse { aggregate: Aggregate::Sum, kind: event.kind },
    )
}

/// The control word of an event: event number, unit mask, reset, overflow and enable bits; zero
/// without an event.
pub open spec fn control_word(event: IcxImcEventSpec) -> u64 {
    if event.kind is None {
        0
    } else {
        (event.event + event.umask * 0x100 + registers::COUNT_AND_REPORT_OVERFLOW) as u64
    }
}

/// The control words of the counters while a group is programmed.
pub open spec fn control_words(group: IcxImcEventGroup) -> Seq<Option<u64>> {
    group.events@.map_values(|event: IcxImcEventSpec| Some(control_word(event)))
}

impl IcxImcEventGroup {
    /// What each counter counts.
    pub fn uses(&self) -> (uses: Vec<CounterUse<IcxImcEventKind>>)
        ensures
            uses@ == counter_uses(*self),
    {
        let uses: Vec<CounterUse<IcxImcEventKind>> = vec![
            CounterUse { aggregate: Aggregate::Sum, kind: self.events[0].kind },
            CounterUse { aggregate: Aggregate::Sum, kind: self.events[1].kind },
            CounterUse { aggregate: Aggregate::Sum, kind: self.events[2].kind },
            CounterUse { aggregate: Aggregate::Sum, kind: self.events[3].kind },
        ];
        assert(uses@ =~= counter_uses(*self));
        uses
    }

    /// The control words of the counters.
    pub fn controls(&self) -> (words: Vec<Option<u64>>)
        ensures
            words@ == control_words(*self),
    {
        let words: Vec<Option<u64>> = vec![
            Some(counter_control(self.events[0])),
            Some(counter_control(self.events[1])),
            Some(counter_control(self.events[2])),
            Some(counter_control(self.events[3])),
        ];
        assert(words@ =~= control_words(*self));
        words
    }
}

/// The control word of an event.
pub fn counter_control(event: IcxImcEventSpec) -> (word: u64)
    ensures
        word == control_word(event),
{
    if event.kind.is_none() {
        return 0;
    }
    registers::select_word(event.event, event.umask, registers::COUNT_AND_REPORT_OVERFLOW)
}

/// The event groups, in the order in which they take turns.
pub open spec fn groups() -> Seq<IcxImcEventGroup> {
    seq![
        IcxImcEventGroup {
            events: [
                sum_of(IcxImcEventKind::ReadOccupancy, 0x80, 0x00),
                sum_of(IcxImcEventKind::ReadOccupancy, 0x81, 0x00),
                sum_of(IcxImcEventKind::WriteOccupancy, 0x82, 0x00),
                sum_of(IcxImcEventKind::WriteOccupancy, 0x83, 0x00),
            ],
        },
        IcxImcEventGroup {
            events: [
                sum_of(IcxImcEventKind::ReadInsert, 0x10, 0x03),
                sum_of(IcxImcEventKind::WriteInsert, 0x20, 0x03),
                sum_of(IcxImcEventKind::ReadCas, 0x04, 0x0f),
                sum_of(IcxImcEventKind::WriteCas, 0x04, 0x30),
            ],
        },
        IcxImcEventGroup {
            events: [
                sum_of(IcxImcEventKind::Activate, 0x01, 0x0b),
                sum_of(IcxImcEventKind::PageMissPrecharge, 0x02, 0x0c),
                no_event(),
                no_event(),
            ],
        },
    ]
}

/// The event groups, in the order in which they take turns.
pub fn event_groups() -> (table: Vec<IcxImcEventGroup>)
    ensures
        table@ == groups(),
{
    vec![
        IcxImcEventGroup {
            events: [
                IcxImcEventSpec::sum(IcxImcEventKind::ReadOccupancy, 0x80, 0x00),
                IcxImcEventSpec::sum(IcxImcEventKind::ReadOccupancy, 0x81, 0x00),
                IcxImcEventSpec::sum(IcxImcEventKind::WriteOccupancy, 0x82, 0x00),
                IcxImcEventSpec::sum(IcxImcEventKind::WriteOccupancy, 0x83, 0x00),
            ],
        },
        IcxImcEventGroup {
            events: [
                IcxImcEventSpec::sum(IcxImcEventKind::ReadInsert, 0x10, 0x03),
                IcxImcEventSpec::sum(IcxImcEventKind::WriteInsert, 0x20, 0x03),
                IcxImcEventSpec::sum(IcxImcEventKind::ReadCas, 0x04, 0x0f),
                IcxImcEventSpec::sum(IcxImcEventKind::WriteCas, 0x04, 0x30),
            ],
        },
        IcxImcEventGroup {
            events: [
                IcxImcEventSpec::sum(IcxImcEventKind::Activate, 0x01, 0x0b),
                IcxImcEventSpec::sum(IcxImcEventKind::PageMissPrecharge, 0x02, 0x0c),
                IcxImcEventSpec::disabled(),
                IcxImcEventSpec::disabled(),
            ],
        },
    ]
}

/// What is reported for the memory controllers of a die.
#[derive(Clone, Copy, Debug)]
pub struct IcxImcScopeMetrics {
    pub scope: IcxImcScope,
    pub activate_commands_per_second: Quantity,
    pub frequency_hz: Quantity,
    pub page_miss_precharge_commands_per_second: Quantity,
    pub read_cas_commands_per_second: Quantity,
    pub read_bytes_per_second: Quantity,
    pub rpq_residency_seconds: Quantity,
    pub rpq_occupancy_entries: Quantity,
    pub write_cas_commands_per_second: Quantity,
    pub write_bytes_per_second: Quantity,
    pub wpq_residency_seconds: Quantity,
    pub wpq_occupancy_entries: Quantity,
}

/// The events that a report needs, in the order in which they are looked up.
pub open spec fn required_events() -> Seq<IcxImcEventKind> {
    seq![
        IcxImcEventKind::ReadInsert,
        IcxImcEventKind::WriteInsert,
        IcxImcEventKind::ReadOccupancy,
        IcxImcEventKind::WriteOccupancy,
        IcxImcEventKind::Activate,
        IcxImcEventKind::PageMissPrecharge,
        IcxImcEventKind::ReadCas,
        IcxImcEventKind::WriteCas,
    ]
}

fn required_list() -> (kinds: Vec<IcxImcEventKind>)
    ensures
        kinds@ == required_events(),
{
    vec![
        IcxImcEventKind::ReadInsert,
        IcxImcEventKind::WriteInsert,
        IcxImcEventKind::ReadOccupancy,
        IcxImcEventKind::WriteOccupancy,
        IcxImcEventKind::Activate,
        IcxImcEventKind::PageMissPrecharge,
        IcxImcEventKind::ReadCas,
        IcxImcEventKind::WriteCas,
    ]
}

/// What is reported for a scope.
pub open spec fn scope_metrics(
    scope: IcxImcScope,
    row: Map<IcxImcEventKind, EventMeasurement>,
) -> IcxImcScopeMetrics {
    let read_insert = row[IcxImcEventKind::ReadInsert];
    let write_insert = row[IcxImcEventKind::WriteInsert];
    let read_occupancy = row[IcxImcEventKind::ReadOccupancy];
    let write_occupancy = row[IcxImcEventKind::WriteOccupancy];
    let activate = row[IcxImcEventKind::Activate];
    let page_miss_precharge = row[IcxImcEventKind::PageMissPrecharge];
    let read_cas = row[IcxImcEventKind::ReadCas];
    let write_cas = row[IcxImcEventKind::WriteCas];
    IcxImcScopeMetrics {
        scope,
        activate_commands_per_second: quantity::event_rate_of(activate),
        frequency_hz: quantity::clock_of(read_insert),
        page_miss_precharge_commands_per_second: quantity::event_rate_of(page_miss_precharge),
        read_cas_commands_per_second: quantity::event_rate_of(read_cas),
        read_bytes_per_second: quantity::line_rate_of(read_cas),
        rpq_residency_seconds: quantity::occupancy_over_rate_of(read_occupancy, read_insert),
        rpq_occupancy_entries: quantity::per_tick_of(read_occupancy),
        write_cas_commands_per_second: quantity::event_rate_of(write_cas),
        write_bytes_per_second: quantity::line_rate_of(write_cas),
        wpq_residency_seconds: quantity::occupancy_over_rate_of(write_occupancy, write_insert),
        wpq_occupancy_entries: quantity::per_tick_of(write_occupancy),
    }
}

impl IcxImcScopeMetrics {
    fn from_measurements(
        measurements: &Accumulator<IcxImcScope, IcxImcEventKind, EventMeasurement>,
        index: usize,
    ) -> (metrics: Self)
        requires
            measurements.wf(),
            index < measurements.rows().len(),
            accumulator::first_gap(measurements.rows(), required_events()) is None,
        ensures
            metrics == scope_metrics(
                measurements.rows()[index as int].0,
                measurements.rows()[index as int].1,
            ),
    {
        proof {
            let rows = measurements.rows();
            assert forall|j: int| 0 <= j < required_events().len() implies rows[index as int].1.contains_key(
                #[trigger] required_events()[j],
            ) by {
                accumulator::lemma_no_gap(rows, required_events(), index as int, j);
            }
            assert(required_events()[0] == IcxImcEventKind::ReadInsert);
            assert(required_events()[1] == IcxImcEventKind::WriteInsert);
            assert(required_events()[2] == IcxImcEventKind::ReadOccupancy);
            assert(required_events()[3] == IcxImcEventKind::WriteOccupancy);
            assert(required_events()[4] == IcxImcEventKind::Activate);
            assert(required_events()[5] == IcxImcEventKind::PageMissPrecharge);
            assert(required_events()[6] == IcxImcEventKind::ReadCas);
            assert(required_events()[7] == IcxImcEventKind::WriteCas);
        }
        let read_insert = measurements.require(index, IcxImcEventKind::ReadInsert);
        let write_insert = measurements.require(index, IcxImcEventKind::WriteInsert);
        let read_occupancy = measurements.require(index, IcxImcEventKind::ReadOccupancy);
        let write_occupancy = measurements.require(index, IcxImcEventKind::WriteOccupancy);
        let activate = measurements.require(index, IcxImcEventKind::Activate);
        let page_miss_precharge = measurements.require(index, IcxImcEventKind::PageMissPrecharge);
        let read_cas = measurements.require(index, IcxImcEventKind::ReadCas);
        let write_cas = measurements.require(index, IcxImcEventKind::WriteCas);
        let scope = measurements.scope_at(index);
        IcxImcScopeMetrics {
            scope,
            activate_commands_per_second: quantity::event_rate(activate),
            frequency_hz: quantity::clock(read_insert),
            page_miss_precharge_commands_per_second: quantity::event_rate(page_miss_precharge),
            read_cas_commands_per_second: quantity::event_rate(read_cas),
            read_bytes_per_second: quantity::line_rate(read_cas),
            rpq_residency_seconds: quantity::occupancy_over_rate(read_occupancy, read_insert),
            rpq_occupancy_entries: quantity::per_tick(read_occupancy),
            write_cas_commands_per_second: quantity::event_rate(write_cas),
            write_bytes_per_second: quantity::line_rate(write_cas),
            wpq_residency_seconds: quantity::occupancy_over_rate(write_occupancy, write_insert),
            wpq_occupancy_entries: quantity::per_tick(write_occupancy),
        }
    }
}

/// What is reported for all memory controllers.
#[derive(Debug)]
pub struct IcxImcMetrics {
    pub scopes: Vec<IcxImcScopeMetrics>,
}

/// Whether `result` is the report on measurements: one entry for each scope, in scope order, or
/// the first event that is needed and was not counted.
pub open spec fn reported(
    rows: Seq<(IcxImcScope, Map<IcxImcEventKind, EventMeasurement>)>,
    result: Result<IcxImcMetrics, CollectorError>,
) -> bool {
    match accumulator::first_gap(rows, required_events()) {
        Some(kind) => result matches Err(error) && error == (CollectorError::MissingMeasurement {
            unit: "IMC",
            event: event_name(kind),
        }),
        None => result matches Ok(metrics) && metrics.scopes@ == rows.map_values(
            |row: (
                IcxImcScope,
                Map<IcxImcEventKind, EventMeasurement>
            )| scope_metrics(row.0, row.1),
        ),
    }
}

impl IcxImcMetrics {
    /// Reports every scope, in scope order; an error where an event that is needed was not
    /// counted in some scope.
    pub fn from_measurements(
        measurements: &Accumulator<IcxImcScope, IcxImcEventKind, EventMeasurement>,
    ) -> (result: Result<Self, CollectorError>)
        requires
            measurements.wf(),
        ensures
            reported(measurements.rows(), result),
    {
        match measurements.find_gap(&required_list()) {
            Some(kind) => Err(
                CollectorError::MissingMeasurement { unit: "IMC", event: kind.name() },
            ),
            None => {
                let ghost rows = measurements.rows();
                let mut scopes: Vec<IcxImcScopeMetrics> = Vec::new();
                let mut i: usize = 0;
                while i < measurements.len()
                    invariant
                        measurements.wf(),
                        rows == measurements.rows(),
                        accumulator::first_gap(rows, required_events()) is None,
                        i <= rows.len(),
                        scopes@.len() == i,
                        forall|k: int|
                            0 <= k < i ==> (#[trigger] scopes@[k]) == scope_metrics(
                                rows[k].0,
                                rows[k].1,
                            ),
                    decreases rows.len() - i,
                {
                    scopes.push(IcxImcScopeMetrics::from_measurements(measurements, i));
                    i += 1;
                }
                assert(scopes@ =~= rows.map_values(
                    |row: (
                        IcxImcScope,
                        Map<IcxImcEventKind, EventMeasurement>
                    )| scope_metrics(row.0, row.1),
                ));
                Ok(IcxImcMetrics { scopes })
            },
        }
    }
}

/// How the memory channels of a package are found.
#[derive(Clone, Copy, Debug, PartialEq, Eq, Structural)]
pub enum IcxImcChannels {
    /// Through the base address registers of its controllers.
    UboxBars { bars_per_package: usize, channels_per_bar: usize },
}

/// What sets one processor apart from another.
#[derive(Clone, Copy, Debug)]
pub struct IcxImcSpec {
    pub channels: IcxImcChannels,
    pub name: &'static str,
}

/// Ice Lake: four controllers of three channels in each package.
pub fn icx_imc_spec() -> (spec: IcxImcSpec)
    ensures
        spec == (IcxImcSpec {
            channels: IcxImcChannels::UboxBars { bars_per_package: 4, channels_per_bar: 3 },
            name: "Ice Lake-SP",
        }),
{
    IcxImcSpec {
        channels: IcxImcChannels::UboxBars { bars_per_package: 4, channels_per_bar: 3 },
        name: "Ice Lake-SP",
    }
}

/// Whether a device is the one through which the controllers of a socket are found.
pub open spec fn is_ubox(device: PciVendorDevice) -> bool {
    &&& device.location.device == UBOX_DEVICE
    &&& device.location.function == UBOX_FUNCTION
    &&& device.device_id == 0x3451 || device.device_id == 0x3251
}

/// The devices through which the controllers of the sockets are found, in the order in which they
/// were found.
pub fn ubox_locations(devices: &Vec<PciVendorDevice>) -> (found: Vec<PciLocation>)
    ensures
        found@ == devices@.filter(|device: PciVendorDevice| is_ubox(device)).map_values(
            |device: PciVendorDevice| device.location,
        ),
{
    let ghost keep = |device: PciVendorDevice| is_ubox(device);
    let ghost place = |device: PciVendorDevice| device.location;
    let mut found: Vec<PciLocation> = Vec::new();
    let mut i: usize = 0;
    proof {
        assert(devices@.take(0) =~= Seq::<PciVendorDevice>::empty());
        reveal(Seq::filter);
        assert(found@ =~= devices@.take(0).filter(keep).map_values(place));
    }
    while i < devices.len()
        invariant
            i <= devices@.len(),
            keep == (|device: PciVendorDevice| is_ubox(device)),
            place == (|device: PciVendorDevice| device.location),
            found@ == devices@.take(i as int).filter(keep).map_values(place),
        decreases devices@.len() - i,
    {
        let device = devices[i];
        let ghost before = found@;
        proof {
            assert(devices@.take(i + 1).drop_last() =~= devices@.take(i as int));
            reveal(Seq::filter);
        }
        if device.location.device == UBOX_DEVICE && device.location.function == UBOX_FUNCTION && (
        device.device_id == 0x3451 || device.device_id == 0x3251) {
            found.push(device.location);
        }
        proof {
            assert(found@ =~= devices@.take(i + 1).filter(keep).map_values(place));
        }
        i += 1;
    }
    assert(devices@.take(i as int) =~= devices@);
    found
}

/// What the registers of a socket hold on where its `N` controllers are.
#[derive(Clone, Copy, Debug)]
pub struct UboxBars<const N: usize> {
    pub location: PciLocation,
    pub mmio_base: u32,
    pub memory_offsets: [u32; N],
}

/// The base address of a controller: 29 bits of the socket's base from bit 23 up, 11 bits of the
/// controller's offset from bit 12 up.
pub open spec fn memory_bar(mmio_base: u32, memory_offset: u32) -> int {
    (mmio_base % 0x2000_0000) * 0x80_0000 + (memory_offset % 0x800) * 0x1000
}

/// The base address of a controller.
pub fn server_memory_bar(mmio_base: u32, memory_offset: u32) -> (bar: u64)
    ensures
        bar == memory_bar(mmio_base, memory_offset),
        bar < 0x10_0000_0000_0000,
{
    let base: u64 = mmio_base as u64;
    let offset: u64 = memory_offset as u64;
    assert((((base & 0x1fff_ffff) << 23) | ((offset & 0x7ff) << 12)) == (base % 0x2000_0000)
        * 0x80_0000 + (offset % 0x800) * 0x1000) by (bit_vector)
        requires
            base < 0x1_0000_0000,
            offset < 0x1_0000_0000,
    ;
    ((base & 0x1fff_ffff) << 23) | ((offset & 0x7ff) << 12)
}

/// The base of a channel's counter block and the scope that it counts for.
#[derive(Clone, Copy, Debug, PartialEq, Eq, Structural)]
pub struct ChannelPlace {
    pub base: u64,
    pub scope: IcxImcScope,
}

/// The channel of a controller.
pub open spec fn place<const N: usize>(
    ubox: UboxBars<N>,
    scope: IcxImcScope,
    bar: int,
    channel: int,
) -> ChannelPlace {
    ChannelPlace {
        base: (memory_bar(ubox.mmio_base, ubox.memory_offsets@[bar]) + CHANNEL_BASE + channel
            * CHANNEL_STEP) as u64,
        scope,
    }
}

/// The channels of a controller.
pub open spec fn bar_places<const N: usize>(
    ubox: UboxBars<N>,
    scope: IcxImcScope,
    bar: int,
    channels_per_bar: nat,
) -> Seq<ChannelPlace> {
    Seq::new(channels_per_bar, |channel: int| place(ubox, scope, bar, channel))
}

/// The channels of the first `n` controllers of a socket.
pub open spec fn socket_places<const N: usize>(
    ubox: UboxBars<N>,
    scope: IcxImcScope,
    channels_per_bar: nat,
    n: nat,
) -> Seq<ChannelPlace>
    decreases n,
{
    if n == 0 {
        Seq::empty()
    } else {
        socket_places(ubox, scope, channels_per_bar, (n - 1) as nat) + bar_places(
            ubox,
            scope,
            n - 1,
            channels_per_bar,
        )
    }
}

/// The channels of all sockets; the sockets stand in scope order.
pub open spec fn all_places<const N: usize>(
    uboxes: Seq<UboxBars<N>>,
    scopes: Seq<IcxImcScope>,
    channels_per_bar: nat,
) -> Seq<ChannelPlace>
    decreases uboxes.len(),
{
    if uboxes.len() == 0 {
        Seq::empty()
    } else {
        all_places(uboxes.drop_last(), scopes, channels_per_bar) + socket_places(
            uboxes.last(),
            scopes[uboxes.len() - 1],
            channels_per_bar,
            N as nat,
        )
    }
}

/// Whether a controller of a socket has no base address.
pub open spec fn bar_missing<const N: usize>(ubox: UboxBars<N>, bar: int) -> bool {
    memory_bar(ubox.mmio_base, ubox.memory_offsets@[bar]) == 0
}

/// The first controller without a base address, by socket and then by number.
pub open spec fn is_first_missing_bar<const N: usize>(
    uboxes: Seq<UboxBars<N>>,
    socket: int,
    bar: int,
) -> bool {
    &&& 0 <= socket < uboxes.len()
    &&& 0 <= bar < N
    &&& bar_missing(uboxes[socket], bar)
    &&& forall|s: int, b: int|
        0 <= s <= socket && 0 <= b < N && (s < socket || b < bar) ==> !#[trigger] bar_missing(
            uboxes[s],
            b,
        )
}

/// Whether every controller of the first `n` sockets has a base address.
pub open spec fn no_bar_missing<const N: usize>(uboxes: Seq<UboxBars<N>>, n: int) -> bool {
    forall|s: int, b: int| 0 <= s < n && 0 <= b < N ==> !#[trigger] bar_missing(uboxes[s], b)
}

/// Whether `result` holds the channels of all sockets. It is an error where there are not as many
/// sockets as scopes, where a controller has no base address, and where there is no channel.
pub open spec fn places_found<const N: usize>(
    channels_per_bar: nat,
    uboxes: Seq<UboxBars<N>>,
    scopes: Seq<IcxImcScope>,
    result: Result<Vec<ChannelPlace>, CollectorError>,
) -> bool {
    let all = all_places(uboxes, scopes, channels_per_bar);
    match result {
        Ok(places) => {
            &&& uboxes.len() == scopes.len()
            &&& no_bar_missing(uboxes, uboxes.len() as int)
            &&& all.len() > 0
            &&& places@ == all
        },
        Err(error) => if uboxes.len() != scopes.len() {
            error == (CollectorError::CountMismatch {
                what: "UBOX0 devices",
                found: uboxes.len() as usize,
                expected: scopes.len() as usize,
            })
        } else if no_bar_missing(uboxes, uboxes.len() as int) {
            &&& all.len() == 0
            &&& error == (CollectorError::NothingFound {
                what: "IMC channels from UBOX memory BARs",
            })
        } else {
            exists|s: int, b: int|
                #[trigger] is_first_missing_bar(uboxes, s, b) && error
                    == (CollectorError::ZeroBar { location: uboxes[s].location, bar: b as usize })
        },
    }
}

/// Whether the channels of a controller have addresses of 64 bits.
pub open spec fn channels_fit(channels_per_bar: nat) -> bool {
    0x10_0000_0000_0000 + CHANNEL_BASE + channels_per_bar * CHANNEL_STEP <= u64::MAX
}

fn push_bar<const N: usize>(
    places: &mut Vec<ChannelPlace>,
    channels_per_bar: usize,
    ubox: &UboxBars<N>,
    scope: IcxImcScope,
    bar: usize,
)
    requires
        channels_fit(channels_per_bar as nat),
        bar < N,
    ensures
        final(places)@ == old(places)@ + bar_places(
            *ubox,
            scope,
            bar as int,
            channels_per_bar as nat,
        ),
{
    let ghost start = places@;
    let ghost all = bar_places(*ubox, scope, bar as int, channels_per_bar as nat);
    let base: u64 = server_memory_bar(ubox.mmio_base, ubox.memory_offsets[bar]);
    let mut channel: usize = 0;
    assert(places@ =~= start + all.take(0));
    while channel < channels_per_bar
        invariant
            channels_fit(channels_per_bar as nat),
            channel <= channels_per_bar,
            bar < N,
            base == memory_bar(ubox.mmio_base, ubox.memory_offsets@[bar as int]),
            base < 0x10_0000_0000_0000,
            all == bar_places(*ubox, scope, bar as int, channels_per_bar as nat),
            places@ == start + all.take(channel as int),
        decreases channels_per_bar - channel,
    {
        let place = ChannelPlace {
            base: base + CHANNEL_BASE + channel as u64 * CHANNEL_STEP,
            scope,
        };
        assert(place == all[channel as int]);
        places.push(place);
        assert(places@ =~= start + all.take(channel + 1));
        channel += 1;
    }
    assert(all.take(channel as int) =~= all);
}

/// Finds the channels of all sockets through the base address registers of their controllers.
pub fn discover_channels_from_ubox_bars<const N: usize>(
    channels_per_bar: usize,
    uboxes: &Vec<UboxBars<N>>,
    scopes: &Vec<IcxImcScope>,
) -> (result: Result<Vec<ChannelPlace>, CollectorError>)
    requires
        channels_fit(channels_per_bar as nat),
    ensures
        places_found(channels_per_bar as nat, uboxes@, scopes@, result),
{
    if uboxes.len() != scopes.len() {
        return Err(
            CollectorError::CountMismatch {
                what: "UBOX0 devices",
                found: uboxes.len(),
                expected: scopes.len(),
            },
        );
    }
    let ghost channels = channels_per_bar as nat;
    let mut places: Vec<ChannelPlace> = Vec::new();
    let mut socket: usize = 0;
    assert(uboxes@.take(0) =~= Seq::<UboxBars<N>>::empty());
    while socket < uboxes.len()
        invariant
            channels_fit(channels_per_bar as nat),
            channels == channels_per_bar,
            socket <= uboxes@.len(),
            uboxes@.len() == scopes@.len(),
            no_bar_missing(uboxes@, socket as int),
            places@ == all_places(uboxes@.take(socket as int), scopes@, channels),
        decreases uboxes@.len() - socket,
    {
        let ubox = &uboxes[socket];
        let scope = scopes[socket];
        let ghost before = places@;
        let mut bar: usize = 0;
        assert(places@ =~= before + socket_places(*ubox, scope, channels, 0));
        while bar < N
            invariant
                channels_fit(channels_per_bar as nat),
                channels == channels_per_bar,
                bar <= N,
                socket < uboxes@.len(),
                *ubox == uboxes@[socket as int],
                forall|s: int, b: int|
                    0 <= s <= socket && 0 <= b < N && (s < socket || b < bar)
                        ==> !#[trigger] bar_missing(uboxes@[s], b),
                uboxes@.len() == scopes@.len(),
                places@ == before + socket_places(*ubox, scope, channels, bar as nat),
            decreases N - bar,
        {
            if server_memory_bar(ubox.mmio_base, ubox.memory_offsets[bar]) == 0 {
                assert(is_first_missing_bar(uboxes@, socket as int, bar as int));
                return Err(CollectorError::ZeroBar { location: ubox.location, bar });
            }
            push_bar(&mut places, channels_per_bar, ubox, scope, bar);
            assert(places@ =~= before + socket_places(*ubox, scope, channels, (bar + 1) as nat));
            bar += 1;
        }
        assert(uboxes@.take(socket + 1).drop_last() =~= uboxes@.take(socket as int));
        socket += 1;
    }
    assert(uboxes@.take(socket as int) =~= uboxes@);
    if places.len() == 0 {
        Err(CollectorError::NothingFound { what: "IMC channels from UBOX memory BARs" })
    } else {
        Ok(places)
    }
}

/// The registers of a memory channel.
pub open spec fn is_channel(unit: Unit<IcxImcScope>, place: ChannelPlace) -> bool {
    let base = place.base;
    &&& unit.scope == place.scope
    &&& unit.control == Register::Mmio { base, offset: 0 }
    &&& unit.width == Width::Bits32
    &&& unit.filter is None
    &&& unit.controls@ == Seq::new(
        4,
        |i: int| Register::Mmio { base, offset: (0x40 + 4 * i) as u64 },
    )
    &&& unit.counters@ == Seq::new(
        4,
        |i: int| Register::Mmio { base, offset: (0x08 + 8 * i) as u64 },
    )
    &&& unit.fixed_control == Some(Register::Mmio { base, offset: 0x54 })
    &&& unit.fixed_counter == Some(Register::Mmio { base, offset: 0x38 })
}

fn channel(place: ChannelPlace) -> (unit: Unit<IcxImcScope>)
    ensures
        is_channel(unit, place),
{
    let base: u64 = place.base;
    let unit = Unit {
        scope: place.scope,
        control: Register::Mmio { base, offset: 0 },
        width: Width::Bits32,
        filter: None,
        controls: vec![
            Register::Mmio { base, offset: 0x40 },
            Register::Mmio { base, offset: 0x44 },
            Register::Mmio { base, offset: 0x48 },
            Register::Mmio { base, offset: 0x4c },
        ],
        counters: vec![
            Register::Mmio { base, offset: 0x08 },
            Register::Mmio { base, offset: 0x10 },
            Register::Mmio { base, offset: 0x18 },
            Register::Mmio { base, offset: 0x20 },
        ],
        fixed_control: Some(Register::Mmio { base, offset: 0x54 }),
        fixed_counter: Some(Register::Mmio { base, offset: 0x38 }),
    };
    assert(unit.controls@ =~= Seq::new(
        4,
        |i: int| Register::Mmio { base, offset: (0x40 + 4 * i) as u64 },
    ));
    assert(unit.counters@ =~= Seq::new(
        4,
        |i: int| Register::Mmio { base, offset: (0x08 + 8 * i) as u64 },
    ));
    unit
}

/// Samples the memory controllers of Ice Lake processors.
#[derive(Debug)]
pub struct IcxImcCollector {
    channels: Vec<Unit<IcxImcScope>>,
    next_group: usize,
}

impl IcxImcCollector {
    /// The units whose counters are read.
    pub closed spec fn units(self) -> Seq<Unit<IcxImcScope>> {
        self.channels@
    }

    /// The group that goes first in the next sample.
    pub closed spec fn next_group(self) -> usize {
        self.next_group
    }

    /// The invariant: the next group is one of the groups, and every unit has the counters that a
    /// group uses.
    pub open spec fn wf(self) -> bool {
        &&& self.next_group() < groups().len()
        &&& units::units_have(self.units(), 4)
    }

    /// The number of rounds in a sample over an interval.
    pub open spec fn rounds(interval_nanos: u128) -> nat {
        schedule::saturated(schedule::bounded_rounds(interval_nanos as nat, groups().len() as nat))
    }

    /// Makes the next group in cyclic order go first.
    pub fn rotate_group(&mut self)
        requires
            old(self).wf(),
        ensures
            final(self).wf(),
            final(self).next_group() == (old(self).next_group() + 1) % groups().len() as int,
            final(self).units() == old(self).units(),
    {
        self.next_group = schedule::rotate(self.next_group, event_groups().len());
    }

    /// The turns of the event groups over an interval.
    pub fn schedule(&self, interval_nanos: u128) -> (slices: Vec<Slice<IcxImcEventGroup>>)
        requires
            self.wf(),
            groups().len() * Self::rounds(interval_nanos) <= usize::MAX,
        ensures
            schedule::is_schedule(
                slices@,
                groups(),
                self.next_group() as int,
                interval_nanos,
                Self::rounds(interval_nanos),
            ),
    {
        let groups = event_groups();
        let round_count: usize = schedule::bounded_round_count(interval_nanos, groups.len());
        schedule::schedule_rounds(&groups, self.next_group, interval_nanos, round_count)
    }

    /// The slices of a sample over an interval; an error over no time, or where there are more
    /// slices than can be numbered.
    pub fn begin_sample(&self, interval_nanos: u128) -> (result: Result<
        Vec<Slice<IcxImcEventGroup>>,
        CollectorError,
    >)
        requires
            self.wf(),
        ensures
            match result {
                Ok(slices) => interval_nanos > 0 && schedule::is_schedule(
                    slices@,
                    groups(),
                    self.next_group() as int,
                    interval_nanos,
                    Self::rounds(interval_nanos),
                ),
                Err(error) => if interval_nanos == 0 {
                    error == (CollectorError::ZeroInterval { unit: "Ice Lake-SP IMC" })
                } else {
                    error == CollectorError::Overflow && groups().len() * Self::rounds(
                        interval_nanos,
                    ) > usize::MAX
                },
            },
    {
        if interval_nanos == 0 {
            return Err(CollectorError::ZeroInterval { unit: "Ice Lake-SP IMC" });
        }
        let group_count: usize = event_groups().len();
        let round_count: usize = schedule::bounded_round_count(interval_nanos, group_count);
        if group_count.checked_mul(round_count).is_none() {
            return Err(CollectorError::Overflow);
        }
        Ok(self.schedule(interval_nanos))
    }

    /// Freezes and resets the counters of all units and then selects the events of a group.
    pub fn program_writes(&self, group: IcxImcEventGroup) -> (writes: Vec<RegisterWrite>)
        requires
            self.wf(),
        ensures
            writes@ == units::all_control_writes(self.units(), seq![UNIT_FREEZE_AND_RESET])
                + units::all_program_writes(
                    self.units(),
                    control_words(group),
                    registers::FIXED_COUNTER_RESET_AND_ENABLE,
                ),
    {
        let reset: Vec<u64> = vec![UNIT_FREEZE_AND_RESET];
        assert(reset@ =~= seq![UNIT_FREEZE_AND_RESET]);
        let mut writes: Vec<RegisterWrite> = units::write_controls(&self.channels, &reset);
        let mut events: Vec<RegisterWrite> = units::write_events(
            &self.channels,
            &group.controls(),
            registers::FIXED_COUNTER_RESET_AND_ENABLE,
        );
        writes.append(&mut events);
        writes
    }

    /// Releases the counters of all units.
    pub fn unfreeze_writes(&self) -> (writes: Vec<RegisterWrite>)
        ensures
            writes@ == units::all_control_writes(self.units(), seq![UNIT_UNFREEZE]),
    {
        let words: Vec<u64> = vec![UNIT_UNFREEZE];
        assert(words@ =~= seq![UNIT_UNFREEZE]);
        units::write_controls(&self.channels, &words)
    }

    /// Freezes the counters of all units.
    pub fn freeze_writes(&self) -> (writes: Vec<RegisterWrite>)
        ensures
            writes@ == units::all_control_writes(self.units(), seq![UNIT_FREEZE]),
    {
        let words: Vec<u64> = vec![UNIT_FREEZE];
        assert(words@ =~= seq![UNIT_FREEZE]);
        units::write_controls(&self.channels, &words)
    }

    /// Reads the counters of all units, and their clock counters.
    pub fn reads(&self) -> (reads: Vec<RegisterRead>)
        requires
            self.wf(),
        ensures
            reads@ == units::all_reads(self.units(), units::every_counter(4)),
    {
        units::reads(&self.channels, &units::all_used(4))
    }

    /// Adds what a slice counted to the measurements: for every scope, the counts of its units
    /// taken together and the average of their clock ticks.
    pub fn record(
        &self,
        group: IcxImcEventGroup,
        readings: &SliceReadings,
        measurements: Accumulator<IcxImcScope, IcxImcEventKind, EventMeasurement>,
    ) -> (
        result: Result<Accumulator<IcxImcScope, IcxImcEventKind, EventMeasurement>, CollectorError>
    )
        requires
            measurements.wf(),
        ensures
            units::is_record_by_scope(
                self.units(),
                *readings,
                Clock::Masked,
                Tally::Event,
                counter_uses(group),
                measurements,
                result,
            ),
    {
        units::record_by_scope(
            &self.channels,
            readings,
            Clock::Masked,
            Tally::Event,
            &group.uses(),
            measurements,
        )
    }

    /// Ends a sample: the next group goes first in the next one, and the measurements are
    /// reported.
    pub fn finish_sample(
        &mut self,
        measurements: &Accumulator<IcxImcScope, IcxImcEventKind, EventMeasurement>,
    ) -> (result: Result<IcxImcMetrics, CollectorError>)
        requires
            old(self).wf(),
            measurements.wf(),
        ensures
            final(self).wf(),
            final(self).next_group() == (old(self).next_group() + 1) % groups().len() as int,
            final(self).units() == old(self).units(),
            reported(measurements.rows(), result),
    {
        self.rotate_group();
        IcxImcMetrics::from_measurements(measurements)
    }

    /// A collector for given units.
    pub fn from_units(channels: Vec<Unit<IcxImcScope>>) -> (collector: Self)
        requires
            units::units_have(channels@, 4),
        ensures
            collector.wf(),
            collector.units() == channels@,
            collector.next_group() == 0,
    {
        IcxImcCollector { channels, next_group: 0 }
    }

    /// A collector for the processor: Ice Lake only. The channels are those of the controllers
    /// that the registers of each socket name; the sockets are taken in scope order.
    pub fn new(
        architecture: &Architecture,
        topologies: &Vec<CpuTopology>,
        uboxes: &Vec<UboxBars<4>>,
    ) -> (result: Result<Self, CollectorError>)
        requires
            architecture.server_model() is Some,
        ensures
            match result {
                Ok(collector) => {
                    &&& architecture.server_model() == Some(IntelServerCpuModel::IceLakeXeon)
                    &&& collector.wf()
                    &&& collector.next_group() == 0
                    &&& topologies@.len() > 0
                    &&& topology::first_cpus::<IcxImcScope>(topologies@) is Some
                    &&& exists|scopes: Seq<IcxImcScope>, places: Vec<ChannelPlace>|
                        {
                            &&& topology::lists_scopes(
                                scopes,
                                topology::first_cpus::<IcxImcScope>(topologies@)->0,
                            )
                            &&& #[trigger] places_found(3, uboxes@, scopes, Ok(places))
                            &&& collector.units().len() == places@.len()
                            &&& forall|i: int|
                                0 <= i < places@.len() ==> is_channel(
                                    #[trigger] collector.units()[i],
                                    places@[i],
                                )
                        }
                },
                Err(error) => {
                    let model = architecture.server_model()->0;
                    if model != IntelServerCpuModel::IceLakeXeon {
                        error == (CollectorError::Unsupported { unit: "Ice Lake-SP IMC", model })
                    } else if topology::first_cpus::<IcxImcScope>(topologies@) is None {
                        error == CollectorError::MissingPackageLevel
                    } else if topologies@.len() == 0 {
                        error == (CollectorError::NothingFound { what: "IMC scopes" })
                    } else {
                        exists|scopes: Seq<IcxImcScope>|
                            {
                                &&& topology::lists_scopes(
                                    scopes,
                                    topology::first_cpus::<IcxImcScope>(topologies@)->0,
                                )
                                &&& #[trigger] places_found(3, uboxes@, scopes, Err(error))
                            }
                    }
                },
            },
    {
        let model = architecture.intel_server_model();
        match model {
            IntelServerCpuModel::IceLakeXeon => {},
            _ => {
                return Err(CollectorError::Unsupported { unit: "Ice Lake-SP IMC", model });
            },
        }
        let scopes: Vec<IcxImcScope> = match topology::scopes_in_order::<IcxImcScope>(topologies) {
            Ok(scopes) => scopes,
            Err(error) => {
                return Err(error);
            },
        };
        if scopes.len() == 0 {
            return Err(CollectorError::NothingFound { what: "IMC scopes" });
        }
        let places: Vec<ChannelPlace> = match discover_channels_from_ubox_bars(3, uboxes, &scopes) {
            Ok(places) => places,
            Err(error) => {
                return Err(error);
            },
        };
        let mut channels: Vec<Unit<IcxImcScope>> = Vec::new();
        let mut i: usize = 0;
        while i < places.len()
            invariant
                i <= places@.len(),
                channels@.len() == i,
                forall|k: int| 0 <= k < i ==> is_channel(#[trigger] channels@[k], places@[k]),
            decreases places@.len() - i,
        {
            channels.push(channel(places[i]));
            i += 1;
        }
        assert(places_found(3, uboxes@, scopes@, Ok(places)));
        Ok(IcxImcCollector { channels, next_group: 0 })
    }
}

/// The families that are registered, in this order.
pub open spec fn families() -> Seq<MetricDescriptor> {
    seq![
        MetricDescriptor {
            name: "ocellus_imc_activate_commands_per_second",
            help: "Interval-derived IMC activate commands per second",
        },
        MetricDescriptor {
            name: "ocellus_imc_frequency_hz",
            help: "Interval-derived IMC DCLK frequency in hertz",
        },
        MetricDescriptor {
            name: "ocellus_imc_page_miss_precharge_commands_per_second",
            help: "Interval-derived IMC page-miss precharge commands per second",
        },
        MetricDescriptor {
            name: "ocellus_imc_read_cas_commands_per_second",
            help: "Interval-derived IMC read CAS commands per second",
        },
        MetricDescriptor {
            name: "ocellus_imc_read_bytes_per_second",
            help: "Interval-derived IMC read bandwidth in bytes per second",
        },
        MetricDescriptor {
            name: "ocellus_imc_rpq_residency_seconds",
            help: "Interval-derived IMC read pending queue residency in seconds",
        },
        MetricDescriptor {
            name: "ocellus_imc_rpq_occupancy_entries",
            help: "Average IMC read pending queue occupancy in entries",
        },
        MetricDescriptor {
            name: "ocellus_imc_write_cas_commands_per_second",
            help: "Interval-derived IMC write CAS commands per second",
        },
        MetricDescriptor {
            name: "ocellus_imc_write_bytes_per_second",
            help: "Interval-derived IMC write bandwidth in bytes per second",
        },
        MetricDescriptor {
            name: "ocellus_imc_wpq_residency_seconds",
            help: "Interval-derived IMC write pending queue residency in seconds",
        },
        MetricDescriptor {
            name: "ocellus_imc_wpq_occupancy_entries",
            help: "Average IMC write pending queue occupancy in entries",
        },
    ]
}

/// The metrics that are set for a scope, in this order.
pub open spec fn scope_updates(metrics: IcxImcScopeMetrics) -> Seq<GaugeUpdate> {
    let labels = export::of_die(
        metrics.scope.die_group_id,
        metrics.scope.die_id,
        metrics.scope.package_id,
    );
    seq![
        GaugeUpdate {
            family: "ocellus_imc_activate_commands_per_second",
            labels,
            value: metrics.activate_commands_per_second,
        },
        GaugeUpdate { family: "ocellus_imc_frequency_hz", labels, value: metrics.frequency_hz },
        GaugeUpdate {
            family: "ocellus_imc_page_miss_precharge_commands_per_second",
            labels,
            value: metrics.page_miss_precharge_commands_per_second,
        },
        GaugeUpdate {
            family: "ocellus_imc_read_cas_commands_per_second",
            labels,
            value: metrics.read_cas_commands_per_second,
        },
        GaugeUpdate {
            family: "ocellus_imc_read_bytes_per_second",
            labels,
            value: metrics.read_bytes_per_second,
        },
        GaugeUpdate {
            family: "ocellus_imc_rpq_residency_seconds",
            labels,
            value: metrics.rpq_residency_seconds,
        },
        GaugeUpdate {
            family: "ocellus_imc_rpq_occupancy_entries",
            labels,
            value: metrics.rpq_occupancy_entries,
        },
        GaugeUpdate {
            family: "ocellus_imc_write_cas_commands_per_second",
            labels,
            value: metrics.write_cas_commands_per_second,
        },
        GaugeUpdate {
            family: "ocellus_imc_write_bytes_per_second",
            labels,
            value: metrics.write_bytes_per_second,
        },
        GaugeUpdate {
            family: "ocellus_imc_wpq_residency_seconds",
            labels,
            value: metrics.wpq_residency_seconds,
        },
        GaugeUpdate {
            family: "ocellus_imc_wpq_occupancy_entries",
            labels,
            value: metrics.wpq_occupancy_entries,
        },
    ]
}

/// The metrics that are set for all of them, one after the other.
pub open spec fn all_updates(metrics: IcxImcMetrics) -> Seq<GaugeUpdate> {
    seqs::flat_map(metrics.scopes@, |metrics: IcxImcScopeMetrics| scope_updates(metrics))
}

/// The metric families of the memory controllers of a processor.
#[derive(Clone, Copy, Debug)]
pub struct IcxImcPrometheusMetrics;

impl IcxImcPrometheusMetrics {
    /// The families to be registered.
    pub fn register() -> (families: Vec<MetricDescriptor>)
        ensures
            families@ == self::families(),
    {
        vec![
            MetricDescriptor {
                name: "ocellus_imc_activate_commands_per_second",
                help: "Interval-derived IMC activate commands per second",
            },
            MetricDescriptor {
                name: "ocellus_imc_frequency_hz",
                help: "Interval-derived IMC DCLK frequency in hertz",
            },
            MetricDescriptor {
                name: "ocellus_imc_page_miss_precharge_commands_per_second",
                help: "Interval-derived IMC page-miss precharge commands per second",
            },
            MetricDescriptor {
                name: "ocellus_imc_read_cas_commands_per_second",
                help: "Interval-derived IMC read CAS commands per second",
            },
            MetricDescriptor {
                name: "ocellus_imc_read_bytes_per_second",
                help: "Interval-derived IMC read bandwidth in bytes per second",
            },
            MetricDescriptor {
                name: "ocellus_imc_rpq_residency_seconds",
                help: "Interval-derived IMC read pending queue residency in seconds",
            },
            MetricDescriptor {
                name: "ocellus_imc_rpq_occupancy_entries",
                help: "Average IMC read pending queue occupancy in entries",
            },
            MetricDescriptor {
                name: "ocellus_imc_write_cas_commands_per_second",
                help: "Interval-derived IMC write CAS commands per second",
            },
            MetricDescriptor {
                name: "ocellus_imc_write_bytes_per_second",
                help: "Interval-derived IMC write bandwidth in bytes per second",
            },
            MetricDescriptor {
                name: "ocellus_imc_wpq_residency_seconds",
                help: "Interval-derived IMC write pending queue residency in seconds",
            },
            MetricDescriptor {
                name: "ocellus_imc_wpq_occupancy_entries",
                help: "Average IMC write pending queue occupancy in entries",
            },
        ]
    }

    /// The metrics to be set.
    pub fn update(&self, metrics: &IcxImcMetrics) -> (updates: Vec<GaugeUpdate>)
        ensures
            updates@ == all_updates(*metrics),
    {
        let ghost f = |metrics: IcxImcScopeMetrics| scope_updates(metrics);
        let mut updates: Vec<GaugeUpdate> = Vec::new();
        let mut i: usize = 0;
        proof {
            seqs::lemma_flat_map_ends(metrics.scopes@, f);
        }
        while i < metrics.scopes.len()
            invariant
                i <= metrics.scopes@.len(),
                f == (|metrics: IcxImcScopeMetrics| scope_updates(metrics)),
                updates@ == seqs::flat_map(metrics.scopes@.take(i as int), f),
            decreases metrics.scopes@.len() - i,
        {
            let scope = &metrics.scopes[i];
            let labels = Labels::die(
                scope.scope.die_group_id,
                scope.scope.die_id,
                scope.scope.package_id,
            );
            let ghost before = updates@;
            updates.push(
                GaugeUpdate {
                    family: "ocellus_imc_activate_commands_per_second",
                    labels,
                    value: scope.activate_commands_per_second,
                },
            );
            updates.push(
                GaugeUpdate {
                    family: "ocellus_imc_frequency_hz",
                    labels,
                    value: scope.frequency_hz,
                },
            );
            updates.push(
                GaugeUpdate {
                    family: "ocellus_imc_page_miss_precharge_commands_per_second",
                    labels,
                    value: scope.page_miss_precharge_commands_per_second,
                },
            );
            updates.push(
                GaugeUpdate {
                    family: "ocellus_imc_read_cas_commands_per_second",
                    labels,
                    value: scope.read_cas_commands_per_second,
                },
            );
            updates.push(
                GaugeUpdate {
                    family: "ocellus_imc_read_bytes_per_second",
                    labels,
                    value: scope.read_bytes_per_second,
                },
            );
            updates.push(
                GaugeUpdate {
                    family: "ocellus_imc_rpq_residency_seconds",
                    labels,
                    value: scope.rpq_residency_seconds,
                },
            );
            updates.push(
                GaugeUpdate {
                    family: "ocellus_imc_rpq_occupancy_entries",
                    labels,
                    value: scope.rpq_occupancy_entries,
                },
            );
            updates.push(
                GaugeUpdate {
                    family: "ocellus_imc_write_cas_commands_per_second",
                    labels,
                    value: scope.write_cas_commands_per_second,
                },
            );
            updates.push(
                GaugeUpdate {
                    family: "ocellus_imc_write_bytes_per_second",
                    labels,
                    value: scope.write_bytes_per_second,
                },
            );
            updates.push(
                GaugeUpdate {
                    family: "ocellus_imc_wpq_residency_seconds",
                    labels,
                    value: scope.wpq_residency_seconds,
                },
            );
            updates.push(
                GaugeUpdate {
                    family: "ocellus_imc_wpq_occupancy_entries",
                    labels,
                    value: scope.wpq_occupancy_entries,
                },
            );
            proof {
                assert(updates@ =~= before + scope_updates(*scope));
                seqs::lemma_flat_map_step(metrics.scopes@, f, i as int);
            }
            i += 1;
        }
        proof {
            seqs::lemma_flat_map_ends(metrics.scopes@, f);
        }
        updates
    }
}

/// Every metric that is set belongs to a family that is registered.
pub proof fn updates_are_registered(metrics: IcxImcMetrics)
    ensures
        export::all_registered(all_updates(metrics), families()),
{
    let descriptors = families();
    let scopes = metrics.scopes@;
    let f = |metrics: IcxImcScopeMetrics| scope_updates(metrics);
    assert forall|k: int| 0 <= k < scopes.len() implies export::all_registered(
        f(#[trigger] scopes[k]),
        descriptors,
    ) by {
        let updates = f(scopes[k]);
        assert forall|i: int| 0 <= i < updates.len() implies export::is_registered(
            #[trigger] updates[i],
            descriptors,
        ) by {
            assert(descriptors[0].name == updates[0].family);
            assert(descriptors[1].name == updates[1].family);
            assert(descriptors[2].name == updates[2].family);
            assert(descriptors[3].name == updates[3].family);
            assert(descriptors[4].name == updates[4].family);
            assert(descriptors[5].name == updates[5].family);
            assert(descriptors[6].name == updates[6].family);
            assert(descriptors[7].name == updates[7].family);
            assert(descriptors[8].name == updates[8].family);
            assert(descriptors[9].name == updates[9].family);
            assert(descriptors[10].name == updates[10].family);
        }
    }
    export::lemma_all_registered(scopes, f, descriptors);
}

/// A sample that ran all of its slices is reported: no event that a report needs is missing, and
/// every scope that has units is in it.
#[verifier::spinoff_prover]
pub proof fn complete_sample_is_reported(
    collector: IcxImcCollector,
    interval_nanos: u128,
    slices: Seq<Slice<IcxImcEventGroup>>,
    readings: Seq<SliceReadings>,
    steps: Seq<Accumulator<IcxImcScope, IcxImcEventKind, EventMeasurement>>,
    result: Result<IcxImcMetrics, CollectorError>,
)
    requires
        collector.wf(),
        schedule::is_schedule(
            slices,
            groups(),
            collector.next_group() as int,
            interval_nanos,
            IcxImcCollector::rounds(interval_nanos),
        ),
        steps.len() == slices.len() + 1,
        steps.last().wf(),
        steps[0].grid() == Map::<IcxImcScope, Map<IcxImcEventKind, EventMeasurement>>::empty(),
        forall|i: int|
            0 <= i < slices.len() ==> units::is_record_by_scope(
                collector.units(),
                readings[i],
                Clock::Masked,
                Tally::Event,
                counter_uses((#[trigger] slices[i]).group),
                steps[i],
                Ok::<Accumulator<IcxImcScope, IcxImcEventKind, EventMeasurement>, CollectorError>(steps[i + 1]),
            ),
        reported(steps.last().rows(), result),
    ensures
        result is Ok,
        forall|scope: IcxImcScope|
            steps.last().grid().contains_key(scope) <==> #[trigger] units::has_scope(
                collector.units(),
                scope,
            ),
{
    let grids = steps.map_values(
        |step: Accumulator<IcxImcScope, IcxImcEventKind, EventMeasurement>| step.grid(),
    );
    let scopes = |scope: IcxImcScope| units::has_scope(collector.units(), scope);
    let counted = |i: int, kind: IcxImcEventKind| units::has_kind(
        counter_uses(slices[i].group),
        kind,
    );
    schedule::rounds_are_positive(interval_nanos as nat, groups().len());
    assert forall|i: int| 0 <= i < grids.len() - 1 implies completeness::extends(
        #[trigger] grids[i],
        grids[i + 1],
        scopes,
        |kind: IcxImcEventKind| counted(i, kind),
    ) by {
        completeness::record_by_scope_extends(
            collector.units(),
            readings[i],
            Clock::Masked,
            Tally::Event,
            counter_uses(slices[i].group),
            steps[i],
            steps[i + 1],
        );
    }
    assert forall|e: int| 0 <= e < required_events().len() implies exists|i: int|
        0 <= i < grids.len() - 1 && #[trigger] counted(i, #[trigger] required_events()[e]) by {
        let group: int = if e == 2 || e == 3 {
            0
        } else if e == 0 || e == 1 || e == 6 || e == 7 {
            1
        } else {
            2
        };
        let i = completeness::schedule_runs_group(
            slices,
            groups(),
            collector.next_group() as int,
            interval_nanos,
            IcxImcCollector::rounds(interval_nanos),
            group,
        );
        assert(counter_uses(groups()[1])[0].kind == Some(IcxImcEventKind::ReadInsert));
        assert(counter_uses(groups()[1])[1].kind == Some(IcxImcEventKind::WriteInsert));
        assert(counter_uses(groups()[0])[0].kind == Some(IcxImcEventKind::ReadOccupancy));
        assert(counter_uses(groups()[0])[2].kind == Some(IcxImcEventKind::WriteOccupancy));
        assert(counter_uses(groups()[2])[0].kind == Some(IcxImcEventKind::Activate));
        assert(counter_uses(groups()[2])[1].kind == Some(IcxImcEventKind::PageMissPrecharge));
        assert(counter_uses(groups()[1])[2].kind == Some(IcxImcEventKind::ReadCas));
        assert(counter_uses(groups()[1])[3].kind == Some(IcxImcEventKind::WriteCas));
        assert(counted(i, required_events()[e]));
    }
    completeness::complete_course_has_no_gap(
        steps.last(),
        grids,
        scopes,
        counted,
        required_events(),
    );
    assert forall|scope: IcxImcScope|
        steps.last().grid().contains_key(scope) <==> #[trigger] units::has_scope(
            collector.units(),
            scope,
        ) by {
        assert(scopes(scope) == units::has_scope(collector.units(), scope));
    }
}

} // verus!
