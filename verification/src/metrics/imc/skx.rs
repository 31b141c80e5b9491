//! The memory controllers of Skylake and Cascade Lake processors.
use crate::accumulator::{self, Accumulator, EventKind, EventMeasurement};
use crate::arch::{Architecture, IntelServerCpuModel};
use crate::completeness;
use crate::counter::Aggregate;
use crate::error::CollectorError;
use crate::export::{self, GaugeUpdate, Labels, MetricDescriptor};
use crate::ordered_map::Key;
use crate::pci::{self, PciBus, PciDeviceSpec, PciLocation, PciVendorDevice};
use crate::quantity::{self, Quantity};
use crate::registers::{self, PmonWords, Register, RegisterRead, RegisterWrite, Width};
use crate::schedule::{self, Slice};
use crate::seqs;
use crate::topology::{self, CpuTopology, TopologyLevel, TopologyScope, UncoreScope};
use crate::units::{self, Clock, CounterUse, SliceReadings, Tally, Unit};
use vstd::prelude::*;

verus! {

/// Where the events of the counters are selected.
pub const COUNTER_CONTROLS: [u64; 4] = [0xd8, 0xdc, 0xe0, 0xe4];
/// Where the counters are.
pub const COUNTERS: [u64; 4] = [0xa0, 0xa8, 0xb0, 0xb8];
/// Where the clock counter is started.
pub const DCLK_CONTROL: u64 = 0xf0;
/// Where the clock counter is.
pub const DCLK_COUNTER: u64 = 0xd0;
/// Where a channel is frozen, reset and released.
pub const UNIT_CONTROL: u64 = 0xf4;

/// The scope of a memory controller report: a die.
#[derive(Clone, Copy, Debug, PartialEq, Eq, Structural)]
pub struct ImcScope {
    pub die_group_id: u32,
    pub die_id: u32,
    pub package_id: u32,
}

impl Key for ImcScope {
    open spec fn rank(self) -> int {
        (self.die_group_id * 0x1_0000_0000 + self.die_id) * 0x1_0000_0000 + self.package_id
    }

    proof fn rank_injective(a: Self, b: Self) {
    }

    fn precedes(&self, other: &Self) -> (result: bool) {
        if self.die_group_id != other.die_group_id {
            self.die_group_id < other.die_group_id
        } else if self.die_id != other.die_id {
            self.die_id < other.die_id
        } else {
            self.package_id < other.package_id
        }
    }
}

impl TopologyScope for ImcScope {
    open spec fn of(levels: Seq<TopologyLevel>) -> Option<Self> {
        match topology::die_scope(levels) {
            Some(scope) => Some(
                ImcScope {
                    die_group_id: scope.die_group_id,
                    die_id: scope.die_id,
                    package_id: scope.package_id,
                },
            ),
            None => None,
        }
    }

    fn from_topology(topology: &CpuTopology) -> (scope: Result<Self, CollectorError>) {
        match UncoreScope::from_topology(topology) {
            Ok(scope) => Ok(
                ImcScope {
                    die_group_id: scope.die_group_id,
                    die_id: scope.die_id,
                    package_id: scope.package_id,
                },
            ),
            Err(error) => Err(error),
        }
    }
}

/// What is counted in a memory channel.
#[derive(Clone, Copy, Debug, PartialEq, Eq, Structural)]
pub enum ImcEventKind {
    Activate,
    PageMissPrecharge,
    ReadCas,
    ReadInsert,
    ReadOccupancy,
    WriteCas,
    WriteInsert,
    WriteOccupancy,
}

/// The place of an event in the order of the events.
pub open spec fn event_index(kind: ImcEventKind) -> int {
    match kind {
        ImcEventKind::Activate => 0,
        ImcEventKind::PageMissPrecharge => 1,
        ImcEventKind::ReadCas => 2,
        ImcEventKind::ReadInsert => 3,
        ImcEventKind::ReadOccupancy => 4,
        ImcEventKind::WriteCas => 5,
        ImcEventKind::WriteInsert => 6,
        ImcEventKind::WriteOccupancy => 7,
    }
}

/// The name of an event, as it is shown in an error.
pub open spec fn event_name(kind: ImcEventKind) -> &'static str {
    match kind {
        ImcEventKind::Activate => "Activate",
        ImcEventKind::PageMissPrecharge => "PageMissPrecharge",
        ImcEventKind::ReadCas => "ReadCas",
        ImcEventKind::ReadInsert => "ReadInsert",
        ImcEventKind::ReadOccupancy => "ReadOccupancy",
        ImcEventKind::WriteCas => "WriteCas",
        ImcEventKind::WriteInsert => "WriteInsert",
        ImcEventKind::WriteOccupancy => "WriteOccupancy",
    }
}

impl ImcEventKind {
    fn index(self) -> (index: u8)
        ensures
            index == event_index(self),
    {
        match self {
            ImcEventKind::Activate => 0,
            ImcEventKind::PageMissPrecharge => 1,
            ImcEventKind::ReadCas => 2,
            ImcEventKind::ReadInsert => 3,
            ImcEventKind::ReadOccupancy => 4,
            ImcEventKind::WriteCas => 5,
            ImcEventKind::WriteInsert => 6,
            ImcEventKind::WriteOccupancy => 7,
        }
    }

    /// The name of the event, as it is shown in an error.
    pub fn name(self) -> (name: &'static str)
        ensures
            name == event_name(self),
    {
        match self {
            ImcEventKind::Activate => "Activate",
            ImcEventKind::PageMissPrecharge => "PageMissPrecharge",
            ImcEventKind::ReadCas => "ReadCas",
            ImcEventKind::ReadInsert => "ReadInsert",
            ImcEventKind::ReadOccupancy => "ReadOccupancy",
            ImcEventKind::WriteCas => "WriteCas",
            ImcEventKind::WriteInsert => "WriteInsert",
            ImcEventKind::WriteOccupancy => "WriteOccupancy",
        }
    }
}

impl Key for ImcEventKind {
    open spec fn rank(self) -> int {
        event_index(self)
    }

    proof fn rank_injective(a: Self, b: Self) {
    }

    fn precedes(&self, other: &Self) -> (result: bool) {
        self.index() < other.index()
    }
}

impl EventKind for ImcEventKind {
    open spec fn is_counted(self) -> bool {
        true
    }

    fn counts(&self) -> (result: bool) {
        true
    }
}

/// An event that a counter can count.
#[derive(Clone, Copy, Debug, PartialEq, Eq, Structural)]
pub struct ImcEventSpec {
    pub event: u8,
    pub kind: ImcEventKind,
    pub umask: u8,
}

impl ImcEventSpec {
    /// An event of which the counts of several channels are summed.
    pub fn sum(kind: ImcEventKind, event: u8) -> (spec: Self)
        ensures
            spec == sum_of(kind, event, 0),
    {
        ImcEventSpec { event, kind, umask: 0 }
    }

    /// An event with a unit mask of which the counts of several channels are summed.
    pub fn sum_with_umask(kind: ImcEventKind, event: u8, umask: u8) -> (spec: Self)
        ensures
            spec == sum_of(kind, event, umask),
    {
        ImcEventSpec { event, kind, umask }
    }
}

/// An event of which the counts of several channels are summed.
pub open spec fn sum_of(kind: ImcEventKind, event: u8, umask: u8) -> ImcEventSpec {
    ImcEventSpec { event, kind, umask }
}

/// The events that the counters of a channel count at the same time.
#[derive(Clone, Copy, Debug, PartialEq, Eq)]
pub struct ImcEventGroup {
    pub events: [ImcEventSpec; 4],
}

/// What each counter counts while a group is programmed.
pub open spec fn counter_uses(group: ImcEventGroup) -> Seq<CounterUse<ImcEventKind>> {
    group.events@.map_values(
        |event: ImcEventSpec| CounterUse { aggregate: Aggregate::Sum, kind: Some(event.kind) },
    )
}

/// The control word of an event: event number, unit mask, reset, overflow and enable bits.
pub open spec fn control_word(event: ImcEventSpec) -> u64 {
    (event.event + event.umask * 0x100 + registers::COUNT_AND_REPORT_OVERFLOW) as u64
}

/// The control words of the counters while a group is programmed.
pub open spec fn control_words(group: ImcEventGroup) -> Seq<Option<u64>> {
    group.events@.map_values(|event: ImcEventSpec| Some(control_word(event)))
}

impl ImcEventGroup {
    /// What each counter counts.
    pub fn uses(&self) -> (uses: Vec<CounterUse<ImcEventKind>>)
        ensures
            uses@ == counter_uses(*self),
    {
        let uses: Vec<CounterUse<ImcEventKind>> = vec![
            CounterUse { aggregate: Aggregate::Sum, kind: Some(self.events[0].kind) },
            CounterUse { aggregate: Aggregate::Sum, kind: Some(self.events[1].kind) },
            CounterUse { aggregate: Aggregate::Sum, kind: Some(self.events[2].kind) },
            CounterUse { aggregate: Aggregate::Sum, kind: Some(self.events[3].kind) },
        ];
        assert(uses@ =~= counter_uses(*self));
        uses
    }

    /// The control words of the counters.
    pub fn controls(&self) -> (words: Vec<Option<u64>>)
        ensures
            words@ == control_words(*self),
    {
        let words: Vec<Option<u64>> = vec![
            Some(counter_control(self.events[0])),
            Some(counter_control(self.events[1])),
            Some(counter_control(self.events[2])),
            Some(counter_control(self.events[3])),
        ];
        assert(words@ =~= control_words(*self));
        words
    }
}

/// The control word of an event.
pub fn counter_control(event: ImcEventSpec) -> (word: u64)
    ensures
        word == control_word(event),
{
    registers::select_word(event.event, event.umask, registers::COUNT_AND_REPORT_OVERFLOW)
}

/// The event groups, in the order in which they take turns.
pub open spec fn groups() -> Seq<ImcEventGroup> {
    seq![
        ImcEventGroup {
            events: [
                sum_of(ImcEventKind::ReadInsert, 0x10, 0x00),
                sum_of(ImcEventKind::WriteInsert, 0x20, 0x00),
                sum_of(ImcEventKind::ReadOccupancy, 0x80, 0x00),
                sum_of(ImcEventKind::WriteOccupancy, 0x81, 0x00),
            ],
        },
        ImcEventGroup {
            events: [
                sum_of(ImcEventKind::ReadCas, 0x04, 0x03),
                sum_of(ImcEventKind::WriteCas, 0x04, 0x0c),
                sum_of(ImcEventKind::Activate, 0x01, 0x0b),
                sum_of(ImcEventKind::PageMissPrecharge, 0x02, 0x01),
            ],
        },
    ]
}

/// The event groups, in the order in which they take turns.
pub fn event_groups() -> (table: Vec<ImcEventGroup>)
    ensures
        table@ == groups(),
{
    vec![
        ImcEventGroup {
            events: [
                ImcEventSpec::sum(ImcEventKind::ReadInsert, 0x10),
                ImcEventSpec::sum(ImcEventKind::WriteInsert, 0x20),
                ImcEventSpec::sum(ImcEventKind::ReadOccupancy, 0x80),
                ImcEventSpec::sum(ImcEventKind::WriteOccupancy, 0x81),
            ],
        },
        ImcEventGroup {
            events: [
                ImcEventSpec::sum_with_umask(ImcEventKind::ReadCas, 0x04, 0x03),
                ImcEventSpec::sum_with_umask(ImcEventKind::WriteCas, 0x04, 0x0c),
                ImcEventSpec::sum_with_umask(ImcEventKind::Activate, 0x01, 0x0b),
                ImcEventSpec::sum_with_umask(ImcEventKind::PageMissPrecharge, 0x02, 0x01),
            ],
        },
    ]
}

/// What is reported for the memory controllers of a die.
#[derive(Clone, Copy, Debug)]
pub struct ImcScopeMetrics {
    pub scope: ImcScope,
    pub activate_commands_per_second: Quantity,
    pub frequency_hz: Quantity,
    pub page_miss_precharge_commands_per_second: Quantity,
    pub read_cas_commands_per_second: Quantity,
    pub read_bytes_per_second: Quantity,
    pub rpq_residency_seconds: Quantity,
    pub rpq_occupancy_entries: Quantity,
    pub write_cas_commands_per_second: Quantity,
    pub write_bytes_per_second: Quantity,
    pub wpq_residency_seconds: Quantity,
    pub wpq_occupancy_entries: Quantity,
}

/// The events that a report needs, in the order in which they are looked up.
pub open spec fn required_events() -> Seq<ImcEventKind> {
    seq![
        ImcEventKind::ReadInsert,
        ImcEventKind::WriteInsert,
        ImcEventKind::ReadOccupancy,
        ImcEventKind::WriteOccupancy,
        ImcEventKind::Activate,
        ImcEventKind::PageMissPrecharge,
        ImcEventKind::ReadCas,
        ImcEventKind::WriteCas,
    ]
}

fn required_list() -> (kinds: Vec<ImcEventKind>)
    ensures
        kinds@ == required_events(),
{
    vec![
        ImcEventKind::ReadInsert,
        ImcEventKind::WriteInsert,
        ImcEventKind::ReadOccupancy,
        ImcEventKind::WriteOccupancy,
        ImcEventKind::Activate,
        ImcEventKind::PageMissPrecharge,
        ImcEventKind::ReadCas,
        ImcEventKind::WriteCas,
    ]
}

/// What is reported for a scope.
pub open spec fn scope_metrics(
    scope: ImcScope,
    row: Map<ImcEventKind, EventMeasurement>,
) -> ImcScopeMetrics {
    let read_insert = row[ImcEventKind::ReadInsert];
    let write_insert = row[ImcEventKind::WriteInsert];
    let read_occupancy = row[ImcEventKind::ReadOccupancy];
    let write_occupancy = row[ImcEventKind::WriteOccupancy];
    let activate = row[ImcEventKind::Activate];
    let page_miss_precharge = row[ImcEventKind::PageMissPrecharge];
    let read_cas = row[ImcEventKind::ReadCas];
    let write_cas = row[ImcEventKind::WriteCas];
    ImcScopeMetrics {
        scope,
        activate_commands_per_second: quantity::event_rate_of(activate),
        frequency_hz: quantity::clock_of(read_insert),
        page_miss_precharge_commands_per_second: quantity::event_rate_of(page_miss_precharge),
        read_cas_commands_per_second: quantity::event_rate_of(read_cas),
        read_bytes_per_second: quantity::line_rate_of(read_cas),
        rpq_residency_seconds: quantity::tick_residency_of(read_occupancy, read_insert),
        rpq_occupancy_entries: quantity::per_tick_of(read_occupancy),
        write_cas_commands_per_second: quantity::event_rate_of(write_cas),
        write_bytes_per_second: quantity::line_rate_of(write_cas),
        wpq_residency_seconds: quantity::tick_residency_of(write_occupancy, write_insert),
        wpq_occupancy_entries: quantity::per_tick_of(write_occupancy),
    }
}

impl ImcScopeMetrics {
    fn from_measurements(
        measurements: &Accumulator<ImcScope, ImcEventKind, EventMeasurement>,
        index: usize,
    ) -> (metrics: Self)
        requires
            measurements.wf(),
            index < measurements.rows().len(),
            accumulator::first_gap(measurements.rows(), required_events()) is None,
        ensures
            metrics == scope_metrics(
                measurements.rows()[index as int].0,
                measurements.rows()[index as int].1,
            ),
    {
        proof {
            let rows = measurements.rows();
            assert forall|j: int| 0 <= j < required_events().len() implies rows[index as int].1.contains_key(
                #[trigger] required_events()[j],
            ) by {
                accumulator::lemma_no_gap(rows, required_events(), index as int, j);
            }
            assert(required_events()[0] == ImcEventKind::ReadInsert);
            assert(required_events()[1] == ImcEventKind::WriteInsert);
            assert(required_events()[2] == ImcEventKind::ReadOccupancy);
            assert(required_events()[3] == ImcEventKind::WriteOccupancy);
            assert(required_events()[4] == ImcEventKind::Activate);
            assert(required_events()[5] == ImcEventKind::PageMissPrecharge);
            assert(required_events()[6] == ImcEventKind::ReadCas);
            assert(required_events()[7] == ImcEventKind::WriteCas);
        }
        let read_insert = measurements.require(index, ImcEventKind::ReadInsert);
        let write_insert = measurements.require(index, ImcEventKind::WriteInsert);
        let read_occupancy = measurements.require(index, ImcEventKind::ReadOccupancy);
        let write_occupancy = measurements.require(index, ImcEventKind::WriteOccupancy);
        let activate = measurements.require(index, ImcEventKind::Activate);
        let page_miss_precharge = measurements.require(index, ImcEventKind::PageMissPrecharge);
        let read_cas = measurements.require(index, ImcEventKind::ReadCas);
        let write_cas = measurements.require(index, ImcEventKind::WriteCas);
        let scope = measurements.scope_at(index);
        ImcScopeMetrics {
            scope,
            activate_commands_per_second: quantity::event_rate(activate),
            frequency_hz: quantity::clock(read_insert),
            page_miss_precharge_commands_per_second: quantity::event_rate(page_miss_precharge),
            read_cas_commands_per_second: quantity::event_rate(read_cas),
            read_bytes_per_second: quantity::line_rate(read_cas),
            rpq_residency_seconds: quantity::tick_residency(read_occupancy, read_insert),
            rpq_occupancy_entries: quantity::per_tick(read_occupancy),
            write_cas_commands_per_second: quantity::event_rate(write_cas),
            write_bytes_per_second: quantity::line_rate(write_cas),
            wpq_residency_seconds: quantity::tick_residency(write_occupancy, write_insert),
            wpq_occupancy_entries: quantity::per_tick(write_occupancy),
        }
    }
}

/// What is reported for all memory controllers.
#[derive(Debug)]
pub struct ImcMetrics {
    pub scopes: Vec<ImcScopeMetrics>,
}

/// Whether `result` is the report on measurements: one entry for each scope, in scope order, or
/// the first event that is needed and was not counted.
pub open spec fn reported(
    rows: Seq<(ImcScope, Map<ImcEventKind, EventMeasurement>)>,
    result: Result<ImcMetrics, CollectorError>,
) -> bool {
    match accumulator::first_gap(rows, required_events()) {
        Some(kind) => result matches Err(error) && error == (CollectorError::MissingMeasurement {
            unit: "IMC",
            event: event_name(kind),
        }),
        None => result matches Ok(metrics) && metrics.scopes@ == rows.map_values(
            |row: (ImcScope, Map<ImcEventKind, EventMeasurement>)| scope_metrics(row.0, row.1),
        ),
    }
}

impl ImcMetrics {
    /// Reports every scope, in scope order; an error where an event that is needed was not
    /// counted in some scope.
    pub fn from_measurements(
        measurements: &Accumulator<ImcScope, ImcEventKind, EventMeasurement>,
    ) -> (result: Result<Self, CollectorError>)
        requires
            measurements.wf(),
        ensures
            reported(measurements.rows(), result),
    {
        match measurements.find_gap(&required_list()) {
            Some(kind) => Err(
                CollectorError::MissingMeasurement { unit: "IMC", event: kind.name() },
            ),
            None => {
                let ghost rows = measurements.rows();
                let mut scopes: Vec<ImcScopeMetrics> = Vec::new();
                let mut i: usize = 0;
                while i < measurements.len()
                    invariant
                        measurements.wf(),
                        rows == measurements.rows(),
                        accumulator::first_gap(rows, required_events()) is None,
                        i <= rows.len(),
                        scopes@.len() == i,
                        forall|k: int|
                            0 <= k < i ==> (#[trigger] scopes@[k]) == scope_metrics(
                                rows[k].0,
                                rows[k].1,
                            ),
                    decreases rows.len() - i,
                {
                    scopes.push(ImcScopeMetrics::from_measurements(measurements, i));
                    i += 1;
                }
                assert(scopes@ =~= rows.map_values(
                    |row: (
                        ImcScope,
                        Map<ImcEventKind, EventMeasurement>
                    )| scope_metrics(row.0, row.1),
                ));
                Ok(ImcMetrics { scopes })
            },
        }
    }
}

/// A bus on which the memory controllers of a socket stand.
#[derive(Clone, Copy, Debug, PartialEq, Eq, Structural)]
pub struct SocketBus {
    pub bus: PciBus,
    pub socket_index: usize,
}

/// Whether `result` pairs the bus of each socket with the scope of the socket. It is an error where
/// there are not as many buses as scopes, and where a socket has no scope.
pub open spec fn buses_paired(
    socket_buses: Seq<SocketBus>,
    scopes: Seq<ImcScope>,
    result: Result<Vec<(PciBus, ImcScope)>, CollectorError>,
) -> bool {
    match result {
        Ok(pairs) => {
            &&& socket_buses.len() == scopes.len()
            &&& pairs@.len() == socket_buses.len()
            &&& forall|i: int|
                0 <= i < pairs@.len() ==> (#[trigger] socket_buses[i]).socket_index
                    < scopes.len() && pairs@[i] == (
                    socket_buses[i].bus,
                    scopes[socket_buses[i].socket_index as int],
                )
        },
        Err(error) => if socket_buses.len() != scopes.len() {
            error == (CollectorError::CountMismatch {
                what: "IMC buses",
                found: socket_buses.len() as usize,
                expected: scopes.len() as usize,
            })
        } else {
            exists|i: int|
                {
                    &&& 0 <= i < socket_buses.len()
                    &&& (#[trigger] socket_buses[i]).socket_index >= scopes.len()
                    &&& forall|k: int|
                        0 <= k < i ==> (#[trigger] socket_buses[k]).socket_index
                            < scopes.len()
                    &&& error == (CollectorError::Unmapped {
                        what: "SKX IMC socket index",
                        index: socket_buses[i].socket_index,
                    })
                }
        },
    }
}

/// Pairs the bus of each socket with the scope of the socket.
pub fn imc_bus_scopes(socket_buses: &Vec<SocketBus>, scopes: &Vec<ImcScope>) -> (result: Result<
    Vec<(PciBus, ImcScope)>,
    CollectorError,
>)
    ensures
        buses_paired(socket_buses@, scopes@, result),
{
    if socket_buses.len() != scopes.len() {
        return Err(
            CollectorError::CountMismatch {
                what: "IMC buses",
                found: socket_buses.len(),
                expected: scopes.len(),
            },
        );
    }
    let mut pairs: Vec<(PciBus, ImcScope)> = Vec::new();
    let mut i: usize = 0;
    while i < socket_buses.len()
        invariant
            i <= socket_buses@.len(),
            socket_buses@.len() == scopes@.len(),
            pairs@.len() == i,
            forall|k: int|
                0 <= k < i ==> (#[trigger] socket_buses@[k]).socket_index < scopes@.len()
                    && pairs@[k] == (
                    socket_buses@[k].bus,
                    scopes@[socket_buses@[k].socket_index as int],
                ),
        decreases socket_buses@.len() - i,
    {
        let index: usize = socket_buses[i].socket_index;
        if index >= scopes.len() {
            assert(socket_buses@[i as int].socket_index >= scopes@.len());
            return Err(CollectorError::Unmapped { what: "SKX IMC socket index", index });
        }
        pairs.push((socket_buses[i].bus, scopes[index]));
        i += 1;
    }
    Ok(pairs)
}

/// The registers of a memory channel.
pub open spec fn is_channel(unit: Unit<ImcScope>, location: PciLocation, scope: ImcScope) -> bool {
    &&& unit.scope == scope
    &&& unit.control == Register::Pci { location, offset: UNIT_CONTROL }
    &&& unit.width == Width::Bits32
    &&& unit.filter is None
    &&& unit.controls@ == Seq::new(
        4,
        |i: int| Register::Pci { location, offset: COUNTER_CONTROLS@[i] },
    )
    &&& unit.counters@ == Seq::new(4, |i: int| Register::Pci { location, offset: COUNTERS@[i] })
    &&& unit.fixed_control == Some(Register::Pci { location, offset: DCLK_CONTROL })
    &&& unit.fixed_counter == Some(Register::Pci { location, offset: DCLK_COUNTER })
}

fn channel(location: PciLocation, scope: ImcScope) -> (unit: Unit<ImcScope>)
    ensures
        is_channel(unit, location, scope),
{
    let unit = Unit {
        scope,
        control: Register::Pci { location, offset: UNIT_CONTROL },
        width: Width::Bits32,
        filter: None,
        controls: vec![
            Register::Pci { location, offset: COUNTER_CONTROLS[0] },
            Register::Pci { location, offset: COUNTER_CONTROLS[1] },
            Register::Pci { location, offset: COUNTER_CONTROLS[2] },
            Register::Pci { location, offset: COUNTER_CONTROLS[3] },
        ],
        counters: vec![
            Register::Pci { location, offset: COUNTERS[0] },
            Register::Pci { location, offset: COUNTERS[1] },
            Register::Pci { location, offset: COUNTERS[2] },
            Register::Pci { location, offset: COUNTERS[3] },
        ],
        fixed_control: Some(Register::Pci { location, offset: DCLK_CONTROL }),
        fixed_counter: Some(Register::Pci { location, offset: DCLK_COUNTER }),
    };
    assert(unit.controls@ =~= Seq::new(
        4,
        |i: int| Register::Pci { location, offset: COUNTER_CONTROLS@[i] },
    ));
    assert(unit.counters@ =~= Seq::new(
        4,
        |i: int| Register::Pci { location, offset: COUNTERS@[i] },
    ));
    unit
}

/// Where the channel that `spec` names on a bus is found, if it is there.
pub open spec fn channel_location(bus: PciBus, spec: PciDeviceSpec) -> PciLocation {
    PciLocation { bus: bus.bus, device: spec.device, function: spec.function, group: bus.group }
}

/// Whether the device that `spec` names on a bus was found.
pub open spec fn is_present(
    devices: Seq<PciVendorDevice>,
    spec: PciDeviceSpec,
    bus: PciBus,
) -> bool {
    exists|i: int| 0 <= i < devices.len() && #[trigger] pci::fits_spec(devices[i], spec, bus)
}

/// Whether every channel before the one that `specs[c]` names on the bus `b` was found.
pub open spec fn present_before(
    bus_scopes: Seq<(PciBus, ImcScope)>,
    specs: Seq<PciDeviceSpec>,
    devices: Seq<PciVendorDevice>,
    b: int,
    c: int,
) -> bool {
    forall|x: int, y: int|
        #![trigger bus_scopes[x], specs[y]]
        0 <= x <= b && 0 <= y < specs.len() && (x < b || y < c) ==> is_present(
            devices,
            specs[y],
            bus_scopes[x].0,
        )
}

/// Whether `result` holds the channels of every bus, in the order of the buses and then of `specs`.
/// It is an error where one is missing, which names the first such.
pub open spec fn channels_found(
    bus_scopes: Seq<(PciBus, ImcScope)>,
    specs: Seq<PciDeviceSpec>,
    devices: Seq<PciVendorDevice>,
    result: Result<Vec<Unit<ImcScope>>, CollectorError>,
) -> bool {
    match result {
        Ok(channels) => {
            &&& channels@.len() == bus_scopes.len() * specs.len()
            &&& forall|b: int, c: int|
                #![trigger bus_scopes[b], specs[c]]
                0 <= b < bus_scopes.len() && 0 <= c < specs.len() ==> {
                    &&& is_present(devices, specs[c], bus_scopes[b].0)
                    &&& is_channel(
                        channels@[b * specs.len() + c],
                        channel_location(bus_scopes[b].0, specs[c]),
                        bus_scopes[b].1,
                    )
                }
        },
        Err(error) => exists|b: int, c: int|
            #![trigger bus_scopes[b], specs[c]]
            0 <= b < bus_scopes.len() && 0 <= c < specs.len() && !is_present(
                devices,
                specs[c],
                bus_scopes[b].0,
            ) && present_before(bus_scopes, specs, devices, b, c) && error == (
            CollectorError::MissingDevice { spec: specs[c], bus: bus_scopes[b].0 }),
    }
}

/// Finds the channels of every bus.
pub fn discover_channels(
    bus_scopes: &Vec<(PciBus, ImcScope)>,
    specs: &Vec<PciDeviceSpec>,
    devices: &Vec<PciVendorDevice>,
) -> (result: Result<Vec<Unit<ImcScope>>, CollectorError>)
    ensures
        channels_found(bus_scopes@, specs@, devices@, result),
{
    let ghost n = specs@.len() as int;
    let mut channels: Vec<Unit<ImcScope>> = Vec::new();
    let mut b: usize = 0;
    while b < bus_scopes.len()
        invariant
            b <= bus_scopes@.len(),
            n == specs@.len(),
            channels@.len() == b * n,
            forall|x: int, c: int|
                #![trigger bus_scopes@[x], specs@[c]]
                0 <= x < b && 0 <= c < n ==> {
                    &&& is_present(devices@, specs@[c], bus_scopes@[x].0)
                    &&& is_channel(
                        channels@[x * n + c],
                        channel_location(bus_scopes@[x].0, specs@[c]),
                        bus_scopes@[x].1,
                    )
                },
        decreases bus_scopes@.len() - b,
    {
        let (bus, scope) = bus_scopes[b];
        let mut c: usize = 0;
        while c < specs.len()
            invariant
                b < bus_scopes@.len(),
                c <= specs@.len(),
                n == specs@.len(),
                (bus, scope) == bus_scopes@[b as int],
                channels@.len() == b * n + c,
                forall|x: int, y: int|
                    #![trigger bus_scopes@[x], specs@[y]]
                    0 <= x <= b && 0 <= y < n && (x < b || y < c) ==> {
                        &&& is_present(devices@, specs@[y], bus_scopes@[x].0)
                        &&& is_channel(
                            channels@[x * n + y],
                            channel_location(bus_scopes@[x].0, specs@[y]),
                            bus_scopes@[x].1,
                        )
                    },
            decreases specs@.len() - c,
        {
            match pci::find_on_bus(devices, specs[c], bus) {
                Some(location) => {
                    let ghost before = channels@;
                    channels.push(channel(location, scope));
                    proof {
                        assert forall|x: int, y: int|
                            #![trigger bus_scopes@[x], specs@[y]]
                            0 <= x <= b && 0 <= y < n && (x < b || y < c + 1) implies {
                            &&& is_present(devices@, specs@[y], bus_scopes@[x].0)
                            &&& is_channel(
                                channels@[x * n + y],
                                channel_location(bus_scopes@[x].0, specs@[y]),
                                bus_scopes@[x].1,
                            )
                        } by {
                            assert(x * n + y <= b * n + c) by (nonlinear_arith)
                                requires
                                    0 <= x <= b,
                                    0 <= y < n,
                                    x < b || y < c + 1,
                                    c < n,
                            ;
                            assert(x * n + y >= 0) by (nonlinear_arith)
                                requires
                                    0 <= x,
                                    0 <= y < n,
                            ;
                            if x < b || y < c {
                                assert(x * n + y < b * n + c) by (nonlinear_arith)
                                    requires
                                        0 <= x <= b,
                                        0 <= y < n,
                                        x < b || y < c,
                                        c < n,
                                ;
                                assert(channels@[x * n + y] == before[x * n + y]);
                            }
                        }
                    }
                },
                None => {
                    assert(!is_present(devices@, specs@[c as int], bus_scopes@[b as int].0));
                    assert(present_before(bus_scopes@, specs@, devices@, b as int, c as int));
                    return Err(CollectorError::MissingDevice { spec: specs[c], bus });
                },
            }
            c += 1;
        }
        assert((b + 1) * n == b * n + n) by (nonlinear_arith);
        b += 1;
    }
    Ok(channels)
}

/// Whether `result` is the collector for the processor: Skylake only, with the channels that
/// `specs` names on the bus of each socket.
pub open spec fn created(
    architecture: Architecture,
    topologies: Seq<CpuTopology>,
    socket_buses: Seq<SocketBus>,
    specs: Seq<PciDeviceSpec>,
    devices: Seq<PciVendorDevice>,
    words: PmonWords,
    result: Result<SkxImcCollector, CollectorError>,
) -> bool {
    match result {
        Ok(collector) => {
            &&& architecture.server_model() == Some(IntelServerCpuModel::SkylakeXeon)
            &&& collector.wf()
            &&& collector.next_group() == 0
            &&& collector.words() == words
            &&& topologies.len() > 0
            &&& topology::first_cpus::<ImcScope>(topologies) is Some
            &&& exists|
                scopes: Seq<ImcScope>,
                pairs: Vec<(PciBus, ImcScope)>,
                channels: Vec<Unit<ImcScope>>,
            |
                {
                    &&& topology::lists_scopes(
                        scopes,
                        topology::first_cpus::<ImcScope>(topologies)->0,
                    )
                    &&& #[trigger] buses_paired(socket_buses, scopes, Ok(pairs))
                    &&& #[trigger] channels_found(
                        pairs@,
                        specs,
                        devices,
                        Ok(channels),
                    )
                    &&& collector.units() == channels@
                }
        },
        Err(error) => {
            let model = architecture.server_model()->0;
            if model != IntelServerCpuModel::SkylakeXeon {
                error == (CollectorError::Unsupported { unit: "IMC", model })
            } else if topology::first_cpus::<ImcScope>(topologies) is None {
                error == CollectorError::MissingPackageLevel
            } else if topologies.len() == 0 {
                error == (CollectorError::NothingFound { what: "IMC scopes" })
            } else {
                exists|scopes: Seq<ImcScope>|
                    {
                        &&& #[trigger] topology::lists_scopes(
                            scopes,
                            topology::first_cpus::<ImcScope>(topologies)->0,
                        )
                        &&& {
                            ||| buses_paired(socket_buses, scopes, Err(error))
                            ||| exists|pairs: Vec<(PciBus, ImcScope)>| #[trigger]
                                buses_paired(socket_buses, scopes, Ok(pairs))
                                    && channels_found(
                                    pairs@,
                                    specs,
                                    devices,
                                    Err(error),
                                )
                        }
                    }
            }
        },
    }
}

/// Samples the memory controllers of Skylake and Cascade Lake processors.
#[derive(Debug)]
pub struct SkxImcCollector {
    channels: Vec<Unit<ImcScope>>,
    next_group: usize,
    words: PmonWords,
}

impl SkxImcCollector {
    /// The units whose counters are read.
    pub closed spec fn units(self) -> Seq<Unit<ImcScope>> {
        self.channels@
    }

    /// The group that goes first in the next sample.
    pub closed spec fn next_group(self) -> usize {
        self.next_group
    }

    /// The invariant: the next group is one of the groups, and every unit has the counters that a
    /// group uses.
    pub open spec fn wf(self) -> bool {
        &&& self.next_group() < groups().len()
        &&& units::units_have(self.units(), 4)
    }

    /// The number of rounds in a sample over an interval.
    pub open spec fn rounds(interval_nanos: u128) -> nat {
        schedule::saturated(schedule::bounded_rounds(interval_nanos as nat, groups().len() as nat))
    }

    /// Makes the next group in cyclic order go first.
    pub fn rotate_group(&mut self)
        requires
            old(self).wf(),
        ensures
            final(self).wf(),
            final(self).next_group() == (old(self).next_group() + 1) % groups().len() as int,
            final(self).units() == old(self).units(),
            final(self).words() == old(self).words(),
    {
        self.next_group = schedule::rotate(self.next_group, event_groups().len());
    }

    /// The turns of the event groups over an interval.
    pub fn schedule(&self, interval_nanos: u128) -> (slices: Vec<Slice<ImcEventGroup>>)
        requires
            self.wf(),
            groups().len() * Self::rounds(interval_nanos) <= usize::MAX,
        ensures
            schedule::is_schedule(
                slices@,
                groups(),
                self.next_group() as int,
                interval_nanos,
                Self::rounds(interval_nanos),
            ),
    {
        let groups = event_groups();
        let round_count: usize = schedule::bounded_round_count(interval_nanos, groups.len());
        schedule::schedule_rounds(&groups, self.next_group, interval_nanos, round_count)
    }

    /// The slices of a sample over an interval; an error over no time, or where there are more
    /// slices than can be numbered.
    pub fn begin_sample(&self, interval_nanos: u128) -> (result: Result<
        Vec<Slice<ImcEventGroup>>,
        CollectorError,
    >)
        requires
            self.wf(),
        ensures
            match result {
                Ok(slices) => interval_nanos > 0 && schedule::is_schedule(
                    slices@,
                    groups(),
                    self.next_group() as int,
                    interval_nanos,
                    Self::rounds(interval_nanos),
                ),
                Err(error) => if interval_nanos == 0 {
                    error == (CollectorError::ZeroInterval { unit: "IMC" })
                } else {
                    error == CollectorError::Overflow && groups().len() * Self::rounds(
                        interval_nanos,
                    ) > usize::MAX
                },
            },
    {
        if interval_nanos == 0 {
            return Err(CollectorError::ZeroInterval { unit: "IMC" });
        }
        let group_count: usize = event_groups().len();
        let round_count: usize = schedule::bounded_round_count(interval_nanos, group_count);
        if group_count.checked_mul(round_count).is_none() {
            return Err(CollectorError::Overflow);
        }
        Ok(self.schedule(interval_nanos))
    }

    /// Freezes and resets the counters of all units and then selects the events of a group.
    pub fn program_writes(&self, group: ImcEventGroup) -> (writes: Vec<RegisterWrite>)
        requires
            self.wf(),
        ensures
            writes@ == units::all_control_writes(self.units(), seq![self.words().freeze_and_reset])
                + units::all_program_writes(
                    self.units(),
                    control_words(group),
                    registers::FIXED_COUNTER_RESET_AND_ENABLE,
                ),
    {
        let reset: Vec<u64> = vec![self.words.freeze_and_reset];
        assert(reset@ =~= seq![self.words().freeze_and_reset]);
        let mut writes: Vec<RegisterWrite> = units::write_controls(&self.channels, &reset);
        let mut events: Vec<RegisterWrite> = units::write_events(
            &self.channels,
            &group.controls(),
            registers::FIXED_COUNTER_RESET_AND_ENABLE,
        );
        writes.append(&mut events);
        writes
    }

    /// Releases the counters of all units.
    pub fn unfreeze_writes(&self) -> (writes: Vec<RegisterWrite>)
        ensures
            writes@ == units::all_control_writes(self.units(), seq![self.words().unfreeze]),
    {
        let words: Vec<u64> = vec![self.words.unfreeze];
        assert(words@ =~= seq![self.words().unfreeze]);
        units::write_controls(&self.channels, &words)
    }

    /// Freezes the counters of all units.
    pub fn freeze_writes(&self) -> (writes: Vec<RegisterWrite>)
        ensures
            writes@ == units::all_control_writes(self.units(), seq![self.words().freeze]),
    {
        let words: Vec<u64> = vec![self.words.freeze];
        assert(words@ =~= seq![self.words().freeze]);
        units::write_controls(&self.channels, &words)
    }

    /// Reads the counters of all units, and their clock counters.
    pub fn reads(&self) -> (reads: Vec<RegisterRead>)
        requires
            self.wf(),
        ensures
            reads@ == units::all_reads(self.units(), units::every_counter(4)),
    {
        units::reads(&self.channels, &units::all_used(4))
    }

    /// Adds what a slice counted to the measurements: for every scope, the counts of its units
    /// taken together and the average of their clock ticks.
    pub fn record(
        &self,
        group: ImcEventGroup,
        readings: &SliceReadings,
        measurements: Accumulator<ImcScope, ImcEventKind, EventMeasurement>,
    ) -> (result: Result<Accumulator<ImcScope, ImcEventKind, EventMeasurement>, CollectorError>)
        requires
            measurements.wf(),
        ensures
            units::is_record_by_scope(
                self.units(),
                *readings,
                Clock::Full,
                Tally::Counter,
                counter_uses(group),
                measurements,
                result,
            ),
    {
        units::record_by_scope(
            &self.channels,
            readings,
            Clock::Full,
            Tally::Counter,
            &group.uses(),
            measurements,
        )
    }

    /// Ends a sample: the next group goes first in the next one, and the measurements are
    /// reported.
    pub fn finish_sample(
        &mut self,
        measurements: &Accumulator<ImcScope, ImcEventKind, EventMeasurement>,
    ) -> (result: Result<ImcMetrics, CollectorError>)
        requires
            old(self).wf(),
            measurements.wf(),
        ensures
            final(self).wf(),
            final(self).next_group() == (old(self).next_group() + 1) % groups().len() as int,
            final(self).units() == old(self).units(),
            final(self).words() == old(self).words(),
            reported(measurements.rows(), result),
    {
        self.rotate_group();
        ImcMetrics::from_measurements(measurements)
    }

    /// A collector for given units.
    pub fn from_units(words: PmonWords, channels: Vec<Unit<ImcScope>>) -> (collector: Self)
        requires
            units::units_have(channels@, 4),
        ensures
            collector.wf(),
            collector.units() == channels@,
            collector.next_group() == 0,
            collector.words() == words,
    {
        SkxImcCollector { channels, next_group: 0, words }
    }

    /// The words that the channels take in their control registers.
    pub closed spec fn words(self) -> PmonWords {
        self.words
    }

    /// A collector for the processor: Skylake only. The channels are those that `specs` names on
    /// the bus of each socket.
    pub fn new(
        architecture: &Architecture,
        topologies: &Vec<CpuTopology>,
        socket_buses: &Vec<SocketBus>,
        specs: &Vec<PciDeviceSpec>,
        devices: &Vec<PciVendorDevice>,
        words: PmonWords,
    ) -> (result: Result<Self, CollectorError>)
        requires
            architecture.server_model() is Some,
        ensures
            created(
                *architecture,
                topologies@,
                socket_buses@,
                specs@,
                devices@,
                words,
                result,
            ),
    {
        let model = architecture.intel_server_model();
        match model {
            IntelServerCpuModel::SkylakeXeon => {},
            _ => {
                return Err(CollectorError::Unsupported { unit: "IMC", model });
            },
        }
        let scopes: Vec<ImcScope> = match topology::scopes_in_order::<ImcScope>(topologies) {
            Ok(scopes) => scopes,
            Err(error) => {
                return Err(error);
            },
        };
        if scopes.len() == 0 {
            return Err(CollectorError::NothingFound { what: "IMC scopes" });
        }
        let bus_scopes: Vec<(PciBus, ImcScope)> = match imc_bus_scopes(socket_buses, &scopes) {
            Ok(pairs) => pairs,
            Err(error) => {
                return Err(error);
            },
        };
        match discover_channels(&bus_scopes, specs, devices) {
            Ok(channels) => {
                proof {
                    let n = specs@.len() as int;
                    assert forall|i: int| 0 <= i < channels@.len() implies (
                    #[trigger] channels@[i]).controls@.len() == 4 && channels@[i].counters@.len()
                        == 4 by {
                        assert(n > 0) by (nonlinear_arith)
                            requires
                                0 <= i < bus_scopes@.len() * n,
                                n >= 0,
                        ;
                        vstd::arithmetic::div_mod::lemma_fundamental_div_mod(i, n);
                        vstd::arithmetic::div_mod::lemma_mod_bound(i, n);
                        let b = i / n;
                        let c = i % n;
                        assert(b * n == n * b) by (nonlinear_arith);
                        assert(0 <= b < bus_scopes@.len()) by (nonlinear_arith)
                            requires
                                i == n * b + c,
                                0 <= c < n,
                                0 <= i < bus_scopes@.len() * n,
                        ;
                        assert(is_channel(
                            channels@[b * n + c],
                            channel_location(bus_scopes@[b].0, specs@[c]),
                            bus_scopes@[b].1,
                        ));
                    }
                    assert(buses_paired(socket_buses@, scopes@, Ok(bus_scopes)));
                    assert(channels_found(bus_scopes@, specs@, devices@, Ok(channels)));
                }
                Ok(SkxImcCollector { channels, next_group: 0, words })
            },
            Err(error) => {
                assert(buses_paired(socket_buses@, scopes@, Ok(bus_scopes)));
                Err(error)
            },
        }
    }
}

/// The families that are registered, in this order.
pub open spec fn families() -> Seq<MetricDescriptor> {
    seq![
        MetricDescriptor {
            name: "ocellus_imc_activate_commands_per_second",
            help: "Interval-derived IMC activate commands per second",
        },
        MetricDescriptor {
            name: "ocellus_imc_frequency_hz",
            help: "Interval-derived IMC DCLK frequency in hertz",
        },
        MetricDescriptor {
            name: "ocellus_imc_page_miss_precharge_commands_per_second",
            help: "Interval-derived IMC page-miss precharge commands per second",
        },
        MetricDescriptor {
            name: "ocellus_imc_read_cas_commands_per_second",
            help: "Interval-derived IMC read CAS commands per second",
        },
        MetricDescriptor {
            name: "ocellus_imc_read_bytes_per_second",
            help: "Interval-derived IMC read bandwidth in bytes per second",
        },
        MetricDescriptor {
            name: "ocellus_imc_rpq_residency_seconds",
            help: "Interval-derived IMC read pending queue residency in seconds",
        },
        MetricDescriptor {
            name: "ocellus_imc_rpq_occupancy_entries",
            help: "Average IMC read pending queue occupancy in entries",
        },
        MetricDescriptor {
            name: "ocellus_imc_write_cas_commands_per_second",
            help: "Interval-derived IMC write CAS commands per second",
        },
        MetricDescriptor {
            name: "ocellus_imc_write_bytes_per_second",
            help: "Interval-derived IMC write bandwidth in bytes per second",
        },
        MetricDescriptor {
            name: "ocellus_imc_wpq_residency_seconds",
            help: "Interval-derived IMC write pending queue residency in seconds",
        },
        MetricDescriptor {
            name: "ocellus_imc_wpq_occupancy_entries",
            help: "Average IMC write pending queue occupancy in entries",
        },
    ]
}

/// The metrics that are set for a scope, in this order.
pub open spec fn scope_updates(metrics: ImcScopeMetrics) -> Seq<GaugeUpdate> {
    let labels = export::of_die(
        metrics.scope.die_group_id,
        metrics.scope.die_id,
        metrics.scope.package_id,
    );
    seq![
        GaugeUpdate {
            family: "ocellus_imc_activate_commands_per_second",
            labels,
            value: metrics.activate_commands_per_second,
        },
        GaugeUpdate { family: "ocellus_imc_frequency_hz", labels, value: metrics.frequency_hz },
        GaugeUpdate {
            family: "ocellus_imc_page_miss_precharge_commands_per_second",
            labels,
            value: metrics.page_miss_precharge_commands_per_second,
        },
        GaugeUpdate {
            family: "ocellus_imc_read_cas_commands_per_second",
            labels,
            value: metrics.read_cas_commands_per_second,
        },
        GaugeUpdate {
            family: "ocellus_imc_read_bytes_per_second",
            labels,
            value: metrics.read_bytes_per_second,
        },
        GaugeUpdate {
            family: "ocellus_imc_rpq_residency_seconds",
            labels,
            value: metrics.rpq_residency_seconds,
        },
        GaugeUpdate {
            family: "ocellus_imc_rpq_occupancy_entries",
            labels,
            value: metrics.rpq_occupancy_entries,
        },
        GaugeUpdate {
            family: "ocellus_imc_write_cas_commands_per_second",
            labels,
            value: metrics.write_cas_commands_per_second,
        },
        GaugeUpdate {
            family: "ocellus_imc_write_bytes_per_second",
            labels,
            value: metrics.write_bytes_per_second,
        },
        GaugeUpdate {
            family: "ocellus_imc_wpq_residency_seconds",
            labels,
            value: metrics.wpq_residency_seconds,
        },
        GaugeUpdate {
            family: "ocellus_imc_wpq_occupancy_entries",
            labels,
            value: metrics.wpq_occupancy_entries,
        },
    ]
}

/// The metrics that are set for all of them, one after the other.
pub open spec fn all_updates(metrics: ImcMetrics) -> Seq<GaugeUpdate> {
    seqs::flat_map(metrics.scopes@, |metrics: ImcScopeMetrics| scope_updates(metrics))
}

/// The metric families of the memory controllers of a processor.
#[derive(Clone, Copy, Debug)]
pub struct ImcPrometheusMetrics;

impl ImcPrometheusMetrics {
    /// The families to be registered.
    pub fn register() -> (families: Vec<MetricDescriptor>)
        ensures
            families@ == self::families(),
    {
        vec![
            MetricDescriptor {
                name: "ocellus_imc_activate_commands_per_second",
                help: "Interval-derived IMC activate commands per second",
            },
            MetricDescriptor {
                name: "ocellus_imc_frequency_hz",
                help: "Interval-derived IMC DCLK frequency in hertz",
            },
            MetricDescriptor {
                name: "ocellus_imc_page_miss_precharge_commands_per_second",
                help: "Interval-derived IMC page-miss precharge commands per second",
            },
            MetricDescriptor {
                name: "ocellus_imc_read_cas_commands_per_second",
                help: "Interval-derived IMC read CAS commands per second",
            },
            MetricDescriptor {
                name: "ocellus_imc_read_bytes_per_second",
                help: "Interval-derived IMC read bandwidth in bytes per second",
            },
            MetricDescriptor {
                name: "ocellus_imc_rpq_residency_seconds",
                help: "Interval-derived IMC read pending queue residency in seconds",
            },
            MetricDescriptor {
                name: "ocellus_imc_rpq_occupancy_entries",
                help: "Average IMC read pending queue occupancy in entries",
            },
            MetricDescriptor {
                name: "ocellus_imc_write_cas_commands_per_second",
                help: "Interval-derived IMC write CAS commands per second",
            },
            MetricDescriptor {
                name: "ocellus_imc_write_bytes_per_second",
                help: "Interval-derived IMC write bandwidth in bytes per second",
            },
            MetricDescriptor {
                name: "ocellus_imc_wpq_residency_seconds",
                help: "Interval-derived IMC write pending queue residency in seconds",
            },
            MetricDescriptor {
                name: "ocellus_imc_wpq_occupancy_entries",
                help: "Average IMC write pending queue occupancy in entries",
            },
        ]
    }

    /// The metrics to be set.
    pub fn update(&self, metrics: &ImcMetrics) -> (updates: Vec<GaugeUpdate>)
        ensures
            updates@ == all_updates(*metrics),
    {
        let ghost f = |metrics: ImcScopeMetrics| scope_updates(metrics);
        let mut updates: Vec<GaugeUpdate> = Vec::new();
        let mut i: usize = 0;
        proof {
            seqs::lemma_flat_map_ends(metrics.scopes@, f);
        }
        while i < metrics.scopes.len()
            invariant
                i <= metrics.scopes@.len(),
                f == (|metrics: ImcScopeMetrics| scope_updates(metrics)),
                updates@ == seqs::flat_map(metrics.scopes@.take(i as int), f),
            decreases metrics.scopes@.len() - i,
        {
            let scope = &metrics.scopes[i];
            let labels = Labels::die(
                scope.scope.die_group_id,
                scope.scope.die_id,
                scope.scope.package_id,
            );
            let ghost before = updates@;
            updates.push(
                GaugeUpdate {
                    family: "ocellus_imc_activate_commands_per_second",
                    labels,
                    value: scope.activate_commands_per_second,
                },
            );
            updates.push(
                GaugeUpdate {
                    family: "ocellus_imc_frequency_hz",
                    labels,
                    value: scope.frequency_hz,
                },
            );
            updates.push(
                GaugeUpdate {
                    family: "ocellus_imc_page_miss_precharge_commands_per_second",
                    labels,
                    value: scope.page_miss_precharge_commands_per_second,
                },
            );
            updates.push(
                GaugeUpdate {
                    family: "ocellus_imc_read_cas_commands_per_second",
                    labels,
                    value: scope.read_cas_commands_per_second,
                },
            );
            updates.push(
                GaugeUpdate {
                    family: "ocellus_imc_read_bytes_per_second",
                    labels,
                    value: scope.read_bytes_per_second,
                },
            );
            updates.push(
                GaugeUpdate {
                    family: "ocellus_imc_rpq_residency_seconds",
                    labels,
                    value: scope.rpq_residency_seconds,
                },
            );
            updates.push(
                GaugeUpdate {
                    family: "ocellus_imc_rpq_occupancy_entries",
                    labels,
                    value: scope.rpq_occupancy_entries,
                },
            );
            updates.push(
                GaugeUpdate {
                    family: "ocellus_imc_write_cas_commands_per_second",
                    labels,
                    value: scope.write_cas_commands_per_second,
                },
            );
            updates.push(
                GaugeUpdate {
                    family: "ocellus_imc_write_bytes_per_second",
                    labels,
                    value: scope.write_bytes_per_second,
                },
            );
            updates.push(
                GaugeUpdate {
                    family: "ocellus_imc_wpq_residency_seconds",
                    labels,
                    value: scope.wpq_residency_seconds,
                },
            );
            updates.push(
                GaugeUpdate {
                    family: "ocellus_imc_wpq_occupancy_entries",
                    labels,
                    value: scope.wpq_occupancy_entries,
                },
            );
            proof {
                assert(updates@ =~= before + scope_updates(*scope));
                seqs::lemma_flat_map_step(metrics.scopes@, f, i as int);
            }
            i += 1;
        }
        proof {
            seqs::lemma_flat_map_ends(metrics.scopes@, f);
        }
        updates
    }
}

/// Every metric that is set belongs to a family that is registered.
pub proof fn updates_are_registered(metrics: ImcMetrics)
    ensures
        export::all_registered(all_updates(metrics), families()),
{
    let descriptors = families();
    let scopes = metrics.scopes@;
    let f = |metrics: ImcScopeMetrics| scope_updates(metrics);
    assert forall|k: int| 0 <= k < scopes.len() implies export::all_registered(
        f(#[trigger] scopes[k]),
        descriptors,
    ) by {
        let updates = f(scopes[k]);
        assert forall|i: int| 0 <= i < updates.len() implies export::is_registered(
            #[trigger] updates[i],
            descriptors,
        ) by {
            assert(descriptors[0].name == updates[0].family);
            assert(descriptors[1].name == updates[1].family);
            assert(descriptors[2].name == updates[2].family);
            assert(descriptors[3].name == updates[3].family);
            assert(descriptors[4].name == updates[4].family);
            assert(descriptors[5].name == updates[5].family);
            assert(descriptors[6].name == updates[6].family);
            assert(descriptors[7].name == updates[7].family);
            assert(descriptors[8].name == updates[8].family);
            assert(descriptors[9].name == updates[9].family);
            assert(descriptors[10].name == updates[10].family);
        }
    }
    export::lemma_all_registered(scopes, f, descriptors);
}

/// A sample that ran all of its slices is reported: no event that a report needs is missing, and
/// every scope that has units is in it.
#[verifier::spinoff_prover]
pub proof fn complete_sample_is_reported(
    collector: SkxImcCollector,
    interval_nanos: u128,
    slices: Seq<Slice<ImcEventGroup>>,
    readings: Seq<SliceReadings>,
    steps: Seq<Accumulator<ImcScope, ImcEventKind, EventMeasurement>>,
    result: Result<ImcMetrics, CollectorError>,
)
    requires
        collector.wf(),
        schedule::is_schedule(
            slices,
            groups(),
            collector.next_group() as int,
            interval_nanos,
            SkxImcCollector::rounds(interval_nanos),
        ),
        steps.len() == slices.len() + 1,
        steps.last().wf(),
        steps[0].grid() == Map::<ImcScope, Map<ImcEventKind, EventMeasurement>>::empty(),
        forall|i: int|
            0 <= i < slices.len() ==> units::is_record_by_scope(
                collector.units(),
                readings[i],
                Clock::Full,
                Tally::Counter,
                counter_uses((#[trigger] slices[i]).group),
                steps[i],
                Ok::<Accumulator<ImcScope, ImcEventKind, EventMeasurement>, CollectorError>(steps[i + 1]),
            ),
        reported(steps.last().rows(), result),
    ensures
        result is Ok,
        forall|scope: ImcScope|
            steps.last().grid().contains_key(scope) <==> #[trigger] units::has_scope(
                collector.units(),
                scope,
            ),
{
    let grids = steps.map_values(
        |step: Accumulator<ImcScope, ImcEventKind, EventMeasurement>| step.grid(),
    );
    let scopes = |scope: ImcScope| units::has_scope(collector.units(), scope);
    let counted = |i: int, kind: ImcEventKind| units::has_kind(counter_uses(slices[i].group), kind);
    schedule::rounds_are_positive(interval_nanos as nat, groups().len());
    assert forall|i: int| 0 <= i < grids.len() - 1 implies completeness::extends(
        #[trigger] grids[i],
        grids[i + 1],
        scopes,
        |kind: ImcEventKind| counted(i, kind),
    ) by {
        completeness::record_by_scope_extends(
            collector.units(),
            readings[i],
            Clock::Full,
            Tally::Counter,
            counter_uses(slices[i].group),
            steps[i],
            steps[i + 1],
        );
    }
    assert forall|e: int| 0 <= e < required_events().len() implies exists|i: int|
        0 <= i < grids.len() - 1 && #[trigger] counted(i, #[trigger] required_events()[e]) by {
        let group: int = if e == 0 || e == 1 || e == 2 || e == 3 {
            0
        } else {
            1
        };
        let i = completeness::schedule_runs_group(
            slices,
            groups(),
            collector.next_group() as int,
            interval_nanos,
            SkxImcCollector::rounds(interval_nanos),
            group,
        );
        assert(counter_uses(groups()[0])[0].kind == Some(ImcEventKind::ReadInsert));
        assert(counter_uses(groups()[0])[1].kind == Some(ImcEventKind::WriteInsert));
        assert(counter_uses(groups()[0])[2].kind == Some(ImcEventKind::ReadOccupancy));
        assert(counter_uses(groups()[0])[3].kind == Some(ImcEventKind::WriteOccupancy));
        assert(counter_uses(groups()[1])[2].kind == Some(ImcEventKind::Activate));
        assert(counter_uses(groups()[1])[3].kind == Some(ImcEventKind::PageMissPrecharge));
        assert(counter_uses(groups()[1])[0].kind == Some(ImcEventKind::ReadCas));
        assert(counter_uses(groups()[1])[1].kind == Some(ImcEventKind::WriteCas));
        assert(counted(i, required_events()[e]));
    }
    completeness::complete_course_has_no_gap(
        steps.last(),
        grids,
        scopes,
        counted,
        required_events(),
    );
    assert forall|scope: ImcScope|
        steps.last().grid().contains_key(scope) <==> #[trigger] units::has_scope(
            collector.units(),
            scope,
        ) by {
        assert(scopes(scope) == units::has_scope(collector.units(), scope));
    }
}

} // verus!
