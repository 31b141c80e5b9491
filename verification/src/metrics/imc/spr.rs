//! The memory controllers of Sapphire Rapids processors.
use crate::accumulator::{self, Accumulator, EventKind, EventMeasurement};
use crate::arch::{Architecture, IntelServerCpuModel};
use crate::completeness;
use crate::counter::Aggregate;
use crate::discovery::{UncoreBoxDiscovery, UncoreDiscoverySocketBoxes};
use crate::error::CollectorError;
use crate::export::{self, GaugeUpdate, Labels, MetricDescriptor};
use crate::ordered_map::Key;
use crate::quantity::{self, Quantity};
use crate::registers::{self, Register, RegisterRead, RegisterWrite, Width};
use crate::schedule::{self, Slice};
use crate::seqs;
use crate::topology::{self, CpuTopology, TopologyLevel, TopologyScope, UncoreScope};
use crate::units::{self, Clock, CounterUse, SliceReadings, Tally, Unit};
use vstd::prelude::*;

verus! {

/// The type of the memory channels in the discovery tables.
pub const SPR_IMC_BOX_TYPE: u16 = 6;

/// How the memory channels are reached, in the discovery tables: through memory.
pub const MMIO_ACCESS: u8 = 1;

/// Freezes the counters of a channel.
pub const UNIT_FREEZE: u64 = 0x1;

/// Freezes the counters of a channel and resets its event selections.
pub const UNIT_FREEZE_AND_CONTROL_RESET: u64 = 0x101;

/// Freezes the counters of a channel and resets them.
pub const UNIT_FREEZE_AND_COUNTER_RESET: u64 = 0x201;

/// Releases the counters of a channel.
pub const UNIT_UNFREEZE: u64 = 0;

/// The scope of a memory controller report: a die.
#[derive(Clone, Copy, Debug, PartialEq, Eq, Structural)]
pub struct SprImcScope {
    pub die_group_id: u32,
    pub die_id: u32,
    pub package_id: u32,
}

impl Key for SprImcScope {
    open spec fn rank(self) -> int {
        (self.die_group_id * 0x1_0000_0000 + self.die_id) * 0x1_0000_0000 + self.package_id
    }

    proof fn rank_injective(a: Self, b: Self) {
    }

    fn precedes(&self, other: &Self) -> (result: bool) {
        if self.die_group_id != other.die_group_id {
            self.die_group_id < other.die_group_id
        } else if self.die_id != other.die_id {
            self.die_id < other.die_id
        } else {
            self.package_id < other.package_id
        }
    }
}

impl TopologyScope for SprImcScope {
    open spec fn of(levels: Seq<TopologyLevel>) -> Option<Self> {
        match topology::die_scope(levels) {
            Some(scope) => Some(
                SprImcScope {
                    die_group_id: scope.die_group_id,
                    die_id: scope.die_id,
                    package_id: scope.package_id,
                },
            ),
            None => None,
        }
    }

    fn from_topology(topology: &CpuTopology) -> (scope: Result<Self, CollectorError>) {
        match UncoreScope::from_topology(topology) {
            Ok(scope) => Ok(
                SprImcScope {
                    die_group_id: scope.die_group_id,
                    die_id: scope.die_id,
                    package_id: scope.package_id,
                },
            ),
            Err(error) => Err(error),
        }
    }
}

/// What is counted in a memory channel.
#[derive(Clone, Copy, Debug, PartialEq, Eq, Structural)]
pub enum SprImcEventKind {
    Activate,
    PageMissPrecharge,
    ReadCas,
    ReadInsert,
    ReadOccupancy,
    WriteCas,
    WriteInsert,
    WriteOccupancy,
}

/// The place of an event in the order of the events.
pub open spec fn event_index(kind: SprImcEventKind) -> int {
    match kind {
        SprImcEventKind::Activate => 0,
        SprImcEventKind::PageMissPrecharge => 1,
        SprImcEventKind::ReadCas => 2,
        SprImcEventKind::ReadInsert => 3,
        SprImcEventKind::ReadOccupancy => 4,
        SprImcEventKind::WriteCas => 5,
        SprImcEventKind::WriteInsert => 6,
        SprImcEventKind::WriteOccupancy => 7,
    }
}

/// The name of an event, as it is shown in an error.
pub open spec fn event_name(kind: SprImcEventKind) -> &'static str {
    match kind {
        SprImcEventKind::Activate => "Activate",
        SprImcEventKind::PageMissPrecharge => "PageMissPrecharge",
        SprImcEventKind::ReadCas => "ReadCas",
        SprImcEventKind::ReadInsert => "ReadInsert",
        SprImcEventKind::ReadOccupancy => "ReadOccupancy",
        SprImcEventKind::WriteCas => "WriteCas",
        SprImcEventKind::WriteInsert => "WriteInsert",
        SprImcEventKind::WriteOccupancy => "WriteOccupancy",
    }
}

impl SprImcEventKind {
    fn index(self) -> (index: u8)
        ensures
            index == event_index(self),
    {
        match self {
            SprImcEventKind::Activate => 0,
            SprImcEventKind::PageMissPrecharge => 1,
            SprImcEventKind::ReadCas => 2,
            SprImcEventKind::ReadInsert => 3,
            SprImcEventKind::ReadOccupancy => 4,
            SprImcEventKind::WriteCas => 5,
            SprImcEventKind::WriteInsert => 6,
            SprImcEventKind::WriteOccupancy => 7,
        }
    }

    /// The name of the event, as it is shown in an error.
    pub fn name(self) -> (name: &'static str)
        ensures
            name == event_name(self),
    {
        match self {
            SprImcEventKind::Activate => "Activate",
            SprImcEventKind::PageMissPrecharge => "PageMissPrecharge",
            SprImcEventKind::ReadCas => "ReadCas",
            SprImcEventKind::ReadInsert => "ReadInsert",
            SprImcEventKind::ReadOccupancy => "ReadOccupancy",
            SprImcEventKind::WriteCas => "WriteCas",
            SprImcEventKind::WriteInsert => "WriteInsert",
            SprImcEventKind::WriteOccupancy => "WriteOccupancy",
        }
    }
}

impl Key for SprImcEventKind {
    open spec fn rank(self) -> int {
        event_index(self)
    }

    proof fn rank_injective(a: Self, b: Self) {
    }

    fn precedes(&self, other: &Self) -> (result: bool) {
        self.index() < other.index()
    }
}

impl EventKind for SprImcEventKind {
    open spec fn is_counted(self) -> bool {
        true
    }

    fn counts(&self) -> (result: bool) {
        true
    }
}

/// An event that a counter can count; a counter without one stays off.
#[derive(Clone, Copy, Debug, PartialEq, Eq, Structural)]
pub struct SprImcEventSpec {
    pub event: u8,
    pub kind: Option<SprImcEventKind>,
    pub umask: u8,
}

impl SprImcEventSpec {
    /// An event of which the counts of several channels are summed.
    pub fn sum(kind: SprImcEventKind, event: u8, umask: u8) -> (spec: Self)
        ensures
            spec == sum_of(kind, event, umask),
    {
        SprImcEventSpec { event, kind: Some(kind), umask }
    }

    /// No event.
    pub fn disabled() -> (spec: Self)
        ensures
            spec == no_event(),
    {
        SprImcEventSpec { event: 0, kind: None, umask: 0 }
    }
}

/// An event of which the counts of several channels are summed.
pub open spec fn sum_of(kind: SprImcEventKind, event: u8, umask: u8) -> SprImcEventSpec {
    SprImcEventSpec { event, kind: Some(kind), umask }
}

/// No event.
pub open spec fn no_event() -> SprImcEventSpec {
    SprImcEventSpec { event: 0, kind: None, umask: 0 }
}

/// The events that the counters of a channel count at the same time.
#[derive(Clone, Copy, Debug, PartialEq, Eq)]
pub struct SprImcEventGroup {
    pub events: [SprImcEventSpec; 4],
}

/// What each counter counts while a group is programmed.
pub open spec fn counter_uses(group: SprImcEventGroup) -> Seq<CounterUse<SprImcEventKind>> {
    group.events@.map_values(
        |event: SprImcEventSpec| CounterUse { aggregate: Aggregate::Sum, kind: event.kind },
    )
}

/// The control word of an event: event number and unit mask; zero without an event.
pub open spec fn control_word(event: SprImcEventSpec) -> u64 {
    if event.kind is None {
        0
    } else {
        (event.event + event.umask * 0x100) as u64
    }
}

/// The control words of the counters while a group is programmed.
pub open spec fn control_words(group: SprImcEventGroup) -> Seq<Option<u64>> {
    group.events@.map_values(|event: SprImcEventSpec| Some(control_word(event)))
}

impl SprImcEventGroup {
    /// What each counter counts.
    pub fn uses(&self) -> (uses: Vec<CounterUse<SprImcEventKind>>)
        ensures
            uses@ == counter_uses(*self),
    {
        let uses: Vec<CounterUse<SprImcEventKind>> = vec![
            CounterUse { aggregate: Aggregate::Sum, kind: self.events[0].kind },
            CounterUse { aggregate: Aggregate::Sum, kind: self.events[1].kind },
            CounterUse { aggregate: Aggregate::Sum, kind: self.events[2].kind },
            CounterUse { aggregate: Aggregate::Sum, kind: self.events[3].kind },
        ];
        assert(uses@ =~= counter_uses(*self));
        uses
    }

    /// The control words of the counters.
    pub fn controls(&self) -> (words: Vec<Option<u64>>)
        ensures
            words@ == control_words(*self),
    {
        let words: Vec<Option<u64>> = vec![
            Some(counter_control(self.events[0])),
            Some(counter_control(self.events[1])),
            Some(counter_control(self.events[2])),
            Some(counter_control(self.events[3])),
        ];
        assert(words@ =~= control_words(*self));
        words
    }
}

/// The control word of an event.
pub fn counter_control(event: SprImcEventSpec) -> (word: u64)
    ensures
        word == control_word(event),
{
    if event.kind.is_none() {
        return 0;
    }
    registers::select_word(event.event, event.umask, 0)
}

/// The event groups, in the order in which they take turns.
pub open spec fn groups() -> Seq<SprImcEventGroup> {
    seq![
        SprImcEventGroup {
            events: [
                sum_of(SprImcEventKind::ReadOccupancy, 0x80, 0x00),
                sum_of(SprImcEventKind::ReadOccupancy, 0x81, 0x00),
                sum_of(SprImcEventKind::WriteOccupancy, 0x82, 0x00),
                sum_of(SprImcEventKind::WriteOccupancy, 0x83, 0x00),
            ],
        },
        SprImcEventGroup {
            events: [
                sum_of(SprImcEventKind::ReadInsert, 0x10, 0x03),
                sum_of(SprImcEventKind::WriteInsert, 0x20, 0x03),
                sum_of(SprImcEventKind::ReadCas, 0x05, 0xcf),
                sum_of(SprImcEventKind::WriteCas, 0x05, 0xf0),
            ],
        },
        SprImcEventGroup {
            events: [
                sum_of(SprImcEventKind::Activate, 0x02, 0xff),
                sum_of(SprImcEventKind::PageMissPrecharge, 0x03, 0x33),
                no_event(),
                no_event(),
            ],
        },
    ]
}

/// The event groups, in the order in which they take turns.
pub fn event_groups() -> (table: Vec<SprImcEventGroup>)
    ensures
        table@ == groups(),
{
    vec![
        SprImcEventGroup {
            events: [
                SprImcEventSpec::sum(SprImcEventKind::ReadOccupancy, 0x80, 0x00),
                SprImcEventSpec::sum(SprImcEventKind::ReadOccupancy, 0x81, 0x00),
                SprImcEventSpec::sum(SprImcEventKind::WriteOccupancy, 0x82, 0x00),
                SprImcEventSpec::sum(SprImcEventKind::WriteOccupancy, 0x83, 0x00),
            ],
        },
        SprImcEventGroup {
            events: [
                SprImcEventSpec::sum(SprImcEventKind::ReadInsert, 0x10, 0x03),
                SprImcEventSpec::sum(SprImcEventKind::WriteInsert, 0x20, 0x03),
                SprImcEventSpec::sum(SprImcEventKind::ReadCas, 0x05, 0xcf),
                SprImcEventSpec::sum(SprImcEventKind::WriteCas, 0x05, 0xf0),
            ],
        },
        SprImcEventGroup {
            events: [
                SprImcEventSpec::sum(SprImcEventKind::Activate, 0x02, 0xff),
                SprImcEventSpec::sum(SprImcEventKind::PageMissPrecharge, 0x03, 0x33),
                SprImcEventSpec::disabled(),
                SprImcEventSpec::disabled(),
            ],
        },
    ]
}

/// What is reported for the memory controllers of a die.
#[derive(Clone, Copy, Debug)]
pub struct SprImcScopeMetrics {
    pub scope: SprImcScope,
    pub activate_commands_per_second: Quantity,
    pub frequency_hz: Quantity,
    pub page_miss_precharge_commands_per_second: Quantity,
    pub read_cas_commands_per_second: Quantity,
    pub read_bytes_per_second: Quantity,
    pub rpq_residency_seconds: Quantity,
    pub rpq_occupancy_entries: Quantity,
    pub write_cas_commands_per_second: Quantity,
    pub write_bytes_per_second: Quantity,
    pub wpq_residency_seconds: Quantity,
    pub wpq_occupancy_entries: Quantity,
}

/// The events that a report needs, in the order in which they are looked up.
pub open spec fn required_events() -> Seq<SprImcEventKind> {
    seq![
        SprImcEventKind::ReadInsert,
        SprImcEventKind::WriteInsert,
        SprImcEventKind::ReadOccupancy,
        SprImcEventKind::WriteOccupancy,
        SprImcEventKind::Activate,
        SprImcEventKind::PageMissPrecharge,
        SprImcEventKind::ReadCas,
        SprImcEventKind::WriteCas,
    ]
}

fn required_list() -> (kinds: Vec<SprImcEventKind>)
    ensures
        kinds@ == required_events(),
{
    vec![
        SprImcEventKind::ReadInsert,
        SprImcEventKind::WriteInsert,
        SprImcEventKind::ReadOccupancy,
        SprImcEventKind::WriteOccupancy,
        SprImcEventKind::Activate,
        SprImcEventKind::PageMissPrecharge,
        SprImcEventKind::ReadCas,
        SprImcEventKind::WriteCas,
    ]
}

/// What is reported for a scope.
pub open spec fn scope_metrics(
    scope: SprImcScope,
    row: Map<SprImcEventKind, EventMeasurement>,
) -> SprImcScopeMetrics {
    let read_insert = row[SprImcEventKind::ReadInsert];
    let write_insert = row[SprImcEventKind::WriteInsert];
    let read_occupancy = row[SprImcEventKind::ReadOccupancy];
    let write_occupancy = row[SprImcEventKind::WriteOccupancy];
    let activate = row[SprImcEventKind::Activate];
    let page_miss_precharge = row[SprImcEventKind::PageMissPrecharge];
    let read_cas = row[SprImcEventKind::ReadCas];
    let write_cas = row[SprImcEventKind::WriteCas];
    SprImcScopeMetrics {
        scope,
        activate_commands_per_second: quantity::event_rate_of(activate),
        frequency_hz: quantity::clock_of(read_insert),
        page_miss_precharge_commands_per_second: quantity::event_rate_of(page_miss_precharge),
        read_cas_commands_per_second: quantity::event_rate_of(read_cas),
        read_bytes_per_second: quantity::line_rate_of(read_cas),
        rpq_residency_seconds: quantity::occupancy_over_rate_of(read_occupancy, read_insert),
        rpq_occupancy_entries: quantity::per_tick_of(read_occupancy),
        write_cas_commands_per_second: quantity::event_rate_of(write_cas),
        write_bytes_per_second: quantity::line_rate_of(write_cas),
        wpq_residency_seconds: quantity::occupancy_over_rate_of(write_occupancy, write_insert),
        wpq_occupancy_entries: quantity::per_tick_of(write_occupancy),
    }
}

impl SprImcScopeMetrics {
    fn from_measurements(
        measurements: &Accumulator<SprImcScope, SprImcEventKind, EventMeasurement>,
        index: usize,
    ) -> (metrics: Self)
        requires
            measurements.wf(),
            index < measurements.rows().len(),
            accumulator::first_gap(measurements.rows(), required_events()) is None,
        ensures
            metrics == scope_metrics(
                measurements.rows()[index as int].0,
                measurements.rows()[index as int].1,
            ),
    {
        proof {
            let rows = measurements.rows();
            assert forall|j: int| 0 <= j < required_events().len() implies rows[index as int].1.contains_key(
                #[trigger] required_events()[j],
            ) by {
                accumulator::lemma_no_gap(rows, required_events(), index as int, j);
            }
            assert(required_events()[0] == SprImcEventKind::ReadInsert);
            assert(required_events()[1] == SprImcEventKind::WriteInsert);
            assert(required_events()[2] == SprImcEventKind::ReadOccupancy);
            assert(required_events()[3] == SprImcEventKind::WriteOccupancy);
            assert(required_events()[4] == SprImcEventKind::Activate);
            assert(required_events()[5] == SprImcEventKind::PageMissPrecharge);
            assert(required_events()[6] == SprImcEventKind::ReadCas);
            assert(required_events()[7] == SprImcEventKind::WriteCas);
        }
        let read_insert = measurements.require(index, SprImcEventKind::ReadInsert);
        let write_insert = measurements.require(index, SprImcEventKind::WriteInsert);
        let read_occupancy = measurements.require(index, SprImcEventKind::ReadOccupancy);
        let write_occupancy = measurements.require(index, SprImcEventKind::WriteOccupancy);
        let activate = measurements.require(index, SprImcEventKind::Activate);
        let page_miss_precharge = measurements.require(index, SprImcEventKind::PageMissPrecharge);
        let read_cas = measurements.require(index, SprImcEventKind::ReadCas);
        let write_cas = measurements.require(index, SprImcEventKind::WriteCas);
        let scope = measurements.scope_at(index);
        SprImcScopeMetrics {
            scope,
            activate_commands_per_second: quantity::event_rate(activate),
            frequency_hz: quantity::clock(read_insert),
            page_miss_precharge_commands_per_second: quantity::event_rate(page_miss_precharge),
            read_cas_commands_per_second: quantity::event_rate(read_cas),
            read_bytes_per_second: quantity::line_rate(read_cas),
            rpq_residency_seconds: quantity::occupancy_over_rate(read_occupancy, read_insert),
            rpq_occupancy_entries: quantity::per_tick(read_occupancy),
            write_cas_commands_per_second: quantity::event_rate(write_cas),
            write_bytes_per_second: quantity::line_rate(write_cas),
            wpq_residency_seconds: quantity::occupancy_over_rate(write_occupancy, write_insert),
            wpq_occupancy_entries: quantity::per_tick(write_occupancy),
        }
    }
}

/// What is reported for all memory controllers.
#[derive(Debug)]
pub struct SprImcMetrics {
    pub scopes: Vec<SprImcScopeMetrics>,
}

/// Whether `result` is the report on measurements: one entry for each scope, in scope order, or
/// the first event that is needed and was not counted.
pub open spec fn reported(
    rows: Seq<(SprImcScope, Map<SprImcEventKind, EventMeasurement>)>,
    result: Result<SprImcMetrics, CollectorError>,
) -> bool {
    match accumulator::first_gap(rows, required_events()) {
        Some(kind) => result matches Err(error) && error == (CollectorError::MissingMeasurement {
            unit: "IMC",
            event: event_name(kind),
        }),
        None => result matches Ok(metrics) && metrics.scopes@ == rows.map_values(
            |row: (
                SprImcScope,
                Map<SprImcEventKind, EventMeasurement>
            )| scope_metrics(row.0, row.1),
        ),
    }
}

impl SprImcMetrics {
    /// Reports every scope, in scope order; an error where an event that is needed was not
    /// counted in some scope.
    pub fn from_measurements(
        measurements: &Accumulator<SprImcScope, SprImcEventKind, EventMeasurement>,
    ) -> (result: Result<Self, CollectorError>)
        requires
            measurements.wf(),
        ensures
            reported(measurements.rows(), result),
    {
        match measurements.find_gap(&required_list()) {
            Some(kind) => Err(
                CollectorError::MissingMeasurement { unit: "IMC", event: kind.name() },
            ),
            None => {
                let ghost rows = measurements.rows();
                let mut scopes: Vec<SprImcScopeMetrics> = Vec::new();
                let mut i: usize = 0;
                while i < measurements.len()
                    invariant
                        measurements.wf(),
                        rows == measurements.rows(),
                        accumulator::first_gap(rows, required_events()) is None,
                        i <= rows.len(),
                        scopes@.len() == i,
                        forall|k: int|
                            0 <= k < i ==> (#[trigger] scopes@[k]) == scope_metrics(
                                rows[k].0,
                                rows[k].1,
                            ),
                    decreases rows.len() - i,
                {
                    scopes.push(SprImcScopeMetrics::from_measurements(measurements, i));
                    i += 1;
                }
                assert(scopes@ =~= rows.map_values(
                    |row: (
                        SprImcScope,
                        Map<SprImcEventKind, EventMeasurement>
                    )| scope_metrics(row.0, row.1),
                ));
                Ok(SprImcMetrics { scopes })
            },
        }
    }
}

/// A memory channel with the scope that it counts for.
#[derive(Clone, Copy, Debug, PartialEq, Eq, Structural)]
pub struct ChannelPlace {
    pub entry: UncoreBoxDiscovery,
    pub scope: SprImcScope,
}

/// The channels of a socket.
pub open spec fn socket_places(
    socket: UncoreDiscoverySocketBoxes<SprImcScope>,
) -> Seq<ChannelPlace> {
    socket.boxes@.map_values(
        |entry: UncoreBoxDiscovery| ChannelPlace { entry, scope: socket.scope },
    )
}

/// The channels of all sockets.
pub open spec fn all_places(
    sockets: Seq<UncoreDiscoverySocketBoxes<SprImcScope>>,
) -> Seq<ChannelPlace> {
    seqs::flat_map(sockets, |socket: UncoreDiscoverySocketBoxes<SprImcScope>| socket_places(socket))
}

/// The registers of a memory channel.
pub open spec fn is_channel(unit: Unit<SprImcScope>, place: ChannelPlace) -> bool {
    let base = place.entry.box_control;
    &&& unit.scope == place.scope
    &&& unit.control == Register::Mmio { base, offset: 0 }
    &&& unit.width == Width::Bits32
    &&& unit.filter is None
    &&& unit.controls@ == Seq::new(
        4,
        |i: int| Register::Mmio { base, offset: (place.entry.control_offset + 4 * i) as u64 },
    )
    &&& unit.counters@ == Seq::new(
        4,
        |i: int| Register::Mmio { base, offset: (place.entry.counter_offset + 8 * i) as u64 },
    )
    &&& unit.fixed_control == Some(Register::Mmio { base, offset: 0x54 })
    &&& unit.fixed_counter == Some(Register::Mmio { base, offset: 0x38 })
}

fn channel(place: ChannelPlace) -> (unit: Unit<SprImcScope>)
    ensures
        is_channel(unit, place),
{
    let base: u64 = place.entry.box_control;
    let control: u64 = place.entry.control_offset as u64;
    let counter: u64 = place.entry.counter_offset as u64;
    let unit = Unit {
        scope: place.scope,
        control: Register::Mmio { base, offset: 0 },
        width: Width::Bits32,
        filter: None,
        controls: vec![
            Register::Mmio { base, offset: control },
            Register::Mmio { base, offset: control + 4 },
            Register::Mmio { base, offset: control + 8 },
            Register::Mmio { base, offset: control + 12 },
        ],
        counters: vec![
            Register::Mmio { base, offset: counter },
            Register::Mmio { base, offset: counter + 8 },
            Register::Mmio { base, offset: counter + 16 },
            Register::Mmio { base, offset: counter + 24 },
        ],
        fixed_control: Some(Register::Mmio { base, offset: 0x54 }),
        fixed_counter: Some(Register::Mmio { base, offset: 0x38 }),
    };
    assert(unit.controls@ =~= Seq::new(
        4,
        |i: int| Register::Mmio { base, offset: (place.entry.control_offset + 4 * i) as u64 },
    ));
    assert(unit.counters@ =~= Seq::new(
        4,
        |i: int| Register::Mmio { base, offset: (place.entry.counter_offset + 8 * i) as u64 },
    ));
    unit
}

fn places(sockets: &Vec<UncoreDiscoverySocketBoxes<SprImcScope>>) -> (places: Vec<ChannelPlace>)
    ensures
        places@ == all_places(sockets@),
{
    let ghost f = |socket: UncoreDiscoverySocketBoxes<SprImcScope>| socket_places(socket);
    let mut places: Vec<ChannelPlace> = Vec::new();
    let mut i: usize = 0;
    proof {
        seqs::lemma_flat_map_ends(sockets@, f);
    }
    while i < sockets.len()
        invariant
            i <= sockets@.len(),
            f == (|socket: UncoreDiscoverySocketBoxes<SprImcScope>| socket_places(socket)),
            places@ == seqs::flat_map(sockets@.take(i as int), f),
        decreases sockets@.len() - i,
    {
        let socket = &sockets[i];
        let ghost before = places@;
        let mut j: usize = 0;
        while j < socket.boxes.len()
            invariant
                j <= socket.boxes@.len(),
                places@ == before + socket_places(*socket).take(j as int),
            decreases socket.boxes@.len() - j,
        {
            places.push(ChannelPlace { entry: socket.boxes[j], scope: socket.scope });
            proof {
                let all = socket_places(*socket);
                assert(all.take(j + 1) =~= all.take(j as int).push(all[j as int]));
                assert(places@ =~= before + all.take(j + 1));
            }
            j += 1;
        }
        proof {
            assert(socket_places(*socket).take(j as int) =~= socket_places(*socket));
            seqs::lemma_flat_map_step(sockets@, f, i as int);
        }
        i += 1;
    }
    proof {
        seqs::lemma_flat_map_ends(sockets@, f);
    }
    places
}

/// Samples the memory controllers of Sapphire Rapids processors.
#[derive(Debug)]
pub struct SprImcCollector {
    channels: Vec<Unit<SprImcScope>>,
    next_group: usize,
}

impl SprImcCollector {
    /// The units whose counters are read.
    pub closed spec fn units(self) -> Seq<Unit<SprImcScope>> {
        self.channels@
    }

    /// The group that goes first in the next sample.
    pub closed spec fn next_group(self) -> usize {
        self.next_group
    }

    /// The invariant: the next group is one of the groups, and every unit has the counters that a
    /// group uses.
    pub open spec fn wf(self) -> bool {
        &&& self.next_group() < groups().len()
        &&& units::units_have(self.units(), 4)
    }

    /// The number of rounds in a sample over an interval.
    pub open spec fn rounds(interval_nanos: u128) -> nat {
        schedule::saturated(schedule::bounded_rounds(interval_nanos as nat, groups().len() as nat))
    }

    /// Makes the next group in cyclic order go first.
    pub fn rotate_group(&mut self)
        requires
            old(self).wf(),
        ensures
            final(self).wf(),
            final(self).next_group() == (old(self).next_group() + 1) % groups().len() as int,
            final(self).units() == old(self).units(),
    {
        self.next_group = schedule::rotate(self.next_group, event_groups().len());
    }

    /// The turns of the event groups over an interval.
    pub fn schedule(&self, interval_nanos: u128) -> (slices: Vec<Slice<SprImcEventGroup>>)
        requires
            self.wf(),
            groups().len() * Self::rounds(interval_nanos) <= usize::MAX,
        ensures
            schedule::is_schedule(
                slices@,
                groups(),
                self.next_group() as int,
                interval_nanos,
                Self::rounds(interval_nanos),
            ),
    {
        let groups = event_groups();
        let round_count: usize = schedule::bounded_round_count(interval_nanos, groups.len());
        schedule::schedule_rounds(&groups, self.next_group, interval_nanos, round_count)
    }

    /// The slices of a sample over an interval; an error over no time, or where there are more
    /// slices than can be numbered.
    pub fn begin_sample(&self, interval_nanos: u128) -> (result: Result<
        Vec<Slice<SprImcEventGroup>>,
        CollectorError,
    >)
        requires
            self.wf(),
        ensures
            match result {
                Ok(slices) => interval_nanos > 0 && schedule::is_schedule(
                    slices@,
                    groups(),
                    self.next_group() as int,
                    interval_nanos,
                    Self::rounds(interval_nanos),
                ),
                Err(error) => if interval_nanos == 0 {
                    error == (CollectorError::ZeroInterval { unit: "Sapphire Rapids IMC" })
                } else {
                    error == CollectorError::Overflow && groups().len() * Self::rounds(
                        interval_nanos,
                    ) > usize::MAX
                },
            },
    {
        if interval_nanos == 0 {
            return Err(CollectorError::ZeroInterval { unit: "Sapphire Rapids IMC" });
        }
        let group_count: usize = event_groups().len();
        let round_count: usize = schedule::bounded_round_count(interval_nanos, group_count);
        if group_count.checked_mul(round_count).is_none() {
            return Err(CollectorError::Overflow);
        }
        Ok(self.schedule(interval_nanos))
    }

    /// Freezes and resets the counters of all units and then selects the events of a group.
    pub fn program_writes(&self, group: SprImcEventGroup) -> (writes: Vec<RegisterWrite>)
        requires
            self.wf(),
        ensures
            writes@ == units::all_control_writes(
                self.units(),
                seq![UNIT_FREEZE, UNIT_FREEZE_AND_CONTROL_RESET, UNIT_FREEZE_AND_COUNTER_RESET],
            )
                + units::all_program_writes(
                    self.units(),
                    control_words(group),
                    registers::FIXED_COUNTER_RESET_AND_ENABLE,
                ),
    {
        let reset: Vec<u64> = vec![
            UNIT_FREEZE,
            UNIT_FREEZE_AND_CONTROL_RESET,
            UNIT_FREEZE_AND_COUNTER_RESET,
        ];
        assert(
            reset@ =~= seq![
                UNIT_FREEZE,
                UNIT_FREEZE_AND_CONTROL_RESET,
                UNIT_FREEZE_AND_COUNTER_RESET,
            ]
        );
        let mut writes: Vec<RegisterWrite> = units::write_controls(&self.channels, &reset);
        let mut events: Vec<RegisterWrite> = units::write_events(
            &self.channels,
            &group.controls(),
            registers::FIXED_COUNTER_RESET_AND_ENABLE,
        );
        writes.append(&mut events);
        writes
    }

    /// Releases the counters of all units.
    pub fn unfreeze_writes(&self) -> (writes: Vec<RegisterWrite>)
        ensures
            writes@ == units::all_control_writes(self.units(), seq![UNIT_UNFREEZE]),
    {
        let words: Vec<u64> = vec![UNIT_UNFREEZE];
        assert(words@ =~= seq![UNIT_UNFREEZE]);
        units::write_controls(&self.channels, &words)
    }

    /// Freezes the counters of all units.
    pub fn freeze_writes(&self) -> (writes: Vec<RegisterWrite>)
        ensures
            writes@ == units::all_control_writes(self.units(), seq![UNIT_FREEZE]),
    {
        let words: Vec<u64> = vec![UNIT_FREEZE];
        assert(words@ =~= seq![UNIT_FREEZE]);
        units::write_controls(&self.channels, &words)
    }

    /// Reads the counters of all units, and their clock counters.
    pub fn reads(&self) -> (reads: Vec<RegisterRead>)
        requires
            self.wf(),
        ensures
            reads@ == units::all_reads(self.units(), units::every_counter(4)),
    {
        units::reads(&self.channels, &units::all_used(4))
    }

    /// Adds what a slice counted to the measurements: for every scope, the counts of its units
    /// taken together and the average of their clock ticks.
    pub fn record(
        &self,
        group: SprImcEventGroup,
        readings: &SliceReadings,
        measurements: Accumulator<SprImcScope, SprImcEventKind, EventMeasurement>,
    ) -> (
        result: Result<Accumulator<SprImcScope, SprImcEventKind, EventMeasurement>, CollectorError>
    )
        requires
            measurements.wf(),
        ensures
            units::is_record_by_scope(
                self.units(),
                *readings,
                Clock::Masked,
                Tally::Event,
                counter_uses(group),
                measurements,
                result,
            ),
    {
        units::record_by_scope(
            &self.channels,
            readings,
            Clock::Masked,
            Tally::Event,
            &group.uses(),
            measurements,
        )
    }

    /// Ends a sample: the next group goes first in the next one, and the measurements are
    /// reported.
    pub fn finish_sample(
        &mut self,
        measurements: &Accumulator<SprImcScope, SprImcEventKind, EventMeasurement>,
    ) -> (result: Result<SprImcMetrics, CollectorError>)
        requires
            old(self).wf(),
            measurements.wf(),
        ensures
            final(self).wf(),
            final(self).next_group() == (old(self).next_group() + 1) % groups().len() as int,
            final(self).units() == old(self).units(),
            reported(measurements.rows(), result),
    {
        self.rotate_group();
        SprImcMetrics::from_measurements(measurements)
    }

    /// A collector for given units.
    pub fn from_units(channels: Vec<Unit<SprImcScope>>) -> (collector: Self)
        requires
            units::units_have(channels@, 4),
        ensures
            collector.wf(),
            collector.units() == channels@,
            collector.next_group() == 0,
    {
        SprImcCollector { channels, next_group: 0 }
    }

    /// A collector for the processor: Sapphire Rapids only. The channels are those that the
    /// discovery tables list.
    pub fn new(
        architecture: &Architecture,
        sockets: &Vec<UncoreDiscoverySocketBoxes<SprImcScope>>,
    ) -> (result:
        Result<Self, CollectorError>)
        requires
            architecture.server_model() is Some,
        ensures
            match result {
                Ok(collector) => {
                    &&& architecture.server_model() == Some(IntelServerCpuModel::SapphireRapids)
                    &&& collector.wf()
                    &&& collector.next_group() == 0
                    &&& collector.units().len() == all_places(sockets@).len()
                    &&& all_places(sockets@).len() > 0
                    &&& forall|i: int|
                        0 <= i < collector.units().len() ==> is_channel(
                            #[trigger] collector.units()[i],
                            all_places(sockets@)[i],
                        )
                },
                Err(error) => {
                    let model = architecture.server_model()->0;
                    if model != IntelServerCpuModel::SapphireRapids {
                        error == (
                            CollectorError::Unsupported { unit: "Sapphire Rapids IMC", model }
                        )
                    } else {
                        all_places(sockets@).len() == 0 && error == (CollectorError::NothingFound {
                            what: "IMC channels from PMU discovery",
                        })
                    }
                },
            },
    {
        let model = architecture.intel_server_model();
        match model {
            IntelServerCpuModel::SapphireRapids => {},
            _ => {
                return Err(CollectorError::Unsupported { unit: "Sapphire Rapids IMC", model });
            },
        }
        let places: Vec<ChannelPlace> = places(sockets);
        if places.len() == 0 {
            return Err(CollectorError::NothingFound { what: "IMC channels from PMU discovery" });
        }
        let mut channels: Vec<Unit<SprImcScope>> = Vec::new();
        let mut i: usize = 0;
        while i < places.len()
            invariant
                i <= places@.len(),
                channels@.len() == i,
                forall|k: int| 0 <= k < i ==> is_channel(#[trigger] channels@[k], places@[k]),
            decreases places@.len() - i,
        {
            channels.push(channel(places[i]));
            i += 1;
        }
        Ok(SprImcCollector { channels, next_group: 0 })
    }
}

/// The families that are registered, in this order.
pub open spec fn families() -> Seq<MetricDescriptor> {
    seq![
        MetricDescriptor {
            name: "ocellus_imc_activate_commands_per_second",
            help: "Interval-derived IMC activate commands per second",
        },
        MetricDescriptor {
            name: "ocellus_imc_frequency_hz",
            help: "Interval-derived IMC DCLK frequency in hertz",
        },
        MetricDescriptor {
            name: "ocellus_imc_page_miss_precharge_commands_per_second",
            help: "Interval-derived IMC page-miss precharge commands per second",
        },
        MetricDescriptor {
            name: "ocellus_imc_read_cas_commands_per_second",
            help: "Interval-derived IMC read CAS commands per second",
        },
        MetricDescriptor {
            name: "ocellus_imc_read_bytes_per_second",
            help: "Interval-derived IMC read bandwidth in bytes per second",
        },
        MetricDescriptor {
            name: "ocellus_imc_rpq_residency_seconds",
            help: "Interval-derived IMC read pending queue residency in seconds",
        },
        MetricDescriptor {
            name: "ocellus_imc_rpq_occupancy_entries",
            help: "Average IMC read pending queue occupancy in entries",
        },
        MetricDescriptor {
            name: "ocellus_imc_write_cas_commands_per_second",
            help: "Interval-derived IMC write CAS commands per second",
        },
        MetricDescriptor {
            name: "ocellus_imc_write_bytes_per_second",
            help: "Interval-derived IMC write bandwidth in bytes per second",
        },
        MetricDescriptor {
            name: "ocellus_imc_wpq_residency_seconds",
            help: "Interval-derived IMC write pending queue residency in seconds",
        },
        MetricDescriptor {
            name: "ocellus_imc_wpq_occupancy_entries",
            help: "Average IMC write pending queue occupancy in entries",
        },
    ]
}

/// The metrics that are set for a scope, in this order.
pub open spec fn scope_updates(metrics: SprImcScopeMetrics) -> Seq<GaugeUpdate> {
    let labels = export::of_die(
        metrics.scope.die_group_id,
        metrics.scope.die_id,
        metrics.scope.package_id,
    );
    seq![
        GaugeUpdate {
            family: "ocellus_imc_activate_commands_per_second",
            labels,
            value: metrics.activate_commands_per_second,
        },
        GaugeUpdate { family: "ocellus_imc_frequency_hz", labels, value: metrics.frequency_hz },
        GaugeUpdate {
            family: "ocellus_imc_page_miss_precharge_commands_per_second",
            labels,
            value: metrics.page_miss_precharge_commands_per_second,
        },
        GaugeUpdate {
            family: "ocellus_imc_read_cas_commands_per_second",
            labels,
            value: metrics.read_cas_commands_per_second,
        },
        GaugeUpdate {
            family: "ocellus_imc_read_bytes_per_second",
            labels,
            value: metrics.read_bytes_per_second,
        },
        GaugeUpdate {
            family: "ocellus_imc_rpq_residency_seconds",
            labels,
            value: metrics.rpq_residency_seconds,
        },
        GaugeUpdate {
            family: "ocellus_imc_rpq_occupancy_entries",
            labels,
            value: metrics.rpq_occupancy_entries,
        },
        GaugeUpdate {
            family: "ocellus_imc_write_cas_commands_per_second",
            labels,
            value: metrics.write_cas_commands_per_second,
        },
        GaugeUpdate {
            family: "ocellus_imc_write_bytes_per_second",
            labels,
            value: metrics.write_bytes_per_second,
        },
        GaugeUpdate {
            family: "ocellus_imc_wpq_residency_seconds",
            labels,
            value: metrics.wpq_residency_seconds,
        },
        GaugeUpdate {
            family: "ocellus_imc_wpq_occupancy_entries",
            labels,
            value: metrics.wpq_occupancy_entries,
        },
    ]
}

/// The metrics that are set for all of them, one after the other.
pub open spec fn all_updates(metrics: SprImcMetrics) -> Seq<GaugeUpdate> {
    seqs::flat_map(metrics.scopes@, |metrics: SprImcScopeMetrics| scope_updates(metrics))
}

/// The metric families of the memory controllers of a processor.
#[derive(Clone, Copy, Debug)]
pub struct SprImcPrometheusMetrics;

impl SprImcPrometheusMetrics {
    /// The families to be registered.
    pub fn register() -> (families: Vec<MetricDescriptor>)
        ensures
            families@ == self::families(),
    {
        vec![
            MetricDescriptor {
                name: "ocellus_imc_activate_commands_per_second",
                help: "Interval-derived IMC activate commands per second",
            },
            MetricDescriptor {
                name: "ocellus_imc_frequency_hz",
                help: "Interval-derived IMC DCLK frequency in hertz",
            },
            MetricDescriptor {
                name: "ocellus_imc_page_miss_precharge_commands_per_second",
                help: "Interval-derived IMC page-miss precharge commands per second",
            },
            MetricDescriptor {
                name: "ocellus_imc_read_cas_commands_per_second",
                help: "Interval-derived IMC read CAS commands per second",
            },
            MetricDescriptor {
                name: "ocellus_imc_read_bytes_per_second",
                help: "Interval-derived IMC read bandwidth in bytes per second",
            },
            MetricDescriptor {
                name: "ocellus_imc_rpq_residency_seconds",
                help: "Interval-derived IMC read pending queue residency in seconds",
            },
            MetricDescriptor {
                name: "ocellus_imc_rpq_occupancy_entries",
                help: "Average IMC read pending queue occupancy in entries",
            },
            MetricDescriptor {
                name: "ocellus_imc_write_cas_commands_per_second",
                help: "Interval-derived IMC write CAS commands per second",
            },
            MetricDescriptor {
                name: "ocellus_imc_write_bytes_per_second",
                help: "Interval-derived IMC write bandwidth in bytes per second",
            },
            MetricDescriptor {
                name: "ocellus_imc_wpq_residency_seconds",
                help: "Interval-derived IMC write pending queue residency in seconds",
            },
            MetricDescriptor {
                name: "ocellus_imc_wpq_occupancy_entries",
                help: "Average IMC write pending queue occupancy in entries",
            },
        ]
    }

    /// The metrics to be set.
    pub fn update(&self, metrics: &SprImcMetrics) -> (updates: Vec<GaugeUpdate>)
        ensures
            updates@ == all_updates(*metrics),
    {
        let ghost f = |metrics: SprImcScopeMetrics| scope_updates(metrics);
        let mut updates: Vec<GaugeUpdate> = Vec::new();
        let mut i: usize = 0;
        proof {
            seqs::lemma_flat_map_ends(metrics.scopes@, f);
        }
        while i < metrics.scopes.len()
            invariant
                i <= metrics.scopes@.len(),
                f == (|metrics: SprImcScopeMetrics| scope_updates(metrics)),
                updates@ == seqs::flat_map(metrics.scopes@.take(i as int), f),
            decreases metrics.scopes@.len() - i,
        {
            let scope = &metrics.scopes[i];
            let labels = Labels::die(
                scope.scope.die_group_id,
                scope.scope.die_id,
                scope.scope.package_id,
            );
            let ghost before = updates@;
            updates.push(
                GaugeUpdate {
                    family: "ocellus_imc_activate_commands_per_second",
                    labels,
                    value: scope.activate_commands_per_second,
                },
            );
            updates.push(
                GaugeUpdate {
                    family: "ocellus_imc_frequency_hz",
                    labels,
                    value: scope.frequency_hz,
                },
            );
            updates.push(
                GaugeUpdate {
                    family: "ocellus_imc_page_miss_precharge_commands_per_second",
                    labels,
                    value: scope.page_miss_precharge_commands_per_second,
                },
            );
            updates.push(
                GaugeUpdate {
                    family: "ocellus_imc_read_cas_commands_per_second",
                    labels,
                    value: scope.read_cas_commands_per_second,
                },
            );
            updates.push(
                GaugeUpdate {
                    family: "ocellus_imc_read_bytes_per_second",
                    labels,
                    value: scope.read_bytes_per_second,
                },
            );
            updates.push(
                GaugeUpdate {
                    family: "ocellus_imc_rpq_residency_seconds",
                    labels,
                    value: scope.rpq_residency_seconds,
                },
            );
            updates.push(
                GaugeUpdate {
                    family: "ocellus_imc_rpq_occupancy_entries",
                    labels,
                    value: scope.rpq_occupancy_entries,
                },
            );
            updates.push(
                GaugeUpdate {
                    family: "ocellus_imc_write_cas_commands_per_second",
                    labels,
                    value: scope.write_cas_commands_per_second,
                },
            );
            updates.push(
                GaugeUpdate {
                    family: "ocellus_imc_write_bytes_per_second",
                    labels,
                    value: scope.write_bytes_per_second,
                },
            );
            updates.push(
                GaugeUpdate {
                    family: "ocellus_imc_wpq_residency_seconds",
                    labels,
                    value: scope.wpq_residency_seconds,
                },
            );
            updates.push(
                GaugeUpdate {
                    family: "ocellus_imc_wpq_occupancy_entries",
                    labels,
                    value: scope.wpq_occupancy_entries,
                },
            );
            proof {
                assert(updates@ =~= before + scope_updates(*scope));
                seqs::lemma_flat_map_step(metrics.scopes@, f, i as int);
            }
            i += 1;
        }
        proof {
            seqs::lemma_flat_map_ends(metrics.scopes@, f);
        }
        updates
    }
}

/// Every metric that is set belongs to a family that is registered.
pub proof fn updates_are_registered(metrics: SprImcMetrics)
    ensures
        export::all_registered(all_updates(metrics), families()),
{
    let descriptors = families();
    let scopes = metrics.scopes@;
    let f = |metrics: SprImcScopeMetrics| scope_updates(metrics);
    assert forall|k: int| 0 <= k < scopes.len() implies export::all_registered(
        f(#[trigger] scopes[k]),
        descriptors,
    ) by {
        let updates = f(scopes[k]);
        assert forall|i: int| 0 <= i < updates.len() implies export::is_registered(
            #[trigger] updates[i],
            descriptors,
        ) by {
            assert(descriptors[0].name == updates[0].family);
            assert(descriptors[1].name == updates[1].family);
            assert(descriptors[2].name == updates[2].family);
            assert(descriptors[3].name == updates[3].family);
            assert(descriptors[4].name == updates[4].family);
            assert(descriptors[5].name == updates[5].family);
            assert(descriptors[6].name == updates[6].family);
            assert(descriptors[7].name == updates[7].family);
            assert(descriptors[8].name == updates[8].family);
            assert(descriptors[9].name == updates[9].family);
            assert(descriptors[10].name == updates[10].family);
        }
    }
    export::lemma_all_registered(scopes, f, descriptors);
}

/// A sample that ran all of its slices is reported: no event that a report needs is missing, and
/// every scope that has units is in it.
#[verifier::spinoff_prover]
pub proof fn complete_sample_is_reported(
    collector: SprImcCollector,
    interval_nanos: u128,
    slices: Seq<Slice<SprImcEventGroup>>,
    readings: Seq<SliceReadings>,
    steps: Seq<Accumulator<SprImcScope, SprImcEventKind, EventMeasurement>>,
    result: Result<SprImcMetrics, CollectorError>,
)
    requires
        collector.wf(),
        schedule::is_schedule(
            slices,
            groups(),
            collector.next_group() as int,
            interval_nanos,
            SprImcCollector::rounds(interval_nanos),
        ),
        steps.len() == slices.len() + 1,
        steps.last().wf(),
        steps[0].grid() == Map::<SprImcScope, Map<SprImcEventKind, EventMeasurement>>::empty(),
        forall|i: int|
            0 <= i < slices.len() ==> units::is_record_by_scope(
                collector.units(),
                readings[i],
                Clock::Masked,
                Tally::Event,
                counter_uses((#[trigger] slices[i]).group),
                steps[i],
                Ok::<Accumulator<SprImcScope, SprImcEventKind, EventMeasurement>, CollectorError>(steps[i + 1]),
            ),
        reported(steps.last().rows(), result),
    ensures
        result is Ok,
        forall|scope: SprImcScope|
            steps.last().grid().contains_key(scope) <==> #[trigger] units::has_scope(
                collector.units(),
                scope,
            ),
{
    let grids = steps.map_values(
        |step: Accumulator<SprImcScope, SprImcEventKind, EventMeasurement>| step.grid(),
    );
    let scopes = |scope: SprImcScope| units::has_scope(collector.units(), scope);
    let counted = |i: int, kind: SprImcEventKind| units::has_kind(
        counter_uses(slices[i].group),
        kind,
    );
    schedule::rounds_are_positive(interval_nanos as nat, groups().len());
    assert forall|i: int| 0 <= i < grids.len() - 1 implies completeness::extends(
        #[trigger] grids[i],
        grids[i + 1],
        scopes,
        |kind: SprImcEventKind| counted(i, kind),
    ) by {
        completeness::record_by_scope_extends(
            collector.units(),
            readings[i],
            Clock::Masked,
            Tally::Event,
            counter_uses(slices[i].group),
            steps[i],
            steps[i + 1],
        );
    }
    assert forall|e: int| 0 <= e < required_events().len() implies exists|i: int|
        0 <= i < grids.len() - 1 && #[trigger] counted(i, #[trigger] required_events()[e]) by {
        let group: int = if e == 2 || e == 3 {
            0
        } else if e == 0 || e == 1 || e == 6 || e == 7 {
            1
        } else {
            2
        };
        let i = completeness::schedule_runs_group(
            slices,
            groups(),
            collector.next_group() as int,
            interval_nanos,
            SprImcCollector::rounds(interval_nanos),
            group,
        );
        assert(counter_uses(groups()[1])[0].kind == Some(SprImcEventKind::ReadInsert));
        assert(counter_uses(groups()[1])[1].kind == Some(SprImcEventKind::WriteInsert));
        assert(counter_uses(groups()[0])[0].kind == Some(SprImcEventKind::ReadOccupancy));
        assert(counter_uses(groups()[0])[2].kind == Some(SprImcEventKind::WriteOccupancy));
        assert(counter_uses(groups()[2])[0].kind == Some(SprImcEventKind::Activate));
        assert(counter_uses(groups()[2])[1].kind == Some(SprImcEventKind::PageMissPrecharge));
        assert(counter_uses(groups()[1])[2].kind == Some(SprImcEventKind::ReadCas));
        assert(counter_uses(groups()[1])[3].kind == Some(SprImcEventKind::WriteCas));
        assert(counted(i, required_events()[e]));
    }
    completeness::complete_course_has_no_gap(
        steps.last(),
        grids,
        scopes,
        counted,
        required_events(),
    );
    assert forall|scope: SprImcScope|
        steps.last().grid().contains_key(scope) <==> #[trigger] units::has_scope(
            collector.units(),
            scope,
        ) by {
        assert(scopes(scope) == units::has_scope(collector.units(), scope));
    }
}

} // verus!
