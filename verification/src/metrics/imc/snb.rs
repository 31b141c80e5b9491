//! The memory controllers of Sandy Bridge-EP and Ivy Bridge-EP processors.
use crate::accumulator::{self, Accumulator, EventKind, EventMeasurement};
use crate::arch::Architecture;
use crate::completeness;
use crate::counter::Aggregate;
use crate::ep::{self, SnbArchitecture};
use crate::error::CollectorError;
use crate::export::{self, GaugeUpdate, Labels, MetricDescriptor};
use crate::ordered_map::Key;
use crate::pci::{self, PciBus, PciDeviceSpec, PciLocation, PciVendorDevice};
use crate::quantity::{self, Quantity};
use crate::registers::{self, Register, RegisterRead, RegisterWrite, Width};
use crate::schedule::{self, Slice};
use crate::seqs;
use crate::sockets::{self, UboxNode};
use crate::topology::{self, CpuTopology, TopologyLevel, TopologyLevelKind, TopologyScope};
use crate::units::{self, Clock, CounterUse, SliceReadings, Tally, Unit};
use vstd::prelude::*;

verus! {

/// Where the events of the counters are selected.
pub const COUNTER_CONTROLS: [u64; 4] = [0xd8, 0xdc, 0xe0, 0xe4];

/// Where the counters are.
pub const COUNTERS: [u64; 4] = [0xa0, 0xa8, 0xb0, 0xb8];

/// Where the clock counter is started.
pub const DCLK_CONTROL: u64 = 0xf0;

/// Where the clock counter is.
pub const DCLK_COUNTER: u64 = 0xd0;

/// Where a channel is frozen, reset and released.
pub const UNIT_CONTROL: u64 = 0xf4;

/// The scope of a memory controller report: a package.
#[derive(Clone, Copy, Debug, PartialEq, Eq, Structural)]
pub struct SnbImcScope {
    pub package_id: u32,
}

impl Key for SnbImcScope {
    open spec fn rank(self) -> int {
        self.package_id as int
    }

    proof fn rank_injective(a: Self, b: Self) {
    }

    fn precedes(&self, other: &Self) -> (result: bool) {
        self.package_id < other.package_id
    }
}

impl TopologyScope for SnbImcScope {
    open spec fn of(levels: Seq<TopologyLevel>) -> Option<Self> {
        match topology::id_at(levels, TopologyLevelKind::Package) {
            Some(package_id) => Some(SnbImcScope { package_id }),
            None => None,
        }
    }

    fn from_topology(topology: &CpuTopology) -> (scope: Result<Self, CollectorError>) {
        match topology.level_id(TopologyLevelKind::Package) {
            Some(package_id) => Ok(SnbImcScope { package_id }),
            None => Err(CollectorError::MissingPackageLevel),
        }
    }
}

/// What is counted in a memory channel.
#[derive(Clone, Copy, Debug, PartialEq, Eq, Structural)]
pub enum SnbImcEventKind {
    Activate,
    PageMissPrecharge,
    ReadCas,
    ReadInsert,
    RpqNonEmpty,
    WpqFull,
    WpqNonEmpty,
    WriteCas,
    WriteInsert,
}

/// The place of an event in the order of the events.
pub open spec fn event_index(kind: SnbImcEventKind) -> int {
    match kind {
        SnbImcEventKind::Activate => 0,
        SnbImcEventKind::PageMissPrecharge => 1,
        SnbImcEventKind::ReadCas => 2,
        SnbImcEventKind::ReadInsert => 3,
        SnbImcEventKind::RpqNonEmpty => 4,
        SnbImcEventKind::WpqFull => 5,
        SnbImcEventKind::WpqNonEmpty => 6,
        SnbImcEventKind::WriteCas => 7,
        SnbImcEventKind::WriteInsert => 8,
    }
}

/// The name of an event, as it is shown in an error.
pub open spec fn event_name(kind: SnbImcEventKind) -> &'static str {
    match kind {
        SnbImcEventKind::Activate => "Activate",
        SnbImcEventKind::PageMissPrecharge => "PageMissPrecharge",
        SnbImcEventKind::ReadCas => "ReadCas",
        SnbImcEventKind::ReadInsert => "ReadInsert",
        SnbImcEventKind::RpqNonEmpty => "RpqNonEmpty",
        SnbImcEventKind::WpqFull => "WpqFull",
        SnbImcEventKind::WpqNonEmpty => "WpqNonEmpty",
        SnbImcEventKind::WriteCas => "WriteCas",
        SnbImcEventKind::WriteInsert => "WriteInsert",
    }
}

impl SnbImcEventKind {
    fn index(self) -> (index: u8)
        ensures
            index == event_index(self),
    {
        match self {
            SnbImcEventKind::Activate => 0,
            SnbImcEventKind::PageMissPrecharge => 1,
            SnbImcEventKind::ReadCas => 2,
            SnbImcEventKind::ReadInsert => 3,
            SnbImcEventKind::RpqNonEmpty => 4,
            SnbImcEventKind::WpqFull => 5,
            SnbImcEventKind::WpqNonEmpty => 6,
            SnbImcEventKind::WriteCas => 7,
            SnbImcEventKind::WriteInsert => 8,
        }
    }

    /// The name of the event, as it is shown in an error.
    pub fn name(self) -> (name: &'static str)
        ensures
            name == event_name(self),
    {
        match self {
            SnbImcEventKind::Activate => "Activate",
            SnbImcEventKind::PageMissPrecharge => "PageMissPrecharge",
            SnbImcEventKind::ReadCas => "ReadCas",
            SnbImcEventKind::ReadInsert => "ReadInsert",
            SnbImcEventKind::RpqNonEmpty => "RpqNonEmpty",
            SnbImcEventKind::WpqFull => "WpqFull",
            SnbImcEventKind::WpqNonEmpty => "WpqNonEmpty",
            SnbImcEventKind::WriteCas => "WriteCas",
            SnbImcEventKind::WriteInsert => "WriteInsert",
        }
    }
}

impl Key for SnbImcEventKind {
    open spec fn rank(self) -> int {
        event_index(self)
    }

    proof fn rank_injective(a: Self, b: Self) {
    }

    fn precedes(&self, other: &Self) -> (result: bool) {
        self.index() < other.index()
    }
}

impl EventKind for SnbImcEventKind {
    open spec fn is_counted(self) -> bool {
        true
    }

    fn counts(&self) -> (result: bool) {
        true
    }
}

/// An event that a counter can count, and how the counts of several channels are combined; a
/// counter without one stays off.
#[derive(Clone, Copy, Debug, PartialEq, Eq, Structural)]
pub struct SnbImcEventSpec {
    pub aggregate: Aggregate,
    pub event: u8,
    pub kind: Option<SnbImcEventKind>,
    pub umask: u8,
}

/// An event of which the counts of several channels are averaged.
pub open spec fn average_of(kind: SnbImcEventKind, event: u8, umask: u8) -> SnbImcEventSpec {
    SnbImcEventSpec { aggregate: Aggregate::Average, event, kind: Some(kind), umask }
}

/// No event.
pub open spec fn no_event() -> SnbImcEventSpec {
    SnbImcEventSpec { aggregate: Aggregate::Disabled, event: 0, kind: None, umask: 0 }
}

/// An event of which the counts of several channels are summed.
pub open spec fn sum_of(kind: SnbImcEventKind, event: u8, umask: u8) -> SnbImcEventSpec {
    SnbImcEventSpec { aggregate: Aggregate::Sum, event, kind: Some(kind), umask }
}

impl SnbImcEventSpec {
    /// An event of which the counts of several channels are averaged.
    pub fn average(kind: SnbImcEventKind, event: u8, umask: u8) -> (spec: Self)
        ensures
            spec == average_of(kind, event, umask),
    {
        SnbImcEventSpec { aggregate: Aggregate::Average, event, kind: Some(kind), umask }
    }

    /// No event.
    pub fn disabled() -> (spec: Self)
        ensures
            spec == no_event(),
    {
        SnbImcEventSpec { aggregate: Aggregate::Disabled, event: 0, kind: None, umask: 0 }
    }

    /// An event of which the counts of several channels are summed.
    pub fn sum(kind: SnbImcEventKind, event: u8, umask: u8) -> (spec: Self)
        ensures
            spec == sum_of(kind, event, umask),
    {
        SnbImcEventSpec { aggregate: Aggregate::Sum, event, kind: Some(kind), umask }
    }
}

/// The events that the counters of a channel count at the same time.
#[derive(Clone, Copy, Debug, PartialEq, Eq)]
pub struct SnbImcEventGroup {
    pub events: [SnbImcEventSpec; 4],
}

/// What each counter counts while a group is programmed.
pub open spec fn counter_uses(group: SnbImcEventGroup) -> Seq<CounterUse<SnbImcEventKind>> {
    group.events@.map_values(
        |event: SnbImcEventSpec| CounterUse { aggregate: event.aggregate, kind: event.kind },
    )
}

/// The control word of an event: event number, unit mask, reset, overflow and enable bits.
pub open spec fn control_word(event: u8, umask: u8) -> u64 {
    (event + umask * 0x100 + registers::COUNT_AND_REPORT_OVERFLOW) as u64
}

/// The control words of the counters while a group is programmed; a counter without an event is
/// left as the reset left it.
pub open spec fn control_words(group: SnbImcEventGroup) -> Seq<Option<u64>> {
    group.events@.map_values(
        |event: SnbImcEventSpec|
            if event.kind is None {
                None
            } else {
                Some(control_word(event.event, event.umask))
            },
    )
}

/// The control word of an event.
pub fn counter_control(event: u8, umask: u8) -> (word: u64)
    ensures
        word == control_word(event, umask),
{
    registers::select_word(event, umask, registers::COUNT_AND_REPORT_OVERFLOW)
}

fn optional_control(event: SnbImcEventSpec) -> (word: Option<u64>)
    ensures
        word == if event.kind is None {
            None
        } else {
            Some(control_word(event.event, event.umask))
        },
{
    if event.kind.is_none() {
        None
    } else {
        Some(counter_control(event.event, event.umask))
    }
}

/// The group of the read and write queues.
pub open spec fn queue_group() -> SnbImcEventGroup {
    SnbImcEventGroup {
        events: [
            sum_of(SnbImcEventKind::ReadInsert, 0x10, 0x00),
            sum_of(SnbImcEventKind::WriteInsert, 0x20, 0x00),
            average_of(SnbImcEventKind::RpqNonEmpty, 0x11, 0x00),
            average_of(SnbImcEventKind::WpqNonEmpty, 0x21, 0x00),
        ],
    }
}

impl SnbImcEventGroup {
    /// The group of the read and write queues.
    pub fn read_write_queue() -> (group: Self)
        ensures
            group == queue_group(),
    {
        SnbImcEventGroup {
            events: [
                SnbImcEventSpec::sum(SnbImcEventKind::ReadInsert, 0x10, 0x00),
                SnbImcEventSpec::sum(SnbImcEventKind::WriteInsert, 0x20, 0x00),
                SnbImcEventSpec::average(SnbImcEventKind::RpqNonEmpty, 0x11, 0x00),
                SnbImcEventSpec::average(SnbImcEventKind::WpqNonEmpty, 0x21, 0x00),
            ],
        }
    }

    /// What each counter counts.
    pub fn uses(&self) -> (uses: Vec<CounterUse<SnbImcEventKind>>)
        ensures
            uses@ == counter_uses(*self),
    {
        let uses: Vec<CounterUse<SnbImcEventKind>> = vec![
            CounterUse { aggregate: self.events[0].aggregate, kind: self.events[0].kind },
            CounterUse { aggregate: self.events[1].aggregate, kind: self.events[1].kind },
            CounterUse { aggregate: self.events[2].aggregate, kind: self.events[2].kind },
            CounterUse { aggregate: self.events[3].aggregate, kind: self.events[3].kind },
        ];
        assert(uses@ =~= counter_uses(*self));
        uses
    }

    /// The control words of the counters.
    pub fn controls(&self) -> (words: Vec<Option<u64>>)
        ensures
            words@ == control_words(*self),
    {
        let words: Vec<Option<u64>> = vec![
            optional_control(self.events[0]),
            optional_control(self.events[1]),
            optional_control(self.events[2]),
            optional_control(self.events[3]),
        ];
        assert(words@ =~= control_words(*self));
        words
    }
}

/// The event groups of a processor, in the order in which they take turns.
pub open spec fn groups(architecture: SnbArchitecture) -> Seq<SnbImcEventGroup> {
    match architecture {
        SnbArchitecture::Ivb => seq![
            queue_group(),
            SnbImcEventGroup {
                events: [
                    average_of(SnbImcEventKind::WpqFull, 0x22, 0x00),
                    sum_of(SnbImcEventKind::ReadCas, 0x04, 0x03),
                    sum_of(SnbImcEventKind::WriteCas, 0x04, 0x0c),
                    no_event(),
                ],
            },
            SnbImcEventGroup {
                events: [
                    sum_of(SnbImcEventKind::Activate, 0x01, 0x0b),
                    sum_of(SnbImcEventKind::PageMissPrecharge, 0x02, 0x01),
                    no_event(),
                    no_event(),
                ],
            },
        ],
        SnbArchitecture::Snb => seq![
            queue_group(),
            SnbImcEventGroup {
                events: [
                    no_event(),
                    average_of(SnbImcEventKind::WpqFull, 0x22, 0x00),
                    sum_of(SnbImcEventKind::ReadCas, 0x04, 0x03),
                    sum_of(SnbImcEventKind::WriteCas, 0x04, 0x0c),
                ],
            },
            SnbImcEventGroup {
                events: [
                    sum_of(SnbImcEventKind::Activate, 0x01, 0x00),
                    sum_of(SnbImcEventKind::PageMissPrecharge, 0x02, 0x01),
                    no_event(),
                    no_event(),
                ],
            },
        ],
    }
}

/// The event groups of a processor, in the order in which they take turns.
pub fn event_groups(architecture: SnbArchitecture) -> (table: Vec<SnbImcEventGroup>)
    ensures
        table@ == groups(architecture),
{
    match architecture {
        SnbArchitecture::Ivb => vec![
            SnbImcEventGroup::read_write_queue(),
            SnbImcEventGroup {
                events: [
                    SnbImcEventSpec::average(SnbImcEventKind::WpqFull, 0x22, 0x00),
                    SnbImcEventSpec::sum(SnbImcEventKind::ReadCas, 0x04, 0x03),
                    SnbImcEventSpec::sum(SnbImcEventKind::WriteCas, 0x04, 0x0c),
                    SnbImcEventSpec::disabled(),
                ],
            },
            SnbImcEventGroup {
                events: [
                    SnbImcEventSpec::sum(SnbImcEventKind::Activate, 0x01, 0x0b),
                    SnbImcEventSpec::sum(SnbImcEventKind::PageMissPrecharge, 0x02, 0x01),
                    SnbImcEventSpec::disabled(),
                    SnbImcEventSpec::disabled(),
                ],
            },
        ],
        SnbArchitecture::Snb => vec![
            SnbImcEventGroup::read_write_queue(),
            SnbImcEventGroup {
                events: [
                    SnbImcEventSpec::disabled(),
                    SnbImcEventSpec::average(SnbImcEventKind::WpqFull, 0x22, 0x00),
                    SnbImcEventSpec::sum(SnbImcEventKind::ReadCas, 0x04, 0x03),
                    SnbImcEventSpec::sum(SnbImcEventKind::WriteCas, 0x04, 0x0c),
                ],
            },
            SnbImcEventGroup {
                events: [
                    SnbImcEventSpec::sum(SnbImcEventKind::Activate, 0x01, 0x00),
                    SnbImcEventSpec::sum(SnbImcEventKind::PageMissPrecharge, 0x02, 0x01),
                    SnbImcEventSpec::disabled(),
                    SnbImcEventSpec::disabled(),
                ],
            },
        ],
    }
}

/// The memory channels of a processor.
pub open spec fn channels_of(architecture: SnbArchitecture) -> Seq<PciDeviceSpec> {
    match architecture {
        SnbArchitecture::Ivb => seq![
            PciDeviceSpec { device: 16, device_id: 0x0eb4, function: 4 },
            PciDeviceSpec { device: 16, device_id: 0x0eb5, function: 5 },
            PciDeviceSpec { device: 16, device_id: 0x0eb0, function: 0 },
            PciDeviceSpec { device: 16, device_id: 0x0eb1, function: 1 },
            PciDeviceSpec { device: 30, device_id: 0x0ef4, function: 4 },
            PciDeviceSpec { device: 30, device_id: 0x0ef5, function: 5 },
            PciDeviceSpec { device: 30, device_id: 0x0ef0, function: 0 },
            PciDeviceSpec { device: 30, device_id: 0x0ef1, function: 1 },
        ],
        SnbArchitecture::Snb => seq![
            PciDeviceSpec { device: 16, device_id: 0x3cb0, function: 0 },
            PciDeviceSpec { device: 16, device_id: 0x3cb1, function: 1 },
            PciDeviceSpec { device: 16, device_id: 0x3cb4, function: 4 },
            PciDeviceSpec { device: 16, device_id: 0x3cb5, function: 5 },
        ],
    }
}

/// The memory channels of a processor.
pub fn channel_specs(architecture: SnbArchitecture) -> (specs: Vec<PciDeviceSpec>)
    ensures
        specs@ == channels_of(architecture),
{
    match architecture {
        SnbArchitecture::Ivb => vec![
            PciDeviceSpec { device: 16, device_id: 0x0eb4, function: 4 },
            PciDeviceSpec { device: 16, device_id: 0x0eb5, function: 5 },
            PciDeviceSpec { device: 16, device_id: 0x0eb0, function: 0 },
            PciDeviceSpec { device: 16, device_id: 0x0eb1, function: 1 },
            PciDeviceSpec { device: 30, device_id: 0x0ef4, function: 4 },
            PciDeviceSpec { device: 30, device_id: 0x0ef5, function: 5 },
            PciDeviceSpec { device: 30, device_id: 0x0ef0, function: 0 },
            PciDeviceSpec { device: 30, device_id: 0x0ef1, function: 1 },
        ],
        SnbArchitecture::Snb => vec![
            PciDeviceSpec { device: 16, device_id: 0x3cb0, function: 0 },
            PciDeviceSpec { device: 16, device_id: 0x3cb1, function: 1 },
            PciDeviceSpec { device: 16, device_id: 0x3cb4, function: 4 },
            PciDeviceSpec { device: 16, device_id: 0x3cb5, function: 5 },
        ],
    }
}

/// What is reported for the memory controllers of a package.
#[derive(Clone, Copy, Debug)]
pub struct SnbImcScopeMetrics {
    pub scope: SnbImcScope,
    pub activate_commands_per_second: Quantity,
    pub frequency_hz: Quantity,
    pub page_miss_precharge_commands_per_second: Quantity,
    pub read_bytes_per_second: Quantity,
    pub read_cas_commands_per_second: Quantity,
    pub rpq_non_empty_ratio: Quantity,
    pub write_bytes_per_second: Quantity,
    pub write_cas_commands_per_second: Quantity,
    pub wpq_full_ratio: Quantity,
    pub wpq_non_empty_ratio: Quantity,
}

/// The events that a report needs, in the order in which they are looked up.
pub open spec fn required_events() -> Seq<SnbImcEventKind> {
    seq![
        SnbImcEventKind::Activate,
        SnbImcEventKind::PageMissPrecharge,
        SnbImcEventKind::ReadCas,
        SnbImcEventKind::ReadInsert,
        SnbImcEventKind::RpqNonEmpty,
        SnbImcEventKind::WriteCas,
        SnbImcEventKind::WpqFull,
        SnbImcEventKind::WpqNonEmpty,
    ]
}

fn required_list() -> (kinds: Vec<SnbImcEventKind>)
    ensures
        kinds@ == required_events(),
{
    vec![
        SnbImcEventKind::Activate,
        SnbImcEventKind::PageMissPrecharge,
        SnbImcEventKind::ReadCas,
        SnbImcEventKind::ReadInsert,
        SnbImcEventKind::RpqNonEmpty,
        SnbImcEventKind::WriteCas,
        SnbImcEventKind::WpqFull,
        SnbImcEventKind::WpqNonEmpty,
    ]
}

/// What is reported for a scope.
pub open spec fn scope_metrics(
    scope: SnbImcScope,
    row: Map<SnbImcEventKind, EventMeasurement>,
) -> SnbImcScopeMetrics {
    let activate = row[SnbImcEventKind::Activate];
    let page_miss_precharge = row[SnbImcEventKind::PageMissPrecharge];
    let read_cas = row[SnbImcEventKind::ReadCas];
    let read_insert = row[SnbImcEventKind::ReadInsert];
    let read_queue_non_empty = row[SnbImcEventKind::RpqNonEmpty];
    let write_cas = row[SnbImcEventKind::WriteCas];
    let write_queue_full = row[SnbImcEventKind::WpqFull];
    let write_queue_non_empty = row[SnbImcEventKind::WpqNonEmpty];
    SnbImcScopeMetrics {
        scope,
        activate_commands_per_second: quantity::event_rate_of(activate),
        frequency_hz: quantity::clock_of(read_insert),
        page_miss_precharge_commands_per_second: quantity::event_rate_of(page_miss_precharge),
        read_bytes_per_second: quantity::line_rate_of(read_cas),
        read_cas_commands_per_second: quantity::event_rate_of(read_cas),
        rpq_non_empty_ratio: quantity::per_tick_of(read_queue_non_empty),
        write_bytes_per_second: quantity::line_rate_of(write_cas),
        write_cas_commands_per_second: quantity::event_rate_of(write_cas),
        wpq_full_ratio: quantity::per_tick_of(write_queue_full),
        wpq_non_empty_ratio: quantity::per_tick_of(write_queue_non_empty),
    }
}

impl SnbImcScopeMetrics {
    fn from_measurements(
        measurements: &Accumulator<SnbImcScope, SnbImcEventKind, EventMeasurement>,
        index: usize,
    ) -> (metrics: Self)
        requires
            measurements.wf(),
            index < measurements.rows().len(),
            accumulator::first_gap(measurements.rows(), required_events()) is None,
        ensures
            metrics == scope_metrics(
                measurements.rows()[index as int].0,
                measurements.rows()[index as int].1,
            ),
    {
        proof {
            let rows = measurements.rows();
            assert forall|j: int| 0 <= j < required_events().len() implies rows[index as int].1.contains_key(
                #[trigger] required_events()[j],
            ) by {
                accumulator::lemma_no_gap(rows, required_events(), index as int, j);
            }
            assert(required_events()[0] == SnbImcEventKind::Activate);
            assert(required_events()[1] == SnbImcEventKind::PageMissPrecharge);
            assert(required_events()[2] == SnbImcEventKind::ReadCas);
            assert(required_events()[3] == SnbImcEventKind::ReadInsert);
            assert(required_events()[4] == SnbImcEventKind::RpqNonEmpty);
            assert(required_events()[5] == SnbImcEventKind::WriteCas);
            assert(required_events()[6] == SnbImcEventKind::WpqFull);
            assert(required_events()[7] == SnbImcEventKind::WpqNonEmpty);
        }
        let activate = measurements.require(index, SnbImcEventKind::Activate);
        let page_miss_precharge = measurements.require(index, SnbImcEventKind::PageMissPrecharge);
        let read_cas = measurements.require(index, SnbImcEventKind::ReadCas);
        let read_insert = measurements.require(index, SnbImcEventKind::ReadInsert);
        let read_queue_non_empty = measurements.require(index, SnbImcEventKind::RpqNonEmpty);
        let write_cas = measurements.require(index, SnbImcEventKind::WriteCas);
        let write_queue_full = measurements.require(index, SnbImcEventKind::WpqFull);
        let write_queue_non_empty = measurements.require(index, SnbImcEventKind::WpqNonEmpty);
        let scope = measurements.scope_at(index);
        SnbImcScopeMetrics {
            scope,
            activate_commands_per_second: quantity::event_rate(activate),
            frequency_hz: quantity::clock(read_insert),
            page_miss_precharge_commands_per_second: quantity::event_rate(page_miss_precharge),
            read_bytes_per_second: quantity::line_rate(read_cas),
            read_cas_commands_per_second: quantity::event_rate(read_cas),
            rpq_non_empty_ratio: quantity::per_tick(read_queue_non_empty),
            write_bytes_per_second: quantity::line_rate(write_cas),
            write_cas_commands_per_second: quantity::event_rate(write_cas),
            wpq_full_ratio: quantity::per_tick(write_queue_full),
            wpq_non_empty_ratio: quantity::per_tick(write_queue_non_empty),
        }
    }
}

/// What is reported for all memory controllers.
#[derive(Debug)]
pub struct SnbImcMetrics {
    pub scopes: Vec<SnbImcScopeMetrics>,
}

/// Whether `result` is the report on measurements: one entry for each scope, in scope order, or
/// the first event that is needed and was not counted.
pub open spec fn reported(
    rows: Seq<(SnbImcScope, Map<SnbImcEventKind, EventMeasurement>)>,
    result: Result<SnbImcMetrics, CollectorError>,
) -> bool {
    match accumulator::first_gap(rows, required_events()) {
        Some(kind) => result matches Err(error) && error == (CollectorError::MissingMeasurement {
            unit: "IMC",
            event: event_name(kind),
        }),
        None => result matches Ok(metrics) && metrics.scopes@ == rows.map_values(
            |row: (
                SnbImcScope,
                Map<SnbImcEventKind, EventMeasurement>
            )| scope_metrics(row.0, row.1),
        ),
    }
}

impl SnbImcMetrics {
    /// Reports every scope, in scope order; an error where an event that is needed was not
    /// counted in some scope.
    pub fn from_measurements(
        measurements: &Accumulator<SnbImcScope, SnbImcEventKind, EventMeasurement>,
    ) -> (result: Result<Self, CollectorError>)
        requires
            measurements.wf(),
        ensures
            reported(measurements.rows(), result),
    {
        match measurements.find_gap(&required_list()) {
            Some(kind) => Err(
                CollectorError::MissingMeasurement { unit: "IMC", event: kind.name() },
            ),
            None => {
                let ghost rows = measurements.rows();
                let mut scopes: Vec<SnbImcScopeMetrics> = Vec::new();
                let mut i: usize = 0;
                while i < measurements.len()
                    invariant
                        measurements.wf(),
                        rows == measurements.rows(),
                        accumulator::first_gap(rows, required_events()) is None,
                        i <= rows.len(),
                        scopes@.len() == i,
                        forall|k: int|
                            0 <= k < i ==> (#[trigger] scopes@[k]) == scope_metrics(
                                rows[k].0,
                                rows[k].1,
                            ),
                    decreases rows.len() - i,
                {
                    scopes.push(SnbImcScopeMetrics::from_measurements(measurements, i));
                    i += 1;
                }
                assert(scopes@ =~= rows.map_values(
                    |row: (
                        SnbImcScope,
                        Map<SnbImcEventKind, EventMeasurement>
                    )| scope_metrics(row.0, row.1),
                ));
                Ok(SnbImcMetrics { scopes })
            },
        }
    }
}

/// A memory channel with the scope that it counts for.
#[derive(Clone, Copy, Debug, PartialEq, Eq, Structural)]
pub struct ChannelPlace {
    pub location: PciLocation,
    pub scope: SnbImcScope,
}

/// What the buses of the memory channels are called in an error.
pub open spec fn buses_name(architecture: SnbArchitecture) -> &'static str {
    match architecture {
        SnbArchitecture::Ivb => "Ivy Bridge-EP IMC buses",
        SnbArchitecture::Snb => "Sandy Bridge-EP IMC buses",
    }
}

/// What the collector is called in an error.
pub open spec fn unit_name(architecture: SnbArchitecture) -> &'static str {
    match architecture {
        SnbArchitecture::Ivb => "Ivy Bridge-EP IMC",
        SnbArchitecture::Snb => "Sandy Bridge-EP IMC",
    }
}

fn buses_text(architecture: SnbArchitecture) -> (name: &'static str)
    ensures
        name == buses_name(architecture),
{
    match architecture {
        SnbArchitecture::Ivb => "Ivy Bridge-EP IMC buses",
        SnbArchitecture::Snb => "Sandy Bridge-EP IMC buses",
    }
}

fn unit_text(architecture: SnbArchitecture) -> (name: &'static str)
    ensures
        name == unit_name(architecture),
{
    match architecture {
        SnbArchitecture::Ivb => "Ivy Bridge-EP IMC",
        SnbArchitecture::Snb => "Sandy Bridge-EP IMC",
    }
}

/// The buses of the packages: those that the sockets tell, or, where they tell too few, those on
/// which channels were found.
pub open spec fn socket_buses(
    nodes: Seq<UboxNode>,
    locations: Seq<PciLocation>,
    socket_count: nat,
) -> Seq<PciBus> {
    let told = sockets::buses_up_to(sockets::lowest_buses(nodes), 8);
    if told.len() < socket_count {
        sockets::distinct_buses(locations)
    } else {
        told
    }
}

/// The channels on the first `n` buses, each bus with the scope at its place.
pub open spec fn places_on(
    buses: Seq<PciBus>,
    scopes: Seq<SnbImcScope>,
    locations: Seq<PciLocation>,
    n: nat,
) -> Seq<ChannelPlace>
    decreases n,
{
    if n == 0 {
        Seq::empty()
    } else {
        places_on(buses, scopes, locations, (n - 1) as nat) + pci::on_bus(
            locations,
            buses[n - 1],
        ).map_values(
            |location: PciLocation| ChannelPlace { location, scope: scopes[n - 1] },
        )
    }
}

/// The first of the first `n` buses on which no channel was found.
pub open spec fn first_bare_bus(
    buses: Seq<PciBus>,
    locations: Seq<PciLocation>,
    n: nat,
) -> Option<PciBus>
    decreases n,
{
    if n == 0 {
        None
    } else {
        match first_bare_bus(buses, locations, (n - 1) as nat) {
            Some(bus) => Some(bus),
            None => if pci::on_bus(locations, buses[n - 1]).len() == 0 {
                Some(buses[n - 1])
            } else {
                None
            },
        }
    }
}

/// The channels of all packages, bus by bus. It is an error where there are fewer buses than
/// packages, and where a bus has no channel.
pub open spec fn discovered(
    architecture: SnbArchitecture,
    scopes: Seq<SnbImcScope>,
    nodes: Seq<UboxNode>,
    devices: Seq<PciVendorDevice>,
) -> Result<Seq<ChannelPlace>, CollectorError> {
    let locations = pci::matching_locations(devices, channels_of(architecture));
    let channel_buses = sockets::distinct_buses(locations);
    let buses = socket_buses(nodes, locations, scopes.len());
    let too_few = |found: nat| CollectorError::CountMismatch {
        what: buses_name(architecture),
        found: found as usize,
        expected: scopes.len() as usize,
    };
    if buses.len() < scopes.len() {
        Err(too_few(buses.len()))
    } else if channel_buses.len() < scopes.len() {
        Err(too_few(channel_buses.len()))
    } else {
        match first_bare_bus(buses, locations, scopes.len()) {
            Some(bus) => Err(
                CollectorError::NoChannelsOnBus { unit: unit_name(architecture), bus },
            ),
            None => Ok(places_on(buses, scopes, locations, scopes.len())),
        }
    }
}

proof fn lemma_bare_bus_stays(
    buses: Seq<PciBus>,
    locations: Seq<PciLocation>,
    n: nat,
    m: nat,
)
    requires
        n <= m,
        first_bare_bus(buses, locations, n) is Some,
    ensures
        first_bare_bus(buses, locations, m) == first_bare_bus(buses, locations, n),
    decreases m,
{
    if n < m {
        lemma_bare_bus_stays(buses, locations, n, (m - 1) as nat);
    }
}

/// Finds the channels of all packages.
pub fn discover_channel_specs(
    architecture: SnbArchitecture,
    scopes: &Vec<SnbImcScope>,
    nodes: &Vec<UboxNode>,
    devices: &Vec<PciVendorDevice>,
) -> (result: Result<Vec<ChannelPlace>, CollectorError>)
    ensures
        match discovered(architecture, scopes@, nodes@, devices@) {
            Ok(places) => result matches Ok(found) && found@ == places,
            Err(error) => result matches Err(e) && e == error,
        },
{
    let locations: Vec<PciLocation> = pci::find_matching(devices, &channel_specs(architecture));
    let channel_buses: Vec<PciBus> = sockets::buses_of(&locations);
    let channel_bus_count: usize = channel_buses.len();
    let told: Vec<PciBus> = sockets::buses_in_order(nodes);
    let buses: Vec<PciBus> = if told.len() < scopes.len() {
        channel_buses
    } else {
        told
    };
    if buses.len() < scopes.len() {
        return Err(
            CollectorError::CountMismatch {
                what: buses_text(architecture),
                found: buses.len(),
                expected: scopes.len(),
            },
        );
    }
    if channel_bus_count < scopes.len() {
        return Err(
            CollectorError::CountMismatch {
                what: buses_text(architecture),
                found: channel_bus_count,
                expected: scopes.len(),
            },
        );
    }
    let mut places: Vec<ChannelPlace> = Vec::new();
    let mut i: usize = 0;
    while i < scopes.len()
        invariant
            i <= scopes@.len() <= buses@.len(),
            locations@ == pci::matching_locations(devices@, channels_of(architecture)),
            buses@ == socket_buses(nodes@, locations@, scopes@.len()),
            scopes@.len() <= sockets::distinct_buses(locations@).len(),
            first_bare_bus(buses@, locations@, i as nat) is None,
            places@ == places_on(buses@, scopes@, locations@, i as nat),
        decreases scopes@.len() - i,
    {
        let on_bus: Vec<PciLocation> = pci::locations_on(&locations, buses[i]);
        if on_bus.len() == 0 {
            proof {
                lemma_bare_bus_stays(buses@, locations@, (i + 1) as nat, scopes@.len());
            }
            return Err(
                CollectorError::NoChannelsOnBus { unit: unit_text(architecture), bus: buses[i] },
            );
        }
        let scope = scopes[i];
        let ghost before = places@;
        let ghost all = on_bus@.map_values(
            |location: PciLocation| ChannelPlace { location, scope },
        );
        let mut j: usize = 0;
        while j < on_bus.len()
            invariant
                j <= on_bus@.len(),
                all == on_bus@.map_values(
                    |location: PciLocation| ChannelPlace { location, scope },
                ),
                places@ == before + all.take(j as int),
            decreases on_bus@.len() - j,
        {
            places.push(ChannelPlace { location: on_bus[j], scope });
            assert(all.take(j + 1) =~= all.take(j as int).push(all[j as int]));
            assert(places@ =~= before + all.take(j + 1));
            j += 1;
        }
        proof {
            assert(all.take(j as int) =~= all);
            assert(all =~= pci::on_bus(locations@, buses@[i as int]).map_values(
                |location: PciLocation| ChannelPlace { location, scope: scopes@[i as int] },
            ));
            assert(places@ =~= places_on(buses@, scopes@, locations@, (i + 1) as nat));
        }
        i += 1;
    }
    Ok(places)
}

/// The registers of a memory channel.
pub open spec fn is_channel(unit: Unit<SnbImcScope>, place: ChannelPlace) -> bool {
    let location = place.location;
    &&& unit.scope == place.scope
    &&& unit.control == Register::Pci { location, offset: UNIT_CONTROL }
    &&& unit.width == Width::Bits32
    &&& unit.filter is None
    &&& unit.controls@ == Seq::new(
        4,
        |i: int| Register::Pci { location, offset: COUNTER_CONTROLS@[i] },
    )
    &&& unit.counters@ == Seq::new(4, |i: int| Register::Pci { location, offset: COUNTERS@[i] })
    &&& unit.fixed_control == Some(Register::Pci { location, offset: DCLK_CONTROL })
    &&& unit.fixed_counter == Some(Register::Pci { location, offset: DCLK_COUNTER })
}

fn channel(place: ChannelPlace) -> (unit: Unit<SnbImcScope>)
    ensures
        is_channel(unit, place),
{
    let location = place.location;
    let unit = Unit {
        scope: place.scope,
        control: Register::Pci { location, offset: UNIT_CONTROL },
        width: Width::Bits32,
        filter: None,
        controls: vec![
            Register::Pci { location, offset: COUNTER_CONTROLS[0] },
            Register::Pci { location, offset: COUNTER_CONTROLS[1] },
            Register::Pci { location, offset: COUNTER_CONTROLS[2] },
            Register::Pci { location, offset: COUNTER_CONTROLS[3] },
        ],
        counters: vec![
            Register::Pci { location, offset: COUNTERS[0] },
            Register::Pci { location, offset: COUNTERS[1] },
            Register::Pci { location, offset: COUNTERS[2] },
            Register::Pci { location, offset: COUNTERS[3] },
        ],
        fixed_control: Some(Register::Pci { location, offset: DCLK_CONTROL }),
        fixed_counter: Some(Register::Pci { location, offset: DCLK_COUNTER }),
    };
    assert(unit.controls@ =~= Seq::new(
        4,
        |i: int| Register::Pci { location, offset: COUNTER_CONTROLS@[i] },
    ));
    assert(unit.counters@ =~= Seq::new(
        4,
        |i: int| Register::Pci { location, offset: COUNTERS@[i] },
    ));
    unit
}

/// Samples the memory controllers of Sandy Bridge-EP and Ivy Bridge-EP processors.
#[derive(Debug)]
pub struct SnbImcCollector {
    channels: Vec<Unit<SnbImcScope>>,
    next_group: usize,
    architecture: SnbArchitecture,
}

impl SnbImcCollector {
    /// The units whose counters are read.
    pub closed spec fn units(self) -> Seq<Unit<SnbImcScope>> {
        self.channels@
    }

    /// The group that goes first in the next sample.
    pub closed spec fn next_group(self) -> usize {
        self.next_group
    }

    /// The invariant: the next group is one of the groups, and every unit has the counters that a
    /// group uses.
    pub open spec fn wf(self) -> bool {
        &&& self.next_group() < groups(self.architecture()).len()
        &&& units::units_have(self.units(), 4)
    }

    /// The number of rounds in a sample over an interval.
    pub open spec fn rounds(self, interval_nanos: u128) -> nat {
        schedule::saturated(
            schedule::bounded_rounds(
                interval_nanos as nat,
                groups(self.architecture()).len() as nat,
            ),
        )
    }

    /// Makes the next group in cyclic order go first.
    pub fn rotate_group(&mut self)
        requires
            old(self).wf(),
        ensures
            final(self).wf(),
            final(self).next_group() == (
                old(self).next_group() + 1
            ) % groups(old(self).architecture()).len() as int,
            final(self).units() == old(self).units(),
            final(self).architecture() == old(self).architecture(),
    {
        self.next_group = schedule::rotate(self.next_group, event_groups(self.architecture).len());
    }

    /// The turns of the event groups over an interval.
    pub fn schedule(&self, interval_nanos: u128) -> (slices: Vec<Slice<SnbImcEventGroup>>)
        requires
            self.wf(),
            groups(self.architecture()).len() * self.rounds(interval_nanos) <= usize::MAX,
        ensures
            schedule::is_schedule(
                slices@,
                groups(self.architecture()),
                self.next_group() as int,
                interval_nanos,
                self.rounds(interval_nanos),
            ),
    {
        let groups = event_groups(self.architecture);
        let round_count: usize = schedule::bounded_round_count(interval_nanos, groups.len());
        schedule::schedule_rounds(&groups, self.next_group, interval_nanos, round_count)
    }

    /// The slices of a sample over an interval; an error over no time, or where there are more
    /// slices than can be numbered.
    pub fn begin_sample(&self, interval_nanos: u128) -> (result: Result<
        Vec<Slice<SnbImcEventGroup>>,
        CollectorError,
    >)
        requires
            self.wf(),
        ensures
            match result {
                Ok(slices) => interval_nanos > 0 && schedule::is_schedule(
                    slices@,
                    groups(self.architecture()),
                    self.next_group() as int,
                    interval_nanos,
                    self.rounds(interval_nanos),
                ),
                Err(error) => if interval_nanos == 0 {
                    error == (CollectorError::ZeroInterval { unit: unit_name(self.architecture()) })
                } else {
                    error == CollectorError::Overflow && groups(self.architecture()).len() * self.rounds(
                        interval_nanos,
                    ) > usize::MAX
                },
            },
    {
        if interval_nanos == 0 {
            return Err(CollectorError::ZeroInterval { unit: unit_text(self.architecture) });
        }
        let group_count: usize = event_groups(self.architecture).len();
        let round_count: usize = schedule::bounded_round_count(interval_nanos, group_count);
        if group_count.checked_mul(round_count).is_none() {
            return Err(CollectorError::Overflow);
        }
        Ok(self.schedule(interval_nanos))
    }

    /// Freezes and resets the counters of all units and then selects the events of a group.
    pub fn program_writes(&self, group: SnbImcEventGroup) -> (writes: Vec<RegisterWrite>)
        requires
            self.wf(),
        ensures
            writes@ == units::all_control_writes(
                self.units(),
                seq![ep::reset_word(self.architecture())],
            )
                + units::all_program_writes(
                    self.units(),
                    control_words(group),
                    registers::FIXED_COUNTER_RESET_AND_ENABLE,
                ),
    {
        let reset: Vec<u64> = vec![self.architecture.unit_freeze_and_reset()];
        assert(reset@ =~= seq![ep::reset_word(self.architecture())]);
        let mut writes: Vec<RegisterWrite> = units::write_controls(&self.channels, &reset);
        let mut events: Vec<RegisterWrite> = units::write_events(
            &self.channels,
            &group.controls(),
            registers::FIXED_COUNTER_RESET_AND_ENABLE,
        );
        writes.append(&mut events);
        writes
    }

    /// Releases the counters of all units.
    pub fn unfreeze_writes(&self) -> (writes: Vec<RegisterWrite>)
        ensures
            writes@ == units::all_control_writes(
                self.units(),
                seq![ep::freeze_enable(self.architecture())],
            ),
    {
        let words: Vec<u64> = vec![self.architecture.unit_unfreeze()];
        assert(words@ =~= seq![ep::freeze_enable(self.architecture())]);
        units::write_controls(&self.channels, &words)
    }

    /// Freezes the counters of all units.
    pub fn freeze_writes(&self) -> (writes: Vec<RegisterWrite>)
        ensures
            writes@ == units::all_control_writes(
                self.units(),
                seq![ep::freeze_word(self.architecture())],
            ),
    {
        let words: Vec<u64> = vec![self.architecture.unit_freeze()];
        assert(words@ =~= seq![ep::freeze_word(self.architecture())]);
        units::write_controls(&self.channels, &words)
    }

    /// Reads the counters of all units, and their clock counters.
    pub fn reads(&self) -> (reads: Vec<RegisterRead>)
        requires
            self.wf(),
        ensures
            reads@ == units::all_reads(self.units(), units::every_counter(4)),
    {
        units::reads(&self.channels, &units::all_used(4))
    }

    /// Adds what a slice counted to the measurements: for every scope, the counts of its units
    /// taken together and the average of their clock ticks.
    pub fn record(
        &self,
        group: SnbImcEventGroup,
        readings: &SliceReadings,
        measurements: Accumulator<SnbImcScope, SnbImcEventKind, EventMeasurement>,
    ) -> (
        result: Result<Accumulator<SnbImcScope, SnbImcEventKind, EventMeasurement>, CollectorError>
    )
        requires
            measurements.wf(),
        ensures
            units::is_record_by_scope(
                self.units(),
                *readings,
                Clock::Full,
                Tally::Counter,
                counter_uses(group),
                measurements,
                result,
            ),
    {
        units::record_by_scope(
            &self.channels,
            readings,
            Clock::Full,
            Tally::Counter,
            &group.uses(),
            measurements,
        )
    }

    /// Ends a sample: the next group goes first in the next one, and the measurements are
    /// reported.
    pub fn finish_sample(
        &mut self,
        measurements: &Accumulator<SnbImcScope, SnbImcEventKind, EventMeasurement>,
    ) -> (result: Result<SnbImcMetrics, CollectorError>)
        requires
            old(self).wf(),
            measurements.wf(),
        ensures
            final(self).wf(),
            final(self).next_group() == (
                old(self).next_group() + 1
            ) % groups(old(self).architecture()).len() as int,
            final(self).units() == old(self).units(),
            final(self).architecture() == old(self).architecture(),
            reported(measurements.rows(), result),
    {
        self.rotate_group();
        SnbImcMetrics::from_measurements(measurements)
    }

    /// A collector for given units.
    pub fn from_units(
        architecture: SnbArchitecture,
        channels: Vec<Unit<SnbImcScope>>,
    ) -> (collector: Self)
        requires
            units::units_have(channels@, 4),
        ensures
            collector.wf(),
            collector.units() == channels@,
            collector.next_group() == 0,
            collector.architecture() == architecture,
    {
        SnbImcCollector { channels, next_group: 0, architecture }
    }

    /// The processor.
    pub closed spec fn architecture(self) -> SnbArchitecture {
        self.architecture
    }

    /// A collector for the processor: Sandy Bridge-EP and Ivy Bridge-EP only.
    pub fn new(
        architecture: &Architecture,
        topologies: &Vec<CpuTopology>,
        nodes: &Vec<UboxNode>,
        devices: &Vec<PciVendorDevice>,
    ) -> (result: Result<Self, CollectorError>)
        requires
            architecture.server_model() is Some,
        ensures
            ({
                let model = architecture.server_model()->0;
                match ep::family_member(model) {
                    None => result matches Err(error) && error == (CollectorError::Unsupported {
                        unit: "Sandy/Ivy Bridge-EP IMC",
                        model,
                    }),
                    Some(member) => if topology::first_cpus::<SnbImcScope>(topologies@) is None {
                        result matches Err(error) && error == CollectorError::MissingPackageLevel
                    } else if topologies@.len() == 0 {
                        result matches Err(error) && error == (CollectorError::NothingFound {
                            what: "Sandy/Ivy Bridge-EP IMC scopes",
                        })
                    } else {
                        exists|scopes: Seq<SnbImcScope>|
                            {
                                &&& topology::lists_scopes(
                                    scopes,
                                    topology::first_cpus::<SnbImcScope>(topologies@)->0,
                                )
                                &&& match #[trigger] discovered(member, scopes, nodes@, devices@) {
                                    Ok(places) => {
                                        &&& result matches Ok(collector)
                                        &&& collector.wf()
                                        &&& collector.architecture() == member
                                        &&& collector.next_group() == 0
                                        &&& collector.units().len() == places.len()
                                        &&& forall|i: int|
                                            0 <= i < places.len() ==> is_channel(
                                                #[trigger] collector.units()[i],
                                                places[i],
                                            )
                                    },
                                    Err(error) => result matches Err(e) && e == error,
                                }
                            }
                    },
                }
            }),
    {
        let model = architecture.intel_server_model();
        let member = match SnbArchitecture::from_model(model) {
            Some(member) => member,
            None => {
                return Err(
                    CollectorError::Unsupported { unit: "Sandy/Ivy Bridge-EP IMC", model },
                );
            },
        };
        let scopes: Vec<SnbImcScope> = match topology::scopes_in_order::<SnbImcScope>(topologies) {
            Ok(scopes) => scopes,
            Err(error) => {
                return Err(error);
            },
        };
        if scopes.len() == 0 {
            return Err(CollectorError::NothingFound { what: "Sandy/Ivy Bridge-EP IMC scopes" });
        }
        let places: Vec<ChannelPlace> = match discover_channel_specs(
            member,
            &scopes,
            nodes,
            devices,
        ) {
            Ok(places) => places,
            Err(error) => {
                return Err(error);
            },
        };
        let mut channels: Vec<Unit<SnbImcScope>> = Vec::new();
        let mut i: usize = 0;
        while i < places.len()
            invariant
                i <= places@.len(),
                channels@.len() == i,
                forall|k: int| 0 <= k < i ==> is_channel(#[trigger] channels@[k], places@[k]),
            decreases places@.len() - i,
        {
            channels.push(channel(places[i]));
            i += 1;
        }
        Ok(SnbImcCollector { architecture: member, channels, next_group: 0 })
    }
}

/// The families that are registered, in this order.
pub open spec fn families() -> Seq<MetricDescriptor> {
    seq![
        MetricDescriptor {
            name: "ocellus_imc_activate_commands_per_second",
            help: "Interval-derived IMC activate commands per second",
        },
        MetricDescriptor {
            name: "ocellus_imc_frequency_hz",
            help: "Interval-derived IMC DCLK frequency in hertz",
        },
        MetricDescriptor {
            name: "ocellus_imc_page_miss_precharge_commands_per_second",
            help: "Interval-derived IMC page-miss precharge commands per second",
        },
        MetricDescriptor {
            name: "ocellus_imc_read_cas_commands_per_second",
            help: "Interval-derived IMC read CAS commands per second",
        },
        MetricDescriptor {
            name: "ocellus_imc_read_bytes_per_second",
            help: "Interval-derived IMC read bandwidth in bytes per second",
        },
        MetricDescriptor {
            name: "ocellus_imc_rpq_non_empty_ratio",
            help: "Average IMC read pending queue non-empty cycle ratio",
        },
        MetricDescriptor {
            name: "ocellus_imc_write_cas_commands_per_second",
            help: "Interval-derived IMC write CAS commands per second",
        },
        MetricDescriptor {
            name: "ocellus_imc_write_bytes_per_second",
            help: "Interval-derived IMC write bandwidth in bytes per second",
        },
        MetricDescriptor {
            name: "ocellus_imc_wpq_full_ratio",
            help: "Average IMC write pending queue full cycle ratio",
        },
        MetricDescriptor {
            name: "ocellus_imc_wpq_non_empty_ratio",
            help: "Average IMC write pending queue non-empty cycle ratio",
        },
    ]
}

/// The metrics that are set for a scope, in this order.
pub open spec fn scope_updates(metrics: SnbImcScopeMetrics) -> Seq<GaugeUpdate> {
    let labels = export::of_package(metrics.scope.package_id);
    seq![
        GaugeUpdate {
            family: "ocellus_imc_activate_commands_per_second",
            labels,
            value: metrics.activate_commands_per_second,
        },
        GaugeUpdate { family: "ocellus_imc_frequency_hz", labels, value: metrics.frequency_hz },
        GaugeUpdate {
            family: "ocellus_imc_page_miss_precharge_commands_per_second",
            labels,
            value: metrics.page_miss_precharge_commands_per_second,
        },
        GaugeUpdate {
            family: "ocellus_imc_read_bytes_per_second",
            labels,
            value: metrics.read_bytes_per_second,
        },
        GaugeUpdate {
            family: "ocellus_imc_read_cas_commands_per_second",
            labels,
            value: metrics.read_cas_commands_per_second,
        },
        GaugeUpdate {
            family: "ocellus_imc_rpq_non_empty_ratio",
            labels,
            value: metrics.rpq_non_empty_ratio,
        },
        GaugeUpdate {
            family: "ocellus_imc_write_bytes_per_second",
            labels,
            value: metrics.write_bytes_per_second,
        },
        GaugeUpdate {
            family: "ocellus_imc_write_cas_commands_per_second",
            labels,
            value: metrics.write_cas_commands_per_second,
        },
        GaugeUpdate { family: "ocellus_imc_wpq_full_ratio", labels, value: metrics.wpq_full_ratio },
        GaugeUpdate {
            family: "ocellus_imc_wpq_non_empty_ratio",
            labels,
            value: metrics.wpq_non_empty_ratio,
        },
    ]
}

/// The metrics that are set for all of them, one after the other.
pub open spec fn all_updates(metrics: SnbImcMetrics) -> Seq<GaugeUpdate> {
    seqs::flat_map(metrics.scopes@, |metrics: SnbImcScopeMetrics| scope_updates(metrics))
}

/// The metric families of the memory controllers of a processor.
#[derive(Clone, Copy, Debug)]
pub struct SnbImcPrometheusMetrics;

impl SnbImcPrometheusMetrics {
    /// The families to be registered.
    pub fn register() -> (families: Vec<MetricDescriptor>)
        ensures
            families@ == self::families(),
    {
        vec![
            MetricDescriptor {
                name: "ocellus_imc_activate_commands_per_second",
                help: "Interval-derived IMC activate commands per second",
            },
            MetricDescriptor {
                name: "ocellus_imc_frequency_hz",
                help: "Interval-derived IMC DCLK frequency in hertz",
            },
            MetricDescriptor {
                name: "ocellus_imc_page_miss_precharge_commands_per_second",
                help: "Interval-derived IMC page-miss precharge commands per second",
            },
            MetricDescriptor {
                name: "ocellus_imc_read_cas_commands_per_second",
                help: "Interval-derived IMC read CAS commands per second",
            },
            MetricDescriptor {
                name: "ocellus_imc_read_bytes_per_second",
                help: "Interval-derived IMC read bandwidth in bytes per second",
            },
            MetricDescriptor {
                name: "ocellus_imc_rpq_non_empty_ratio",
                help: "Average IMC read pending queue non-empty cycle ratio",
            },
            MetricDescriptor {
                name: "ocellus_imc_write_cas_commands_per_second",
                help: "Interval-derived IMC write CAS commands per second",
            },
            MetricDescriptor {
                name: "ocellus_imc_write_bytes_per_second",
                help: "Interval-derived IMC write bandwidth in bytes per second",
            },
            MetricDescriptor {
                name: "ocellus_imc_wpq_full_ratio",
                help: "Average IMC write pending queue full cycle ratio",
            },
            MetricDescriptor {
                name: "ocellus_imc_wpq_non_empty_ratio",
                help: "Average IMC write pending queue non-empty cycle ratio",
            },
        ]
    }

    /// The metrics to be set.
    pub fn update(&self, metrics: &SnbImcMetrics) -> (updates: Vec<GaugeUpdate>)
        ensures
            updates@ == all_updates(*metrics),
    {
        let ghost f = |metrics: SnbImcScopeMetrics| scope_updates(metrics);
        let mut updates: Vec<GaugeUpdate> = Vec::new();
        let mut i: usize = 0;
        proof {
            seqs::lemma_flat_map_ends(metrics.scopes@, f);
        }
        while i < metrics.scopes.len()
            invariant
                i <= metrics.scopes@.len(),
                f == (|metrics: SnbImcScopeMetrics| scope_updates(metrics)),
                updates@ == seqs::flat_map(metrics.scopes@.take(i as int), f),
            decreases metrics.scopes@.len() - i,
        {
            let scope = &metrics.scopes[i];
            let labels = Labels::package(scope.scope.package_id);
            let ghost before = updates@;
            updates.push(
                GaugeUpdate {
                    family: "ocellus_imc_activate_commands_per_second",
                    labels,
                    value: scope.activate_commands_per_second,
                },
            );
            updates.push(
                GaugeUpdate {
                    family: "ocellus_imc_frequency_hz",
                    labels,
                    value: scope.frequency_hz,
                },
            );
            updates.push(
                GaugeUpdate {
                    family: "ocellus_imc_page_miss_precharge_commands_per_second",
                    labels,
                    value: scope.page_miss_precharge_commands_per_second,
                },
            );
            updates.push(
                GaugeUpdate {
                    family: "ocellus_imc_read_bytes_per_second",
                    labels,
                    value: scope.read_bytes_per_second,
                },
            );
            updates.push(
                GaugeUpdate {
                    family: "ocellus_imc_read_cas_commands_per_second",
                    labels,
                    value: scope.read_cas_commands_per_second,
                },
            );
            updates.push(
                GaugeUpdate {
                    family: "ocellus_imc_rpq_non_empty_ratio",
                    labels,
                    value: scope.rpq_non_empty_ratio,
                },
            );
            updates.push(
                GaugeUpdate {
                    family: "ocellus_imc_write_bytes_per_second",
                    labels,
                    value: scope.write_bytes_per_second,
                },
            );
            updates.push(
                GaugeUpdate {
                    family: "ocellus_imc_write_cas_commands_per_second",
                    labels,
                    value: scope.write_cas_commands_per_second,
                },
            );
            updates.push(
                GaugeUpdate {
                    family: "ocellus_imc_wpq_full_ratio",
                    labels,
                    value: scope.wpq_full_ratio,
                },
            );
            updates.push(
                GaugeUpdate {
                    family: "ocellus_imc_wpq_non_empty_ratio",
                    labels,
                    value: scope.wpq_non_empty_ratio,
                },
            );
            proof {
                assert(updates@ =~= before + scope_updates(*scope));
                seqs::lemma_flat_map_step(metrics.scopes@, f, i as int);
            }
            i += 1;
        }
        proof {
            seqs::lemma_flat_map_ends(metrics.scopes@, f);
        }
        updates
    }
}

/// Every metric that is set belongs to a family that is registered.
pub proof fn updates_are_registered(metrics: SnbImcMetrics)
    ensures
        export::all_registered(all_updates(metrics), families()),
{
    let descriptors = families();
    let scopes = metrics.scopes@;
    let f = |metrics: SnbImcScopeMetrics| scope_updates(metrics);
    assert forall|k: int| 0 <= k < scopes.len() implies export::all_registered(
        f(#[trigger] scopes[k]),
        descriptors,
    ) by {
        let updates = f(scopes[k]);
        assert forall|i: int| 0 <= i < updates.len() implies export::is_registered(
            #[trigger] updates[i],
            descriptors,
        ) by {
            assert(descriptors[0].name == updates[0].family);
            assert(descriptors[1].name == updates[1].family);
            assert(descriptors[2].name == updates[2].family);
            assert(descriptors[4].name == updates[3].family);
            assert(descriptors[3].name == updates[4].family);
            assert(descriptors[5].name == updates[5].family);
            assert(descriptors[7].name == updates[6].family);
            assert(descriptors[6].name == updates[7].family);
            assert(descriptors[8].name == updates[8].family);
            assert(descriptors[9].name == updates[9].family);
        }
    }
    export::lemma_all_registered(scopes, f, descriptors);
}

/// A sample that ran all of its slices is reported: no event that a report needs is missing, and
/// every scope that has units is in it.
#[verifier::spinoff_prover]
pub proof fn complete_sample_is_reported(
    collector: SnbImcCollector,
    interval_nanos: u128,
    slices: Seq<Slice<SnbImcEventGroup>>,
    readings: Seq<SliceReadings>,
    steps: Seq<Accumulator<SnbImcScope, SnbImcEventKind, EventMeasurement>>,
    result: Result<SnbImcMetrics, CollectorError>,
)
    requires
        collector.wf(),
        schedule::is_schedule(
            slices,
            groups(collector.architecture()),
            collector.next_group() as int,
            interval_nanos,
            collector.rounds(interval_nanos),
        ),
        steps.len() == slices.len() + 1,
        steps.last().wf(),
        steps[0].grid() == Map::<SnbImcScope, Map<SnbImcEventKind, EventMeasurement>>::empty(),
        forall|i: int|
            0 <= i < slices.len() ==> units::is_record_by_scope(
                collector.units(),
                readings[i],
                Clock::Full,
                Tally::Counter,
                counter_uses((#[trigger] slices[i]).group),
                steps[i],
                Ok::<Accumulator<SnbImcScope, SnbImcEventKind, EventMeasurement>, CollectorError>(steps[i + 1]),
            ),
        reported(steps.last().rows(), result),
    ensures
        result is Ok,
        forall|scope: SnbImcScope|
            steps.last().grid().contains_key(scope) <==> #[trigger] units::has_scope(
                collector.units(),
                scope,
            ),
{
    let grids = steps.map_values(
        |step: Accumulator<SnbImcScope, SnbImcEventKind, EventMeasurement>| step.grid(),
    );
    let scopes = |scope: SnbImcScope| units::has_scope(collector.units(), scope);
    let counted = |i: int, kind: SnbImcEventKind| units::has_kind(
        counter_uses(slices[i].group),
        kind,
    );
    schedule::rounds_are_positive(interval_nanos as nat, groups(collector.architecture()).len());
    assert forall|i: int| 0 <= i < grids.len() - 1 implies completeness::extends(
        #[trigger] grids[i],
        grids[i + 1],
        scopes,
        |kind: SnbImcEventKind| counted(i, kind),
    ) by {
        completeness::record_by_scope_extends(
            collector.units(),
            readings[i],
            Clock::Full,
            Tally::Counter,
            counter_uses(slices[i].group),
            steps[i],
            steps[i + 1],
        );
    }
    assert forall|e: int| 0 <= e < required_events().len() implies exists|i: int|
        0 <= i < grids.len() - 1 && #[trigger] counted(i, #[trigger] required_events()[e]) by {
        let group: int = match collector.architecture() {
            SnbArchitecture::Ivb => if e == 3 || e == 4 || e == 7 {
                0
            } else if e == 2 || e == 5 || e == 6 {
                1
            } else {
                2
            },
            SnbArchitecture::Snb => if e == 3 || e == 4 || e == 7 {
                0
            } else if e == 2 || e == 5 || e == 6 {
                1
            } else {
                2
            },
        };
        let i = completeness::schedule_runs_group(
            slices,
            groups(collector.architecture()),
            collector.next_group() as int,
            interval_nanos,
            collector.rounds(interval_nanos),
            group,
        );
        match collector.architecture() {
            SnbArchitecture::Ivb => {
                assert(
                    counter_uses(
                        groups(collector.architecture())[2],
                    )[0].kind == Some(SnbImcEventKind::Activate)
                );
                assert(
                    counter_uses(
                        groups(collector.architecture())[2],
                    )[1].kind == Some(SnbImcEventKind::PageMissPrecharge)
                );
                assert(
                    counter_uses(
                        groups(collector.architecture())[1],
                    )[1].kind == Some(SnbImcEventKind::ReadCas)
                );
                assert(
                    counter_uses(
                        groups(collector.architecture())[0],
                    )[0].kind == Some(SnbImcEventKind::ReadInsert)
                );
                assert(
                    counter_uses(
                        groups(collector.architecture())[0],
                    )[2].kind == Some(SnbImcEventKind::RpqNonEmpty)
                );
                assert(
                    counter_uses(
                        groups(collector.architecture())[1],
                    )[2].kind == Some(SnbImcEventKind::WriteCas)
                );
                assert(
                    counter_uses(
                        groups(collector.architecture())[1],
                    )[0].kind == Some(SnbImcEventKind::WpqFull)
                );
                assert(
                    counter_uses(
                        groups(collector.architecture())[0],
                    )[3].kind == Some(SnbImcEventKind::WpqNonEmpty)
                );
            },
            SnbArchitecture::Snb => {
                assert(
                    counter_uses(
                        groups(collector.architecture())[2],
                    )[0].kind == Some(SnbImcEventKind::Activate)
                );
                assert(
                    counter_uses(
                        groups(collector.architecture())[2],
                    )[1].kind == Some(SnbImcEventKind::PageMissPrecharge)
                );
                assert(
                    counter_uses(
                        groups(collector.architecture())[1],
                    )[2].kind == Some(SnbImcEventKind::ReadCas)
                );
                assert(
                    counter_uses(
                        groups(collector.architecture())[0],
                    )[0].kind == Some(SnbImcEventKind::ReadInsert)
                );
                assert(
                    counter_uses(
                        groups(collector.architecture())[0],
                    )[2].kind == Some(SnbImcEventKind::RpqNonEmpty)
                );
                assert(
                    counter_uses(
                        groups(collector.architecture())[1],
                    )[3].kind == Some(SnbImcEventKind::WriteCas)
                );
                assert(
                    counter_uses(
                        groups(collector.architecture())[1],
                    )[1].kind == Some(SnbImcEventKind::WpqFull)
                );
                assert(
                    counter_uses(
                        groups(collector.architecture())[0],
                    )[3].kind == Some(SnbImcEventKind::WpqNonEmpty)
                );
            },
        }
        assert(counted(i, required_events()[e]));
    }
    completeness::complete_course_has_no_gap(
        steps.last(),
        grids,
        scopes,
        counted,
        required_events(),
    );
    assert forall|scope: SnbImcScope|
        steps.last().grid().contains_key(scope) <==> #[trigger] units::has_scope(
            collector.units(),
            scope,
        ) by {
        assert(scopes(scope) == units::has_scope(collector.units(), scope));
    }
}

} // verus!
