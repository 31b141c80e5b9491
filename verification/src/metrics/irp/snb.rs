//! The I/O ring ports of Sandy Bridge-EP and Ivy Bridge-EP processors.
use crate::accumulator::{self, Accumulator, EventKind, EventMeasurement};
use crate::arch::Architecture;
use crate::completeness;
use crate::ep::{self, SnbArchitecture};
use crate::error::CollectorError;
use crate::export::{self, GaugeUpdate, Labels, MetricDescriptor};
use crate::ordered_map::{Key, OrderedMap};
use crate::pci::{self, PciBus, PciLocation, PciVendorDevice};
use crate::quantity::{self, Quantity};
use crate::registers::{self, Register, RegisterRead, RegisterWrite, Width};
use crate::schedule::{self, Slice};
use crate::seqs;
use crate::sockets::{self, UboxNode};
use crate::topology::{self, CpuTopology, TopologyLevel, TopologyLevelKind, TopologyScope};
use crate::units::{self, SliceReadings, Unit};
use vstd::prelude::*;

verus! {

/// Where the events of the counters are selected.
pub const COUNTER_CONTROLS: [u64; 4] = [0xd8, 0xdc, 0xe0, 0xe4];

/// Where the counters are.
pub const COUNTERS: [u64; 4] = [0xa0, 0xb0, 0xb8, 0xc0];

/// Where a unit is frozen, reset and released.
pub const UNIT_CONTROL: u64 = 0xf4;

/// The scope of an I/O ring port: a package.
#[derive(Clone, Copy, Debug, PartialEq, Eq, Structural)]
pub struct SnbIrpScope {
    pub package_id: u32,
}

impl Key for SnbIrpScope {
    open spec fn rank(self) -> int {
        self.package_id as int
    }

    proof fn rank_injective(a: Self, b: Self) {
    }

    fn precedes(&self, other: &Self) -> (result: bool) {
        self.package_id < other.package_id
    }
}

impl TopologyScope for SnbIrpScope {
    open spec fn of(levels: Seq<TopologyLevel>) -> Option<Self> {
        match topology::id_at(levels, TopologyLevelKind::Package) {
            Some(package_id) => Some(SnbIrpScope { package_id }),
            None => None,
        }
    }

    fn from_topology(topology: &CpuTopology) -> (scope: Result<Self, CollectorError>) {
        match topology.level_id(TopologyLevelKind::Package) {
            Some(package_id) => Ok(SnbIrpScope { package_id }),
            None => Err(CollectorError::MissingPackageLevel),
        }
    }
}

/// What is counted in an I/O ring port.
#[derive(Clone, Copy, Debug, PartialEq, Eq, Structural)]
pub enum SnbIrpEventKind {
    Clockticks,
    Disabled,
    LostOwnership,
    PcieInboundReads,
    PcieInboundWrites,
    TotalIrpOccupancy,
}

/// The place of an event in the order of the events.
pub open spec fn event_index(kind: SnbIrpEventKind) -> int {
    match kind {
        SnbIrpEventKind::Clockticks => 0,
        SnbIrpEventKind::Disabled => 1,
        SnbIrpEventKind::LostOwnership => 2,
        SnbIrpEventKind::PcieInboundReads => 3,
        SnbIrpEventKind::PcieInboundWrites => 4,
        SnbIrpEventKind::TotalIrpOccupancy => 5,
    }
}

/// The name of an event, as it is shown in an error.
pub open spec fn event_name(kind: SnbIrpEventKind) -> &'static str {
    match kind {
        SnbIrpEventKind::Clockticks => "Clockticks",
        SnbIrpEventKind::Disabled => "Disabled",
        SnbIrpEventKind::LostOwnership => "LostOwnership",
        SnbIrpEventKind::PcieInboundReads => "PcieInboundReads",
        SnbIrpEventKind::PcieInboundWrites => "PcieInboundWrites",
        SnbIrpEventKind::TotalIrpOccupancy => "TotalIrpOccupancy",
    }
}

impl SnbIrpEventKind {
    fn index(self) -> (index: u8)
        ensures
            index == event_index(self),
    {
        match self {
            SnbIrpEventKind::Clockticks => 0,
            SnbIrpEventKind::Disabled => 1,
            SnbIrpEventKind::LostOwnership => 2,
            SnbIrpEventKind::PcieInboundReads => 3,
            SnbIrpEventKind::PcieInboundWrites => 4,
            SnbIrpEventKind::TotalIrpOccupancy => 5,
        }
    }

    /// The name of the event, as it is shown in an error.
    pub fn name(self) -> (name: &'static str)
        ensures
            name == event_name(self),
    {
        match self {
            SnbIrpEventKind::Clockticks => "Clockticks",
            SnbIrpEventKind::Disabled => "Disabled",
            SnbIrpEventKind::LostOwnership => "LostOwnership",
            SnbIrpEventKind::PcieInboundReads => "PcieInboundReads",
            SnbIrpEventKind::PcieInboundWrites => "PcieInboundWrites",
            SnbIrpEventKind::TotalIrpOccupancy => "TotalIrpOccupancy",
        }
    }
}

impl Key for SnbIrpEventKind {
    open spec fn rank(self) -> int {
        event_index(self)
    }

    proof fn rank_injective(a: Self, b: Self) {
    }

    fn precedes(&self, other: &Self) -> (result: bool) {
        self.index() < other.index()
    }
}

impl EventKind for SnbIrpEventKind {
    open spec fn is_counted(self) -> bool {
        self != SnbIrpEventKind::Disabled
    }

    fn counts(&self) -> (result: bool) {
        match self {
            SnbIrpEventKind::Disabled => false,
            _ => true,
        }
    }
}

/// An event that a counter can count.
#[derive(Clone, Copy, Debug, PartialEq, Eq, Structural)]
pub struct SnbIrpEventSpec {
    pub event: u8,
    pub kind: SnbIrpEventKind,
    pub umask: u8,
}

/// An event of which the counts are summed.
pub open spec fn sum_of(kind: SnbIrpEventKind, event: u8, umask: u8) -> SnbIrpEventSpec {
    SnbIrpEventSpec { event, kind, umask }
}

/// No event.
pub open spec fn no_event() -> SnbIrpEventSpec {
    SnbIrpEventSpec { event: 0, kind: SnbIrpEventKind::Disabled, umask: 0 }
}

impl SnbIrpEventSpec {
    /// An event of which the counts are summed.
    pub fn sum(kind: SnbIrpEventKind, event: u8, umask: u8) -> (spec: Self)
        ensures
            spec == sum_of(kind, event, umask),
    {
        SnbIrpEventSpec { event, kind, umask }
    }

    /// No event.
    pub fn disabled() -> (spec: Self)
        ensures
            spec == no_event(),
    {
        SnbIrpEventSpec { event: 0, kind: SnbIrpEventKind::Disabled, umask: 0 }
    }
}

/// The events that the counters of a unit count at the same time.
#[derive(Clone, Copy, Debug, PartialEq, Eq)]
pub struct SnbIrpEventGroup {
    pub events: [SnbIrpEventSpec; 4],
}

/// What a counter counts, if anything.
pub open spec fn kind_of(event: SnbIrpEventSpec) -> Option<SnbIrpEventKind> {
    if event.kind == SnbIrpEventKind::Disabled {
        None
    } else {
        Some(event.kind)
    }
}

/// The control word of an event: event number, unit mask, reset, overflow and enable bits; zero
/// without an event.
pub open spec fn control_word(event: SnbIrpEventSpec) -> u64 {
    if event.kind == SnbIrpEventKind::Disabled {
        0
    } else {
        (event.event + event.umask * 0x100 + registers::COUNT_AND_REPORT_OVERFLOW) as u64
    }
}

/// What each counter counts while a group is programmed.
pub open spec fn counter_kinds(group: SnbIrpEventGroup) -> Seq<Option<SnbIrpEventKind>> {
    group.events@.map_values(|event: SnbIrpEventSpec| kind_of(event))
}

/// The control words of the counters while a group is programmed.
pub open spec fn control_words(group: SnbIrpEventGroup) -> Seq<Option<u64>> {
    group.events@.map_values(|event: SnbIrpEventSpec| Some(control_word(event)))
}

fn counted_kind(event: SnbIrpEventSpec) -> (kind: Option<SnbIrpEventKind>)
    ensures
        kind == kind_of(event),
{
    match event.kind {
        SnbIrpEventKind::Disabled => None,
        kind => Some(kind),
    }
}

/// The control word of an event.
pub fn counter_control(event: SnbIrpEventSpec) -> (word: u64)
    ensures
        word == control_word(event),
{
    match event.kind {
        SnbIrpEventKind::Disabled => 0,
        _ => registers::select_word(event.event, event.umask, registers::COUNT_AND_REPORT_OVERFLOW),
    }
}

impl SnbIrpEventGroup {
    /// What each counter counts.
    pub fn kinds(&self) -> (kinds: Vec<Option<SnbIrpEventKind>>)
        ensures
            kinds@ == counter_kinds(*self),
    {
        let kinds: Vec<Option<SnbIrpEventKind>> = vec![
            counted_kind(self.events[0]),
            counted_kind(self.events[1]),
            counted_kind(self.events[2]),
            counted_kind(self.events[3]),
        ];
        assert(kinds@ =~= counter_kinds(*self));
        kinds
    }

    /// The control words of the counters.
    pub fn controls(&self) -> (words: Vec<Option<u64>>)
        ensures
            words@ == control_words(*self),
    {
        let words: Vec<Option<u64>> = vec![
            Some(counter_control(self.events[0])),
            Some(counter_control(self.events[1])),
            Some(counter_control(self.events[2])),
            Some(counter_control(self.events[3])),
        ];
        assert(words@ =~= control_words(*self));
        words
    }
}

/// The event groups, in the order in which they take turns.
pub open spec fn groups() -> Seq<SnbIrpEventGroup> {
    seq![
        SnbIrpEventGroup {
            events: [
                sum_of(SnbIrpEventKind::PcieInboundReads, 0x15, 0x01),
                sum_of(SnbIrpEventKind::PcieInboundWrites, 0x15, 0x02),
                sum_of(SnbIrpEventKind::LostOwnership, 0x16, 0x01),
                sum_of(SnbIrpEventKind::Clockticks, 0x00, 0x00),
            ],
        },
        SnbIrpEventGroup {
            events: [
                sum_of(SnbIrpEventKind::TotalIrpOccupancy, 0x12, 0x01),
                no_event(),
                no_event(),
                no_event(),
            ],
        },
    ]
}

/// The event groups, in the order in which they take turns.
pub fn event_groups() -> (table: Vec<SnbIrpEventGroup>)
    ensures
        table@ == groups(),
{
    vec![
        SnbIrpEventGroup {
            events: [
                SnbIrpEventSpec::sum(SnbIrpEventKind::PcieInboundReads, 0x15, 0x01),
                SnbIrpEventSpec::sum(SnbIrpEventKind::PcieInboundWrites, 0x15, 0x02),
                SnbIrpEventSpec::sum(SnbIrpEventKind::LostOwnership, 0x16, 0x01),
                SnbIrpEventSpec::sum(SnbIrpEventKind::Clockticks, 0x00, 0x00),
            ],
        },
        SnbIrpEventGroup {
            events: [
                SnbIrpEventSpec::sum(SnbIrpEventKind::TotalIrpOccupancy, 0x12, 0x01),
                SnbIrpEventSpec::disabled(),
                SnbIrpEventSpec::disabled(),
                SnbIrpEventSpec::disabled(),
            ],
        },
    ]
}

/// What is reported for the I/O ring port of a package.
#[derive(Clone, Copy, Debug)]
pub struct SnbIrpScopeMetrics {
    pub scope: SnbIrpScope,
    pub frequency_hz: Quantity,
    pub io_write_conflict_ratio: Quantity,
    pub pcie_inbound_reads_per_second: Quantity,
    pub pcie_inbound_writes_per_second: Quantity,
    pub total_irp_occupancy_entries: Quantity,
}

/// The events that a report needs, in the order in which they are looked up.
pub open spec fn required_events() -> Seq<SnbIrpEventKind> {
    seq![
        SnbIrpEventKind::Clockticks,
        SnbIrpEventKind::LostOwnership,
        SnbIrpEventKind::PcieInboundReads,
        SnbIrpEventKind::PcieInboundWrites,
        SnbIrpEventKind::TotalIrpOccupancy,
    ]
}

fn required_list() -> (kinds: Vec<SnbIrpEventKind>)
    ensures
        kinds@ == required_events(),
{
    vec![
        SnbIrpEventKind::Clockticks,
        SnbIrpEventKind::LostOwnership,
        SnbIrpEventKind::PcieInboundReads,
        SnbIrpEventKind::PcieInboundWrites,
        SnbIrpEventKind::TotalIrpOccupancy,
    ]
}

/// What is reported for a scope.
pub open spec fn scope_metrics(
    scope: SnbIrpScope,
    row: Map<SnbIrpEventKind, EventMeasurement>,
) -> SnbIrpScopeMetrics {
    let clockticks = row[SnbIrpEventKind::Clockticks];
    let lost_ownership = row[SnbIrpEventKind::LostOwnership];
    let pcie_inbound_reads = row[SnbIrpEventKind::PcieInboundReads];
    let pcie_inbound_writes = row[SnbIrpEventKind::PcieInboundWrites];
    let total_irp_occupancy = row[SnbIrpEventKind::TotalIrpOccupancy];
    SnbIrpScopeMetrics {
        scope,
        frequency_hz: quantity::count_frequency_of(clockticks),
        io_write_conflict_ratio: quantity::scaled_ratio_of(lost_ownership, pcie_inbound_writes),
        pcie_inbound_reads_per_second: quantity::event_rate_of(pcie_inbound_reads),
        pcie_inbound_writes_per_second: quantity::event_rate_of(pcie_inbound_writes),
        total_irp_occupancy_entries: quantity::scaled_ratio_of(total_irp_occupancy, clockticks),
    }
}

impl SnbIrpScopeMetrics {
    fn from_measurements(
        measurements: &Accumulator<SnbIrpScope, SnbIrpEventKind, EventMeasurement>,
        index: usize,
    ) -> (metrics: Self)
        requires
            measurements.wf(),
            index < measurements.rows().len(),
            accumulator::first_gap(measurements.rows(), required_events()) is None,
        ensures
            metrics == scope_metrics(
                measurements.rows()[index as int].0,
                measurements.rows()[index as int].1,
            ),
    {
        proof {
            let rows = measurements.rows();
            assert forall|j: int| 0 <= j < required_events().len() implies rows[index as int].1.contains_key(
                #[trigger] required_events()[j],
            ) by {
                accumulator::lemma_no_gap(rows, required_events(), index as int, j);
            }
            assert(required_events()[0] == SnbIrpEventKind::Clockticks);
            assert(required_events()[1] == SnbIrpEventKind::LostOwnership);
            assert(required_events()[2] == SnbIrpEventKind::PcieInboundReads);
            assert(required_events()[3] == SnbIrpEventKind::PcieInboundWrites);
            assert(required_events()[4] == SnbIrpEventKind::TotalIrpOccupancy);
        }
        let clockticks = measurements.require(index, SnbIrpEventKind::Clockticks);
        let lost_ownership = measurements.require(index, SnbIrpEventKind::LostOwnership);
        let pcie_inbound_reads = measurements.require(index, SnbIrpEventKind::PcieInboundReads);
        let pcie_inbound_writes = measurements.require(index, SnbIrpEventKind::PcieInboundWrites);
        let total_irp_occupancy = measurements.require(index, SnbIrpEventKind::TotalIrpOccupancy);
        let scope = measurements.scope_at(index);
        SnbIrpScopeMetrics {
            scope,
            frequency_hz: quantity::count_frequency(clockticks),
            io_write_conflict_ratio: quantity::scaled_ratio(lost_ownership, pcie_inbound_writes),
            pcie_inbound_reads_per_second: quantity::event_rate(pcie_inbound_reads),
            pcie_inbound_writes_per_second: quantity::event_rate(pcie_inbound_writes),
            total_irp_occupancy_entries: quantity::scaled_ratio(total_irp_occupancy, clockticks),
        }
    }
}

/// What is reported for all I/O ring ports.
#[derive(Debug)]
pub struct SnbIrpMetrics {
    pub scopes: Vec<SnbIrpScopeMetrics>,
}

/// Whether `result` is the report on measurements: one entry for each scope, in scope order, or
/// the first event that is needed and was not counted.
pub open spec fn reported(
    rows: Seq<(SnbIrpScope, Map<SnbIrpEventKind, EventMeasurement>)>,
    result: Result<SnbIrpMetrics, CollectorError>,
) -> bool {
    match accumulator::first_gap(rows, required_events()) {
        Some(kind) => result matches Err(error) && error == (CollectorError::MissingMeasurement {
            unit: "Sandy/Ivy Bridge-EP IRP",
            event: event_name(kind),
        }),
        None => result matches Ok(metrics) && metrics.scopes@ == rows.map_values(
            |row: (
                SnbIrpScope,
                Map<SnbIrpEventKind, EventMeasurement>
            )| scope_metrics(row.0, row.1),
        ),
    }
}

impl SnbIrpMetrics {
    /// Reports every scope, in scope order; an error where an event that is needed was not
    /// counted in some scope.
    pub fn from_measurements(
        measurements: &Accumulator<SnbIrpScope, SnbIrpEventKind, EventMeasurement>,
    ) -> (result: Result<Self, CollectorError>)
        requires
            measurements.wf(),
        ensures
            reported(measurements.rows(), result),
    {
        match measurements.find_gap(&required_list()) {
            Some(kind) => Err(
                CollectorError::MissingMeasurement {
                    unit: "Sandy/Ivy Bridge-EP IRP",
                    event: kind.name(),
                },
            ),
            None => {
                let ghost rows = measurements.rows();
                let mut scopes: Vec<SnbIrpScopeMetrics> = Vec::new();
                let mut i: usize = 0;
                while i < measurements.len()
                    invariant
                        measurements.wf(),
                        rows == measurements.rows(),
                        accumulator::first_gap(rows, required_events()) is None,
                        i <= rows.len(),
                        scopes@.len() == i,
                        forall|k: int|
                            0 <= k < i ==> (#[trigger] scopes@[k]) == scope_metrics(
                                rows[k].0,
                                rows[k].1,
                            ),
                    decreases rows.len() - i,
                {
                    scopes.push(SnbIrpScopeMetrics::from_measurements(measurements, i));
                    i += 1;
                }
                assert(scopes@ =~= rows.map_values(
                    |row: (
                        SnbIrpScope,
                        Map<SnbIrpEventKind, EventMeasurement>
                    )| scope_metrics(row.0, row.1),
                ));
                Ok(SnbIrpMetrics { scopes })
            },
        }
    }
}

/// The device id of the I/O ring port of a processor.
pub open spec fn device_id(architecture: SnbArchitecture) -> u16 {
    match architecture {
        SnbArchitecture::Ivb => 0x0e39,
        SnbArchitecture::Snb => 0x3c40,
    }
}

/// The device id of the I/O ring port of a processor.
pub fn irp_device_id(architecture: SnbArchitecture) -> (id: u16)
    ensures
        id == device_id(architecture),
{
    match architecture {
        SnbArchitecture::Ivb => 0x0e39,
        SnbArchitecture::Snb => 0x3c40,
    }
}

/// What the collector is called in an error.
pub open spec fn unit_name(architecture: SnbArchitecture) -> &'static str {
    match architecture {
        SnbArchitecture::Ivb => "Ivy Bridge-EP IRP",
        SnbArchitecture::Snb => "Sandy Bridge-EP IRP",
    }
}

fn unit_text(architecture: SnbArchitecture) -> (name: &'static str)
    ensures
        name == unit_name(architecture),
{
    match architecture {
        SnbArchitecture::Ivb => "Ivy Bridge-EP IRP",
        SnbArchitecture::Snb => "Sandy Bridge-EP IRP",
    }
}

/// The bus of a package.
#[derive(Clone, Copy, Debug, PartialEq, Eq, Structural)]
pub struct SnbIrpBusScope {
    pub bus: PciBus,
    pub scope: SnbIrpScope,
}

impl SnbIrpBusScope {
    /// Whether a location stands on the bus.
    pub fn matches(self, location: PciLocation) -> (result: bool)
        ensures
            result == (self.bus == location.on()),
    {
        self.bus == location.pci_bus()
    }
}

/// The buses of the packages numbered below `n`, each with the scope at its number; nothing where
/// a package has no scope.
pub open spec fn scopes_of_buses(
    buses: Map<u32, PciBus>,
    scopes: Seq<SnbIrpScope>,
    n: nat,
) -> Option<Seq<SnbIrpBusScope>>
    decreases n,
{
    if n == 0 {
        Some(Seq::empty())
    } else {
        let package = (n - 1) as u32;
        match scopes_of_buses(buses, scopes, (n - 1) as nat) {
            Some(before) => if !buses.contains_key(package) {
                Some(before)
            } else if package < scopes.len() {
                Some(
                    before.push(
                        SnbIrpBusScope { bus: buses[package], scope: scopes[package as int] },
                    ),
                )
            } else {
                None
            },
            None => None,
        }
    }
}

/// The buses that the sockets tell, each with its scope; none where a socket tells a package that
/// is not there.
pub open spec fn known_buses(
    nodes: Seq<UboxNode>,
    scopes: Seq<SnbIrpScope>,
) -> Seq<SnbIrpBusScope> {
    match scopes_of_buses(sockets::lowest_buses(nodes), scopes, 8) {
        Some(bus_scopes) => bus_scopes,
        None => Seq::empty(),
    }
}

proof fn lemma_unknown_package_stays(
    buses: Map<u32, PciBus>,
    scopes: Seq<SnbIrpScope>,
    n: nat,
    m: nat,
)
    requires
        n <= m,
        scopes_of_buses(buses, scopes, n) is None,
    ensures
        scopes_of_buses(buses, scopes, m) is None,
    decreases m,
{
    if n < m {
        lemma_unknown_package_stays(buses, scopes, n, (m - 1) as nat);
    }
}

/// The buses that the sockets tell, each with its scope.
pub fn irp_bus_scopes(nodes: &Vec<UboxNode>, scopes: &Vec<SnbIrpScope>) -> (bus_scopes: Vec<
    SnbIrpBusScope,
>)
    ensures
        bus_scopes@ == known_buses(nodes@, scopes@),
{
    let buses: OrderedMap<u32, PciBus> = sockets::package_buses_from_uboxes(nodes);
    let mut bus_scopes: Vec<SnbIrpBusScope> = Vec::new();
    let mut package: u32 = 0;
    while package < 8
        invariant
            package <= 8,
            buses.wf(),
            buses@ == sockets::lowest_buses(nodes@),
            scopes_of_buses(buses@, scopes@, package as nat) == Some(bus_scopes@),
        decreases 8 - package,
    {
        match buses.get(&package) {
            Some(bus) => {
                let index: usize = package as usize;
                if index >= scopes.len() {
                    proof {
                        lemma_unknown_package_stays(buses@, scopes@, (package + 1) as nat, 8);
                    }
                    return Vec::new();
                }
                bus_scopes.push(SnbIrpBusScope { bus: *bus, scope: scopes[index] });
            },
            None => {},
        }
        package += 1;
    }
    bus_scopes
}

/// The first of the first `n` buses that is the bus of a location.
pub open spec fn bus_of(
    bus_scopes: Seq<SnbIrpBusScope>,
    location: PciLocation,
    n: nat,
) -> Option<SnbIrpBusScope>
    decreases n,
{
    if n == 0 {
        None
    } else {
        match bus_of(bus_scopes, location, (n - 1) as nat) {
            Some(found) => Some(found),
            None => if bus_scopes[n - 1].bus == location.on() {
                Some(bus_scopes[n - 1])
            } else {
                None
            },
        }
    }
}

/// Whether a bus stands in the group of a location and not below it.
pub open spec fn is_above(bus: PciBus, location: PciLocation) -> bool {
    bus.group == location.group && bus.bus >= location.bus
}

/// The lowest of the first `n` buses that stand in the group of a location and not below it.
pub open spec fn next_bus(
    bus_scopes: Seq<SnbIrpBusScope>,
    location: PciLocation,
    n: nat,
) -> Option<SnbIrpBusScope>
    decreases n,
{
    if n == 0 {
        None
    } else {
        let candidate = bus_scopes[n - 1];
        match next_bus(bus_scopes, location, (n - 1) as nat) {
            Some(best) => if is_above(candidate.bus, location) && candidate.bus.bus < best.bus.bus {
                Some(candidate)
            } else {
                Some(best)
            },
            None => if is_above(candidate.bus, location) {
                Some(candidate)
            } else {
                None
            },
        }
    }
}

/// The package of a location: that of its bus, else that of the next bus above it, else the one
/// at the place at which the location was found.
pub open spec fn package_of(
    bus_scopes: Seq<SnbIrpBusScope>,
    scopes: Seq<SnbIrpScope>,
    location: PciLocation,
    index: int,
) -> Option<SnbIrpScope> {
    match bus_of(bus_scopes, location, bus_scopes.len()) {
        Some(found) => Some(found.scope),
        None => match next_bus(bus_scopes, location, bus_scopes.len()) {
            Some(found) => Some(found.scope),
            None => if index < scopes.len() {
                Some(scopes[index])
            } else {
                None
            },
        },
    }
}

proof fn lemma_bus_stays(
    bus_scopes: Seq<SnbIrpBusScope>,
    location: PciLocation,
    n: nat,
    m: nat,
)
    requires
        n <= m,
        bus_of(bus_scopes, location, n) is Some,
    ensures
        bus_of(bus_scopes, location, m) == bus_of(bus_scopes, location, n),
    decreases m,
{
    if n < m {
        lemma_bus_stays(bus_scopes, location, n, (m - 1) as nat);
    }
}

fn find_package(
    bus_scopes: &Vec<SnbIrpBusScope>,
    scopes: &Vec<SnbIrpScope>,
    location: PciLocation,
    index: usize,
) -> (found: Option<SnbIrpScope>)
    ensures
        found == package_of(bus_scopes@, scopes@, location, index as int),
{
    let mut next: Option<SnbIrpBusScope> = None;
    let mut i: usize = 0;
    while i < bus_scopes.len()
        invariant
            i <= bus_scopes@.len(),
            bus_of(bus_scopes@, location, i as nat) is None,
            next == next_bus(bus_scopes@, location, i as nat),
        decreases bus_scopes@.len() - i,
    {
        let candidate = bus_scopes[i];
        if candidate.matches(location) {
            proof {
                lemma_bus_stays(bus_scopes@, location, (i + 1) as nat, bus_scopes@.len());
            }
            return Some(candidate.scope);
        }
        if candidate.bus.group == location.group && candidate.bus.bus >= location.bus {
            next = match next {
                Some(best) => if candidate.bus.bus < best.bus.bus {
                    Some(candidate)
                } else {
                    Some(best)
                },
                None => Some(candidate),
            };
        }
        i += 1;
    }
    match next {
        Some(found) => Some(found.scope),
        None => if index < scopes.len() {
            Some(scopes[index])
        } else {
            None
        },
    }
}

/// An I/O ring port with the package that it counts for.
#[derive(Clone, Copy, Debug, PartialEq, Eq, Structural)]
pub struct UnitPlace {
    pub location: PciLocation,
    pub scope: SnbIrpScope,
}

/// The units at the first `n` locations, or the first location that belongs to no package.
pub open spec fn placed(
    architecture: SnbArchitecture,
    bus_scopes: Seq<SnbIrpBusScope>,
    scopes: Seq<SnbIrpScope>,
    locations: Seq<PciLocation>,
    n: nat,
) -> Result<Seq<UnitPlace>, CollectorError>
    decreases n,
{
    if n == 0 {
        Ok(Seq::empty())
    } else {
        match placed(architecture, bus_scopes, scopes, locations, (n - 1) as nat) {
            Ok(before) => match package_of(bus_scopes, scopes, locations[n - 1], n - 1) {
                Some(scope) => Ok(before.push(UnitPlace { location: locations[n - 1], scope })),
                None => Err(
                    CollectorError::UnmappedLocation {
                        unit: unit_name(architecture),
                        location: locations[n - 1],
                    },
                ),
            },
            Err(error) => Err(error),
        }
    }
}

/// The units of the processor. It is an error where there are none, and where one belongs to no
/// package.
pub open spec fn discovered(
    architecture: SnbArchitecture,
    scopes: Seq<SnbIrpScope>,
    nodes: Seq<UboxNode>,
    devices: Seq<PciVendorDevice>,
) -> Result<Seq<UnitPlace>, CollectorError> {
    let locations = pci::locations_with_id(devices, device_id(architecture));
    if locations.len() == 0 {
        Err(
            CollectorError::NoDevices {
                unit: unit_name(architecture),
                device_id: device_id(architecture),
            },
        )
    } else {
        placed(architecture, known_buses(nodes, scopes), scopes, locations, locations.len())
    }
}

proof fn lemma_unplaced_stays(
    architecture: SnbArchitecture,
    bus_scopes: Seq<SnbIrpBusScope>,
    scopes: Seq<SnbIrpScope>,
    locations: Seq<PciLocation>,
    n: nat,
    m: nat,
)
    requires
        n <= m,
        placed(architecture, bus_scopes, scopes, locations, n) is Err,
    ensures
        placed(architecture, bus_scopes, scopes, locations, m) == placed(
            architecture,
            bus_scopes,
            scopes,
            locations,
            n,
        ),
    decreases m,
{
    if n < m {
        lemma_unplaced_stays(architecture, bus_scopes, scopes, locations, n, (m - 1) as nat);
    }
}

proof fn lemma_unplaced_error(
    architecture: SnbArchitecture,
    bus_scopes: Seq<SnbIrpBusScope>,
    scopes: Seq<SnbIrpScope>,
    locations: Seq<PciLocation>,
    n: nat,
)
    ensures
        placed(architecture, bus_scopes, scopes, locations, n) matches Err(error) ==> error
            is UnmappedLocation,
    decreases n,
{
    if n > 0 {
        lemma_unplaced_error(architecture, bus_scopes, scopes, locations, (n - 1) as nat);
    }
}

/// Finds the units of the processor.
pub fn discover_packages(
    architecture: SnbArchitecture,
    scopes: &Vec<SnbIrpScope>,
    nodes: &Vec<UboxNode>,
    devices: &Vec<PciVendorDevice>,
) -> (result: Result<Vec<UnitPlace>, CollectorError>)
    ensures
        match discovered(architecture, scopes@, nodes@, devices@) {
            Ok(places) => result matches Ok(found) && found@ == places,
            Err(error) => result matches Err(e) && e == error,
        },
{
    let bus_scopes: Vec<SnbIrpBusScope> = irp_bus_scopes(nodes, scopes);
    let locations: Vec<PciLocation> = pci::find_devices(devices, irp_device_id(architecture));
    if locations.len() == 0 {
        return Err(
            CollectorError::NoDevices {
                unit: unit_text(architecture),
                device_id: irp_device_id(architecture),
            },
        );
    }
    let mut places: Vec<UnitPlace> = Vec::new();
    let mut i: usize = 0;
    while i < locations.len()
        invariant
            i <= locations@.len(),
            locations@.len() > 0,
            bus_scopes@ == known_buses(nodes@, scopes@),
            locations@ == pci::locations_with_id(devices@, device_id(architecture)),
            placed(architecture, bus_scopes@, scopes@, locations@, i as nat) == Ok::<
                Seq<UnitPlace>,
                CollectorError,
            >(places@),
        decreases locations@.len() - i,
    {
        match find_package(&bus_scopes, scopes, locations[i], i) {
            Some(scope) => {
                places.push(UnitPlace { location: locations[i], scope });
            },
            None => {
                proof {
                    lemma_unplaced_stays(
                        architecture,
                        bus_scopes@,
                        scopes@,
                        locations@,
                        (i + 1) as nat,
                        locations@.len(),
                    );
                }
                return Err(
                    CollectorError::UnmappedLocation {
                        unit: unit_text(architecture),
                        location: locations[i],
                    },
                );
            },
        }
        i += 1;
    }
    Ok(places)
}

/// The registers of an I/O ring port.
pub open spec fn is_package(unit: Unit<SnbIrpScope>, place: UnitPlace) -> bool {
    let location = place.location;
    &&& unit.scope == place.scope
    &&& unit.control == Register::Pci { location, offset: UNIT_CONTROL }
    &&& unit.width == Width::Bits32
    &&& unit.filter is None
    &&& unit.controls@ == Seq::new(
        4,
        |i: int| Register::Pci { location, offset: COUNTER_CONTROLS@[i] },
    )
    &&& unit.counters@ == Seq::new(4, |i: int| Register::Pci { location, offset: COUNTERS@[i] })
    &&& unit.fixed_control is None
    &&& unit.fixed_counter is None
}

fn package(place: UnitPlace) -> (unit: Unit<SnbIrpScope>)
    ensures
        is_package(unit, place),
{
    let location = place.location;
    let unit = Unit {
        scope: place.scope,
        control: Register::Pci { location, offset: UNIT_CONTROL },
        width: Width::Bits32,
        filter: None,
        controls: vec![
            Register::Pci { location, offset: COUNTER_CONTROLS[0] },
            Register::Pci { location, offset: COUNTER_CONTROLS[1] },
            Register::Pci { location, offset: COUNTER_CONTROLS[2] },
            Register::Pci { location, offset: COUNTER_CONTROLS[3] },
        ],
        counters: vec![
            Register::Pci { location, offset: COUNTERS[0] },
            Register::Pci { location, offset: COUNTERS[1] },
            Register::Pci { location, offset: COUNTERS[2] },
            Register::Pci { location, offset: COUNTERS[3] },
        ],
        fixed_control: None,
        fixed_counter: None,
    };
    assert(unit.controls@ =~= Seq::new(
        4,
        |i: int| Register::Pci { location, offset: COUNTER_CONTROLS@[i] },
    ));
    assert(unit.counters@ =~= Seq::new(
        4,
        |i: int| Register::Pci { location, offset: COUNTERS@[i] },
    ));
    unit
}

/// Whether `result` is the collector for the processor: Sandy Bridge-EP and Ivy Bridge-EP only.
pub open spec fn created(
    architecture: Architecture,
    topologies: Seq<CpuTopology>,
    nodes: Seq<UboxNode>,
    devices: Seq<PciVendorDevice>,
    result: Result<SnbIrpCollector, CollectorError>,
) -> bool {
    let model = architecture.server_model()->0;
    match ep::family_member(model) {
        None => result matches Err(error) && error == (CollectorError::Unsupported {
            unit: "Sandy/Ivy Bridge-EP IRP",
            model,
        }),
        Some(member) => if topology::first_cpus::<SnbIrpScope>(topologies) is None {
            result matches Err(error) && error == CollectorError::MissingPackageLevel
        } else if topologies.len() == 0 {
            result matches Err(error) && error == (CollectorError::NothingFound {
                what: "Sandy/Ivy Bridge-EP IRP scopes",
            })
        } else {
            exists|scopes: Seq<SnbIrpScope>|
                {
                    &&& topology::lists_scopes(
                        scopes,
                        topology::first_cpus::<SnbIrpScope>(topologies)->0,
                    )
                    &&& match #[trigger] discovered(member, scopes, nodes, devices) {
                        Ok(places) => {
                            &&& result matches Ok(collector)
                            &&& collector.wf()
                            &&& collector.architecture() == member
                            &&& collector.next_group() == 0
                            &&& collector.units().len() == places.len()
                            &&& forall|i: int|
                                0 <= i < places.len() ==> is_package(
                                    #[trigger] collector.units()[i],
                                    places[i],
                                )
                        },
                        Err(error) => result matches Err(e) && e == error,
                    }
                }
        },
    }
}

/// A processor of the family is not refused as unsupported.
pub proof fn members_are_not_refused(
    architecture: Architecture,
    topologies: Seq<CpuTopology>,
    nodes: Seq<UboxNode>,
    devices: Seq<PciVendorDevice>,
    result: Result<SnbIrpCollector, CollectorError>,
)
    requires
        ep::family_member(architecture.server_model()->0) is Some,
        created(architecture, topologies, nodes, devices, result),
    ensures
        !(result matches Err(CollectorError::Unsupported { .. })),
{
    let member = ep::family_member(architecture.server_model()->0)->0;
    let locations = pci::locations_with_id(devices, device_id(member));
    assert forall|scopes: Seq<SnbIrpScope>| #[trigger]
        discovered(member, scopes, nodes, devices) is Err implies !(discovered(
        member,
        scopes,
        nodes,
        devices,
    )->Err_0 is Unsupported) by {
        lemma_unplaced_error(
            member,
            known_buses(nodes, scopes),
            scopes,
            locations,
            locations.len(),
        );
    }
}

/// Samples the I/O ring ports of Sandy Bridge-EP and Ivy Bridge-EP processors.
#[derive(Debug)]
pub struct SnbIrpCollector {
    packages: Vec<Unit<SnbIrpScope>>,
    next_group: usize,
    architecture: SnbArchitecture,
}

impl SnbIrpCollector {
    /// The units whose counters are read.
    pub closed spec fn units(self) -> Seq<Unit<SnbIrpScope>> {
        self.packages@
    }

    /// The group that goes first in the next sample.
    pub closed spec fn next_group(self) -> usize {
        self.next_group
    }

    /// The invariant: the next group is one of the groups, and every unit has the counters that a
    /// group uses.
    pub open spec fn wf(self) -> bool {
        &&& self.next_group() < groups().len()
        &&& units::units_have(self.units(), 4)
    }

    /// The number of rounds in a sample over an interval.
    pub open spec fn rounds(interval_nanos: u128) -> nat {
        schedule::dealt_rounds(interval_nanos as nat, groups().len() as nat)
    }

    /// Makes the next group in cyclic order go first.
    pub fn rotate_group(&mut self)
        requires
            old(self).wf(),
        ensures
            final(self).wf(),
            final(self).next_group() == (old(self).next_group() + 1) % groups().len() as int,
            final(self).units() == old(self).units(),
            final(self).architecture() == old(self).architecture(),
    {
        self.next_group = schedule::rotate(self.next_group, event_groups().len());
    }

    /// The turns of the event groups over an interval.
    pub fn schedule(&self, interval_nanos: u128) -> (slices: Vec<Slice<SnbIrpEventGroup>>)
        requires
            self.wf(),
            groups().len() * Self::rounds(interval_nanos) <= usize::MAX,
        ensures
            schedule::is_schedule(
                slices@,
                groups(),
                self.next_group() as int,
                interval_nanos,
                Self::rounds(interval_nanos),
            ),
    {
        let groups = event_groups();
        let round_count: usize = schedule::dealt_round_count(interval_nanos, groups.len());
        schedule::schedule_rounds(&groups, self.next_group, interval_nanos, round_count)
    }

    /// The slices of a sample over an interval; an error over no time, or where there are more
    /// slices than can be numbered.
    pub fn begin_sample(&self, interval_nanos: u128) -> (result: Result<
        Vec<Slice<SnbIrpEventGroup>>,
        CollectorError,
    >)
        requires
            self.wf(),
        ensures
            match result {
                Ok(slices) => interval_nanos > 0 && schedule::is_schedule(
                    slices@,
                    groups(),
                    self.next_group() as int,
                    interval_nanos,
                    Self::rounds(interval_nanos),
                ),
                Err(error) => if interval_nanos == 0 {
                    error == (CollectorError::ZeroInterval { unit: unit_name(self.architecture()) })
                } else {
                    error == CollectorError::Overflow && groups().len() * Self::rounds(
                        interval_nanos,
                    ) > usize::MAX
                },
            },
    {
        if interval_nanos == 0 {
            return Err(CollectorError::ZeroInterval { unit: unit_text(self.architecture) });
        }
        let group_count: usize = event_groups().len();
        let round_count: usize = schedule::dealt_round_count(interval_nanos, group_count);
        if group_count.checked_mul(round_count).is_none() {
            return Err(CollectorError::Overflow);
        }
        Ok(self.schedule(interval_nanos))
    }

    /// Freezes and resets the counters of all units and then selects the events of a group.
    pub fn program_writes(&self, group: SnbIrpEventGroup) -> (writes: Vec<RegisterWrite>)
        requires
            self.wf(),
        ensures
            writes@ == units::all_control_writes(
                self.units(),
                seq![ep::reset_word(self.architecture())],
            )
                + units::all_program_writes(self.units(), control_words(group), 0),
    {
        let reset: Vec<u64> = vec![self.architecture.unit_freeze_and_reset()];
        assert(reset@ =~= seq![ep::reset_word(self.architecture())]);
        let mut writes: Vec<RegisterWrite> = units::write_controls(&self.packages, &reset);
        let mut events: Vec<RegisterWrite> = units::write_events(
            &self.packages,
            &group.controls(),
            0,
        );
        writes.append(&mut events);
        writes
    }

    /// Releases the counters of all units.
    pub fn unfreeze_writes(&self) -> (writes: Vec<RegisterWrite>)
        ensures
            writes@ == units::all_control_writes(
                self.units(),
                seq![ep::freeze_enable(self.architecture())],
            ),
    {
        let words: Vec<u64> = vec![self.architecture.unit_unfreeze()];
        assert(words@ =~= seq![ep::freeze_enable(self.architecture())]);
        units::write_controls(&self.packages, &words)
    }

    /// Freezes the counters of all units.
    pub fn freeze_writes(&self) -> (writes: Vec<RegisterWrite>)
        ensures
            writes@ == units::all_control_writes(
                self.units(),
                seq![ep::freeze_word(self.architecture())],
            ),
    {
        let words: Vec<u64> = vec![self.architecture.unit_freeze()];
        assert(words@ =~= seq![ep::freeze_word(self.architecture())]);
        units::write_controls(&self.packages, &words)
    }

    /// Shows that the units can be written: setting up the collector freezes them, and it cannot be
    /// used where one of these writes is refused.
    pub fn probe_writes(&self) -> (writes: Vec<RegisterWrite>)
        ensures
            writes@ == units::all_control_writes(
                self.units(),
                seq![ep::freeze_word(self.architecture())],
            ),
    {
        self.freeze_writes()
    }

    /// Reads the counters of all units.
    pub fn reads(&self) -> (reads: Vec<RegisterRead>)
        requires
            self.wf(),
        ensures
            reads@ == units::all_reads(self.units(), units::every_counter(4)),
    {
        units::reads(&self.packages, &units::all_used(4))
    }

    /// Adds what a slice counted to the measurements, counter by counter.
    pub fn record(
        &self,
        group: SnbIrpEventGroup,
        readings: &SliceReadings,
        measurements: Accumulator<SnbIrpScope, SnbIrpEventKind, EventMeasurement>,
    ) -> (
        result: Result<Accumulator<SnbIrpScope, SnbIrpEventKind, EventMeasurement>, CollectorError>
    )
        requires
            measurements.wf(),
        ensures
            units::is_record_by_unit(
                self.units(),
                *readings,
                counter_kinds(group),
                measurements,
                result,
            ),
    {
        units::record_by_unit(&self.packages, readings, &group.kinds(), measurements)
    }

    /// Ends a sample: the next group goes first in the next one, and the measurements are
    /// reported.
    pub fn finish_sample(
        &mut self,
        measurements: &Accumulator<SnbIrpScope, SnbIrpEventKind, EventMeasurement>,
    ) -> (result: Result<SnbIrpMetrics, CollectorError>)
        requires
            old(self).wf(),
            measurements.wf(),
        ensures
            final(self).wf(),
            final(self).next_group() == (old(self).next_group() + 1) % groups().len() as int,
            final(self).units() == old(self).units(),
            final(self).architecture() == old(self).architecture(),
            reported(measurements.rows(), result),
    {
        self.rotate_group();
        SnbIrpMetrics::from_measurements(measurements)
    }

    /// A collector for given units.
    pub fn from_units(
        architecture: SnbArchitecture,
        packages: Vec<Unit<SnbIrpScope>>,
    ) -> (collector: Self)
        requires
            units::units_have(packages@, 4),
        ensures
            collector.wf(),
            collector.units() == packages@,
            collector.next_group() == 0,
            collector.architecture() == architecture,
    {
        SnbIrpCollector { packages, next_group: 0, architecture }
    }

    /// The processor.
    pub closed spec fn architecture(self) -> SnbArchitecture {
        self.architecture
    }

    /// A collector for the processor.
    pub fn new(
        architecture: &Architecture,
        topologies: &Vec<CpuTopology>,
        nodes: &Vec<UboxNode>,
        devices: &Vec<PciVendorDevice>,
    ) -> (result: Result<Self, CollectorError>)
        requires
            architecture.server_model() is Some,
        ensures
            created(*architecture, topologies@, nodes@, devices@, result),
    {
        let model = architecture.intel_server_model();
        let member = match SnbArchitecture::from_model(model) {
            Some(member) => member,
            None => {
                return Err(
                    CollectorError::Unsupported { unit: "Sandy/Ivy Bridge-EP IRP", model },
                );
            },
        };
        let scopes: Vec<SnbIrpScope> = match topology::scopes_in_order::<SnbIrpScope>(topologies) {
            Ok(scopes) => scopes,
            Err(error) => {
                return Err(error);
            },
        };
        if scopes.len() == 0 {
            return Err(CollectorError::NothingFound { what: "Sandy/Ivy Bridge-EP IRP scopes" });
        }
        let places: Vec<UnitPlace> = match discover_packages(member, &scopes, nodes, devices) {
            Ok(places) => places,
            Err(error) => {
                return Err(error);
            },
        };
        let mut packages: Vec<Unit<SnbIrpScope>> = Vec::new();
        let mut i: usize = 0;
        while i < places.len()
            invariant
                i <= places@.len(),
                packages@.len() == i,
                forall|k: int| 0 <= k < i ==> is_package(#[trigger] packages@[k], places@[k]),
            decreases places@.len() - i,
        {
            packages.push(package(places[i]));
            i += 1;
        }
        Ok(SnbIrpCollector { architecture: member, packages, next_group: 0 })
    }
}

/// The families that are registered, in this order.
pub open spec fn families() -> Seq<MetricDescriptor> {
    seq![
        MetricDescriptor {
            name: "ocellus_irp_frequency_hz",
            help: "Interval-derived IRP clock frequency in hertz",
        },
        MetricDescriptor {
            name: "ocellus_irp_io_write_conflict_ratio",
            help: "Interval-derived IRP I/O write conflict ratio from lost ownership over PCIe inbound writes",
        },
        MetricDescriptor {
            name: "ocellus_irp_pcie_inbound_reads_per_second",
            help: "Interval-derived IRP PCIe inbound reads per second",
        },
        MetricDescriptor {
            name: "ocellus_irp_pcie_inbound_writes_per_second",
            help: "Interval-derived IRP PCIe inbound writes per second",
        },
        MetricDescriptor {
            name: "ocellus_irp_total_occupancy_entries",
            help: "Average total IRP read and write occupancy in entries",
        },
    ]
}

/// The metrics that are set for a scope, in this order.
pub open spec fn scope_updates(metrics: SnbIrpScopeMetrics) -> Seq<GaugeUpdate> {
    let labels = export::of_package(metrics.scope.package_id);
    seq![
        GaugeUpdate { family: "ocellus_irp_frequency_hz", labels, value: metrics.frequency_hz },
        GaugeUpdate {
            family: "ocellus_irp_io_write_conflict_ratio",
            labels,
            value: metrics.io_write_conflict_ratio,
        },
        GaugeUpdate {
            family: "ocellus_irp_pcie_inbound_reads_per_second",
            labels,
            value: metrics.pcie_inbound_reads_per_second,
        },
        GaugeUpdate {
            family: "ocellus_irp_pcie_inbound_writes_per_second",
            labels,
            value: metrics.pcie_inbound_writes_per_second,
        },
        GaugeUpdate {
            family: "ocellus_irp_total_occupancy_entries",
            labels,
            value: metrics.total_irp_occupancy_entries,
        },
    ]
}

/// The metrics that are set for all of them, one after the other.
pub open spec fn all_updates(metrics: SnbIrpMetrics) -> Seq<GaugeUpdate> {
    seqs::flat_map(metrics.scopes@, |metrics: SnbIrpScopeMetrics| scope_updates(metrics))
}

/// The metric families of the I/O ring ports of a processor.
#[derive(Clone, Copy, Debug)]
pub struct SnbIrpPrometheusMetrics;

impl SnbIrpPrometheusMetrics {
    /// The families to be registered.
    pub fn register() -> (families: Vec<MetricDescriptor>)
        ensures
            families@ == self::families(),
    {
        vec![
            MetricDescriptor {
                name: "ocellus_irp_frequency_hz",
                help: "Interval-derived IRP clock frequency in hertz",
            },
            MetricDescriptor {
                name: "ocellus_irp_io_write_conflict_ratio",
                help: "Interval-derived IRP I/O write conflict ratio from lost ownership over PCIe inbound writes",
            },
            MetricDescriptor {
                name: "ocellus_irp_pcie_inbound_reads_per_second",
                help: "Interval-derived IRP PCIe inbound reads per second",
            },
            MetricDescriptor {
                name: "ocellus_irp_pcie_inbound_writes_per_second",
                help: "Interval-derived IRP PCIe inbound writes per second",
            },
            MetricDescriptor {
                name: "ocellus_irp_total_occupancy_entries",
                help: "Average total IRP read and write occupancy in entries",
            },
        ]
    }

    /// The metrics to be set.
    pub fn update(&self, metrics: &SnbIrpMetrics) -> (updates: Vec<GaugeUpdate>)
        ensures
            updates@ == all_updates(*metrics),
    {
        let ghost f = |metrics: SnbIrpScopeMetrics| scope_updates(metrics);
        let mut updates: Vec<GaugeUpdate> = Vec::new();
        let mut i: usize = 0;
        proof {
            seqs::lemma_flat_map_ends(metrics.scopes@, f);
        }
        while i < metrics.scopes.len()
            invariant
                i <= metrics.scopes@.len(),
                f == (|metrics: SnbIrpScopeMetrics| scope_updates(metrics)),
                updates@ == seqs::flat_map(metrics.scopes@.take(i as int), f),
            decreases metrics.scopes@.len() - i,
        {
            let scope = &metrics.scopes[i];
            let labels = Labels::package(scope.scope.package_id);
            let ghost before = updates@;
            updates.push(
                GaugeUpdate {
                    family: "ocellus_irp_frequency_hz",
                    labels,
                    value: scope.frequency_hz,
                },
            );
            updates.push(
                GaugeUpdate {
                    family: "ocellus_irp_io_write_conflict_ratio",
                    labels,
                    value: scope.io_write_conflict_ratio,
                },
            );
            updates.push(
                GaugeUpdate {
                    family: "ocellus_irp_pcie_inbound_reads_per_second",
                    labels,
                    value: scope.pcie_inbound_reads_per_second,
                },
            );
            updates.push(
                GaugeUpdate {
                    family: "ocellus_irp_pcie_inbound_writes_per_second",
                    labels,
                    value: scope.pcie_inbound_writes_per_second,
                },
            );
            updates.push(
                GaugeUpdate {
                    family: "ocellus_irp_total_occupancy_entries",
                    labels,
                    value: scope.total_irp_occupancy_entries,
                },
            );
            proof {
                assert(updates@ =~= before + scope_updates(*scope));
                seqs::lemma_flat_map_step(metrics.scopes@, f, i as int);
            }
            i += 1;
        }
        proof {
            seqs::lemma_flat_map_ends(metrics.scopes@, f);
        }
        updates
    }
}

/// Every metric that is set belongs to a family that is registered.
pub proof fn updates_are_registered(metrics: SnbIrpMetrics)
    ensures
        export::all_registered(all_updates(metrics), families()),
{
    let descriptors = families();
    let scopes = metrics.scopes@;
    let f = |metrics: SnbIrpScopeMetrics| scope_updates(metrics);
    assert forall|k: int| 0 <= k < scopes.len() implies export::all_registered(
        f(#[trigger] scopes[k]),
        descriptors,
    ) by {
        let updates = f(scopes[k]);
        assert forall|i: int| 0 <= i < updates.len() implies export::is_registered(
            #[trigger] updates[i],
            descriptors,
        ) by {
            assert(descriptors[0].name == updates[0].family);
            assert(descriptors[1].name == updates[1].family);
            assert(descriptors[2].name == updates[2].family);
            assert(descriptors[3].name == updates[3].family);
            assert(descriptors[4].name == updates[4].family);
        }
    }
    export::lemma_all_registered(scopes, f, descriptors);
}

/// A sample that ran all of its slices is reported: no event that a report needs is missing, and
/// every scope that has units is in it.
#[verifier::spinoff_prover]
pub proof fn complete_sample_is_reported(
    collector: SnbIrpCollector,
    interval_nanos: u128,
    slices: Seq<Slice<SnbIrpEventGroup>>,
    readings: Seq<SliceReadings>,
    steps: Seq<Accumulator<SnbIrpScope, SnbIrpEventKind, EventMeasurement>>,
    result: Result<SnbIrpMetrics, CollectorError>,
)
    requires
        collector.wf(),
        schedule::is_schedule(
            slices,
            groups(),
            collector.next_group() as int,
            interval_nanos,
            SnbIrpCollector::rounds(interval_nanos),
        ),
        steps.len() == slices.len() + 1,
        steps.last().wf(),
        steps[0].grid() == Map::<SnbIrpScope, Map<SnbIrpEventKind, EventMeasurement>>::empty(),
        forall|i: int|
            0 <= i < slices.len() ==> units::is_record_by_unit(
                collector.units(),
                readings[i],
                counter_kinds((#[trigger] slices[i]).group),
                steps[i],
                Ok::<Accumulator<SnbIrpScope, SnbIrpEventKind, EventMeasurement>, CollectorError>(steps[i + 1]),
            ),
        reported(steps.last().rows(), result),
    ensures
        result is Ok,
        forall|scope: SnbIrpScope|
            steps.last().grid().contains_key(scope) <==> #[trigger] units::has_scope(
                collector.units(),
                scope,
            ),
{
    let grids = steps.map_values(
        |step: Accumulator<SnbIrpScope, SnbIrpEventKind, EventMeasurement>| step.grid(),
    );
    let scopes = |scope: SnbIrpScope| units::has_scope(collector.units(), scope);
    let counted = |i: int, kind: SnbIrpEventKind| completeness::occurs_in(
        counter_kinds(slices[i].group),
        kind,
    );
    schedule::rounds_are_positive(interval_nanos as nat, groups().len());
    assert forall|i: int| 0 <= i < grids.len() - 1 implies completeness::extends(
        #[trigger] grids[i],
        grids[i + 1],
        scopes,
        |kind: SnbIrpEventKind| counted(i, kind),
    ) by {
        completeness::record_by_unit_extends(
            collector.units(),
            readings[i],
            counter_kinds(slices[i].group),
            steps[i],
            steps[i + 1],
        );
    }
    assert forall|e: int| 0 <= e < required_events().len() implies exists|i: int|
        0 <= i < grids.len() - 1 && #[trigger] counted(i, #[trigger] required_events()[e]) by {
        let group: int = if e == 0 || e == 1 || e == 2 || e == 3 {
            0
        } else {
            1
        };
        let i = completeness::schedule_runs_group(
            slices,
            groups(),
            collector.next_group() as int,
            interval_nanos,
            SnbIrpCollector::rounds(interval_nanos),
            group,
        );
        assert(counter_kinds(groups()[0])[3] == Some(SnbIrpEventKind::Clockticks));
        assert(counter_kinds(groups()[0])[2] == Some(SnbIrpEventKind::LostOwnership));
        assert(counter_kinds(groups()[0])[0] == Some(SnbIrpEventKind::PcieInboundReads));
        assert(counter_kinds(groups()[0])[1] == Some(SnbIrpEventKind::PcieInboundWrites));
        assert(counter_kinds(groups()[1])[0] == Some(SnbIrpEventKind::TotalIrpOccupancy));
        assert(counted(i, required_events()[e]));
    }
    completeness::complete_course_has_no_gap(
        steps.last(),
        grids,
        scopes,
        counted,
        required_events(),
    );
    assert forall|scope: SnbIrpScope|
        steps.last().grid().contains_key(scope) <==> #[trigger] units::has_scope(
            collector.units(),
            scope,
        ) by {
        assert(scopes(scope) == units::has_scope(collector.units(), scope));
    }
}

} // verus!
