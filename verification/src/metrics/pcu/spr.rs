//! The power control units of Sapphire Rapids and Emerald Rapids processors.
use crate::accumulator::{self, Accumulator};
use crate::counter;
use crate::discovery::{UncoreBoxDiscovery, UncoreDiscoverySocketBoxes};
use crate::error::CollectorError;
use crate::export::{self, GaugeUpdate, MetricDescriptor};
use crate::metrics::pcu::common::{self, PcuEventKind, PcuMeasurement, PcuReadings, Rows};
use crate::metrics::pcu::{PcuClockMetrics, PcuCoreCState, PcuCoreCStateMetrics, PcuScope};
use crate::ordered_map::OrderedMap;
use crate::registers::{Register, RegisterRead, RegisterWrite, Width};
use crate::topology::{self, CpuTopology, UncoreScope};
use crate::units::{self, Unit};
use vstd::prelude::*;

verus! {

/// The type of a power control unit in a discovery table.
pub const DISCOVERY_BOX_TYPE: u16 = 4;

/// How a unit is reached whose registers are model-specific ones.
pub const DISCOVERY_ACCESS_TYPE_MSR: u8 = 0;

/// Freezes the counters of a unit.
pub const UNIT_FREEZE: u64 = 0x001;

/// Freezes the counters of a unit and resets its event selections.
pub const UNIT_FREEZE_AND_CONTROL_RESET: u64 = 0x101;

/// Freezes the counters of a unit and resets them.
pub const UNIT_FREEZE_AND_COUNTER_RESET: u64 = 0x201;

/// Releases the counters of a unit.
pub const UNIT_UNFREEZE: u64 = 0x000;

/// An event that a counter can count.
#[derive(Clone, Copy, Debug, PartialEq, Eq, Structural)]
pub struct SprPcuEventSpec {
    pub event: u8,
    pub kind: PcuEventKind,
}

impl SprPcuEventSpec {
    /// An event.
    pub fn new(kind: PcuEventKind, event: u8) -> (spec: Self)
        ensures
            spec == (SprPcuEventSpec { event, kind }),
    {
        SprPcuEventSpec { event, kind }
    }

    /// No event.
    pub fn unused() -> (spec: Self)
        ensures
            spec == (SprPcuEventSpec { event: 0, kind: PcuEventKind::Unused }),
    {
        SprPcuEventSpec::new(PcuEventKind::Unused, 0)
    }
}

/// The control word of an event: its number, zero without an event.
pub open spec fn control_word(event: SprPcuEventSpec) -> u64 {
    if event.kind == PcuEventKind::Unused {
        0
    } else {
        event.event as u64
    }
}

/// The control word of an event.
pub fn counter_control(event: SprPcuEventSpec) -> (word: u64)
    ensures
        word == control_word(event),
{
    if event.kind == PcuEventKind::Unused {
        return 0;
    }
    event.event as u64
}

/// The events that the counters of a unit count at the same time.
#[derive(Clone, Copy, Debug, PartialEq, Eq)]
pub struct SprPcuEventGroup {
    pub events: [SprPcuEventSpec; 4],
}

/// What is counted: the clock and the cores in two C-states.
pub open spec fn events() -> Seq<SprPcuEventSpec> {
    seq![
        SprPcuEventSpec { event: 0x01, kind: PcuEventKind::Clockticks },
        SprPcuEventSpec { event: 0x35, kind: PcuEventKind::CoreCState(PcuCoreCState::C0) },
        SprPcuEventSpec { event: 0x37, kind: PcuEventKind::CoreCState(PcuCoreCState::C6) },
        SprPcuEventSpec { event: 0, kind: PcuEventKind::Unused },
    ]
}

/// What is counted: the clock and the cores in two C-states.
pub fn event_group() -> (group: SprPcuEventGroup)
    ensures
        group.events@ == events(),
{
    let group = SprPcuEventGroup {
        events: [
            SprPcuEventSpec::new(PcuEventKind::Clockticks, 0x01),
            SprPcuEventSpec::new(PcuEventKind::CoreCState(PcuCoreCState::C0), 0x35),
            SprPcuEventSpec::new(PcuEventKind::CoreCState(PcuCoreCState::C6), 0x37),
            SprPcuEventSpec::unused(),
        ],
    };
    assert(group.events@ =~= events());
    group
}

/// The control words of the counters.
pub open spec fn control_words() -> Seq<Option<u64>> {
    events().map_values(|event: SprPcuEventSpec| Some(control_word(event)))
}

/// Which counters are used.
pub open spec fn used_counters() -> Seq<bool> {
    events().map_values(|event: SprPcuEventSpec| event.kind != PcuEventKind::Unused)
}

/// What the counters that are used count.
pub open spec fn used_kinds() -> Seq<PcuEventKind> {
    seq![
        PcuEventKind::Clockticks,
        PcuEventKind::CoreCState(PcuCoreCState::C0),
        PcuEventKind::CoreCState(PcuCoreCState::C6),
    ]
}

/// What is reported for all power control units.
#[derive(Debug)]
pub struct SprPcuMetrics {
    pub clocks: Vec<PcuClockMetrics<PcuScope>>,
    pub core_c_states: Vec<PcuCoreCStateMetrics<PcuScope>>,
}

/// The C-states, in the order in which they are reported.
pub open spec fn c_states() -> Seq<PcuCoreCState> {
    seq![PcuCoreCState::C0, PcuCoreCState::C6]
}

/// Whether `result` is the report on measurements: scope by scope, everything that was counted. It
/// is an error where the clock ticks of a scope were not counted.
pub open spec fn reported(
    rows: Rows<PcuScope>,
    result: Result<SprPcuMetrics, CollectorError>,
) -> bool {
    match accumulator::first_gap(rows, common::required_events()) {
        Some(_) => result matches Err(error) && error == common::no_clockticks(),
        None => {
            &&& result matches Ok(metrics)
            &&& metrics.clocks@ == common::clock_list(rows)
            &&& metrics.core_c_states@ == common::core_state_list(rows, c_states())
        },
    }
}

impl SprPcuMetrics {
    /// Reports every scope, in scope order.
    pub fn from_measurements(
        measurements: &Accumulator<PcuScope, PcuEventKind, PcuMeasurement>,
    ) -> (result: Result<Self, CollectorError>)
        requires
            measurements.wf(),
        ensures
            reported(measurements.rows(), result),
    {
        let states: Vec<PcuCoreCState> = vec![PcuCoreCState::C0, PcuCoreCState::C6];
        assert(states@ =~= c_states());
        match common::report_clocks(measurements) {
            Ok(clocks) => Ok(
                SprPcuMetrics {
                    clocks,
                    core_c_states: common::report_core_states(measurements, &states),
                },
            ),
            Err(error) => Err(error),
        }
    }
}

/// A power control unit as a discovery table describes it, reached through a processor.
#[derive(Clone, Copy, Debug, PartialEq, Eq, Structural)]
pub struct SprPcuUnit {
    pub control_offset: u64,
    pub counter_offset: u64,
    pub counter_width: u32,
    pub cpu: u32,
    pub unit_control: u64,
}

/// The unit that an entry of a discovery table describes.
pub open spec fn unit_of(cpu: u32, entry: UncoreBoxDiscovery) -> SprPcuUnit {
    SprPcuUnit {
        control_offset: entry.control_offset as u64,
        counter_offset: entry.counter_offset as u64,
        counter_width: entry.bit_width as u32,
        cpu,
        unit_control: entry.box_control,
    }
}

impl SprPcuUnit {
    /// Whether the addresses of all registers of the unit fit in 64 bits.
    pub open spec fn addressable(self) -> bool {
        &&& self.unit_control + self.control_offset + 3 <= u64::MAX
        &&& self.unit_control + self.counter_offset + 3 <= u64::MAX
    }

    /// The unit that an entry of a discovery table describes.
    pub fn new(cpu: u32, entry: UncoreBoxDiscovery) -> (unit: Self)
        ensures
            unit == unit_of(cpu, entry),
    {
        SprPcuUnit {
            control_offset: entry.control_offset as u64,
            counter_offset: entry.counter_offset as u64,
            counter_width: entry.bit_width as u32,
            cpu,
            unit_control: entry.box_control,
        }
    }

    fn is_addressable(self) -> (result: bool)
        ensures
            result == self.addressable(),
    {
        let offset: u64 = if self.control_offset > self.counter_offset {
            self.control_offset
        } else {
            self.counter_offset
        };
        match self.unit_control.checked_add(offset) {
            Some(first) => first <= u64::MAX - 3,
            None => false,
        }
    }

    /// The register that selects the event of a counter.
    pub fn control_address(self, counter_index: usize) -> (address: u64)
        requires
            self.addressable(),
            counter_index < 4,
        ensures
            address == self.unit_control + self.control_offset + counter_index,
    {
        self.unit_control + self.control_offset + counter_index as u64
    }

    /// The register of a counter.
    pub fn counter_address(self, counter_index: usize) -> (address: u64)
        requires
            self.addressable(),
            counter_index < 4,
        ensures
            address == self.unit_control + self.counter_offset + counter_index,
    {
        self.unit_control + self.counter_offset + counter_index as u64
    }
}

/// A power control unit with the die that it counts for.
#[derive(Clone, Copy, Debug, PartialEq, Eq, Structural)]
pub struct SprPcuPackage {
    pub scope: PcuScope,
    pub unit: SprPcuUnit,
}

/// The die of an uncore scope.
pub open spec fn die_of(scope: UncoreScope) -> PcuScope {
    PcuScope {
        die_group_id: scope.die_group_id,
        die_id: scope.die_id,
        package_id: scope.package_id,
    }
}

/// The units that the first `n` entries of a socket describe, leaving out those that are not
/// reached through model-specific registers.
pub open spec fn socket_packages(
    scope: UncoreScope,
    cpu: u32,
    boxes: Seq<UncoreBoxDiscovery>,
    n: nat,
) -> Seq<SprPcuPackage>
    decreases n,
{
    if n == 0 {
        Seq::empty()
    } else {
        let before = socket_packages(scope, cpu, boxes, (n - 1) as nat);
        if boxes[n - 1].access_type == DISCOVERY_ACCESS_TYPE_MSR {
            before.push(SprPcuPackage { scope: die_of(scope), unit: unit_of(cpu, boxes[n - 1]) })
        } else {
            before
        }
    }
}

/// The units of all sockets whose die has a processor.
pub open spec fn all_packages(
    sockets: Seq<UncoreDiscoverySocketBoxes<UncoreScope>>,
    cpus: Map<UncoreScope, u32>,
) -> Seq<SprPcuPackage>
    decreases sockets.len(),
{
    if sockets.len() == 0 {
        Seq::empty()
    } else {
        let socket = sockets.last();
        let before = all_packages(sockets.drop_last(), cpus);
        if cpus.contains_key(socket.scope) {
            before + socket_packages(
                socket.scope,
                cpus[socket.scope],
                socket.boxes@,
                socket.boxes@.len(),
            )
        } else {
            before
        }
    }
}

/// Finds the units of all sockets whose die has a processor.
pub fn discover_packages(
    sockets: &Vec<UncoreDiscoverySocketBoxes<UncoreScope>>,
    leaders: &OrderedMap<UncoreScope, u32>,
) -> (packages: Vec<SprPcuPackage>)
    requires
        leaders.wf(),
    ensures
        packages@ == all_packages(sockets@, leaders@),
{
    let mut packages: Vec<SprPcuPackage> = Vec::new();
    let mut i: usize = 0;
    assert(sockets@.take(0) =~= Seq::<UncoreDiscoverySocketBoxes<UncoreScope>>::empty());
    while i < sockets.len()
        invariant
            i <= sockets@.len(),
            leaders.wf(),
            packages@ == all_packages(sockets@.take(i as int), leaders@),
        decreases sockets@.len() - i,
    {
        let socket = &sockets[i];
        let ghost before = packages@;
        assert(sockets@.take(i + 1).drop_last() =~= sockets@.take(i as int));
        match leaders.get(&socket.scope) {
            Some(cpu) => {
                let mut j: usize = 0;
                while j < socket.boxes.len()
                    invariant
                        j <= socket.boxes@.len(),
                        packages@ == before + socket_packages(
                            socket.scope,
                            *cpu,
                            socket.boxes@,
                            j as nat,
                        ),
                    decreases socket.boxes@.len() - j,
                {
                    if socket.boxes[j].access_type == DISCOVERY_ACCESS_TYPE_MSR {
                        packages.push(
                            SprPcuPackage {
                                scope: PcuScope::from_uncore_scope(socket.scope),
                                unit: SprPcuUnit::new(*cpu, socket.boxes[j]),
                            },
                        );
                    }
                    assert(packages@ =~= before + socket_packages(
                        socket.scope,
                        *cpu,
                        socket.boxes@,
                        (j + 1) as nat,
                    ));
                    j += 1;
                }
            },
            None => {},
        }
        i += 1;
    }
    assert(sockets@.take(i as int) =~= sockets@);
    packages
}

/// The registers of a power control unit.
pub open spec fn is_unit(unit: Unit<PcuScope>, package: SprPcuPackage) -> bool {
    let cpu = package.unit.cpu;
    &&& unit.scope == package.scope
    &&& unit.control == Register::Msr { address: package.unit.unit_control, cpu }
    &&& unit.width == Width::Bits64
    &&& unit.filter is None
    &&& unit.controls@ == Seq::new(
        4,
        |i: int| Register::Msr {
            address: (package.unit.unit_control + package.unit.control_offset + i) as u64,
            cpu,
        },
    )
    &&& unit.counters@ == Seq::new(
        4,
        |i: int| Register::Msr {
            address: (package.unit.unit_control + package.unit.counter_offset + i) as u64,
            cpu,
        },
    )
    &&& unit.fixed_control is None
    &&& unit.fixed_counter is None
}

fn unit_at(package: SprPcuPackage) -> (unit: Unit<PcuScope>)
    requires
        package.unit.addressable(),
    ensures
        is_unit(unit, package),
{
    let cpu: u32 = package.unit.cpu;
    let unit = Unit {
        scope: package.scope,
        control: Register::Msr { address: package.unit.unit_control, cpu },
        width: Width::Bits64,
        filter: None,
        controls: vec![
            Register::Msr { address: package.unit.control_address(0), cpu },
            Register::Msr { address: package.unit.control_address(1), cpu },
            Register::Msr { address: package.unit.control_address(2), cpu },
            Register::Msr { address: package.unit.control_address(3), cpu },
        ],
        counters: vec![
            Register::Msr { address: package.unit.counter_address(0), cpu },
            Register::Msr { address: package.unit.counter_address(1), cpu },
            Register::Msr { address: package.unit.counter_address(2), cpu },
            Register::Msr { address: package.unit.counter_address(3), cpu },
        ],
        fixed_control: None,
        fixed_counter: None,
    };
    assert(unit.controls@ =~= Seq::new(
        4,
        |i: int| Register::Msr {
            address: (package.unit.unit_control + package.unit.control_offset + i) as u64,
            cpu,
        },
    ));
    assert(unit.counters@ =~= Seq::new(
        4,
        |i: int| Register::Msr {
            address: (package.unit.unit_control + package.unit.counter_offset + i) as u64,
            cpu,
        },
    ));
    unit
}

/// Samples the power control units of Sapphire Rapids and Emerald Rapids processors.
#[derive(Debug)]
pub struct SprPcuCollector {
    packages: Vec<Unit<PcuScope>>,
    widths: Vec<u32>,
}

/// Whether `units` are the units of `packages`, in the same order, with counters of `widths`.
pub open spec fn are_units(
    units: Seq<Unit<PcuScope>>,
    widths: Seq<u32>,
    packages: Seq<SprPcuPackage>,
) -> bool {
    &&& units.len() == packages.len()
    &&& widths.len() == packages.len()
    &&& forall|i: int| 0 <= i < packages.len() ==> is_unit(#[trigger] units[i], packages[i])
    &&& forall|i: int|
        0 <= i < packages.len() ==> (#[trigger] widths[i]) == packages[i].unit.counter_width
}

/// Whether `result` is the collector for the processors: the units that the discovery tables list
/// and that are reached through model-specific registers. It is an error where there is none, where
/// there is no processor, where one has no package, and where an address does not fit.
pub open spec fn created(
    sockets: Seq<UncoreDiscoverySocketBoxes<UncoreScope>>,
    topologies: Seq<CpuTopology>,
    result: Result<SprPcuCollector, CollectorError>,
) -> bool {
    match topology::first_cpus::<UncoreScope>(topologies) {
        None => result matches Err(error) && error == CollectorError::MissingPackageLevel,
        Some(cpus) => {
            let packages = all_packages(sockets, cpus);
            if topologies.len() == 0 {
                result matches Err(error) && error == (CollectorError::NothingFound {
                    what: "uncore scope leaders",
                })
            } else if packages.len() == 0 {
                result matches Err(error) && error == (CollectorError::NothingFound {
                    what: "SPR/EMR PCU boxes from PMU discovery",
                })
            } else if forall|i: int|
                0 <= i < packages.len() ==> (#[trigger] packages[i]).unit.addressable() {
                &&& result matches Ok(collector)
                &&& collector.wf()
                &&& are_units(collector.units(), collector.widths(), packages)
            } else {
                result matches Err(error) && error == CollectorError::Overflow
            }
        },
    }
}

/// The values of counter registers, `per_unit` of each unit, of which as many low bits count as the
/// counters of the unit are wide.
pub open spec fn masked_by(values: Seq<u64>, widths: Seq<u32>, per_unit: int) -> Seq<u64> {
    Seq::new(
        values.len(),
        |i: int| counter::low_bits(values[i] as nat, widths[i / per_unit] as nat) as u64,
    )
}

impl SprPcuCollector {
    /// The units whose counters are read.
    pub closed spec fn units(self) -> Seq<Unit<PcuScope>> {
        self.packages@
    }

    /// How wide the counters of each unit are.
    pub closed spec fn widths(self) -> Seq<u32> {
        self.widths@
    }

    /// The invariant: every unit has four counters of a known width.
    pub open spec fn wf(self) -> bool {
        &&& units::units_have(self.units(), 4)
        &&& self.widths().len() == self.units().len()
    }

    /// A collector for the processors.
    pub fn new(
        sockets: &Vec<UncoreDiscoverySocketBoxes<UncoreScope>>,
        topologies: &Vec<CpuTopology>,
    ) -> (result: Result<Self, CollectorError>)
        ensures
            created(sockets@, topologies@, result),
    {
        let leaders: OrderedMap<UncoreScope, u32> = match topology::scope_leaders::<UncoreScope>(
            topologies,
        ) {
            Ok(leaders) => leaders,
            Err(error) => {
                return Err(error);
            },
        };
        if topologies.len() == 0 {
            return Err(CollectorError::NothingFound { what: "uncore scope leaders" });
        }
        let found: Vec<SprPcuPackage> = discover_packages(sockets, &leaders);
        if found.len() == 0 {
            return Err(
                CollectorError::NothingFound { what: "SPR/EMR PCU boxes from PMU discovery" },
            );
        }
        let mut packages: Vec<Unit<PcuScope>> = Vec::new();
        let mut widths: Vec<u32> = Vec::new();
        let mut i: usize = 0;
        while i < found.len()
            invariant
                i <= found@.len(),
                found@.len() > 0,
                topologies@.len() > 0,
                topology::first_cpus::<UncoreScope>(topologies@) == Some(leaders@),
                found@ == all_packages(sockets@, leaders@),
                packages@.len() == i,
                widths@.len() == i,
                forall|k: int| 0 <= k < i ==> (#[trigger] found@[k]).unit.addressable(),
                forall|k: int| 0 <= k < i ==> is_unit(#[trigger] packages@[k], found@[k]),
                forall|k: int|
                    0 <= k < i ==> (#[trigger] widths@[k]) == found@[k].unit.counter_width,
            decreases found@.len() - i,
        {
            if !found[i].unit.is_addressable() {
                assert(!found@[i as int].unit.addressable());
                return Err(CollectorError::Overflow);
            }
            packages.push(unit_at(found[i]));
            widths.push(found[i].unit.counter_width);
            i += 1;
        }
        Ok(SprPcuCollector { packages, widths })
    }

    /// How long the counters run in a sample over an interval: all of it. It is an error over no
    /// time.
    pub fn begin_sample(&self, interval_nanos: u128) -> (result: Result<u128, CollectorError>)
        ensures
            if interval_nanos == 0 {
                result matches Err(error) && error == (CollectorError::ZeroInterval {
                    unit: "SPR/EMR PCU",
                })
            } else {
                result matches Ok(running) && running == interval_nanos
            },
    {
        if interval_nanos == 0 {
            return Err(CollectorError::ZeroInterval { unit: "SPR/EMR PCU" });
        }
        Ok(interval_nanos)
    }

    /// Shows that the units can be written: they are frozen and reset, and then released.
    pub fn probe_writes(&self) -> (writes: Vec<RegisterWrite>)
        ensures
            writes@ == units::all_control_writes(
                self.units(),
                seq![UNIT_FREEZE_AND_CONTROL_RESET, UNIT_FREEZE_AND_COUNTER_RESET, UNIT_UNFREEZE],
            ),
    {
        let words: Vec<u64> = vec![
            UNIT_FREEZE_AND_CONTROL_RESET,
            UNIT_FREEZE_AND_COUNTER_RESET,
            UNIT_UNFREEZE,
        ];
        assert(words@ =~= seq![
            UNIT_FREEZE_AND_CONTROL_RESET,
            UNIT_FREEZE_AND_COUNTER_RESET,
            UNIT_UNFREEZE,
        ]);
        units::write_controls(&self.packages, &words)
    }

    /// Freezes and resets the counters of each unit and selects the events.
    pub fn program_writes(&self) -> (writes: Vec<RegisterWrite>)
        requires
            self.wf(),
        ensures
            writes@ == units::all_resets_and_programs(
                self.units(),
                seq![UNIT_FREEZE_AND_CONTROL_RESET, UNIT_FREEZE_AND_COUNTER_RESET],
                control_words(),
            ),
    {
        let reset: Vec<u64> = vec![UNIT_FREEZE_AND_CONTROL_RESET, UNIT_FREEZE_AND_COUNTER_RESET];
        let group = event_group();
        let words: Vec<Option<u64>> = vec![
            Some(counter_control(group.events[0])),
            Some(counter_control(group.events[1])),
            Some(counter_control(group.events[2])),
            Some(counter_control(group.events[3])),
        ];
        assert(reset@ =~= seq![UNIT_FREEZE_AND_CONTROL_RESET, UNIT_FREEZE_AND_COUNTER_RESET]);
        assert(words@ =~= control_words());
        units::reset_and_write_events(&self.packages, &reset, &words)
    }

    /// Releases the counters of all units.
    pub fn unfreeze_writes(&self) -> (writes: Vec<RegisterWrite>)
        ensures
            writes@ == units::all_control_writes(self.units(), seq![UNIT_UNFREEZE]),
    {
        let words: Vec<u64> = vec![UNIT_UNFREEZE];
        assert(words@ =~= seq![UNIT_UNFREEZE]);
        units::write_controls(&self.packages, &words)
    }

    /// Freezes the counters of all units.
    pub fn freeze_writes(&self) -> (writes: Vec<RegisterWrite>)
        ensures
            writes@ == units::all_control_writes(self.units(), seq![UNIT_FREEZE]),
    {
        let words: Vec<u64> = vec![UNIT_FREEZE];
        assert(words@ =~= seq![UNIT_FREEZE]);
        units::write_controls(&self.packages, &words)
    }

    /// Reads the counters of all units that are used.
    pub fn reads(&self) -> (reads: Vec<RegisterRead>)
        requires
            self.wf(),
        ensures
            reads@ == units::all_reads(self.units(), used_counters()),
    {
        let used: Vec<bool> = vec![true, true, true, false];
        assert(used@ =~= used_counters());
        units::reads(&self.packages, &used)
    }

    /// Adds what was counted to the measurements. As many low bits of a counter count as it is
    /// wide.
    pub fn record(
        &self,
        readings: &PcuReadings,
        measurements: Accumulator<PcuScope, PcuEventKind, PcuMeasurement>,
    ) -> (result: Result<Accumulator<PcuScope, PcuEventKind, PcuMeasurement>, CollectorError>)
        requires
            self.wf(),
            measurements.wf(),
        ensures
            common::is_record(
                self.units(),
                masked_by(readings.values@, self.widths(), 3),
                used_kinds(),
                Seq::empty(),
                readings.running_nanos,
                measurements,
                result,
            ),
    {
        let kinds: Vec<PcuEventKind> = vec![
            PcuEventKind::Clockticks,
            PcuEventKind::CoreCState(PcuCoreCState::C0),
            PcuEventKind::CoreCState(PcuCoreCState::C6),
        ];
        assert(kinds@ =~= used_kinds());
        let count: usize = readings.values.len();
        let complete: bool = count % 3 == 0 && count / 3 == self.packages.len();
        if !complete {
            return Err(CollectorError::ReadingCount { expected: 3, found: count });
        }
        let mut values: Vec<u64> = Vec::new();
        let mut i: usize = 0;
        while i < count
            invariant
                i <= count,
                count == readings.values@.len(),
                count == self.widths@.len() * 3,
                values@.len() == i,
                forall|k: int|
                    0 <= k < i ==> (#[trigger] values@[k]) == masked_by(
                        readings.values@,
                        self.widths(),
                        3,
                    )[k],
            decreases count - i,
        {
            values.push(counter::mask_width(readings.values[i], self.widths[i / 3]));
            i += 1;
        }
        assert(values@ =~= masked_by(readings.values@, self.widths(), 3));
        proof {
            reveal_with_fuel(common::clock_place, 4);
        }
        let estimated: Vec<u64> = Vec::new();
        assert(estimated@ =~= Seq::empty());
        common::record(
            &self.packages,
            &values,
            &kinds,
            &estimated,
            readings.running_nanos,
            measurements,
        )
    }

    /// Ends a sample: the measurements are reported.
    pub fn finish_sample(
        &self,
        measurements: &Accumulator<PcuScope, PcuEventKind, PcuMeasurement>,
    ) -> (result: Result<SprPcuMetrics, CollectorError>)
        requires
            measurements.wf(),
        ensures
            reported(measurements.rows(), result),
    {
        SprPcuMetrics::from_measurements(measurements)
    }
}

/// The families that are registered, in this order.
pub open spec fn families() -> Seq<MetricDescriptor> {
    seq![
        MetricDescriptor {
            name: "ocellus_pcu_frequency_hz",
            help: "Interval-derived PCU PCLK frequency in hertz",
        },
        MetricDescriptor {
            name: "ocellus_pcu_core_c_state_average_cores",
            help: "Average number of cores in the PCU-observed core C-state during the interval",
        },
    ]
}

/// The metrics that are set for all scopes.
pub open spec fn all_updates(metrics: SprPcuMetrics) -> Seq<GaugeUpdate> {
    metrics.clocks@.map_values(|metric: PcuClockMetrics<PcuScope>| common::clock_metric(metric))
        + metrics.core_c_states@.map_values(
            |metric: PcuCoreCStateMetrics<PcuScope>| common::core_state_metric(metric),
        )
}

/// The metric families of the power control units of a processor.
#[derive(Clone, Copy, Debug)]
pub struct SprPcuPrometheusMetrics;

impl SprPcuPrometheusMetrics {
    /// The families to be registered.
    pub fn register() -> (families: Vec<MetricDescriptor>)
        ensures
            families@ == self::families(),
    {
        vec![
            MetricDescriptor {
                name: "ocellus_pcu_frequency_hz",
                help: "Interval-derived PCU PCLK frequency in hertz",
            },
            MetricDescriptor {
                name: "ocellus_pcu_core_c_state_average_cores",
                help: "Average number of cores in the PCU-observed core C-state during the interval",
            },
        ]
    }

    /// The metrics to be set.
    pub fn update(&self, metrics: &SprPcuMetrics) -> (updates: Vec<GaugeUpdate>)
        ensures
            updates@ == all_updates(*metrics),
    {
        let mut updates: Vec<GaugeUpdate> = common::clock_updates(&metrics.clocks);
        let mut part: Vec<GaugeUpdate> = common::core_state_updates(&metrics.core_c_states);
        updates.append(&mut part);
        updates
    }
}

/// Every metric that is set belongs to a family that is registered.
pub proof fn updates_are_registered(metrics: SprPcuMetrics)
    ensures
        export::all_registered(all_updates(metrics), families()),
{
    let descriptors = families();
    let part0 = metrics.clocks@.map_values(
        |metric: PcuClockMetrics<PcuScope>| common::clock_metric(metric),
    );
    export::lemma_one_family(part0, descriptors, 0);
    let part1 = metrics.core_c_states@.map_values(
        |metric: PcuCoreCStateMetrics<PcuScope>| common::core_state_metric(metric),
    );
    export::lemma_one_family(part1, descriptors, 1);
    export::lemma_registered_together(part0, part1, descriptors);
}

/// A sample that was recorded is reported: it counts the clock of every unit.
#[verifier::spinoff_prover]
pub proof fn recorded_sample_is_reported(
    collector: SprPcuCollector,
    readings: PcuReadings,
    before: Accumulator<PcuScope, PcuEventKind, PcuMeasurement>,
    after: Accumulator<PcuScope, PcuEventKind, PcuMeasurement>,
    result: Result<SprPcuMetrics, CollectorError>,
)
    requires
        before.grid() == Map::<PcuScope, Map<PcuEventKind, PcuMeasurement>>::empty(),
        after.wf(),
        common::is_record(
            collector.units(),
            masked_by(readings.values@, collector.widths(), 3),
            used_kinds(),
            Seq::empty(),
            readings.running_nanos,
            before,
            Ok::<Accumulator<PcuScope, PcuEventKind, PcuMeasurement>, CollectorError>(after),
        ),
        reported(after.rows(), result),
    ensures
        result is Ok,
        forall|scope: PcuScope|
            after.grid().contains_key(scope) <==> #[trigger] units::has_scope(
                collector.units(),
                scope,
            ),
{
    assert(used_kinds()[0] == PcuEventKind::Clockticks);
    common::complete_sample_has_clocks(
        collector.units(),
        seq![masked_by(readings.values@, collector.widths(), 3)],
        seq![used_kinds()],
        seq![Seq::<u64>::empty()],
        seq![readings.running_nanos],
        seq![before, after],
    );
}

} // verus!
