//! The power control units of Haswell and Broadwell processors.
use crate::accumulator::{self, Accumulator};
use crate::arch::{Architecture, IntelServerCpuModel};
use crate::error::CollectorError;
use crate::export::{self, GaugeUpdate, MetricDescriptor};
use crate::metrics::pcu::common::{
    self, ClockEstimate, PcuEventKind, PcuMeasurement, PcuReadings, Rows,
};
use crate::metrics::pcu::{
    PcuClockMetrics, PcuCoreCState, PcuCoreCStateMetrics, PcuCycleRatioMetrics,
    PcuFrequencyLimitMetrics, PcuFrequencyLimitReason, PcuPackageCStateMetrics, PcuPackageScope,
    PcuThermalThrottleSource,
};
use crate::ordered_map::OrderedMap;
use crate::quantity::ScaledCount;
use crate::registers::{self, Register, RegisterRead, RegisterWrite, Width};
use crate::schedule::{self, Slice};
use crate::topology::{self, CpuTopology, Leader};
use crate::units::{self, Unit};
use vstd::prelude::*;

verus! {

/// The register that freezes, resets and releases the counters.
pub const BOX_CONTROL: u64 = 0x710;

/// The first of the registers that select events.
pub const CONTROL_BASE: u64 = 0x711;

/// The first of the counters.
pub const COUNTER_BASE: u64 = 0x717;

/// Freezes the counters of a unit.
pub const UNIT_FREEZE: u64 = 0x1_0100;

/// Freezes the counters of a unit and resets its counters and event selections.
pub const UNIT_FREEZE_AND_RESET: u64 = 0x1_0103;

/// Releases the counters of a unit.
pub const UNIT_UNFREEZE: u64 = 0x1_0000;

/// The processors of the family.
#[derive(Clone, Copy, Debug, PartialEq, Eq, Structural)]
pub enum HsxPcuArchitecture {
    Bdx,
    BdxDe,
    Hsx,
}

/// The member of the family that a processor is.
pub open spec fn member_of(model: IntelServerCpuModel) -> Option<HsxPcuArchitecture> {
    match model {
        IntelServerCpuModel::BroadwellDe => Some(HsxPcuArchitecture::BdxDe),
        IntelServerCpuModel::BroadwellXeon => Some(HsxPcuArchitecture::Bdx),
        IntelServerCpuModel::HaswellXeon => Some(HsxPcuArchitecture::Hsx),
        _ => None,
    }
}

/// What the collector is called in an error.
pub open spec fn unit_name(architecture: HsxPcuArchitecture) -> &'static str {
    match architecture {
        HsxPcuArchitecture::Bdx => "Broadwell PCU",
        HsxPcuArchitecture::BdxDe => "Broadwell-DE PCU",
        HsxPcuArchitecture::Hsx => "Haswell PCU",
    }
}

impl HsxPcuArchitecture {
    /// Finds the member of the family that a processor is.
    pub fn from_model(model: IntelServerCpuModel) -> (member: Option<Self>)
        ensures
            member == member_of(model),
    {
        match model {
            IntelServerCpuModel::BroadwellDe => Some(HsxPcuArchitecture::BdxDe),
            IntelServerCpuModel::BroadwellXeon => Some(HsxPcuArchitecture::Bdx),
            IntelServerCpuModel::HaswellXeon => Some(HsxPcuArchitecture::Hsx),
            _ => None,
        }
    }

    fn unit_text(self) -> (name: &'static str)
        ensures
            name == unit_name(self),
    {
        match self {
            HsxPcuArchitecture::Bdx => "Broadwell PCU",
            HsxPcuArchitecture::BdxDe => "Broadwell-DE PCU",
            HsxPcuArchitecture::Hsx => "Haswell PCU",
        }
    }
}

/// An event that a counter can count.
#[derive(Clone, Copy, Debug, PartialEq, Eq, Structural)]
pub struct HsxPcuEventSpec {
    pub event: u8,
    pub kind: PcuEventKind,
    pub umask: u8,
}

/// An event without a unit mask.
pub open spec fn plain(kind: PcuEventKind, event: u8) -> HsxPcuEventSpec {
    HsxPcuEventSpec { event, kind, umask: 0 }
}

/// How many cores are in a C-state.
pub open spec fn occupancy_of(c_state: PcuCoreCState, umask: u8) -> HsxPcuEventSpec {
    HsxPcuEventSpec { event: 0x80, kind: PcuEventKind::CoreCState(c_state), umask }
}

/// No event.
pub open spec fn no_event() -> HsxPcuEventSpec {
    plain(PcuEventKind::Unused, 0)
}

impl HsxPcuEventSpec {
    /// An event without a unit mask.
    pub fn new(kind: PcuEventKind, event: u8) -> (spec: Self)
        ensures
            spec == plain(kind, event),
    {
        HsxPcuEventSpec { event, kind, umask: 0 }
    }

    /// How many cores are in a C-state.
    pub fn occupancy(c_state: PcuCoreCState, umask: u8) -> (spec: Self)
        ensures
            spec == occupancy_of(c_state, umask),
    {
        HsxPcuEventSpec { event: 0x80, kind: PcuEventKind::CoreCState(c_state), umask }
    }

    /// No event.
    pub fn unused() -> (spec: Self)
        ensures
            spec == no_event(),
    {
        HsxPcuEventSpec::new(PcuEventKind::Unused, 0)
    }
}

/// The control word of an event: event number, unit mask, reset, overflow and enable bits; zero
/// without an event.
pub open spec fn control_word(event: HsxPcuEventSpec) -> u64 {
    if event.kind == PcuEventKind::Unused {
        0
    } else {
        (event.event + event.umask * 0x100 + registers::COUNT_AND_REPORT_OVERFLOW) as u64
    }
}

/// The control word of an event.
pub fn counter_control(event: HsxPcuEventSpec) -> (word: u64)
    ensures
        word == control_word(event),
{
    if event.kind == PcuEventKind::Unused {
        return 0;
    }
    registers::select_word(event.event, event.umask, registers::COUNT_AND_REPORT_OVERFLOW)
}

/// The events that the counters of a unit count at the same time.
#[derive(Clone, Copy, Debug, PartialEq, Eq)]
pub struct HsxPcuEventGroup {
    pub events: [HsxPcuEventSpec; 4],
}

/// The control words of the counters while a group is programmed.
pub open spec fn control_words(group: HsxPcuEventGroup) -> Seq<Option<u64>> {
    group.events@.map_values(|event: HsxPcuEventSpec| Some(control_word(event)))
}

/// Which counters a group uses.
pub open spec fn used_counters(group: HsxPcuEventGroup) -> Seq<bool> {
    group.events@.map_values(|event: HsxPcuEventSpec| event.kind != PcuEventKind::Unused)
}

/// What the first `n` counters count, leaving out those that are not used.
pub open spec fn used_kinds(group: HsxPcuEventGroup, n: nat) -> Seq<PcuEventKind>
    decreases n,
{
    if n == 0 {
        Seq::empty()
    } else if group.events@[n - 1].kind == PcuEventKind::Unused {
        used_kinds(group, (n - 1) as nat)
    } else {
        used_kinds(group, (n - 1) as nat).push(group.events@[n - 1].kind)
    }
}

impl HsxPcuEventGroup {
    /// The control words of the counters.
    pub fn controls(&self) -> (words: Vec<Option<u64>>)
        ensures
            words@ == control_words(*self),
    {
        let words: Vec<Option<u64>> = vec![
            Some(counter_control(self.events[0])),
            Some(counter_control(self.events[1])),
            Some(counter_control(self.events[2])),
            Some(counter_control(self.events[3])),
        ];
        assert(words@ =~= control_words(*self));
        words
    }

    /// Which counters the group uses.
    pub fn used(&self) -> (used: Vec<bool>)
        ensures
            used@ == used_counters(*self),
    {
        let used: Vec<bool> = vec![
            self.events[0].kind != PcuEventKind::Unused,
            self.events[1].kind != PcuEventKind::Unused,
            self.events[2].kind != PcuEventKind::Unused,
            self.events[3].kind != PcuEventKind::Unused,
        ];
        assert(used@ =~= used_counters(*self));
        used
    }

    /// What the counters that are used count.
    pub fn kinds(&self) -> (kinds: Vec<PcuEventKind>)
        ensures
            kinds@ == used_kinds(*self, 4),
    {
        let mut kinds: Vec<PcuEventKind> = Vec::new();
        let mut i: usize = 0;
        while i < 4
            invariant
                i <= 4,
                kinds@ == used_kinds(*self, i as nat),
            decreases 4 - i,
        {
            if self.events[i].kind != PcuEventKind::Unused {
                kinds.push(self.events[i].kind);
            }
            i += 1;
        }
        kinds
    }
}

/// The event groups: the first counts the clock, the others take turns after it.
pub open spec fn groups() -> Seq<HsxPcuEventGroup> {
    seq![
        HsxPcuEventGroup {
            events: [
                plain(PcuEventKind::Clockticks, 0x00),
                occupancy_of(PcuCoreCState::C0, 0x40),
                occupancy_of(PcuCoreCState::C3, 0x80),
                occupancy_of(PcuCoreCState::C6, 0xc0),
            ],
        },
        HsxPcuEventGroup {
            events: [
                plain(PcuEventKind::FrequencyLimit(PcuFrequencyLimitReason::Power), 0x05),
                plain(PcuEventKind::FrequencyLimit(PcuFrequencyLimitReason::Thermal), 0x04),
                plain(PcuEventKind::FrequencyLimit(PcuFrequencyLimitReason::Os), 0x06),
                plain(PcuEventKind::FrequencyLimit(PcuFrequencyLimitReason::IoP), 0x73),
            ],
        },
        HsxPcuEventGroup {
            events: [
                plain(PcuEventKind::FrequencyTransition, 0x74),
                plain(PcuEventKind::MemoryPhaseShedding, 0x2f),
                plain(
                    PcuEventKind::ThermalThrottle(PcuThermalThrottleSource::InternalProchot),
                    0x09,
                ),
                plain(
                    PcuEventKind::ThermalThrottle(PcuThermalThrottleSource::ExternalProchot),
                    0x0a,
                ),
            ],
        },
        HsxPcuEventGroup {
            events: [
                plain(PcuEventKind::ThermalThrottle(PcuThermalThrottleSource::VrHot), 0x42),
                no_event(),
                no_event(),
                no_event(),
            ],
        },
        HsxPcuEventGroup {
            events: [
                plain(PcuEventKind::PackageCState(PcuCoreCState::C0), 0x2a),
                plain(PcuEventKind::PackageCState(PcuCoreCState::C3), 0x2c),
                plain(PcuEventKind::PackageCState(PcuCoreCState::C6), 0x2d),
                no_event(),
            ],
        },
    ]
}

/// The event groups: the first counts the clock, the others take turns after it.
pub fn event_groups() -> (table: Vec<HsxPcuEventGroup>)
    ensures
        table@ == groups(),
{
    vec![
        HsxPcuEventGroup {
            events: [
                HsxPcuEventSpec::new(PcuEventKind::Clockticks, 0x00),
                HsxPcuEventSpec::occupancy(PcuCoreCState::C0, 0x40),
                HsxPcuEventSpec::occupancy(PcuCoreCState::C3, 0x80),
                HsxPcuEventSpec::occupancy(PcuCoreCState::C6, 0xc0),
            ],
        },
        HsxPcuEventGroup {
            events: [
                HsxPcuEventSpec::new(
                    PcuEventKind::FrequencyLimit(PcuFrequencyLimitReason::Power),
                    0x05,
                ),
                HsxPcuEventSpec::new(
                    PcuEventKind::FrequencyLimit(PcuFrequencyLimitReason::Thermal),
                    0x04,
                ),
                HsxPcuEventSpec::new(
                    PcuEventKind::FrequencyLimit(PcuFrequencyLimitReason::Os),
                    0x06,
                ),
                HsxPcuEventSpec::new(
                    PcuEventKind::FrequencyLimit(PcuFrequencyLimitReason::IoP),
                    0x73,
                ),
            ],
        },
        HsxPcuEventGroup {
            events: [
                HsxPcuEventSpec::new(PcuEventKind::FrequencyTransition, 0x74),
                HsxPcuEventSpec::new(PcuEventKind::MemoryPhaseShedding, 0x2f),
                HsxPcuEventSpec::new(
                    PcuEventKind::ThermalThrottle(PcuThermalThrottleSource::InternalProchot),
                    0x09,
                ),
                HsxPcuEventSpec::new(
                    PcuEventKind::ThermalThrottle(PcuThermalThrottleSource::ExternalProchot),
                    0x0a,
                ),
            ],
        },
        HsxPcuEventGroup {
            events: [
                HsxPcuEventSpec::new(
                    PcuEventKind::ThermalThrottle(PcuThermalThrottleSource::VrHot),
                    0x42,
                ),
                HsxPcuEventSpec::unused(),
                HsxPcuEventSpec::unused(),
                HsxPcuEventSpec::unused(),
            ],
        },
        HsxPcuEventGroup {
            events: [
                HsxPcuEventSpec::new(PcuEventKind::PackageCState(PcuCoreCState::C0), 0x2a),
                HsxPcuEventSpec::new(PcuEventKind::PackageCState(PcuCoreCState::C3), 0x2c),
                HsxPcuEventSpec::new(PcuEventKind::PackageCState(PcuCoreCState::C6), 0x2d),
                HsxPcuEventSpec::unused(),
            ],
        },
    ]
}

/// What is reported for all power control units.
#[derive(Debug)]
pub struct HsxPcuMetrics {
    pub clocks: Vec<PcuClockMetrics<PcuPackageScope>>,
    pub core_c_states: Vec<PcuCoreCStateMetrics<PcuPackageScope>>,
    pub frequency_limits: Vec<PcuFrequencyLimitMetrics<PcuPackageScope>>,
    pub frequency_transition: Vec<PcuCycleRatioMetrics<PcuPackageScope, &'static str>>,
    pub memory_phase_shedding: Vec<PcuCycleRatioMetrics<PcuPackageScope, &'static str>>,
    pub package_c_states: Vec<PcuPackageCStateMetrics<PcuPackageScope>>,
    pub thermal_throttles: Vec<PcuCycleRatioMetrics<PcuPackageScope, PcuThermalThrottleSource>>,
}

/// The C-states, in the order in which they are reported.
pub open spec fn c_states() -> Seq<PcuCoreCState> {
    seq![PcuCoreCState::C0, PcuCoreCState::C3, PcuCoreCState::C6]
}

/// What limits the frequency, in the order in which it is reported.
pub open spec fn limit_reasons() -> Seq<PcuFrequencyLimitReason> {
    seq![
        PcuFrequencyLimitReason::Power,
        PcuFrequencyLimitReason::Thermal,
        PcuFrequencyLimitReason::Os,
        PcuFrequencyLimitReason::IoP,
    ]
}

/// What throttles, in the order in which it is reported.
pub open spec fn throttle_sources() -> Seq<PcuThermalThrottleSource> {
    seq![
        PcuThermalThrottleSource::InternalProchot,
        PcuThermalThrottleSource::ExternalProchot,
        PcuThermalThrottleSource::VrHot,
    ]
}

/// Whether `result` is the report on measurements: scope by scope, everything that was counted. It
/// is an error where the clock ticks of a scope were not counted.
pub open spec fn reported(
    rows: Rows<PcuPackageScope>,
    result: Result<HsxPcuMetrics, CollectorError>,
) -> bool {
    match accumulator::first_gap(rows, common::required_events()) {
        Some(_) => result matches Err(error) && error == common::no_clockticks(),
        None => {
            &&& result matches Ok(metrics)
            &&& metrics.clocks@ == common::clock_list(rows)
            &&& metrics.core_c_states@ == common::core_state_list(rows, c_states())
            &&& metrics.frequency_limits@ == common::limit_list(rows, limit_reasons())
            &&& metrics.frequency_transition@ == common::cycle_list(
                rows,
                PcuEventKind::FrequencyTransition,
                "frequency_transition",
            )
            &&& metrics.memory_phase_shedding@ == common::cycle_list(
                rows,
                PcuEventKind::MemoryPhaseShedding,
                "memory_phase_shedding",
            )
            &&& metrics.package_c_states@ == common::package_state_list(rows, c_states())
            &&& metrics.thermal_throttles@ == common::throttle_list(rows, throttle_sources())
        },
    }
}

impl HsxPcuMetrics {
    /// Reports every scope, in scope order.
    pub fn from_measurements(
        measurements: &Accumulator<PcuPackageScope, PcuEventKind, PcuMeasurement>,
    ) -> (result: Result<Self, CollectorError>)
        requires
            measurements.wf(),
        ensures
            reported(measurements.rows(), result),
    {
        let states: Vec<PcuCoreCState> = vec![
            PcuCoreCState::C0,
            PcuCoreCState::C3,
            PcuCoreCState::C6,
        ];
        let reasons: Vec<PcuFrequencyLimitReason> = vec![
            PcuFrequencyLimitReason::Power,
            PcuFrequencyLimitReason::Thermal,
            PcuFrequencyLimitReason::Os,
            PcuFrequencyLimitReason::IoP,
        ];
        let sources: Vec<PcuThermalThrottleSource> = vec![
            PcuThermalThrottleSource::InternalProchot,
            PcuThermalThrottleSource::ExternalProchot,
            PcuThermalThrottleSource::VrHot,
        ];
        assert(states@ =~= c_states());
        assert(reasons@ =~= limit_reasons());
        assert(sources@ =~= throttle_sources());
        match common::report_clocks(measurements) {
            Ok(clocks) => Ok(
                HsxPcuMetrics {
                    clocks,
                    core_c_states: common::report_core_states(measurements, &states),
                    frequency_limits: common::report_limits(measurements, &reasons),
                    frequency_transition: common::report_cycles(
                        measurements,
                        PcuEventKind::FrequencyTransition,
                        "frequency_transition",
                    ),
                    memory_phase_shedding: common::report_cycles(
                        measurements,
                        PcuEventKind::MemoryPhaseShedding,
                        "memory_phase_shedding",
                    ),
                    package_c_states: common::report_package_states(measurements, &states),
                    thermal_throttles: common::report_throttles(measurements, &sources),
                },
            ),
            Err(error) => Err(error),
        }
    }
}

/// The registers of a power control unit, reached through a processor of its scope.
pub open spec fn is_unit(unit: Unit<PcuPackageScope>, leader: Leader<PcuPackageScope>) -> bool {
    let cpu = leader.cpu;
    &&& unit.scope == leader.scope
    &&& unit.control == Register::Msr { address: BOX_CONTROL, cpu }
    &&& unit.width == Width::Bits64
    &&& unit.filter == None::<Register>
    &&& unit.controls@ == Seq::new(
        4,
        |i: int| Register::Msr { address: (CONTROL_BASE + i) as u64, cpu },
    )
    &&& unit.counters@ == Seq::new(
        4,
        |i: int| Register::Msr { address: (COUNTER_BASE + i) as u64, cpu },
    )
    &&& unit.fixed_control is None
    &&& unit.fixed_counter is None
}

/// The register that selects the event of a counter.
pub fn pcu_control_offset(counter_index: usize) -> (offset: u64)
    requires
        CONTROL_BASE + counter_index <= u64::MAX,
    ensures
        offset == CONTROL_BASE + counter_index,
{
    CONTROL_BASE + counter_index as u64
}

/// The register of a counter.
pub fn pcu_counter_offset(counter_index: usize) -> (offset: u64)
    requires
        COUNTER_BASE + counter_index <= u64::MAX,
    ensures
        offset == COUNTER_BASE + counter_index,
{
    COUNTER_BASE + counter_index as u64
}

fn unit_at(leader: Leader<PcuPackageScope>) -> (unit: Unit<PcuPackageScope>)
    ensures
        is_unit(unit, leader),
{
    let cpu: u32 = leader.cpu;
    let unit = Unit {
        scope: leader.scope,
        control: Register::Msr { address: BOX_CONTROL, cpu },
        width: Width::Bits64,
        filter: None,
        controls: vec![
            Register::Msr { address: pcu_control_offset(0), cpu },
            Register::Msr { address: pcu_control_offset(1), cpu },
            Register::Msr { address: pcu_control_offset(2), cpu },
            Register::Msr { address: pcu_control_offset(3), cpu },
        ],
        counters: vec![
            Register::Msr { address: pcu_counter_offset(0), cpu },
            Register::Msr { address: pcu_counter_offset(1), cpu },
            Register::Msr { address: pcu_counter_offset(2), cpu },
            Register::Msr { address: pcu_counter_offset(3), cpu },
        ],
        fixed_control: None,
        fixed_counter: None,
    };
    assert(unit.controls@ =~= Seq::new(
        4,
        |i: int| Register::Msr { address: (CONTROL_BASE + i) as u64, cpu },
    ));
    assert(unit.counters@ =~= Seq::new(
        4,
        |i: int| Register::Msr { address: (COUNTER_BASE + i) as u64, cpu },
    ));
    unit
}

/// Samples the power control units of Haswell and Broadwell processors.
#[derive(Debug)]
pub struct HsxPcuCollector {
    architecture: HsxPcuArchitecture,
    next_group: usize,
    packages: Vec<Unit<PcuPackageScope>>,
}

/// Whether `units` are the units of `leaders`, in the same order.
pub open spec fn are_units(
    units: Seq<Unit<PcuPackageScope>>,
    leaders: Seq<Leader<PcuPackageScope>>,
) -> bool {
    &&& units.len() == leaders.len()
    &&& forall|i: int| 0 <= i < leaders.len() ==> is_unit(#[trigger] units[i], leaders[i])
}

/// Whether `result` is the collector for the processors: one unit for each scope, in scope order.
/// It is an error for other processors, where there is no processor, and where one has no package.
pub open spec fn created(
    architecture: Architecture,
    topologies: Seq<CpuTopology>,
    result: Result<HsxPcuCollector, CollectorError>,
) -> bool {
    let model = architecture.server_model()->0;
    match member_of(model) {
        None => result matches Err(error) && error == (CollectorError::Unsupported {
            unit: "HSX/BDX PCU",
            model,
        }),
        Some(member) => if topology::first_cpus::<PcuPackageScope>(topologies) is None {
            result matches Err(error) && error == CollectorError::MissingPackageLevel
        } else if topologies.len() == 0 {
            result matches Err(error) && error == (CollectorError::NothingFound {
                what: "CPU package leaders",
            })
        } else {
            &&& result matches Ok(collector)
            &&& collector.wf()
            &&& collector.next_group() == 0
            &&& collector.architecture() == member
            &&& exists|leaders: Seq<Leader<PcuPackageScope>>|
                {
                    &&& #[trigger] topology::lists_leaders(
                        leaders,
                        topology::first_cpus::<PcuPackageScope>(topologies)->0,
                    )
                    &&& are_units(collector.units(), leaders)
                }
        },
    }
}

impl HsxPcuCollector {
    /// The units whose counters are read.
    pub closed spec fn units(self) -> Seq<Unit<PcuPackageScope>> {
        self.packages@
    }

    /// The group that goes first after the clock in the next sample, counted from the first one
    /// after the clock.
    pub closed spec fn next_group(self) -> usize {
        self.next_group
    }

    /// The processor.
    pub closed spec fn architecture(self) -> HsxPcuArchitecture {
        self.architecture
    }

    /// The invariant: the next group is one of those that follow the clock, and every unit has
    /// four counters.
    pub open spec fn wf(self) -> bool {
        &&& self.next_group() < groups().len() - 1
        &&& units::units_have(self.units(), 4)
    }

    /// A collector for given units.
    pub fn from_units(
        architecture: HsxPcuArchitecture,
        packages: Vec<Unit<PcuPackageScope>>,
    ) -> (collector: Self)
        requires
            units::units_have(packages@, 4),
        ensures
            collector.wf(),
            collector.units() == packages@,
            collector.next_group() == 0,
            collector.architecture() == architecture,
    {
        HsxPcuCollector { architecture, next_group: 0, packages }
    }

    /// A collector for the processors.
    pub fn new(architecture: &Architecture, topologies: &Vec<CpuTopology>) -> (result: Result<
        Self,
        CollectorError,
    >)
        requires
            architecture.server_model() is Some,
        ensures
            created(*architecture, topologies@, result),
    {
        let model = architecture.intel_server_model();
        let member = match HsxPcuArchitecture::from_model(model) {
            Some(member) => member,
            None => {
                return Err(CollectorError::Unsupported { unit: "HSX/BDX PCU", model });
            },
        };
        let leaders: Vec<Leader<PcuPackageScope>> = match topology::leaders_in_order::<PcuPackageScope>(topologies) {
            Ok(leaders) => leaders,
            Err(error) => {
                return Err(error);
            },
        };
        if leaders.len() == 0 {
            return Err(CollectorError::NothingFound { what: "CPU package leaders" });
        }
        let mut packages: Vec<Unit<PcuPackageScope>> = Vec::new();
        let mut i: usize = 0;
        while i < leaders.len()
            invariant
                i <= leaders@.len(),
                packages@.len() == i,
                forall|k: int| 0 <= k < i ==> is_unit(#[trigger] packages@[k], leaders@[k]),
            decreases leaders@.len() - i,
        {
            packages.push(unit_at(leaders[i]));
            i += 1;
        }
        assert(are_units(packages@, leaders@));
        Ok(HsxPcuCollector { architecture: member, next_group: 0, packages })
    }

    /// The slices of a sample over an interval; an error over no time.
    pub fn begin_sample(&self, interval_nanos: u128) -> (result: Result<
        Vec<Slice<HsxPcuEventGroup>>,
        CollectorError,
    >)
        requires
            self.wf(),
        ensures
            if interval_nanos == 0 {
                result matches Err(error) && error == (CollectorError::ZeroInterval {
                    unit: unit_name(self.architecture()),
                })
            } else {
                result matches Ok(slices) && common::is_plan(
                    slices@,
                    groups(),
                    self.next_group() as int,
                    interval_nanos,
                )
            },
    {
        if interval_nanos == 0 {
            return Err(CollectorError::ZeroInterval { unit: self.architecture.unit_text() });
        }
        let table: Vec<HsxPcuEventGroup> = event_groups();
        Ok(common::plan(&table, self.next_group, interval_nanos))
    }

    /// Shows that the units can be written: they are frozen and their first counter is turned off.
    pub fn probe_writes(&self) -> (writes: Vec<RegisterWrite>)
        requires
            self.wf(),
        ensures
            writes@ == units::all_probes(self.units(), UNIT_FREEZE),
    {
        units::write_probes(&self.packages, UNIT_FREEZE)
    }

    /// Freezes and resets the counters of each unit and selects the events of a group.
    pub fn program_writes(&self, group: HsxPcuEventGroup) -> (writes: Vec<RegisterWrite>)
        requires
            self.wf(),
        ensures
            writes@ == units::all_resets_and_programs(
                self.units(),
                seq![UNIT_FREEZE_AND_RESET],
                control_words(group),
            ),
    {
        let reset: Vec<u64> = vec![UNIT_FREEZE_AND_RESET];
        assert(reset@ =~= seq![UNIT_FREEZE_AND_RESET]);
        units::reset_and_write_events(&self.packages, &reset, &group.controls())
    }

    /// Releases the counters of all units.
    pub fn unfreeze_writes(&self) -> (writes: Vec<RegisterWrite>)
        ensures
            writes@ == units::all_control_writes(self.units(), seq![UNIT_UNFREEZE]),
    {
        let words: Vec<u64> = vec![UNIT_UNFREEZE];
        assert(words@ =~= seq![UNIT_UNFREEZE]);
        units::write_controls(&self.packages, &words)
    }

    /// Freezes the counters of all units.
    pub fn freeze_writes(&self) -> (writes: Vec<RegisterWrite>)
        ensures
            writes@ == units::all_control_writes(self.units(), seq![UNIT_FREEZE]),
    {
        let words: Vec<u64> = vec![UNIT_FREEZE];
        assert(words@ =~= seq![UNIT_FREEZE]);
        units::write_controls(&self.packages, &words)
    }

    /// Reads the counters of all units that a group uses.
    pub fn reads(&self, group: HsxPcuEventGroup) -> (reads: Vec<RegisterRead>)
        requires
            self.wf(),
        ensures
            reads@ == units::all_reads(self.units(), used_counters(group)),
    {
        units::reads(&self.packages, &group.used())
    }

    /// The clocks of all scopes, after the first slice; an error where one was not counted.
    pub fn clock_estimates(
        &self,
        measurements: &Accumulator<PcuPackageScope, PcuEventKind, PcuMeasurement>,
    ) -> (result: Result<
        OrderedMap<PcuPackageScope, ClockEstimate>,
        CollectorError,
    >)
        requires
            measurements.wf(),
        ensures
            match accumulator::first_gap(measurements.rows(), common::required_events()) {
                Some(_) => result matches Err(error) && error == common::no_clockticks(),
                None => result matches Ok(map) && map.wf() && map@ == common::clocks_of(
                    measurements.grid(),
                ),
            },
    {
        common::clock_estimates(measurements)
    }

    /// The clock ticks of a later slice, unit by unit; an error where the clock of a scope is not
    /// known.
    pub fn estimated_ticks(
        &self,
        estimates: &OrderedMap<PcuPackageScope, ClockEstimate>,
        running_nanos: u128,
    ) -> (result: Result<Vec<ScaledCount>, CollectorError>)
        requires
            estimates.wf(),
        ensures
            common::is_estimate(self.units(), estimates@, running_nanos, result),
    {
        common::estimated_ticks(&self.packages, estimates, running_nanos)
    }

    /// Adds what a slice counted to the measurements. The clock ticks of the slice are those that
    /// were counted, where the group counts them, and else those that `estimated` holds for each
    /// unit.
    pub fn record(
        &self,
        group: HsxPcuEventGroup,
        readings: &PcuReadings,
        estimated: &Vec<u64>,
        measurements: Accumulator<PcuPackageScope, PcuEventKind, PcuMeasurement>,
    ) -> (
        result: Result<Accumulator<PcuPackageScope, PcuEventKind, PcuMeasurement>, CollectorError>
    )
        requires
            measurements.wf(),
        ensures
            common::is_record(
                self.units(),
                common::masked(readings.values@),
                used_kinds(group, 4),
                estimated@,
                readings.running_nanos,
                measurements,
                result,
            ),
    {
        let values: Vec<u64> = common::mask_values(&readings.values);
        common::record(
            &self.packages,
            &values,
            &group.kinds(),
            estimated,
            readings.running_nanos,
            measurements,
        )
    }

    /// Ends a sample: another group follows the clock in the next one, and the measurements are
    /// reported.
    pub fn finish_sample(
        &mut self,
        measurements: &Accumulator<PcuPackageScope, PcuEventKind, PcuMeasurement>,
    ) -> (result: Result<
        HsxPcuMetrics,
        CollectorError,
    >)
        requires
            old(self).wf(),
            measurements.wf(),
        ensures
            final(self).wf(),
            final(self).next_group() == (old(self).next_group() + 1) % (groups().len() - 1),
            final(self).units() == old(self).units(),
            final(self).architecture() == old(self).architecture(),
            reported(measurements.rows(), result),
    {
        self.next_group = schedule::rotate(self.next_group, event_groups().len() - 1);
        HsxPcuMetrics::from_measurements(measurements)
    }
}

/// The families that are registered, in this order.
pub open spec fn families() -> Seq<MetricDescriptor> {
    seq![
        MetricDescriptor {
            name: "ocellus_pcu_frequency_hz",
            help: "Interval-derived PCU PCLK frequency in hertz",
        },
        MetricDescriptor {
            name: "ocellus_pcu_core_c_state_average_cores",
            help: "Average number of cores in the PCU-observed core C-state during the interval",
        },
        MetricDescriptor {
            name: "ocellus_pcu_frequency_limit_ratio",
            help: "Ratio of PCU cycles where the given reason limited processor frequency",
        },
        MetricDescriptor {
            name: "ocellus_pcu_frequency_transition_ratio",
            help: "Ratio of PCU cycles spent changing processor frequency",
        },
        MetricDescriptor {
            name: "ocellus_pcu_memory_phase_shedding_ratio",
            help: "Ratio of PCU cycles with memory phase shedding active",
        },
        MetricDescriptor {
            name: "ocellus_pcu_package_c_state_ratio",
            help: "Ratio of PCU cycles spent in the package C-state",
        },
        MetricDescriptor {
            name: "ocellus_pcu_thermal_throttle_ratio",
            help: "Ratio of PCU cycles spent under the thermal throttle source",
        },
    ]
}

/// The metrics that are set for all scopes.
pub open spec fn all_updates(metrics: HsxPcuMetrics) -> Seq<GaugeUpdate> {
    metrics.clocks@.map_values(
        |metric: PcuClockMetrics<PcuPackageScope>| common::clock_metric(metric),
    )
        + metrics.core_c_states@.map_values(
            |metric: PcuCoreCStateMetrics<PcuPackageScope>| common::core_state_metric(metric),
        )
        + metrics.frequency_limits@.map_values(
            |metric: PcuFrequencyLimitMetrics<PcuPackageScope>| common::limit_metric(metric),
        )
        + metrics.frequency_transition@.map_values(
            |metric: PcuCycleRatioMetrics<PcuPackageScope, &'static str>| common::cycle_metric(
                metric,
                "ocellus_pcu_frequency_transition_ratio",
            ),
        )
        + metrics.memory_phase_shedding@.map_values(
            |metric: PcuCycleRatioMetrics<PcuPackageScope, &'static str>| common::cycle_metric(
                metric,
                "ocellus_pcu_memory_phase_shedding_ratio",
            ),
        )
        + metrics.package_c_states@.map_values(
            |metric: PcuPackageCStateMetrics<PcuPackageScope>| common::package_state_metric(metric),
        )
        + metrics.thermal_throttles@.map_values(
            |metric: PcuCycleRatioMetrics<PcuPackageScope, PcuThermalThrottleSource>| common::throttle_metric(metric),
        )
}

/// The metric families of the power control units of a processor.
#[derive(Clone, Copy, Debug)]
pub struct HsxPcuPrometheusMetrics;

impl HsxPcuPrometheusMetrics {
    /// The families to be registered.
    pub fn register() -> (families: Vec<MetricDescriptor>)
        ensures
            families@ == self::families(),
    {
        vec![
            MetricDescriptor {
                name: "ocellus_pcu_frequency_hz",
                help: "Interval-derived PCU PCLK frequency in hertz",
            },
            MetricDescriptor {
                name: "ocellus_pcu_core_c_state_average_cores",
                help: "Average number of cores in the PCU-observed core C-state during the interval",
            },
            MetricDescriptor {
                name: "ocellus_pcu_frequency_limit_ratio",
                help: "Ratio of PCU cycles where the given reason limited processor frequency",
            },
            MetricDescriptor {
                name: "ocellus_pcu_frequency_transition_ratio",
                help: "Ratio of PCU cycles spent changing processor frequency",
            },
            MetricDescriptor {
                name: "ocellus_pcu_memory_phase_shedding_ratio",
                help: "Ratio of PCU cycles with memory phase shedding active",
            },
            MetricDescriptor {
                name: "ocellus_pcu_package_c_state_ratio",
                help: "Ratio of PCU cycles spent in the package C-state",
            },
            MetricDescriptor {
                name: "ocellus_pcu_thermal_throttle_ratio",
                help: "Ratio of PCU cycles spent under the thermal throttle source",
            },
        ]
    }

    /// The metrics to be set.
    pub fn update(&self, metrics: &HsxPcuMetrics) -> (updates: Vec<GaugeUpdate>)
        ensures
            updates@ == all_updates(*metrics),
    {
        let mut updates: Vec<GaugeUpdate> = common::clock_updates(&metrics.clocks);
        let mut part: Vec<GaugeUpdate> = common::core_state_updates(&metrics.core_c_states);
        updates.append(&mut part);
        let mut part: Vec<GaugeUpdate> = common::limit_updates(&metrics.frequency_limits);
        updates.append(&mut part);
        let mut part: Vec<GaugeUpdate> = common::cycle_updates(
            &metrics.frequency_transition,
            "ocellus_pcu_frequency_transition_ratio",
        );
        updates.append(&mut part);
        let mut part: Vec<GaugeUpdate> = common::cycle_updates(
            &metrics.memory_phase_shedding,
            "ocellus_pcu_memory_phase_shedding_ratio",
        );
        updates.append(&mut part);
        let mut part: Vec<GaugeUpdate> = common::package_state_updates(&metrics.package_c_states);
        updates.append(&mut part);
        let mut part: Vec<GaugeUpdate> = common::throttle_updates(&metrics.thermal_throttles);
        updates.append(&mut part);
        updates
    }
}

/// Every metric that is set belongs to a family that is registered.
pub proof fn updates_are_registered(metrics: HsxPcuMetrics)
    ensures
        export::all_registered(all_updates(metrics), families()),
{
    let descriptors = families();
    let part0 = metrics.clocks@.map_values(
        |metric: PcuClockMetrics<PcuPackageScope>| common::clock_metric(metric),
    );
    export::lemma_one_family(part0, descriptors, 0);
    let part1 = metrics.core_c_states@.map_values(
        |metric: PcuCoreCStateMetrics<PcuPackageScope>| common::core_state_metric(metric),
    );
    export::lemma_one_family(part1, descriptors, 1);
    let part2 = metrics.frequency_limits@.map_values(
        |metric: PcuFrequencyLimitMetrics<PcuPackageScope>| common::limit_metric(metric),
    );
    export::lemma_one_family(part2, descriptors, 2);
    let part3 = metrics.frequency_transition@.map_values(
        |metric: PcuCycleRatioMetrics<PcuPackageScope, &'static str>| common::cycle_metric(
            metric,
            "ocellus_pcu_frequency_transition_ratio",
        ),
    );
    export::lemma_one_family(part3, descriptors, 3);
    let part4 = metrics.memory_phase_shedding@.map_values(
        |metric: PcuCycleRatioMetrics<PcuPackageScope, &'static str>| common::cycle_metric(
            metric,
            "ocellus_pcu_memory_phase_shedding_ratio",
        ),
    );
    export::lemma_one_family(part4, descriptors, 4);
    let part5 = metrics.package_c_states@.map_values(
        |metric: PcuPackageCStateMetrics<PcuPackageScope>| common::package_state_metric(metric),
    );
    export::lemma_one_family(part5, descriptors, 5);
    let part6 = metrics.thermal_throttles@.map_values(
        |metric: PcuCycleRatioMetrics<PcuPackageScope, PcuThermalThrottleSource>| common::throttle_metric(metric),
    );
    export::lemma_one_family(part6, descriptors, 6);
    export::lemma_registered_together(part0, part1, descriptors);
    export::lemma_registered_together(part0 + part1, part2, descriptors);
    export::lemma_registered_together(part0 + part1 + part2, part3, descriptors);
    export::lemma_registered_together(part0 + part1 + part2 + part3, part4, descriptors);
    export::lemma_registered_together(part0 + part1 + part2 + part3 + part4, part5, descriptors);
    export::lemma_registered_together(
        part0 + part1 + part2 + part3 + part4 + part5,
        part6,
        descriptors,
    );
}

/// A sample that ran all of its slices is reported: its first slice counts the clock of every unit.
#[verifier::spinoff_prover]
pub proof fn complete_sample_is_reported(
    collector: HsxPcuCollector,
    interval_nanos: u128,
    slices: Seq<Slice<HsxPcuEventGroup>>,
    readings: Seq<PcuReadings>,
    estimated: Seq<Seq<u64>>,
    steps: Seq<Accumulator<PcuPackageScope, PcuEventKind, PcuMeasurement>>,
    result: Result<HsxPcuMetrics, CollectorError>,
)
    requires
        collector.wf(),
        common::is_plan(
            slices,
            groups(),
            collector.next_group() as int,
            interval_nanos,
        ),
        steps.len() == slices.len() + 1,
        steps.last().wf(),
        steps[0].grid() == Map::<PcuPackageScope, Map<PcuEventKind, PcuMeasurement>>::empty(),
        forall|i: int|
            0 <= i < slices.len() ==> common::is_record(
                collector.units(),
                common::masked(readings[i].values@),
                used_kinds((#[trigger] slices[i]).group, 4),
                estimated[i],
                readings[i].running_nanos,
                steps[i],
                Ok::<Accumulator<PcuPackageScope, PcuEventKind, PcuMeasurement>, CollectorError>(steps[i + 1]),
            ),
        reported(steps.last().rows(), result),
    ensures
        result is Ok,
        forall|scope: PcuPackageScope|
            steps.last().grid().contains_key(scope) <==> #[trigger] units::has_scope(
                collector.units(),
                scope,
            ),
{
    let n = slices.len();
    let values = Seq::new(n, |i: int| common::masked(readings[i].values@));
    let kinds = Seq::new(n, |i: int| used_kinds(slices[i].group, 4));
    let running_nanos = Seq::new(n, |i: int| readings[i].running_nanos);
    assert(used_kinds(slices[0].group, 4).contains(PcuEventKind::Clockticks)) by {
        reveal_with_fuel(used_kinds, 5);
        assert(used_kinds(slices[0].group, 4)[0] == PcuEventKind::Clockticks);
    }
    assert forall|i: int| 0 <= i < kinds.len() implies common::is_record(
        collector.units(),
        values[i],
        #[trigger] kinds[i],
        estimated[i],
        running_nanos[i],
        steps[i],
        Ok::<Accumulator<PcuPackageScope, PcuEventKind, PcuMeasurement>, CollectorError>(steps[i + 1]),
    ) by {
        assert(kinds[i] == used_kinds(slices[i].group, 4));
    }
    common::complete_sample_has_clocks(
        collector.units(),
        values,
        kinds,
        estimated,
        running_nanos,
        steps,
    );
}

} // verus!
