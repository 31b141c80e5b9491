//! The power control units of Ice Lake processors.
use crate::arch::{Architecture, IntelServerCpuModel};
use crate::counter;
use crate::error::CollectorError;
use crate::export::{self, GaugeUpdate, MetricDescriptor};
use crate::metrics::pcu::{common, PcuClockMetrics, PcuScope};
use crate::quantity;
use crate::registers::{self, Register, RegisterRead, RegisterWrite, Width};
use crate::topology::{self, CpuTopology, Leader, UncoreScope};
use crate::units::{self, Unit};
use vstd::prelude::*;

verus! {

/// The register that freezes, resets and releases the counters.
pub const BOX_CONTROL: u64 = 0x710;

/// The first of the registers that select events.
pub const CONTROL_BASE: u64 = 0x711;

/// The first of the counters.
pub const COUNTER_BASE: u64 = 0x717;

/// Freezes the counters of a unit.
pub const UNIT_FREEZE: u64 = 0x100;

/// Freezes the counters of a unit and resets its counters and event selections.
pub const UNIT_FREEZE_AND_RESET: u64 = 0x103;

/// Releases the counters of a unit.
pub const UNIT_UNFREEZE: u64 = 0;

/// The control word of an event: event number, reset, overflow and enable bits.
pub open spec fn control_word(event: u8) -> u64 {
    (event + registers::COUNT_AND_REPORT_OVERFLOW) as u64
}

/// The control word of an event.
pub fn counter_control(event: u8) -> (word: u64)
    ensures
        word == control_word(event),
{
    registers::select_word(event, 0, registers::COUNT_AND_REPORT_OVERFLOW)
}

/// The clock ticks of a die.
#[derive(Clone, Copy, Debug, PartialEq, Eq, Structural)]
pub struct IcxPcuReading {
    pub running_nanos: u128,
    pub scope: UncoreScope,
    pub ticks: u64,
}

/// What is reported for all power control units.
#[derive(Debug)]
pub struct IcxPcuMetrics {
    pub clocks: Vec<PcuClockMetrics<PcuScope>>,
}

/// The frequency of the clock of a die.
pub open spec fn clock_metrics(reading: IcxPcuReading) -> PcuClockMetrics<PcuScope> {
    PcuClockMetrics {
        frequency_hz: quantity::frequency_of(reading.ticks, reading.running_nanos),
        scope: PcuScope {
            die_group_id: reading.scope.die_group_id,
            die_id: reading.scope.die_id,
            package_id: reading.scope.package_id,
        },
    }
}

impl IcxPcuMetrics {
    /// Reports the clock of every die that was read.
    pub fn from_readings(readings: &Vec<IcxPcuReading>) -> (metrics: Self)
        ensures
            metrics.clocks@ == readings@.map_values(
                |reading: IcxPcuReading| clock_metrics(reading),
            ),
    {
        let mut clocks: Vec<PcuClockMetrics<PcuScope>> = Vec::new();
        let mut i: usize = 0;
        while i < readings.len()
            invariant
                i <= readings@.len(),
                clocks@.len() == i,
                forall|k: int|
                    0 <= k < i ==> (#[trigger] clocks@[k]) == clock_metrics(readings@[k]),
            decreases readings@.len() - i,
        {
            let reading = readings[i];
            clocks.push(
                PcuClockMetrics {
                    frequency_hz: quantity::frequency(reading.ticks, reading.running_nanos),
                    scope: PcuScope::from_uncore_scope(reading.scope),
                },
            );
            i += 1;
        }
        assert(clocks@ =~= readings@.map_values(|reading: IcxPcuReading| clock_metrics(reading)));
        IcxPcuMetrics { clocks }
    }
}

/// The registers of a power control unit, reached through a processor of its die.
pub open spec fn is_unit(unit: Unit<UncoreScope>, leader: Leader<UncoreScope>) -> bool {
    let cpu = leader.cpu;
    &&& unit.scope == leader.scope
    &&& unit.control == Register::Msr { address: BOX_CONTROL, cpu }
    &&& unit.width == Width::Bits64
    &&& unit.filter is None
    &&& unit.controls@ == seq![Register::Msr { address: CONTROL_BASE, cpu }]
    &&& unit.counters@ == seq![Register::Msr { address: COUNTER_BASE, cpu }]
    &&& unit.fixed_control is None
    &&& unit.fixed_counter is None
}

fn unit_at(leader: Leader<UncoreScope>) -> (unit: Unit<UncoreScope>)
    ensures
        is_unit(unit, leader),
{
    let cpu: u32 = leader.cpu;
    let unit = Unit {
        scope: leader.scope,
        control: Register::Msr { address: BOX_CONTROL, cpu },
        width: Width::Bits64,
        filter: None,
        controls: vec![Register::Msr { address: CONTROL_BASE, cpu }],
        counters: vec![Register::Msr { address: COUNTER_BASE, cpu }],
        fixed_control: None,
        fixed_counter: None,
    };
    assert(unit.controls@ =~= seq![Register::Msr { address: CONTROL_BASE, cpu }]);
    assert(unit.counters@ =~= seq![Register::Msr { address: COUNTER_BASE, cpu }]);
    unit
}

/// Samples the power control units of Ice Lake processors.
#[derive(Debug)]
pub struct IcxPcuCollector {
    packages: Vec<Unit<UncoreScope>>,
}

/// Whether `units` are the units of `leaders`, in the same order.
pub open spec fn are_units(
    units: Seq<Unit<UncoreScope>>,
    leaders: Seq<Leader<UncoreScope>>,
) -> bool {
    &&& units.len() == leaders.len()
    &&& forall|i: int| 0 <= i < leaders.len() ==> is_unit(#[trigger] units[i], leaders[i])
}

/// Whether `result` is the collector for the processors: one unit for each die, in die order. It is
/// an error for other processors, where there is no processor, and where one has no package.
pub open spec fn created(
    architecture: Architecture,
    topologies: Seq<CpuTopology>,
    result: Result<IcxPcuCollector, CollectorError>,
) -> bool {
    let model = architecture.server_model()->0;
    if model != IntelServerCpuModel::IceLakeXeon {
        result matches Err(error) && error == (CollectorError::Unsupported {
            unit: "Ice Lake PCU",
            model,
        })
    } else if topology::first_cpus::<UncoreScope>(topologies) is None {
        result matches Err(error) && error == CollectorError::MissingPackageLevel
    } else if topologies.len() == 0 {
        result matches Err(error) && error == (CollectorError::NothingFound {
            what: "uncore scope leaders",
        })
    } else {
        &&& result matches Ok(collector)
        &&& collector.wf()
        &&& exists|leaders: Seq<Leader<UncoreScope>>|
            {
                &&& #[trigger] topology::lists_leaders(
                    leaders,
                    topology::first_cpus::<UncoreScope>(topologies)->0,
                )
                &&& are_units(collector.units(), leaders)
            }
    }
}

/// Whether `result` holds the ticks of each unit. It is an error where there is not one value for
/// each unit.
pub open spec fn are_readings(
    units: Seq<Unit<UncoreScope>>,
    values: Seq<u64>,
    running_nanos: u128,
    result: Result<Vec<IcxPcuReading>, CollectorError>,
) -> bool {
    if values.len() != units.len() {
        result matches Err(error) && error == (CollectorError::ReadingCount {
            expected: 1,
            found: values.len() as usize,
        })
    } else {
        &&& result matches Ok(readings)
        &&& readings@.len() == units.len()
        &&& forall|i: int|
            0 <= i < units.len() ==> (#[trigger] readings@[i]) == (IcxPcuReading {
                running_nanos,
                scope: units[i].scope,
                ticks: units::counted(values[i]),
            })
    }
}

impl IcxPcuCollector {
    /// The units whose counters are read.
    pub closed spec fn units(self) -> Seq<Unit<UncoreScope>> {
        self.packages@
    }

    /// The invariant: every unit has a counter for the clock.
    pub open spec fn wf(self) -> bool {
        units::units_have(self.units(), 1)
    }

    /// A collector for given units.
    pub fn from_units(packages: Vec<Unit<UncoreScope>>) -> (collector: Self)
        requires
            units::units_have(packages@, 1),
        ensures
            collector.wf(),
            collector.units() == packages@,
    {
        IcxPcuCollector { packages }
    }

    /// A collector for the processors.
    pub fn new(architecture: &Architecture, topologies: &Vec<CpuTopology>) -> (result: Result<
        Self,
        CollectorError,
    >)
        requires
            architecture.server_model() is Some,
        ensures
            created(*architecture, topologies@, result),
    {
        let model = architecture.intel_server_model();
        match model {
            IntelServerCpuModel::IceLakeXeon => {},
            _ => {
                return Err(CollectorError::Unsupported { unit: "Ice Lake PCU", model });
            },
        }
        let leaders: Vec<Leader<UncoreScope>> = match topology::leaders_in_order::<UncoreScope>(
            topologies,
        ) {
            Ok(leaders) => leaders,
            Err(error) => {
                return Err(error);
            },
        };
        if leaders.len() == 0 {
            return Err(CollectorError::NothingFound { what: "uncore scope leaders" });
        }
        let mut packages: Vec<Unit<UncoreScope>> = Vec::new();
        let mut i: usize = 0;
        while i < leaders.len()
            invariant
                i <= leaders@.len(),
                packages@.len() == i,
                forall|k: int| 0 <= k < i ==> is_unit(#[trigger] packages@[k], leaders@[k]),
            decreases leaders@.len() - i,
        {
            packages.push(unit_at(leaders[i]));
            i += 1;
        }
        assert(are_units(packages@, leaders@));
        Ok(IcxPcuCollector { packages })
    }

    /// How long the counters run in a sample over an interval: all of it. It is an error over no
    /// time.
    pub fn begin_sample(&self, interval_nanos: u128) -> (result: Result<u128, CollectorError>)
        ensures
            if interval_nanos == 0 {
                result matches Err(error) && error == (CollectorError::ZeroInterval {
                    unit: "Ice Lake PCU",
                })
            } else {
                result matches Ok(running) && running == interval_nanos
            },
    {
        if interval_nanos == 0 {
            return Err(CollectorError::ZeroInterval { unit: "Ice Lake PCU" });
        }
        Ok(interval_nanos)
    }

    /// Shows that the units can be written: they are frozen and their counter is turned off.
    pub fn probe_writes(&self) -> (writes: Vec<RegisterWrite>)
        requires
            self.wf(),
        ensures
            writes@ == units::all_probes(self.units(), UNIT_FREEZE),
    {
        units::write_probes(&self.packages, UNIT_FREEZE)
    }

    /// Freezes and resets the counters of each unit and selects the clock.
    pub fn program_writes(&self) -> (writes: Vec<RegisterWrite>)
        requires
            self.wf(),
        ensures
            writes@ == units::all_resets_and_programs(
                self.units(),
                seq![UNIT_FREEZE_AND_RESET],
                seq![Some(control_word(0x00))],
            ),
    {
        let reset: Vec<u64> = vec![UNIT_FREEZE_AND_RESET];
        let words: Vec<Option<u64>> = vec![Some(counter_control(0x00))];
        assert(reset@ =~= seq![UNIT_FREEZE_AND_RESET]);
        assert(words@ =~= seq![Some(control_word(0x00))]);
        units::reset_and_write_events(&self.packages, &reset, &words)
    }

    /// Releases the counters of all units.
    pub fn unfreeze_writes(&self) -> (writes: Vec<RegisterWrite>)
        ensures
            writes@ == units::all_control_writes(self.units(), seq![UNIT_UNFREEZE]),
    {
        let words: Vec<u64> = vec![UNIT_UNFREEZE];
        assert(words@ =~= seq![UNIT_UNFREEZE]);
        units::write_controls(&self.packages, &words)
    }

    /// Freezes the counters of all units.
    pub fn freeze_writes(&self) -> (writes: Vec<RegisterWrite>)
        ensures
            writes@ == units::all_control_writes(self.units(), seq![UNIT_FREEZE]),
    {
        let words: Vec<u64> = vec![UNIT_FREEZE];
        assert(words@ =~= seq![UNIT_FREEZE]);
        units::write_controls(&self.packages, &words)
    }

    /// Reads the clock counter of every unit.
    pub fn reads(&self) -> (reads: Vec<RegisterRead>)
        requires
            self.wf(),
        ensures
            reads@ == units::all_reads(self.units(), units::every_counter(1)),
    {
        units::reads(&self.packages, &units::all_used(1))
    }

    /// The clock ticks of every unit, of which the low 48 bits count.
    pub fn readings(&self, values: &Vec<u64>, running_nanos: u128) -> (result: Result<
        Vec<IcxPcuReading>,
        CollectorError,
    >)
        ensures
            are_readings(self.units(), values@, running_nanos, result),
    {
        if values.len() != self.packages.len() {
            return Err(CollectorError::ReadingCount { expected: 1, found: values.len() });
        }
        let mut readings: Vec<IcxPcuReading> = Vec::new();
        let mut i: usize = 0;
        while i < values.len()
            invariant
                i <= values@.len(),
                values@.len() == self.packages@.len(),
                readings@.len() == i,
                forall|k: int|
                    0 <= k < i ==> (#[trigger] readings@[k]) == (IcxPcuReading {
                        running_nanos,
                        scope: self.packages@[k].scope,
                        ticks: units::counted(values@[k]),
                    }),
            decreases values@.len() - i,
        {
            readings.push(
                IcxPcuReading {
                    running_nanos,
                    scope: self.packages[i].scope,
                    ticks: counter::mask_counter(values[i]),
                },
            );
            i += 1;
        }
        Ok(readings)
    }

    /// Ends a sample: the readings are reported.
    pub fn finish_sample(&self, readings: &Vec<IcxPcuReading>) -> (metrics: IcxPcuMetrics)
        ensures
            metrics.clocks@ == readings@.map_values(
                |reading: IcxPcuReading| clock_metrics(reading),
            ),
    {
        IcxPcuMetrics::from_readings(readings)
    }
}

/// The families that are registered, in this order.
pub open spec fn families() -> Seq<MetricDescriptor> {
    seq![
        MetricDescriptor {
            name: "ocellus_pcu_frequency_hz",
            help: "Interval-derived PCU PCLK frequency in hertz",
        },
    ]
}

/// The metrics that are set for all scopes.
pub open spec fn all_updates(metrics: IcxPcuMetrics) -> Seq<GaugeUpdate> {
    metrics.clocks@.map_values(|metric: PcuClockMetrics<PcuScope>| common::clock_metric(metric))
}

/// The metric families of the power control units of a processor.
#[derive(Clone, Copy, Debug)]
pub struct IcxPcuPrometheusMetrics;

impl IcxPcuPrometheusMetrics {
    /// The families to be registered.
    pub fn register() -> (families: Vec<MetricDescriptor>)
        ensures
            families@ == self::families(),
    {
        vec![
            MetricDescriptor {
                name: "ocellus_pcu_frequency_hz",
                help: "Interval-derived PCU PCLK frequency in hertz",
            },
        ]
    }

    /// The metrics to be set.
    pub fn update(&self, metrics: &IcxPcuMetrics) -> (updates: Vec<GaugeUpdate>)
        ensures
            updates@ == all_updates(*metrics),
    {
        let mut updates: Vec<GaugeUpdate> = common::clock_updates(&metrics.clocks);
        updates
    }
}

/// Every metric that is set belongs to a family that is registered.
pub proof fn updates_are_registered(metrics: IcxPcuMetrics)
    ensures
        export::all_registered(all_updates(metrics), families()),
{
    let descriptors = families();
    let part0 = metrics.clocks@.map_values(
        |metric: PcuClockMetrics<PcuScope>| common::clock_metric(metric),
    );
    export::lemma_one_family(part0, descriptors, 0);
}

} // verus!
