//! The energy that packages and their memory consume.
use crate::counter;
use crate::error::CollectorError;
use crate::export::{self, CounterUpdate, GaugeUpdate, Labels, MetricDescriptor, RegistryUpdates};
use crate::ordered_map::{Key, OrderedMap};
use crate::quantity::{EnergyUnit, Quantity};
use crate::registers::{Register, RegisterRead, Width};
use crate::topology::{
    self, CpuTopology, Leader, TopologyLevel, TopologyScope, UncoreScope,
};
use vstd::prelude::*;

verus! {

/// The bits of an energy counter.
pub const ENERGY_STATUS_WIDTH: u32 = 32;

/// The register with the energy counter of the memory.
pub const MSR_DRAM_ENERGY_STATUS: u64 = 0x619;

/// The register with the energy counter of the package.
pub const MSR_PKG_ENERGY_STATUS: u64 = 0x611;

/// The register with the units.
pub const MSR_RAPL_POWER_UNIT: u64 = 0x606;

/// What energy is counted of.
#[derive(Clone, Copy, Debug, PartialEq, Eq, Structural, Hash)]
pub enum RaplDomainKind {
    Package,
    Dram,
}

/// What a domain is called in a label.
pub open spec fn domain_label(kind: RaplDomainKind) -> &'static str {
    match kind {
        RaplDomainKind::Package => "package",
        RaplDomainKind::Dram => "dram",
    }
}

impl RaplDomainKind {
    /// What the domain is called in a label.
    pub fn label(self) -> (label: &'static str)
        ensures
            label == domain_label(self),
    {
        match self {
            RaplDomainKind::Package => "package",
            RaplDomainKind::Dram => "dram",
        }
    }
}

/// The scope of energy counters: a die.
#[derive(Clone, Copy, Debug, PartialEq, Eq, Structural)]
pub struct RaplScope {
    pub die_group_id: u32,
    pub die_id: u32,
    pub package_id: u32,
}

impl Key for RaplScope {
    open spec fn rank(self) -> int {
        (self.die_group_id * 0x1_0000_0000 + self.die_id) * 0x1_0000_0000 + self.package_id
    }

    proof fn rank_injective(a: Self, b: Self) {
    }

    fn precedes(&self, other: &Self) -> (result: bool) {
        if self.die_group_id != other.die_group_id {
            self.die_group_id < other.die_group_id
        } else if self.die_id != other.die_id {
            self.die_id < other.die_id
        } else {
            self.package_id < other.package_id
        }
    }
}

impl TopologyScope for RaplScope {
    open spec fn of(levels: Seq<TopologyLevel>) -> Option<Self> {
        match topology::die_scope(levels) {
            Some(scope) => Some(
                RaplScope {
                    die_group_id: scope.die_group_id,
                    die_id: scope.die_id,
                    package_id: scope.package_id,
                },
            ),
            None => None,
        }
    }

    fn from_topology(topology: &CpuTopology) -> (scope: Result<Self, CollectorError>) {
        match UncoreScope::from_topology(topology) {
            Ok(scope) => Ok(
                RaplScope {
                    die_group_id: scope.die_group_id,
                    die_id: scope.die_id,
                    package_id: scope.package_id,
                },
            ),
            Err(error) => Err(error),
        }
    }
}

/// The place of a domain in the order of the domains.
pub open spec fn domain_index(kind: RaplDomainKind) -> int {
    match kind {
        RaplDomainKind::Package => 0,
        RaplDomainKind::Dram => 1,
    }
}

/// A domain of a scope.
#[derive(Clone, Copy, Debug, PartialEq, Eq, Structural)]
pub struct RaplDomainKey {
    pub domain: RaplDomainKind,
    pub scope: RaplScope,
}

impl Key for RaplDomainKey {
    open spec fn rank(self) -> int {
        domain_index(self.domain) * 0x1_0000_0000_0000_0000_0000_0000 + self.scope.rank()
    }

    proof fn rank_injective(a: Self, b: Self) {
        RaplScope::rank_injective(a.scope, b.scope);
    }

    fn precedes(&self, other: &Self) -> (result: bool) {
        match (self.domain, other.domain) {
            (RaplDomainKind::Package, RaplDomainKind::Dram) => true,
            (RaplDomainKind::Dram, RaplDomainKind::Package) => false,
            _ => self.scope.precedes(&other.scope),
        }
    }
}

/// An energy counter, with the processor through which it is read.
#[derive(Clone, Copy, Debug, PartialEq, Eq, Structural)]
pub struct RaplDomain {
    pub key: RaplDomainKey,
    pub cpu: u32,
    pub energy_unit: EnergyUnit,
    pub status_msr: u64,
}

/// A domain and the register with its energy counter.
#[derive(Clone, Copy, Debug, PartialEq, Eq, Structural)]
pub struct RaplDomainSpec {
    pub kind: RaplDomainKind,
    pub status_msr: u64,
}

/// The domains that every scope has.
pub open spec fn specs() -> Seq<RaplDomainSpec> {
    seq![
        RaplDomainSpec { kind: RaplDomainKind::Package, status_msr: MSR_PKG_ENERGY_STATUS },
        RaplDomainSpec { kind: RaplDomainKind::Dram, status_msr: MSR_DRAM_ENERGY_STATUS },
    ]
}

/// The domains that every scope has.
pub fn domain_specs() -> (list: [RaplDomainSpec; 2])
    ensures
        list@ == specs(),
{
    let list = [
        RaplDomainSpec { kind: RaplDomainKind::Package, status_msr: MSR_PKG_ENERGY_STATUS },
        RaplDomainSpec { kind: RaplDomainKind::Dram, status_msr: MSR_DRAM_ENERGY_STATUS },
    ];
    assert(list@ =~= specs());
    list
}

/// The unit that the register with the units tells: its exponent is in bits 8 to 12.
pub open spec fn unit_of(rapl_power_unit: u64) -> EnergyUnit {
    EnergyUnit::Fraction { exponent: (rapl_power_unit / 0x100 % 0x20) as u32 }
}

/// The unit that the register with the units tells.
pub fn energy_unit_joules(rapl_power_unit: u64) -> (unit: EnergyUnit)
    ensures
        unit == unit_of(rapl_power_unit),
{
    EnergyUnit::Fraction { exponent: (rapl_power_unit / 0x100 % 0x20) as u32 }
}

/// A domain of a leader. Where the processor has a fixed unit for its memory, that is the unit of
/// the memory.
pub open spec fn domain_of(
    leader: Leader<RaplScope>,
    spec: RaplDomainSpec,
    package_unit: EnergyUnit,
    fixed_dram_unit: bool,
) -> RaplDomain {
    RaplDomain {
        key: RaplDomainKey { domain: spec.kind, scope: leader.scope },
        cpu: leader.cpu,
        energy_unit: if spec.kind == RaplDomainKind::Dram && fixed_dram_unit {
            EnergyUnit::ServerDram
        } else {
            package_unit
        },
        status_msr: spec.status_msr,
    }
}

/// The domains of a leader, given what its register with the units holds.
pub open spec fn domains_of(
    leader: Leader<RaplScope>,
    rapl_power_unit: u64,
    fixed_dram_unit: bool,
) -> Seq<RaplDomain> {
    specs().map_values(
        |spec: RaplDomainSpec| domain_of(leader, spec, unit_of(rapl_power_unit), fixed_dram_unit),
    )
}

/// The domains of a leader.
pub fn available_domains(
    leader: Leader<RaplScope>,
    rapl_power_unit: u64,
    fixed_dram_unit: bool,
) -> (domains: Vec<RaplDomain>)
    ensures
        domains@ == domains_of(leader, rapl_power_unit, fixed_dram_unit),
{
    let package_unit: EnergyUnit = energy_unit_joules(rapl_power_unit);
    let table = domain_specs();
    let mut domains: Vec<RaplDomain> = Vec::new();
    let mut i: usize = 0;
    while i < 2
        invariant
            i <= 2,
            table@ == specs(),
            package_unit == unit_of(rapl_power_unit),
            domains@ == domains_of(leader, rapl_power_unit, fixed_dram_unit).take(i as int),
        decreases 2 - i,
    {
        let spec: RaplDomainSpec = table[i];
        let energy_unit: EnergyUnit = match spec.kind {
            RaplDomainKind::Dram => if fixed_dram_unit {
                EnergyUnit::ServerDram
            } else {
                package_unit
            },
            RaplDomainKind::Package => package_unit,
        };
        domains.push(
            RaplDomain {
                key: RaplDomainKey { domain: spec.kind, scope: leader.scope },
                cpu: leader.cpu,
                energy_unit,
                status_msr: spec.status_msr,
            },
        );
        assert(domains@ =~= domains_of(leader, rapl_power_unit, fixed_dram_unit).take(i + 1));
        i += 1;
    }
    assert(domains@ =~= domains_of(leader, rapl_power_unit, fixed_dram_unit));
    domains
}

/// The domains of the first `n` leaders, leader by leader.
pub open spec fn all_domains(
    leaders: Seq<Leader<RaplScope>>,
    power_units: Seq<u64>,
    fixed_dram_unit: bool,
    n: nat,
) -> Seq<RaplDomain>
    decreases n,
{
    if n == 0 {
        Seq::empty()
    } else {
        all_domains(leaders, power_units, fixed_dram_unit, (n - 1) as nat) + domains_of(
            leaders[n - 1],
            power_units[n - 1],
            fixed_dram_unit,
        )
    }
}

/// Finds the first processor of each scope. It is an error where a processor has no package, and
/// where there is no processor.
pub fn rapl_leaders(topologies: &Vec<CpuTopology>) -> (result: Result<
    Vec<Leader<RaplScope>>,
    CollectorError,
>)
    ensures
        if topology::first_cpus::<RaplScope>(topologies@) is None {
            result matches Err(error) && error == CollectorError::MissingPackageLevel
        } else if topologies@.len() == 0 {
            result matches Err(error) && error == (CollectorError::NothingFound {
                what: "RAPL scope leaders",
            })
        } else {
            result matches Ok(leaders) && leaders@.len() > 0 && topology::lists_leaders(
                leaders@,
                topology::first_cpus::<RaplScope>(topologies@)->0,
            )
        },
{
    match topology::leaders_in_order::<RaplScope>(topologies) {
        Ok(leaders) => if leaders.len() == 0 {
            Err(CollectorError::NothingFound { what: "RAPL scope leaders" })
        } else {
            Ok(leaders)
        },
        Err(error) => Err(error),
    }
}

/// Where the units of the leaders are read.
pub open spec fn unit_read(leader: Leader<RaplScope>) -> RegisterRead {
    RegisterRead {
        register: Register::Msr { address: MSR_RAPL_POWER_UNIT, cpu: leader.cpu },
        width: Width::Bits64,
    }
}

/// Reads the units of the leaders.
pub fn unit_reads(leaders: &Vec<Leader<RaplScope>>) -> (reads: Vec<RegisterRead>)
    ensures
        reads@ == leaders@.map_values(|leader: Leader<RaplScope>| unit_read(leader)),
{
    let mut reads: Vec<RegisterRead> = Vec::new();
    let mut i: usize = 0;
    while i < leaders.len()
        invariant
            i <= leaders@.len(),
            reads@.len() == i,
            forall|k: int| 0 <= k < i ==> (#[trigger] reads@[k]) == unit_read(leaders@[k]),
        decreases leaders@.len() - i,
    {
        reads.push(
            RegisterRead {
                register: Register::Msr { address: MSR_RAPL_POWER_UNIT, cpu: leaders[i].cpu },
                width: Width::Bits64,
            },
        );
        i += 1;
    }
    assert(reads@ =~= leaders@.map_values(|leader: Leader<RaplScope>| unit_read(leader)));
    reads
}

/// What the energy counters showed at some time.
#[derive(Debug)]
pub struct RaplReading {
    pub at_nanos: u128,
    pub energy_raw: Vec<u64>,
}

/// What is reported for a domain.
#[derive(Clone, Copy, Debug)]
pub struct RaplDomainMetrics {
    pub domain: RaplDomainKind,
    pub energy_joules_total: Quantity,
    pub power_watts: Quantity,
    pub scope: RaplScope,
}

/// What is reported for all domains.
#[derive(Debug)]
pub struct RaplMetrics {
    pub domains: Vec<RaplDomainMetrics>,
}

/// The energy that each domain has consumed, in steps of its counter.
pub type RaplTotals = OrderedMap<RaplDomainKey, u128>;

/// A total, or the largest number that can be held.
pub open spec fn capped(total: int) -> u128 {
    if total <= u128::MAX {
        total as u128
    } else {
        u128::MAX
    }
}

/// What a domain has consumed so far.
pub open spec fn consumed_before(totals: Map<RaplDomainKey, u128>, key: RaplDomainKey) -> u128 {
    if totals.contains_key(key) {
        totals[key]
    } else {
        0
    }
}

/// The totals after a domain has consumed more.
pub open spec fn with_consumed(
    totals: Map<RaplDomainKey, u128>,
    key: RaplDomainKey,
    consumed_raw: u64,
) -> Map<RaplDomainKey, u128> {
    totals.insert(key, capped(consumed_before(totals, key) + consumed_raw))
}

/// Adds to what a domain has consumed.
pub fn update_total_energy(totals: &mut RaplTotals, key: RaplDomainKey, consumed_raw: u64) -> (
    total: u128)
    requires
        old(totals).wf(),
    ensures
        final(totals).wf(),
        final(totals)@ == with_consumed(old(totals)@, key, consumed_raw),
        total == final(totals)@[key],
{
    let before: u128 = match totals.get(&key) {
        Some(total) => *total,
        None => 0,
    };
    let total: u128 = match before.checked_add(consumed_raw as u128) {
        Some(total) => total,
        None => u128::MAX,
    };
    totals.insert(key, total);
    total
}

/// How far an energy counter has moved between two readings; it wraps around after 32 bits.
pub open spec fn consumed(previous: u64, current: u64) -> int {
    counter::distance(previous as int, current as int, ENERGY_STATUS_WIDTH as nat)
}

/// How far an energy counter has moved between two readings.
pub fn wrapping_delta(previous: u64, current: u64) -> (delta: u64)
    ensures
        delta == consumed(previous, current),
{
    counter::counter_delta(previous, current, ENERGY_STATUS_WIDTH)
}

/// The totals after the first `n` domains were updated.
pub open spec fn totals_after(
    domains: Seq<RaplDomain>,
    previous: Seq<u64>,
    current: Seq<u64>,
    totals: Map<RaplDomainKey, u128>,
    n: nat,
) -> Map<RaplDomainKey, u128>
    decreases n,
{
    if n == 0 {
        totals
    } else {
        with_consumed(
            totals_after(domains, previous, current, totals, (n - 1) as nat),
            domains[n - 1].key,
            consumed(previous[n - 1], current[n - 1]) as u64,
        )
    }
}

/// What is reported for domain `i`: its total after it was updated, and its consumption over the
/// time between the readings.
pub open spec fn domain_metrics(
    domains: Seq<RaplDomain>,
    previous: Seq<u64>,
    current: Seq<u64>,
    elapsed_nanos: u128,
    totals: Map<RaplDomainKey, u128>,
    i: int,
) -> RaplDomainMetrics {
    let domain = domains[i];
    RaplDomainMetrics {
        domain: domain.key.domain,
        energy_joules_total: Quantity::Energy {
            raw: totals_after(domains, previous, current, totals, (i + 1) as nat)[domain.key],
            unit: domain.energy_unit,
        },
        power_watts: Quantity::Power {
            raw: consumed(previous[i], current[i]) as u64,
            unit: domain.energy_unit,
            elapsed_nanos,
        },
        scope: domain.key.scope,
    }
}

/// Why two readings cannot be compared, if so: the clock went backwards, it stood still, or a
/// reading does not have one value for each domain.
pub open spec fn refused(
    domains: Seq<RaplDomain>,
    previous: RaplReading,
    current: RaplReading,
) -> Option<
    CollectorError,
> {
    if current.at_nanos < previous.at_nanos {
        Some(CollectorError::TimestampBackwards)
    } else if current.at_nanos == previous.at_nanos {
        Some(CollectorError::NoElapsedTime)
    } else if previous.energy_raw@.len() != domains.len() || current.energy_raw@.len()
        != domains.len() {
        Some(CollectorError::DomainCount)
    } else {
        None
    }
}

/// Whether `result` and `after` are the report on two readings and the totals after it; the totals
/// stay where there is no report.
pub open spec fn reported(
    domains: Seq<RaplDomain>,
    previous: RaplReading,
    current: RaplReading,
    totals: Map<RaplDomainKey, u128>,
    after: Map<RaplDomainKey, u128>,
    result: Result<RaplMetrics, CollectorError>,
) -> bool {
    match refused(domains, previous, current) {
        Some(error) => after == totals && (result matches Err(e) && e == error),
        None => {
            &&& after == totals_after(
                domains,
                previous.energy_raw@,
                current.energy_raw@,
                totals,
                domains.len(),
            )
            &&& result matches Ok(metrics)
            &&& metrics.domains@ == Seq::new(
                domains.len(),
                |i: int|
                    domain_metrics(
                        domains,
                        previous.energy_raw@,
                        current.energy_raw@,
                        (current.at_nanos - previous.at_nanos) as u128,
                        totals,
                        i,
                    ),
            )
        },
    }
}

impl RaplDomainMetrics {
    fn from_readings(
        domain: RaplDomain,
        previous_energy_raw: u64,
        current_energy_raw: u64,
        elapsed_nanos: u128,
        totals: &mut RaplTotals,
    ) -> (metrics: Self)
        requires
            old(totals).wf(),
        ensures
            final(totals).wf(),
            final(totals)@ == with_consumed(
                old(totals)@,
                domain.key,
                consumed(previous_energy_raw, current_energy_raw) as u64,
            ),
            metrics == (RaplDomainMetrics {
                domain: domain.key.domain,
                energy_joules_total: Quantity::Energy {
                    raw: final(totals)@[domain.key],
                    unit: domain.energy_unit,
                },
                power_watts: Quantity::Power {
                    raw: consumed(previous_energy_raw, current_energy_raw) as u64,
                    unit: domain.energy_unit,
                    elapsed_nanos,
                },
                scope: domain.key.scope,
            }),
    {
        let consumed_raw: u64 = wrapping_delta(previous_energy_raw, current_energy_raw);
        let total: u128 = update_total_energy(totals, domain.key, consumed_raw);
        RaplDomainMetrics {
            domain: domain.key.domain,
            energy_joules_total: Quantity::Energy { raw: total, unit: domain.energy_unit },
            power_watts: Quantity::Power {
                raw: consumed_raw,
                unit: domain.energy_unit,
                elapsed_nanos,
            },
            scope: domain.key.scope,
        }
    }
}

impl RaplMetrics {
    /// Reports what the domains consumed between two readings and adds it to their totals.
    pub fn from_readings(
        domains: &Vec<RaplDomain>,
        previous: &RaplReading,
        current: &RaplReading,
        totals: &mut RaplTotals,
    ) -> (result: Result<Self, CollectorError>)
        requires
            old(totals).wf(),
        ensures
            final(totals).wf(),
            reported(domains@, *previous, *current, old(totals)@, final(totals)@, result),
    {
        if current.at_nanos < previous.at_nanos {
            return Err(CollectorError::TimestampBackwards);
        }
        let elapsed_nanos: u128 = current.at_nanos - previous.at_nanos;
        if elapsed_nanos == 0 {
            return Err(CollectorError::NoElapsedTime);
        }
        if previous.energy_raw.len() != domains.len() || current.energy_raw.len()
            != domains.len() {
            return Err(CollectorError::DomainCount);
        }
        let ghost start = totals@;
        let ghost before = previous.energy_raw@;
        let ghost now = current.energy_raw@;
        let mut list: Vec<RaplDomainMetrics> = Vec::new();
        let mut i: usize = 0;
        while i < domains.len()
            invariant
                i <= domains@.len(),
                before == previous.energy_raw@,
                now == current.energy_raw@,
                before.len() == domains@.len(),
                now.len() == domains@.len(),
                totals.wf(),
                totals@ == totals_after(domains@, before, now, start, i as nat),
                list@.len() == i,
                forall|k: int|
                    0 <= k < i ==> (#[trigger] list@[k]) == domain_metrics(
                        domains@,
                        before,
                        now,
                        elapsed_nanos,
                        start,
                        k,
                    ),
            decreases domains@.len() - i,
        {
            let metrics = RaplDomainMetrics::from_readings(
                domains[i],
                previous.energy_raw[i],
                current.energy_raw[i],
                elapsed_nanos,
                totals,
            );
            list.push(metrics);
            i += 1;
        }
        assert(list@ =~= Seq::new(
            domains@.len(),
            |k: int| domain_metrics(domains@, before, now, elapsed_nanos, start, k),
        ));
        Ok(RaplMetrics { domains: list })
    }
}

/// Whether `result` is the collector for a processor, given what the registers with the units of
/// its leaders hold.
pub open spec fn created(
    leaders: Seq<Leader<RaplScope>>,
    power_units: Seq<u64>,
    fixed_dram_unit: bool,
    result: Result<RaplCollector, CollectorError>,
) -> bool {
    if power_units.len() != leaders.len() {
        result matches Err(error) && error == (CollectorError::ReadingCount {
            expected: leaders.len() as usize,
            found: power_units.len() as usize,
        })
    } else if leaders.len() == 0 {
        result matches Err(error) && error == CollectorError::NoPackages
    } else {
        &&& result matches Ok(collector)
        &&& collector.wf()
        &&& collector.domains() == all_domains(
            leaders,
            power_units,
            fixed_dram_unit,
            leaders.len(),
        )
        &&& collector.previous() is None
        &&& collector.totals() == Map::<RaplDomainKey, u128>::empty()
    }
}

/// Samples the energy counters of a processor.
#[derive(Debug)]
pub struct RaplCollector {
    domains: Vec<RaplDomain>,
    previous: Option<RaplReading>,
    totals: RaplTotals,
}

/// The value of an energy counter, of which the low 32 bits count.
pub open spec fn energy_value(value: u64) -> u64 {
    value % 0x1_0000_0000
}

/// Where a domain is read.
pub open spec fn domain_read(domain: RaplDomain) -> RegisterRead {
    RegisterRead {
        register: Register::Msr { address: domain.status_msr, cpu: domain.cpu },
        width: Width::Bits64,
    }
}

impl RaplCollector {
    /// The domains that are read.
    pub closed spec fn domains(self) -> Seq<RaplDomain> {
        self.domains@
    }

    /// The reading before the next one.
    pub closed spec fn previous(self) -> Option<RaplReading> {
        self.previous
    }

    /// What the domains have consumed.
    pub closed spec fn totals(self) -> Map<RaplDomainKey, u128> {
        self.totals@
    }

    /// The invariant of the totals.
    pub closed spec fn wf(self) -> bool {
        self.totals.wf()
    }

    /// A collector for the processor.
    pub fn new(
        leaders: &Vec<Leader<RaplScope>>,
        power_units: &Vec<u64>,
        fixed_dram_unit: bool,
    ) -> (result: Result<Self, CollectorError>)
        ensures
            created(leaders@, power_units@, fixed_dram_unit, result),
    {
        if power_units.len() != leaders.len() {
            return Err(
                CollectorError::ReadingCount { expected: leaders.len(), found: power_units.len() },
            );
        }
        if leaders.len() == 0 {
            return Err(CollectorError::NoPackages);
        }
        let mut domains: Vec<RaplDomain> = Vec::new();
        let mut i: usize = 0;
        while i < leaders.len()
            invariant
                i <= leaders@.len(),
                power_units@.len() == leaders@.len(),
                domains@ == all_domains(leaders@, power_units@, fixed_dram_unit, i as nat),
            decreases leaders@.len() - i,
        {
            let mut part: Vec<RaplDomain> = available_domains(
                leaders[i],
                power_units[i],
                fixed_dram_unit,
            );
            domains.append(&mut part);
            i += 1;
        }
        Ok(RaplCollector { domains, previous: None, totals: OrderedMap::new() })
    }

    /// Reads the energy counters.
    pub fn reads(&self) -> (reads: Vec<RegisterRead>)
        ensures
            reads@ == self.domains().map_values(|domain: RaplDomain| domain_read(domain)),
    {
        let mut reads: Vec<RegisterRead> = Vec::new();
        let mut i: usize = 0;
        while i < self.domains.len()
            invariant
                i <= self.domains@.len(),
                reads@.len() == i,
                forall|k: int| 0 <= k < i ==> (
                    #[trigger] reads@[k]
                ) == domain_read(self.domains@[k]),
            decreases self.domains@.len() - i,
        {
            let domain = self.domains[i];
            reads.push(
                RegisterRead {
                    register: Register::Msr { address: domain.status_msr, cpu: domain.cpu },
                    width: Width::Bits64,
                },
            );
            i += 1;
        }
        assert(reads@ =~= self.domains().map_values(|domain: RaplDomain| domain_read(domain)));
        reads
    }

    /// Takes a sample: reports what was consumed since the one before; nothing the first time. The
    /// values are those of the registers that are read; they are kept for the next sample, whether
    /// there is a report or not.
    pub fn sample(&mut self, at_nanos: u128, values: &Vec<u64>) -> (result: Result<
        Option<RaplMetrics>,
        CollectorError,
    >)
        requires
            old(self).wf(),
        ensures
            final(self).wf(),
            final(self).domains() == old(self).domains(),
            final(self).previous() matches Some(kept) && kept.at_nanos == at_nanos
                && kept.energy_raw@ == values@.map_values(|value: u64| energy_value(value)),
            match old(self).previous() {
                Some(previous) => exists|report: Result<RaplMetrics, CollectorError>|
                    #![trigger reported(
                        old(self).domains(),
                        previous,
                        final(self).previous()->0,
                        old(self).totals(),
                        final(self).totals(),
                        report,
                    )]
                    {
                        &&& reported(
                            old(self).domains(),
                            previous,
                            final(self).previous()->0,
                            old(self).totals(),
                            final(self).totals(),
                            report,
                        )
                        &&& match report {
                            Ok(metrics) => result == Ok::<Option<RaplMetrics>, CollectorError>(
                                Some(metrics),
                            ),
                            Err(error) => result == Err::<Option<RaplMetrics>, CollectorError>(
                                error,
                            ),
                        }
                    },
                None => final(self).totals() == old(self).totals() && (result matches Ok(found)
                    && found is None),
            },
    {
        let mut energy_raw: Vec<u64> = Vec::new();
        let mut i: usize = 0;
        while i < values.len()
            invariant
                i <= values@.len(),
                energy_raw@.len() == i,
                forall|k: int| 0 <= k < i ==> (
                    #[trigger] energy_raw@[k]
                ) == energy_value(values@[k]),
            decreases values@.len() - i,
        {
            energy_raw.push(values[i] % 0x1_0000_0000);
            i += 1;
        }
        assert(energy_raw@ =~= values@.map_values(|value: u64| energy_value(value)));
        let current = RaplReading { at_nanos, energy_raw };
        let ghost before = *self;
        let report: Option<Result<RaplMetrics, CollectorError>> = match &self.previous {
            Some(previous) => Some(
                RaplMetrics::from_readings(&self.domains, previous, &current, &mut self.totals),
            ),
            None => None,
        };
        self.previous = Some(current);
        match report {
            Some(report) => {
                assert(reported(
                    before.domains(),
                    before.previous()->0,
                    self.previous()->0,
                    before.totals(),
                    self.totals(),
                    report,
                ));
                match report {
                    Ok(metrics) => Ok(Some(metrics)),
                    Err(error) => Err(error),
                }
            },
            None => Ok(None),
        }
    }
}

/// Updating the total of a domain leaves the totals of the other ones as they were.
pub proof fn totals_are_kept_apart(
    totals: Map<RaplDomainKey, u128>,
    key: RaplDomainKey,
    other: RaplDomainKey,
    consumed_raw: u64,
)
    requires
        key != other,
    ensures
        consumed_before(with_consumed(totals, key, consumed_raw), other) == consumed_before(
            totals,
            other,
        ),
{
}

/// The total of no domain ever goes down.
pub proof fn totals_never_fall(
    domains: Seq<RaplDomain>,
    previous: Seq<u64>,
    current: Seq<u64>,
    totals: Map<RaplDomainKey, u128>,
    n: nat,
    key: RaplDomainKey,
)
    ensures
        consumed_before(totals, key) <= consumed_before(
            totals_after(domains, previous, current, totals, n),
            key,
        ),
    decreases n,
{
    if n > 0 {
        totals_never_fall(domains, previous, current, totals, (n - 1) as nat, key);
    }
}

/// The keys of the domains do not repeat.
pub open spec fn keys_differ(domains: Seq<RaplDomain>) -> bool {
    forall|i: int, j: int|
        0 <= i < j < domains.len() ==> (#[trigger] domains[i]).key != (#[trigger] domains[j]).key
}

/// Where the keys of the domains do not repeat, a sample adds to the total of each domain what its
/// counter moved.
pub proof fn sample_adds_consumption(
    domains: Seq<RaplDomain>,
    previous: Seq<u64>,
    current: Seq<u64>,
    totals: Map<RaplDomainKey, u128>,
    n: nat,
    i: int,
)
    requires
        keys_differ(domains),
        n <= domains.len(),
        0 <= i < domains.len(),
    ensures
        consumed_before(totals_after(domains, previous, current, totals, n), domains[i].key)
            == if i < n {
            capped(
                consumed_before(totals, domains[i].key) + consumed(previous[i], current[i]) as u64,
            )
        } else {
            consumed_before(totals, domains[i].key)
        },
    decreases n,
{
    if n > 0 {
        sample_adds_consumption(domains, previous, current, totals, (n - 1) as nat, i);
        if i < n - 1 {
            assert(domains[i].key != domains[n - 1].key);
        }
        if i > n - 1 {
            assert(domains[n - 1].key != domains[i].key);
        }
    }
}

proof fn lemma_domain_at(
    leaders: Seq<Leader<RaplScope>>,
    power_units: Seq<u64>,
    fixed_dram_unit: bool,
    n: nat,
    i: int,
)
    requires
        n <= leaders.len(),
        0 <= i < 2 * n,
    ensures
        all_domains(leaders, power_units, fixed_dram_unit, n).len() == 2 * n,
        all_domains(leaders, power_units, fixed_dram_unit, n)[i] == domains_of(
            leaders[i / 2],
            power_units[i / 2],
            fixed_dram_unit,
        )[i % 2],
    decreases n,
{
    if n > 1 {
        if i < 2 * (n - 1) {
            lemma_domain_at(leaders, power_units, fixed_dram_unit, (n - 1) as nat, i);
        } else {
            lemma_domain_at(leaders, power_units, fixed_dram_unit, (n - 1) as nat, 0);
        }
    } else {
        assert(all_domains(leaders, power_units, fixed_dram_unit, 0).len() == 0);
    }
}

/// The domains of a processor do not repeat: each scope has one package domain and one memory
/// domain.
pub proof fn domains_differ(
    leaders: Seq<Leader<RaplScope>>,
    cpus: Map<RaplScope, u32>,
    power_units: Seq<u64>,
    fixed_dram_unit: bool,
)
    requires
        topology::lists_leaders(leaders, cpus),
    ensures
        keys_differ(all_domains(leaders, power_units, fixed_dram_unit, leaders.len())),
        all_domains(leaders, power_units, fixed_dram_unit, leaders.len()).len() == 2
            * leaders.len(),
{
    let domains = all_domains(leaders, power_units, fixed_dram_unit, leaders.len());
    if leaders.len() > 0 {
        lemma_domain_at(leaders, power_units, fixed_dram_unit, leaders.len(), 0);
    }
    assert forall|i: int, j: int| 0 <= i < j < domains.len() implies (
        #[trigger] domains[i]
    ).key != (
    #[trigger] domains[j]).key by {
        lemma_domain_at(leaders, power_units, fixed_dram_unit, leaders.len(), i);
        lemma_domain_at(leaders, power_units, fixed_dram_unit, leaders.len(), j);
        if i / 2 < j / 2 {
            assert(leaders[i / 2].scope.rank() < leaders[j / 2].scope.rank());
        }
    }
}

/// The families that are registered, in this order: a counter of energy and a gauge of power.
pub open spec fn families() -> Seq<MetricDescriptor> {
    seq![
        MetricDescriptor {
            name: "ocellus_rapl_energy_joules",
            help: "Total RAPL domain energy consumed since exporter start in joules",
        },
        MetricDescriptor {
            name: "ocellus_rapl_power_watts",
            help: "Interval-derived RAPL domain power in watts",
        },
    ]
}

/// The labels of a domain.
pub open spec fn domain_labels(metrics: RaplDomainMetrics) -> Labels {
    Labels {
        domain: Some(domain_label(metrics.domain)),
        ..export::of_die(
            metrics.scope.die_group_id,
            metrics.scope.die_id,
            metrics.scope.package_id,
        )
    }
}

/// The counter that is raised for a domain.
pub open spec fn counter_update(metrics: RaplDomainMetrics) -> CounterUpdate {
    CounterUpdate {
        family: "ocellus_rapl_energy_joules",
        labels: domain_labels(metrics),
        total: metrics.energy_joules_total,
    }
}

/// The gauge that is set for a domain.
pub open spec fn gauge_update(metrics: RaplDomainMetrics) -> GaugeUpdate {
    GaugeUpdate {
        family: "ocellus_rapl_power_watts",
        labels: domain_labels(metrics),
        value: metrics.power_watts,
    }
}

/// Whether `updates` raises the counter and sets the gauge of every domain, in order.
pub open spec fn are_updates(metrics: RaplMetrics, updates: RegistryUpdates) -> bool {
    &&& updates.counters@ == metrics.domains@.map_values(
        |metrics: RaplDomainMetrics| counter_update(metrics),
    )
    &&& updates.gauges@ == metrics.domains@.map_values(
        |metrics: RaplDomainMetrics| gauge_update(metrics),
    )
}

/// The metric families of the energy counters.
#[derive(Clone, Copy, Debug)]
pub struct RaplPrometheusMetrics;

impl RaplPrometheusMetrics {
    /// The families to be registered.
    pub fn register() -> (families: Vec<MetricDescriptor>)
        ensures
            families@ == self::families(),
    {
        vec![
            MetricDescriptor {
                name: "ocellus_rapl_energy_joules",
                help: "Total RAPL domain energy consumed since exporter start in joules",
            },
            MetricDescriptor {
                name: "ocellus_rapl_power_watts",
                help: "Interval-derived RAPL domain power in watts",
            },
        ]
    }

    /// The counters to be raised and the gauges to be set.
    pub fn update(&self, metrics: &RaplMetrics) -> (updates: RegistryUpdates)
        ensures
            are_updates(*metrics, updates),
    {
        let mut counters: Vec<CounterUpdate> = Vec::new();
        let mut gauges: Vec<GaugeUpdate> = Vec::new();
        let mut i: usize = 0;
        while i < metrics.domains.len()
            invariant
                i <= metrics.domains@.len(),
                counters@.len() == i,
                gauges@.len() == i,
                forall|k: int|
                    0 <= k < i ==> (#[trigger] counters@[k]) == counter_update(metrics.domains@[k]),
                forall|k: int|
                    0 <= k < i ==> (#[trigger] gauges@[k]) == gauge_update(metrics.domains@[k]),
            decreases metrics.domains@.len() - i,
        {
            let domain = &metrics.domains[i];
            let labels = Labels {
                domain: Some(domain.domain.label()),
                ..Labels::die(
                    domain.scope.die_group_id,
                    domain.scope.die_id,
                    domain.scope.package_id,
                )
            };
            counters.push(
                CounterUpdate {
                    family: "ocellus_rapl_energy_joules",
                    labels,
                    total: domain.energy_joules_total,
                },
            );
            gauges.push(
                GaugeUpdate {
                    family: "ocellus_rapl_power_watts",
                    labels,
                    value: domain.power_watts,
                },
            );
            i += 1;
        }
        let updates = RegistryUpdates { counters, gauges };
        assert(updates.counters@ =~= metrics.domains@.map_values(
            |metrics: RaplDomainMetrics| counter_update(metrics),
        ));
        assert(updates.gauges@ =~= metrics.domains@.map_values(
            |metrics: RaplDomainMetrics| gauge_update(metrics),
        ));
        updates
    }
}

/// Every counter that is raised and every metric that is set belongs to a family that is
/// registered.
pub proof fn updates_are_registered(metrics: RaplMetrics, updates: RegistryUpdates)
    requires
        are_updates(metrics, updates),
    ensures
        export::counters_registered(updates.counters@, families()),
        export::all_registered(updates.gauges@, families()),
{
    let descriptors = families();
    assert forall|i: int| 0 <= i < updates.counters@.len() implies export::counter_registered(
        #[trigger] updates.counters@[i],
        descriptors,
    ) by {
        assert(descriptors[0].name == updates.counters@[i].family);
    }
    export::lemma_one_family(updates.gauges@, descriptors, 1);
}

} // verus!
