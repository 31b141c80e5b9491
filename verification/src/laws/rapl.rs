//! What is said of the energy that packages and their memory consume.
use crate::error::CollectorError;
use crate::export::{Labels, RegistryUpdates};
use crate::laws::labels;
use crate::laws::value;
use crate::metrics::rapl::{
    self, RaplCollector, RaplDomain, RaplDomainKey, RaplDomainKind, RaplDomainMetrics, RaplMetrics,
    RaplReading, RaplScope,
};
use crate::quantity::EnergyUnit;
use crate::registers::{Register, RegisterRead, Width};
use crate::topology::Leader;
use vstd::prelude::*;

verus! {

/// Whether a domain is one that a leader has: the register of its energy counter is that of its
/// kind, it is read on the processor of the leader, and its unit is the one that the leader's
/// register with the units tells, but for memory with a unit of its own.
pub open spec fn is_domain(
    domain: RaplDomain,
    leader: Leader<RaplScope>,
    power_unit: u64,
    fixed_dram_unit: bool,
) -> bool {
    &&& domain.key.scope == leader.scope
    &&& domain.cpu == leader.cpu
    &&& match domain.key.domain {
        RaplDomainKind::Package => {
            &&& domain.status_msr == 0x611
            &&& tells_unit(domain.energy_unit, power_unit)
        },
        RaplDomainKind::Dram => {
            &&& domain.status_msr == 0x619
            &&& fixed_dram_unit ==> domain.energy_unit == EnergyUnit::ServerDram
            &&& !fixed_dram_unit ==> tells_unit(domain.energy_unit, power_unit)
        },
    }
}

/// Whether a unit is the one in bits 8 to 12 of the register with the units.
pub open spec fn tells_unit(unit: EnergyUnit, power_unit: u64) -> bool {
    unit matches EnergyUnit::Fraction { exponent } && exponent == (power_unit % 0x2000) / 0x100
}

proof fn lemma_unit(power_unit: u64)
    ensures
        tells_unit(rapl::unit_of(power_unit), power_unit),
{
    assert(power_unit / 0x100 % 0x20 == (power_unit % 0x2000) / 0x100);
}

proof fn lemma_domain(
    leaders: Seq<Leader<RaplScope>>,
    power_units: Seq<u64>,
    fixed_dram_unit: bool,
    n: nat,
    l: int,
)
    requires
        0 <= l < n <= leaders.len(),
    ensures
        ({
            let domains = rapl::all_domains(leaders, power_units, fixed_dram_unit, n);
            &&& domains.len() == 2 * n
            &&& is_domain(domains[2 * l], leaders[l], power_units[l], fixed_dram_unit)
            &&& is_domain(domains[2 * l + 1], leaders[l], power_units[l], fixed_dram_unit)
            &&& domains[2 * l].key.domain == RaplDomainKind::Package
            &&& domains[2 * l + 1].key.domain == RaplDomainKind::Dram
        }),
    decreases n,
{
    let before = rapl::all_domains(leaders, power_units, fixed_dram_unit, (n - 1) as nat);
    let all = rapl::all_domains(leaders, power_units, fixed_dram_unit, n);
    let last = rapl::domains_of(leaders[n - 1], power_units[n - 1], fixed_dram_unit);
    assert(last.len() == 2);
    lemma_unit(power_units[n - 1]);
    if n > 1 {
        lemma_domain(leaders, power_units, fixed_dram_unit, (n - 1) as nat, if l < n - 1 {
            l
        } else {
            0
        });
    } else {
        assert(before.len() == 0);
    }
    if l < n - 1 {
        assert(all[2 * l] == before[2 * l]);
        assert(all[2 * l + 1] == before[2 * l + 1]);
    } else {
        assert(all[2 * l] == last[0]);
        assert(all[2 * l + 1] == last[1]);
    }
}

/// Every domain of a collector is read from the register of its own energy counter, on the
/// processor that leads its scope: register 0x611 counts the package and 0x619 the memory.
pub proof fn domains_are_read_from_their_own_registers(
    leaders: Seq<Leader<RaplScope>>,
    power_units: Seq<u64>,
    fixed_dram_unit: bool,
    collector: RaplCollector,
    reads: Seq<RegisterRead>,
    i: int,
)
    requires
        rapl::created(
            leaders,
            power_units,
            fixed_dram_unit,
            Ok::<RaplCollector, CollectorError>(collector),
        ),
        reads == collector.domains().map_values(|domain: RaplDomain| rapl::domain_read(domain)),
        0 <= i < reads.len(),
    ensures
        collector.domains().len() == 2 * leaders.len(),
        reads.len() == 2 * leaders.len(),
        ({
            let domain = collector.domains()[i];
            let leader = leaders[i / 2];
            &&& reads[i].width == Width::Bits64
            &&& domain.key.scope == leader.scope
            &&& domain.key.domain == RaplDomainKind::Package <==> reads[i].register
                == (Register::Msr { address: 0x611, cpu: leader.cpu })
            &&& domain.key.domain == RaplDomainKind::Dram <==> reads[i].register
                == (Register::Msr { address: 0x619, cpu: leader.cpu })
            &&& is_domain(domain, leader, power_units[i / 2], fixed_dram_unit)
        }),
{
    lemma_domain(leaders, power_units, fixed_dram_unit, leaders.len(), 0);
    let l = i / 2;
    lemma_domain(leaders, power_units, fixed_dram_unit, leaders.len(), l);
    assert(i == 2 * l || i == 2 * l + 1);
    assert(reads[i] == rapl::domain_read(collector.domains()[i]));
}

/// Each scope has one domain for its package and one for its memory, both led by its leader.
pub proof fn every_leader_has_both_domains(
    leaders: Seq<Leader<RaplScope>>,
    power_units: Seq<u64>,
    fixed_dram_unit: bool,
    collector: RaplCollector,
    l: int,
)
    requires
        rapl::created(
            leaders,
            power_units,
            fixed_dram_unit,
            Ok::<RaplCollector, CollectorError>(collector),
        ),
        0 <= l < leaders.len(),
    ensures
        ({
            let package = collector.domains()[2 * l];
            let dram = collector.domains()[2 * l + 1];
            &&& package.key.domain == RaplDomainKind::Package
            &&& dram.key.domain == RaplDomainKind::Dram
            &&& is_domain(package, leaders[l], power_units[l], fixed_dram_unit)
            &&& is_domain(dram, leaders[l], power_units[l], fixed_dram_unit)
        }),
{
    lemma_domain(leaders, power_units, fixed_dram_unit, leaders.len(), l);
}

/// A collector is made exactly where there are leaders and one unit for each; it has no reading
/// yet and has counted nothing.
pub proof fn collector_needs_leaders_and_units(
    leaders: Seq<Leader<RaplScope>>,
    power_units: Seq<u64>,
    fixed_dram_unit: bool,
    result: Result<RaplCollector, CollectorError>,
)
    requires
        rapl::created(leaders, power_units, fixed_dram_unit, result),
    ensures
        result is Ok <==> leaders.len() > 0 && power_units.len() == leaders.len(),
        result matches Ok(collector) ==> collector.previous() is None && collector.totals()
            == Map::<RaplDomainKey, u128>::empty(),
        power_units.len() == leaders.len() && result is Err ==> result->Err_0
            == CollectorError::NoPackages,
{
}

/// The register that pairs with a kind is the same wherever the pair is listed.
pub proof fn each_kind_has_its_register()
    ensures
        rapl::specs().len() == 2,
        forall|i: int|
            0 <= i < rapl::specs().len() ==> {
                let spec = #[trigger] rapl::specs()[i];
                &&& spec.kind == RaplDomainKind::Package <==> spec.status_msr == 0x611
                &&& spec.kind == RaplDomainKind::Dram <==> spec.status_msr == 0x619
            },
        rapl::specs()[0].kind != rapl::specs()[1].kind,
{
}

/// The units of a leader are read from register 0x606, on its processor.
pub proof fn units_are_read_from_their_register(leader: Leader<RaplScope>)
    ensures
        rapl::unit_read(leader).register == (Register::Msr { address: 0x606, cpu: leader.cpu }),
        rapl::unit_read(leader).width == Width::Bits64,
{
}

/// How far an energy counter moved is what leads from the one reading to the other, around 32
/// bits; of a register only these bits count.
pub proof fn consumption_leads_to_the_next_reading(previous: u64, current: u64, value: u64)
    requires
        previous < 0x1_0000_0000,
        current < 0x1_0000_0000,
    ensures
        0 <= rapl::consumed(previous, current) < 0x1_0000_0000,
        (previous + rapl::consumed(previous, current)) % 0x1_0000_0000 == current,
        rapl::energy_value(value) < 0x1_0000_0000,
        exists|turns: int| value == #[trigger] (turns * 0x1_0000_0000) + rapl::energy_value(value),
{
    lemma_consumed(previous, current);
    let turns = value as int / 0x1_0000_0000;
    assert(value == turns * 0x1_0000_0000 + rapl::energy_value(value));
}

proof fn lemma_consumed(previous: u64, current: u64)
    requires
        previous < 0x1_0000_0000,
        current < 0x1_0000_0000,
    ensures
        rapl::consumed(previous, current) == if current >= previous {
            current - previous
        } else {
            current + 0x1_0000_0000 - previous
        },
{
    vstd::arithmetic::power2::lemma2_to64();
}

/// The report on a domain names that domain. Its power is the energy of what its counter moved
/// over the time between the readings; its total is what it consumed before and that.
pub proof fn report_is_made_of_the_domain(
    domains: Seq<RaplDomain>,
    previous: RaplReading,
    current: RaplReading,
    totals: Map<RaplDomainKey, u128>,
    after: Map<RaplDomainKey, u128>,
    metrics: RaplMetrics,
    i: int,
)
    requires
        rapl::reported(
            domains,
            previous,
            current,
            totals,
            after,
            Ok::<RaplMetrics, CollectorError>(metrics),
        ),
        rapl::keys_differ(domains),
        0 <= i < domains.len(),
        previous.energy_raw@[i] < 0x1_0000_0000,
        current.energy_raw@[i] < 0x1_0000_0000,
    ensures
        metrics.domains@.len() == domains.len(),
        ({
            let report = metrics.domains@[i];
            let start = previous.energy_raw@[i];
            let end = current.energy_raw@[i];
            let moved: nat = if end >= start {
                (end - start) as nat
            } else {
                (end + 0x1_0000_0000 - start) as nat
            };
            let energy = value::joules(moved, domains[i].energy_unit);
            let held: nat = if totals.contains_key(domains[i].key) {
                totals[domains[i].key] as nat
            } else {
                0
            };
            let total: nat = if held + moved <= u128::MAX {
                held + moved
            } else {
                u128::MAX as nat
            };
            &&& report.domain == domains[i].key.domain
            &&& report.scope == domains[i].key.scope
            &&& value::is_quotient(
                report.power_watts,
                energy.0 * value::NANOS as nat,
                energy.1 * (current.at_nanos - previous.at_nanos) as nat,
            )
            &&& value::value(report.energy_joules_total) == value::joules(
                total,
                domains[i].energy_unit,
            )
            &&& after.contains_key(domains[i].key) && after[domains[i].key] == total
        }),
{
    let start = previous.energy_raw@;
    let end = current.energy_raw@;
    lemma_consumed(start[i], end[i]);
    rapl::sample_adds_consumption(domains, start, end, totals, (i + 1) as nat, i);
    rapl::sample_adds_consumption(domains, start, end, totals, domains.len(), i);
    lemma_updated(domains, start, end, totals, (i + 1) as nat, i);
    lemma_updated(domains, start, end, totals, domains.len(), i);
}

proof fn lemma_updated(
    domains: Seq<RaplDomain>,
    previous: Seq<u64>,
    current: Seq<u64>,
    totals: Map<RaplDomainKey, u128>,
    n: nat,
    i: int,
)
    requires
        0 <= i < n <= domains.len(),
    ensures
        rapl::totals_after(domains, previous, current, totals, n).contains_key(domains[i].key),
    decreases n,
{
    if i < n - 1 {
        lemma_updated(domains, previous, current, totals, (n - 1) as nat, i);
    }
}

/// There is a report exactly where time went by and both readings have one value for each domain;
/// where there is none, the totals stay.
pub proof fn report_needs_time_and_values(
    domains: Seq<RaplDomain>,
    previous: RaplReading,
    current: RaplReading,
    totals: Map<RaplDomainKey, u128>,
    after: Map<RaplDomainKey, u128>,
    result: Result<RaplMetrics, CollectorError>,
)
    requires
        rapl::reported(domains, previous, current, totals, after, result),
    ensures
        result is Ok <==> previous.at_nanos < current.at_nanos && previous.energy_raw@.len()
            == domains.len() && current.energy_raw@.len() == domains.len(),
        result is Err ==> after == totals,
        current.at_nanos < previous.at_nanos ==> result->Err_0
            == CollectorError::TimestampBackwards,
        current.at_nanos == previous.at_nanos ==> result->Err_0 == CollectorError::NoElapsedTime,
        current.at_nanos > previous.at_nanos && result is Err ==> result->Err_0
            == CollectorError::DomainCount,
{
}

/// The labels of a domain: those of its die, and its name.
pub open spec fn domain_place(metrics: RaplDomainMetrics) -> Labels {
    Labels {
        domain: Some(
            match metrics.domain {
                RaplDomainKind::Package => "package",
                RaplDomainKind::Dram => "dram",
            },
        ),
        ..labels::die_only(
            metrics.scope.die_group_id,
            metrics.scope.die_id,
            metrics.scope.package_id,
        )
    }
}

/// The energy of every domain is handed out as a counter and its power as a gauge, under the name
/// of the domain and of its die.
pub proof fn energy_and_power_are_handed_out(metrics: RaplMetrics, updates: RegistryUpdates)
    requires
        rapl::are_updates(metrics, updates),
    ensures
        updates.counters@.len() == metrics.domains@.len(),
        updates.gauges@.len() == metrics.domains@.len(),
        forall|i: int|
            0 <= i < metrics.domains@.len() ==> {
                let domain = #[trigger] metrics.domains@[i];
                &&& updates.counters@[i].family == "ocellus_rapl_energy_joules"
                &&& updates.counters@[i].labels == domain_place(domain)
                &&& updates.counters@[i].total == domain.energy_joules_total
                &&& updates.gauges@[i].family == "ocellus_rapl_power_watts"
                &&& updates.gauges@[i].labels == domain_place(domain)
                &&& updates.gauges@[i].value == domain.power_watts
            },
{
}

} // verus!
