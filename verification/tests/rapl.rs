use ocellus::error::CollectorError;
use ocellus::metrics::rapl::{
    available_domains, domain_specs, energy_unit_joules, rapl_leaders, unit_reads,
    update_total_energy, wrapping_delta, RaplCollector, RaplDomainKey, RaplDomainKind,
    RaplMetrics, RaplPrometheusMetrics, RaplReading, RaplScope, RaplTotals,
};
use ocellus::quantity::{
    ratio_parts, residency_parts, share_parts, EnergyUnit, Quantity, ScaledCount,
};
use ocellus::registers::Register;
use ocellus::topology::{CpuTopology, Leader, TopologyLevel, TopologyLevelKind};
use std::time::Duration;

fn seconds(nanos: u128) -> f64 {
    Duration::new((nanos / 1_000_000_000) as u64, (nanos % 1_000_000_000) as u32).as_secs_f64()
}

fn scaled(count: ScaledCount) -> u64 {
    if count.running_nanos == 0 {
        0
    } else {
        (count.value as f64 * seconds(count.enabled_nanos) / seconds(count.running_nanos)) as u64
    }
}

fn over(numerator: f64, denominator: f64) -> f64 {
    if denominator == 0.0 {
        0.0
    } else {
        numerator / denominator
    }
}

fn quotient(parts: Option<(u64, u64)>) -> f64 {
    match parts {
        Some((numerator, denominator)) => numerator as f64 / denominator as f64,
        None => 0.0,
    }
}

fn joules(unit: EnergyUnit) -> f64 {
    match unit {
        EnergyUnit::Fraction { exponent } => 1.0 / (1_u64 << exponent) as f64,
        EnergyUnit::ServerDram => 15.3 / 1_000_000.0,
    }
}

fn value(quantity: Quantity) -> f64 {
    match quantity {
        Quantity::Zero => 0.0,
        Quantity::EventRate { count, per_nanos } => over(scaled(count) as f64, seconds(per_nanos)),
        Quantity::ByteRate { count, per_nanos, bytes, events } => {
            over(scaled(count) as f64, seconds(per_nanos)) * (bytes as f64 / events as f64)
        }
        Quantity::Energy { raw, unit } => raw as f64 * joules(unit),
        Quantity::Power { raw, unit, elapsed_nanos } => {
            raw as f64 * joules(unit) / seconds(elapsed_nanos)
        }
        Quantity::Frequency { ticks, running_nanos } => over(ticks as f64, seconds(running_nanos)),
        Quantity::Ratio { numerator, denominator } => over(numerator as f64, denominator as f64),
        Quantity::ScaledRatio { numerator, denominator } => {
            quotient(ratio_parts(scaled(numerator), scaled(denominator)))
        }
        Quantity::ScaledShare { part, rest } => {
            quotient(share_parts(scaled(part), scaled(rest)).expect("sum of counts overflows"))
        }
        Quantity::TickResidency { running_nanos, ticks, occupancy, inserts } => {
            seconds(running_nanos) / ticks as f64 * over(occupancy as f64, inserts as f64)
        }
        Quantity::OccupancyOverRate { occupancy, ticks, inserts, running_nanos } => over(
            over(occupancy as f64, ticks as f64),
            over(inserts as f64, seconds(running_nanos)),
        ),
        Quantity::ScaledResidency { occupancy, excluded, inserts, clockticks, enabled_nanos } => {
            match residency_parts(
                scaled(occupancy),
                scaled(excluded),
                scaled(inserts),
                scaled(clockticks),
            ) {
                Some((left, inserts, ticks)) => {
                    seconds(enabled_nanos) / ticks as f64 * left as f64 / inserts as f64
                }
                None => 0.0,
            }
        }
        Quantity::LinkLatency { occupancy, inserts, clockticks, enabled_nanos } => {
            match residency_parts(scaled(occupancy), 0, scaled(inserts), scaled(clockticks)) {
                Some((occupancy, inserts, ticks)) => {
                    occupancy as f64 / inserts as f64 * seconds(enabled_nanos) / ticks as f64
                }
                None => 0.0,
            }
        }
    }
}

const SECOND: u128 = 1_000_000_000;

// Steps of half a joule.
const HALF: EnergyUnit = EnergyUnit::Fraction { exponent: 1 };

fn domain_key(domain: RaplDomainKind, package_id: u32, die_id: u32) -> RaplDomainKey {
    RaplDomainKey { domain, scope: RaplScope { die_group_id: 0, die_id, package_id } }
}

#[test]
fn computes_energy_unit_from_rapl_power_unit() {
    let rapl_power_unit: u64 = 14_u64 << 8;

    assert_eq!(joules(energy_unit_joules(rapl_power_unit)), 1.0 / 16384.0);
}

#[test]
fn defines_package_and_dram_domains() {
    assert_eq!(domain_specs().len(), 2);
}

#[test]
fn computes_wrapping_energy_delta() {
    assert_eq!(wrapping_delta(u64::from(u32::MAX) - 4, 10), 15);
}

fn total_after(totals: &mut RaplTotals, key: RaplDomainKey, half_joules: u64) -> f64 {
    value(Quantity::Energy { raw: update_total_energy(totals, key, half_joules), unit: HALF })
}

#[test]
fn accumulates_total_energy_by_scope() {
    let mut totals = RaplTotals::new();

    // 1.5, 2, 4 and 8 joules.
    let package = domain_key(RaplDomainKind::Package, 0, 0);
    assert_eq!(total_after(&mut totals, package, 3), 1.5);
    assert_eq!(total_after(&mut totals, package, 4), 3.5);
    assert_eq!(total_after(&mut totals, domain_key(RaplDomainKind::Dram, 0, 0), 8), 4.0);
    assert_eq!(total_after(&mut totals, domain_key(RaplDomainKind::Package, 0, 1), 16), 8.0);
}

#[test]
fn keeps_die_groups_distinct() {
    let scope = RaplScope { die_group_id: 2, die_id: 0, package_id: 0 };

    assert_ne!(scope, domain_key(RaplDomainKind::Package, 0, 0).scope);
}

fn topology(cpu: u32, package_id: u32) -> CpuTopology {
    CpuTopology {
        cpu,
        levels: vec![TopologyLevel { id: package_id, kind: TopologyLevelKind::Package, shift: 0 }],
        x2apic_id: cpu,
    }
}

fn leaders() -> Vec<Leader<RaplScope>> {
    rapl_leaders(&vec![topology(0, 0), topology(1, 0), topology(4, 1)]).unwrap()
}

#[test]
fn each_package_has_one_leader() {
    let leaders = leaders();

    assert_eq!(leaders.len(), 2);
    assert_eq!(leaders[0].cpu, 0);
    assert_eq!(leaders[1].cpu, 4);
    let reads = unit_reads(&leaders);
    assert_eq!(reads[0].register, Register::Msr { address: 0x606, cpu: 0 });
    assert_eq!(reads[1].register, Register::Msr { address: 0x606, cpu: 4 });
}

#[test]
fn dram_energy_has_a_fixed_unit_on_some_servers() {
    let fixed = available_domains(leaders()[0], 14 << 8, true);
    let plain = available_domains(leaders()[0], 14 << 8, false);
    let unit = |domains: &Vec<ocellus::metrics::rapl::RaplDomain>, kind: RaplDomainKind| {
        domains.iter().find(|domain| domain.key.domain == kind).unwrap().energy_unit
    };

    assert_eq!(unit(&fixed, RaplDomainKind::Dram), EnergyUnit::ServerDram);
    assert_eq!(unit(&fixed, RaplDomainKind::Package), EnergyUnit::Fraction { exponent: 14 });
    assert_eq!(unit(&plain, RaplDomainKind::Dram), EnergyUnit::Fraction { exponent: 14 });
    assert_eq!(joules(EnergyUnit::ServerDram), 0.0000153);
}

#[test]
fn rapl_reports_power_between_two_readings() {
    let mut collector = RaplCollector::new(&leaders(), &vec![1 << 8, 1 << 8], false).unwrap();

    assert_eq!(collector.reads().len(), 4);
    assert!(collector.sample(SECOND, &vec![0, 0, 0, u64::from(u32::MAX)]).unwrap().is_none());
    let metrics = collector.sample(3 * SECOND, &vec![40, 8, 4, 1]).unwrap().unwrap();
    assert_eq!(metrics.domains.len(), 4);
    // 40 half joules in two seconds.
    assert_eq!(value(metrics.domains[0].power_watts), 10.0);
    assert_eq!(value(metrics.domains[0].energy_joules_total), 20.0);
    // The counter went round: 2 half joules.
    assert_eq!(value(metrics.domains[3].power_watts), 0.5);
    let metrics = collector.sample(4 * SECOND, &vec![60, 8, 4, 1]).unwrap().unwrap();
    assert_eq!(value(metrics.domains[0].energy_joules_total), 30.0);
    assert_eq!(value(metrics.domains[1].power_watts), 0.0);
}

#[test]
fn rapl_refuses_readings_that_do_not_follow() {
    let mut collector = RaplCollector::new(&leaders(), &vec![1 << 8, 1 << 8], false).unwrap();
    collector.sample(2 * SECOND, &vec![0, 0, 0, 0]).unwrap();
    assert!(matches!(
        collector.sample(SECOND, &vec![0, 0, 0, 0]),
        Err(CollectorError::TimestampBackwards)
    ));

    let mut collector = RaplCollector::new(&leaders(), &vec![1 << 8, 1 << 8], false).unwrap();
    collector.sample(SECOND, &vec![0, 0, 0, 0]).unwrap();
    assert!(matches!(
        collector.sample(SECOND, &vec![0, 0, 0, 0]),
        Err(CollectorError::NoElapsedTime)
    ));

    let domains = available_domains(leaders()[0], 1 << 8, false);
    let full = RaplReading { at_nanos: 0, energy_raw: vec![0, 0] };
    let short = RaplReading { at_nanos: SECOND, energy_raw: vec![0] };
    assert!(matches!(
        RaplMetrics::from_readings(&domains, &full, &short, &mut RaplTotals::new()),
        Err(CollectorError::DomainCount)
    ));
    assert!(matches!(
        RaplCollector::new(&Vec::new(), &Vec::new(), false),
        Err(CollectorError::NoPackages)
    ));
}

#[test]
fn rapl_updates_a_counter_and_a_gauge_for_each_domain() {
    let mut collector = RaplCollector::new(&leaders(), &vec![1 << 8, 1 << 8], false).unwrap();
    collector.sample(SECOND, &vec![0, 0, 0, 0]).unwrap();
    let metrics = collector.sample(2 * SECOND, &vec![2, 4, 6, 8]).unwrap().unwrap();
    let families = RaplPrometheusMetrics::register();
    let updates = RaplPrometheusMetrics.update(&metrics);

    assert_eq!(families[0].name, "ocellus_rapl_energy_joules");
    assert_eq!(families[1].name, "ocellus_rapl_power_watts");
    assert_eq!(updates.counters.len(), 4);
    assert_eq!(updates.gauges.len(), 4);
    assert_eq!(updates.counters[0].family, "ocellus_rapl_energy_joules");
    assert_eq!(value(updates.counters[0].total), 1.0);
    assert_eq!(updates.gauges[0].family, "ocellus_rapl_power_watts");
    assert_eq!(updates.gauges[0].labels.domain, Some(RaplDomainKind::Package.label()));
    assert_eq!(updates.gauges[3].labels.package, Some(1));
    assert_eq!(updates.gauges[3].labels.domain, Some(RaplDomainKind::Dram.label()));
}
