use ocellus::accumulator::{Accumulator, EventMeasurement, Sample};
use ocellus::export::{GaugeUpdate, MetricDescriptor, RegistryUpdates};
use ocellus::metrics::imc::{self, skx as imc_skx};
use ocellus::metrics::info::{self, InfoValue};
use ocellus::metrics::interconnect::InterconnectPrometheusMetrics;
use ocellus::metrics::irp::{self, hsx as irp_hsx};
use ocellus::metrics::pcu::{self, icx as pcu_icx};
use ocellus::metrics::rapl::{RaplDomainKind, RaplDomainMetrics, RaplMetrics, RaplScope};
use ocellus::metrics::{
    CollectorMetadata, InfoMetadata, MetricUpdate, MetricsRegistry, MetricsState,
    ProcessorMetadata, RegistryOutcome, VERSION,
};
use ocellus::quantity::{EnergyUnit, Quantity};
use ocellus::topology::{HsxUncoreScope, UncoreScope};

fn metadata(model: u8) -> InfoMetadata {
    InfoMetadata {
        collectors: CollectorMetadata {
            cha_supported: true,
            iio_supported: true,
            imc_supported: true,
            irp_supported: true,
            pcu_supported: true,
        },
        processor: ProcessorMetadata {
            brand: "test".to_string(),
            family: 6,
            invariant_tsc_supported: true,
            model,
            package_rapl_supported: true,
            vendor: "GenuineIntel".to_string(),
        },
    }
}

fn rapl(raw: u128) -> RaplMetrics {
    RaplMetrics {
        domains: vec![RaplDomainMetrics {
            domain: RaplDomainKind::Package,
            energy_joules_total: Quantity::Energy {
                raw,
                unit: EnergyUnit::Fraction { exponent: 1 },
            },
            power_watts: Quantity::Zero,
            scope: RaplScope { die_group_id: 0, die_id: 0, package_id: 0 },
        }],
    }
}

fn registered(families: &[MetricDescriptor], updates: &[GaugeUpdate]) -> bool {
    updates.iter().all(|update| families.iter().any(|family| family.name == update.family))
}

fn clock(package_id: u32) -> pcu::PcuMetrics {
    pcu::PcuMetrics::Icx(pcu_icx::IcxPcuMetrics::from_readings(&vec![pcu_icx::IcxPcuReading {
        running_nanos: 1_000_000_000,
        scope: UncoreScope { die_group_id: 0, die_id: 0, package_id },
        ticks: 100,
    }]))
}

#[test]
fn a_report_takes_the_place_of_the_one_before() {
    let mut state: MetricsState<u8, u16, u32> = MetricsState::default();
    assert_eq!(state.version, VERSION);
    assert!(state.cha.is_none());

    state.apply(MetricUpdate::Cha(Box::new(1)));
    state.apply(MetricUpdate::Tsc(Box::new(7)));
    state.apply(MetricUpdate::Cha(Box::new(2)));
    state.apply(MetricUpdate::Rapl(Box::new(rapl(4))));
    state.apply(MetricUpdate::Pcu(Box::new(clock(0))));

    assert_eq!(state.cha, Some(2));
    assert_eq!(state.tsc, Some(7));
    assert_eq!(state.iio, None);
    assert_eq!(state.rapl.as_ref().unwrap().domains.len(), 1);
    assert!(state.pcu.is_some());
    assert!(state.irp.is_none());
    assert!(state.imc.is_none());
    assert!(state.interconnect.is_none());
}

#[test]
fn the_registry_expects_only_what_was_registered() {
    let registry = MetricsRegistry::register(&metadata(0x6a), true, false);
    let cha: MetricUpdate<u8, u16, u32> = MetricUpdate::Cha(Box::new(1));
    let iio: MetricUpdate<u8, u16, u32> = MetricUpdate::Iio(Box::new(1));
    let tsc: MetricUpdate<u8, u16, u32> = MetricUpdate::Tsc(Box::new(1));
    let power: MetricUpdate<u8, u16, u32> = MetricUpdate::Rapl(Box::new(rapl(1)));
    assert!(registry.expects(&cha));
    assert!(!registry.expects(&iio));
    assert!(registry.expects(&tsc));
    assert!(registry.expects(&power));
    assert!(registry.accepts(&power));
    let clocks: MetricUpdate<u8, u16, u32> = MetricUpdate::Pcu(Box::new(clock(0)));
    assert!(registry.accepts(&clocks));
    // The families of a Skylake do not take the clocks of an Ice Lake.
    assert!(!MetricsRegistry::register(&metadata(0x55), true, true).accepts(&clocks));

    let mut plain = metadata(0x6a);
    plain.processor.package_rapl_supported = false;
    let registry = MetricsRegistry::register(&plain, false, false);
    assert!(!registry.expects(&power));
    assert!(!registry.expects(&cha));
}

#[test]
fn the_registry_hands_on_what_it_does_not_hold() {
    let registry = MetricsRegistry::register(&metadata(0x6a), true, true);
    let outcome: RegistryOutcome<u8, u16, u32> =
        registry.update(MetricUpdate::Cha(Box::new(5)));
    assert!(matches!(outcome, RegistryOutcome::Cha(5)));
    let outcome: RegistryOutcome<u8, u16, u32> =
        registry.update(MetricUpdate::Iio(Box::new(6)));
    assert!(matches!(outcome, RegistryOutcome::Iio(6)));
    let outcome: RegistryOutcome<u8, u16, u32> =
        registry.update(MetricUpdate::Tsc(Box::new(7)));
    assert!(matches!(outcome, RegistryOutcome::Tsc(7)));
}

#[test]
fn outcomes_belong_to_registered_families() {
    let registry = MetricsRegistry::register(&metadata(0x6a), true, true);
    let families = registry.descriptors();
    let mut state: MetricsState<u8, u16, u32> = MetricsState::default();
    state.apply(MetricUpdate::Rapl(Box::new(rapl(4))));
    state.apply(MetricUpdate::Pcu(Box::new(clock(1))));
    state.apply(MetricUpdate::Tsc(Box::new(9)));
    assert!(registry.expects_state(&state));
    let outcomes = registry.update_state(state);

    assert_eq!(outcomes.len(), 3);
    for outcome in &outcomes {
        if let RegistryOutcome::Values(RegistryUpdates { counters, gauges }) = outcome {
            assert!(registered(&families, gauges));
            assert!(counters
                .iter()
                .all(|counter| families.iter().any(|family| family.name == counter.family)));
        }
    }
    let clock_update = match &outcomes[0] {
        RegistryOutcome::Values(updates) => updates.gauges[0],
        _ => panic!("expected values"),
    };
    assert_eq!(clock_update.family, "ocellus_pcu_frequency_hz");
    assert_eq!(clock_update.labels.package, Some(1));

    let mut state: MetricsState<u8, u16, u32> = MetricsState::default();
    state.apply(MetricUpdate::Iio(Box::new(1)));
    assert!(!MetricsRegistry::register(&metadata(0x6a), true, false).expects_state(&state));
}

#[test]
fn the_exporter_and_the_processor_are_described() {
    let families = info::register(VERSION.to_string(), metadata(0x55).processor);

    assert_eq!(families.len(), 2);
    assert_eq!(families[0].descriptor.name, "ocellus_info");
    assert_eq!(families[0].labels[0].name, "version");
    assert!(matches!(&families[0].labels[0].value, InfoValue::Text(text) if text == VERSION));
    assert_eq!(families[1].descriptor.name, "processor_info");
    let names: Vec<&str> = families[1].labels.iter().map(|label| label.name).collect();
    assert_eq!(
        names,
        vec![
            "brand",
            "family",
            "invariant_tsc_supported",
            "model",
            "package_rapl_supported",
            "vendor",
        ]
    );
    assert!(matches!(families[1].labels[3].value, InfoValue::Number(0x55)));
    assert!(matches!(families[1].labels[2].value, InfoValue::Flag(true)));
}

// Families of the collectors.

const SCOPE: imc_skx::ImcScope = imc_skx::ImcScope { die_group_id: 1, die_id: 2, package_id: 3 };

fn memory_report() -> imc_skx::ImcMetrics {
    let mut measurements = Accumulator::new();
    for group in imc_skx::event_groups() {
        for event in group.events {
            let measurement =
                EventMeasurement { enabled_nanos: 10, running_nanos: 5, ticks: 2, value: 1 };
            measurements =
                measurements.add(Sample { scope: SCOPE, kind: event.kind, measurement }).unwrap();
        }
    }
    imc_skx::ImcMetrics::from_measurements(&measurements).unwrap()
}

#[test]
fn memory_metrics_are_registered_and_set() {
    let prometheus = imc::ImcPrometheusMetrics::register(&metadata(0x55)).unwrap();
    let families = prometheus.descriptors();
    let report = imc::ImcMetrics::Skx(memory_report());
    let updates = prometheus.update(&report);

    assert!(prometheus.accepts(&report));
    assert_eq!(families.len(), 11);
    assert_eq!(updates.len(), 11);
    assert!(registered(&families, &updates));
    assert_eq!(families[0].name, "ocellus_imc_activate_commands_per_second");
    for update in updates {
        assert_eq!(update.labels.die_group, Some(1));
        assert_eq!(update.labels.die, Some(2));
        assert_eq!(update.labels.package, Some(3));
    }
    // The families of a Haswell do not take the report of a Skylake.
    let other = imc::ImcPrometheusMetrics::register(&metadata(0x3f)).unwrap();
    assert!(!other.accepts(&report));
    assert!(other.update(&report).is_empty());
    assert!(imc::ImcPrometheusMetrics::register(&metadata(0x6a)).is_none());
}

#[test]
fn ring_port_metrics_are_registered_and_set() {
    let prometheus = irp::IrpPrometheusMetrics::register(&metadata(0x4f)).unwrap();
    let mut measurements = Accumulator::new();
    for group in irp_hsx::event_groups() {
        for event in group.events {
            if event.kind != irp_hsx::HsxIrpEventKind::Disabled {
                let measurement =
                    EventMeasurement { enabled_nanos: 10, running_nanos: 5, ticks: 0, value: 1 };
                let scope = HsxUncoreScope { package_id: 4 };
                measurements =
                    measurements.add(Sample { scope, kind: event.kind, measurement }).unwrap();
            }
        }
    }
    let report = irp::IrpMetrics::Hsx(
        irp_hsx::HsxIrpMetrics::from_measurements(&measurements).unwrap(),
    );
    let updates = prometheus.update(&report);

    assert_eq!(updates.len(), 13);
    assert!(registered(&prometheus.descriptors(), &updates));
    assert_eq!(updates[0].labels.package, Some(4));
    assert_eq!(updates[0].labels.die, None);
}

#[test]
fn families_are_registered_for_known_processors() {
    for model in [0x2d, 0x3e, 0x3f, 0x4f, 0x55, 0x6a, 0x8f, 0xcf] {
        assert!(irp::IrpPrometheusMetrics::register(&metadata(model)).is_some());
        assert!(pcu::PcuPrometheusMetrics::register(&metadata(model)).is_some());
        assert!(InterconnectPrometheusMetrics::register(&metadata(model)).is_some());
    }
    assert!(irp::IrpPrometheusMetrics::register(&metadata(0x6c)).is_none());
    assert!(pcu::PcuPrometheusMetrics::register(&metadata(0x56)).is_some());
    assert!(InterconnectPrometheusMetrics::register(&metadata(0x56)).is_none());
}
