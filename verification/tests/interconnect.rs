use ocellus::accumulator::{Accumulator, EventMeasurement, Sample};
use ocellus::arch::Architecture;
use ocellus::error::CollectorError;
use ocellus::metrics::interconnect::qpi_common::{
    self, QpiArchitecture, QpiCollector, QpiEventKind, QpiEventMeasurement, QpiEventSpec,
    QpiMeasurementAccumulator, QpiMetrics,
};
use ocellus::metrics::interconnect::upi_common::{
    self, UpiArchitecture, UpiCollector, UpiEventKind, UpiEventMeasurement, UpiEventSpec,
    UpiMeasurementAccumulator, UpiMetrics,
};
use ocellus::metrics::interconnect::{
    data_bytes_per_second, InterconnectCollector, InterconnectDirection, InterconnectInventory,
    InterconnectMetricsView, InterconnectPowerState, InterconnectPrometheusFamilies,
    InterconnectScope, InterconnectTrafficClass,
};
use ocellus::pci::{PciLocation, PciVendorDevice};
use ocellus::quantity::{
    event_rate, ratio_parts, residency_parts, share_parts, EnergyUnit, Quantity, ScaledCount,
};
use ocellus::registers::{Register, RegisterWrite, Width};
use ocellus::sockets::UboxNode;
use ocellus::topology::{CpuTopology, Leader, TopologyLevel, TopologyLevelKind, UncoreScope};
use ocellus::units::SliceReadings;
use std::time::Duration;

fn seconds(nanos: u128) -> f64 {
    Duration::new((nanos / 1_000_000_000) as u64, (nanos % 1_000_000_000) as u32).as_secs_f64()
}

fn scaled(count: ScaledCount) -> u64 {
    if count.running_nanos == 0 {
        0
    } else {
        (count.value as f64 * seconds(count.enabled_nanos) / seconds(count.running_nanos)) as u64
    }
}

fn over(numerator: f64, denominator: f64) -> f64 {
    if denominator == 0.0 {
        0.0
    } else {
        numerator / denominator
    }
}

fn quotient(parts: Option<(u64, u64)>) -> f64 {
    match parts {
        Some((numerator, denominator)) => numerator as f64 / denominator as f64,
        None => 0.0,
    }
}

fn joules(unit: EnergyUnit) -> f64 {
    match unit {
        EnergyUnit::Fraction { exponent } => 1.0 / (1_u64 << exponent) as f64,
        EnergyUnit::ServerDram => 15.3 / 1_000_000.0,
    }
}

fn value(quantity: Quantity) -> f64 {
    match quantity {
        Quantity::Zero => 0.0,
        Quantity::EventRate { count, per_nanos } => over(scaled(count) as f64, seconds(per_nanos)),
        Quantity::ByteRate { count, per_nanos, bytes, events } => {
            over(scaled(count) as f64, seconds(per_nanos)) * (bytes as f64 / events as f64)
        }
        Quantity::Energy { raw, unit } => raw as f64 * joules(unit),
        Quantity::Power { raw, unit, elapsed_nanos } => {
            raw as f64 * joules(unit) / seconds(elapsed_nanos)
        }
        Quantity::Frequency { ticks, running_nanos } => over(ticks as f64, seconds(running_nanos)),
        Quantity::Ratio { numerator, denominator } => over(numerator as f64, denominator as f64),
        Quantity::ScaledRatio { numerator, denominator } => {
            quotient(ratio_parts(scaled(numerator), scaled(denominator)))
        }
        Quantity::ScaledShare { part, rest } => {
            quotient(share_parts(scaled(part), scaled(rest)).expect("sum of counts overflows"))
        }
        Quantity::TickResidency { running_nanos, ticks, occupancy, inserts } => {
            seconds(running_nanos) / ticks as f64 * over(occupancy as f64, inserts as f64)
        }
        Quantity::OccupancyOverRate { occupancy, ticks, inserts, running_nanos } => over(
            over(occupancy as f64, ticks as f64),
            over(inserts as f64, seconds(running_nanos)),
        ),
        Quantity::ScaledResidency { occupancy, excluded, inserts, clockticks, enabled_nanos } => {
            match residency_parts(
                scaled(occupancy),
                scaled(excluded),
                scaled(inserts),
                scaled(clockticks),
            ) {
                Some((left, inserts, ticks)) => {
                    seconds(enabled_nanos) / ticks as f64 * left as f64 / inserts as f64
                }
                None => 0.0,
            }
        }
        Quantity::LinkLatency { occupancy, inserts, clockticks, enabled_nanos } => {
            match residency_parts(scaled(occupancy), 0, scaled(inserts), scaled(clockticks)) {
                Some((occupancy, inserts, ticks)) => {
                    occupancy as f64 / inserts as f64 * seconds(enabled_nanos) / ticks as f64
                }
                None => 0.0,
            }
        }
    }
}

const MILLISECOND: u128 = 1_000_000;
const SECOND: u128 = 1_000_000_000;

const COUNTER_RESET_BIT: u64 = 1 << 17;
const COUNTER_ENABLE_BIT: u64 = 1 << 22;
const COUNTER_EVENT_EXT_BIT: u64 = 1 << 21;
const UNIT_FREEZE_BIT: u64 = 1 << 8;
const UNIT_FREEZE_ENABLE_BIT: u64 = 1 << 16;

fn test_architecture(model: u8) -> Architecture {
    Architecture {
        brand: "test".to_string(),
        family: 6,
        model,
        vendor: "GenuineIntel".to_string(),
    }
}

fn topology(cpu: u32, package_id: u32) -> CpuTopology {
    CpuTopology {
        cpu,
        levels: vec![TopologyLevel { id: package_id, kind: TopologyLevelKind::Package, shift: 0 }],
        x2apic_id: cpu,
    }
}

fn at(bus: u8, device: u8, function: u8) -> PciLocation {
    PciLocation { bus, device, function, group: 0 }
}

fn link(link_id: u32) -> InterconnectScope {
    InterconnectScope { die_group_id: 0, die_id: 0, link_id, package_id: 0 }
}

fn unscaled(count: u64) -> ScaledCount {
    ScaledCount { value: count, enabled_nanos: SECOND, running_nanos: SECOND }
}

#[test]
fn supports_mainline_interconnect_architectures() {
    assert!(InterconnectCollector::is_supported(&test_architecture(0x2d)));
    assert!(InterconnectCollector::is_supported(&test_architecture(0x3e)));
    assert!(InterconnectCollector::is_supported(&test_architecture(0x3f)));
    assert!(InterconnectCollector::is_supported(&test_architecture(0x4f)));
    assert!(!InterconnectCollector::is_supported(&test_architecture(0x56)));
    assert!(!InterconnectCollector::is_supported(&test_architecture(0x57)));
    assert!(InterconnectCollector::is_supported(&test_architecture(0x55)));
    assert!(InterconnectCollector::is_supported(&test_architecture(0x6a)));
    assert!(!InterconnectCollector::is_supported(&test_architecture(0x6c)));
    assert!(InterconnectCollector::is_supported(&test_architecture(0x8f)));
    assert!(InterconnectCollector::is_supported(&test_architecture(0xcf)));
}

#[test]
fn computes_data_bandwidth_from_data_flits() {
    assert_eq!(value(data_bytes_per_second(unscaled(900), (64, 9), SECOND)), 6_400.0);
    assert_eq!(value(data_bytes_per_second(unscaled(800), (8, 1), 2 * SECOND)), 3_200.0);
}

// QPI.

#[test]
fn selects_architecture_device_ids() {
    assert_eq!(QpiArchitecture::Snb.link_device_ids(), [(0x3c41, 0), (0x3c42, 1)]);
    assert_eq!(
        QpiArchitecture::Ivb.link_device_ids(),
        [(0x0e32, 0), (0x0e33, 1), (0x0e3a, 2)]
    );
    assert_eq!(
        QpiArchitecture::Hsx.link_device_ids(),
        [(0x2f32, 0), (0x2f33, 1), (0x2f3a, 2)]
    );
    assert_eq!(
        QpiArchitecture::Bdx.link_device_ids(),
        [(0x6f32, 0), (0x6f33, 1), (0x6f3a, 2)]
    );
}

#[test]
fn sandy_and_ivy_use_g0_rx_group() {
    assert_eq!(QpiArchitecture::Snb.event_groups().len(), 7);
    assert_eq!(QpiArchitecture::Ivb.event_groups().len(), 7);
    assert_eq!(QpiArchitecture::Hsx.event_groups().len(), 6);
    assert_eq!(QpiArchitecture::Bdx.event_groups().len(), 6);
}

#[test]
fn sandy_and_ivy_include_g0_and_extended_rx_flits() {
    for architecture in [QpiArchitecture::Snb, QpiArchitecture::Ivb] {
        assert!(architecture
            .event_groups()
            .iter()
            .flat_map(|group| group.events)
            .any(|event| event.kind == QpiEventKind::RxDataFlits && !event.ext));
        assert!(architecture
            .event_groups()
            .iter()
            .flat_map(|group| group.events)
            .any(|event| event.kind == QpiEventKind::RxDataFlits && event.ext));
    }
}

#[test]
fn haswell_and_broadwell_rx_split_events_use_extended_select() {
    for architecture in [QpiArchitecture::Hsx, QpiArchitecture::Bdx] {
        for event in architecture.event_groups()[3..]
            .iter()
            .flat_map(|group| group.events)
            .filter(|event| event.kind != QpiEventKind::Unused)
        {
            assert!(event.ext);
        }
    }
}

#[test]
fn merged_split_events_sum_rates() {
    let mut measurement =
        QpiEventMeasurement { enabled_nanos: 4 * SECOND, running_nanos: SECOND, value: 10 };

    let counts = measurement.split_counts(20, SECOND);
    measurement.add(scaled(counts.held), scaled(counts.added)).unwrap();

    assert_eq!(value(event_rate(measurement.to_event())), 30.0);
}

#[test]
fn ivy_box_control_drops_freeze_enable_bit() {
    assert_eq!(QpiArchitecture::Ivb.unit_freeze(), UNIT_FREEZE_BIT);
    assert_eq!(QpiArchitecture::Ivb.unit_unfreeze(), 0);
}

#[test]
fn sandy_haswell_broadwell_box_control_keeps_freeze_enable_bit() {
    for architecture in [QpiArchitecture::Snb, QpiArchitecture::Hsx, QpiArchitecture::Bdx] {
        assert_eq!(architecture.unit_freeze(), UNIT_FREEZE_BIT | UNIT_FREEZE_ENABLE_BIT);
        assert_eq!(architecture.unit_unfreeze(), UNIT_FREEZE_ENABLE_BIT);
    }
}

#[test]
fn encodes_counter_control_ext_bit_without_overflow_interrupts() {
    let clockticks = QpiEventSpec::new(QpiEventKind::Clockticks, 0x14, 0x02, false);
    let drs_data = QpiEventSpec::new(QpiEventKind::RxDataFlits, 0x02, 0x08, true);

    assert_eq!(
        qpi_common::counter_control(clockticks),
        0x14 | (0x02 << 8) | (1 << 17) | (1 << 22)
    );
    assert_eq!(
        qpi_common::counter_control(drs_data),
        0x02 | (0x08 << 8) | COUNTER_EVENT_EXT_BIT | (1 << 17) | (1 << 22)
    );
}

fn qpi_sample(
    scope: InterconnectScope,
    kind: QpiEventKind,
    count: u64,
) -> Sample<InterconnectScope, QpiEventKind, EventMeasurement> {
    Sample {
        scope,
        kind,
        measurement: EventMeasurement {
            enabled_nanos: SECOND,
            running_nanos: SECOND,
            ticks: 0,
            value: count,
        },
    }
}

fn qpi_add(
    held: QpiMeasurementAccumulator,
    sample: Sample<InterconnectScope, QpiEventKind, EventMeasurement>,
) -> QpiMeasurementAccumulator {
    let (before, added) = match held.pending(sample) {
        Some(counts) => (scaled(counts.held), scaled(counts.added)),
        None => (0, 0),
    };
    held.add(sample, before, added).unwrap()
}

#[test]
fn derives_link_power_and_queue_metrics() {
    let counts: [(QpiEventKind, u64); 12] = [
        (QpiEventKind::Clockticks, 1_000),
        (QpiEventKind::TxDataFlits, 200),
        (QpiEventKind::TxNonDataFlits, 100),
        (QpiEventKind::RxDataFlits, 300),
        (QpiEventKind::RxNonDataFlits, 150),
        (QpiEventKind::L1PowerCycles, 50),
        (QpiEventKind::TxL0pPowerCycles, 100),
        (QpiEventKind::RxL0pPowerCycles, 200),
        (QpiEventKind::TxQueueInserts, 25),
        (QpiEventKind::TxQueueOccupancy, 250),
        (QpiEventKind::RxQueueInserts, 50),
        (QpiEventKind::RxQueueOccupancy, 100),
    ];
    let mut measurements = QpiMeasurementAccumulator::new();
    for (kind, count) in counts {
        measurements = qpi_add(measurements, qpi_sample(link(1), kind, count));
    }

    let metrics = QpiMetrics::from_measurements(&measurements).unwrap();

    assert_eq!(value(metrics.links[0].frequency_hz), 1_000.0);
    assert_eq!(metrics.traffic[0].bytes_per_second.map(value), Some(1_600.0));
    assert_eq!(metrics.traffic[2].bytes_per_second.map(value), Some(2_400.0));
    assert_eq!(metrics.power_states.len(), 3);
    assert_eq!(metrics.queues.len(), 2);
    assert_eq!(value(metrics.queues[0].occupancy_flits), 0.1);
    assert_eq!(value(metrics.queues[0].latency_seconds), 0.002);
}

#[test]
fn qpi_events_counted_twice_are_merged_by_rate() {
    let scope = link(0);
    let mut measurements = QpiMeasurementAccumulator::new();
    measurements = qpi_add(measurements, qpi_sample(scope, QpiEventKind::RxDataFlits, 10));
    let second = qpi_sample(scope, QpiEventKind::RxDataFlits, 20);
    let pending = measurements.pending(second).unwrap();
    assert_eq!(pending.held.value, 10);
    assert_eq!(pending.added.value, 20);
    assert_eq!(measurements.pending(qpi_sample(link(2), QpiEventKind::RxDataFlits, 5)), None);
    measurements = qpi_add(measurements, second);
    let again = measurements.pending(second).unwrap();
    assert_eq!(scaled(again.held), 30);
}

#[test]
fn qpi_holds_nothing_of_an_unused_counter() {
    let measurements = QpiMeasurementAccumulator::new();
    let unused = qpi_sample(link(0), QpiEventKind::Unused, 5);
    assert_eq!(measurements.pending(unused), None);
    // The counts do not matter, not even where their sum does not fit.
    let measurements = measurements.add(unused, u64::MAX, 1).unwrap();
    assert!(QpiMetrics::from_measurements(&measurements).unwrap().links.is_empty());

    let measurements = qpi_add(measurements, qpi_sample(link(1), QpiEventKind::Clockticks, 9));
    let measurements = qpi_add(measurements, qpi_sample(link(1), QpiEventKind::Unused, 5));
    assert_eq!(measurements.pending(qpi_sample(link(1), QpiEventKind::Unused, 5)), None);
    let again = qpi_sample(link(1), QpiEventKind::Clockticks, 1);
    assert_eq!(measurements.pending(again).unwrap().held.value, 9);
}

#[test]
fn qpi_values_are_added_in_any_order() {
    let sent = qpi_sample(link(0), QpiEventKind::TxDataFlits, 3);
    let received = qpi_sample(link(0), QpiEventKind::RxDataFlits, 4);
    let one = qpi_add(qpi_add(QpiMeasurementAccumulator::new(), sent), received);
    let other = qpi_add(qpi_add(QpiMeasurementAccumulator::new(), received), sent);
    for sample in [sent, received] {
        assert_eq!(one.pending(sample), other.pending(sample));
    }
    assert_eq!(one.pending(sent).unwrap().held.value, 3);
}

#[test]
fn qpi_links_are_frozen_when_they_are_set_up() {
    let probe = |model: u8, nodes: Vec<UboxNode>, devices: Vec<PciVendorDevice>| {
        QpiCollector::new(&test_architecture(model), &vec![topology(0, 0)], &nodes, &devices)
            .unwrap()
            .probe_writes()
    };
    let freeze = |location: PciLocation, value: u64| RegisterWrite {
        register: Register::Pci { location, offset: 0xf4 },
        value,
        width: Width::Bits32,
    };
    assert_eq!(
        probe(0x3f, qpi_nodes(), qpi_devices()),
        vec![freeze(at(0x7f, 8, 2), 0x10100), freeze(at(0x7f, 9, 2), 0x10100)]
    );
    let (device_id, _) = QpiArchitecture::Ivb.link_device_ids()[0];
    let device = PciVendorDevice { device_id, location: at(0x7f, 8, 2) };
    assert_eq!(probe(0x3e, qpi_nodes(), vec![device]), vec![freeze(at(0x7f, 8, 2), 0x100)]);
}

fn qpi_nodes() -> Vec<UboxNode> {
    vec![UboxNode { location: at(0x7f, 16, 5), local_node_word: 0, node_mapping: 0 }]
}

fn qpi_devices() -> Vec<PciVendorDevice> {
    vec![
        PciVendorDevice { device_id: 0x2f33, location: at(0x7f, 9, 2) },
        PciVendorDevice { device_id: 0x2f32, location: at(0x7f, 8, 2) },
    ]
}

#[test]
fn qpi_links_are_found_in_order() {
    let collector = QpiCollector::new(
        &test_architecture(0x3f),
        &vec![topology(0, 0)],
        &qpi_nodes(),
        &qpi_devices(),
    )
    .unwrap();
    let group = QpiArchitecture::Hsx.event_groups()[0];
    let count: usize = collector.reads().len();
    let readings = SliceReadings {
        values: vec![7; count],
        enabled_nanos: SECOND,
        running_nanos: 100 * MILLISECOND,
    };
    let samples = collector.samples(group, &readings).unwrap();

    assert_eq!(samples[0].scope.link_id, 0);
    assert_eq!(samples[samples.len() - 1].scope.link_id, 1);
    assert_eq!(samples[0].measurement.value, 7);
    assert_eq!(
        collector.freeze_writes()[0].register,
        Register::Pci { location: at(0x7f, 8, 2), offset: qpi_common::UNIT_CONTROL }
    );
    assert!(matches!(collector.begin_sample(0), Err(CollectorError::ZeroInterval { .. })));
    assert!(matches!(
        QpiCollector::new(&test_architecture(0x55), &Vec::new(), &Vec::new(), &Vec::new()),
        Err(CollectorError::Unsupported { .. })
    ));
}

#[test]
fn qpi_links_that_cannot_be_placed_are_refused() {
    let stray = vec![PciVendorDevice { device_id: 0x2f32, location: at(0x10, 8, 2) }];
    let found = QpiCollector::new(
        &test_architecture(0x3f),
        &vec![topology(0, 0), topology(1, 1)],
        &vec![
            qpi_nodes()[0],
            UboxNode { location: at(0xff, 16, 5), local_node_word: 1, node_mapping: 0b001_000 },
        ],
        &stray,
    );
    assert!(matches!(found, Err(CollectorError::UnmappedLink { .. })));
    assert!(matches!(
        QpiCollector::new(
            &test_architecture(0x3f),
            &vec![topology(0, 0)],
            &qpi_nodes(),
            &Vec::new(),
        ),
        Err(CollectorError::NoneDiscovered { units: "QPI links", .. })
    ));
    assert!(matches!(
        QpiCollector::new(&test_architecture(0x3f), &Vec::new(), &Vec::new(), &qpi_devices()),
        Err(CollectorError::NothingFound { what: "QPI CPU package scopes" })
    ));
    let stranger = UboxNode { local_node_word: 5, ..qpi_nodes()[0] };
    assert!(matches!(
        QpiCollector::new(
            &test_architecture(0x3f),
            &vec![topology(0, 0)],
            &vec![stranger],
            &qpi_devices(),
        ),
        Err(CollectorError::UnmappedNode { local_node_id: 5, node_mapping: 0, .. })
    ));
}

#[test]
fn qpi_links_without_nodes_are_placed_by_the_order_of_their_buses() {
    let devices = vec![
        PciVendorDevice { device_id: 0x2f32, location: at(0xff, 8, 2) },
        PciVendorDevice { device_id: 0x2f32, location: at(0x7f, 8, 2) },
    ];
    let scopes: Vec<UncoreScope> = vec![
        UncoreScope { die_group_id: 0, die_id: 0, package_id: 3 },
        UncoreScope { die_group_id: 0, die_id: 0, package_id: 4 },
    ];
    let links =
        qpi_common::discover_links(QpiArchitecture::Hsx, &scopes, &Vec::new(), &devices).unwrap();
    let found: Vec<(u8, u32)> =
        links.iter().map(|link| (link.location.bus, link.scope.package_id)).collect();
    assert_eq!(found, vec![(0x7f, 3), (0xff, 4)]);
}

#[test]
fn qpi_sample_over_every_group_is_reported() {
    let mut collector = QpiCollector::new(
        &test_architecture(0x3f),
        &vec![topology(0, 0)],
        &qpi_nodes(),
        &qpi_devices(),
    )
    .unwrap();
    let mut measurements = QpiMeasurementAccumulator::new();
    let slices = collector.begin_sample(600 * MILLISECOND).unwrap();
    for slice in slices {
        let count: usize = collector.reads().len();
        let readings = SliceReadings {
            values: vec![600; count],
            enabled_nanos: 600 * MILLISECOND,
            running_nanos: 100 * MILLISECOND,
        };
        for sample in collector.samples(slice.group, &readings).unwrap() {
            measurements = qpi_add(measurements, sample);
        }
    }
    let metrics = collector.finish_sample(&measurements).unwrap();
    assert_eq!(metrics.links.len(), 2);
    assert_eq!(value(metrics.links[0].frequency_hz), 6_000.0);
}

// UPI.

#[test]
fn selects_architecture_register_maps() {
    assert_eq!(UpiArchitecture::Skx.device_id(), 0x2058);
    assert_eq!(UpiArchitecture::Skx.box_control_base(), 0x378);
    assert_eq!(UpiArchitecture::Icx.device_id(), 0x3441);
    assert_eq!(UpiArchitecture::Icx.box_control_base(), 0x318);
    assert_eq!(UpiArchitecture::Spr.device_id(), 0x3241);
    assert_eq!(UpiArchitecture::Emr.device_id(), 0x3241);
}

#[test]
fn all_upi_architectures_use_offs8_control_stride() {
    for architecture in [
        UpiArchitecture::Skx,
        UpiArchitecture::Icx,
        UpiArchitecture::Spr,
        UpiArchitecture::Emr,
    ] {
        assert_eq!(architecture.control_stride(), 8);
    }
}

fn counts_event(architecture: UpiArchitecture, kind: UpiEventKind) -> bool {
    architecture
        .event_groups()
        .iter()
        .flat_map(|group| group.events)
        .any(|event| event.kind == kind)
}

#[test]
fn skx_public_events_include_rx_and_tx_l0p() {
    assert!(counts_event(UpiArchitecture::Skx, UpiEventKind::RxL0pPowerCycles));
    assert!(counts_event(UpiArchitecture::Skx, UpiEventKind::TxL0pPowerCycles));
}

#[test]
fn icx_public_events_include_only_tx_l0p() {
    assert!(!counts_event(UpiArchitecture::Icx, UpiEventKind::RxL0pPowerCycles));
    assert!(counts_event(UpiArchitecture::Icx, UpiEventKind::TxL0pPowerCycles));
}

#[test]
fn spr_and_emr_use_only_public_non_experimental_power_events() {
    for architecture in [UpiArchitecture::Spr, UpiArchitecture::Emr] {
        assert!(!counts_event(architecture, UpiEventKind::RxL0pPowerCycles));
        assert!(!counts_event(architecture, UpiEventKind::TxL0pPowerCycles));
    }
}

#[test]
fn encodes_legacy_and_generic_counter_controls() {
    let event = UpiEventSpec::new(UpiEventKind::TxDataFlits, 0x02, 0x0f);
    assert_eq!(
        upi_common::counter_control(UpiArchitecture::Skx, event),
        0x02 | (0x0f << 8) | COUNTER_RESET_BIT | COUNTER_ENABLE_BIT
    );
    assert_eq!(
        upi_common::counter_control(UpiArchitecture::Spr, event),
        0x02 | (0x0f << 8)
    );
}

fn upi_measurements(counts: &[(UpiEventKind, u64)]) -> UpiMeasurementAccumulator {
    let mut measurements: UpiMeasurementAccumulator = Accumulator::new();
    for (kind, count) in counts {
        measurements = measurements
            .add(Sample {
                scope: link(0),
                kind: *kind,
                measurement: UpiEventMeasurement {
                    enabled_nanos: SECOND,
                    running_nanos: SECOND,
                    value: *count,
                },
            })
            .unwrap();
    }
    measurements
}

#[test]
fn derives_upi_metrics() {
    let measurements = upi_measurements(&[
        (UpiEventKind::Clockticks, 1_000),
        (UpiEventKind::TxDataFlits, 900),
        (UpiEventKind::TxNonDataFlits, 100),
        (UpiEventKind::RxDataFlits, 450),
        (UpiEventKind::RxNonDataFlits, 50),
        (UpiEventKind::L1PowerCycles, 25),
        (UpiEventKind::TxL0pPowerCycles, 100),
        (UpiEventKind::RxL0pPowerCycles, 200),
    ]);

    let metrics = UpiMetrics::from_measurements(&measurements).unwrap();

    assert_eq!(value(metrics.links[0].frequency_hz), 1_000.0);
    assert_eq!(metrics.traffic[0].bytes_per_second.map(value), Some(6_400.0));
    assert_eq!(metrics.traffic[2].bytes_per_second.map(value), Some(3_200.0));
    assert_eq!(metrics.power_states.len(), 3);
}

#[test]
fn upi_needs_every_public_count() {
    assert!(matches!(
        UpiMetrics::from_measurements(&upi_measurements(&[(UpiEventKind::Clockticks, 1_000)])),
        Err(CollectorError::MissingMeasurement { .. })
    ));
}

#[test]
fn upi_holds_nothing_of_an_unused_counter() {
    let unused = upi_measurements(&[(UpiEventKind::Unused, 5)]);
    assert_eq!(unused.len(), 0);
    assert!(!unused.has_scope(link(0)));
    assert!(UpiMetrics::from_measurements(&unused).unwrap().links.is_empty());

    let held = upi_measurements(&[(UpiEventKind::Clockticks, 9), (UpiEventKind::Unused, 5)]);
    assert_eq!(held.get(link(0), UpiEventKind::Unused), None);
    assert_eq!(held.get(link(0), UpiEventKind::Clockticks).unwrap().value, 9);
}

#[test]
fn upi_links_are_frozen_when_they_are_set_up() {
    let probe = |model: u8, device_id: u16, device: u8, function: u8| {
        UpiCollector::new(
            &test_architecture(model),
            &vec![topology(0, 0)],
            &Vec::new(),
            &vec![PciVendorDevice { device_id, location: at(0x5d, device, function) }],
        )
        .unwrap()
        .probe_writes()
    };
    let freeze = |device: u8, function: u8, offset: u64, value: u64| {
        vec![RegisterWrite {
            register: Register::Pci { location: at(0x5d, device, function), offset },
            value,
            width: Width::Bits32,
        }]
    };
    assert_eq!(probe(0x55, 0x2058, 14, 0), freeze(14, 0, 0x378, 0x100));
    assert_eq!(probe(0x6a, 0x3441, 2, 1), freeze(2, 1, 0x318, 0x100));
    assert_eq!(probe(0x8f, 0x3241, 1, 1), freeze(1, 1, 0x318, 0x1));
    assert_eq!(probe(0xcf, 0x3241, 1, 1), freeze(1, 1, 0x318, 0x1));
}

fn leaders() -> Vec<Leader<UncoreScope>> {
    vec![
        Leader { cpu: 0, scope: UncoreScope { die_group_id: 0, die_id: 0, package_id: 0 } },
        Leader { cpu: 8, scope: UncoreScope { die_group_id: 0, die_id: 0, package_id: 1 } },
    ]
}

fn upi_devices() -> Vec<PciVendorDevice> {
    vec![
        PciVendorDevice { device_id: 0x2058, location: at(0xae, 15, 0) },
        PciVendorDevice { device_id: 0x2058, location: at(0xae, 14, 0) },
        PciVendorDevice { device_id: 0x2058, location: at(0x5d, 14, 0) },
        PciVendorDevice { device_id: 0x2058, location: at(0x5d, 9, 0) },
    ]
}

#[test]
fn upi_links_are_found_at_their_addresses() {
    let links = upi_common::discover_links(
        UpiArchitecture::Skx,
        &leaders(),
        &Vec::new(),
        &upi_devices(),
    )
    .unwrap();
    let found: Vec<(u8, u8, u32, u32)> = links
        .iter()
        .map(|link| {
            (
                link.location.bus,
                link.location.device,
                link.scope.package_id,
                link.scope.link_id,
            )
        })
        .collect();

    // Nothing is known of the function 9.0.
    assert_eq!(found, vec![(0x5d, 14, 0, 0), (0xae, 14, 1, 0), (0xae, 15, 1, 1)]);
}

#[test]
fn upi_buses_are_one_for_each_die() {
    let node = |bus: u8, local_node_word: u32| UboxNode {
        location: at(bus, 8, 0),
        local_node_word,
        node_mapping: 0b001_000,
    };
    // The second package comes first, and the first one is told twice.
    let nodes = vec![node(0x9e, 1), node(0x7e, 0), node(0x5e, 0)];
    let buses =
        upi_common::upi_bus_scopes(UpiArchitecture::Icx, &leaders(), &nodes, &Vec::new()).unwrap();
    let found: Vec<(u8, u32)> =
        buses.iter().map(|bus_scope| (bus_scope.bus.bus, bus_scope.scope.package_id)).collect();
    assert_eq!(found, vec![(0x5e, 0), (0x9e, 1)]);
}

#[test]
fn qpi_buses_are_one_for_each_package() {
    let node = |bus: u8, local_node_word: u32| UboxNode {
        location: at(bus, 16, 5),
        local_node_word,
        node_mapping: 0b001_000,
    };
    // Of two buses of a package the one that is told first is taken.
    let nodes = vec![node(0xff, 1), node(0x7f, 0), node(0x3f, 0)];
    let buses = qpi_common::package_bus_scopes(
        QpiArchitecture::Hsx,
        &Vec::new(),
        &nodes,
        &Vec::new(),
    )
    .unwrap();
    let found: Vec<(u8, u32)> =
        buses.iter().map(|bus_scope| (bus_scope.bus.bus, bus_scope.scope.package_id)).collect();
    assert_eq!(found, vec![(0x7f, 0), (0xff, 1)]);
}

#[test]
fn upi_links_that_cannot_be_placed_are_refused() {
    let node = |local_node_word: u32, node_mapping: u32| UboxNode {
        location: at(0x5d, 8, 0),
        local_node_word,
        node_mapping,
    };
    let place = |nodes: Vec<UboxNode>, devices: Vec<PciVendorDevice>| {
        upi_common::discover_links(UpiArchitecture::Icx, &leaders(), &nodes, &devices)
    };
    assert!(matches!(
        place(vec![node(7, 0)], Vec::new()),
        Err(CollectorError::UnmappedNode { local_node_id: 7, .. })
    ));
    // Node 5 is the socket with the logical number 2, of which there is no processor.
    assert!(matches!(
        place(vec![node(5, 0b101_001_000)], Vec::new()),
        Err(CollectorError::UnmappedLogicalId { logical_id: 2, .. })
    ));
    assert!(matches!(
        place(Vec::new(), Vec::new()),
        Err(CollectorError::NoneDiscovered { units: "UPI package buses", .. })
    ));
    assert!(matches!(
        place(vec![node(1, 0b001_000)], upi_devices()),
        Err(CollectorError::NoneDiscovered { family: "Ice Lake Xeon", units: "UPI links" })
    ));
    // A processor without such sockets does not read them.
    assert!(upi_common::discover_links(
        UpiArchitecture::Skx,
        &leaders(),
        &vec![node(7, 0)],
        &upi_devices(),
    )
    .is_ok());
}

#[test]
fn interconnect_labels() {
    assert_eq!(InterconnectDirection::Rx.label(), "rx");
    assert_eq!(InterconnectDirection::Tx.label(), "tx");
    assert_eq!(InterconnectTrafficClass::Data.label(), "data");
    assert_eq!(InterconnectTrafficClass::NonData.label(), "non_data");
    assert_eq!(InterconnectPowerState::L0p.label(), "l0p");
    assert_eq!(InterconnectPowerState::L1.label(), "l1");
}

#[test]
fn interconnect_updates_belong_to_registered_families() {
    let report = UpiMetrics::from_measurements(&upi_measurements(&[
        (UpiEventKind::Clockticks, 1_000),
        (UpiEventKind::TxDataFlits, 900),
        (UpiEventKind::TxNonDataFlits, 100),
        (UpiEventKind::RxDataFlits, 450),
        (UpiEventKind::RxNonDataFlits, 50),
        (UpiEventKind::L1PowerCycles, 25),
    ]))
    .unwrap();
    let view = InterconnectMetricsView {
        links: report.links,
        power_states: report.power_states,
        queues: Vec::new(),
        traffic: report.traffic,
    };
    let families = InterconnectPrometheusFamilies::register();
    let updates = InterconnectPrometheusFamilies.update(&view);

    assert!(!updates.is_empty());
    for update in updates {
        assert!(families.iter().any(|family| family.name == update.family));
        assert_eq!(update.labels.link, Some(0));
    }
}

fn inventory(devices: Vec<PciVendorDevice>) -> InterconnectInventory {
    InterconnectInventory { devices, nodes: qpi_nodes(), topologies: vec![topology(0, 0)] }
}

#[test]
fn interconnect_collector_is_that_of_the_processor() {
    assert!(matches!(
        InterconnectCollector::new(&test_architecture(0x3f), &inventory(qpi_devices())),
        Ok(InterconnectCollector::Hsx(_))
    ));
    assert!(matches!(
        InterconnectCollector::new(&test_architecture(0x56), &inventory(Vec::new())),
        Err(CollectorError::Unsupported { .. })
    ));
    assert!(matches!(
        InterconnectCollector::new(&test_architecture(0x6a), &inventory(Vec::new())),
        Err(CollectorError::NoneDiscovered { units: "UPI links", .. })
    ));
    assert!(matches!(
        UpiCollector::new(&test_architecture(0x3f), &Vec::new(), &Vec::new(), &Vec::new()),
        Err(CollectorError::Unsupported { .. })
    ));
}
