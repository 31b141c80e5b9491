use ocellus::accumulator::{Accumulator, EventKind, EventMeasurement, Overflow, Sample};
use ocellus::arch::{Architecture, IntelServerCpuModel};
use ocellus::counter::{mask_counter, Aggregate};
use ocellus::discovery::{
    decode_discovery_bar, scope_from_local_cpus, UncoreBoxDiscovery, UncoreDiscoverySocketBoxes,
    UncoreDiscoveryVsec, DISCOVERY_CAPABILITY, PERFORMANCE_MONITORING,
};
use ocellus::ep::SnbArchitecture;
use ocellus::error::CollectorError;
use ocellus::hsx::{HsxBusScope, HsxUncoreSpec, HsxUnitLayout, UnitAddress};
use ocellus::metrics::imc::{hsx, icx, skx, snb, spr, ImcCollector, ImcInventory};
use ocellus::ordered_map::Key;
use ocellus::pci::{PciBus, PciDeviceSpec, PciLocation, PciVendorDevice};
use ocellus::quantity::{
    occupancy_over_rate, ratio_parts, residency_parts, share_parts, EnergyUnit, Quantity, ScaledCount,
};
use ocellus::registers::{
    PmonWords, Register, RegisterRead, RegisterWrite, Width, FIXED_COUNTER_RESET_AND_ENABLE,
};
use ocellus::schedule::{Slice, SliceShare};
use ocellus::sockets::{package_index_from_node_mapping, UboxNode};
use ocellus::topology::{CpuTopology, HsxUncoreScope, TopologyLevel, TopologyLevelKind};
use ocellus::units::SliceReadings;
use std::time::Duration;

fn seconds(nanos: u128) -> f64 {
    Duration::new((nanos / 1_000_000_000) as u64, (nanos % 1_000_000_000) as u32).as_secs_f64()
}

fn scaled(count: ScaledCount) -> u64 {
    if count.running_nanos == 0 {
        0
    } else {
        (count.value as f64 * seconds(count.enabled_nanos) / seconds(count.running_nanos)) as u64
    }
}

fn over(numerator: f64, denominator: f64) -> f64 {
    if denominator == 0.0 {
        0.0
    } else {
        numerator / denominator
    }
}

fn quotient(parts: Option<(u64, u64)>) -> f64 {
    match parts {
        Some((numerator, denominator)) => numerator as f64 / denominator as f64,
        None => 0.0,
    }
}

fn joules(unit: EnergyUnit) -> f64 {
    match unit {
        EnergyUnit::Fraction { exponent } => 1.0 / (1_u64 << exponent) as f64,
        EnergyUnit::ServerDram => 15.3 / 1_000_000.0,
    }
}

fn value(quantity: Quantity) -> f64 {
    match quantity {
        Quantity::Zero => 0.0,
        Quantity::EventRate { count, per_nanos } => over(scaled(count) as f64, seconds(per_nanos)),
        Quantity::ByteRate { count, per_nanos, bytes, events } => {
            over(scaled(count) as f64, seconds(per_nanos)) * (bytes as f64 / events as f64)
        }
        Quantity::Energy { raw, unit } => raw as f64 * joules(unit),
        Quantity::Power { raw, unit, elapsed_nanos } => {
            raw as f64 * joules(unit) / seconds(elapsed_nanos)
        }
        Quantity::Frequency { ticks, running_nanos } => over(ticks as f64, seconds(running_nanos)),
        Quantity::Ratio { numerator, denominator } => over(numerator as f64, denominator as f64),
        Quantity::ScaledRatio { numerator, denominator } => {
            quotient(ratio_parts(scaled(numerator), scaled(denominator)))
        }
        Quantity::ScaledShare { part, rest } => {
            quotient(share_parts(scaled(part), scaled(rest)).expect("sum of counts overflows"))
        }
        Quantity::TickResidency { running_nanos, ticks, occupancy, inserts } => {
            seconds(running_nanos) / ticks as f64 * over(occupancy as f64, inserts as f64)
        }
        Quantity::OccupancyOverRate { occupancy, ticks, inserts, running_nanos } => over(
            over(occupancy as f64, ticks as f64),
            over(inserts as f64, seconds(running_nanos)),
        ),
        Quantity::ScaledResidency { occupancy, excluded, inserts, clockticks, enabled_nanos } => {
            match residency_parts(
                scaled(occupancy),
                scaled(excluded),
                scaled(inserts),
                scaled(clockticks),
            ) {
                Some((left, inserts, ticks)) => {
                    seconds(enabled_nanos) / ticks as f64 * left as f64 / inserts as f64
                }
                None => 0.0,
            }
        }
        Quantity::LinkLatency { occupancy, inserts, clockticks, enabled_nanos } => {
            match residency_parts(scaled(occupancy), 0, scaled(inserts), scaled(clockticks)) {
                Some((occupancy, inserts, ticks)) => {
                    occupancy as f64 / inserts as f64 * seconds(enabled_nanos) / ticks as f64
                }
                None => 0.0,
            }
        }
    }
}

fn assert_close(actual: f64, expected: f64) {
    assert!((actual - expected).abs() < 1e-12, "expected {expected}, got {actual}");
}

fn slice_duration(share: SliceShare) -> Duration {
    Duration::from_nanos(share.interval_nanos as u64).div_f64(share.slice_count as f64)
}

fn slice_groups<G>(slices: Vec<Slice<G>>) -> Vec<G> {
    slices.into_iter().map(|slice| slice.group).collect()
}

const MILLISECOND: u128 = 1_000_000;
const SECOND: u128 = 1_000_000_000;

fn counted(value: u64, ticks: u64, milliseconds: u128) -> EventMeasurement {
    EventMeasurement {
        enabled_nanos: milliseconds * MILLISECOND,
        running_nanos: milliseconds * MILLISECOND,
        ticks,
        value,
    }
}

fn accumulate<S: Key, K: EventKind>(
    scope: S,
    counts: &[(K, EventMeasurement)],
) -> Accumulator<S, K, EventMeasurement> {
    let mut accumulator = Accumulator::new();
    for (kind, measurement) in counts {
        let sample = Sample { scope, kind: *kind, measurement: *measurement };
        accumulator = accumulator.add(sample).unwrap();
    }
    accumulator
}

fn test_architecture(model: u8) -> Architecture {
    Architecture {
        brand: "test".to_string(),
        family: 6,
        model,
        vendor: "GenuineIntel".to_string(),
    }
}

const WORDS: PmonWords = PmonWords { freeze: 0x100, freeze_and_reset: 0x103, unfreeze: 0 };

fn topology(cpu: u32, package_id: u32, die_id: u32, die_group_id: u32) -> CpuTopology {
    CpuTopology {
        cpu,
        levels: vec![
            TopologyLevel { id: die_group_id, kind: TopologyLevelKind::DieGroup, shift: 0 },
            TopologyLevel { id: die_id, kind: TopologyLevelKind::Die, shift: 0 },
            TopologyLevel { id: package_id, kind: TopologyLevelKind::Package, shift: 0 },
        ],
        x2apic_id: 0,
    }
}

fn at(bus: u8, device: u8, function: u8) -> PciLocation {
    PciLocation { bus, device, function, group: 0 }
}

// Haswell and Broadwell.

const HSX_SCOPE: HsxUncoreScope = HsxUncoreScope { package_id: 0 };

fn hsx_collector() -> hsx::HsxImcCollector {
    hsx::HsxImcCollector::from_units(WORDS, Vec::new(), Vec::new())
}

fn hsx_measurements() -> hsx::HsxImcMeasurements {
    hsx::HsxImcMeasurements {
        ha: accumulate(
            HSX_SCOPE,
            &[
                (hsx::HsxHaEventKind::LocalRead, counted(100, 0, 100)),
                (hsx::HsxHaEventKind::RemoteRead, counted(300, 0, 100)),
                (hsx::HsxHaEventKind::LocalWrite, counted(200, 0, 100)),
                (hsx::HsxHaEventKind::RemoteWrite, counted(200, 0, 100)),
            ],
        ),
        imc: accumulate(
            HSX_SCOPE,
            &[
                (hsx::HsxImcEventKind::Activate, counted(1_000, 1_000, 100)),
                (hsx::HsxImcEventKind::PageMissPrecharge, counted(700, 1_000, 100)),
                (hsx::HsxImcEventKind::ReadCas, counted(2_000, 1_000, 100)),
                (hsx::HsxImcEventKind::WriteCas, counted(3_000, 1_000, 100)),
                (hsx::HsxImcEventKind::RpqNonEmpty, counted(400, 1_000, 100)),
                (hsx::HsxImcEventKind::WpqNonEmpty, counted(600, 1_000, 100)),
                (hsx::HsxImcEventKind::WpqFull, counted(20, 1_000, 100)),
            ],
        ),
    }
}

#[test]
fn computes_hsx_imc_metrics() {
    let metrics = hsx::HsxImcMetrics::from_measurements(&hsx_measurements()).unwrap();

    let imc = metrics.scopes[0];

    assert_eq!(value(imc.ha_local_read_bytes_per_second), 64_000.0);
    assert_eq!(value(imc.ha_remote_read_bytes_per_second), 192_000.0);
    assert_eq!(value(imc.ha_local_read_ratio), 0.25);
    assert_eq!(value(imc.ha_local_write_ratio), 0.5);
    assert_eq!(value(imc.activate_commands_per_second), 10_000.0);
    assert_eq!(value(imc.page_miss_precharge_commands_per_second), 7_000.0);
    assert_eq!(value(imc.read_bytes_per_second), 1_280_000.0);
    assert_eq!(value(imc.write_bytes_per_second), 1_920_000.0);
    assert_eq!(value(imc.rpq_non_empty_ratio), 0.4);
    assert_eq!(value(imc.wpq_non_empty_ratio), 0.6);
    assert_eq!(value(imc.wpq_full_ratio), 0.02);
}

fn hsx_imc_group(index: usize) -> hsx::HsxImcEventGroup {
    match hsx::measurement_groups()[index] {
        hsx::HsxMeasurementGroup::Imc(group) => group,
        hsx::HsxMeasurementGroup::Ha(_) => panic!("expected an IMC group"),
    }
}

#[test]
fn hsx_averages_queue_cycle_events_across_channels() {
    let group = hsx_imc_group(2);
    let readings: [[u64; 4]; 2] = [[400, 600, 10, 20], [400, 600, 10, 20]];

    for counter_index in 0..group.events.len() {
        if group.events[counter_index].kind.is_none() {
            continue;
        }

        let values: Vec<u64> = readings.iter().map(|reading| reading[counter_index]).collect();
        assert_eq!(
            group.events[counter_index].aggregate.aggregate(&values),
            Some(readings[0][counter_index])
        );
    }
}

#[test]
fn hsx_schedules_short_interval_once_per_group() {
    let collector = hsx_collector();
    let slices = collector.schedule(100 * MILLISECOND);
    let groups = hsx::measurement_groups();

    assert_eq!(slices.len(), 3);
    assert!(matches!(groups[0], hsx::HsxMeasurementGroup::Ha(_)));
    assert!(matches!(groups[1], hsx::HsxMeasurementGroup::Imc(_)));
    assert!(matches!(groups[2], hsx::HsxMeasurementGroup::Imc(_)));
    assert_eq!(slices[0].group, groups[0]);
    assert_eq!(slices[1].group, groups[1]);
    assert_eq!(slices[2].group, groups[2]);
}

#[test]
fn hsx_rotates_starting_event_group() {
    let mut collector = hsx_collector();
    let groups = hsx::measurement_groups();

    assert_eq!(
        slice_groups(collector.schedule(100 * MILLISECOND)),
        vec![groups[0], groups[1], groups[2]]
    );

    collector.rotate_group();
    assert_eq!(
        slice_groups(collector.schedule(100 * MILLISECOND)),
        vec![groups[1], groups[2], groups[0]]
    );
}

#[test]
fn hsx_imc_reports_what_is_missing() {
    let mut measurements = hsx_measurements();
    measurements.ha = Accumulator::new();
    assert!(matches!(
        hsx::HsxImcMetrics::from_measurements(&measurements),
        Err(CollectorError::MissingPackage { package_id: 0, .. })
    ));

    let mut measurements = hsx_measurements();
    measurements.imc = Accumulator::new();
    assert!(hsx::HsxImcMetrics::from_measurements(&measurements).unwrap().scopes.is_empty());

    let mut measurements = hsx_measurements();
    measurements.ha =
        accumulate(HSX_SCOPE, &[(hsx::HsxHaEventKind::LocalRead, counted(100, 0, 100))]);
    assert!(matches!(
        hsx::HsxImcMetrics::from_measurements(&measurements),
        Err(CollectorError::MissingMeasurement { .. })
    ));
}

fn hsx_uncore() -> HsxUncoreSpec {
    HsxUncoreSpec {
        ha_units: vec![UnitAddress { device: 18, device_id: Some(0x2f30), function: 1 }],
        imc_channels: vec![
            UnitAddress { device: 20, device_id: Some(0x2fb4), function: 0 },
            UnitAddress { device: 20, device_id: Some(0x2fb5), function: 1 },
        ],
        layout: HsxUnitLayout {
            controls: [0xd8, 0xdc, 0xe0, 0xe4],
            counters: [0xa0, 0xa8, 0xb0, 0xb8],
            fixed_control: 0xf0,
            fixed_counter: 0xd0,
            unit_control: 0xf4,
        },
        name: "HSX",
        words: WORDS,
    }
}

fn hsx_devices() -> Vec<PciVendorDevice> {
    vec![
        PciVendorDevice { device_id: 0x2f30, location: at(0x7f, 18, 1) },
        PciVendorDevice { device_id: 0x2fb4, location: at(0x7f, 20, 0) },
        PciVendorDevice { device_id: 0x2fb5, location: at(0x7f, 20, 1) },
        PciVendorDevice { device_id: 0x1234, location: at(0x7f, 21, 0) },
    ]
}

fn hsx_bus_scopes() -> Vec<HsxBusScope> {
    vec![HsxBusScope { bus: PciBus { bus: 0x7f, group: 0 }, scope: HSX_SCOPE }]
}

fn hsx_at_work() -> hsx::HsxImcCollector {
    hsx::HsxImcCollector::new(
        &test_architecture(0x3f),
        &hsx_uncore(),
        &hsx_bus_scopes(),
        &hsx_devices(),
    )
    .unwrap()
}

#[test]
fn hsx_imc_finds_its_units() {
    let collector = hsx_at_work();
    let groups = hsx::measurement_groups();

    assert_eq!(
        collector.unfreeze_writes(groups[1]),
        vec![
            RegisterWrite {
                register: Register::Pci { location: at(0x7f, 20, 0), offset: 0xf4 },
                value: WORDS.unfreeze,
                width: Width::Bits32,
            },
            RegisterWrite {
                register: Register::Pci { location: at(0x7f, 20, 1), offset: 0xf4 },
                value: WORDS.unfreeze,
                width: Width::Bits32,
            },
        ]
    );
    assert_eq!(collector.freeze_writes(groups[0]).len(), 1);
    // Four counters and, for a memory channel, its clock.
    assert_eq!(collector.reads(groups[0]).len(), 4);
    assert_eq!(collector.reads(groups[1]).len(), 10);
    assert!(matches!(
        hsx::HsxImcCollector::new(
            &test_architecture(0x55),
            &hsx_uncore(),
            &hsx_bus_scopes(),
            &hsx_devices(),
        ),
        Err(CollectorError::Unsupported { model: IntelServerCpuModel::SkylakeXeon, .. })
    ));
    assert!(matches!(
        hsx::HsxImcCollector::new(
            &test_architecture(0x3f),
            &hsx_uncore(),
            &hsx_bus_scopes(),
            &Vec::new(),
        ),
        Err(CollectorError::NoneDiscovered { family: "HSX", .. })
    ));
}

#[test]
fn hsx_imc_sample_over_every_group_is_reported() {
    let mut collector = hsx_at_work();
    let mut measurements = hsx::HsxImcMeasurements::new();

    for slice in collector.begin_sample(300 * MILLISECOND).unwrap() {
        let values: Vec<u64> = collector.reads(slice.group).iter().map(|_| 1_000).collect();
        let readings = SliceReadings {
            values,
            enabled_nanos: 300 * MILLISECOND,
            running_nanos: 100 * MILLISECOND,
        };
        measurements = collector.record(slice.group, &readings, measurements).unwrap();
    }

    let metrics = collector.finish_sample(&measurements).unwrap();
    assert_eq!(metrics.scopes.len(), 1);
    // Two channels that counted 1000 each in a third of the interval.
    assert_eq!(value(metrics.scopes[0].activate_commands_per_second), 20_000.0);
    // A cycle count is averaged over the channels.
    assert_eq!(value(metrics.scopes[0].rpq_non_empty_ratio), 1.0);
}

// Ice Lake.

const ICX_SCOPE: icx::IcxImcScope =
    icx::IcxImcScope { die_group_id: 0, die_id: 0, package_id: 0 };

fn assert_icx_event(kind: icx::IcxImcEventKind, event: u8, umask: u8) {
    let event_spec = icx::event_groups()
        .iter()
        .flat_map(|group| group.events)
        .find(|spec| spec.kind == Some(kind) && spec.event == event && spec.umask == umask)
        .unwrap();

    assert_eq!(event_spec.event, event);
    assert_eq!(event_spec.umask, umask);
}

#[test]
fn icx_uses_imc_event_encodings() {
    assert_icx_event(icx::IcxImcEventKind::ReadInsert, 0x10, 0x03);
    assert_icx_event(icx::IcxImcEventKind::WriteInsert, 0x20, 0x03);
    assert_icx_event(icx::IcxImcEventKind::ReadOccupancy, 0x80, 0x00);
    assert_icx_event(icx::IcxImcEventKind::ReadOccupancy, 0x81, 0x00);
    assert_icx_event(icx::IcxImcEventKind::WriteOccupancy, 0x82, 0x00);
    assert_icx_event(icx::IcxImcEventKind::WriteOccupancy, 0x83, 0x00);
    assert_icx_event(icx::IcxImcEventKind::ReadCas, 0x04, 0x0f);
    assert_icx_event(icx::IcxImcEventKind::WriteCas, 0x04, 0x30);
    assert_icx_event(icx::IcxImcEventKind::Activate, 0x01, 0x0b);
    assert_icx_event(icx::IcxImcEventKind::PageMissPrecharge, 0x02, 0x0c);
}

#[test]
fn computes_server_bar_from_ubox_registers() {
    assert_eq!(
        icx::server_memory_bar(0x0000_0123, 0x0000_0456),
        (0x123_u64 << 23) | (0x456_u64 << 12)
    );
    assert_eq!(icx::server_memory_bar(0, 0), 0);
}

#[test]
fn ice_lake_uses_three_channels_per_bar() {
    let spec = icx::icx_imc_spec();
    assert_eq!(
        spec.channels,
        icx::IcxImcChannels::UboxBars { bars_per_package: 4, channels_per_bar: 3 }
    );
}

#[test]
fn icx_computes_multiplexed_metrics() {
    let metrics = icx::IcxImcMetrics::from_measurements(&accumulate(
        ICX_SCOPE,
        &[
            (icx::IcxImcEventKind::ReadInsert, counted(200, 1_000, 100)),
            (icx::IcxImcEventKind::WriteInsert, counted(300, 1_000, 100)),
            (icx::IcxImcEventKind::ReadOccupancy, counted(400, 1_000, 100)),
            (icx::IcxImcEventKind::WriteOccupancy, counted(600, 1_000, 100)),
            (icx::IcxImcEventKind::ReadCas, counted(2_000, 1_000, 100)),
            (icx::IcxImcEventKind::WriteCas, counted(3_000, 1_000, 100)),
            (icx::IcxImcEventKind::Activate, counted(1_000, 1_000, 100)),
            (icx::IcxImcEventKind::PageMissPrecharge, counted(700, 1_000, 100)),
        ],
    ))
    .unwrap();

    let scope_metrics = metrics.scopes[0];

    assert_eq!(value(scope_metrics.activate_commands_per_second), 10_000.0);
    assert_eq!(value(scope_metrics.frequency_hz), 10_000.0);
    assert_eq!(value(scope_metrics.page_miss_precharge_commands_per_second), 7_000.0);
    assert_eq!(value(scope_metrics.read_cas_commands_per_second), 20_000.0);
    assert_eq!(value(scope_metrics.read_bytes_per_second), 1_280_000.0);
    assert_eq!(value(scope_metrics.write_cas_commands_per_second), 30_000.0);
    assert_eq!(value(scope_metrics.write_bytes_per_second), 1_920_000.0);
    assert_eq!(value(scope_metrics.rpq_occupancy_entries), 0.4);
    assert_eq!(value(scope_metrics.wpq_occupancy_entries), 0.6);
    assert_close(value(scope_metrics.rpq_residency_seconds), 0.0002);
    assert_close(value(scope_metrics.wpq_residency_seconds), 0.0002);
}

#[test]
fn icx_computes_residency_from_occupancy_dclk_and_insert_rate() {
    let occupancy = EventMeasurement {
        enabled_nanos: SECOND,
        running_nanos: 400 * MILLISECOND,
        ticks: 400,
        value: 800,
    };
    let insert = EventMeasurement {
        enabled_nanos: SECOND,
        running_nanos: 200 * MILLISECOND,
        ticks: 200,
        value: 2_000_000,
    };

    assert_close(value(occupancy_over_rate(occupancy, insert)), 0.0000002);

    // The library uses the same residency for the report of a channel.
    let metrics = icx::IcxImcMetrics::from_measurements(&accumulate(
        ICX_SCOPE,
        &[
            (icx::IcxImcEventKind::ReadInsert, insert),
            (icx::IcxImcEventKind::WriteInsert, insert),
            (icx::IcxImcEventKind::ReadOccupancy, occupancy),
            (icx::IcxImcEventKind::WriteOccupancy, occupancy),
            (icx::IcxImcEventKind::ReadCas, insert),
            (icx::IcxImcEventKind::WriteCas, insert),
            (icx::IcxImcEventKind::Activate, insert),
            (icx::IcxImcEventKind::PageMissPrecharge, insert),
        ],
    ))
    .unwrap();
    assert_close(value(metrics.scopes[0].rpq_residency_seconds), 0.0000002);
}

fn icx_ubox<const N: usize>(bus: u8, offsets: [u32; N]) -> icx::UboxBars<N> {
    icx::UboxBars { location: at(bus, 0, 1), mmio_base: 0x123, memory_offsets: offsets }
}

#[test]
fn icx_imc_lays_out_the_channels_of_a_package() {
    let places =
        icx::discover_channels_from_ubox_bars(
            3,
            &vec![icx_ubox(0x7e, [1, 2, 3, 4])],
            &vec![ICX_SCOPE],
        )
            .unwrap();

    assert_eq!(places.len(), 12);
    assert_eq!(places[0].base, icx::server_memory_bar(0x123, 1) + icx::CHANNEL_BASE);
    assert_eq!(
        places[2].base,
        icx::server_memory_bar(0x123, 1) + icx::CHANNEL_BASE + 2 * icx::CHANNEL_STEP
    );
    assert_eq!(places[3].base, icx::server_memory_bar(0x123, 2) + icx::CHANNEL_BASE);
}

#[test]
fn icx_imc_refuses_uboxes_that_do_not_fit() {
    assert!(matches!(
        icx::discover_channels_from_ubox_bars::<4>(3, &Vec::new(), &vec![ICX_SCOPE]),
        Err(CollectorError::CountMismatch { what: "UBOX0 devices", found: 0, expected: 1 })
    ));
    let unset = icx::UboxBars { location: at(0x7e, 0, 1), mmio_base: 0, memory_offsets: [0; 4] };
    assert!(matches!(
        icx::discover_channels_from_ubox_bars(3, &vec![unset], &vec![ICX_SCOPE]),
        Err(CollectorError::ZeroBar { bar: 0, .. })
    ));
    assert!(matches!(
        icx::discover_channels_from_ubox_bars(0, &vec![icx_ubox(0x7e, [1])], &vec![ICX_SCOPE]),
        Err(CollectorError::NothingFound { what: "IMC channels from UBOX memory BARs" })
    ));
}

#[test]
fn icx_imc_collector_programs_every_channel() {
    let collector = icx::IcxImcCollector::new(
        &test_architecture(0x6a),
        &vec![topology(0, 0, 0, 0), topology(1, 0, 0, 0)],
        &vec![icx_ubox(0x7e, [1, 2, 3, 4])],
    )
    .unwrap();

    assert_eq!(collector.freeze_writes().len(), 12);
    assert!(collector.freeze_writes().iter().all(|write| write.value == icx::UNIT_FREEZE));
    assert_eq!(collector.reads().len(), 60);
    assert!(matches!(
        icx::IcxImcCollector::new(&test_architecture(0x55), &Vec::new(), &Vec::new()),
        Err(CollectorError::Unsupported { .. })
    ));
    assert!(matches!(collector.begin_sample(0), Err(CollectorError::ZeroInterval { .. })));
}

#[test]
fn icx_imc_sums_counters_of_one_event() {
    let collector = icx::IcxImcCollector::new(
        &test_architecture(0x6a),
        &vec![topology(0, 0, 0, 0)],
        &vec![icx_ubox(0x7e, [1, 2, 3, 4])],
    )
    .unwrap();
    let mut group = icx::event_groups()[0];
    group.events[1] = group.events[0];
    let readings = SliceReadings {
        values: [10, 20, 30, 40, 1_000].repeat(12),
        enabled_nanos: SECOND,
        running_nanos: 100 * MILLISECOND,
    };
    let measurements = collector.record(group, &readings, Accumulator::new()).unwrap();
    assert_eq!(
        measurements.get(ICX_SCOPE, group.events[0].kind.unwrap()),
        Some(EventMeasurement {
            enabled_nanos: SECOND,
            running_nanos: 100 * MILLISECOND,
            ticks: 1_000,
            value: 360,
        })
    );
}

// Which processors are known.

#[test]
fn supports_all_imc_architectures() {
    assert!(ImcCollector::is_supported(&test_architecture(0x3f)));
    assert!(ImcCollector::is_supported(&test_architecture(0x4f)));
    assert!(ImcCollector::is_supported(&test_architecture(0x55)));
    assert!(!ImcCollector::is_supported(&test_architecture(0xcf)));
}

fn inventory() -> ImcInventory {
    ImcInventory {
        bus_scopes: hsx_bus_scopes(),
        channel_specs: skx_specs(),
        devices: skx_devices(),
        socket_buses: vec![skx::SocketBus { bus: PciBus { bus: 0x3a, group: 0 }, socket_index: 0 }],
        topologies: vec![topology(0, 0, 0, 0)],
        uncore: hsx_uncore(),
        words: WORDS,
    }
}

#[test]
fn imc_collector_is_that_of_the_processor() {
    assert!(matches!(
        ImcCollector::new(&test_architecture(0x55), &inventory()),
        Ok(ImcCollector::Skx(_))
    ));
    assert!(matches!(
        ImcCollector::new(
            &test_architecture(0x4f),
            &ImcInventory { devices: hsx_devices(), ..inventory() }
        ),
        Ok(ImcCollector::Hsx(_))
    ));
    assert!(matches!(
        ImcCollector::new(&test_architecture(0xcf), &inventory()),
        Err(CollectorError::Unsupported { model: IntelServerCpuModel::EmeraldRapids, .. })
    ));
}

// Skylake.

const SKX_SCOPE: skx::ImcScope = skx::ImcScope { die_group_id: 0, die_id: 0, package_id: 0 };

fn skx_collector() -> skx::SkxImcCollector {
    skx::SkxImcCollector::from_units(WORDS, Vec::new())
}

fn skx_specs() -> Vec<PciDeviceSpec> {
    vec![
        PciDeviceSpec { device: 10, device_id: 0x2042, function: 2 },
        PciDeviceSpec { device: 10, device_id: 0x2046, function: 6 },
    ]
}

fn skx_devices() -> Vec<PciVendorDevice> {
    vec![
        PciVendorDevice { device_id: 0x2042, location: at(0x3a, 10, 2) },
        PciVendorDevice { device_id: 0x2046, location: at(0x3a, 10, 6) },
    ]
}

#[test]
fn skx_computes_multiplexed_metrics() {
    let metrics = skx::ImcMetrics::from_measurements(&accumulate(
        SKX_SCOPE,
        &[
            (skx::ImcEventKind::ReadInsert, counted(200, 1_000, 100)),
            (skx::ImcEventKind::WriteInsert, counted(300, 1_000, 100)),
            (skx::ImcEventKind::ReadOccupancy, counted(400, 1_000, 100)),
            (skx::ImcEventKind::WriteOccupancy, counted(600, 1_000, 100)),
            (skx::ImcEventKind::ReadCas, counted(2_000, 1_000, 100)),
            (skx::ImcEventKind::WriteCas, counted(3_000, 1_000, 100)),
            (skx::ImcEventKind::Activate, counted(1_000, 1_000, 100)),
            (skx::ImcEventKind::PageMissPrecharge, counted(700, 1_000, 100)),
        ],
    ))
    .unwrap();

    let scope_metrics = metrics.scopes[0];

    assert_eq!(value(scope_metrics.activate_commands_per_second), 10_000.0);
    assert_eq!(value(scope_metrics.frequency_hz), 10_000.0);
    assert_eq!(value(scope_metrics.page_miss_precharge_commands_per_second), 7_000.0);
    assert_eq!(value(scope_metrics.read_cas_commands_per_second), 20_000.0);
    assert_eq!(value(scope_metrics.read_bytes_per_second), 1_280_000.0);
    assert_eq!(value(scope_metrics.write_cas_commands_per_second), 30_000.0);
    assert_eq!(value(scope_metrics.write_bytes_per_second), 1_920_000.0);
    assert_eq!(value(scope_metrics.rpq_occupancy_entries), 0.4);
    assert_eq!(value(scope_metrics.wpq_occupancy_entries), 0.6);
    assert_eq!(value(scope_metrics.rpq_residency_seconds), 0.0002);
    assert_eq!(value(scope_metrics.wpq_residency_seconds), 0.0002);
}

#[test]
fn skx_schedules_short_interval_once_per_group() {
    let collector = skx_collector();
    let slices = collector.schedule(100 * MILLISECOND);
    let groups = skx::event_groups();

    assert_eq!(slices.len(), 2);
    assert_eq!(slices[0].group, groups[0]);
    assert_eq!(slices[1].group, groups[1]);
    assert_eq!(slice_duration(slices[0].share), Duration::from_millis(50));
}

#[test]
fn schedules_long_interval_with_bounded_slices() {
    let collector = skx_collector();
    let slices = collector.schedule(SECOND);
    let groups = skx::event_groups();

    assert_eq!(slices.len(), 10);
    assert_eq!(slices[0].group, groups[0]);
    assert_eq!(slices[1].group, groups[1]);
    assert_eq!(slices[8].group, groups[0]);
    assert_eq!(slices[9].group, groups[1]);
    assert_eq!(slice_duration(slices[0].share), Duration::from_millis(100));
}

#[test]
fn skx_rotates_starting_event_group() {
    let mut collector = skx_collector();
    let groups = skx::event_groups();

    assert_eq!(
        slice_groups(collector.schedule(100 * MILLISECOND)),
        vec![groups[0], groups[1]]
    );

    collector.rotate_group();
    assert_eq!(
        slice_groups(collector.schedule(100 * MILLISECOND)),
        vec![groups[1], groups[0]]
    );
}

#[test]
fn skx_wraps_48_bit_counters() {
    assert_eq!(mask_counter((1_u64 << 50) | 7), 7);
}

#[test]
fn skx_scales_counts_to_enabled_time() {
    let measurement = EventMeasurement {
        enabled_nanos: SECOND,
        running_nanos: 100 * MILLISECOND,
        ticks: 0,
        value: 100,
    };
    assert_eq!(
        ScaledCount::of(measurement),
        ScaledCount { value: 100, enabled_nanos: SECOND, running_nanos: 100 * MILLISECOND }
    );
    assert_eq!(scaled(ScaledCount::of(measurement)), 1_000);
    assert_eq!(scaled(ScaledCount::of(EventMeasurement { running_nanos: 0, ..measurement })), 0);
}

#[test]
fn skx_accumulates_repeated_multiplex_slices() {
    let accumulator = Accumulator::new();

    let accumulator = accumulator
        .add(Sample {
            scope: SKX_SCOPE,
            kind: skx::ImcEventKind::ReadInsert,
            measurement: EventMeasurement {
                enabled_nanos: SECOND,
                running_nanos: 100 * MILLISECOND,
                ticks: 1_000,
                value: 100,
            },
        })
        .unwrap();
    let accumulator = accumulator
        .add(Sample {
            scope: SKX_SCOPE,
            kind: skx::ImcEventKind::ReadInsert,
            measurement: EventMeasurement {
                enabled_nanos: SECOND,
                running_nanos: 200 * MILLISECOND,
                ticks: 2_000,
                value: 200,
            },
        })
        .unwrap();

    let measurement = accumulator.get(SKX_SCOPE, skx::ImcEventKind::ReadInsert).unwrap();

    assert_eq!(measurement.value, 300);
    assert_eq!(measurement.ticks, 3_000);
    assert_eq!(measurement.enabled_nanos, SECOND);
    assert_eq!(measurement.running_nanos, 300 * MILLISECOND);
}

#[test]
fn a_total_that_does_not_fit_is_refused() {
    let accumulator: Accumulator<skx::ImcScope, skx::ImcEventKind, EventMeasurement> =
        accumulate(SKX_SCOPE, &[(skx::ImcEventKind::ReadCas, counted(u64::MAX, 0, 1))]);
    let refused = accumulator.add(Sample {
        scope: SKX_SCOPE,
        kind: skx::ImcEventKind::ReadCas,
        measurement: counted(1, 0, 1),
    });
    assert!(matches!(refused, Err(Overflow)));
}

fn skx_at_work() -> skx::SkxImcCollector {
    skx::SkxImcCollector::new(
        &test_architecture(0x55),
        &vec![topology(0, 0, 0, 0)],
        &vec![skx::SocketBus { bus: PciBus { bus: 0x3a, group: 0 }, socket_index: 0 }],
        &skx_specs(),
        &skx_devices(),
        WORDS,
    )
    .unwrap()
}

#[test]
fn skx_imc_sample_is_reported_channel_by_channel() {
    let mut collector = skx_at_work();
    let mut measurements = Accumulator::new();

    assert_eq!(
        collector.reads()[0],
        RegisterRead {
            register: Register::Pci { location: at(0x3a, 10, 2), offset: skx::COUNTERS[0] },
            width: Width::Bits64,
        }
    );
    for slice in collector.begin_sample(200 * MILLISECOND).unwrap() {
        // Each channel hands back its four counters and then its clock. Counts are added up over
        // the channels, and the clock is averaged.
        let readings = SliceReadings {
            values: vec![10, 20, 30, 40, 1_000, 1, 2, 3, 4, 3_000],
            enabled_nanos: 200 * MILLISECOND,
            running_nanos: 100 * MILLISECOND,
        };
        measurements = collector.record(slice.group, &readings, measurements).unwrap();
    }
    let first = skx::event_groups()[0].events[0].kind;
    assert_eq!(
        measurements.get(SKX_SCOPE, first),
        Some(EventMeasurement {
            enabled_nanos: 200 * MILLISECOND,
            running_nanos: 100 * MILLISECOND,
            ticks: 2_000,
            value: 11,
        })
    );
    assert!(collector.finish_sample(&measurements).is_ok());
    // The next sample starts with the group that came second.
    assert_eq!(
        collector.begin_sample(200 * MILLISECOND).unwrap()[0].group,
        skx::event_groups()[1]
    );
}

#[test]
fn skx_imc_refuses_what_it_did_not_ask_for() {
    let collector = skx_at_work();
    let readings = SliceReadings { values: vec![1, 2, 3], enabled_nanos: 1, running_nanos: 1 };
    assert!(matches!(
        collector.record(skx::event_groups()[0], &readings, Accumulator::new()),
        Err(CollectorError::ReadingCount { expected: 5, found: 3 })
    ));
    assert!(matches!(collector.begin_sample(0), Err(CollectorError::ZeroInterval { unit: "IMC" })));
    assert!(matches!(
        skx::ImcMetrics::from_measurements(&accumulate(
            SKX_SCOPE,
            &[(skx::ImcEventKind::ReadCas, counted(1, 1, 1))]
        )),
        Err(CollectorError::MissingMeasurement { .. })
    ));
}

#[test]
fn skx_imc_counts_time_for_each_counter() {
    let collector = skx_at_work();
    let mut group = skx::event_groups()[0];
    group.events[1] = group.events[0];
    let readings = SliceReadings {
        values: vec![10, 20, 30, 40, 1_000, 1, 2, 3, 4, 3_000],
        enabled_nanos: 200 * MILLISECOND,
        running_nanos: 100 * MILLISECOND,
    };
    let measurements = collector.record(group, &readings, Accumulator::new()).unwrap();
    assert_eq!(
        measurements.get(SKX_SCOPE, group.events[0].kind),
        Some(EventMeasurement {
            enabled_nanos: 200 * MILLISECOND,
            running_nanos: 200 * MILLISECOND,
            ticks: 4_000,
            value: 33,
        })
    );
}

#[test]
fn skx_imc_totals_that_do_not_fit_are_refused() {
    let collector = skx_at_work();
    let group = skx::event_groups()[0];
    let full = accumulate(SKX_SCOPE, &[(group.events[0].kind, counted(u64::MAX, 0, 1))]);
    let readings = SliceReadings {
        values: vec![1, 2, 3, 4, 5, 1, 2, 3, 4, 5],
        enabled_nanos: MILLISECOND,
        running_nanos: MILLISECOND,
    };
    assert!(matches!(
        collector.record(group, &readings, full),
        Err(CollectorError::Overflow)
    ));
}

#[test]
fn skx_imc_needs_a_package_for_each_bus() {
    assert!(matches!(
        skx::SkxImcCollector::new(
            &test_architecture(0x55),
            &vec![topology(0, 0, 0, 0)],
            &vec![skx::SocketBus { bus: PciBus { bus: 0x3a, group: 0 }, socket_index: 1 }],
            &skx_specs(),
            &skx_devices(),
            WORDS,
        ),
        Err(CollectorError::Unmapped { index: 1, .. })
    ));
    assert!(matches!(
        skx::SkxImcCollector::new(
            &test_architecture(0x55),
            &vec![topology(0, 0, 0, 0)],
            &vec![skx::SocketBus { bus: PciBus { bus: 0x3a, group: 0 }, socket_index: 0 }],
            &skx_specs(),
            &vec![skx_devices()[0]],
            WORDS,
        ),
        Err(CollectorError::MissingDevice { .. })
    ));
    let nowhere = CpuTopology { cpu: 0, levels: Vec::new(), x2apic_id: 0 };
    assert!(matches!(
        skx::SkxImcCollector::new(
            &test_architecture(0x55),
            &vec![nowhere],
            &Vec::new(),
            &skx_specs(),
            &skx_devices(),
            WORDS,
        ),
        Err(CollectorError::MissingPackageLevel)
    ));
}

// Sandy Bridge and Ivy Bridge.

const SNB_SCOPE: snb::SnbImcScope = snb::SnbImcScope { package_id: 0 };

fn snb_collector(architecture: SnbArchitecture) -> snb::SnbImcCollector {
    snb::SnbImcCollector::from_units(architecture, Vec::new())
}

#[test]
fn computes_snb_imc_metrics() {
    let metrics = snb::SnbImcMetrics::from_measurements(&accumulate(
        SNB_SCOPE,
        &[
            (snb::SnbImcEventKind::Activate, counted(1_000, 1_000, 100)),
            (snb::SnbImcEventKind::PageMissPrecharge, counted(700, 1_000, 100)),
            (snb::SnbImcEventKind::ReadCas, counted(2_000, 1_000, 100)),
            (snb::SnbImcEventKind::ReadInsert, counted(200, 1_000, 100)),
            (snb::SnbImcEventKind::RpqNonEmpty, counted(400, 1_000, 100)),
            (snb::SnbImcEventKind::WriteCas, counted(3_000, 1_000, 100)),
            (snb::SnbImcEventKind::WriteInsert, counted(300, 1_000, 100)),
            (snb::SnbImcEventKind::WpqFull, counted(30, 1_000, 100)),
            (snb::SnbImcEventKind::WpqNonEmpty, counted(600, 1_000, 100)),
        ],
    ))
    .unwrap();

    let scope_metrics = metrics.scopes[0];

    assert_eq!(value(scope_metrics.activate_commands_per_second), 10_000.0);
    assert_eq!(value(scope_metrics.frequency_hz), 10_000.0);
    assert_eq!(value(scope_metrics.page_miss_precharge_commands_per_second), 7_000.0);
    assert_eq!(value(scope_metrics.read_cas_commands_per_second), 20_000.0);
    assert_eq!(value(scope_metrics.read_bytes_per_second), 1_280_000.0);
    assert_eq!(value(scope_metrics.write_cas_commands_per_second), 30_000.0);
    assert_eq!(value(scope_metrics.write_bytes_per_second), 1_920_000.0);
    assert_eq!(value(scope_metrics.rpq_non_empty_ratio), 0.4);
    assert_eq!(value(scope_metrics.wpq_full_ratio), 0.03);
    assert_eq!(value(scope_metrics.wpq_non_empty_ratio), 0.6);
}

#[test]
fn snb_averages_queue_cycle_events_across_channels() {
    let group = snb::event_groups(SnbArchitecture::Snb)[0];
    let readings: [[u64; 4]; 2] = [[100, 200, 400, 600], [300, 400, 800, 1_000]];

    let first: Vec<u64> = readings.iter().map(|reading| reading[0]).collect();
    let third: Vec<u64> = readings.iter().map(|reading| reading[2]).collect();
    assert_eq!(group.events[0].aggregate.aggregate(&first), Some(400));
    assert_eq!(group.events[2].aggregate.aggregate(&third), Some(600));
}

#[test]
fn aggregates_of_no_and_of_too_large_counts() {
    assert_eq!(Aggregate::Sum.aggregate(&Vec::new()), Some(0));
    assert_eq!(Aggregate::Average.aggregate(&Vec::new()), Some(0));
    assert_eq!(Aggregate::Disabled.aggregate(&vec![7, 8]), Some(0));
    assert_eq!(Aggregate::Sum.aggregate(&vec![u64::MAX, 1]), None);
}

#[test]
fn snb_schedules_short_interval_once_per_group() {
    let collector = snb_collector(SnbArchitecture::Snb);
    let slices = collector.schedule(100 * MILLISECOND);
    let groups = snb::event_groups(SnbArchitecture::Snb);

    assert_eq!(slices.len(), groups.len());
    assert_eq!(slices[0].group, groups[0]);
    assert_eq!(slices[1].group, groups[1]);
    assert_eq!(slices[2].group, groups[2]);
}

#[test]
fn snb_rotates_starting_event_group() {
    let mut collector = snb_collector(SnbArchitecture::Snb);
    let groups = snb::event_groups(SnbArchitecture::Snb);

    assert_eq!(slice_groups(collector.schedule(100 * MILLISECOND)), groups);

    collector.rotate_group();
    assert_eq!(
        slice_groups(collector.schedule(100 * MILLISECOND)),
        vec![groups[1], groups[2], groups[0]]
    );
}

fn assert_snb_event_in(
    architecture: SnbArchitecture,
    kind: snb::SnbImcEventKind,
    event: u8,
    umask: u8,
) {
    let actual = snb::event_groups(architecture)
        .iter()
        .flat_map(|group| group.events)
        .find(|event| event.kind == Some(kind))
        .unwrap();

    assert_eq!(actual.event, event);
    assert_eq!(actual.umask, umask);
}

fn assert_snb_event(kind: snb::SnbImcEventKind, event: u8, umask: u8) {
    assert_snb_event_in(SnbArchitecture::Snb, kind, event, umask);
    assert_snb_event_in(SnbArchitecture::Ivb, kind, event, umask);
}

#[test]
fn uses_documented_snb_ivb_imc_event_encodings() {
    assert_snb_event(snb::SnbImcEventKind::ReadInsert, 0x10, 0x00);
    assert_snb_event(snb::SnbImcEventKind::WriteInsert, 0x20, 0x00);
    assert_snb_event(snb::SnbImcEventKind::RpqNonEmpty, 0x11, 0x00);
    assert_snb_event(snb::SnbImcEventKind::WpqNonEmpty, 0x21, 0x00);
    assert_snb_event(snb::SnbImcEventKind::WpqFull, 0x22, 0x00);
    assert_snb_event(snb::SnbImcEventKind::ReadCas, 0x04, 0x03);
    assert_snb_event(snb::SnbImcEventKind::WriteCas, 0x04, 0x0c);
    assert_snb_event_in(SnbArchitecture::Snb, snb::SnbImcEventKind::Activate, 0x01, 0x00);
    assert_snb_event_in(SnbArchitecture::Ivb, snb::SnbImcEventKind::Activate, 0x01, 0x0b);
    assert_snb_event(snb::SnbImcEventKind::PageMissPrecharge, 0x02, 0x01);
}

fn spec_addresses(specs: &[PciDeviceSpec]) -> Vec<(u8, u8, u16)> {
    specs.iter().map(|spec| (spec.device, spec.function, spec.device_id)).collect()
}

#[test]
fn uses_snb_ivb_pci_device_ids() {
    assert_eq!(
        spec_addresses(&snb::channel_specs(SnbArchitecture::Snb)),
        vec![(16, 0, 0x3cb0), (16, 1, 0x3cb1), (16, 4, 0x3cb4), (16, 5, 0x3cb5)]
    );
    assert_eq!(SnbArchitecture::Snb.ubox_device_id(), 0x3ce0);
    assert_eq!(
        spec_addresses(&snb::channel_specs(SnbArchitecture::Ivb)),
        vec![
            (16, 4, 0x0eb4),
            (16, 5, 0x0eb5),
            (16, 0, 0x0eb0),
            (16, 1, 0x0eb1),
            (30, 4, 0x0ef4),
            (30, 5, 0x0ef5),
            (30, 0, 0x0ef0),
            (30, 1, 0x0ef1),
        ]
    );
    assert_eq!(SnbArchitecture::Ivb.ubox_device_id(), 0x0e1e);
}

#[test]
fn snb_encodes_snb_ivb_unit_control_values() {
    assert_eq!(SnbArchitecture::Snb.unit_freeze(), 0x10100);
    assert_eq!(SnbArchitecture::Snb.unit_freeze_and_reset(), 0x10103);
    assert_eq!(SnbArchitecture::Snb.unit_unfreeze(), 0x10000);
    assert_eq!(SnbArchitecture::Ivb.unit_freeze(), 0x100);
    assert_eq!(SnbArchitecture::Ivb.unit_freeze_and_reset(), 0x103);
    assert_eq!(SnbArchitecture::Ivb.unit_unfreeze(), 0);
}

#[test]
fn encodes_event_and_fixed_counter_control_values() {
    assert_eq!(
        snb::counter_control(0x10, 0x20),
        0x10 | (0x20 << 8) | (1 << 17) | (1 << 20) | (1 << 22)
    );
    assert_eq!(FIXED_COUNTER_RESET_AND_ENABLE, (1 << 19) | (1 << 22));
}

#[test]
fn snb_maps_node_id_to_package_index() {
    assert_eq!(package_index_from_node_mapping(0, 0b010_001_000), Some(0));
    assert_eq!(package_index_from_node_mapping(1, 0b010_001_000), Some(1));
    assert_eq!(package_index_from_node_mapping(2, 0b010_001_000), Some(2));
    assert_eq!(package_index_from_node_mapping(3, 0b010_001_000), None);
}

#[test]
fn snb_wraps_48_bit_counters() {
    assert_eq!(mask_counter((1_u64 << 50) | 7), 7);
}

#[test]
fn snb_scales_counts_to_enabled_time() {
    let measurement = EventMeasurement {
        enabled_nanos: SECOND,
        running_nanos: 100 * MILLISECOND,
        ticks: 0,
        value: 100,
    };
    assert_eq!(
        ScaledCount::of(measurement),
        ScaledCount { value: 100, enabled_nanos: SECOND, running_nanos: 100 * MILLISECOND }
    );
    assert_eq!(scaled(ScaledCount::of(measurement)), 1_000);
    assert_eq!(scaled(ScaledCount::of(EventMeasurement { running_nanos: 0, ..measurement })), 0);
}

#[test]
fn snb_accumulates_repeated_multiplex_slices() {
    let accumulator = Accumulator::new();

    let accumulator = accumulator
        .add(Sample {
            scope: SNB_SCOPE,
            kind: snb::SnbImcEventKind::ReadCas,
            measurement: EventMeasurement {
                enabled_nanos: SECOND,
                running_nanos: 100 * MILLISECOND,
                ticks: 1_000,
                value: 100,
            },
        })
        .unwrap();
    let accumulator = accumulator
        .add(Sample {
            scope: SNB_SCOPE,
            kind: snb::SnbImcEventKind::ReadCas,
            measurement: EventMeasurement {
                enabled_nanos: SECOND,
                running_nanos: 200 * MILLISECOND,
                ticks: 2_000,
                value: 200,
            },
        })
        .unwrap();

    let measurement = accumulator.get(SNB_SCOPE, snb::SnbImcEventKind::ReadCas).unwrap();

    assert_eq!(measurement.value, 300);
    assert_eq!(measurement.ticks, 3_000);
    assert_eq!(measurement.enabled_nanos, SECOND);
    assert_eq!(measurement.running_nanos, 300 * MILLISECOND);
}

#[test]
fn snb_imc_maps_channels_to_packages() {
    let nodes = vec![UboxNode {
        location: at(0x7f, 11, 0),
        local_node_word: 0,
        node_mapping: 0b010_001_000,
    }];
    let devices: Vec<PciVendorDevice> = [(0, 0x3cb0), (1, 0x3cb1), (4, 0x3cb4), (5, 0x3cb5)]
        .iter()
        .map(|(function, device_id)| PciVendorDevice {
            device_id: *device_id,
            location: at(0x7f, 16, *function),
        })
        .collect();
    let collector = snb::SnbImcCollector::new(
        &test_architecture(0x2d),
        &vec![topology(0, 0, 0, 0)],
        &nodes,
        &devices,
    )
    .unwrap();

    assert_eq!(collector.unfreeze_writes().len(), 4);
    assert_eq!(collector.unfreeze_writes()[0].value, 0x10000);

    // Where the nodes do not tell the packages apart, the buses of the channels do.
    let stray = vec![UboxNode { local_node_word: 3, ..nodes[0] }];
    assert!(snb::SnbImcCollector::new(
        &test_architecture(0x2d),
        &vec![topology(0, 0, 0, 0)],
        &stray,
        &devices,
    )
    .is_ok());
    assert!(matches!(
        snb::SnbImcCollector::new(
            &test_architecture(0x2d),
            &vec![topology(0, 0, 0, 0)],
            &stray,
            &Vec::new(),
        ),
        Err(CollectorError::CountMismatch { found: 0, expected: 1, .. })
    ));
    assert!(matches!(
        snb::SnbImcCollector::new(
            &test_architecture(0x2d),
            &vec![topology(0, 0, 0, 0)],
            &vec![UboxNode { location: at(0x10, 11, 0), ..nodes[0] }],
            &devices,
        ),
        Err(CollectorError::NoChannelsOnBus { .. })
    ));
}

// Sapphire Rapids and Emerald Rapids.

const SPR_SCOPE: spr::SprImcScope =
    spr::SprImcScope { die_group_id: 0, die_id: 0, package_id: 0 };

fn assert_spr_event(kind: spr::SprImcEventKind, event: u8, umask: u8) {
    let event_spec = spr::event_groups()
        .iter()
        .flat_map(|group| group.events)
        .find(|spec| spec.kind == Some(kind) && spec.event == event && spec.umask == umask)
        .unwrap();

    assert_eq!(event_spec.event, event);
    assert_eq!(event_spec.umask, umask);
}

#[test]
fn spr_uses_imc_event_encodings() {
    assert_spr_event(spr::SprImcEventKind::ReadInsert, 0x10, 0x03);
    assert_spr_event(spr::SprImcEventKind::WriteInsert, 0x20, 0x03);
    assert_spr_event(spr::SprImcEventKind::ReadOccupancy, 0x80, 0x00);
    assert_spr_event(spr::SprImcEventKind::ReadOccupancy, 0x81, 0x00);
    assert_spr_event(spr::SprImcEventKind::WriteOccupancy, 0x82, 0x00);
    assert_spr_event(spr::SprImcEventKind::WriteOccupancy, 0x83, 0x00);
    assert_spr_event(spr::SprImcEventKind::ReadCas, 0x05, 0xcf);
    assert_spr_event(spr::SprImcEventKind::WriteCas, 0x05, 0xf0);
    assert_spr_event(spr::SprImcEventKind::Activate, 0x02, 0xff);
    assert_spr_event(spr::SprImcEventKind::PageMissPrecharge, 0x03, 0x33);
}

#[test]
fn decodes_uncore_discovery_vsec() {
    let first: u64 = DISCOVERY_CAPABILITY as u64 | (0x120_u64 << 20);
    let second: u64 = PERFORMANCE_MONITORING as u64
        | (0x24_u64 << 16)
        | (0x03_u64 << 24)
        | (3_u64 << 32)
        | (0x12345_u64 << 35);
    let vsec = UncoreDiscoveryVsec::from_words(first, second);

    assert_eq!(vsec.address, 0x12345);
    assert_eq!(vsec.cap_id, DISCOVERY_CAPABILITY);
    assert_eq!(vsec.cap_next, 0x120);
    assert_eq!(vsec.entry_id, PERFORMANCE_MONITORING);
    assert_eq!(vsec.tbir, 3);
}

#[test]
fn decodes_64_bit_discovery_bar() {
    assert_eq!(decode_discovery_bar(0x1234_5004, 0x0000_0078), 0x78_1234_5000);
}

#[test]
fn maps_pci_device_scope_from_local_cpu_topology() {
    let topologies = vec![topology(0, 0, 0, 0), topology(1, 0, 0, 0), topology(8, 1, 0, 0)];
    let scope: spr::SprImcScope = scope_from_local_cpus(&vec![8], &topologies).unwrap();

    assert_eq!(scope.package_id, 1);
}

#[test]
fn decodes_uncore_discovery_box() {
    let words: [u64; 3] = [
        4_u64 | (0x40_u64 << 8) | (64_u64 << 16) | (0x08_u64 << 24) | (1_u64 << 62),
        0x1234_5000,
        spr::SPR_IMC_BOX_TYPE as u64,
    ];
    let box_pmu = UncoreBoxDiscovery::from_words(words);

    assert_eq!(box_pmu.access_type, 1);
    assert_eq!(box_pmu.bit_width, 64);
    assert_eq!(box_pmu.box_control, 0x1234_5000);
    assert_eq!(box_pmu.box_type, spr::SPR_IMC_BOX_TYPE);
    assert_eq!(box_pmu.counter_offset, 0x08);
    assert_eq!(box_pmu.control_offset, 0x40);
    assert_eq!(box_pmu.num_registers, 4);
}

#[test]
fn spr_computes_multiplexed_metrics() {
    let metrics = spr::SprImcMetrics::from_measurements(&accumulate(
        SPR_SCOPE,
        &[
            (spr::SprImcEventKind::ReadInsert, counted(200, 1_000, 100)),
            (spr::SprImcEventKind::WriteInsert, counted(300, 1_000, 100)),
            (spr::SprImcEventKind::ReadOccupancy, counted(400, 1_000, 100)),
            (spr::SprImcEventKind::WriteOccupancy, counted(600, 1_000, 100)),
            (spr::SprImcEventKind::ReadCas, counted(2_000, 1_000, 100)),
            (spr::SprImcEventKind::WriteCas, counted(3_000, 1_000, 100)),
            (spr::SprImcEventKind::Activate, counted(1_000, 1_000, 100)),
            (spr::SprImcEventKind::PageMissPrecharge, counted(700, 1_000, 100)),
        ],
    ))
    .unwrap();

    let scope_metrics = metrics.scopes[0];

    assert_eq!(value(scope_metrics.activate_commands_per_second), 10_000.0);
    assert_eq!(value(scope_metrics.frequency_hz), 10_000.0);
    assert_eq!(value(scope_metrics.page_miss_precharge_commands_per_second), 7_000.0);
    assert_eq!(value(scope_metrics.read_cas_commands_per_second), 20_000.0);
    assert_eq!(value(scope_metrics.read_bytes_per_second), 1_280_000.0);
    assert_eq!(value(scope_metrics.write_cas_commands_per_second), 30_000.0);
    assert_eq!(value(scope_metrics.write_bytes_per_second), 1_920_000.0);
    assert_eq!(value(scope_metrics.rpq_occupancy_entries), 0.4);
    assert_eq!(value(scope_metrics.wpq_occupancy_entries), 0.6);
    assert_close(value(scope_metrics.rpq_residency_seconds), 0.0002);
    assert_close(value(scope_metrics.wpq_residency_seconds), 0.0002);
}

#[test]
fn spr_computes_residency_from_occupancy_dclk_and_insert_rate() {
    let occupancy = EventMeasurement {
        enabled_nanos: SECOND,
        running_nanos: 400 * MILLISECOND,
        ticks: 400,
        value: 800,
    };
    let insert = EventMeasurement {
        enabled_nanos: SECOND,
        running_nanos: 200 * MILLISECOND,
        ticks: 200,
        value: 2_000_000,
    };

    assert_close(value(occupancy_over_rate(occupancy, insert)), 0.0000002);
}

fn spr_boxes() -> Vec<UncoreDiscoverySocketBoxes<spr::SprImcScope>> {
    vec![UncoreDiscoverySocketBoxes {
        boxes: vec![
            UncoreBoxDiscovery {
                access_type: spr::MMIO_ACCESS,
                bit_width: 48,
                box_control: 0x1234_5000,
                box_type: spr::SPR_IMC_BOX_TYPE,
                counter_offset: 0x08,
                control_offset: 0x40,
                num_registers: 4,
            },
        ],
        scope: SPR_SCOPE,
    }]
}

#[test]
fn spr_imc_counts_in_the_boxes_that_were_found() {
    let collector = spr::SprImcCollector::new(&test_architecture(0x8f), &spr_boxes()).unwrap();

    assert_eq!(collector.freeze_writes().len(), 1);
    assert!(matches!(
        spr::SprImcCollector::new(&test_architecture(0x8f), &Vec::new()),
        Err(CollectorError::NothingFound { what: "IMC channels from PMU discovery" })
    ));
    assert!(matches!(
        spr::SprImcCollector::new(&test_architecture(0x55), &spr_boxes()),
        Err(CollectorError::Unsupported { .. })
    ));
}
