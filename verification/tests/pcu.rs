use ocellus::accumulator::{Accumulator, Sample};
use ocellus::arch::{Architecture, IntelServerCpuModel};
use ocellus::counter::{counter_delta, mask_width};
use ocellus::discovery::{UncoreBoxDiscovery, UncoreDiscoverySocketBoxes};
use ocellus::ep::SnbArchitecture;
use ocellus::error::CollectorError;
use ocellus::metrics::pcu::common::{ClockEstimate, PcuEventKind, PcuMeasurement, PcuReadings};
use ocellus::metrics::pcu::{
    hsx, icx, skx, snb, spr, PcuCollector, PcuCoreCState, PcuFrequencyLimitReason, PcuInventory,
    PcuPackageScope, PcuScope, PcuThermalThrottleSource,
};
use ocellus::ordered_map::Key;
use ocellus::quantity::{
    ratio_parts, residency_parts, share_parts, EnergyUnit, Quantity, ScaledCount,
};
use ocellus::registers::{Register, RegisterWrite, Width};
use ocellus::topology::{
    CpuTopology, HsxUncoreScope, TopologyLevel, TopologyLevelKind, UncoreScope,
};
use std::time::Duration;

fn seconds(nanos: u128) -> f64 {
    Duration::new((nanos / 1_000_000_000) as u64, (nanos % 1_000_000_000) as u32).as_secs_f64()
}

fn scaled(count: ScaledCount) -> u64 {
    if count.running_nanos == 0 {
        0
    } else {
        (count.value as f64 * seconds(count.enabled_nanos) / seconds(count.running_nanos)) as u64
    }
}

fn over(numerator: f64, denominator: f64) -> f64 {
    if denominator == 0.0 {
        0.0
    } else {
        numerator / denominator
    }
}

fn quotient(parts: Option<(u64, u64)>) -> f64 {
    match parts {
        Some((numerator, denominator)) => numerator as f64 / denominator as f64,
        None => 0.0,
    }
}

fn joules(unit: EnergyUnit) -> f64 {
    match unit {
        EnergyUnit::Fraction { exponent } => 1.0 / (1_u64 << exponent) as f64,
        EnergyUnit::ServerDram => 15.3 / 1_000_000.0,
    }
}

fn value(quantity: Quantity) -> f64 {
    match quantity {
        Quantity::Zero => 0.0,
        Quantity::EventRate { count, per_nanos } => over(scaled(count) as f64, seconds(per_nanos)),
        Quantity::ByteRate { count, per_nanos, bytes, events } => {
            over(scaled(count) as f64, seconds(per_nanos)) * (bytes as f64 / events as f64)
        }
        Quantity::Energy { raw, unit } => raw as f64 * joules(unit),
        Quantity::Power { raw, unit, elapsed_nanos } => {
            raw as f64 * joules(unit) / seconds(elapsed_nanos)
        }
        Quantity::Frequency { ticks, running_nanos } => over(ticks as f64, seconds(running_nanos)),
        Quantity::Ratio { numerator, denominator } => over(numerator as f64, denominator as f64),
        Quantity::ScaledRatio { numerator, denominator } => {
            quotient(ratio_parts(scaled(numerator), scaled(denominator)))
        }
        Quantity::ScaledShare { part, rest } => {
            quotient(share_parts(scaled(part), scaled(rest)).expect("sum of counts overflows"))
        }
        Quantity::TickResidency { running_nanos, ticks, occupancy, inserts } => {
            seconds(running_nanos) / ticks as f64 * over(occupancy as f64, inserts as f64)
        }
        Quantity::OccupancyOverRate { occupancy, ticks, inserts, running_nanos } => over(
            over(occupancy as f64, ticks as f64),
            over(inserts as f64, seconds(running_nanos)),
        ),
        Quantity::ScaledResidency { occupancy, excluded, inserts, clockticks, enabled_nanos } => {
            match residency_parts(
                scaled(occupancy),
                scaled(excluded),
                scaled(inserts),
                scaled(clockticks),
            ) {
                Some((left, inserts, ticks)) => {
                    seconds(enabled_nanos) / ticks as f64 * left as f64 / inserts as f64
                }
                None => 0.0,
            }
        }
        Quantity::LinkLatency { occupancy, inserts, clockticks, enabled_nanos } => {
            match residency_parts(scaled(occupancy), 0, scaled(inserts), scaled(clockticks)) {
                Some((occupancy, inserts, ticks)) => {
                    occupancy as f64 / inserts as f64 * seconds(enabled_nanos) / ticks as f64
                }
                None => 0.0,
            }
        }
    }
}

const MILLISECOND: u128 = 1_000_000;
const SECOND: u128 = 1_000_000_000;

const UNIT_CONTROL_RESET_BIT: u64 = 1;
const UNIT_COUNTER_RESET_BIT: u64 = 1 << 1;
const UNIT_FREEZE_BIT: u64 = 1 << 8;
const UNIT_FREEZE_ENABLE_BIT: u64 = 1 << 16;

fn in_one_second(ticks: u64, value: u64) -> PcuMeasurement {
    PcuMeasurement { running_nanos: SECOND, ticks, value }
}

fn accumulate<S: Key>(
    scope: S,
    counts: &[(PcuEventKind, PcuMeasurement)],
) -> Accumulator<S, PcuEventKind, PcuMeasurement> {
    let mut accumulator = Accumulator::new();
    for (kind, measurement) in counts {
        let sample = Sample { scope, kind: *kind, measurement: *measurement };
        accumulator = accumulator.add(sample).unwrap();
    }
    accumulator
}

fn test_architecture(model: u8) -> Architecture {
    Architecture {
        brand: "test".to_string(),
        family: 6,
        model,
        vendor: "GenuineIntel".to_string(),
    }
}

fn topology(cpu: u32, package_id: u32) -> CpuTopology {
    CpuTopology {
        cpu,
        levels: vec![TopologyLevel { id: package_id, kind: TopologyLevelKind::Package, shift: 0 }],
        x2apic_id: cpu,
    }
}

const PACKAGE: PcuPackageScope = PcuPackageScope { package_id: 0 };
const SCOPE: PcuScope = PcuScope { die_group_id: 0, die_id: 0, package_id: 0 };

// Haswell and Broadwell.

#[test]
fn hsx_occupancy_events_encode_umask() {
    let c6 = hsx::event_groups()[0].events[3];

    assert_eq!(c6.event, 0x80);
    assert_eq!((hsx::counter_control(c6) >> 8) & 0xff, 0xc0);
}

#[test]
fn haswell_broadwell_do_not_include_current_limit_event() {
    assert!(!hsx::event_groups().iter().any(|group| {
        group.events.iter().any(|event| {
            matches!(event.kind, PcuEventKind::FrequencyLimit(PcuFrequencyLimitReason::Current))
        })
    }));
}

#[test]
fn hsx_clock_estimate_scales_ticks_to_other_slices() {
    let estimate = ClockEstimate { running_nanos: 20 * MILLISECOND, ticks: 20_000_000 };

    assert_eq!(scaled(estimate.ticks_for(10 * MILLISECOND)), 10_000_000);
    assert_eq!(scaled(estimate.ticks_for(40 * MILLISECOND)), 40_000_000);
}

#[test]
fn hsx_zero_running_clock_estimate_returns_zero_ticks() {
    let estimate = ClockEstimate { running_nanos: 0, ticks: 1 };

    assert_eq!(scaled(estimate.ticks_for(10 * MILLISECOND)), 0);
}

#[test]
fn hsx_derives_ratios_from_measurements() {
    let metrics = hsx::HsxPcuMetrics::from_measurements(&accumulate(
        PACKAGE,
        &[
            (PcuEventKind::Clockticks, in_one_second(100, 100)),
            (
                PcuEventKind::ThermalThrottle(PcuThermalThrottleSource::VrHot),
                in_one_second(100, 40),
            ),
        ],
    ))
    .unwrap();

    assert_eq!(value(metrics.clocks[0].frequency_hz), 100.0);
    assert_eq!(value(metrics.thermal_throttles[0].ratio), 0.4);
}

#[test]
fn hsx_pcu_writes_the_registers_of_its_packages() {
    let collector = hsx::HsxPcuCollector::new(
        &test_architecture(0x3f),
        &vec![topology(0, 0), topology(1, 0), topology(4, 1)],
    )
    .unwrap();

    assert_eq!(
        collector.unfreeze_writes(),
        vec![
            RegisterWrite {
                register: Register::Msr { address: 0x710, cpu: 0 },
                value: hsx::UNIT_UNFREEZE,
                width: Width::Bits64,
            },
            RegisterWrite {
                register: Register::Msr { address: 0x710, cpu: 4 },
                value: hsx::UNIT_UNFREEZE,
                width: Width::Bits64,
            },
        ]
    );
    assert!(matches!(
        hsx::HsxPcuCollector::new(&test_architecture(0x55), &Vec::new()),
        Err(CollectorError::Unsupported { model: IntelServerCpuModel::SkylakeXeon, .. })
    ));
    assert_eq!(hsx::pcu_control_offset(3), 0x714);
    assert_eq!(hsx::pcu_counter_offset(3), 0x71a);
}

// Ice Lake.

#[test]
fn icx_box_control_does_not_use_freeze_enable_bit() {
    assert_eq!(icx::UNIT_FREEZE, UNIT_FREEZE_BIT);
    assert_eq!(
        icx::UNIT_FREEZE_AND_RESET,
        UNIT_CONTROL_RESET_BIT | UNIT_COUNTER_RESET_BIT | UNIT_FREEZE_BIT
    );
    assert_eq!(icx::UNIT_UNFREEZE, 0);
}

#[test]
fn programs_only_clockticks() {
    assert_eq!(icx::counter_control(0x00) & 0xff, 0x00);
}

#[test]
fn converts_ticks_to_frequency() {
    let metrics = icx::IcxPcuMetrics::from_readings(&vec![icx::IcxPcuReading {
        running_nanos: 2 * SECOND,
        scope: UncoreScope { die_group_id: 0, die_id: 0, package_id: 0 },
        ticks: 200,
    }]);

    assert_eq!(value(metrics.clocks[0].frequency_hz), 100.0);
}

#[test]
fn icx_pcu_reports_one_clock_for_each_package() {
    let collector =
        icx::IcxPcuCollector::new(&test_architecture(0x6a), &vec![topology(0, 0), topology(4, 1)])
            .unwrap();

    assert_eq!(collector.begin_sample(SECOND).unwrap(), SECOND);
    assert!(matches!(collector.begin_sample(0), Err(CollectorError::ZeroInterval { .. })));
    assert_eq!(collector.reads().len(), 2);
    let readings = collector.readings(&vec![100, (1 << 50) | 200], SECOND).unwrap();
    let metrics = collector.finish_sample(&readings);
    assert_eq!(metrics.clocks.len(), 2);
    assert_eq!(value(metrics.clocks[0].frequency_hz), 100.0);
    assert_eq!(value(metrics.clocks[1].frequency_hz), 200.0);
    assert_eq!(metrics.clocks[1].scope.package_id, 1);
    assert!(matches!(
        collector.readings(&vec![100, 200, 300], SECOND),
        Err(CollectorError::ReadingCount { expected: 1, found: 3 })
    ));
}

// Which processors are known.

#[test]
fn pcu_package_is_that_of_the_uncore() {
    let scope = PcuPackageScope::from_hsx_scope(HsxUncoreScope { package_id: 3 });
    assert_eq!(scope.package_id, 3);
}

#[test]
fn supports_mainline_pcu_architectures() {
    assert!(PcuCollector::is_supported(&test_architecture(0x2d)));
    assert!(PcuCollector::is_supported(&test_architecture(0x3e)));
    assert!(PcuCollector::is_supported(&test_architecture(0x3f)));
    assert!(PcuCollector::is_supported(&test_architecture(0x4f)));
    assert!(PcuCollector::is_supported(&test_architecture(0x56)));
    assert!(PcuCollector::is_supported(&test_architecture(0x55)));
    assert!(!PcuCollector::is_supported(&test_architecture(0x57)));
    assert!(PcuCollector::is_supported(&test_architecture(0x6a)));
    assert!(!PcuCollector::is_supported(&test_architecture(0x6c)));
    assert!(PcuCollector::is_supported(&test_architecture(0x8f)));
    assert!(PcuCollector::is_supported(&test_architecture(0xcf)));
}

fn pcu_box() -> UncoreBoxDiscovery {
    UncoreBoxDiscovery {
        access_type: spr::DISCOVERY_ACCESS_TYPE_MSR,
        bit_width: 48,
        box_control: 0x1c00,
        box_type: spr::DISCOVERY_BOX_TYPE,
        counter_offset: 0x08,
        control_offset: 0x20,
        num_registers: 4,
    }
}

fn inventory() -> PcuInventory {
    PcuInventory {
        sockets: vec![UncoreDiscoverySocketBoxes {
            boxes: vec![pcu_box()],
            scope: UncoreScope { die_group_id: 0, die_id: 0, package_id: 0 },
        }],
        topologies: vec![topology(0, 0)],
    }
}

#[test]
fn pcu_collector_is_that_of_the_processor() {
    let collector = |model: u8| PcuCollector::new(&test_architecture(model), &inventory());
    assert!(matches!(collector(0x2d), Ok(PcuCollector::Snb(_))));
    assert!(matches!(collector(0x3e), Ok(PcuCollector::Ivb(_))));
    assert!(matches!(collector(0x3f), Ok(PcuCollector::Hsx(_))));
    assert!(matches!(collector(0x4f), Ok(PcuCollector::Bdx(_))));
    assert!(matches!(collector(0x56), Ok(PcuCollector::BdxDe(_))));
    assert!(matches!(collector(0x55), Ok(PcuCollector::Skx(_))));
    assert!(matches!(collector(0x6a), Ok(PcuCollector::Icx(_))));
    assert!(matches!(collector(0x8f), Ok(PcuCollector::Spr(_))));
    assert!(matches!(collector(0xcf), Ok(PcuCollector::Emr(_))));
}

#[test]
fn pcu_labels() {
    assert_eq!(PcuCoreCState::C0.label(), "c0");
    assert_eq!(PcuCoreCState::C6.label(), "c6");
    assert_eq!(PcuFrequencyLimitReason::IoP.label(), "io_p");
    assert_eq!(PcuFrequencyLimitReason::PerfP.label(), "perf_p");
    assert_eq!(PcuFrequencyLimitReason::Thermal.label(), "thermal");
    assert_eq!(PcuThermalThrottleSource::ExternalProchot.label(), "external_prochot");
    assert_eq!(PcuThermalThrottleSource::InternalProchot.label(), "internal_prochot");
    assert_eq!(PcuThermalThrottleSource::VrHot.label(), "vr_hot");
}

// Skylake.

#[test]
fn skx_box_control_does_not_use_freeze_enable_bit() {
    assert_eq!(skx::UNIT_FREEZE, UNIT_FREEZE_BIT);
    assert_eq!(
        skx::UNIT_FREEZE_AND_RESET,
        UNIT_CONTROL_RESET_BIT | UNIT_COUNTER_RESET_BIT | UNIT_FREEZE_BIT
    );
    assert_eq!(skx::UNIT_UNFREEZE, 0);
}

#[test]
fn skx_occupancy_events_encode_umask() {
    let c6 = skx::event_groups()[0].events[3];

    assert_eq!(c6.event, 0x80);
    assert_eq!((skx::counter_control(c6) >> 8) & 0xff, 0xc0);
}

#[test]
fn unverified_frequency_limit_events_are_not_collected() {
    for group in skx::event_groups() {
        for event in group.events {
            assert!(!matches!(
                event.kind,
                PcuEventKind::FrequencyLimit(
                    PcuFrequencyLimitReason::Current
                        | PcuFrequencyLimitReason::Os
                        | PcuFrequencyLimitReason::PerfP
                )
            ));
        }
    }
}

#[test]
fn mcp_prochot_is_not_exported_as_os_frequency_limit() {
    for group in skx::event_groups() {
        for event in group.events {
            assert_ne!(event.event, 0x06);
        }
    }
}

#[test]
fn skx_clock_estimate_scales_ticks_to_other_slices() {
    let estimate = ClockEstimate { running_nanos: 20 * MILLISECOND, ticks: 22_000_000 };

    assert_eq!(scaled(estimate.ticks_for(10 * MILLISECOND)), 11_000_000);
    assert_eq!(scaled(estimate.ticks_for(40 * MILLISECOND)), 44_000_000);
}

#[test]
fn skx_zero_running_clock_estimate_returns_zero_ticks() {
    let estimate = ClockEstimate { running_nanos: 0, ticks: 1 };

    assert_eq!(scaled(estimate.ticks_for(10 * MILLISECOND)), 0);
}

#[test]
fn skx_derives_ratios_from_measurements() {
    let metrics = skx::SkxPcuMetrics::from_measurements(&accumulate(
        SCOPE,
        &[
            (PcuEventKind::Clockticks, in_one_second(100, 100)),
            (PcuEventKind::CoreCState(PcuCoreCState::C0), in_one_second(100, 250)),
            (
                PcuEventKind::FrequencyLimit(PcuFrequencyLimitReason::IoP),
                in_one_second(100, 25),
            ),
        ],
    ))
    .unwrap();

    assert_eq!(value(metrics.clocks[0].frequency_hz), 100.0);
    assert_eq!(value(metrics.core_c_states[0].average_cores), 2.5);
    assert_eq!(value(metrics.frequency_limits[0].ratio), 0.25);
}

#[test]
fn skx_pcu_sample_estimates_the_clock_where_it_is_not_counted() {
    let mut collector =
        skx::SkxPcuCollector::new(&test_architecture(0x55), &vec![topology(0, 0)]).unwrap();
    let mut measurements = Accumulator::new();

    let slices = collector.begin_sample(SECOND).unwrap();
    for slice in slices {
        let values: Vec<u64> = collector.reads(slice.group).iter().map(|_| 1_000).collect();
        let running_nanos: u128 = 20 * MILLISECOND;
        let counts_clock: bool =
            slice.group.events.iter().any(|event| event.kind == PcuEventKind::Clockticks);
        let estimated: Vec<u64> = if counts_clock {
            Vec::new()
        } else {
            let estimates = collector.clock_estimates(&measurements).unwrap();
            collector
                .estimated_ticks(&estimates, running_nanos)
                .unwrap()
                .into_iter()
                .map(scaled)
                .collect()
        };
        let readings = PcuReadings { values, running_nanos };
        measurements =
            collector.record(slice.group, &readings, &estimated, measurements).unwrap();
    }
    let metrics = collector.finish_sample(&measurements).unwrap();
    // 1000 ticks in 20 milliseconds, in every slice.
    assert_eq!(value(metrics.clocks[0].frequency_hz), 50_000.0);
    assert_eq!(value(metrics.core_c_states[0].average_cores), 1.0);
    assert!(!metrics.thermal_throttles.is_empty());
    for throttle in metrics.thermal_throttles {
        assert_eq!(value(throttle.ratio), 1.0);
    }
}

#[test]
fn skx_pcu_takes_the_last_counter_of_an_event() {
    let collector =
        skx::SkxPcuCollector::new(&test_architecture(0x55), &vec![topology(0, 0)]).unwrap();
    let clock = skx::SkxPcuEventSpec::new(PcuEventKind::Clockticks, 0);
    let shedding = skx::SkxPcuEventSpec::new(PcuEventKind::MemoryPhaseShedding, 0x2f);
    let group = skx::SkxPcuEventGroup { events: [clock, shedding, clock, shedding] };
    let readings = PcuReadings { values: vec![10, 20, 30, 40], running_nanos: MILLISECOND };
    let measurements =
        collector.record(group, &readings, &Vec::new(), Accumulator::new()).unwrap();
    assert_eq!(
        measurements.get(SCOPE, PcuEventKind::Clockticks),
        Some(PcuMeasurement { running_nanos: MILLISECOND, ticks: 30, value: 30 })
    );
    assert_eq!(
        measurements.get(SCOPE, PcuEventKind::MemoryPhaseShedding),
        Some(PcuMeasurement { running_nanos: MILLISECOND, ticks: 30, value: 40 })
    );
}

#[test]
fn pcu_needs_a_clock() {
    let collector =
        skx::SkxPcuCollector::new(&test_architecture(0x55), &vec![topology(0, 0)]).unwrap();

    assert!(matches!(collector.begin_sample(0), Err(CollectorError::ZeroInterval { .. })));
    assert!(matches!(
        collector.clock_estimates(&accumulate(
            SCOPE,
            &[(PcuEventKind::MemoryPhaseShedding, in_one_second(1, 1))]
        )),
        Err(CollectorError::MissingMeasurement { unit: "PCU", event: "Clockticks" })
    ));
    let estimates = collector.clock_estimates(&Accumulator::new()).unwrap();
    assert!(matches!(
        collector.estimated_ticks(&estimates, MILLISECOND),
        Err(CollectorError::MissingClock { package_id: 0, .. })
    ));
    let collector =
        hsx::HsxPcuCollector::new(&test_architecture(0x3f), &vec![topology(0, 2)]).unwrap();
    let estimates = collector.clock_estimates(&Accumulator::new()).unwrap();
    assert!(matches!(
        collector.estimated_ticks(&estimates, MILLISECOND),
        Err(CollectorError::MissingPackageClock { package_id: 2 })
    ));
}

// Sandy Bridge and Ivy Bridge.

#[test]
fn sandy_bridge_box_control_keeps_freeze_enable_bit() {
    assert_eq!(SnbArchitecture::Snb.unit_freeze(), UNIT_FREEZE_BIT | UNIT_FREEZE_ENABLE_BIT);
    assert_eq!(
        SnbArchitecture::Snb.unit_freeze_and_reset(),
        UNIT_CONTROL_RESET_BIT | UNIT_COUNTER_RESET_BIT | UNIT_FREEZE_BIT | UNIT_FREEZE_ENABLE_BIT
    );
    assert_eq!(SnbArchitecture::Snb.unit_unfreeze(), UNIT_FREEZE_ENABLE_BIT);
}

#[test]
fn ivy_bridge_box_control_drops_freeze_enable_bit() {
    assert_eq!(SnbArchitecture::Ivb.unit_freeze(), UNIT_FREEZE_BIT);
    assert_eq!(
        SnbArchitecture::Ivb.unit_freeze_and_reset(),
        UNIT_CONTROL_RESET_BIT | UNIT_COUNTER_RESET_BIT | UNIT_FREEZE_BIT
    );
    assert_eq!(SnbArchitecture::Ivb.unit_unfreeze(), 0);
}

#[test]
fn sandy_bridge_frequency_transition_uses_ext_select() {
    let event = snb::event_groups(SnbArchitecture::Snb)[2].events[0];

    assert_eq!(event.event, 0x00);
    assert!(event.ext_sel);
    assert_ne!(snb::counter_control(event) & (1 << 21), 0);
}

#[test]
fn ivy_bridge_frequency_transition_uses_native_event() {
    let event = snb::event_groups(SnbArchitecture::Ivb)[2].events[0];

    assert_eq!(event.event, 0x60);
    assert!(!event.ext_sel);
    assert_eq!(snb::counter_control(event) & (1 << 21), 0);
}

#[test]
fn occupancy_events_encode_occ_sel() {
    let c6 = snb::event_groups(SnbArchitecture::Snb)[0].events[3];

    assert_eq!(c6.event, 0x80);
    assert_eq!((snb::counter_control(c6) >> 14) & 0x03, 0x03);
}

#[test]
fn sandy_bridge_does_not_collect_package_c_states() {
    for group in snb::event_groups(SnbArchitecture::Snb) {
        for event in group.events {
            assert!(!matches!(event.kind, PcuEventKind::PackageCState(_)));
        }
    }
}

#[test]
fn ivy_bridge_package_c_states_do_not_use_ext_select() {
    let group = snb::event_groups(SnbArchitecture::Ivb)[4];

    for event in &group.events[..3] {
        assert!(matches!(event.kind, PcuEventKind::PackageCState(_)));
        assert!(!event.ext_sel);
        assert_eq!(snb::counter_control(*event) & (1 << 21), 0);
    }
    assert_eq!(group.events[0].event, 0x2a);
    assert_eq!(group.events[1].event, 0x2c);
    assert_eq!(group.events[2].event, 0x2d);
}

#[test]
fn snb_clock_estimate_scales_ticks_to_other_slices() {
    let estimate = ClockEstimate { running_nanos: 20 * MILLISECOND, ticks: 16_000_000 };

    assert_eq!(scaled(estimate.ticks_for(10 * MILLISECOND)), 8_000_000);
    assert_eq!(scaled(estimate.ticks_for(40 * MILLISECOND)), 32_000_000);
}

#[test]
fn snb_zero_running_clock_estimate_returns_zero_ticks() {
    let estimate = ClockEstimate { running_nanos: 0, ticks: 1 };

    assert_eq!(scaled(estimate.ticks_for(10 * MILLISECOND)), 0);
}

#[test]
fn snb_derives_ratios_from_measurements() {
    let metrics = snb::SnbPcuMetrics::from_measurements(&accumulate(
        PACKAGE,
        &[
            (PcuEventKind::Clockticks, in_one_second(100, 100)),
            (PcuEventKind::CoreCState(PcuCoreCState::C0), in_one_second(100, 250)),
            (
                PcuEventKind::FrequencyLimit(PcuFrequencyLimitReason::Power),
                in_one_second(100, 25),
            ),
        ],
    ))
    .unwrap();

    assert_eq!(value(metrics.clocks[0].frequency_hz), 100.0);
    assert_eq!(value(metrics.core_c_states[0].average_cores), 2.5);
    assert_eq!(value(metrics.frequency_limits[0].ratio), 0.25);
}

#[test]
fn snb_pcu_clears_its_filter() {
    let collector =
        snb::SnbPcuCollector::new(&test_architecture(0x2d), &vec![topology(0, 0)]).unwrap();
    let writes = collector.program_writes(snb::event_groups(SnbArchitecture::Snb)[0]);

    assert!(writes.contains(&RegisterWrite {
        register: Register::Msr { address: snb::FILTER, cpu: 0 },
        value: 0,
        width: Width::Bits64,
    }));
    assert_eq!(
        writes[0],
        RegisterWrite {
            register: Register::Msr { address: snb::BOX_CONTROL, cpu: 0 },
            value: SnbArchitecture::Snb.unit_freeze_and_reset(),
            width: Width::Bits64,
        }
    );
}

// Sapphire Rapids and Emerald Rapids.

#[test]
fn mainline_spr_emr_events_are_clockticks_c0_and_c6() {
    let group = spr::event_group();
    assert_eq!(group.events[0].event, 0x01);
    assert_eq!(group.events[1].event, 0x35);
    assert_eq!(group.events[2].event, 0x37);
    assert!(matches!(group.events[3].kind, PcuEventKind::Unused));
}

#[test]
fn spr_emr_msr_counter_control_uses_raw_event_config() {
    let c0 = spr::event_group().events[1];

    assert_eq!(spr::counter_control(c0), 0x35);
}

#[test]
fn spr_emr_msr_addresses_use_discovered_box_control_base() {
    let unit = spr::SprPcuUnit {
        control_offset: 0x20,
        counter_offset: 0x08,
        counter_width: 48,
        cpu: 0,
        unit_control: 0x1c00,
    };

    assert_eq!(unit.control_address(0), 0x1c20);
    assert_eq!(unit.control_address(3), 0x1c23);
    assert_eq!(unit.counter_address(0), 0x1c08);
    assert_eq!(unit.counter_address(3), 0x1c0b);
}

#[test]
fn masks_discovered_counter_widths() {
    assert_eq!(mask_width(u64::MAX, 64), u64::MAX);
    assert_eq!(mask_width((1_u64 << 50) | 7, 48), 7);
}

#[test]
fn computes_counter_delta_for_discovered_widths() {
    assert_eq!(counter_delta(u64::MAX - 4, 2, 64), 7);
    assert_eq!(counter_delta((1_u64 << 48) - 4, 2, 48), 6);
}

#[test]
fn derives_core_c_state_average() {
    let metrics = spr::SprPcuMetrics::from_measurements(&accumulate(
        SCOPE,
        &[
            (PcuEventKind::Clockticks, in_one_second(100, 100)),
            (PcuEventKind::CoreCState(PcuCoreCState::C6), in_one_second(100, 300)),
        ],
    ))
    .unwrap();

    assert_eq!(value(metrics.clocks[0].frequency_hz), 100.0);
    assert_eq!(value(metrics.core_c_states[0].average_cores), 3.0);
}

#[test]
fn spr_pcu_sample_is_reported() {
    let collector =
        spr::SprPcuCollector::new(&inventory().sockets, &inventory().topologies).unwrap();
    assert_eq!(collector.begin_sample(SECOND).unwrap(), SECOND);
    assert_eq!(
        collector.reads()[0].register,
        Register::Msr { address: 0x1c08, cpu: 0 }
    );
    let values: Vec<u64> = collector.reads().iter().map(|_| 500).collect();
    let readings = PcuReadings { values, running_nanos: SECOND };
    let measurements = collector.record(&readings, Accumulator::new()).unwrap();
    let metrics = collector.finish_sample(&measurements).unwrap();
    assert_eq!(value(metrics.clocks[0].frequency_hz), 500.0);
    assert_eq!(value(metrics.core_c_states[0].average_cores), 1.0);
    assert!(matches!(collector.begin_sample(0), Err(CollectorError::ZeroInterval { .. })));
    assert!(matches!(
        spr::SprPcuCollector::new(&Vec::new(), &inventory().topologies),
        Err(CollectorError::NothingFound { what: "SPR/EMR PCU boxes from PMU discovery" })
    ));
    assert!(matches!(
        spr::SprPcuCollector::new(&inventory().sockets, &Vec::new()),
        Err(CollectorError::NothingFound { what: "uncore scope leaders" })
    ));
}
