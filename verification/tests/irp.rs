use ocellus::accumulator::{Accumulator, EventKind, EventMeasurement, Sample};
use ocellus::arch::{Architecture, IntelServerCpuModel};
use ocellus::ep::SnbArchitecture;
use ocellus::error::CollectorError;
use ocellus::metrics::irp::{hsx, icx, skx, snb, spr, IrpCollector, IrpInventory};
use ocellus::ordered_map::Key;
use ocellus::pci::{PciLocation, PciVendorDevice};
use ocellus::quantity::{
    ratio_parts, residency_parts, share_parts, EnergyUnit, Quantity, ScaledCount,
};
use ocellus::registers::{PmonWords, Register, RegisterRead, RegisterWrite, Width};
use ocellus::schedule::Slice;
use ocellus::sockets::UboxNode;
use ocellus::topology::{
    CpuTopology, HsxUncoreScope, TopologyLevel, TopologyLevelKind, UncoreScope,
};
use ocellus::units::{SliceReadings, Unit};
use std::time::Duration;

fn seconds(nanos: u128) -> f64 {
    Duration::new((nanos / 1_000_000_000) as u64, (nanos % 1_000_000_000) as u32).as_secs_f64()
}

fn scaled(count: ScaledCount) -> u64 {
    if count.running_nanos == 0 {
        0
    } else {
        (count.value as f64 * seconds(count.enabled_nanos) / seconds(count.running_nanos)) as u64
    }
}

fn over(numerator: f64, denominator: f64) -> f64 {
    if denominator == 0.0 {
        0.0
    } else {
        numerator / denominator
    }
}

fn quotient(parts: Option<(u64, u64)>) -> f64 {
    match parts {
        Some((numerator, denominator)) => numerator as f64 / denominator as f64,
        None => 0.0,
    }
}

fn joules(unit: EnergyUnit) -> f64 {
    match unit {
        EnergyUnit::Fraction { exponent } => 1.0 / (1_u64 << exponent) as f64,
        EnergyUnit::ServerDram => 15.3 / 1_000_000.0,
    }
}

fn value(quantity: Quantity) -> f64 {
    match quantity {
        Quantity::Zero => 0.0,
        Quantity::EventRate { count, per_nanos } => over(scaled(count) as f64, seconds(per_nanos)),
        Quantity::ByteRate { count, per_nanos, bytes, events } => {
            over(scaled(count) as f64, seconds(per_nanos)) * (bytes as f64 / events as f64)
        }
        Quantity::Energy { raw, unit } => raw as f64 * joules(unit),
        Quantity::Power { raw, unit, elapsed_nanos } => {
            raw as f64 * joules(unit) / seconds(elapsed_nanos)
        }
        Quantity::Frequency { ticks, running_nanos } => over(ticks as f64, seconds(running_nanos)),
        Quantity::Ratio { numerator, denominator } => over(numerator as f64, denominator as f64),
        Quantity::ScaledRatio { numerator, denominator } => {
            quotient(ratio_parts(scaled(numerator), scaled(denominator)))
        }
        Quantity::ScaledShare { part, rest } => {
            quotient(share_parts(scaled(part), scaled(rest)).expect("sum of counts overflows"))
        }
        Quantity::TickResidency { running_nanos, ticks, occupancy, inserts } => {
            seconds(running_nanos) / ticks as f64 * over(occupancy as f64, inserts as f64)
        }
        Quantity::OccupancyOverRate { occupancy, ticks, inserts, running_nanos } => over(
            over(occupancy as f64, ticks as f64),
            over(inserts as f64, seconds(running_nanos)),
        ),
        Quantity::ScaledResidency { occupancy, excluded, inserts, clockticks, enabled_nanos } => {
            match residency_parts(
                scaled(occupancy),
                scaled(excluded),
                scaled(inserts),
                scaled(clockticks),
            ) {
                Some((left, inserts, ticks)) => {
                    seconds(enabled_nanos) / ticks as f64 * left as f64 / inserts as f64
                }
                None => 0.0,
            }
        }
        Quantity::LinkLatency { occupancy, inserts, clockticks, enabled_nanos } => {
            match residency_parts(scaled(occupancy), 0, scaled(inserts), scaled(clockticks)) {
                Some((occupancy, inserts, ticks)) => {
                    occupancy as f64 / inserts as f64 * seconds(enabled_nanos) / ticks as f64
                }
                None => 0.0,
            }
        }
    }
}

fn slice_groups<G>(slices: Vec<Slice<G>>) -> Vec<G> {
    slices.into_iter().map(|slice| slice.group).collect()
}

const MILLISECOND: u128 = 1_000_000;
const SECOND: u128 = 1_000_000_000;

fn counted(value: u64, milliseconds: u128) -> EventMeasurement {
    EventMeasurement {
        enabled_nanos: milliseconds * MILLISECOND,
        running_nanos: milliseconds * MILLISECOND,
        ticks: 0,
        value,
    }
}

fn accumulate<S: Key, K: EventKind>(
    scope: S,
    counts: &[(K, EventMeasurement)],
) -> Accumulator<S, K, EventMeasurement> {
    let mut accumulator = Accumulator::new();
    for (kind, measurement) in counts {
        let sample = Sample { scope, kind: *kind, measurement: *measurement };
        accumulator = accumulator.add(sample).unwrap();
    }
    accumulator
}

fn test_architecture(model: u8) -> Architecture {
    Architecture {
        brand: "test".to_string(),
        family: 6,
        model,
        vendor: "GenuineIntel".to_string(),
    }
}

const WORDS: PmonWords = PmonWords { freeze: 0x100, freeze_and_reset: 0x103, unfreeze: 0 };

fn topology(cpu: u32, package_id: u32) -> CpuTopology {
    CpuTopology {
        cpu,
        levels: vec![TopologyLevel { id: package_id, kind: TopologyLevelKind::Package, shift: 0 }],
        x2apic_id: cpu,
    }
}

fn at(bus: u8, device: u8, function: u8) -> PciLocation {
    PciLocation { bus, device, function, group: 0 }
}

#[test]
fn rotates_starting_event_group() {
    let mut collector = hsx::HsxIrpCollector::from_units(WORDS, Vec::new());
    let groups = hsx::event_groups();

    let thrice: Vec<hsx::HsxIrpEventGroup> =
        groups.iter().chain(&groups).chain(&groups).copied().collect();
    assert_eq!(slice_groups(collector.schedule(SECOND)), thrice);

    collector.rotate_group();
    let mut expected = groups.clone();
    expected.rotate_left(1);
    assert_eq!(slice_groups(collector.schedule(100 * MILLISECOND)), expected);
}

#[test]
fn skx_irp_rotates_starting_event_group() {
    let mut collector = skx::IrpCollector::from_units(WORDS, Vec::new());
    let groups = skx::event_groups();

    assert_eq!(
        slice_groups(collector.schedule(SECOND)),
        vec![
            groups[0], groups[1], groups[2], groups[3], groups[4], groups[5], groups[0],
            groups[1], groups[2], groups[3], groups[4], groups[5],
        ]
    );

    collector.rotate_group();
    assert_eq!(
        slice_groups(collector.schedule(100 * MILLISECOND)),
        vec![groups[1], groups[2], groups[3], groups[4], groups[5], groups[0]]
    );
}

#[test]
fn snb_irp_rotates_starting_event_group() {
    let mut collector = snb::SnbIrpCollector::from_units(SnbArchitecture::Snb, Vec::new());
    let groups = snb::event_groups();

    let five_times: Vec<snb::SnbIrpEventGroup> = groups
        .iter()
        .chain(&groups)
        .chain(&groups)
        .chain(&groups)
        .chain(&groups)
        .copied()
        .collect();
    assert_eq!(slice_groups(collector.schedule(SECOND)), five_times);

    collector.rotate_group();
    let mut expected = groups.clone();
    expected.rotate_left(1);
    assert_eq!(slice_groups(collector.schedule(100 * MILLISECOND)), expected);
}

// Haswell and Broadwell.

const HSX_SCOPE: HsxUncoreScope = HsxUncoreScope { package_id: 0 };

#[test]
fn computes_hsx_irp_metrics() {
    let metrics = hsx::HsxIrpMetrics::from_measurements(&accumulate(
        HSX_SCOPE,
        &[
            (hsx::HsxIrpEventKind::ClFlush, counted(100, 100)),
            (hsx::HsxIrpEventKind::Clockticks, counted(1_000, 100)),
            (hsx::HsxIrpEventKind::CoreRead, counted(200, 100)),
            (hsx::HsxIrpEventKind::DemandRead, counted(300, 100)),
            (hsx::HsxIrpEventKind::LostFwd, counted(150, 100)),
            (hsx::HsxIrpEventKind::PciDcaHint, counted(400, 100)),
            (hsx::HsxIrpEventKind::PciItoM, counted(200, 100)),
            (hsx::HsxIrpEventKind::PcieInboundReads, counted(250, 100)),
            (hsx::HsxIrpEventKind::PcieInboundWrites, counted(600, 100)),
            (hsx::HsxIrpEventKind::PcieReadCurrent, counted(300, 100)),
            (hsx::HsxIrpEventKind::ReadForOwnership, counted(400, 100)),
            (hsx::HsxIrpEventKind::TotalIrpOccupancy, counted(500, 100)),
            (hsx::HsxIrpEventKind::WbMtoI, counted(500, 100)),
        ],
    ))
    .unwrap();

    let scope_metrics = metrics.scopes[0];
    assert_eq!(value(scope_metrics.clflush_bytes_per_second), 64_000.0);
    assert_eq!(value(scope_metrics.core_read_bytes_per_second), 128_000.0);
    assert_eq!(value(scope_metrics.demand_read_bytes_per_second), 192_000.0);
    assert_eq!(value(scope_metrics.frequency_hz), 10_000.0);
    assert_eq!(value(scope_metrics.io_write_conflict_ratio), 0.25);
    assert_eq!(value(scope_metrics.pci_dca_hint_bytes_per_second), 256_000.0);
    assert_eq!(value(scope_metrics.pci_itom_bytes_per_second), 128_000.0);
    assert_eq!(value(scope_metrics.pcie_inbound_reads_per_second), 2_500.0);
    assert_eq!(value(scope_metrics.pcie_inbound_writes_per_second), 6_000.0);
    assert_eq!(value(scope_metrics.pcie_read_current_bytes_per_second), 192_000.0);
    assert_eq!(value(scope_metrics.read_for_ownership_bytes_per_second), 256_000.0);
    assert_eq!(value(scope_metrics.total_irp_occupancy_entries), 0.5);
    assert_eq!(value(scope_metrics.wbmtoi_bytes_per_second), 320_000.0);
}

fn assert_hsx_event(kind: hsx::HsxIrpEventKind, event: u8, umask: u8) {
    let event_spec = hsx::event_groups()
        .iter()
        .flat_map(|group| group.events)
        .find(|event_spec| event_spec.kind == kind)
        .unwrap();

    assert_eq!(event_spec.event, event);
    assert_eq!(event_spec.umask, umask);
}

#[test]
fn uses_hsx_irp_event_encodings() {
    assert_hsx_event(hsx::HsxIrpEventKind::PcieReadCurrent, 0x13, 0x01);
    assert_hsx_event(hsx::HsxIrpEventKind::CoreRead, 0x13, 0x02);
    assert_hsx_event(hsx::HsxIrpEventKind::DemandRead, 0x13, 0x04);
    assert_hsx_event(hsx::HsxIrpEventKind::ReadForOwnership, 0x13, 0x08);
    assert_hsx_event(hsx::HsxIrpEventKind::PciItoM, 0x13, 0x10);
    assert_hsx_event(hsx::HsxIrpEventKind::PciDcaHint, 0x13, 0x20);
    assert_hsx_event(hsx::HsxIrpEventKind::WbMtoI, 0x13, 0x40);
    assert_hsx_event(hsx::HsxIrpEventKind::ClFlush, 0x13, 0x80);
    assert_hsx_event(hsx::HsxIrpEventKind::TotalIrpOccupancy, 0x12, 0x01);
    assert_hsx_event(hsx::HsxIrpEventKind::PcieInboundReads, 0x16, 0x01);
    assert_hsx_event(hsx::HsxIrpEventKind::PcieInboundWrites, 0x16, 0x02);
    assert_hsx_event(hsx::HsxIrpEventKind::LostFwd, 0x15, 0x10);
    assert_hsx_event(hsx::HsxIrpEventKind::Clockticks, 0x00, 0x00);
}

#[test]
fn uses_hsx_irp_pci_address_map() {
    assert_eq!(hsx::UNIT_CONTROL, 0xf4);
    assert_eq!(hsx::COUNTER_CONTROLS, [0xd8, 0xdc, 0xe0, 0xe4]);
    assert_eq!(hsx::COUNTERS, [0xa0, 0xb0, 0xb8, 0xc0]);
}

fn hsx_at_work() -> hsx::HsxIrpCollector {
    hsx::HsxIrpCollector::new(
        &test_architecture(0x3f),
        WORDS,
        &vec![hsx::SocketLocation { location: at(0, 5, 6), package_id: 0 }],
    )
    .unwrap()
}

#[test]
fn hsx_irp_sample_over_every_group_is_reported() {
    let mut collector = hsx_at_work();
    let mut measurements = Accumulator::new();

    assert_eq!(
        collector.reads()[1],
        RegisterRead {
            register: Register::Pci { location: at(0, 5, 6), offset: 0xb0 },
            width: Width::Bits64,
        }
    );
    let slices = collector.begin_sample(400 * MILLISECOND).unwrap();
    let slice_count: u64 = slices.len() as u64;
    for slice in slices {
        let readings = SliceReadings {
            values: vec![1_000, 1_000, 1_000, 1_000],
            enabled_nanos: 400 * MILLISECOND,
            running_nanos: 400 * MILLISECOND / slice_count as u128,
        };
        measurements = collector.record(slice.group, &readings, measurements).unwrap();
    }
    let metrics = collector.finish_sample(&measurements).unwrap();
    assert_eq!(metrics.scopes.len(), 1);
    assert_eq!(value(metrics.scopes[0].total_irp_occupancy_entries), 1.0);
    assert!(matches!(collector.begin_sample(0), Err(CollectorError::ZeroInterval { .. })));
    assert!(matches!(
        collector.record(
            hsx::event_groups()[0],
            &SliceReadings { values: Vec::new(), enabled_nanos: 1, running_nanos: 1 },
            Accumulator::new(),
        ),
        Err(CollectorError::ReadingCount { expected: 4, found: 0 })
    ));
}

#[test]
fn hsx_irp_is_frozen_when_it_is_set_up() {
    assert_eq!(
        hsx_at_work().probe_writes(),
        vec![RegisterWrite {
            register: Register::Pci { location: at(0, 5, 6), offset: hsx::UNIT_CONTROL },
            value: WORDS.freeze,
            width: Width::Bits32,
        }]
    );
}

#[test]
fn hsx_irp_holds_nothing_of_a_disabled_counter() {
    let scope = HsxUncoreScope { package_id: 0 };
    let held = accumulate(scope, &[(hsx::HsxIrpEventKind::Disabled, counted(5, 1))]);
    assert_eq!(held.len(), 0);
    assert!(!held.has_scope(scope));

    let held = accumulate(
        scope,
        &[
            (hsx::HsxIrpEventKind::Clockticks, counted(7, 1)),
            (hsx::HsxIrpEventKind::Disabled, counted(5, 1)),
        ],
    );
    assert_eq!(held.get(scope, hsx::HsxIrpEventKind::Disabled), None);
    assert_eq!(held.get(scope, hsx::HsxIrpEventKind::Clockticks), Some(counted(7, 1)));
}

#[test]
fn hsx_irp_is_for_its_processors_alone() {
    assert!(matches!(
        hsx::HsxIrpCollector::new(&test_architecture(0x55), WORDS, &Vec::new()),
        Err(CollectorError::Unsupported { model: IntelServerCpuModel::SkylakeXeon, .. })
    ));
}

// Ice Lake.

const ICX_SCOPE: icx::IcxUncoreScope =
    icx::IcxUncoreScope { die_group_id: 0, die_id: 0, package_id: 0 };

#[test]
fn uses_icx_irp_stack_address_map() {
    let spec = icx::icx_irp_spec();
    assert_eq!(icx::irp_unit_control_offset(spec, spec.stacks[0]), 0x0a4a);
    assert_eq!(icx::irp_counter_offset(spec, spec.stacks[0], 0), 0x0a4b);
    assert_eq!(icx::irp_control_offset(spec, spec.stacks[0], 0), 0x0a4d);
    assert_eq!(icx::irp_unit_control_offset(spec, spec.stacks[5]), 0x0b1a);
    assert_eq!(icx::irp_counter_offset(spec, spec.stacks[5], 1), 0x0b1c);
    assert_eq!(icx::irp_control_offset(spec, spec.stacks[5], 1), 0x0b1e);
}

#[test]
fn uses_icx_irp_stack_labels() {
    let stacks = icx::icx_irp_spec().stacks;
    assert_eq!(stacks[0].label(), "pcie0");
    assert_eq!(stacks[1].label(), "pcie1");
    assert_eq!(stacks[2].label(), "mcp");
    assert_eq!(stacks[3].label(), "pcie2");
    assert_eq!(stacks[4].label(), "pcie3");
    assert_eq!(stacks[5].label(), "cbdma_dmi");
}

fn assert_icx_event(kind: icx::IcxIrpEventKind, event: u8, umask: u8) {
    let event_spec = icx::event_groups()
        .iter()
        .flat_map(|group| group.events)
        .find(|event_spec| event_spec.kind == kind)
        .unwrap();

    assert_eq!(event_spec.event, event);
    assert_eq!(event_spec.umask, umask);
}

#[test]
fn uses_icx_irp_event_encodings() {
    assert_icx_event(icx::IcxIrpEventKind::PcieReadCurrent, 0x10, 0x01);
    assert_icx_event(icx::IcxIrpEventKind::ReadForOwnership, 0x10, 0x08);
    assert_icx_event(icx::IcxIrpEventKind::PciItoM, 0x10, 0x10);
    assert_icx_event(icx::IcxIrpEventKind::WbMtoI, 0x10, 0x40);
    assert_icx_event(icx::IcxIrpEventKind::ClFlush, 0x10, 0x80);
    assert_icx_event(icx::IcxIrpEventKind::TotalIrpOccupancy, 0x0f, 0x04);
    assert_icx_event(icx::IcxIrpEventKind::WriteInserts, 0x11, 0x08);
    assert_icx_event(icx::IcxIrpEventKind::LostFwd, 0x1f, 0x10);
    assert_icx_event(icx::IcxIrpEventKind::FafInserts, 0x18, 0x00);
    assert_icx_event(icx::IcxIrpEventKind::Clockticks, 0x01, 0x00);
    assert_icx_event(icx::IcxIrpEventKind::AllHitM, 0x12, 0x78);
    assert_icx_event(icx::IcxIrpEventKind::FafFull, 0x17, 0x00);
}

#[test]
fn icx_irp_reports_each_stack() {
    let stack = icx::IcxIrpStackScope { scope: ICX_SCOPE, stack: icx::IcxIrpStackId::Mcp };
    let counts: Vec<(icx::IcxIrpEventKind, EventMeasurement)> = icx::event_groups()
        .iter()
        .flat_map(|group| group.events)
        .map(|event| (event.kind, counted(1_000, 100)))
        .collect();
    let mut once: Vec<(icx::IcxIrpEventKind, EventMeasurement)> = Vec::new();
    for (kind, measurement) in counts {
        if once.iter().all(|(held, _)| *held != kind) {
            once.push((kind, measurement));
        }
    }
    let metrics = icx::IcxIrpMetrics::from_measurements(&accumulate(stack, &once)).unwrap();

    assert_eq!(metrics.scopes.len(), 1);
    assert_eq!(metrics.scopes[0].stack.label(), "mcp");
    assert_eq!(value(metrics.scopes[0].frequency_hz), 10_000.0);
    assert_eq!(value(metrics.scopes[0].total_irp_occupancy_entries), 1.0);
    assert_eq!(value(metrics.scopes[0].faf_full_ratio), 1.0);
    // All that waits belongs to reads.
    assert_eq!(value(metrics.scopes[0].pcie_inbound_write_latency_seconds), 0.0);
}

#[test]
fn icx_irp_finds_the_stacks_of_each_package() {
    let collector = icx::IcxIrpCollector::new(
        &test_architecture(0x6a),
        &vec![topology(0, 0), topology(1, 0), topology(8, 1)],
    )
    .unwrap();

    let writes = collector.freeze_writes();
    assert_eq!(writes.len(), 12);
    assert_eq!(
        writes[0],
        RegisterWrite {
            register: Register::Msr { address: 0x0a4a, cpu: 0 },
            value: icx::UNIT_FREEZE,
            width: Width::Bits64,
        }
    );
    assert_eq!(writes[6].register, Register::Msr { address: 0x0a4a, cpu: 8 });
    assert_eq!(collector.probe_cpus(), vec![0, 8]);
    assert!(matches!(
        icx::IcxIrpCollector::new(&test_architecture(0x55), &Vec::new()),
        Err(CollectorError::Unsupported { .. })
    ));
}

// Which processors are known.

#[test]
fn supports_known_irp_architectures() {
    assert!(IrpCollector::is_supported(&test_architecture(0x2d)));
    assert!(IrpCollector::is_supported(&test_architecture(0x3e)));
    assert!(IrpCollector::is_supported(&test_architecture(0x3f)));
    assert!(IrpCollector::is_supported(&test_architecture(0x4f)));
    assert!(IrpCollector::is_supported(&test_architecture(0x55)));
    assert!(IrpCollector::is_supported(&test_architecture(0x6a)));
    assert!(!IrpCollector::is_supported(&test_architecture(0x6c)));
    assert!(IrpCollector::is_supported(&test_architecture(0x8f)));
    assert!(IrpCollector::is_supported(&test_architecture(0xcf)));
}

#[test]
fn irp_collector_is_that_of_the_processor() {
    let inventory = IrpInventory {
        devices: vec![PciVendorDevice { device_id: 0x3c40, location: at(0, 5, 6) }],
        locations: vec![hsx::SocketLocation { location: at(0, 5, 6), package_id: 0 }],
        nodes: vec![UboxNode { location: at(0, 11, 0), local_node_word: 0, node_mapping: 0 }],
        topologies: vec![topology(0, 0)],
        words: WORDS,
    };
    let collector = |model: u8| IrpCollector::new(&test_architecture(model), &inventory);
    assert!(matches!(collector(0x2d), Ok(IrpCollector::Snb(_))));
    assert!(matches!(collector(0x3f), Ok(IrpCollector::Hsx(_))));
    assert!(matches!(collector(0x4f), Ok(IrpCollector::Hsx(_))));
    assert!(matches!(collector(0x55), Ok(IrpCollector::Skx(_))));
    assert!(matches!(collector(0x6a), Ok(IrpCollector::Icx(_))));
    assert!(matches!(collector(0x8f), Ok(IrpCollector::Spr(_))));
    assert!(matches!(collector(0xcf), Ok(IrpCollector::Emr(_))));
    // The devices listed are not those of an Ivy Bridge.
    assert!(matches!(collector(0x3e), Err(CollectorError::NoDevices { device_id: 0x0e39, .. })));
}

// Skylake.

const SKX_SCOPE: UncoreScope = UncoreScope { die_group_id: 0, die_id: 0, package_id: 0 };

fn test_stack_scope(scope: UncoreScope, stack: skx::SkxIioStack) -> skx::IrpStackScope {
    skx::IrpStackScope { scope, stack }
}

#[test]
fn computes_irp_metrics() {
    let metrics = skx::IrpMetrics::from_measurements(&accumulate(
        test_stack_scope(SKX_SCOPE, skx::SkxIioStack::Pcie0),
        &[
            (skx::IrpEventKind::ClFlush, counted(100, 100)),
            (skx::IrpEventKind::Clockticks, counted(1_000, 100)),
            (skx::IrpEventKind::CoreRead, counted(200, 100)),
            (skx::IrpEventKind::DemandRead, counted(300, 100)),
            (skx::IrpEventKind::FafOccupancy, counted(200, 100)),
            (skx::IrpEventKind::PciDcaHint, counted(400, 100)),
            (skx::IrpEventKind::PciItoM, counted(200, 100)),
            (skx::IrpEventKind::PcieReadCurrent, counted(300, 100)),
            (skx::IrpEventKind::ReadForOwnership, counted(400, 100)),
            (skx::IrpEventKind::TotalIrpOccupancy, counted(500, 100)),
            (skx::IrpEventKind::WbMtoI, counted(500, 100)),
            (skx::IrpEventKind::WriteInserts, counted(600, 100)),
        ],
    ))
    .unwrap();

    let scope_metrics = metrics.scopes[0];
    assert_eq!(value(scope_metrics.clflush_bytes_per_second), 64_000.0);
    assert_eq!(value(scope_metrics.core_read_bytes_per_second), 128_000.0);
    assert_eq!(value(scope_metrics.demand_read_bytes_per_second), 192_000.0);
    assert_eq!(value(scope_metrics.faf_occupancy_entries), 0.2);
    assert_eq!(value(scope_metrics.frequency_hz), 10_000.0);
    assert_eq!(value(scope_metrics.pci_dca_hint_bytes_per_second), 256_000.0);
    assert_eq!(value(scope_metrics.pci_itom_bytes_per_second), 128_000.0);
    assert_eq!(value(scope_metrics.pcie_read_current_bytes_per_second), 192_000.0);
    assert_eq!(value(scope_metrics.read_for_ownership_bytes_per_second), 256_000.0);
    assert_eq!(scope_metrics.stack, skx::SkxIioStack::Pcie0);
    assert_eq!(value(scope_metrics.total_irp_occupancy_entries), 0.5);
    assert_eq!(value(scope_metrics.wbmtoi_bytes_per_second), 320_000.0);
    assert_eq!(value(scope_metrics.write_inserts_per_second), 6_000.0);
    assert_eq!(value(scope_metrics.write_latency_seconds), 0.00005);
}

#[test]
fn skx_irp_addresses_go_on_behind_the_counters() {
    assert_eq!(skx::irp_counter_offset(skx::SkxIioStack::CbdmaDmi, 7), 0x0a60);
    assert_eq!(skx::irp_control_offset(skx::SkxIioStack::CbdmaDmi, 7), 0x0a62);
}

#[test]
fn uses_full_skx_irp_stack_address_map() {
    assert_eq!(skx::irp_unit_control_offset(skx::SkxIioStack::CbdmaDmi), 0x0a58);
    assert_eq!(skx::irp_counter_offset(skx::SkxIioStack::CbdmaDmi, 0), 0x0a59);
    assert_eq!(skx::irp_control_offset(skx::SkxIioStack::CbdmaDmi, 0), 0x0a5b);

    assert_eq!(skx::irp_unit_control_offset(skx::SkxIioStack::Pcie0), 0x0a78);
    assert_eq!(skx::irp_unit_control_offset(skx::SkxIioStack::Mcp1), 0x0af8);
    assert_eq!(skx::irp_counter_offset(skx::SkxIioStack::Mcp1, 1), 0x0afa);
    assert_eq!(skx::irp_control_offset(skx::SkxIioStack::Mcp1, 1), 0x0afc);
}

#[test]
fn supports_only_skylake_xeon_uncore_spec() {
    assert!(skx::IrpCollector::is_supported(&test_architecture(0x55)));
    assert!(!skx::IrpCollector::is_supported(&test_architecture(0xcf)));
}

#[test]
fn skx_irp_counts_each_stack_by_itself() {
    let collector =
        skx::IrpCollector::new(&test_architecture(0x55), WORDS, &vec![topology(3, 1)]).unwrap();
    let group = skx::event_groups()[0];
    let readings = SliceReadings {
        values: (0..12).collect(),
        enabled_nanos: SECOND,
        running_nanos: 100 * MILLISECOND,
    };
    let measurements = collector.record(group, &readings, Accumulator::new()).unwrap();

    assert_eq!(collector.reads().len(), 12);
    assert_eq!(collector.probe_cpus(), vec![3]);
    assert_eq!(measurements.len(), 6);
    let scope = UncoreScope { die_group_id: 0, die_id: 0, package_id: 1 };
    let counted = measurements
        .get(test_stack_scope(scope, skx::SkxIioStack::Pcie0), group.events[1].kind)
        .unwrap();
    assert_eq!(counted.value, 3);
    assert_eq!(counted.enabled_nanos, SECOND);
    assert_eq!(counted.running_nanos, 100 * MILLISECOND);
}

// Sandy Bridge and Ivy Bridge.

const SNB_SCOPE: snb::SnbIrpScope = snb::SnbIrpScope { package_id: 0 };

#[test]
fn computes_snb_irp_metrics() {
    let metrics = snb::SnbIrpMetrics::from_measurements(&accumulate(
        SNB_SCOPE,
        &[
            (snb::SnbIrpEventKind::Clockticks, counted(1_000, 100)),
            (snb::SnbIrpEventKind::LostOwnership, counted(150, 100)),
            (snb::SnbIrpEventKind::PcieInboundReads, counted(250, 100)),
            (snb::SnbIrpEventKind::PcieInboundWrites, counted(600, 100)),
            (snb::SnbIrpEventKind::TotalIrpOccupancy, counted(500, 100)),
        ],
    ))
    .unwrap();

    let scope_metrics = metrics.scopes[0];
    assert_eq!(value(scope_metrics.frequency_hz), 10_000.0);
    assert_eq!(value(scope_metrics.io_write_conflict_ratio), 0.25);
    assert_eq!(value(scope_metrics.pcie_inbound_reads_per_second), 2_500.0);
    assert_eq!(value(scope_metrics.pcie_inbound_writes_per_second), 6_000.0);
    assert_eq!(value(scope_metrics.total_irp_occupancy_entries), 0.5);
}

fn assert_snb_event(kind: snb::SnbIrpEventKind, event: u8, umask: u8) {
    let event_spec = snb::event_groups()
        .iter()
        .flat_map(|group| group.events)
        .find(|event_spec| event_spec.kind == kind)
        .unwrap();

    assert_eq!(event_spec.event, event);
    assert_eq!(event_spec.umask, umask);
}

#[test]
fn uses_documented_snb_ivb_irp_event_encodings() {
    assert_snb_event(snb::SnbIrpEventKind::Clockticks, 0x00, 0x00);
    assert_snb_event(snb::SnbIrpEventKind::PcieInboundReads, 0x15, 0x01);
    assert_snb_event(snb::SnbIrpEventKind::PcieInboundWrites, 0x15, 0x02);
    assert_snb_event(snb::SnbIrpEventKind::LostOwnership, 0x16, 0x01);
    assert_snb_event(snb::SnbIrpEventKind::TotalIrpOccupancy, 0x12, 0x01);
}

#[test]
fn uses_snb_ivb_irp_device_ids() {
    assert_eq!(snb::irp_device_id(SnbArchitecture::Snb), 0x3c40);
    assert_eq!(snb::irp_device_id(SnbArchitecture::Ivb), 0x0e39);
    assert_eq!(SnbArchitecture::Snb.ubox_device_id(), 0x3ce0);
    assert_eq!(SnbArchitecture::Ivb.ubox_device_id(), 0x0e1e);
}

#[test]
fn encodes_snb_ivb_unit_control_values() {
    let freeze = |architecture: SnbArchitecture| {
        let unit = snb_unit();
        let collector = snb::SnbIrpCollector::from_units(architecture, vec![unit]);
        (
            collector.freeze_writes()[0].value,
            collector.program_writes(snb::event_groups()[0])[0].value,
            collector.unfreeze_writes()[0].value,
        )
    };
    assert_eq!(freeze(SnbArchitecture::Snb), (0x10100, 0x10103, 0x10000));
    assert_eq!(freeze(SnbArchitecture::Ivb), (0x100, 0x103, 0));
}

fn snb_unit() -> Unit<snb::SnbIrpScope> {
    let register = |offset: u64| Register::Pci { location: at(0, 5, 6), offset };
    Unit {
        scope: SNB_SCOPE,
        control: register(snb::UNIT_CONTROL),
        width: Width::Bits32,
        filter: None,
        controls: snb::COUNTER_CONTROLS.iter().map(|offset| register(*offset)).collect(),
        counters: snb::COUNTERS.iter().map(|offset| register(*offset)).collect(),
        fixed_control: None,
        fixed_counter: None,
    }
}

#[test]
fn maps_node_id_to_package_index() {
    let index = |local_node_word: u32| {
        UboxNode { location: at(0, 11, 0), local_node_word, node_mapping: 0b010_001_000 }
            .package_index()
    };
    assert_eq!(index(0), Some(0));
    assert_eq!(index(1), Some(1));
    assert_eq!(index(2), Some(2));
    assert_eq!(index(3), None);
}

#[test]
fn wraps_48_bit_counters() {
    let collector = snb::SnbIrpCollector::from_units(SnbArchitecture::Snb, vec![snb_unit()]);
    let group = snb::event_groups()[0];
    let readings = SliceReadings {
        values: vec![(1_u64 << 50) | 7; 4],
        enabled_nanos: SECOND,
        running_nanos: SECOND,
    };
    let measurements = collector.record(group, &readings, Accumulator::new()).unwrap();
    assert_eq!(measurements.get(SNB_SCOPE, group.events[0].kind).unwrap().value, 7);
}

#[test]
fn snb_irp_holds_nothing_of_a_disabled_counter() {
    let held = accumulate(SNB_SCOPE, &[(snb::SnbIrpEventKind::Disabled, counted(5, 1))]);
    assert_eq!(held.len(), 0);
    assert!(!held.has_scope(SNB_SCOPE));
}

#[test]
fn snb_irp_is_frozen_when_it_is_set_up() {
    let probe = |architecture: SnbArchitecture| {
        snb::SnbIrpCollector::from_units(architecture, vec![snb_unit()]).probe_writes()
    };
    let freeze = |value: u64| RegisterWrite {
        register: Register::Pci { location: at(0, 5, 6), offset: snb::UNIT_CONTROL },
        value,
        width: Width::Bits32,
    };
    assert_eq!(probe(SnbArchitecture::Snb), vec![freeze(0x10100)]);
    assert_eq!(probe(SnbArchitecture::Ivb), vec![freeze(0x100)]);
}

#[test]
fn uses_snb_ivb_irp_pci_address_map() {
    assert_eq!(snb::UNIT_CONTROL, 0xf4);
    assert_eq!(snb::COUNTER_CONTROLS, [0xd8, 0xdc, 0xe0, 0xe4]);
    assert_eq!(snb::COUNTERS, [0xa0, 0xb0, 0xb8, 0xc0]);
}

#[test]
fn snb_irp_needs_a_package_for_each_unit() {
    let nodes =
        vec![UboxNode { location: at(0x3f, 11, 0), local_node_word: 0, node_mapping: 0 }];
    let devices = vec![PciVendorDevice { device_id: 0x3c40, location: at(0, 5, 6) }];
    assert!(matches!(
        snb::discover_packages(SnbArchitecture::Snb, &vec![SNB_SCOPE], &nodes, &Vec::new()),
        Err(CollectorError::NoDevices { device_id: 0x3c40, .. })
    ));
    let places =
        snb::discover_packages(SnbArchitecture::Snb, &vec![SNB_SCOPE], &nodes, &devices);
    assert_eq!(
        places.unwrap(),
        vec![snb::UnitPlace { location: at(0, 5, 6), scope: SNB_SCOPE }]
    );
    // A second unit behind the buses of all packages belongs to nobody.
    let two = vec![
        devices[0],
        PciVendorDevice { device_id: 0x3c40, location: at(0x40, 5, 6) },
    ];
    assert!(matches!(
        snb::discover_packages(SnbArchitecture::Snb, &vec![SNB_SCOPE], &nodes, &two),
        Err(CollectorError::UnmappedLocation { location: PciLocation { bus: 0x40, .. }, .. })
    ));
    assert!(matches!(
        snb::SnbIrpCollector::new(&test_architecture(0x2d), &Vec::new(), &nodes, &devices),
        Err(CollectorError::NothingFound { what: "Sandy/Ivy Bridge-EP IRP scopes" })
    ));
}

// Sapphire Rapids and Emerald Rapids.

#[test]
fn uses_spr_irp_stack_address_map() {
    let spec = spr::spr_emr_irp_spec();
    assert_eq!(spr::irp_unit_control_offset(spec, spec.stacks[0]), 0x3400);
    assert_eq!(spr::irp_counter_offset(spec, spec.stacks[0], 0), 0x3408);
    assert_eq!(spr::irp_control_offset(spec, spec.stacks[0], 0), 0x3402);
    assert_eq!(spr::irp_unit_control_offset(spec, spec.stacks[11]), 0x34b0);
    assert_eq!(spr::irp_counter_offset(spec, spec.stacks[11], 1), 0x34b9);
    assert_eq!(spr::irp_control_offset(spec, spec.stacks[11], 1), 0x34b3);
}

fn assert_spr_event(kind: spr::SprIrpEventKind, event: u8, umask: u8) {
    let event_spec = spr::event_groups()
        .iter()
        .flat_map(|group| group.events)
        .find(|event_spec| event_spec.kind == kind)
        .unwrap();

    assert_eq!(event_spec.event, event);
    assert_eq!(event_spec.umask, umask);
}

#[test]
fn uses_spr_irp_event_encodings() {
    assert_spr_event(spr::SprIrpEventKind::TotalIrpOccupancy, 0x0f, 0x04);
    assert_spr_event(spr::SprIrpEventKind::FafOccupancy, 0x19, 0x00);
    assert_spr_event(spr::SprIrpEventKind::WriteInserts, 0x11, 0x08);
    assert_spr_event(spr::SprIrpEventKind::LostFwd, 0x1f, 0x10);
    assert_spr_event(spr::SprIrpEventKind::FafInserts, 0x18, 0x00);
    assert_spr_event(spr::SprIrpEventKind::Clockticks, 0x01, 0x00);
    assert_spr_event(spr::SprIrpEventKind::AllHitM, 0x12, 0x78);
    assert_spr_event(spr::SprIrpEventKind::FafFull, 0x17, 0x00);
}

#[test]
fn uses_spr_event_control_bits() {
    let control = |event: u8, umask: u8| {
        spr::counter_control(spr::SprIrpEventSpec::sum(
            spr::SprIrpEventKind::TotalIrpOccupancy,
            event,
            umask,
        ))
    };
    assert_eq!(control(0x0f, 0x04), 0x040f);
    assert_eq!(control(0x11, 0x08), 0x0811);
}

#[test]
fn uses_spr_unit_control_bits() {
    assert_eq!(spr::UNIT_FREEZE, 0x001);
    assert_eq!(spr::UNIT_FREEZE_AND_CONTROL_RESET, 0x101);
    assert_eq!(spr::UNIT_FREEZE_AND_COUNTER_RESET, 0x201);
    assert_eq!(spr::UNIT_UNFREEZE, 0x000);
}

#[test]
fn spr_irp_reports_only_what_was_counted() {
    let scope = spr::SprIrpStackScope {
        scope: spr::SprUncoreScope { die_group_id: 0, die_id: 0, package_id: 0 },
        stack: spr::SprIrpStackId::M2iosf11,
    };
    assert!(matches!(
        spr::SprIrpMetrics::from_measurements(&accumulate(
            scope,
            &[(spr::SprIrpEventKind::FafFull, counted(1, 1))]
        )),
        Err(CollectorError::MissingMeasurement { .. })
    ));
    let collector = spr::SprIrpCollector::new(&vec![topology(0, 0)]).unwrap();
    assert_eq!(collector.freeze_writes().len(), 12);
    assert_eq!(collector.probe_cpus(), vec![0]);
    assert_eq!(
        collector.reads()[23].register,
        Register::Msr { address: 0x34b9, cpu: 0 }
    );
}
