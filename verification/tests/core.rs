use ocellus::accumulator::{Accumulator, EventMeasurement, Overflow, Sample};
use ocellus::arch::{Architecture, IntelServerCpuModel};
use ocellus::capabilities::{CapabilityWalk, ConfigRead};
use ocellus::counter::{count_since_reset, counter_delta, mask_width};
use ocellus::discovery::{
    bar_is_wide, decode_discovery_bar, scope_from_local_cpus, select_boxes, UncoreDiscoveryVsec,
    UncoreGlobalDiscovery,
};
use ocellus::export::{LabelValue, Labels};
use ocellus::hsx::{find_places, HsxBusScope, UnitAddress};
use ocellus::metrics::imc::skx::ImcEventKind;
use ocellus::metrics::interconnect::{InterconnectScope, LinkPlace};
use ocellus::ordered_map::OrderedMap;
use ocellus::pci::{find_devices, find_on_bus, PciBus, PciDeviceSpec, PciLocation, PciVendorDevice};
use ocellus::quantity::{ratio_parts, residency_parts, share_parts};
use ocellus::registers::{
    select_word, Register, RegisterRead, RegisterWrite, Width, COUNT_AND_REPORT_OVERFLOW,
};
use ocellus::sampling::{SampleCursor, SampleStep};
use ocellus::schedule::{bounded_round_count, dealt_round_count, rotate, schedule_rounds};
use ocellus::sockets::{buses_in_order, package_buses_from_uboxes, UboxNode};
use ocellus::sorting::sort;
use ocellus::task::{TaskAction, TaskEvent};
use ocellus::topology::{
    leaders_in_order, scope_leaders, scopes_in_order, CpuTopology, HsxUncoreScope, TopologyLevel,
    TopologyLevelKind, UncoreScope,
};
use ocellus::units::{reads, write_controls, Unit};

const MILLISECOND: u128 = 1_000_000;

fn at(bus: u8, device: u8, function: u8) -> PciLocation {
    PciLocation { bus, device, function, group: 0 }
}

fn topology(cpu: u32, package_id: u32, die_id: u32) -> CpuTopology {
    CpuTopology {
        cpu,
        levels: vec![
            TopologyLevel { id: die_id, kind: TopologyLevelKind::Die, shift: 0 },
            TopologyLevel { id: package_id, kind: TopologyLevelKind::Package, shift: 4 },
        ],
        x2apic_id: cpu,
    }
}

// Ordered maps and accumulators.

#[test]
fn a_map_keeps_its_keys_in_order() {
    let mut map: OrderedMap<u32, char> = OrderedMap::new();
    assert!(map.is_empty());
    map.insert(5, 'a');
    map.insert(1, 'b');
    map.insert(3, 'c');
    map.insert(5, 'd');

    assert_eq!(map.len(), 3);
    assert_eq!(map.key_at(0), 1);
    assert_eq!(map.key_at(2), 5);
    assert_eq!(map.value_at(2), &'d');
    assert_eq!(map.get(&3), Some(&'c'));
    assert_eq!(map.get(&4), None);
    assert_eq!(map.take(&3), Some('c'));
    assert_eq!(map.take(&3), None);
    assert_eq!(map.len(), 2);
}

fn counted(value: u64) -> EventMeasurement {
    EventMeasurement { enabled_nanos: 4, running_nanos: 2, ticks: 3, value }
}

#[test]
fn adding_leaves_other_cells_alone() {
    let (read, write) = (ImcEventKind::ReadCas, ImcEventKind::WriteCas);
    let accumulator: Accumulator<u32, ImcEventKind, EventMeasurement> = Accumulator::new();
    let accumulator =
        accumulator.add(Sample { scope: 1, kind: read, measurement: counted(10) }).unwrap();
    let accumulator =
        accumulator.add(Sample { scope: 2, kind: read, measurement: counted(20) }).unwrap();
    let accumulator =
        accumulator.add(Sample { scope: 1, kind: write, measurement: counted(30) }).unwrap();
    let accumulator =
        accumulator.add(Sample { scope: 1, kind: read, measurement: counted(5) }).unwrap();

    assert_eq!(accumulator.len(), 2);
    assert_eq!(accumulator.scope_at(1), 2);
    assert_eq!(accumulator.get(2, read), Some(counted(20)));
    assert_eq!(accumulator.get(1, write), Some(counted(30)));
    assert_eq!(
        accumulator.get(1, read),
        Some(EventMeasurement { enabled_nanos: 4, running_nanos: 4, ticks: 6, value: 15 })
    );
    assert_eq!(accumulator.get(2, write), None);
    assert!(accumulator.has_scope(1));
    assert!(!accumulator.has_scope(3));
    assert_eq!(accumulator.find_gap(&vec![read]), None);
    assert_eq!(accumulator.find_gap(&vec![read, write]), Some(write));
}

#[test]
fn measurements_are_added_in_any_order() {
    let first = Sample { scope: 1, kind: ImcEventKind::ReadCas, measurement: counted(10) };
    let second = Sample { scope: 1, kind: ImcEventKind::WriteCas, measurement: counted(20) };
    let one: Accumulator<u32, ImcEventKind, EventMeasurement> = Accumulator::new();
    let one = one.extend(&vec![first, second]).unwrap();
    let other: Accumulator<u32, ImcEventKind, EventMeasurement> = Accumulator::new();
    let other = other.extend(&vec![second, first]).unwrap();
    for kind in [ImcEventKind::ReadCas, ImcEventKind::WriteCas] {
        assert_eq!(one.get(1, kind), other.get(1, kind));
    }
    assert_eq!(one.get(1, ImcEventKind::ReadCas), Some(counted(10)));
}

// Schedules.

#[test]
fn rounds_bound_the_slices() {
    // Slices of at most 100 milliseconds.
    assert_eq!(bounded_round_count(1_000 * MILLISECOND, 2), 5);
    assert_eq!(bounded_round_count(1_001 * MILLISECOND, 2), 6);
    assert_eq!(bounded_round_count(1, 3), 1);
    assert_eq!(dealt_round_count(1_000 * MILLISECOND, 3), 4);
    assert_eq!(dealt_round_count(100 * MILLISECOND, 3), 1);
    assert_eq!(dealt_round_count(0, 3), 1);
}

#[test]
fn rounds_are_the_fewest() {
    for interval in [1_u128, 99, 100, 101, 300, 301, 999, 1_000, 1_001] {
        for group_count in 1_usize..5 {
            let nanos: u128 = interval * MILLISECOND;
            let round: u128 = group_count as u128 * 100 * MILLISECOND;
            for rounds in
                [bounded_round_count(nanos, group_count), dealt_round_count(nanos, group_count)]
            {
                assert!(nanos <= rounds as u128 * round);
                assert!(rounds == 1 || nanos > (rounds as u128 - 1) * round);
            }
        }
    }
}

#[test]
fn parts_of_a_number_are_told_from_scaled_counts() {
    assert_eq!(ratio_parts(3, 4), Some((3, 4)));
    assert_eq!(ratio_parts(3, 0), None);
    assert_eq!(share_parts(3, 5), Ok(Some((3, 8))));
    assert_eq!(share_parts(0, 5), Ok(Some((0, 5))));
    assert_eq!(share_parts(0, 0), Ok(None));
    assert_eq!(share_parts(u64::MAX, 1), Err(Overflow));
    assert_eq!(residency_parts(9, 4, 2, 3), Some((5, 2, 3)));
    assert_eq!(residency_parts(4, 9, 2, 3), Some((0, 2, 3)));
    assert_eq!(residency_parts(9, 4, 0, 3), None);
    assert_eq!(residency_parts(9, 4, 2, 0), None);
}

#[test]
fn rotation_comes_back_to_its_start() {
    assert_eq!(rotate(0, 3), 1);
    assert_eq!(rotate(1, 3), 2);
    assert_eq!(rotate(2, 3), 0);
    assert_eq!(rotate(0, 1), 0);
}

#[test]
fn every_round_runs_every_group_once() {
    let groups: Vec<char> = vec!['a', 'b', 'c'];
    let slices = schedule_rounds(&groups, 1, 600, 2);
    let run: Vec<char> = slices.iter().map(|slice| slice.group).collect();

    assert_eq!(run, vec!['b', 'c', 'a', 'b', 'c', 'a']);
    for slice in slices {
        assert_eq!(slice.share.interval_nanos, 600);
        assert_eq!(slice.share.slice_count, 6);
    }
}

#[test]
fn a_sample_takes_every_step_of_every_slice_once() {
    assert_eq!(SampleCursor::start(0), None);
    let mut steps: Vec<SampleCursor> = Vec::new();
    let mut cursor: Option<SampleCursor> = SampleCursor::start(2);
    while let Some(step) = cursor {
        steps.push(step);
        cursor = step.next(2);
    }

    assert_eq!(steps.len(), 10);
    assert_eq!(steps[0], SampleCursor { slice: 0, step: SampleStep::Program });
    assert_eq!(steps[2], SampleCursor { slice: 0, step: SampleStep::Wait });
    assert_eq!(steps[3], SampleCursor { slice: 0, step: SampleStep::Freeze });
    assert_eq!(steps[4], SampleCursor { slice: 0, step: SampleStep::Read });
    assert_eq!(steps[5], SampleCursor { slice: 1, step: SampleStep::Program });
}

// Counters and registers.

#[test]
fn the_distance_leads_from_one_reading_to_the_next() {
    let width: u32 = 48;
    for (previous, current) in [(0_u64, 5_u64), (5, 0), ((1 << 48) - 1, 3), (9, 9)] {
        let distance: u64 = counter_delta(previous, current, width);
        assert_eq!(mask_width(previous + distance, width), current);
    }
    assert_eq!(count_since_reset((1 << 50) | 6, 48), 6);
    assert_eq!(mask_width(mask_width(u64::MAX, 48), 48), mask_width(u64::MAX, 48));
}

#[test]
fn a_selection_can_be_read_back() {
    let word: u64 = select_word(0x34, 0x12, COUNT_AND_REPORT_OVERFLOW);
    assert_eq!(word & 0xff, 0x34);
    assert_eq!((word >> 8) & 0xff, 0x12);
    assert_eq!(word & !0xffff, (1 << 17) | (1 << 20) | (1 << 22));
}

fn unit(bus: u8) -> Unit<u32> {
    let register = |offset: u64| Register::Pci { location: at(bus, 1, 0), offset };
    Unit {
        scope: 0,
        control: register(0xf4),
        width: Width::Bits32,
        filter: None,
        controls: vec![register(0xd8), register(0xdc)],
        counters: vec![register(0xa0), register(0xa8)],
        fixed_control: Some(register(0xf0)),
        fixed_counter: Some(register(0xd0)),
    }
}

#[test]
fn reads_are_laid_out_unit_by_unit() {
    let list = reads(&vec![unit(1), unit(2)], &vec![true, true]);

    assert_eq!(list.len(), 6);
    assert_eq!(
        list[1],
        RegisterRead {
            register: Register::Pci { location: at(1, 1, 0), offset: 0xa8 },
            width: Width::Bits64,
        }
    );
    assert_eq!(list[2].register, Register::Pci { location: at(1, 1, 0), offset: 0xd0 });
    assert_eq!(list[3].register, Register::Pci { location: at(2, 1, 0), offset: 0xa0 });
    // A counter that is not used is not read.
    assert_eq!(reads(&vec![unit(1), unit(2)], &vec![false, true]).len(), 4);
}

#[test]
fn control_words_are_written_to_every_unit() {
    assert_eq!(
        write_controls(&vec![unit(1), unit(2)], &vec![0x100]),
        vec![
            RegisterWrite {
                register: Register::Pci { location: at(1, 1, 0), offset: 0xf4 },
                value: 0x100,
                width: Width::Bits32,
            },
            RegisterWrite {
                register: Register::Pci { location: at(2, 1, 0), offset: 0xf4 },
                value: 0x100,
                width: Width::Bits32,
            },
        ]
    );
}

// Processors, topology and devices.

#[test]
fn knows_the_server_processors() {
    let model = |family: u8, model: u8| IntelServerCpuModel::from_family_model(family, model);
    assert_eq!(model(6, 0x2d), Some(IntelServerCpuModel::SandyBridgeEp));
    assert_eq!(model(6, 0x56), Some(IntelServerCpuModel::BroadwellDe));
    assert_eq!(model(6, 0xcf), Some(IntelServerCpuModel::EmeraldRapids));
    assert_eq!(model(6, 0x6c), None);
    assert_eq!(model(15, 0x2d), None);
    let architecture = Architecture {
        brand: "test".to_string(),
        family: 6,
        model: 0x6a,
        vendor: "GenuineIntel".to_string(),
    };
    assert_eq!(architecture.intel_server_model(), IntelServerCpuModel::IceLakeXeon);
}

#[test]
fn the_leader_of_a_scope_is_its_first_cpu() {
    let topologies =
        vec![topology(9, 1, 0), topology(4, 0, 1), topology(2, 0, 0), topology(3, 0, 1)];
    let leaders = scope_leaders::<UncoreScope>(&topologies).unwrap();

    assert_eq!(leaders.len(), 3);
    let scope = UncoreScope { die_group_id: 0, die_id: 1, package_id: 0 };
    assert_eq!(leaders.get(&scope), Some(&4));
    let scopes = scopes_in_order::<HsxUncoreScope>(&topologies).unwrap();
    assert_eq!(
        scopes,
        vec![HsxUncoreScope { package_id: 0 }, HsxUncoreScope { package_id: 1 }]
    );
    let list = leaders_in_order::<HsxUncoreScope>(&topologies).unwrap();
    assert_eq!(list[0].cpu, 4);
    assert_eq!(list[1].cpu, 9);
}

#[test]
fn nodes_name_the_bus_of_each_package() {
    let node = |bus: u8, local_node_word: u32| UboxNode {
        location: at(bus, 11, 0),
        local_node_word,
        node_mapping: 0b010_001_000,
    };
    let nodes = vec![node(0xff, 1), node(0x7f, 0), node(0x3f, 1), node(0x10, 7)];
    let buses = package_buses_from_uboxes(&nodes);

    assert_eq!(buses.len(), 2);
    assert_eq!(buses.get(&0), Some(&PciBus { bus: 0x7f, group: 0 }));
    // Of two buses of a package the lower one is taken.
    assert_eq!(buses.get(&1), Some(&PciBus { bus: 0x3f, group: 0 }));
    assert_eq!(
        buses_in_order(&nodes),
        vec![PciBus { bus: 0x7f, group: 0 }, PciBus { bus: 0x3f, group: 0 }]
    );
}

#[test]
fn devices_are_told_by_vendor_id_and_place() {
    let location = at(0x7f, 9, 2);
    let device = PciVendorDevice::from_word(location, 0x2f33_8086).unwrap();
    assert_eq!(device.device_id, 0x2f33);
    assert_eq!(PciVendorDevice::from_word(location, 0x2f33_1234), None);

    let devices = vec![device, PciVendorDevice { device_id: 0x2f33, location: at(0xff, 9, 2) }];
    assert_eq!(find_devices(&devices, 0x2f33), vec![location, at(0xff, 9, 2)]);
    assert!(find_devices(&devices, 0x2f34).is_empty());
    let spec = PciDeviceSpec { device: 9, device_id: 0x2f33, function: 2 };
    assert_eq!(
        find_on_bus(&devices, spec, PciBus { bus: 0xff, group: 0 }),
        Some(at(0xff, 9, 2))
    );
    assert_eq!(find_on_bus(&devices, spec, PciBus { bus: 0x10, group: 0 }), None);
}

#[test]
fn units_are_found_on_the_buses_of_the_packages() {
    let devices = vec![
        PciVendorDevice { device_id: 0x2f30, location: at(0x7f, 18, 1) },
        PciVendorDevice { device_id: 0x9999, location: at(0x7f, 19, 1) },
    ];
    let bus_scopes = vec![HsxBusScope {
        bus: PciBus { bus: 0x7f, group: 0 },
        scope: HsxUncoreScope { package_id: 4 },
    }];
    let places = find_places(
        &devices,
        &bus_scopes,
        &vec![UnitAddress { device: 18, device_id: Some(0x2f30), function: 1 }],
    );

    assert_eq!(places.len(), 1);
    assert_eq!(places[0].location, at(0x7f, 18, 1));
    assert_eq!(places[0].scope.package_id, 4);
}

fn place(link_id: u32, bus: u8) -> LinkPlace {
    LinkPlace {
        location: at(bus, 8, 2),
        scope: InterconnectScope { die_group_id: 0, die_id: 0, link_id, package_id: 0 },
    }
}

#[test]
fn sorting_keeps_equals_in_their_order() {
    let sorted = sort(&vec![place(2, 1), place(0, 9), place(2, 0), place(1, 5), place(0, 3)]);
    let found: Vec<(u32, u8)> =
        sorted.iter().map(|place| (place.scope.link_id, place.location.bus)).collect();

    assert_eq!(found, vec![(0, 9), (0, 3), (1, 5), (2, 1), (2, 0)]);
}

// Discovery.

#[test]
fn capabilities_are_walked_to_the_end() {
    let vsec = |cap_next: u16| UncoreDiscoveryVsec {
        address: 0,
        cap_id: 0x23,
        cap_next,
        entry_id: 1,
        tbir: 2,
    };
    assert_eq!(vsec(0x123).next_capability(0x100), Some(0x120));
    assert_eq!(vsec(0x100).next_capability(0x100), None);
    assert_eq!(vsec(3).next_capability(0x100), None);
    assert!(vsec(0).lists_units());
    assert!(!UncoreDiscoveryVsec { entry_id: 2, ..vsec(0) }.lists_units());
    assert_eq!(vsec(0).bar_offset(), 0x18);
}

fn bases(config: &dyn Fn(ConfigRead) -> Option<u64>) -> Option<Vec<u64>> {
    let mut found: Vec<u64> = Vec::new();
    let mut walk: CapabilityWalk = CapabilityWalk::start();
    while walk != CapabilityWalk::End {
        if let CapabilityWalk::Table { base, .. } = walk {
            found.push(base);
        }
        walk = walk.next(walk.wanted().and_then(config))?;
    }
    Some(found)
}

#[test]
fn a_walk_finds_the_tables_of_a_device() {
    // An unrelated capability at 0x100, one with a wide base address at 0x120, and one whose base
    // address is not set at 0x140.
    let config = |read: ConfigRead| -> Option<u64> {
        match (read.offset, read.width) {
            (0x100, Width::Bits64) => Some(0x0b | (0x120 << 20)),
            (0x108, Width::Bits64) => Some(1),
            (0x120, Width::Bits64) => Some(0x23 | (0x140 << 20)),
            (0x128, Width::Bits64) => Some(1 | (2 << 32)),
            (0x140, Width::Bits64) => Some(0x23),
            (0x148, Width::Bits64) => Some(1 | (1 << 32)),
            (0x14, Width::Bits32) => Some(0),
            (0x18, Width::Bits32) => Some(0x1234_5004),
            (0x1c, Width::Bits32) => Some(0x78),
            _ => None,
        }
    };
    assert_eq!(bases(&config), Some(vec![0x78_1234_5000]));
    // Without the upper half of the address the walk fails.
    assert_eq!(bases(&|read| if read.offset == 0x1c { None } else { config(read) }), None);
    // A device without capabilities has no table.
    assert_eq!(bases(&|_| Some(0)), Some(Vec::new()));
    assert_eq!(bases(&|_| None), Some(Vec::new()));
}

#[test]
fn a_task_stops_when_it_fails_or_is_not_heard() {
    let sample = TaskAction::Sample;
    assert_eq!(sample.next(TaskEvent::Sampled), TaskAction::Report);
    assert_eq!(sample.next(TaskEvent::Idle), TaskAction::Sample);
    assert_eq!(sample.next(TaskEvent::Failed), TaskAction::Fail);
    assert_eq!(TaskAction::Report.next(TaskEvent::Delivered), TaskAction::Sample);
    assert_eq!(TaskAction::Report.next(TaskEvent::Unheard), TaskAction::Stop);
    assert_eq!(TaskAction::Fail.next(TaskEvent::Delivered), TaskAction::Stop);
    assert_eq!(TaskAction::Fail.next(TaskEvent::Unheard), TaskAction::Stop);
}

#[test]
fn base_addresses_are_narrow_or_wide() {
    assert!(bar_is_wide(0x1234_5004));
    assert!(!bar_is_wide(0x1234_5000));
    assert_eq!(decode_discovery_bar(0x1234_5000, 0), 0x1234_5000);
}

#[test]
fn tables_list_units_by_type() {
    let global = UncoreGlobalDiscovery::from_words([(3 << 16) | (8 << 8), 0, 0]);
    assert_eq!(global.max_units, 3);
    assert_eq!(global.stride, 8);
    assert_eq!(global.unit_offset(0), 64);
    assert_eq!(global.unit_offset(2), 192);

    let table: Vec<[u64; 3]> = vec![
        [4 | (1 << 62), 0x1000, 6],
        [4, 0x2000, 6],
        [0, 0x3000, 6],
        [4 | (1 << 62), 0, 6],
        [4 | (1 << 62), 0x4000, 4],
    ];
    let addresses = |access_type: Option<u8>| -> Vec<u64> {
        select_boxes(&table, 6, access_type).iter().map(|entry| entry.box_control).collect()
    };
    assert_eq!(addresses(Some(1)), vec![0x1000]);
    assert_eq!(addresses(None), vec![0x1000, 0x2000]);
}

#[test]
fn a_device_without_known_cpus_has_no_scope() {
    let topologies = vec![topology(0, 0, 0)];
    assert_eq!(scope_from_local_cpus::<UncoreScope>(&vec![7], &topologies), None);
    assert_eq!(scope_from_local_cpus::<UncoreScope>(&Vec::new(), &topologies), None);
}

// Labels.

#[test]
fn labels_are_listed_by_name() {
    let labels = Labels { domain: Some("dram"), ..Labels::die(1, 2, 3) };
    let list: Vec<(&str, LabelValue)> =
        labels.list().iter().map(|label| (label.name, label.value)).collect();

    assert_eq!(list.len(), 4);
    assert!(matches!(list[0], ("die", LabelValue::Index(2))));
    assert!(matches!(list[1], ("die_group", LabelValue::Index(1))));
    assert!(matches!(list[2], ("domain", LabelValue::Text("dram"))));
    assert!(matches!(list[3], ("package", LabelValue::Index(3))));
    assert!(Labels::none().list().is_empty());
}
