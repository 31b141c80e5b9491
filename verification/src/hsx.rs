//! What the uncore collectors of Haswell and Broadwell processors share.
use crate::arch::IntelServerCpuModel;
use crate::pci::{PciBus, PciLocation, PciVendorDevice};
use crate::registers::{PmonWords, Register, Width};
use crate::topology::HsxUncoreScope;
use crate::units::Unit;
use vstd::prelude::*;

verus! {

/// The uncore bus of a package.
#[derive(Clone, Copy, Debug, PartialEq, Eq, Structural)]
pub struct HsxBusScope {
    pub bus: PciBus,
    pub scope: HsxUncoreScope,
}

/// Where on a bus a unit stands; `device_id` is given where the device must show it.
#[derive(Clone, Copy, Debug, PartialEq, Eq, Structural)]
pub struct UnitAddress {
    pub device: u8,
    pub device_id: Option<u16>,
    pub function: u8,
}

/// Where a unit has its registers.
#[derive(Clone, Copy, Debug)]
pub struct HsxUnitLayout {
    pub controls: [u64; 4],
    pub counters: [u64; 4],
    pub fixed_control: u64,
    pub fixed_counter: u64,
    pub unit_control: u64,
}

/// What sets the uncore of one processor apart from that of another.
#[derive(Debug)]
pub struct HsxUncoreSpec {
    pub ha_units: Vec<UnitAddress>,
    pub imc_channels: Vec<UnitAddress>,
    pub layout: HsxUnitLayout,
    pub name: &'static str,
    pub words: PmonWords,
}

/// A unit with the package that it counts for.
#[derive(Clone, Copy, Debug, PartialEq, Eq, Structural)]
pub struct UnitPlace {
    pub location: PciLocation,
    pub scope: HsxUncoreScope,
}

/// Whether a processor is a Haswell or a Broadwell server.
pub open spec fn is_member(model: IntelServerCpuModel) -> bool {
    model == IntelServerCpuModel::HaswellXeon || model == IntelServerCpuModel::BroadwellXeon
}

/// Whether a processor is a Haswell or a Broadwell server.
pub fn belongs(model: IntelServerCpuModel) -> (result: bool)
    ensures
        result == is_member(model),
{
    match model {
        IntelServerCpuModel::HaswellXeon | IntelServerCpuModel::BroadwellXeon => true,
        _ => false,
    }
}

/// The location of an address on a bus.
pub open spec fn location_on(bus: PciBus, address: UnitAddress) -> PciLocation {
    PciLocation {
        bus: bus.bus,
        device: address.device,
        function: address.function,
        group: bus.group,
    }
}

/// Whether a device stands at an address on a bus and shows the id that is asked for.
pub open spec fn stands_at(device: PciVendorDevice, bus: PciBus, address: UnitAddress) -> bool {
    &&& device.location == location_on(bus, address)
    &&& address.device_id matches Some(id) ==> device.device_id == id
}

/// Whether some device stands at an address on a bus.
pub open spec fn is_present(
    devices: Seq<PciVendorDevice>,
    bus: PciBus,
    address: UnitAddress,
) -> bool {
    exists|i: int| 0 <= i < devices.len() && #[trigger] stands_at(devices[i], bus, address)
}

/// The units that stand at the first `n` addresses on the bus of a package.
pub open spec fn places_on(
    devices: Seq<PciVendorDevice>,
    bus_scope: HsxBusScope,
    addresses: Seq<UnitAddress>,
    n: nat,
) -> Seq<UnitPlace>
    decreases n,
{
    if n == 0 {
        Seq::empty()
    } else {
        let before = places_on(devices, bus_scope, addresses, (n - 1) as nat);
        if is_present(devices, bus_scope.bus, addresses[n - 1]) {
            before.push(
                UnitPlace {
                    location: location_on(bus_scope.bus, addresses[n - 1]),
                    scope: bus_scope.scope,
                },
            )
        } else {
            before
        }
    }
}

/// The units of all packages, package by package.
pub open spec fn all_places(
    devices: Seq<PciVendorDevice>,
    bus_scopes: Seq<HsxBusScope>,
    addresses: Seq<UnitAddress>,
) -> Seq<UnitPlace>
    decreases bus_scopes.len(),
{
    if bus_scopes.len() == 0 {
        Seq::empty()
    } else {
        all_places(devices, bus_scopes.drop_last(), addresses) + places_on(
            devices,
            bus_scopes.last(),
            addresses,
            addresses.len(),
        )
    }
}

fn find_present(devices: &Vec<PciVendorDevice>, bus: PciBus, address: UnitAddress) -> (found:
    Option<PciLocation>)
    ensures
        found == if is_present(devices@, bus, address) {
            Some(location_on(bus, address))
        } else {
            None
        },
{
    let location = PciLocation {
        bus: bus.bus,
        device: address.device,
        function: address.function,
        group: bus.group,
    };
    let mut i: usize = 0;
    while i < devices.len()
        invariant
            i <= devices@.len(),
            location == location_on(bus, address),
            forall|k: int| 0 <= k < i ==> !#[trigger] stands_at(devices@[k], bus, address),
        decreases devices@.len() - i,
    {
        let device = devices[i];
        let shown: bool = match address.device_id {
            Some(id) => device.device_id == id,
            None => true,
        };
        if device.location == location && shown {
            assert(stands_at(devices@[i as int], bus, address));
            return Some(location);
        }
        i += 1;
    }
    None
}

/// Finds the units of all packages.
pub fn find_places(
    devices: &Vec<PciVendorDevice>,
    bus_scopes: &Vec<HsxBusScope>,
    addresses: &Vec<UnitAddress>,
) -> (places: Vec<UnitPlace>)
    ensures
        places@ == all_places(devices@, bus_scopes@, addresses@),
{
    let mut places: Vec<UnitPlace> = Vec::new();
    let mut i: usize = 0;
    assert(bus_scopes@.take(0) =~= Seq::<HsxBusScope>::empty());
    while i < bus_scopes.len()
        invariant
            i <= bus_scopes@.len(),
            places@ == all_places(devices@, bus_scopes@.take(i as int), addresses@),
        decreases bus_scopes@.len() - i,
    {
        let bus_scope = bus_scopes[i];
        let ghost before = places@;
        let mut j: usize = 0;
        while j < addresses.len()
            invariant
                j <= addresses@.len(),
                places@ == before + places_on(devices@, bus_scope, addresses@, j as nat),
            decreases addresses@.len() - j,
        {
            match find_present(devices, bus_scope.bus, addresses[j]) {
                Some(location) => {
                    places.push(UnitPlace { location, scope: bus_scope.scope });
                },
                None => {},
            }
            assert(places@ =~= before + places_on(devices@, bus_scope, addresses@, (j + 1) as nat));
            j += 1;
        }
        assert(bus_scopes@.take(i + 1).drop_last() =~= bus_scopes@.take(i as int));
        i += 1;
    }
    assert(bus_scopes@.take(i as int) =~= bus_scopes@);
    places
}

/// Whether `unit` has the registers of a unit at a place, with or without a clock counter.
pub open spec fn is_unit(
    unit: Unit<HsxUncoreScope>,
    place: UnitPlace,
    layout: HsxUnitLayout,
    clocked: bool,
) -> bool {
    let location = place.location;
    &&& unit.scope == place.scope
    &&& unit.control == Register::Pci { location, offset: layout.unit_control }
    &&& unit.width == Width::Bits32
    &&& unit.filter is None
    &&& unit.controls@ == layout.controls@.map_values(
        |offset: u64| Register::Pci { location, offset },
    )
    &&& unit.counters@ == layout.counters@.map_values(
        |offset: u64| Register::Pci { location, offset },
    )
    &&& unit.fixed_control == if clocked {
        Some(Register::Pci { location, offset: layout.fixed_control })
    } else {
        None
    }
    &&& unit.fixed_counter == if clocked {
        Some(Register::Pci { location, offset: layout.fixed_counter })
    } else {
        None
    }
}

fn unit_at(place: UnitPlace, layout: HsxUnitLayout, clocked: bool) -> (unit: Unit<HsxUncoreScope>)
    ensures
        is_unit(unit, place, layout, clocked),
{
    let location = place.location;
    let unit = Unit {
        scope: place.scope,
        control: Register::Pci { location, offset: layout.unit_control },
        width: Width::Bits32,
        filter: None,
        controls: vec![
            Register::Pci { location, offset: layout.controls[0] },
            Register::Pci { location, offset: layout.controls[1] },
            Register::Pci { location, offset: layout.controls[2] },
            Register::Pci { location, offset: layout.controls[3] },
        ],
        counters: vec![
            Register::Pci { location, offset: layout.counters[0] },
            Register::Pci { location, offset: layout.counters[1] },
            Register::Pci { location, offset: layout.counters[2] },
            Register::Pci { location, offset: layout.counters[3] },
        ],
        fixed_control: if clocked {
            Some(Register::Pci { location, offset: layout.fixed_control })
        } else {
            None
        },
        fixed_counter: if clocked {
            Some(Register::Pci { location, offset: layout.fixed_counter })
        } else {
            None
        },
    };
    assert(unit.controls@ =~= layout.controls@.map_values(
        |offset: u64| Register::Pci { location, offset },
    ));
    assert(unit.counters@ =~= layout.counters@.map_values(
        |offset: u64| Register::Pci { location, offset },
    ));
    unit
}

/// Whether `units` are the units at `places`, in the same order.
pub open spec fn are_units(
    units: Seq<Unit<HsxUncoreScope>>,
    places: Seq<UnitPlace>,
    layout: HsxUnitLayout,
    clocked: bool,
) -> bool {
    &&& units.len() == places.len()
    &&& forall|i: int|
        0 <= i < places.len() ==> is_unit(#[trigger] units[i], places[i], layout, clocked)
}

/// The units at `places`.
pub fn units_at(places: &Vec<UnitPlace>, layout: HsxUnitLayout, clocked: bool) -> (units: Vec<
    Unit<HsxUncoreScope>,
>)
    ensures
        are_units(units@, places@, layout, clocked),
{
    let mut units: Vec<Unit<HsxUncoreScope>> = Vec::new();
    let mut i: usize = 0;
    while i < places.len()
        invariant
            i <= places@.len(),
            units@.len() == i,
            forall|k: int|
                0 <= k < i ==> is_unit(#[trigger] units@[k], places@[k], layout, clocked),
        decreases places@.len() - i,
    {
        units.push(unit_at(places[i], layout, clocked));
        i += 1;
    }
    units
}

} // verus!
