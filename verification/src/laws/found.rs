//! Which units are found, where, and for whom they count.
use crate::discovery::{UncoreBoxDiscovery, UncoreDiscoverySocketBoxes};
use crate::ep::SnbArchitecture;
use crate::error::CollectorError;
use crate::hsx;
use crate::laws::lists;
use crate::metrics::imc::icx as imc_icx;
use crate::metrics::imc::skx as imc_skx;
use crate::metrics::imc::snb as imc_snb;
use crate::metrics::imc::spr as imc_spr;
use crate::metrics::irp::icx as irp_icx;
use crate::metrics::irp::skx as irp_skx;
use crate::metrics::irp::snb as irp_snb;
use crate::metrics::irp::spr as irp_spr;
use crate::metrics::pcu::spr as pcu_spr;
use crate::pci::{self, PciBus, PciDeviceSpec, PciLocation, PciVendorDevice};
use crate::registers::Register;
use crate::topology::{Leader, UncoreScope};
use crate::units::Unit;
use vstd::prelude::*;

verus! {

/// Where an address on a bus is.
pub open spec fn at(bus: PciBus, device: u8, function: u8) -> PciLocation {
    PciLocation { bus: bus.bus, device, function, group: bus.group }
}

/// Whether a place is that of a unit at an address on the bus of a package: some device is there
/// and, where an id is asked for, shows it.
pub open spec fn is_hsx_place(
    place: hsx::UnitPlace,
    devices: Seq<PciVendorDevice>,
    bus_scope: hsx::HsxBusScope,
    address: hsx::UnitAddress,
) -> bool {
    &&& place.scope == bus_scope.scope
    &&& place.location == at(bus_scope.bus, address.device, address.function)
    &&& has_device(devices, place.location, address.device_id)
}

/// Whether some device is at a location and, where an id is asked for, shows it.
pub open spec fn has_device(
    devices: Seq<PciVendorDevice>,
    location: PciLocation,
    device_id: Option<u16>,
) -> bool {
    exists|i: int|
        0 <= i < devices.len() && (#[trigger] devices[i]).location == location && (device_id
            is None || device_id == Some(devices[i].device_id))
}

proof fn lemma_hsx_present(
    devices: Seq<PciVendorDevice>,
    bus: PciBus,
    address: hsx::UnitAddress,
)
    ensures
        hsx::is_present(devices, bus, address) <==> has_device(
            devices,
            at(bus, address.device, address.function),
            address.device_id,
        ),
{
    if hsx::is_present(devices, bus, address) {
        let i = choose|i: int|
            0 <= i < devices.len() && #[trigger] hsx::stands_at(devices[i], bus, address);
        assert(devices[i].location == at(bus, address.device, address.function));
    }
    if has_device(devices, at(bus, address.device, address.function), address.device_id) {
        let location = at(bus, address.device, address.function);
        let i = choose|i: int|
            0 <= i < devices.len() && (#[trigger] devices[i]).location == location && (
            address.device_id is None || address.device_id == Some(devices[i].device_id));
        assert(hsx::stands_at(devices[i], bus, address));
    }
}

proof fn lemma_hsx_place_on(
    devices: Seq<PciVendorDevice>,
    bus_scope: hsx::HsxBusScope,
    addresses: Seq<hsx::UnitAddress>,
    n: nat,
    k: int,
) -> (a: int)
    requires
        n <= addresses.len(),
        0 <= k < hsx::places_on(devices, bus_scope, addresses, n).len(),
    ensures
        0 <= a < n,
        is_hsx_place(
            hsx::places_on(devices, bus_scope, addresses, n)[k],
            devices,
            bus_scope,
            addresses[a],
        ),
    decreases n,
{
    lemma_hsx_present(devices, bus_scope.bus, addresses[n - 1]);
    if k < hsx::places_on(devices, bus_scope, addresses, (n - 1) as nat).len() {
        lemma_hsx_place_on(devices, bus_scope, addresses, (n - 1) as nat, k)
    } else {
        n - 1
    }
}

/// Every unit of Haswell and Broadwell that is found stands at one of the addresses on the bus of
/// the package that it counts for.
pub proof fn hsx_units_stand_at_their_addresses(
    devices: Seq<PciVendorDevice>,
    bus_scopes: Seq<hsx::HsxBusScope>,
    addresses: Seq<hsx::UnitAddress>,
    k: int,
) -> (place: (int, int))
    requires
        0 <= k < hsx::all_places(devices, bus_scopes, addresses).len(),
    ensures
        0 <= place.0 < bus_scopes.len(),
        0 <= place.1 < addresses.len(),
        is_hsx_place(
            hsx::all_places(devices, bus_scopes, addresses)[k],
            devices,
            bus_scopes[place.0],
            addresses[place.1],
        ),
    decreases bus_scopes.len(),
{
    let front = bus_scopes.drop_last();
    let before = hsx::all_places(devices, front, addresses);
    if k < before.len() {
        let place = hsx_units_stand_at_their_addresses(devices, front, addresses, k);
        assert(front[place.0] == bus_scopes[place.0]);
        place
    } else {
        let a = lemma_hsx_place_on(
            devices,
            bus_scopes.last(),
            addresses,
            addresses.len(),
            k - before.len(),
        );
        (bus_scopes.len() - 1, a)
    }
}

proof fn lemma_hsx_found_on(
    devices: Seq<PciVendorDevice>,
    bus_scope: hsx::HsxBusScope,
    addresses: Seq<hsx::UnitAddress>,
    n: nat,
    a: int,
) -> (k: int)
    requires
        0 <= a < n <= addresses.len(),
        has_device(
            devices,
            at(bus_scope.bus, addresses[a].device, addresses[a].function),
            addresses[a].device_id,
        ),
    ensures
        0 <= k < hsx::places_on(devices, bus_scope, addresses, n).len(),
        is_hsx_place(
            hsx::places_on(devices, bus_scope, addresses, n)[k],
            devices,
            bus_scope,
            addresses[a],
        ),
    decreases n,
{
    lemma_hsx_present(devices, bus_scope.bus, addresses[n - 1]);
    if a < n - 1 {
        lemma_hsx_found_on(devices, bus_scope, addresses, (n - 1) as nat, a)
    } else {
        hsx::places_on(devices, bus_scope, addresses, (n - 1) as nat).len() as int
    }
}

/// Every unit of Haswell and Broadwell that stands at one of the addresses is found.
pub proof fn hsx_units_are_found(
    devices: Seq<PciVendorDevice>,
    bus_scopes: Seq<hsx::HsxBusScope>,
    addresses: Seq<hsx::UnitAddress>,
    b: int,
    a: int,
) -> (k: int)
    requires
        0 <= b < bus_scopes.len(),
        0 <= a < addresses.len(),
        has_device(
            devices,
            at(bus_scopes[b].bus, addresses[a].device, addresses[a].function),
            addresses[a].device_id,
        ),
    ensures
        0 <= k < hsx::all_places(devices, bus_scopes, addresses).len(),
        is_hsx_place(
            hsx::all_places(devices, bus_scopes, addresses)[k],
            devices,
            bus_scopes[b],
            addresses[a],
        ),
    decreases bus_scopes.len(),
{
    let front = bus_scopes.drop_last();
    let before = hsx::all_places(devices, front, addresses);
    if b < bus_scopes.len() - 1 {
        assert(front[b] == bus_scopes[b]);
        hsx_units_are_found(devices, front, addresses, b, a)
    } else {
        let k = lemma_hsx_found_on(
            devices,
            bus_scopes.last(),
            addresses,
            addresses.len(),
            a,
        );
        before.len() + k
    }
}

/// On Skylake every bus is paired with the scope that its socket number names, and every channel of
/// every bus is found where its address is, for the scope of the bus.
pub proof fn skx_channels_are_found_on_their_buses(
    socket_buses: Seq<imc_skx::SocketBus>,
    scopes: Seq<imc_skx::ImcScope>,
    pairs: Vec<(PciBus, imc_skx::ImcScope)>,
    specs: Seq<PciDeviceSpec>,
    devices: Seq<PciVendorDevice>,
    channels: Vec<Unit<imc_skx::ImcScope>>,
    b: int,
    c: int,
)
    requires
        imc_skx::buses_paired(
            socket_buses,
            scopes,
            Ok::<Vec<(PciBus, imc_skx::ImcScope)>, CollectorError>(pairs),
        ),
        imc_skx::channels_found(
            pairs@,
            specs,
            devices,
            Ok::<Vec<Unit<imc_skx::ImcScope>>, CollectorError>(channels),
        ),
        0 <= b < socket_buses.len(),
        0 <= c < specs.len(),
    ensures
        channels@.len() == socket_buses.len() * specs.len(),
        socket_buses.len() == scopes.len(),
        ({
            let bus = socket_buses[b].bus;
            let location = at(bus, specs[c].device, specs[c].function);
            let channel = channels@[b * specs.len() + c];
            &&& has_device(devices, location, Some(specs[c].device_id))
            &&& channel.scope == scopes[socket_buses[b].socket_index as int]
            &&& channel.control == (Register::Pci { location, offset: 0xf4 })
        }),
{
    assert(socket_buses[b].socket_index < scopes.len());
    assert(pairs@[b] == (socket_buses[b].bus, scopes[socket_buses[b].socket_index as int]));
    let bus = pairs@[b].0;
    assert(imc_skx::is_present(devices, specs[c], bus));
    let i = choose|i: int|
        0 <= i < devices.len() && #[trigger] pci::fits_spec(devices[i], specs[c], bus);
    assert(devices[i].location == at(bus, specs[c].device, specs[c].function));
}

/// The memory of an Ice Lake controller is mapped where the two registers of its socket say: bits 0
/// to 28 of the first are bits 23 to 51 of the address, and bits 0 to 10 of the second bits 12 to
/// 22.
pub proof fn icx_memory_is_mapped_where_the_registers_say(mmio_base: u32, memory_offset: u32)
    ensures
        ({
            let bar = imc_icx::memory_bar(mmio_base, memory_offset);
            &&& bar % 0x1000 == 0
            &&& bar / 0x1000 % 0x800 == memory_offset % 0x800
            &&& bar / 0x80_0000 == mmio_base % 0x2000_0000
        }),
        imc_icx::UBOX_MMIO_BASE == 0xd0,
        imc_icx::UBOX_MEMORY_OFFSET == 0xd8,
{
}

/// The device that tells where the memory of a socket is mapped is function 1 of device 0 on its
/// bus, on Ice Lake and on Sapphire Rapids.
pub proof fn icx_ubox_is_told_by_id_and_address(device: PciVendorDevice)
    ensures
        imc_icx::is_ubox(device) <==> device.location.device == 0 && device.location.function == 1
            && (device.device_id == 0x3451 || device.device_id == 0x3251),
{
}

proof fn lemma_icx_socket<const N: usize>(
    ubox: imc_icx::UboxBars<N>,
    scope: imc_icx::IcxImcScope,
    channels: nat,
    n: nat,
    bar: int,
    channel: int,
)
    requires
        0 <= bar < n,
        0 <= channel < channels,
    ensures
        imc_icx::socket_places(ubox, scope, channels, n).len() == n * channels,
        0 <= bar * channels + channel < n * channels,
        imc_icx::socket_places(ubox, scope, channels, n)[bar * channels + channel]
            == imc_icx::place(ubox, scope, bar, channel),
    decreases n,
{
    let before = imc_icx::socket_places(ubox, scope, channels, (n - 1) as nat);
    assert(n * channels == (n - 1) * channels + channels) by (nonlinear_arith)
        requires
            n > 0,
    ;
    lemma_icx_socket_len(ubox, scope, channels, (n - 1) as nat);
    if bar < n - 1 {
        lemma_icx_socket(ubox, scope, channels, (n - 1) as nat, bar, channel);
    }
}

proof fn lemma_icx_socket_len<const N: usize>(
    ubox: imc_icx::UboxBars<N>,
    scope: imc_icx::IcxImcScope,
    channels: nat,
    n: nat,
)
    ensures
        imc_icx::socket_places(ubox, scope, channels, n).len() == n * channels,
    decreases n,
{
    if n > 0 {
        lemma_icx_socket_len(ubox, scope, channels, (n - 1) as nat);
        assert(n * channels == (n - 1) * channels + channels) by (nonlinear_arith)
            requires
                n > 0,
        ;
    } else {
        assert(0 * channels == 0) by (nonlinear_arith);
    }
}

/// Every channel of every controller of every Ice Lake socket is found: 0x4000 bytes apart, from
/// 0x22800 after where the memory of the controller is mapped, for the scope of the socket.
pub proof fn icx_channels_are_found<const N: usize>(
    uboxes: Seq<imc_icx::UboxBars<N>>,
    scopes: Seq<imc_icx::IcxImcScope>,
    channels: nat,
    s: int,
    bar: int,
    channel: int,
) -> (k: int)
    requires
        0 <= s < uboxes.len(),
        0 <= bar < N,
        0 <= channel < channels,
        imc_icx::channels_fit(channels),
    ensures
        0 <= k < imc_icx::all_places(uboxes, scopes, channels).len(),
        ({
            let place = imc_icx::all_places(uboxes, scopes, channels)[k];
            let mapped = imc_icx::memory_bar(
                uboxes[s].mmio_base,
                uboxes[s].memory_offsets@[bar],
            );
            &&& place.scope == scopes[s]
            &&& place.base == mapped + 0x22800 + channel * 0x4000
        }),
    decreases uboxes.len(),
{
    let front = uboxes.drop_last();
    let before = imc_icx::all_places(front, scopes, channels);
    if s < uboxes.len() - 1 {
        assert(front[s] == uboxes[s]);
        icx_channels_are_found(front, scopes, channels, s, bar, channel)
    } else {
        lemma_icx_socket(uboxes[s], scopes[s], channels, N as nat, bar, channel);
        assert(0 <= channel * 0x4000 <= channels * 0x4000);
        before.len() + bar * channels + channel
    }
}

/// There are as many Ice Lake channels as sockets, controllers and channels per controller make.
pub proof fn icx_channels_are_counted<const N: usize>(
    uboxes: Seq<imc_icx::UboxBars<N>>,
    scopes: Seq<imc_icx::IcxImcScope>,
    channels: nat,
)
    ensures
        imc_icx::all_places(uboxes, scopes, channels).len() == uboxes.len() * (N * channels),
    decreases uboxes.len(),
{
    if uboxes.len() > 0 {
        let n = uboxes.len() as int;
        let each = N * channels;
        icx_channels_are_counted(uboxes.drop_last(), scopes, channels);
        lemma_icx_socket_len(uboxes.last(), scopes[n - 1], channels, N as nat);
        assert(n * each == (n - 1) * each + each) by (nonlinear_arith);
    } else {
        assert(0 * (N * channels) == 0) by (nonlinear_arith);
    }
}

/// The memory channels of Sandy and Ivy Bridge: Sandy Bridge has four functions of device 16, Ivy
/// Bridge four of device 16 and four of device 30, and each id ends in the number of its function.
pub proof fn snb_channels_are_told_by_their_ids(architecture: SnbArchitecture, c: int)
    requires
        0 <= c < imc_snb::channels_of(architecture).len(),
    ensures
        ({
            let channels = imc_snb::channels_of(architecture);
            let channel = channels[c];
            let function = channel.function;
            &&& function == 0 || function == 1 || function == 4 || function == 5
            &&& match architecture {
                SnbArchitecture::Snb => {
                    &&& channels.len() == 4
                    &&& channel.device == 16
                    &&& channel.device_id == 0x3cb0 + function
                },
                SnbArchitecture::Ivb => {
                    &&& channels.len() == 8
                    &&& channel.device == 16 || channel.device == 30
                    &&& channel.device == 16 ==> channel.device_id == 0x0eb0 + function
                    &&& channel.device == 30 ==> channel.device_id == 0x0ef0 + function
                },
            }
        }),
        forall|d: int|
            0 <= d < imc_snb::channels_of(architecture).len() && d != c
                ==> (#[trigger] imc_snb::channels_of(architecture)[d]).device_id
                != imc_snb::channels_of(architecture)[c].device_id,
{
    match architecture {
        SnbArchitecture::Snb => {
            assert(c == 0 || c == 1 || c == 2 || c == 3);
        },
        SnbArchitecture::Ivb => {
            assert(c == 0 || c == 1 || c == 2 || c == 3 || c == 4 || c == 5 || c == 6 || c == 7);
        },
    }
}

/// Every channel of Sandy and Ivy Bridge counts for the scope of the bus that it stands on.
pub proof fn snb_channels_count_for_their_bus(
    buses: Seq<PciBus>,
    scopes: Seq<imc_snb::SnbImcScope>,
    locations: Seq<PciLocation>,
    n: nat,
    k: int,
) -> (b: int)
    requires
        0 <= k < imc_snb::places_on(buses, scopes, locations, n).len(),
    ensures
        0 <= b < n,
        ({
            let place = imc_snb::places_on(buses, scopes, locations, n)[k];
            &&& place.scope == scopes[b]
            &&& place.location.bus == buses[b].bus
            &&& place.location.group == buses[b].group
            &&& locations.contains(place.location)
        }),
    decreases n,
{
    let before = imc_snb::places_on(buses, scopes, locations, (n - 1) as nat);
    if k < before.len() {
        snb_channels_count_for_their_bus(buses, scopes, locations, (n - 1) as nat, k)
    } else {
        lemma_on_bus(locations, buses[n - 1], k - before.len());
        n - 1
    }
}

proof fn lemma_on_bus(locations: Seq<PciLocation>, bus: PciBus, k: int)
    requires
        0 <= k < pci::on_bus(locations, bus).len(),
    ensures
        pci::on_bus(locations, bus)[k].bus == bus.bus,
        pci::on_bus(locations, bus)[k].group == bus.group,
        locations.contains(pci::on_bus(locations, bus)[k]),
    decreases locations.len(),
{
    let front = locations.drop_last();
    let before = pci::on_bus(front, bus);
    if k < before.len() {
        lemma_on_bus(front, bus, k);
        let i = choose|i: int| 0 <= i < front.len() && front[i] == before[k];
        assert(locations[i] == before[k]);
    } else {
        assert(locations[locations.len() - 1] == pci::on_bus(locations, bus)[k]);
    }
}

/// Every channel of Sandy and Ivy Bridge that stands on one of the buses is found.
pub proof fn snb_channels_are_found(
    buses: Seq<PciBus>,
    scopes: Seq<imc_snb::SnbImcScope>,
    locations: Seq<PciLocation>,
    n: nat,
    b: int,
    l: int,
) -> (k: int)
    requires
        0 <= b < n,
        0 <= l < locations.len(),
        locations[l].bus == buses[b].bus,
        locations[l].group == buses[b].group,
    ensures
        0 <= k < imc_snb::places_on(buses, scopes, locations, n).len(),
        imc_snb::places_on(buses, scopes, locations, n)[k].location == locations[l],
        imc_snb::places_on(buses, scopes, locations, n)[k].scope == scopes[b],
    decreases n,
{
    let before = imc_snb::places_on(buses, scopes, locations, (n - 1) as nat);
    if b < n - 1 {
        snb_channels_are_found(buses, scopes, locations, (n - 1) as nat, b, l)
    } else {
        let k = lemma_found_on_bus(locations, buses[b], l);
        before.len() + k
    }
}

proof fn lemma_found_on_bus(locations: Seq<PciLocation>, bus: PciBus, l: int) -> (k: int)
    requires
        0 <= l < locations.len(),
        locations[l].bus == bus.bus,
        locations[l].group == bus.group,
    ensures
        0 <= k < pci::on_bus(locations, bus).len(),
        pci::on_bus(locations, bus)[k] == locations[l],
    decreases locations.len(),
{
    let front = locations.drop_last();
    if l < locations.len() - 1 {
        assert(front[l] == locations[l]);
        lemma_found_on_bus(front, bus, l)
    } else {
        pci::on_bus(front, bus).len() as int
    }
}

/// Every discovery entry of a socket of Sapphire Rapids becomes a channel of that socket.
pub proof fn spr_channels_are_those_discovered(
    sockets: Seq<UncoreDiscoverySocketBoxes<imc_spr::SprImcScope>>,
    s: int,
    b: int,
) -> (k: int)
    requires
        0 <= s < sockets.len(),
        0 <= b < sockets[s].boxes@.len(),
    ensures
        0 <= k < imc_spr::all_places(sockets).len(),
        imc_spr::all_places(sockets)[k].scope == sockets[s].scope,
        imc_spr::all_places(sockets)[k].entry == sockets[s].boxes@[b],
        imc_spr::SPR_IMC_BOX_TYPE == 6,
        imc_spr::MMIO_ACCESS == 1,
{
    let f = |socket: UncoreDiscoverySocketBoxes<imc_spr::SprImcScope>|
        imc_spr::socket_places(socket);
    lists::every_item_is_flattened(sockets, f, s, b)
}

/// Every channel of Sapphire Rapids comes of a discovery entry of its socket.
pub proof fn spr_channels_come_of_their_sockets(
    sockets: Seq<UncoreDiscoverySocketBoxes<imc_spr::SprImcScope>>,
    k: int,
) -> (place: (int, int))
    requires
        0 <= k < imc_spr::all_places(sockets).len(),
    ensures
        0 <= place.0 < sockets.len(),
        0 <= place.1 < sockets[place.0].boxes@.len(),
        imc_spr::all_places(sockets)[k].scope == sockets[place.0].scope,
        imc_spr::all_places(sockets)[k].entry == sockets[place.0].boxes@[place.1],
{
    let f = |socket: UncoreDiscoverySocketBoxes<imc_spr::SprImcScope>|
        imc_spr::socket_places(socket);
    lists::every_element_comes_of_an_item(sockets, f, k)
}

/// The stacks of Skylake, in the order of their registers.
pub open spec fn skx_stack(s: int) -> irp_skx::SkxIioStack {
    if s == 0 {
        irp_skx::SkxIioStack::CbdmaDmi
    } else if s == 1 {
        irp_skx::SkxIioStack::Pcie0
    } else if s == 2 {
        irp_skx::SkxIioStack::Pcie1
    } else if s == 3 {
        irp_skx::SkxIioStack::Pcie2
    } else if s == 4 {
        irp_skx::SkxIioStack::Mcp0
    } else {
        irp_skx::SkxIioStack::Mcp1
    }
}

/// Every stack of every die of Skylake has a unit, reached through the processor that leads the
/// die.
pub proof fn skx_every_stack_has_a_unit(leaders: Seq<Leader<UncoreScope>>, l: int, s: int)
    requires
        0 <= l < leaders.len(),
        0 <= s < 6,
    ensures
        irp_skx::all_places(leaders).len() == leaders.len() * 6,
        irp_skx::all_places(leaders)[l * 6 + s].cpu == leaders[l].cpu,
        irp_skx::all_places(leaders)[l * 6 + s].scope.scope == leaders[l].scope,
        irp_skx::all_places(leaders)[l * 6 + s].scope.stack == skx_stack(s),
    decreases leaders.len(),
{
    let front = leaders.drop_last();
    let before = irp_skx::all_places(front);
    let stacks = irp_skx::all_stacks();
    assert(s == 0 || s == 1 || s == 2 || s == 3 || s == 4 || s == 5);
    assert(stacks[s] == skx_stack(s));
    assert(irp_skx::die_places(leaders.last()).len() == 6);
    if leaders.len() > 1 {
        skx_every_stack_has_a_unit(front, if l < leaders.len() - 1 {
            l
        } else {
            0
        }, s);
        if l < leaders.len() - 1 {
            assert(front[l] == leaders[l]);
            assert(irp_skx::all_places(leaders)[l * 6 + s] == before[l * 6 + s]);
        }
    } else {
        assert(before.len() == 0);
    }
}

/// The stacks of Ice Lake, in the order of their registers.
pub open spec fn icx_stack(s: int) -> irp_icx::IcxIrpStackId {
    if s == 0 {
        irp_icx::IcxIrpStackId::Pcie0
    } else if s == 1 {
        irp_icx::IcxIrpStackId::Pcie1
    } else if s == 2 {
        irp_icx::IcxIrpStackId::Mcp
    } else if s == 3 {
        irp_icx::IcxIrpStackId::Pcie2
    } else if s == 4 {
        irp_icx::IcxIrpStackId::Pcie3
    } else {
        irp_icx::IcxIrpStackId::CbdmaDmi
    }
}

/// Every stack of every die of Ice Lake has a unit, reached through the processor that leads the
/// die.
pub proof fn icx_every_stack_has_a_unit(
    leaders: Seq<Leader<irp_icx::IcxUncoreScope>>,
    l: int,
    s: int,
)
    requires
        0 <= l < leaders.len(),
        0 <= s < 6,
    ensures
        irp_icx::all_places(leaders).len() == leaders.len() * 6,
        irp_icx::all_places(leaders)[l * 6 + s].cpu == leaders[l].cpu,
        irp_icx::all_places(leaders)[l * 6 + s].scope.scope == leaders[l].scope,
        irp_icx::all_places(leaders)[l * 6 + s].scope.stack == icx_stack(s),
    decreases leaders.len(),
{
    let front = leaders.drop_last();
    let before = irp_icx::all_places(front);
    let stacks = irp_icx::all_stacks();
    assert(s == 0 || s == 1 || s == 2 || s == 3 || s == 4 || s == 5);
    assert(stacks[s] == icx_stack(s));
    assert(irp_icx::die_places(leaders.last()).len() == 6);
    if leaders.len() > 1 {
        icx_every_stack_has_a_unit(front, if l < leaders.len() - 1 {
            l
        } else {
            0
        }, s);
        if l < leaders.len() - 1 {
            assert(front[l] == leaders[l]);
            assert(irp_icx::all_places(leaders)[l * 6 + s] == before[l * 6 + s]);
        }
    } else {
        assert(before.len() == 0);
    }
}

/// The stacks of Sapphire Rapids, in the order of their registers.
pub open spec fn spr_stack(s: int) -> irp_spr::SprIrpStackId {
    if s == 0 {
        irp_spr::SprIrpStackId::M2iosf0
    } else if s == 1 {
        irp_spr::SprIrpStackId::M2iosf1
    } else if s == 2 {
        irp_spr::SprIrpStackId::M2iosf2
    } else if s == 3 {
        irp_spr::SprIrpStackId::M2iosf3
    } else if s == 4 {
        irp_spr::SprIrpStackId::M2iosf4
    } else if s == 5 {
        irp_spr::SprIrpStackId::M2iosf5
    } else if s == 6 {
        irp_spr::SprIrpStackId::M2iosf6
    } else if s == 7 {
        irp_spr::SprIrpStackId::M2iosf7
    } else if s == 8 {
        irp_spr::SprIrpStackId::M2iosf8
    } else if s == 9 {
        irp_spr::SprIrpStackId::M2iosf9
    } else if s == 10 {
        irp_spr::SprIrpStackId::M2iosf10
    } else {
        irp_spr::SprIrpStackId::M2iosf11
    }
}

/// Every stack of every die of Sapphire Rapids has a unit, reached through the processor that leads
/// the die.
pub proof fn spr_every_stack_has_a_unit(
    leaders: Seq<Leader<irp_spr::SprUncoreScope>>,
    l: int,
    s: int,
)
    requires
        0 <= l < leaders.len(),
        0 <= s < 12,
    ensures
        irp_spr::all_places(leaders).len() == leaders.len() * 12,
        irp_spr::all_places(leaders)[l * 12 + s].cpu == leaders[l].cpu,
        irp_spr::all_places(leaders)[l * 12 + s].scope.scope == leaders[l].scope,
        irp_spr::all_places(leaders)[l * 12 + s].scope.stack == spr_stack(s),
    decreases leaders.len(),
{
    let front = leaders.drop_last();
    let before = irp_spr::all_places(front);
    let stacks = irp_spr::all_stacks();
    assert(
        s == 0 || s == 1 || s == 2 || s == 3 || s == 4 || s == 5 || s == 6 || s == 7 || s == 8
            || s == 9 || s == 10 || s == 11
    );
    assert(stacks[s] == spr_stack(s));
    assert(irp_spr::die_places(leaders.last()).len() == 12);
    if leaders.len() > 1 {
        spr_every_stack_has_a_unit(front, if l < leaders.len() - 1 {
            l
        } else {
            0
        }, s);
        if l < leaders.len() - 1 {
            assert(front[l] == leaders[l]);
            assert(irp_spr::all_places(leaders)[l * 12 + s] == before[l * 12 + s]);
        }
    } else {
        assert(before.len() == 0);
    }
}

/// A known bus is that of a location exactly where it is the same bus in the same group; the first
/// such bus is taken.
pub proof fn snb_unit_is_on_a_known_bus(
    known: Seq<irp_snb::SnbIrpBusScope>,
    location: PciLocation,
    n: nat,
)
    requires
        n <= known.len(),
    ensures
        match irp_snb::bus_of(known, location, n) {
            Some(found) => exists|i: int|
                {
                    &&& 0 <= i < n
                    &&& (#[trigger] known[i]) == found
                    &&& known[i].bus.bus == location.bus
                    &&& known[i].bus.group == location.group
                    &&& forall|j: int|
                        0 <= j < i ==> (#[trigger] known[j]).bus.bus != location.bus
                            || known[j].bus.group != location.group
                },
            None => forall|i: int|
                0 <= i < n ==> (#[trigger] known[i]).bus.bus != location.bus || known[i].bus.group
                    != location.group,
        },
    decreases n,
{
    if n > 0 {
        snb_unit_is_on_a_known_bus(known, location, (n - 1) as nat);
        if irp_snb::bus_of(known, location, (n - 1) as nat) is None {
            assert(known[n - 1].bus == location.on() <==> known[n - 1].bus.bus == location.bus
                && known[n - 1].bus.group == location.group);
        }
    }
}

/// Where no known bus is that of a location, the nearest one above it in its group is taken.
pub proof fn snb_unit_is_below_the_nearest_bus(
    known: Seq<irp_snb::SnbIrpBusScope>,
    location: PciLocation,
    n: nat,
)
    requires
        n <= known.len(),
    ensures
        match irp_snb::next_bus(known, location, n) {
            Some(found) => {
                &&& known.contains(found)
                &&& found.bus.group == location.group
                &&& found.bus.bus >= location.bus
                &&& forall|i: int|
                    0 <= i < n && (#[trigger] known[i]).bus.group == location.group
                        && known[i].bus.bus >= location.bus ==> found.bus.bus <= known[i].bus.bus
            },
            None => forall|i: int|
                0 <= i < n ==> (#[trigger] known[i]).bus.group != location.group
                    || known[i].bus.bus < location.bus,
        },
    decreases n,
{
    if n > 0 {
        snb_unit_is_below_the_nearest_bus(known, location, (n - 1) as nat);
        assert(known[n - 1] == known[n - 1]);
    }
}

/// A unit belongs to the package of its own bus, else to that of the nearest known bus above, else
/// to the package with the number of its place in the list.
pub proof fn snb_unit_belongs_to_a_package(
    known: Seq<irp_snb::SnbIrpBusScope>,
    scopes: Seq<irp_snb::SnbIrpScope>,
    location: PciLocation,
    index: int,
)
    ensures
        ({
            let own = irp_snb::bus_of(known, location, known.len());
            let above = irp_snb::next_bus(known, location, known.len());
            let package = irp_snb::package_of(known, scopes, location, index);
            &&& own is Some ==> package == Some(own->0.scope)
            &&& own is None && above is Some ==> package == Some(above->0.scope)
            &&& own is None && above is None && index < scopes.len() ==> package == Some(
                scopes[index],
            )
            &&& package is None <==> own is None && above is None && index >= scopes.len()
        }),
        irp_snb::device_id(SnbArchitecture::Ivb) == 0x0e39,
        irp_snb::device_id(SnbArchitecture::Snb) == 0x3c40,
{
}

/// Every power control unit of Sapphire Rapids that is reached through processor registers is found
/// for its die, through the processor that leads it.
pub proof fn spr_power_units_are_found(
    sockets: Seq<UncoreDiscoverySocketBoxes<UncoreScope>>,
    cpus: Map<UncoreScope, u32>,
    s: int,
    b: int,
) -> (k: int)
    requires
        0 <= s < sockets.len(),
        0 <= b < sockets[s].boxes@.len(),
        cpus.contains_key(sockets[s].scope),
        sockets[s].boxes@[b].access_type == 0,
    ensures
        0 <= k < pcu_spr::all_packages(sockets, cpus).len(),
        is_power_unit(
            pcu_spr::all_packages(sockets, cpus)[k],
            sockets[s].scope,
            cpus[sockets[s].scope],
            sockets[s].boxes@[b],
        ),
        pcu_spr::DISCOVERY_BOX_TYPE == 4,
    decreases sockets.len(),
{
    let front = sockets.drop_last();
    let before = pcu_spr::all_packages(front, cpus);
    if s < sockets.len() - 1 {
        assert(front[s] == sockets[s]);
        spr_power_units_are_found(front, cpus, s, b)
    } else {
        let socket = sockets[s];
        let k = lemma_power_unit_found(
            socket.scope,
            cpus[socket.scope],
            socket.boxes@,
            socket.boxes@.len(),
            b,
        );
        before.len() + k
    }
}

/// Whether a unit is the one of a discovery entry, for its die, through a processor.
pub open spec fn is_power_unit(
    package: pcu_spr::SprPcuPackage,
    scope: UncoreScope,
    cpu: u32,
    entry: UncoreBoxDiscovery,
) -> bool {
    &&& package.scope.package_id == scope.package_id
    &&& package.scope.die_id == scope.die_id
    &&& package.scope.die_group_id == scope.die_group_id
    &&& package.unit.cpu == cpu
    &&& package.unit.unit_control == entry.box_control
    &&& package.unit.control_offset == entry.control_offset
    &&& package.unit.counter_offset == entry.counter_offset
    &&& package.unit.counter_width == entry.bit_width
}

proof fn lemma_power_unit_found(
    scope: UncoreScope,
    cpu: u32,
    boxes: Seq<UncoreBoxDiscovery>,
    n: nat,
    b: int,
) -> (k: int)
    requires
        0 <= b < n <= boxes.len(),
        boxes[b].access_type == 0,
    ensures
        0 <= k < pcu_spr::socket_packages(scope, cpu, boxes, n).len(),
        is_power_unit(
            pcu_spr::socket_packages(scope, cpu, boxes, n)[k],
            scope,
            cpu,
            boxes[b],
        ),
    decreases n,
{
    if b < n - 1 {
        lemma_power_unit_found(scope, cpu, boxes, (n - 1) as nat, b)
    } else {
        pcu_spr::socket_packages(scope, cpu, boxes, (n - 1) as nat).len() as int
    }
}

proof fn lemma_power_unit_entry(
    scope: UncoreScope,
    cpu: u32,
    boxes: Seq<UncoreBoxDiscovery>,
    n: nat,
    k: int,
) -> (b: int)
    requires
        n <= boxes.len(),
        0 <= k < pcu_spr::socket_packages(scope, cpu, boxes, n).len(),
    ensures
        0 <= b < n,
        boxes[b].access_type == 0,
        is_power_unit(
            pcu_spr::socket_packages(scope, cpu, boxes, n)[k],
            scope,
            cpu,
            boxes[b],
        ),
    decreases n,
{
    if k < pcu_spr::socket_packages(scope, cpu, boxes, (n - 1) as nat).len() {
        lemma_power_unit_entry(scope, cpu, boxes, (n - 1) as nat, k)
    } else {
        n - 1
    }
}

/// Every power control unit of Sapphire Rapids comes of a discovery entry of its die that is
/// reached through processor registers.
pub proof fn spr_power_units_come_of_their_entries(
    sockets: Seq<UncoreDiscoverySocketBoxes<UncoreScope>>,
    cpus: Map<UncoreScope, u32>,
    k: int,
) -> (place: (int, int))
    requires
        0 <= k < pcu_spr::all_packages(sockets, cpus).len(),
    ensures
        0 <= place.0 < sockets.len(),
        0 <= place.1 < sockets[place.0].boxes@.len(),
        cpus.contains_key(sockets[place.0].scope),
        sockets[place.0].boxes@[place.1].access_type == 0,
        is_power_unit(
            pcu_spr::all_packages(sockets, cpus)[k],
            sockets[place.0].scope,
            cpus[sockets[place.0].scope],
            sockets[place.0].boxes@[place.1],
        ),
    decreases sockets.len(),
{
    let front = sockets.drop_last();
    let before = pcu_spr::all_packages(front, cpus);
    if k < before.len() {
        let place = spr_power_units_come_of_their_entries(front, cpus, k);
        assert(front[place.0] == sockets[place.0]);
        place
    } else {
        let socket = sockets.last();
        let b = lemma_power_unit_entry(
            socket.scope,
            cpus[socket.scope],
            socket.boxes@,
            socket.boxes@.len(),
            k - before.len(),
        );
        (sockets.len() - 1, b)
    }
}

} // verus!
