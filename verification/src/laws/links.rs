//! Which links between the processors are found, where, and for whom they count.
use crate::error::CollectorError;
use crate::laws::found;
use crate::laws::lists;
use crate::laws::places;
use crate::metrics::interconnect::qpi_common::{
    self, LinkDevice, QpiArchitecture, QpiBusScope, QpiGrid, QpiSample,
};
use crate::metrics::interconnect::upi_common::{self, LinkAddress, UpiArchitecture, UpiBusScope};
use crate::metrics::interconnect::{InterconnectScope, LinkPlace};
use crate::pci::{self, PciBus, PciLocation, PciVendorDevice};
use crate::sockets::{self, UboxNode};
use crate::sorting::{self, Ranked};
use crate::topology::{Leader, UncoreScope};
use crate::units;
use vstd::prelude::*;

verus! {

/// Where link `link` of a processor with Ultra Path Interconnect is: its device and function.
pub open spec fn upi_address(architecture: UpiArchitecture, link: int) -> (int, int) {
    match architecture {
        UpiArchitecture::Emr => (link + 1, 1),
        UpiArchitecture::Spr => (link + 1, 1),
        UpiArchitecture::Icx => (link + 2, 1),
        UpiArchitecture::Skx => (link + 14, 0),
    }
}

/// How many links a die has: four from Sapphire Rapids on, three before.
pub open spec fn upi_links(architecture: UpiArchitecture) -> nat {
    if architecture is Emr || architecture is Spr {
        4
    } else {
        3
    }
}

/// The id of the device that a link is.
pub open spec fn upi_device(architecture: UpiArchitecture) -> u16 {
    match architecture {
        UpiArchitecture::Emr => 0x3241,
        UpiArchitecture::Spr => 0x3241,
        UpiArchitecture::Icx => 0x3441,
        UpiArchitecture::Skx => 0x2058,
    }
}

/// The links are looked for at one device after the other, by the number of the link.
pub proof fn upi_links_stand_in_a_row(architecture: UpiArchitecture, link: int)
    requires
        0 <= link < upi_links(architecture),
    ensures
        upi_common::addresses(architecture).len() == upi_links(architecture),
        ({
            let address = upi_common::addresses(architecture)[link];
            &&& address.link_id == link
            &&& address.device == upi_address(architecture, link).0
            &&& address.function == upi_address(architecture, link).1
        }),
        upi_common::link_device(architecture) == upi_device(architecture),
{
    assert(link == 0 || link == 1 || link == 2 || link == 3);
}

/// The device that tells the node of a socket, and where it tells it. Skylake has none.
pub proof fn upi_sockets_are_told_by_their_device(architecture: UpiArchitecture)
    ensures
        upi_common::socket_device(architecture) is None <==> architecture is Skx,
        architecture is Icx ==> upi_common::socket_device(architecture) == Some(0x3450u16),
        architecture is Emr ==> upi_common::socket_device(architecture) == Some(0x3250u16),
        architecture is Spr ==> upi_common::socket_device(architecture) == Some(0x3250u16),
        upi_common::NODE_ID_OFFSET == 0xc0,
        upi_common::GID_OFFSET == 0xd4,
{
}

/// Whether a link counts for the die of a bus under its own number.
pub open spec fn counts_for(link: InterconnectScope, scope: UncoreScope, number: int) -> bool {
    &&& link.package_id == scope.package_id
    &&& link.die_group_id == scope.die_group_id
    &&& link.die_id == scope.die_id
    &&& link.link_id == number
}

/// Whether a place is that of link `link` of a bus, where a device is that shows its id.
pub open spec fn is_upi_place(
    place: LinkPlace,
    architecture: UpiArchitecture,
    bus_scope: UpiBusScope,
    devices: Seq<PciVendorDevice>,
    link: int,
) -> bool {
    &&& counts_for(place.scope, bus_scope.scope, link)
    &&& place.location.bus == bus_scope.bus.bus
    &&& place.location.group == bus_scope.bus.group
    &&& place.location.device == upi_address(architecture, link).0
    &&& place.location.function == upi_address(architecture, link).1
    &&& found::has_device(devices, place.location, Some(upi_device(architecture)))
}

proof fn lemma_upi_found(
    architecture: UpiArchitecture,
    address: LinkAddress,
    bus: PciBus,
    devices: Seq<PciVendorDevice>,
)
    ensures
        upi_common::link_found(architecture, address, bus, devices) <==> found::has_device(
            devices,
            found::at(bus, address.device, address.function),
            Some(upi_common::link_device(architecture)),
        ),
{
    let location = found::at(bus, address.device, address.function);
    let spec = upi_common::link_spec(architecture, address);
    let wanted = Some(upi_common::link_device(architecture));
    if upi_common::link_found(architecture, address, bus, devices) {
        let i = choose|i: int|
            0 <= i < devices.len() && #[trigger] pci::fits_spec(devices[i], spec, bus);
        assert(devices[i].location == location);
    }
    if found::has_device(devices, location, wanted) {
        let i = choose|i: int|
            0 <= i < devices.len() && (#[trigger] devices[i]).location == location && (wanted
                is None || wanted == Some(devices[i].device_id));
        assert(pci::fits_spec(devices[i], spec, bus));
    }
}

proof fn lemma_upi_at(
    architecture: UpiArchitecture,
    link: int,
    buses: Seq<UpiBusScope>,
    devices: Seq<PciVendorDevice>,
    n: nat,
    k: int,
) -> (b: int)
    requires
        0 <= link < upi_links(architecture),
        ({
            let address = upi_common::addresses(architecture)[link];
            0 <= k < upi_common::links_at(architecture, address, buses, devices, n).len()
        }),
    ensures
        0 <= b < n,
        ({
            let address = upi_common::addresses(architecture)[link];
            is_upi_place(
                upi_common::links_at(architecture, address, buses, devices, n)[k],
                architecture,
                buses[b],
                devices,
                link,
            )
        }),
    decreases n,
{
    let address = upi_common::addresses(architecture)[link];
    let before = upi_common::links_at(architecture, address, buses, devices, (n - 1) as nat);
    upi_links_stand_in_a_row(architecture, link);
    if k < before.len() {
        lemma_upi_at(architecture, link, buses, devices, (n - 1) as nat, k)
    } else {
        lemma_upi_found(architecture, address, buses[n - 1].bus, devices);
        n - 1
    }
}

/// Every link that is found stands on the bus of the die that it counts for, at the device of its
/// number, and is there.
pub proof fn upi_links_count_for_their_die(
    architecture: UpiArchitecture,
    buses: Seq<UpiBusScope>,
    devices: Seq<PciVendorDevice>,
    k: int,
) -> (place: (int, int))
    requires
        0 <= k < upi_common::all_links(architecture, buses, devices).len(),
    ensures
        0 <= place.0 < buses.len(),
        0 <= place.1 < upi_links(architecture),
        is_upi_place(
            upi_common::all_links(architecture, buses, devices)[k],
            architecture,
            buses[place.0],
            devices,
            place.1,
        ),
{
    let f = |address: LinkAddress|
        upi_common::links_at(architecture, address, buses, devices, buses.len());
    let at = lists::every_element_comes_of_an_item(upi_common::addresses(architecture), f, k);
    let b = lemma_upi_at(architecture, at.0, buses, devices, buses.len(), at.1);
    (b, at.0)
}

proof fn lemma_upi_there(
    architecture: UpiArchitecture,
    address: LinkAddress,
    buses: Seq<UpiBusScope>,
    devices: Seq<PciVendorDevice>,
    n: nat,
    b: int,
) -> (k: int)
    requires
        0 <= b < n <= buses.len(),
        found::has_device(
            devices,
            found::at(buses[b].bus, address.device, address.function),
            Some(upi_common::link_device(architecture)),
        ),
    ensures
        0 <= k < upi_common::links_at(architecture, address, buses, devices, n).len(),
        upi_common::links_at(architecture, address, buses, devices, n)[k]
            == upi_common::link_place(address, buses[b]),
    decreases n,
{
    let before = upi_common::links_at(architecture, address, buses, devices, (n - 1) as nat);
    if b < n - 1 {
        lemma_upi_there(architecture, address, buses, devices, (n - 1) as nat, b)
    } else {
        lemma_upi_found(architecture, address, buses[b].bus, devices);
        before.len() as int
    }
}

/// Every link whose device is there is found.
pub proof fn upi_links_are_found(
    architecture: UpiArchitecture,
    buses: Seq<UpiBusScope>,
    devices: Seq<PciVendorDevice>,
    b: int,
    link: int,
) -> (k: int)
    requires
        0 <= b < buses.len(),
        0 <= link < upi_links(architecture),
        ({
            let address = upi_address(architecture, link);
            found::has_device(
                devices,
                found::at(buses[b].bus, address.0 as u8, address.1 as u8),
                Some(upi_device(architecture)),
            )
        }),
    ensures
        0 <= k < upi_common::all_links(architecture, buses, devices).len(),
        is_upi_place(
            upi_common::all_links(architecture, buses, devices)[k],
            architecture,
            buses[b],
            devices,
            link,
        ),
{
    upi_links_stand_in_a_row(architecture, link);
    let f = |address: LinkAddress|
        upi_common::links_at(architecture, address, buses, devices, buses.len());
    let addresses = upi_common::addresses(architecture);
    let j = lemma_upi_there(
        architecture,
        addresses[link],
        buses,
        devices,
        buses.len(),
        b,
    );
    lists::every_item_is_flattened(addresses, f, link, j)
}

proof fn lemma_first_die(leaders: Seq<Leader<UncoreScope>>, id: u32, n: nat)
    requires
        n <= leaders.len(),
    ensures
        match upi_common::scope_with_die(leaders, id, n) {
            Some(scope) => exists|i: int|
                {
                    &&& 0 <= i < n
                    &&& (#[trigger] leaders[i]).scope == scope
                    &&& scope.die_id == id
                    &&& forall|j: int| 0 <= j < i ==> (#[trigger] leaders[j]).scope.die_id != id
                },
            None => forall|i: int| 0 <= i < n ==> (#[trigger] leaders[i]).scope.die_id != id,
        },
    decreases n,
{
    if n > 0 {
        lemma_first_die(leaders, id, (n - 1) as nat);
        assert(leaders[n - 1] == leaders[n - 1]);
    }
}

proof fn lemma_first_package(leaders: Seq<Leader<UncoreScope>>, id: u32, n: nat)
    requires
        n <= leaders.len(),
    ensures
        match upi_common::scope_with_package(leaders, id, n) {
            Some(scope) => exists|i: int|
                {
                    &&& 0 <= i < n
                    &&& (#[trigger] leaders[i]).scope == scope
                    &&& scope.package_id == id
                    &&& forall|j: int|
                        0 <= j < i ==> (#[trigger] leaders[j]).scope.package_id != id
                },
            None => forall|i: int|
                0 <= i < n ==> (#[trigger] leaders[i]).scope.package_id != id,
        },
    decreases n,
{
    if n > 0 {
        lemma_first_package(leaders, id, (n - 1) as nat);
        assert(leaders[n - 1] == leaders[n - 1]);
    }
}

/// A logical number names the first die with that number or, where no die has it, the first die of
/// the package with that number.
pub proof fn upi_logical_number_names_a_die(leaders: Seq<Leader<UncoreScope>>, id: u32)
    ensures
        match upi_common::scope_of_logical_id(leaders, id) {
            Some(scope) => exists|i: int|
                {
                    &&& 0 <= i < leaders.len()
                    &&& (#[trigger] leaders[i]).scope == scope
                    &&& scope.die_id == id || scope.package_id == id
                    &&& scope.die_id == id ==> forall|j: int|
                        0 <= j < i ==> (#[trigger] leaders[j]).scope.die_id != id
                    &&& scope.die_id != id ==> forall|j: int|
                        0 <= j < leaders.len() ==> (#[trigger] leaders[j]).scope.die_id != id
                    &&& scope.die_id != id ==> forall|j: int|
                        0 <= j < i ==> (#[trigger] leaders[j]).scope.package_id != id
                },
            None => forall|i: int|
                0 <= i < leaders.len() ==> (#[trigger] leaders[i]).scope.die_id != id
                    && leaders[i].scope.package_id != id,
        },
{
    lemma_first_die(leaders, id, leaders.len());
    lemma_first_package(leaders, id, leaders.len());
}

/// Every socket that tells its node gives its bus to the die that the node is mapped to.
pub proof fn upi_sockets_give_their_buses(
    architecture: UpiArchitecture,
    leaders: Seq<Leader<UncoreScope>>,
    nodes: Seq<UboxNode>,
    n: nat,
    i: int,
)
    requires
        0 <= i < n <= nodes.len(),
        upi_common::told_buses(architecture, leaders, nodes, n) is Ok,
    ensures
        ({
            let told = upi_common::told_buses(architecture, leaders, nodes, n)->Ok_0;
            let package = sockets::package_of(nodes[i]);
            &&& told.len() == n
            &&& told[i].bus.bus == nodes[i].location.bus
            &&& told[i].bus.group == nodes[i].location.group
            &&& package is Some
            &&& upi_common::scope_of_logical_id(leaders, package->0) == Some(told[i].scope)
        }),
    decreases n,
{
    lemma_upi_told_len(architecture, leaders, nodes, (n - 1) as nat);
    if i < n - 1 {
        upi_sockets_give_their_buses(architecture, leaders, nodes, (n - 1) as nat, i);
    }
}

proof fn lemma_upi_told_len(
    architecture: UpiArchitecture,
    leaders: Seq<Leader<UncoreScope>>,
    nodes: Seq<UboxNode>,
    n: nat,
)
    ensures
        upi_common::told_buses(architecture, leaders, nodes, n) matches Ok(told) ==> told.len()
            == n,
    decreases n,
{
    if n > 0 {
        lemma_upi_told_len(architecture, leaders, nodes, (n - 1) as nat);
    }
}

/// The buses of the sockets are refused exactly where a socket is mapped to no die, and the error
/// names the first such socket.
pub proof fn upi_unmapped_socket_is_named(
    architecture: UpiArchitecture,
    leaders: Seq<Leader<UncoreScope>>,
    nodes: Seq<UboxNode>,
    n: nat,
)
    requires
        n <= nodes.len(),
    ensures
        match upi_common::told_buses(architecture, leaders, nodes, n) {
            Ok(told) => forall|i: int| 0 <= i < n ==> upi_is_mapped(leaders, #[trigger] nodes[i]),
            Err(error) => exists|i: int|
                {
                    &&& 0 <= i < n
                    &&& !upi_is_mapped(leaders, #[trigger] nodes[i])
                    &&& forall|j: int| 0 <= j < i ==> upi_is_mapped(leaders, #[trigger] nodes[j])
                    &&& upi_names(error, architecture, nodes[i])
                },
        },
    decreases n,
{
    if n > 0 {
        upi_unmapped_socket_is_named(architecture, leaders, nodes, (n - 1) as nat);
        if sockets::package_of(nodes[n - 1]) is Some {
            upi_logical_number_names_a_die(leaders, sockets::package_of(nodes[n - 1])->0);
        }
        let before = upi_common::told_buses(architecture, leaders, nodes, (n - 1) as nat);
        let now = upi_common::told_buses(architecture, leaders, nodes, n);
        if before is Ok && now is Err {
            assert(!upi_is_mapped(leaders, nodes[n - 1]));
        }
    }
}

/// Whether a socket is mapped to a die.
pub open spec fn upi_is_mapped(leaders: Seq<Leader<UncoreScope>>, node: UboxNode) -> bool {
    let package = sockets::package_of(node);
    package is Some && exists|i: int|
        0 <= i < leaders.len() && ((#[trigger] leaders[i]).scope.die_id == package->0
            || leaders[i].scope.package_id == package->0)
}

/// Whether an error names a socket that is mapped to no die.
pub open spec fn upi_names(
    error: CollectorError,
    architecture: UpiArchitecture,
    node: UboxNode,
) -> bool {
    match sockets::package_of(node) {
        Some(number) => error == (CollectorError::UnmappedLogicalId {
            unit: upi_common::name_of(architecture),
            logical_id: number,
        }),
        None => error == (CollectorError::UnmappedNode {
            unit: upi_common::name_of(architecture),
            local_node_id: node.local_node_word % 8,
            node_mapping: node.node_mapping,
            location: node.location,
        }),
    }
}

proof fn lemma_sorted_contains<T: Ranked>(items: Seq<T>, item: T)
    ensures
        sorting::sorted(items).contains(item) <==> items.contains(item),
{
    sorting::sorting_is_stable(items, 0);
    items.to_multiset_ensures();
    sorting::sorted(items).to_multiset_ensures();
    assert(sorting::sorted(items).contains(item) <==> sorting::sorted(items).to_multiset().count(
        item,
    ) > 0);
    assert(items.contains(item) <==> items.to_multiset().count(item) > 0);
}

/// Where the sockets tell their buses, these are the buses of the links. Where none does, the buses
/// on which links are, in order, go to the dies in theirs.
pub proof fn upi_buses_go_to_the_dies_in_order(
    architecture: UpiArchitecture,
    leaders: Seq<Leader<UncoreScope>>,
    nodes: Seq<UboxNode>,
    devices: Seq<PciVendorDevice>,
    all: Seq<UpiBusScope>,
    i: int,
    j: int,
)
    requires
        upi_common::all_buses(architecture, leaders, nodes, devices) == Ok::<
            Seq<UpiBusScope>,
            CollectorError,
        >(all),
        0 <= i < j < all.len(),
    ensures
        architecture is Skx || nodes.len() == 0 ==> {
            &&& all.len() <= leaders.len()
            &&& all[i].scope == leaders[i].scope
            &&& all[j].scope == leaders[j].scope
            &&& all[i].bus.rank() <= all[j].bus.rank()
            &&& upi_is_on(devices, architecture, all[i].bus)
        },
        architecture !is Skx && nodes.len() > 0 ==> {
            &&& all.len() == nodes.len()
            &&& all[i].bus.bus == nodes[i].location.bus
            &&& all[i].bus.group == nodes[i].location.group
        },
{
    if architecture !is Skx && nodes.len() > 0 {
        lemma_upi_told_len(architecture, leaders, nodes, nodes.len());
        upi_sockets_give_their_buses(architecture, leaders, nodes, nodes.len(), i);
    } else {
        let locations = pci::locations_with_id(devices, upi_common::link_device(architecture));
        let distinct = sockets::distinct_buses(locations);
        let buses = sorting::sorted(distinct);
        sorting::sorting_is_stable(distinct, 0);
        assert(all[i].bus == buses[i]);
        assert(all[j].bus == buses[j]);
        assert(buses[i].place() <= buses[j].place());
        lemma_sorted_contains(distinct, buses[i]);
        let d = choose|d: int| 0 <= d < distinct.len() && distinct[d] == buses[i];
        places::distinct_buses_are_those_of_the_locations(locations);
        assert(places::some_is_on(locations, distinct[d]));
        places::devices_are_found_by_their_id(devices, upi_common::link_device(architecture));
        let l = choose|l: int| 0 <= l < locations.len() && (#[trigger] locations[l]).on()
            == distinct[d];
        assert(places::some_device(devices, locations[l], upi_common::link_device(architecture)));
    }
}

/// Whether some link is on a bus.
pub open spec fn upi_is_on(
    devices: Seq<PciVendorDevice>,
    architecture: UpiArchitecture,
    bus: PciBus,
) -> bool {
    exists|i: int|
        {
            &&& 0 <= i < devices.len()
            &&& (#[trigger] devices[i]).device_id == upi_device(architecture)
            &&& devices[i].location.bus == bus.bus
            &&& devices[i].location.group == bus.group
        }
}

/// Exactly the links that were found are discovered, in the order of their scopes; where there is
/// none, that is the error.
pub proof fn upi_found_links_are_discovered(
    architecture: UpiArchitecture,
    leaders: Seq<Leader<UncoreScope>>,
    nodes: Seq<UboxNode>,
    devices: Seq<PciVendorDevice>,
    buses: Seq<UpiBusScope>,
    place: LinkPlace,
)
    requires
        upi_common::bus_scopes(architecture, leaders, nodes, devices) == Ok::<
            Seq<UpiBusScope>,
            CollectorError,
        >(buses),
    ensures
        ({
            let links = upi_common::all_links(architecture, buses, devices);
            match upi_common::discovered(architecture, leaders, nodes, devices) {
                Ok(found) => {
                    &&& found.len() == links.len()
                    &&& found.contains(place) <==> links.contains(place)
                    &&& sorting::in_order(found)
                },
                Err(error) => links.len() == 0 && error == (CollectorError::NoneDiscovered {
                    family: upi_common::name_of(architecture),
                    units: "UPI links",
                }),
            }
        }),
{
    let links = upi_common::all_links(architecture, buses, devices);
    sorting::sorting_is_stable(links, 0);
    lemma_sorted_contains(links, place);
}

/// The ids of the links of a processor with QuickPath Interconnect, by the number of the link.
pub open spec fn qpi_device(architecture: QpiArchitecture, link: int) -> int {
    match architecture {
        QpiArchitecture::Bdx => if link == 2 {
            0x6f3a
        } else {
            0x6f32 + link
        },
        QpiArchitecture::Hsx => if link == 2 {
            0x2f3a
        } else {
            0x2f32 + link
        },
        QpiArchitecture::Ivb => if link == 2 {
            0x0e3a
        } else {
            0x0e32 + link
        },
        QpiArchitecture::Snb => 0x3c41 + link,
    }
}

/// How many links a package has: two on Sandy Bridge, three after.
pub open spec fn qpi_links(architecture: QpiArchitecture) -> nat {
    if architecture is Snb {
        2
    } else {
        3
    }
}

/// Every link has an id of its own, by its number.
pub proof fn qpi_links_are_told_by_their_ids(architecture: QpiArchitecture, link: int)
    requires
        0 <= link < qpi_links(architecture),
    ensures
        qpi_common::link_devices(architecture).len() == qpi_links(architecture),
        qpi_common::link_devices(architecture)[link].0 == qpi_device(architecture, link),
        qpi_common::link_devices(architecture)[link].1 == link,
{
    assert(link == 0 || link == 1 || link == 2);
}

/// The device that tells the node of a socket.
pub proof fn qpi_sockets_are_told_by_their_device(architecture: QpiArchitecture)
    ensures
        architecture is Bdx ==> qpi_common::socket_device(architecture) == 0x6f1e,
        architecture is Hsx ==> qpi_common::socket_device(architecture) == 0x2f1e,
        architecture is Ivb ==> qpi_common::socket_device(architecture) == 0x0e1e,
        architecture is Snb ==> qpi_common::socket_device(architecture) == 0x3ce0,
{
}

/// Every device that is taken for a link shows the id of its number.
pub proof fn qpi_devices_show_their_ids(
    architecture: QpiArchitecture,
    devices: Seq<PciVendorDevice>,
    k: int,
)
    requires
        0 <= k < qpi_common::all_devices(architecture, devices).len(),
    ensures
        ({
            let device = qpi_common::all_devices(architecture, devices)[k];
            let link = device.link_id as int;
            &&& link < qpi_links(architecture)
            &&& found::has_device(
                devices,
                device.location,
                Some(qpi_device(architecture, link) as u16),
            )
        }),
{
    let f = |entry: (u16, u32)| qpi_common::devices_of_link(devices, entry);
    let entries = qpi_common::link_devices(architecture);
    let at = lists::every_element_comes_of_an_item(entries, f, k);
    qpi_links_are_told_by_their_ids(architecture, at.0);
    let id = entries[at.0].0;
    let location = pci::locations_with_id(devices, id)[at.1];
    places::devices_are_found_by_their_id(devices, id);
    assert(places::some_device(devices, location, id));
    let i = choose|i: int|
        0 <= i < devices.len() && (#[trigger] devices[i]).device_id == id && devices[i].location
            == location;
    assert(devices[i].location == location);
}

/// Every device with the id of a link is taken for that link.
pub proof fn qpi_links_are_found(
    architecture: QpiArchitecture,
    devices: Seq<PciVendorDevice>,
    link: int,
    i: int,
) -> (k: int)
    requires
        0 <= link < qpi_links(architecture),
        0 <= i < devices.len(),
        devices[i].device_id == qpi_device(architecture, link),
    ensures
        0 <= k < qpi_common::all_devices(architecture, devices).len(),
        qpi_common::all_devices(architecture, devices)[k].link_id == link,
        qpi_common::all_devices(architecture, devices)[k].location == devices[i].location,
{
    qpi_links_are_told_by_their_ids(architecture, link);
    let f = |entry: (u16, u32)| qpi_common::devices_of_link(devices, entry);
    let entries = qpi_common::link_devices(architecture);
    let id = entries[link].0;
    places::devices_are_found_by_their_id(devices, id);
    let locations = pci::locations_with_id(devices, id);
    let j = choose|j: int| 0 <= j < locations.len() && locations[j] == devices[i].location;
    lists::every_item_is_flattened(entries, f, link, j)
}

/// Every socket gives its bus to the package that its node is mapped to.
pub proof fn qpi_sockets_give_their_buses(
    architecture: QpiArchitecture,
    nodes: Seq<UboxNode>,
    n: nat,
    i: int,
)
    requires
        0 <= i < n <= nodes.len(),
        qpi_common::told_buses(architecture, nodes, n) is Ok,
    ensures
        ({
            let told = qpi_common::told_buses(architecture, nodes, n)->Ok_0;
            &&& told.len() == n
            &&& told[i].bus.bus == nodes[i].location.bus
            &&& told[i].bus.group == nodes[i].location.group
            &&& sockets::package_of(nodes[i]) == Some(told[i].scope.package_id)
            &&& told[i].scope.die_group_id == 0
            &&& told[i].scope.die_id == 0
        }),
    decreases n,
{
    lemma_qpi_told_len(architecture, nodes, (n - 1) as nat);
    if i < n - 1 {
        qpi_sockets_give_their_buses(architecture, nodes, (n - 1) as nat, i);
    }
}

proof fn lemma_qpi_told_len(architecture: QpiArchitecture, nodes: Seq<UboxNode>, n: nat)
    ensures
        qpi_common::told_buses(architecture, nodes, n) matches Ok(told) ==> told.len() == n,
    decreases n,
{
    if n > 0 {
        lemma_qpi_told_len(architecture, nodes, (n - 1) as nat);
    }
}

/// The buses of the sockets are refused exactly where a socket is mapped to no package, and the
/// error names the first such socket.
pub proof fn qpi_unmapped_socket_is_named(
    architecture: QpiArchitecture,
    nodes: Seq<UboxNode>,
    n: nat,
)
    requires
        n <= nodes.len(),
    ensures
        match qpi_common::told_buses(architecture, nodes, n) {
            Ok(told) => forall|i: int|
                0 <= i < n ==> sockets::package_of(#[trigger] nodes[i]) is Some,
            Err(error) => exists|i: int|
                {
                    &&& 0 <= i < n
                    &&& sockets::package_of(#[trigger] nodes[i]) is None
                    &&& forall|j: int|
                        0 <= j < i ==> sockets::package_of(#[trigger] nodes[j]) is Some
                    &&& error == (CollectorError::UnmappedNode {
                        unit: qpi_common::name_of(architecture),
                        local_node_id: nodes[i].local_node_word % 8,
                        node_mapping: nodes[i].node_mapping,
                        location: nodes[i].location,
                    })
                },
        },
    decreases n,
{
    if n > 0 {
        qpi_unmapped_socket_is_named(architecture, nodes, (n - 1) as nat);
        assert(nodes[n - 1] == nodes[n - 1]);
    }
}

/// Where no socket tells its bus, the buses on which links are, in order, go to the packages in
/// theirs.
pub proof fn qpi_buses_go_to_the_packages_in_order(
    architecture: QpiArchitecture,
    scopes: Seq<UncoreScope>,
    devices: Seq<PciVendorDevice>,
    all: Seq<QpiBusScope>,
    i: int,
    j: int,
)
    requires
        qpi_common::all_buses(architecture, scopes, Seq::empty(), devices) == Ok::<
            Seq<QpiBusScope>,
            CollectorError,
        >(all),
        0 <= i < j < all.len(),
    ensures
        all.len() <= scopes.len(),
        all[i].scope == scopes[i],
        all[j].scope == scopes[j],
        all[i].bus.rank() <= all[j].bus.rank(),
{
    let found = qpi_common::all_devices(architecture, devices);
    let distinct = sockets::distinct_buses(qpi_common::locations_of(found));
    let buses = sorting::sorted(distinct);
    sorting::sorting_is_stable(distinct, 0);
    assert(all[i].bus == buses[i]);
    assert(all[j].bus == buses[j]);
    assert(buses[i].place() <= buses[j].place());
}

/// A location belongs to the first bus that it stands on.
pub proof fn qpi_location_belongs_to_its_bus(
    buses: Seq<QpiBusScope>,
    location: PciLocation,
    n: nat,
)
    requires
        n <= buses.len(),
    ensures
        match qpi_common::scope_on(buses, location, n) {
            Some(scope) => exists|b: int|
                {
                    &&& 0 <= b < n
                    &&& stands_on(location, #[trigger] buses[b])
                    &&& buses[b].scope == scope
                    &&& forall|c: int| 0 <= c < b ==> !stands_on(location, #[trigger] buses[c])
                },
            None => forall|b: int| 0 <= b < n ==> !stands_on(location, #[trigger] buses[b]),
        },
    decreases n,
{
    if n > 0 {
        qpi_location_belongs_to_its_bus(buses, location, (n - 1) as nat);
        assert(stands_on(location, buses[n - 1]) <==> buses[n - 1].bus == location.on());
    }
}

/// Whether a location stands on a bus.
pub open spec fn stands_on(location: PciLocation, bus_scope: QpiBusScope) -> bool {
    location.bus == bus_scope.bus.bus && location.group == bus_scope.bus.group
}

/// Every link device counts for the package of its bus under its own number.
pub proof fn qpi_links_count_for_their_package(
    architecture: QpiArchitecture,
    buses: Seq<QpiBusScope>,
    found: Seq<LinkDevice>,
    n: nat,
    k: int,
)
    requires
        0 <= k < n <= found.len(),
        qpi_common::links_of(architecture, buses, found, n) is Ok,
    ensures
        ({
            let links = qpi_common::links_of(architecture, buses, found, n)->Ok_0;
            &&& links.len() == n
            &&& links[k].location == found[k].location
            &&& exists|b: int|
                {
                    &&& 0 <= b < buses.len()
                    &&& stands_on(found[k].location, #[trigger] buses[b])
                    &&& counts_for(links[k].scope, buses[b].scope, found[k].link_id as int)
                }
        }),
    decreases n,
{
    lemma_qpi_links_len(architecture, buses, found, (n - 1) as nat);
    qpi_location_belongs_to_its_bus(buses, found[k].location, buses.len());
    if k < n - 1 {
        qpi_links_count_for_their_package(architecture, buses, found, (n - 1) as nat, k);
    } else {
        let scope = qpi_common::scope_on(buses, found[k].location, buses.len())->0;
        let links = qpi_common::links_of(architecture, buses, found, n)->Ok_0;
        let b = choose|b: int|
            {
                &&& 0 <= b < buses.len()
                &&& stands_on(found[k].location, #[trigger] buses[b])
                &&& buses[b].scope == scope
            };
        assert(counts_for(links[k].scope, buses[b].scope, found[k].link_id as int));
    }
}

proof fn lemma_qpi_links_len(
    architecture: QpiArchitecture,
    buses: Seq<QpiBusScope>,
    found: Seq<LinkDevice>,
    n: nat,
)
    ensures
        qpi_common::links_of(architecture, buses, found, n) matches Ok(links) ==> links.len() == n,
    decreases n,
{
    if n > 0 {
        lemma_qpi_links_len(architecture, buses, found, (n - 1) as nat);
    }
}

/// The links are refused exactly where one stands on no known bus, and the error says where the
/// first such link is.
pub proof fn qpi_unmapped_link_is_named(
    architecture: QpiArchitecture,
    buses: Seq<QpiBusScope>,
    found: Seq<LinkDevice>,
    n: nat,
)
    requires
        n <= found.len(),
    ensures
        match qpi_common::links_of(architecture, buses, found, n) {
            Ok(links) => forall|i: int|
                0 <= i < n ==> is_on_some(buses, (#[trigger] found[i]).location),
            Err(error) => exists|i: int|
                {
                    &&& 0 <= i < n
                    &&& !is_on_some(buses, (#[trigger] found[i]).location)
                    &&& forall|j: int|
                        0 <= j < i ==> is_on_some(buses, (#[trigger] found[j]).location)
                    &&& error == (CollectorError::UnmappedLink {
                        family: qpi_common::name_of(architecture),
                        location: found[i].location,
                    })
                },
        },
    decreases n,
{
    if n > 0 {
        qpi_unmapped_link_is_named(architecture, buses, found, (n - 1) as nat);
        qpi_location_belongs_to_its_bus(buses, found[n - 1].location, buses.len());
        let before = qpi_common::links_of(architecture, buses, found, (n - 1) as nat);
        let now = qpi_common::links_of(architecture, buses, found, n);
        if before is Ok && now is Err {
            assert(!is_on_some(buses, found[n - 1].location));
        }
    }
}

/// Whether a location stands on one of the buses.
pub open spec fn is_on_some(buses: Seq<QpiBusScope>, location: PciLocation) -> bool {
    exists|b: int| 0 <= b < buses.len() && stands_on(location, #[trigger] buses[b])
}

/// Exactly the links that were found are discovered, in the order of their scopes.
pub proof fn qpi_found_links_are_discovered(
    architecture: QpiArchitecture,
    scopes: Seq<UncoreScope>,
    nodes: Seq<UboxNode>,
    devices: Seq<PciVendorDevice>,
    buses: Seq<QpiBusScope>,
    links: Seq<LinkPlace>,
    place: LinkPlace,
)
    requires
        qpi_common::bus_scopes(architecture, scopes, nodes, devices) == Ok::<
            Seq<QpiBusScope>,
            CollectorError,
        >(buses),
        qpi_common::links_of(
            architecture,
            buses,
            qpi_common::all_devices(architecture, devices),
            qpi_common::all_devices(architecture, devices).len(),
        ) == Ok::<Seq<LinkPlace>, CollectorError>(links),
    ensures
        match qpi_common::discovered(architecture, scopes, nodes, devices) {
            Ok(discovered) => {
                &&& discovered.len() == links.len()
                &&& discovered.contains(place) <==> links.contains(place)
                &&& sorting::in_order(discovered)
            },
            Err(error) => links.len() == 0 && error == (CollectorError::NoneDiscovered {
                family: qpi_common::name_of(architecture),
                units: "QPI links",
            }),
        },
{
    sorting::sorting_is_stable(links, 0);
    lemma_sorted_contains(links, place);
}

/// A sample of a link is kept under its scope and kind: the first as it was measured, a later one
/// added to what is held. A counter that counts nothing changes nothing.
pub proof fn qpi_sample_is_added_to_its_cell(
    grid: QpiGrid,
    sample: QpiSample,
    held_count: u64,
    added_count: u64,
)
    requires
        held_count + added_count <= u64::MAX,
    ensures
        ({
            let after = qpi_common::with_sample(grid, sample, held_count, added_count);
            let before = units::cell(grid, sample.scope, sample.kind);
            let cell = units::cell(after, sample.scope, sample.kind);
            &&& sample.kind is Unused ==> after == grid
            &&& sample.kind !is Unused ==> cell is Some
            &&& sample.kind !is Unused && before is None ==> {
                &&& cell->0.value == sample.measurement.value
                &&& cell->0.enabled_nanos == sample.measurement.enabled_nanos
                &&& cell->0.running_nanos == sample.measurement.running_nanos
            }
            &&& sample.kind !is Unused && before is Some ==> {
                &&& cell->0.value == held_count + added_count
                &&& cell->0.enabled_nanos == before->0.enabled_nanos
                &&& cell->0.running_nanos == before->0.enabled_nanos
            }
        }),
{
}

} // verus!
