//! Where processors, devices and links are.
use crate::metrics::imc::icx as imc_icx;
use crate::metrics::imc::skx as imc_skx;
use crate::metrics::imc::snb as imc_snb;
use crate::metrics::imc::spr as imc_spr;
use crate::metrics::interconnect::{InterconnectScope, LinkPlace};
use crate::metrics::irp::icx as irp_icx;
use crate::metrics::irp::skx as irp_skx;
use crate::metrics::irp::snb as irp_snb;
use crate::metrics::irp::spr as irp_spr;
use crate::metrics::pcu::{PcuPackageScope, PcuScope};
use crate::metrics::rapl::RaplScope;
use crate::ordered_map::Key;
use crate::pci::{self, PciBus, PciDeviceSpec, PciLocation, PciVendorDevice};
use crate::sockets::{self, UboxNode};
use crate::sorting::Ranked;
use crate::topology::{
    self, HsxUncoreScope, TopologyLevel, TopologyLevelKind, TopologyScope, UncoreScope,
};
use vstd::arithmetic::div_mod::lemma_div_denominator;
use vstd::arithmetic::power::{lemma_pow_positive, pow};
use vstd::prelude::*;

verus! {

/// Whether the number of a processor at a level is `id`: that of its first level of the kind.
pub open spec fn has_id(levels: Seq<TopologyLevel>, kind: TopologyLevelKind, id: u32) -> bool {
    exists|i: int| is_first_level(levels, kind, i) && (#[trigger] levels[i]).id == id
}

/// Whether level `i` is the first of its kind.
pub open spec fn is_first_level(
    levels: Seq<TopologyLevel>,
    kind: TopologyLevelKind,
    i: int,
) -> bool {
    &&& 0 <= i < levels.len()
    &&& levels[i].kind == kind
    &&& forall|j: int| 0 <= j < i ==> (#[trigger] levels[j]).kind != kind
}

/// Whether a processor has no level of a kind.
pub open spec fn lacks(levels: Seq<TopologyLevel>, kind: TopologyLevelKind) -> bool {
    forall|i: int| 0 <= i < levels.len() ==> (#[trigger] levels[i]).kind != kind
}

/// Whether the number of a processor at a level is `id`, zero where it has no such level.
pub open spec fn has_id_or_zero(
    levels: Seq<TopologyLevel>,
    kind: TopologyLevelKind,
    id: u32,
) -> bool {
    has_id(levels, kind, id) || lacks(levels, kind) && id == 0
}

/// Whether a processor is on a die: with the numbers of its package, its die and its die group.
pub open spec fn is_on_die(
    levels: Seq<TopologyLevel>,
    die_group_id: u32,
    die_id: u32,
    package_id: u32,
) -> bool {
    &&& has_id(levels, TopologyLevelKind::Package, package_id)
    &&& has_id_or_zero(levels, TopologyLevelKind::Die, die_id)
    &&& has_id_or_zero(levels, TopologyLevelKind::DieGroup, die_group_id)
}

/// The number of a processor at a level is that of its first level of the kind; it has none exactly
/// where it has no such level.
pub proof fn level_number_is_that_of_the_first_level(
    levels: Seq<TopologyLevel>,
    kind: TopologyLevelKind,
)
    ensures
        match topology::id_at(levels, kind) {
            Some(id) => has_id(levels, kind, id),
            None => lacks(levels, kind),
        },
    decreases levels.len(),
{
    if levels.len() > 0 {
        if levels[0].kind == kind {
            assert(is_first_level(levels, kind, 0));
        } else {
            let rest = levels.drop_first();
            level_number_is_that_of_the_first_level(rest, kind);
            match topology::id_at(rest, kind) {
                Some(id) => {
                    let i = choose|i: int|
                        is_first_level(rest, kind, i) && (#[trigger] rest[i]).id == id;
                    assert(levels[i + 1] == rest[i]);
                    assert forall|j: int| 0 <= j < i + 1 implies (#[trigger] levels[j]).kind
                        != kind by {
                        if j > 0 {
                            assert(rest[j - 1] == levels[j]);
                        }
                    }
                    assert(is_first_level(levels, kind, i + 1));
                },
                None => {
                    assert forall|i: int| 0 <= i < levels.len() implies (
                    #[trigger] levels[i]).kind != kind by {
                        if i > 0 {
                            assert(rest[i - 1] == levels[i]);
                        }
                    }
                },
            }
        }
    }
}

proof fn lemma_die(levels: Seq<TopologyLevel>)
    ensures
        match topology::die_scope(levels) {
            Some(scope) => is_on_die(levels, scope.die_group_id, scope.die_id, scope.package_id),
            None => lacks(levels, TopologyLevelKind::Package),
        },
{
    level_number_is_that_of_the_first_level(levels, TopologyLevelKind::Package);
    level_number_is_that_of_the_first_level(levels, TopologyLevelKind::Die);
    level_number_is_that_of_the_first_level(levels, TopologyLevelKind::DieGroup);
}

/// The scope of a processor is the die that it is on, or its package where a scope is a package;
/// it has none exactly where it has no package.
pub proof fn scope_is_where_the_processor_is(levels: Seq<TopologyLevel>)
    ensures
        match <UncoreScope as TopologyScope>::of(levels) {
            Some(scope) => is_on_die(levels, scope.die_group_id, scope.die_id, scope.package_id),
            None => lacks(levels, TopologyLevelKind::Package),
        },
        match <RaplScope as TopologyScope>::of(levels) {
            Some(scope) => is_on_die(levels, scope.die_group_id, scope.die_id, scope.package_id),
            None => lacks(levels, TopologyLevelKind::Package),
        },
        match <PcuScope as TopologyScope>::of(levels) {
            Some(scope) => is_on_die(levels, scope.die_group_id, scope.die_id, scope.package_id),
            None => lacks(levels, TopologyLevelKind::Package),
        },
        match <imc_skx::ImcScope as TopologyScope>::of(levels) {
            Some(scope) => is_on_die(levels, scope.die_group_id, scope.die_id, scope.package_id),
            None => lacks(levels, TopologyLevelKind::Package),
        },
        match <imc_icx::IcxImcScope as TopologyScope>::of(levels) {
            Some(scope) => is_on_die(levels, scope.die_group_id, scope.die_id, scope.package_id),
            None => lacks(levels, TopologyLevelKind::Package),
        },
        match <imc_spr::SprImcScope as TopologyScope>::of(levels) {
            Some(scope) => is_on_die(levels, scope.die_group_id, scope.die_id, scope.package_id),
            None => lacks(levels, TopologyLevelKind::Package),
        },
        match <irp_icx::IcxUncoreScope as TopologyScope>::of(levels) {
            Some(scope) => is_on_die(levels, scope.die_group_id, scope.die_id, scope.package_id),
            None => lacks(levels, TopologyLevelKind::Package),
        },
        match <irp_spr::SprUncoreScope as TopologyScope>::of(levels) {
            Some(scope) => is_on_die(levels, scope.die_group_id, scope.die_id, scope.package_id),
            None => lacks(levels, TopologyLevelKind::Package),
        },
        match <HsxUncoreScope as TopologyScope>::of(levels) {
            Some(scope) => has_id(levels, TopologyLevelKind::Package, scope.package_id),
            None => lacks(levels, TopologyLevelKind::Package),
        },
        match <PcuPackageScope as TopologyScope>::of(levels) {
            Some(scope) => has_id(levels, TopologyLevelKind::Package, scope.package_id),
            None => lacks(levels, TopologyLevelKind::Package),
        },
        match <imc_snb::SnbImcScope as TopologyScope>::of(levels) {
            Some(scope) => has_id(levels, TopologyLevelKind::Package, scope.package_id),
            None => lacks(levels, TopologyLevelKind::Package),
        },
        match <irp_snb::SnbIrpScope as TopologyScope>::of(levels) {
            Some(scope) => has_id(levels, TopologyLevelKind::Package, scope.package_id),
            None => lacks(levels, TopologyLevelKind::Package),
        },
{
    lemma_die(levels);
    level_number_is_that_of_the_first_level(levels, TopologyLevelKind::Package);
}

/// Whether three numbers come before three others: by the first that differs.
pub open spec fn comes_before(a: (u32, u32, u32), b: (u32, u32, u32)) -> bool {
    ||| a.0 < b.0
    ||| a.0 == b.0 && a.1 < b.1
    ||| a.0 == b.0 && a.1 == b.1 && a.2 < b.2
}

/// Dies are ordered by die group, die and package; packages by their number.
pub proof fn scopes_are_in_order(
    uncore: (UncoreScope, UncoreScope),
    rapl: (RaplScope, RaplScope),
    power: (PcuScope, PcuScope),
    skx_memory: (imc_skx::ImcScope, imc_skx::ImcScope),
    icx_memory: (imc_icx::IcxImcScope, imc_icx::IcxImcScope),
    spr_memory: (imc_spr::SprImcScope, imc_spr::SprImcScope),
    icx_inbound: (irp_icx::IcxUncoreScope, irp_icx::IcxUncoreScope),
    spr_inbound: (irp_spr::SprUncoreScope, irp_spr::SprUncoreScope),
    hsx: (HsxUncoreScope, HsxUncoreScope),
    power_package: (PcuPackageScope, PcuPackageScope),
    snb_memory: (imc_snb::SnbImcScope, imc_snb::SnbImcScope),
    snb_inbound: (irp_snb::SnbIrpScope, irp_snb::SnbIrpScope),
)
    ensures
        uncore.0.rank() < uncore.1.rank() <==> comes_before(
            (uncore.0.die_group_id, uncore.0.die_id, uncore.0.package_id),
            (uncore.1.die_group_id, uncore.1.die_id, uncore.1.package_id),
        ),
        rapl.0.rank() < rapl.1.rank() <==> comes_before(
            (rapl.0.die_group_id, rapl.0.die_id, rapl.0.package_id),
            (rapl.1.die_group_id, rapl.1.die_id, rapl.1.package_id),
        ),
        power.0.rank() < power.1.rank() <==> comes_before(
            (power.0.die_group_id, power.0.die_id, power.0.package_id),
            (power.1.die_group_id, power.1.die_id, power.1.package_id),
        ),
        skx_memory.0.rank() < skx_memory.1.rank() <==> comes_before(
            (skx_memory.0.die_group_id, skx_memory.0.die_id, skx_memory.0.package_id),
            (skx_memory.1.die_group_id, skx_memory.1.die_id, skx_memory.1.package_id),
        ),
        icx_memory.0.rank() < icx_memory.1.rank() <==> comes_before(
            (icx_memory.0.die_group_id, icx_memory.0.die_id, icx_memory.0.package_id),
            (icx_memory.1.die_group_id, icx_memory.1.die_id, icx_memory.1.package_id),
        ),
        spr_memory.0.rank() < spr_memory.1.rank() <==> comes_before(
            (spr_memory.0.die_group_id, spr_memory.0.die_id, spr_memory.0.package_id),
            (spr_memory.1.die_group_id, spr_memory.1.die_id, spr_memory.1.package_id),
        ),
        icx_inbound.0.rank() < icx_inbound.1.rank() <==> comes_before(
            (icx_inbound.0.die_group_id, icx_inbound.0.die_id, icx_inbound.0.package_id),
            (icx_inbound.1.die_group_id, icx_inbound.1.die_id, icx_inbound.1.package_id),
        ),
        spr_inbound.0.rank() < spr_inbound.1.rank() <==> comes_before(
            (spr_inbound.0.die_group_id, spr_inbound.0.die_id, spr_inbound.0.package_id),
            (spr_inbound.1.die_group_id, spr_inbound.1.die_id, spr_inbound.1.package_id),
        ),
        hsx.0.rank() < hsx.1.rank() <==> hsx.0.package_id < hsx.1.package_id,
        power_package.0.rank() < power_package.1.rank()
            <==> power_package.0.package_id < power_package.1.package_id,
        snb_memory.0.rank() < snb_memory.1.rank()
            <==> snb_memory.0.package_id < snb_memory.1.package_id,
        snb_inbound.0.rank() < snb_inbound.1.rank()
            <==> snb_inbound.0.package_id < snb_inbound.1.package_id,
{
}

/// Links are collected by die group, die, link and package, and listed by package, die group, die
/// and link. Buses are ordered by group and number.
pub proof fn links_and_buses_are_in_order(
    a: InterconnectScope,
    b: InterconnectScope,
    location: PciLocation,
    bus: PciBus,
    other: PciBus,
)
    ensures
        a.rank() < b.rank() <==> {
            ||| comes_before(
                (a.die_group_id, a.die_id, a.link_id),
                (b.die_group_id, b.die_id, b.link_id),
            )
            ||| a.die_group_id == b.die_group_id && a.die_id == b.die_id && a.link_id == b.link_id
                && a.package_id < b.package_id
        },
        (LinkPlace { location, scope: a }).place() < (LinkPlace { location, scope: b }).place()
            <==> {
            ||| comes_before(
                (a.package_id, a.die_group_id, a.die_id),
                (b.package_id, b.die_group_id, b.die_id),
            )
            ||| a.package_id == b.package_id && a.die_group_id == b.die_group_id && a.die_id
                == b.die_id && a.link_id < b.link_id
        },
        bus.rank() < other.rank() <==> bus.group < other.group || bus.group == other.group
            && bus.bus < other.bus,
        location.on().bus == location.bus,
        location.on().group == location.group,
{
}

/// Stacks are listed die by die; within a die by their number.
pub proof fn stacks_are_in_order(
    a: irp_skx::IrpStackScope,
    b: irp_skx::IrpStackScope,
    c: irp_icx::IcxIrpStackScope,
    d: irp_icx::IcxIrpStackScope,
    e: irp_spr::SprIrpStackScope,
    f: irp_spr::SprIrpStackScope,
)
    ensures
        a.scope.rank() < b.scope.rank() ==> a.rank() < b.rank(),
        a.scope == b.scope ==> (a.rank() < b.rank() <==> irp_skx::stack_index(a.stack)
            < irp_skx::stack_index(b.stack)),
        c.scope.rank() < d.scope.rank() ==> c.rank() < d.rank(),
        c.scope == d.scope ==> (c.rank() < d.rank() <==> irp_icx::stack_index(c.stack)
            < irp_icx::stack_index(d.stack)),
        e.scope.rank() < f.scope.rank() ==> e.rank() < f.rank(),
        e.scope == f.scope ==> (e.rank() < f.rank() <==> irp_spr::stack_index(e.stack)
            < irp_spr::stack_index(f.stack)),
{
}

/// The number of a node that a mapping gives for a package: bits `3 * package` to
/// `3 * package + 2`.
pub open spec fn mapped_node(node_mapping: nat, package: nat) -> nat {
    node_mapping / pow(8, package) as nat % 8
}

/// A mapping of nodes has three bits for each package, the lowest ones for the first.
#[verifier::spinoff_prover]
pub proof fn mapping_has_three_bits_for_each_package(node_mapping: nat, package: nat)
    ensures
        sockets::node_at(node_mapping, package) == mapped_node(node_mapping, package),
        sockets::node_at(node_mapping, package) < 8,
    decreases package,
{
    reveal(pow);
    lemma_pow_positive(8, package);
    if package > 0 {
        let rest = (package - 1) as nat;
        lemma_pow_positive(8, rest);
        mapping_has_three_bits_for_each_package(node_mapping / 8, rest);
        lemma_div_denominator(node_mapping as int, 8, pow(8, rest));
        assert(pow(8, package) == 8 * pow(8, rest));
        let high = node_mapping as int / pow(8, package);
        assert(high == node_mapping as int / 8 / pow(8, rest));
        assert(mapped_node(node_mapping, package) == high % 8);
        assert(mapped_node(node_mapping / 8, rest) == high % 8);
        assert(sockets::node_at(node_mapping, package) == sockets::node_at(node_mapping / 8, rest));
    } else {
        assert(pow(8, 0) == 1);
        assert(node_mapping as int / 1 == node_mapping);
    }
}

/// The package of a node is the first of eight for which its mapping gives the node's own number,
/// the lowest three bits of its word; it has none exactly where the mapping gives that number for
/// no package.
pub proof fn package_is_the_first_mapped_to_the_node(node: UboxNode)
    ensures
        match sockets::package_of(node) {
            Some(package) => {
                &&& package < 8
                &&& mapped_node(node.node_mapping as nat, package as nat) == node.local_node_word
                    % 8
                &&& forall|p: nat|
                    p < package ==> #[trigger] mapped_node(node.node_mapping as nat, p)
                        != node.local_node_word % 8
            },
            None => forall|p: nat|
                p < 8 ==> #[trigger] mapped_node(node.node_mapping as nat, p)
                    != node.local_node_word % 8,
        },
{
    let mapping = node.node_mapping as nat;
    let id = node.local_node_word % 8;
    assert forall|p: nat| #[trigger] sockets::node_at(mapping, p) == mapped_node(mapping, p) by {
        mapping_has_three_bits_for_each_package(mapping, p);
    }
    match sockets::package_of(node) {
        Some(package) => {
            assert(sockets::is_package_of(node, package));
            assert forall|p: nat| p < package implies #[trigger] mapped_node(mapping, p) != id by {
                assert(sockets::node_at(mapping, p) != id);
            }
        },
        None => {
            assert forall|p: nat| p < 8 implies #[trigger] mapped_node(mapping, p) != id by {
                if mapped_node(mapping, p) == id {
                    let first = lemma_first_mapped(mapping, id as nat, p);
                    assert(sockets::is_package_of(node, first as u32));
                }
            }
        },
    }
}

proof fn lemma_first_mapped(mapping: nat, id: nat, p: nat) -> (first: nat)
    requires
        mapped_node(mapping, p) == id,
    ensures
        first <= p,
        sockets::node_at(mapping, first) == id,
        forall|q: nat| q < first ==> #[trigger] sockets::node_at(mapping, q) != id,
    decreases p,
{
    mapping_has_three_bits_for_each_package(mapping, p);
    if exists|q: nat| q < p && #[trigger] sockets::node_at(mapping, q) == id {
        let q = choose|q: nat| q < p && #[trigger] sockets::node_at(mapping, q) == id;
        mapping_has_three_bits_for_each_package(mapping, q);
        lemma_first_mapped(mapping, id, q)
    } else {
        p
    }
}

/// The buses that are listed are those of the first packages, in the order of the packages.
pub proof fn buses_are_listed_by_package(buses: Map<u32, PciBus>, n: nat, k: int) -> (package: u32)
    requires
        n <= 0x1_0000_0000,
        0 <= k < sockets::buses_up_to(buses, n).len(),
    ensures
        package < n,
        buses.contains_key(package),
        sockets::buses_up_to(buses, n)[k] == buses[package],
        k == sockets::buses_up_to(buses, package as nat).len(),
    decreases n,
{
    let before = sockets::buses_up_to(buses, (n - 1) as nat);
    if k < before.len() {
        buses_are_listed_by_package(buses, (n - 1) as nat, k)
    } else {
        (n - 1) as u32
    }
}

/// The bus of every one of the first packages is listed.
pub proof fn every_bus_is_listed(buses: Map<u32, PciBus>, n: nat, package: u32)
    requires
        n <= 0x1_0000_0000,
        package < n,
        buses.contains_key(package),
    ensures
        sockets::buses_up_to(buses, n).contains(buses[package]),
    decreases n,
{
    let before = sockets::buses_up_to(buses, (n - 1) as nat);
    let all = sockets::buses_up_to(buses, n);
    if package < n - 1 {
        every_bus_is_listed(buses, (n - 1) as nat, package);
        let k = choose|k: int| 0 <= k < before.len() && before[k] == buses[package];
        assert(all[k] == buses[package]);
    } else {
        assert(all[before.len() as int] == buses[package]);
    }
}

/// The buses of some locations are each listed once.
pub proof fn distinct_buses_are_those_of_the_locations(locations: Seq<PciLocation>)
    ensures
        sockets::distinct_buses(locations).no_duplicates(),
        forall|i: int|
            0 <= i < locations.len() ==> sockets::distinct_buses(locations).contains(
                (#[trigger] locations[i]).on(),
            ),
        forall|k: int|
            0 <= k < sockets::distinct_buses(locations).len() ==> some_is_on(
                locations,
                #[trigger] sockets::distinct_buses(locations)[k],
            ),
    decreases locations.len(),
{
    if locations.len() > 0 {
        let front = locations.drop_last();
        let before = sockets::distinct_buses(front);
        let all = sockets::distinct_buses(locations);
        distinct_buses_are_those_of_the_locations(front);
        assert forall|i: int| 0 <= i < locations.len() implies all.contains(
            (#[trigger] locations[i]).on(),
        ) by {
            if i < locations.len() - 1 {
                assert(front[i] == locations[i]);
                let k = choose|k: int| 0 <= k < before.len() && before[k] == front[i].on();
                assert(all[k] == before[k]);
            } else if !before.contains(locations[i].on()) {
                assert(all[before.len() as int] == locations[i].on());
            }
        }
        assert forall|k: int| 0 <= k < all.len() implies some_is_on(
            locations,
            #[trigger] all[k],
        ) by {
            if k < before.len() {
                assert(some_is_on(front, before[k]));
                let i = choose|i: int|
                    0 <= i < front.len() && (#[trigger] front[i]).on() == before[k];
                assert(front[i] == locations[i]);
            } else {
                assert(locations[locations.len() - 1].on() == all[k]);
            }
        }
    }
}

/// Whether some location is on a bus.
pub open spec fn some_is_on(locations: Seq<PciLocation>, bus: PciBus) -> bool {
    exists|i: int| 0 <= i < locations.len() && (#[trigger] locations[i]).on() == bus
}

/// A device is one of Intel exactly where the low half of its first word says so; the high half is
/// its id.
pub proof fn first_word_tells_vendor_and_device(location: PciLocation, word: u32)
    ensures
        pci::vendor_device(location, word) is Some <==> word % 0x1_0000 == 0x8086,
        pci::vendor_device(location, word) matches Some(device) ==> device.location == location
            && word == device.device_id * 0x1_0000 + 0x8086,
{
}

/// The devices with an id are found where they are, and no others.
pub proof fn devices_are_found_by_their_id(devices: Seq<PciVendorDevice>, device_id: u16)
    ensures
        forall|k: int|
            0 <= k < pci::locations_with_id(devices, device_id).len() ==> some_device(
                devices,
                #[trigger] pci::locations_with_id(devices, device_id)[k],
                device_id,
            ),
        forall|i: int|
            0 <= i < devices.len() && (#[trigger] devices[i]).device_id == device_id
                ==> pci::locations_with_id(devices, device_id).contains(devices[i].location),
    decreases devices.len(),
{
    if devices.len() > 0 {
        let front = devices.drop_last();
        let before = pci::locations_with_id(front, device_id);
        let all = pci::locations_with_id(devices, device_id);
        devices_are_found_by_their_id(front, device_id);
        assert forall|k: int| 0 <= k < all.len() implies some_device(
            devices,
            #[trigger] all[k],
            device_id,
        ) by {
            if k < before.len() {
                assert(some_device(front, before[k], device_id));
                let i = choose|i: int|
                    0 <= i < front.len() && (#[trigger] front[i]).device_id == device_id
                        && front[i].location == before[k];
                assert(front[i] == devices[i]);
            } else {
                assert(devices[devices.len() - 1].location == all[k]);
            }
        }
        assert forall|i: int|
            0 <= i < devices.len() && (#[trigger] devices[i]).device_id
                == device_id implies all.contains(devices[i].location) by {
            if i < devices.len() - 1 {
                assert(front[i] == devices[i]);
                let k = choose|k: int| 0 <= k < before.len() && before[k] == front[i].location;
                assert(all[k] == before[k]);
            } else {
                assert(all[before.len() as int] == devices[i].location);
            }
        }
    }
}

/// Whether some device with an id is at a location.
pub open spec fn some_device(
    devices: Seq<PciVendorDevice>,
    location: PciLocation,
    device_id: u16,
) -> bool {
    exists|i: int|
        0 <= i < devices.len() && (#[trigger] devices[i]).device_id == device_id
            && devices[i].location == location
}

/// The locations on a bus are those that stand on it.
pub proof fn locations_on_a_bus_stand_on_it(locations: Seq<PciLocation>, bus: PciBus)
    ensures
        pci::on_bus(locations, bus) == locations.filter(
            |location: PciLocation| location.bus == bus.bus && location.group == bus.group,
        ),
    decreases locations.len(),
{
    reveal(Seq::filter);
    if locations.len() > 0 {
        locations_on_a_bus_stand_on_it(locations.drop_last(), bus);
    }
}

/// A device fits where its id, its device and function numbers, and on a bus also its bus and
/// group, are the ones that are looked for.
pub proof fn device_fits_by_id_and_numbers(
    device: PciVendorDevice,
    spec: PciDeviceSpec,
    bus: PciBus,
)
    ensures
        pci::matches_spec(device, spec) <==> device.device_id == spec.device_id
            && device.location.device == spec.device && device.location.function == spec.function,
        pci::fits_spec(device, spec, bus) <==> pci::matches_spec(device, spec)
            && device.location.bus == bus.bus && device.location.group == bus.group,
{
}

/// The matching locations are those of the devices that are looked for, in order.
pub proof fn matching_locations_are_those_looked_for(
    devices: Seq<PciVendorDevice>,
    specs: Seq<PciDeviceSpec>,
)
    ensures
        pci::matching_locations(devices, specs) == devices.filter(
            |device: PciVendorDevice| is_looked_for(device, specs),
        ).map_values(|device: PciVendorDevice| device.location),
    decreases devices.len(),
{
    reveal(Seq::filter);
    if devices.len() > 0 {
        let front = devices.drop_last();
        let wanted = |device: PciVendorDevice| is_looked_for(device, specs);
        let place = |device: PciVendorDevice| device.location;
        matching_locations_are_those_looked_for(front, specs);
        assert(is_looked_for(devices.last(), specs) <==> exists|j: int|
            0 <= j < specs.len() && pci::matches_spec(devices.last(), #[trigger] specs[j]));
        assert(devices.filter(wanted).map_values(place) =~= if is_looked_for(
            devices.last(),
            specs,
        ) {
            front.filter(wanted).map_values(place).push(devices.last().location)
        } else {
            front.filter(wanted).map_values(place)
        });
    }
}

/// Whether a device is one of those that are looked for.
pub open spec fn is_looked_for(device: PciVendorDevice, specs: Seq<PciDeviceSpec>) -> bool {
    exists|j: int|
        {
            &&& 0 <= j < specs.len()
            &&& device.device_id == (#[trigger] specs[j]).device_id
            &&& device.location.device == specs[j].device
            &&& device.location.function == specs[j].function
        }
}

} // verus!
