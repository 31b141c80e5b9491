//! Which PCI buses belong to which processor package.
//!
//! Each socket has a device that tells the node number of the socket and how node numbers map to
//! packages. The bus of that device is the bus on which the counting units of the package stand.
use crate::ordered_map::{Key, OrderedMap};
use crate::pci::{PciBus, PciLocation};
use vstd::prelude::*;

verus! {

impl Key for u32 {
    open spec fn rank(self) -> int {
        self as int
    }

    proof fn rank_injective(a: Self, b: Self) {
    }

    fn precedes(&self, other: &Self) -> (result: bool) {
        *self < *other
    }
}

/// The node number that a mapping holds for a package: three bits for each package, from the low
/// end up.
pub open spec fn node_at(node_mapping: nat, package: nat) -> nat
    decreases package,
{
    if package == 0 {
        node_mapping % 8
    } else {
        node_at(node_mapping / 8, (package - 1) as nat)
    }
}

/// The first of eight packages to which a mapping gives a node number.
pub fn package_index_from_node_mapping(local_node_id: u32, node_mapping: u32) -> (index: Option<
    u32,
>)
    ensures
        match index {
            Some(index) => {
                &&& index < 8
                &&& node_at(node_mapping as nat, index as nat) == local_node_id
                &&& forall|p: nat|
                    p < index ==> #[trigger] node_at(node_mapping as nat, p) != local_node_id
            },
            None => forall|p: nat|
                p < 8 ==> #[trigger] node_at(node_mapping as nat, p) != local_node_id,
        },
{
    let mut rest: u32 = node_mapping;
    let mut index: u32 = 0;
    while index < 8
        invariant
            index <= 8,
            forall|p: nat| #[trigger]
                node_at(rest as nat, p) == node_at(node_mapping as nat, p + index as nat),
            forall|p: nat|
                p < index ==> #[trigger] node_at(node_mapping as nat, p) != local_node_id,
        decreases 8 - index,
    {
        assert(node_at(rest as nat, 0) == node_at(node_mapping as nat, index as nat));
        if rest % 8 == local_node_id {
            return Some(index);
        }
        proof {
            assert forall|p: nat| #[trigger]
                node_at((rest / 8) as nat, p) == node_at(
                    node_mapping as nat,
                    p + (index + 1) as nat,
                ) by {
                assert(node_at(rest as nat, p + 1) == node_at((rest / 8) as nat, p));
                assert(node_at(rest as nat, p + 1) == node_at(
                    node_mapping as nat,
                    p + 1 + index as nat,
                ));
            }
        }
        rest = rest / 8;
        index += 1;
    }
    None
}

/// What the device of a socket tells: the word with its node number in the low three bits, and
/// the mapping from packages to node numbers.
#[derive(Clone, Copy, Debug, PartialEq, Eq, Structural)]
pub struct UboxNode {
    pub location: PciLocation,
    pub local_node_word: u32,
    pub node_mapping: u32,
}

/// Whether a mapping gives the node number of a socket to a package, and to none before it.
pub open spec fn is_package_of(node: UboxNode, package: u32) -> bool {
    let id = node.local_node_word % 8;
    &&& package < 8
    &&& node_at(node.node_mapping as nat, package as nat) == id
    &&& forall|p: nat| p < package ==> #[trigger] node_at(node.node_mapping as nat, p) != id
}

/// The package of a socket; nothing where the mapping does not hold its node number.
pub open spec fn package_of(node: UboxNode) -> Option<u32> {
    if exists|package: u32| is_package_of(node, package) {
        Some(choose|package: u32| is_package_of(node, package))
    } else {
        None
    }
}

impl UboxNode {
    /// The package of the socket.
    pub fn package_index(&self) -> (index: Option<u32>)
        ensures
            index == package_of(*self),
    {
        let index = package_index_from_node_mapping(self.local_node_word % 8, self.node_mapping);
        proof {
            match index {
                Some(package) => {
                    assert(is_package_of(*self, package));
                    let chosen = choose|package: u32| is_package_of(*self, package);
                    assert(is_package_of(*self, chosen));
                    if chosen < package {
                        assert(node_at(self.node_mapping as nat, chosen as nat)
                            != self.local_node_word % 8);
                    }
                    if package < chosen {
                        assert(node_at(self.node_mapping as nat, package as nat)
                            != self.local_node_word % 8);
                    }
                },
                None => {
                    assert forall|package: u32| !is_package_of(*self, package) by {
                        if package < 8 {
                            assert(node_at(self.node_mapping as nat, package as nat)
                                != self.local_node_word % 8);
                        }
                    }
                },
            }
        }
        index
    }
}

/// The bus of each package: of several, the one that comes first by group and bus number. A
/// socket whose node number is not in its mapping is left out.
pub open spec fn lowest_buses(nodes: Seq<UboxNode>) -> Map<u32, PciBus>
    decreases nodes.len(),
{
    if nodes.len() == 0 {
        Map::empty()
    } else {
        let before = lowest_buses(nodes.drop_last());
        let bus = nodes.last().location.on();
        match package_of(nodes.last()) {
            Some(package) => if before.contains_key(package) && before[package].rank()
                <= bus.rank() {
                before
            } else {
                before.insert(package, bus)
            },
            None => before,
        }
    }
}

/// Finds the bus of each package, in package order.
pub fn package_buses_from_uboxes(nodes: &Vec<UboxNode>) -> (buses: OrderedMap<u32, PciBus>)
    ensures
        buses.wf(),
        buses@ == lowest_buses(nodes@),
{
    let mut buses: OrderedMap<u32, PciBus> = OrderedMap::new();
    let mut i: usize = 0;
    assert(nodes@.take(0) =~= Seq::<UboxNode>::empty());
    while i < nodes.len()
        invariant
            i <= nodes@.len(),
            buses.wf(),
            buses@ == lowest_buses(nodes@.take(i as int)),
        decreases nodes@.len() - i,
    {
        assert(nodes@.take(i + 1).drop_last() =~= nodes@.take(i as int));
        let bus = nodes[i].location.pci_bus();
        match nodes[i].package_index() {
            Some(package) => {
                let lower: bool = match buses.get(&package) {
                    Some(held) => !comes_first(*held, bus),
                    None => true,
                };
                if lower {
                    buses.insert(package, bus);
                }
            },
            None => {},
        }
        i += 1;
    }
    assert(nodes@.take(i as int) =~= nodes@);
    buses
}

/// The buses of the first `n` packages that have one, in package order.
pub open spec fn buses_up_to(buses: Map<u32, PciBus>, n: nat) -> Seq<PciBus>
    decreases n,
{
    if n == 0 {
        Seq::empty()
    } else {
        let before = buses_up_to(buses, (n - 1) as nat);
        if buses.contains_key((n - 1) as u32) {
            before.push(buses[(n - 1) as u32])
        } else {
            before
        }
    }
}

/// The buses of the packages in package order.
pub fn buses_in_order(nodes: &Vec<UboxNode>) -> (list: Vec<PciBus>)
    ensures
        list@ == buses_up_to(lowest_buses(nodes@), 8),
{
    let buses: OrderedMap<u32, PciBus> = package_buses_from_uboxes(nodes);
    let mut list: Vec<PciBus> = Vec::new();
    let mut package: u32 = 0;
    while package < 8
        invariant
            package <= 8,
            buses.wf(),
            buses@ == lowest_buses(nodes@),
            list@ == buses_up_to(buses@, package as nat),
        decreases 8 - package,
    {
        match buses.get(&package) {
            Some(bus) => {
                list.push(*bus);
            },
            None => {},
        }
        package += 1;
    }
    list
}

/// Whether a bus comes before another by group and bus number, or is the same.
pub fn comes_first(a: PciBus, b: PciBus) -> (result: bool)
    ensures
        result == (a.rank() <= b.rank()),
{
    a.group < b.group || (a.group == b.group && a.bus <= b.bus)
}

/// Every socket that maps to a package has a bus that comes no earlier than the one that is taken
/// for the package, and the bus that is taken is the bus of such a socket.
pub proof fn lowest_bus_is_lowest(nodes: Seq<UboxNode>, package: u32)
    ensures
        forall|i: int|
            0 <= i < nodes.len() && package_of(#[trigger] nodes[i]) == Some(package)
                ==> lowest_buses(nodes).contains_key(package) && lowest_buses(nodes)[package].rank()
                <= nodes[i].location.on().rank(),
        lowest_buses(nodes).contains_key(package) ==> exists|i: int|
            0 <= i < nodes.len() && package_of(#[trigger] nodes[i]) == Some(package)
                && nodes[i].location.on() == lowest_buses(nodes)[package],
    decreases nodes.len(),
{
    if nodes.len() > 0 {
        let front = nodes.drop_last();
        let n = nodes.len() - 1;
        lowest_bus_is_lowest(front, package);
        let before = lowest_buses(front);
        assert forall|i: int|
            0 <= i < nodes.len() && package_of(#[trigger] nodes[i]) == Some(
                package,
            ) implies lowest_buses(nodes).contains_key(package) && lowest_buses(
            nodes,
        )[package].rank() <= nodes[i].location.on().rank() by {
            if i < n {
                assert(front[i] == nodes[i]);
            }
        }
        if lowest_buses(nodes).contains_key(package) {
            if package_of(nodes[n]) == Some(package) && !(before.contains_key(package)
                && before[package].rank() <= nodes[n].location.on().rank()) {
                assert(nodes[n].location.on() == lowest_buses(nodes)[package]);
            } else {
                let i = choose|i: int|
                    0 <= i < front.len() && package_of(#[trigger] front[i]) == Some(package)
                        && front[i].location.on() == before[package];
                assert(nodes[i] == front[i]);
            }
        }
    }
}

/// The buses of `locations`, each once, in the order in which they come up first.
pub open spec fn distinct_buses(locations: Seq<PciLocation>) -> Seq<PciBus>
    decreases locations.len(),
{
    if locations.len() == 0 {
        Seq::empty()
    } else {
        let before = distinct_buses(locations.drop_last());
        if before.contains(locations.last().on()) {
            before
        } else {
            before.push(locations.last().on())
        }
    }
}

fn has_bus(buses: &Vec<PciBus>, bus: PciBus) -> (found: bool)
    ensures
        found == buses@.contains(bus),
{
    let mut i: usize = 0;
    while i < buses.len()
        invariant
            i <= buses@.len(),
            forall|k: int| 0 <= k < i ==> buses@[k] != bus,
        decreases buses@.len() - i,
    {
        if buses[i] == bus {
            return true;
        }
        i += 1;
    }
    false
}

/// The buses of `locations`, each once.
pub fn buses_of(locations: &Vec<PciLocation>) -> (buses: Vec<PciBus>)
    ensures
        buses@ == distinct_buses(locations@),
{
    let mut buses: Vec<PciBus> = Vec::new();
    let mut i: usize = 0;
    assert(locations@.take(0) =~= Seq::<PciLocation>::empty());
    while i < locations.len()
        invariant
            i <= locations@.len(),
            buses@ == distinct_buses(locations@.take(i as int)),
        decreases locations@.len() - i,
    {
        assert(locations@.take(i + 1).drop_last() =~= locations@.take(i as int));
        let bus = locations[i].pci_bus();
        if !has_bus(&buses, bus) {
            buses.push(bus);
        }
        i += 1;
    }
    assert(locations@.take(i as int) =~= locations@);
    buses
}

} // verus!
