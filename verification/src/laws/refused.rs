//! When the units of a processor are refused, and why.
use crate::ep::SnbArchitecture;
use crate::error::CollectorError;
use crate::laws::found;
use crate::laws::places;
use crate::metrics::imc::icx as imc_icx;
use crate::metrics::imc::skx as imc_skx;
use crate::metrics::imc::snb as imc_snb;
use crate::metrics::irp::snb as irp_snb;
use crate::pci::{self, PciBus, PciDeviceSpec, PciLocation, PciVendorDevice};
use crate::sockets::{self, UboxNode};
use crate::units::Unit;
use vstd::prelude::*;

verus! {

/// The channels of Skylake are refused only where one of them is missing on a bus, and the error
/// names it.
pub proof fn skx_missing_channel_is_named(
    bus_scopes: Vec<(PciBus, imc_skx::ImcScope)>,
    specs: Vec<PciDeviceSpec>,
    devices: Vec<PciVendorDevice>,
    error: CollectorError,
) -> (place: (int, int))
    requires
        call_ensures(
            imc_skx::discover_channels,
            (&bus_scopes, &specs, &devices),
            Err::<Vec<Unit<imc_skx::ImcScope>>, CollectorError>(error),
        ),
    ensures
        0 <= place.0 < bus_scopes@.len(),
        0 <= place.1 < specs@.len(),
        ({
            let bus = bus_scopes@[place.0].0;
            let spec = specs@[place.1];
            &&& error == (CollectorError::MissingDevice { spec, bus })
            &&& !found::has_device(
                devices@,
                found::at(bus, spec.device, spec.function),
                Some(spec.device_id),
            )
        }),
{
    let result = Err::<Vec<Unit<imc_skx::ImcScope>>, CollectorError>(error);
    assert(imc_skx::channels_found(bus_scopes@, specs@, devices@, result));
    let (b, c) = choose|b: int, c: int|
        #![trigger bus_scopes@[b], specs@[c]]
        0 <= b < bus_scopes@.len() && 0 <= c < specs@.len() && !imc_skx::is_present(
            devices@,
            specs@[c],
            bus_scopes@[b].0,
        ) && imc_skx::present_before(bus_scopes@, specs@, devices@, b, c) && error == (
        CollectorError::MissingDevice { spec: specs@[c], bus: bus_scopes@[b].0 });
    let bus = bus_scopes@[b].0;
    let spec = specs@[c];
    let location = found::at(bus, spec.device, spec.function);
    let wanted = Some(spec.device_id);
    if found::has_device(devices@, location, wanted) {
        let i = choose|i: int|
            0 <= i < devices@.len() && (#[trigger] devices@[i]).location == location && (wanted
                is None || wanted == Some(devices@[i].device_id));
        assert(pci::fits_spec(devices@[i], spec, bus));
    }
    (b, c)
}

/// The buses of Skylake are refused exactly where they are not as many as the scopes, or one of them
/// names a socket that there is not.
pub proof fn skx_buses_need_their_sockets(
    socket_buses: Vec<imc_skx::SocketBus>,
    scopes: Vec<imc_skx::ImcScope>,
    result: Result<Vec<(PciBus, imc_skx::ImcScope)>, CollectorError>,
)
    requires
        call_ensures(imc_skx::imc_bus_scopes, (&socket_buses, &scopes), result),
    ensures
        result is Ok <==> socket_buses@.len() == scopes@.len() && forall|i: int|
            0 <= i < socket_buses@.len() ==> (#[trigger] socket_buses@[i]).socket_index
                < scopes@.len(),
{
    assert(imc_skx::buses_paired(socket_buses@, scopes@, result));
}

/// The channels of Ice Lake are refused exactly where the sockets are not as many as the scopes,
/// where one of their registers tells no place, or where there are none at all.
pub proof fn icx_channels_need_their_places<const N: usize>(
    channels: nat,
    uboxes: Seq<imc_icx::UboxBars<N>>,
    scopes: Seq<imc_icx::IcxImcScope>,
    result: Result<Vec<imc_icx::ChannelPlace>, CollectorError>,
)
    requires
        imc_icx::places_found(channels, uboxes, scopes, result),
    ensures
        uboxes.len() != scopes.len() ==> result is Err,
        uboxes.len() == scopes.len() && uboxes.len() * (N * channels) > 0
            && imc_icx::no_bar_missing(uboxes, uboxes.len() as int) ==> result is Ok,
        result matches Ok(places) ==> places@.len() == uboxes.len() * (N * channels),
{
    found::icx_channels_are_counted(uboxes, scopes, channels);
}

proof fn lemma_bare(buses: Seq<PciBus>, locations: Seq<PciLocation>, n: nat)
    requires
        n <= buses.len(),
    ensures
        match imc_snb::first_bare_bus(buses, locations, n) {
            Some(bus) => buses.contains(bus) && !places::some_is_on(locations, bus),
            None => forall|b: int|
                0 <= b < n ==> places::some_is_on(locations, #[trigger] buses[b]),
        },
    decreases n,
{
    if n > 0 {
        lemma_bare(buses, locations, (n - 1) as nat);
        let bus = buses[n - 1];
        assert(buses.contains(bus));
        lemma_on(locations, bus);
    }
}

proof fn lemma_on(locations: Seq<PciLocation>, bus: PciBus)
    ensures
        places::some_is_on(locations, bus) <==> pci::on_bus(locations, bus).len() > 0,
    decreases locations.len(),
{
    if locations.len() > 0 {
        let front = locations.drop_last();
        lemma_on(front, bus);
        assert(locations[locations.len() - 1] == locations.last());
        if places::some_is_on(front, bus) {
            let i = choose|i: int| 0 <= i < front.len() && (#[trigger] front[i]).on() == bus;
            assert(locations[i].on() == bus);
        }
        if places::some_is_on(locations, bus) && locations.last().on() != bus {
            let i = choose|i: int| 0 <= i < locations.len() && (#[trigger] locations[i]).on()
                == bus;
            assert(front[i].on() == bus);
        }
    }
}

/// The channels of Sandy and Ivy Bridge are found exactly where every package has a bus and every
/// such bus has a channel; a bus without one is named.
pub proof fn snb_channels_need_their_buses(
    architecture: SnbArchitecture,
    scopes: Seq<imc_snb::SnbImcScope>,
    nodes: Seq<UboxNode>,
    devices: Seq<PciVendorDevice>,
)
    ensures
        ({
            let locations = pci::matching_locations(devices, imc_snb::channels_of(architecture));
            let buses = imc_snb::socket_buses(nodes, locations, scopes.len());
            let distinct = sockets::distinct_buses(locations);
            match imc_snb::discovered(architecture, scopes, nodes, devices) {
                Ok(places) => {
                    &&& buses.len() >= scopes.len()
                    &&& distinct.len() >= scopes.len()
                    &&& forall|b: int|
                        0 <= b < scopes.len() ==> places::some_is_on(
                            locations,
                            #[trigger] buses[b],
                        )
                },
                Err(CollectorError::NoChannelsOnBus { unit, bus }) => {
                    &&& buses.contains(bus)
                    &&& !places::some_is_on(locations, bus)
                },
                Err(error) => buses.len() < scopes.len() || distinct.len() < scopes.len(),
            }
        }),
{
    let locations = pci::matching_locations(devices, imc_snb::channels_of(architecture));
    let buses = imc_snb::socket_buses(nodes, locations, scopes.len());
    if buses.len() >= scopes.len() {
        lemma_bare(buses, locations, scopes.len());
    }
}

/// The buses of the packages are those that the sockets tell where they tell enough of them, and
/// else those on which there are channels.
pub proof fn snb_buses_are_told_or_seen(
    nodes: Seq<UboxNode>,
    locations: Seq<PciLocation>,
    sockets: nat,
)
    ensures
        ({
            let told = sockets::buses_up_to(sockets::lowest_buses(nodes), 8);
            let buses = imc_snb::socket_buses(nodes, locations, sockets);
            &&& told.len() >= sockets ==> buses == told
            &&& told.len() < sockets ==> buses == sockets::distinct_buses(locations)
        }),
{
}

/// Every inbound unit of Sandy and Ivy Bridge counts for the package of its place, in the order in
/// which the units were found; a unit without a package is named.
pub proof fn snb_inbound_units_need_a_package(
    architecture: SnbArchitecture,
    known: Seq<irp_snb::SnbIrpBusScope>,
    scopes: Seq<irp_snb::SnbIrpScope>,
    locations: Seq<PciLocation>,
    n: nat,
)
    requires
        n <= locations.len(),
    ensures
        match irp_snb::placed(architecture, known, scopes, locations, n) {
            Ok(units) => {
                &&& units.len() == n
                &&& forall|i: int|
                    0 <= i < n ==> (#[trigger] units[i]).location == locations[i]
                        && irp_snb::package_of(known, scopes, locations[i], i) == Some(
                        units[i].scope,
                    )
            },
            Err(error) => exists|i: int|
                {
                    &&& 0 <= i < n
                    &&& irp_snb::package_of(known, scopes, #[trigger] locations[i], i) is None
                    &&& error == (CollectorError::UnmappedLocation {
                        unit: if architecture is Ivb {
                            "Ivy Bridge-EP IRP"
                        } else {
                            "Sandy Bridge-EP IRP"
                        },
                        location: locations[i],
                    })
                },
        },
    decreases n,
{
    if n > 0 {
        snb_inbound_units_need_a_package(architecture, known, scopes, locations, (n - 1) as nat);
        assert(locations[n - 1] == locations[n - 1]);
    }
}

/// Every bus that the sockets tell goes to the scope of its package, in the order of the packages,
/// and is known exactly where all these packages have scopes.
pub proof fn snb_known_buses_are_those_of_the_packages(
    buses: Map<u32, PciBus>,
    scopes: Seq<irp_snb::SnbIrpScope>,
    n: nat,
    package: u32,
)
    requires
        package < n <= 8,
        buses.contains_key(package),
    ensures
        match irp_snb::scopes_of_buses(buses, scopes, n) {
            Some(known) => package < scopes.len() && known.contains(
                irp_snb::SnbIrpBusScope { bus: buses[package], scope: scopes[package as int] },
            ),
            None => true,
        },
        package >= scopes.len() ==> irp_snb::scopes_of_buses(buses, scopes, n) is None,
    decreases n,
{
    let before = irp_snb::scopes_of_buses(buses, scopes, (n - 1) as nat);
    let now = irp_snb::scopes_of_buses(buses, scopes, n);
    let wanted = irp_snb::SnbIrpBusScope { bus: buses[package], scope: scopes[package as int] };
    if package < n - 1 {
        snb_known_buses_are_those_of_the_packages(buses, scopes, (n - 1) as nat, package);
        if now is Some {
            let k = choose|k: int| 0 <= k < before->0.len() && before->0[k] == wanted;
            assert(now->0[k] == wanted);
        }
    } else if now is Some {
        assert(now->0[before->0.len() as int] == wanted);
    }
}

} // verus!
