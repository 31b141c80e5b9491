//! Places on the PCI bus.
use vstd::prelude::*;

verus! {

/// A PCI function.
#[derive(Clone, Copy, Debug, PartialEq, Eq, Structural)]
pub struct PciLocation {
    pub bus: u8,
    pub device: u8,
    pub function: u8,
    pub group: u16,
}

/// A PCI bus.
#[derive(Clone, Copy, Debug, PartialEq, Eq, Structural)]
pub struct PciBus {
    pub bus: u8,
    pub group: u16,
}

/// A device and function number with the device id that is expected there.
#[derive(Clone, Copy, Debug, PartialEq, Eq, Structural)]
pub struct PciDeviceSpec {
    pub device: u8,
    pub device_id: u16,
    pub function: u8,
}

/// An Intel PCI function that was found, with its device id.
#[derive(Clone, Copy, Debug, PartialEq, Eq, Structural)]
pub struct PciVendorDevice {
    pub device_id: u16,
    pub location: PciLocation,
}

/// The vendor id of Intel.
pub const INTEL_VENDOR_ID: u32 = 0x8086;

/// What the first word of the configuration space of a function tells: the vendor in the low half
/// and the device id in the high half. Nothing where the vendor is not Intel.
pub open spec fn vendor_device(location: PciLocation, word: u32) -> Option<PciVendorDevice> {
    if word % 0x1_0000 == INTEL_VENDOR_ID {
        Some(PciVendorDevice { device_id: (word / 0x1_0000) as u16, location })
    } else {
        None
    }
}

impl PciVendorDevice {
    /// The Intel function that the first word of its configuration space tells.
    pub fn from_word(location: PciLocation, word: u32) -> (device: Option<Self>)
        ensures
            device == vendor_device(location, word),
    {
        if word % 0x1_0000 == INTEL_VENDOR_ID {
            Some(PciVendorDevice { device_id: (word / 0x1_0000) as u16, location })
        } else {
            None
        }
    }
}

impl PciLocation {
    /// The bus of the function.
    pub open spec fn on(self) -> PciBus {
        PciBus { bus: self.bus, group: self.group }
    }

    /// The bus of the function.
    pub fn pci_bus(self) -> (bus: PciBus)
        ensures
            bus == self.on(),
    {
        PciBus { bus: self.bus, group: self.group }
    }
}

impl PciBus {
    /// The position of the bus in the order by group and then by bus number.
    pub open spec fn rank(self) -> int {
        self.group * 256 + self.bus
    }
}

/// The locations of the devices with the given id, in the order in which they were found.
pub open spec fn locations_with_id(devices: Seq<PciVendorDevice>, device_id: u16) -> Seq<
    PciLocation,
>
    decreases devices.len(),
{
    if devices.len() == 0 {
        Seq::empty()
    } else if devices.last().device_id == device_id {
        locations_with_id(devices.drop_last(), device_id).push(devices.last().location)
    } else {
        locations_with_id(devices.drop_last(), device_id)
    }
}

/// Finds the devices with the given id.
pub fn find_devices(devices: &Vec<PciVendorDevice>, device_id: u16) -> (found: Vec<PciLocation>)
    ensures
        found@ == locations_with_id(devices@, device_id),
{
    let mut found: Vec<PciLocation> = Vec::new();
    let mut i: usize = 0;
    assert(devices@.take(0) =~= Seq::<PciVendorDevice>::empty());
    while i < devices.len()
        invariant
            i <= devices@.len(),
            found@ == locations_with_id(devices@.take(i as int), device_id),
        decreases devices@.len() - i,
    {
        assert(devices@.take(i + 1).drop_last() =~= devices@.take(i as int));
        if devices[i].device_id == device_id {
            found.push(devices[i].location);
        }
        i += 1;
    }
    assert(devices@.take(i as int) =~= devices@);
    found
}

/// Whether a device stands on the bus at the place that `spec` names, with the device id that is
/// expected there.
pub open spec fn fits_spec(device: PciVendorDevice, spec: PciDeviceSpec, bus: PciBus) -> bool {
    &&& device.location == PciLocation {
        bus: bus.bus,
        device: spec.device,
        function: spec.function,
        group: bus.group,
    }
    &&& device.device_id == spec.device_id
}

/// Finds the device that `spec` names on a bus.
pub fn find_on_bus(devices: &Vec<PciVendorDevice>, spec: PciDeviceSpec, bus: PciBus) -> (found:
    Option<PciLocation>)
    ensures
        match found {
            Some(location) => exists|i: int|
                0 <= i < devices@.len() && #[trigger] fits_spec(devices@[i], spec, bus)
                    && devices@[i].location == location,
            None => forall|i: int|
                0 <= i < devices@.len() ==> !#[trigger] fits_spec(devices@[i], spec, bus),
        },
{
    let location = PciLocation {
        bus: bus.bus,
        device: spec.device,
        function: spec.function,
        group: bus.group,
    };
    let mut i: usize = 0;
    while i < devices.len()
        invariant
            i <= devices@.len(),
            location == (PciLocation {
                bus: bus.bus,
                device: spec.device,
                function: spec.function,
                group: bus.group,
            }),
            forall|k: int| 0 <= k < i ==> !#[trigger] fits_spec(devices@[k], spec, bus),
        decreases devices@.len() - i,
    {
        if devices[i].location == location && devices[i].device_id == spec.device_id {
            assert(fits_spec(devices@[i as int], spec, bus));
            return Some(location);
        }
        i += 1;
    }
    None
}

/// Whether a device has the device number, the function number and the id that `spec` names.
pub open spec fn matches_spec(device: PciVendorDevice, spec: PciDeviceSpec) -> bool {
    &&& spec.device == device.location.device
    &&& spec.function == device.location.function
    &&& spec.device_id == device.device_id
}

/// The locations of the devices that match any of `specs`, in the order in which they were found.
pub open spec fn matching_locations(
    devices: Seq<PciVendorDevice>,
    specs: Seq<PciDeviceSpec>,
) -> Seq<PciLocation>
    decreases devices.len(),
{
    if devices.len() == 0 {
        Seq::empty()
    } else {
        let before = matching_locations(devices.drop_last(), specs);
        if exists|j: int| 0 <= j < specs.len() && matches_spec(
            devices.last(),
            #[trigger] specs[j],
        ) {
            before.push(devices.last().location)
        } else {
            before
        }
    }
}

fn matches_any(device: PciVendorDevice, specs: &Vec<PciDeviceSpec>) -> (result: bool)
    ensures
        result == exists|j: int|
            0 <= j < specs@.len() && matches_spec(device, #[trigger] specs@[j]),
{
    let mut j: usize = 0;
    while j < specs.len()
        invariant
            j <= specs@.len(),
            forall|k: int| 0 <= k < j ==> !matches_spec(device, #[trigger] specs@[k]),
        decreases specs@.len() - j,
    {
        let spec = specs[j];
        if spec.device == device.location.device && spec.function == device.location.function
            && spec.device_id == device.device_id {
            assert(matches_spec(device, specs@[j as int]));
            return true;
        }
        j += 1;
    }
    false
}

/// Finds the devices that match any of `specs`.
pub fn find_matching(devices: &Vec<PciVendorDevice>, specs: &Vec<PciDeviceSpec>) -> (found: Vec<
    PciLocation,
>)
    ensures
        found@ == matching_locations(devices@, specs@),
{
    let mut found: Vec<PciLocation> = Vec::new();
    let mut i: usize = 0;
    assert(devices@.take(0) =~= Seq::<PciVendorDevice>::empty());
    while i < devices.len()
        invariant
            i <= devices@.len(),
            found@ == matching_locations(devices@.take(i as int), specs@),
        decreases devices@.len() - i,
    {
        assert(devices@.take(i + 1).drop_last() =~= devices@.take(i as int));
        if matches_any(devices[i], specs) {
            found.push(devices[i].location);
        }
        i += 1;
    }
    assert(devices@.take(i as int) =~= devices@);
    found
}

/// The locations on a bus.
pub open spec fn on_bus(locations: Seq<PciLocation>, bus: PciBus) -> Seq<PciLocation>
    decreases locations.len(),
{
    if locations.len() == 0 {
        Seq::empty()
    } else if locations.last().on() == bus {
        on_bus(locations.drop_last(), bus).push(locations.last())
    } else {
        on_bus(locations.drop_last(), bus)
    }
}

/// Picks the locations on a bus.
pub fn locations_on(locations: &Vec<PciLocation>, bus: PciBus) -> (found: Vec<PciLocation>)
    ensures
        found@ == on_bus(locations@, bus),
{
    let mut found: Vec<PciLocation> = Vec::new();
    let mut i: usize = 0;
    assert(locations@.take(0) =~= Seq::<PciLocation>::empty());
    while i < locations.len()
        invariant
            i <= locations@.len(),
            found@ == on_bus(locations@.take(i as int), bus),
        decreases locations@.len() - i,
    {
        assert(locations@.take(i + 1).drop_last() =~= locations@.take(i as int));
        if locations[i].pci_bus() == bus {
            found.push(locations[i]);
        }
        i += 1;
    }
    assert(locations@.take(i as int) =~= locations@);
    found
}

} // verus!
