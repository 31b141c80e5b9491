//! Why a collector cannot be set up or cannot report.
use crate::arch::IntelServerCpuModel;
use crate::pci::{PciBus, PciDeviceSpec, PciLocation};
use vstd::prelude::*;

verus! {

/// What stops a collector. `unit` names the collector as it is shown to the user.
#[derive(Clone, Copy, Debug)]
pub enum CollectorError {
    /// A processor without a package number in its topology.
    MissingPackageLevel,
    /// The collector does not know the processor model.
    Unsupported { unit: &'static str, model: IntelServerCpuModel },
    /// A sample over no time was asked for.
    ZeroInterval { unit: &'static str },
    /// An event that the report needs was not counted.
    MissingMeasurement { unit: &'static str, event: &'static str },
    /// Nothing of the kind that is named was found.
    NothingFound { what: &'static str },
    /// A total does not fit in its width.
    Overflow,
    /// The readings handed in are not those that were asked for. For a collector of counting
    /// units, `expected` is how many each unit has.
    ReadingCount { expected: usize, found: usize },
    /// More or fewer units were found than there are packages or scopes to hold them.
    CountMismatch { what: &'static str, found: usize, expected: usize },
    /// A position in a list that was found has no counterpart in another one.
    Unmapped { what: &'static str, index: usize },
    /// A node number that does not occur in the node mapping.
    UnmappedNode {
        unit: &'static str,
        local_node_id: u32,
        node_mapping: u32,
        location: PciLocation,
    },
    /// A logical socket number without a scope.
    UnmappedLogicalId { unit: &'static str, logical_id: u32 },
    /// A device that stands on no known bus.
    UnmappedLocation { unit: &'static str, location: PciLocation },
    /// A link that stands on the bus of no package.
    UnmappedLink { family: &'static str, location: PciLocation },
    /// A device that should stand on a bus but does not.
    MissingDevice { spec: PciDeviceSpec, bus: PciBus },
    /// No unit of a family of processors was found.
    NoneDiscovered { family: &'static str, units: &'static str },
    /// No device with the id of a unit was found.
    NoDevices { unit: &'static str, device_id: u16 },
    /// A package whose units were not all counted.
    MissingPackage { unit: &'static str, package_id: u32 },
    /// A bus on which no channel was found.
    NoChannelsOnBus { unit: &'static str, bus: PciBus },
    /// A base address register that was not set up.
    ZeroBar { location: PciLocation, bar: usize },
    /// No clock ticks were counted or estimated for a scope.
    MissingClock { die_group_id: u32, die_id: u32, package_id: u32 },
    /// No clock ticks were counted or estimated for a package.
    MissingPackageClock { package_id: u32 },
    /// There is no package whose energy could be counted.
    NoPackages,
    /// The clock moved backwards between two readings.
    TimestampBackwards,
    /// No time went by between two readings.
    NoElapsedTime,
    /// A reading does not have one value for each domain.
    DomainCount,
}

} // verus!
