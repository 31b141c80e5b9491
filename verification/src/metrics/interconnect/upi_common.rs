//! The UPI links of Skylake, Ice Lake, Sapphire Rapids and Emerald Rapids processors.
use crate::accumulator::{self, Accumulator, EventKind, EventMeasurement, Grid, Merge, Sample};
use crate::arch::{Architecture, IntelServerCpuModel};
use crate::completeness;
use crate::error::CollectorError;
use crate::metrics::interconnect::{
    self, InterconnectDirection, InterconnectLinkMetrics, InterconnectPowerState,
    InterconnectPowerStateMetrics, InterconnectScope, InterconnectTrafficClass,
    InterconnectTrafficMetrics, LinkPlace,
};
use crate::ordered_map::Key;
use crate::pci::{self, PciBus, PciDeviceSpec, PciLocation, PciVendorDevice};
use crate::registers::{self, Register, RegisterRead, RegisterWrite, Width};
use crate::schedule::{self, Slice, MAX_SPAN_NANOS};
use crate::seqs;
use crate::sockets::{self, UboxNode};
use crate::sorting::{self, Kin, Ranked};
use crate::topology::{self, CpuTopology, Leader, UncoreScope};
use crate::units::{self, SliceReadings, Unit};
use vstd::prelude::*;

verus! {

/// Where the device of a socket holds the node number of the socket.
pub const NODE_ID_OFFSET: u64 = 0xc0;

/// Where the device of a socket holds the mapping from sockets to node numbers.
pub const GID_OFFSET: u64 = 0xd4;

/// The bytes of payload that `FLITS_PER_PAYLOAD` flits carry.
pub const BYTES_PER_PAYLOAD: u64 = 64;

/// The flits that carry `BYTES_PER_PAYLOAD` bytes of payload.
pub const FLITS_PER_PAYLOAD: u64 = 9;

/// A processor with UPI links.
#[derive(Clone, Copy, Debug, PartialEq, Eq, Structural)]
pub enum UpiArchitecture {
    Emr,
    Icx,
    Skx,
    Spr,
}

/// The processor with UPI links that a model is.
pub open spec fn family_member(model: IntelServerCpuModel) -> Option<UpiArchitecture> {
    match model {
        IntelServerCpuModel::EmeraldRapids => Some(UpiArchitecture::Emr),
        IntelServerCpuModel::IceLakeXeon => Some(UpiArchitecture::Icx),
        IntelServerCpuModel::SapphireRapids => Some(UpiArchitecture::Spr),
        IntelServerCpuModel::SkylakeXeon => Some(UpiArchitecture::Skx),
        _ => None,
    }
}

/// Where the unit of a link is frozen, reset and released.
pub open spec fn box_control_at(architecture: UpiArchitecture) -> u64 {
    match architecture {
        UpiArchitecture::Emr | UpiArchitecture::Spr | UpiArchitecture::Icx => 0x318,
        UpiArchitecture::Skx => 0x378,
    }
}

/// Where the event of the first counter is selected.
pub open spec fn controls_at(architecture: UpiArchitecture) -> u64 {
    match architecture {
        UpiArchitecture::Emr
        | UpiArchitecture::Icx
        | UpiArchitecture::Skx
        | UpiArchitecture::Spr => 0x350,
    }
}

/// How far the event selections stand apart.
pub open spec fn stride_of(architecture: UpiArchitecture) -> u64 {
    match architecture {
        UpiArchitecture::Emr
        | UpiArchitecture::Icx
        | UpiArchitecture::Skx
        | UpiArchitecture::Spr => 8,
    }
}

/// Where the first counter is.
pub open spec fn counters_at(architecture: UpiArchitecture) -> u64 {
    match architecture {
        UpiArchitecture::Emr | UpiArchitecture::Spr | UpiArchitecture::Icx => 0x320,
        UpiArchitecture::Skx => 0x318,
    }
}

/// The device id of a link.
pub open spec fn link_device(architecture: UpiArchitecture) -> u16 {
    match architecture {
        UpiArchitecture::Emr | UpiArchitecture::Spr => 0x3241,
        UpiArchitecture::Icx => 0x3441,
        UpiArchitecture::Skx => 0x2058,
    }
}

/// The name of the processor.
pub open spec fn name_of(architecture: UpiArchitecture) -> &'static str {
    match architecture {
        UpiArchitecture::Emr => "Emerald Rapids",
        UpiArchitecture::Icx => "Ice Lake Xeon",
        UpiArchitecture::Skx => "Skylake/Cascade Lake",
        UpiArchitecture::Spr => "Sapphire Rapids",
    }
}

/// What the collector is called in an error.
pub open spec fn unit_name(architecture: UpiArchitecture) -> &'static str {
    match architecture {
        UpiArchitecture::Emr => "Emerald Rapids UPI",
        UpiArchitecture::Icx => "Ice Lake Xeon UPI",
        UpiArchitecture::Skx => "Skylake/Cascade Lake UPI",
        UpiArchitecture::Spr => "Sapphire Rapids UPI",
    }
}

/// Freezes the counters of a link.
pub open spec fn freeze_word(architecture: UpiArchitecture) -> u64 {
    match architecture {
        UpiArchitecture::Emr | UpiArchitecture::Spr => 0x1,
        UpiArchitecture::Icx | UpiArchitecture::Skx => 0x100,
    }
}

/// Freezes the counters of a link and resets its counters and event selections.
pub open spec fn reset_word(architecture: UpiArchitecture) -> u64 {
    match architecture {
        UpiArchitecture::Emr | UpiArchitecture::Spr => 0x301,
        UpiArchitecture::Icx | UpiArchitecture::Skx => 0x103,
    }
}

/// Releases the counters of a link.
pub open spec fn unfreeze_word(architecture: UpiArchitecture) -> u64 {
    match architecture {
        UpiArchitecture::Emr
        | UpiArchitecture::Icx
        | UpiArchitecture::Skx
        | UpiArchitecture::Spr => 0,
    }
}

/// The device id of the device that tells the node number of a socket; not every processor has one.
pub open spec fn socket_device(architecture: UpiArchitecture) -> Option<u16> {
    match architecture {
        UpiArchitecture::Emr | UpiArchitecture::Spr => Some(0x3250),
        UpiArchitecture::Icx => Some(0x3450),
        UpiArchitecture::Skx => None,
    }
}

/// Where on its bus a link stands, and its number.
#[derive(Clone, Copy, Debug, PartialEq, Eq, Structural)]
pub struct LinkAddress {
    pub device: u8,
    pub function: u8,
    pub link_id: u32,
}

/// Where on its bus each link stands.
pub open spec fn addresses(architecture: UpiArchitecture) -> Seq<LinkAddress> {
    match architecture {
        UpiArchitecture::Emr | UpiArchitecture::Spr => seq![
            LinkAddress { device: 1, function: 1, link_id: 0 },
            LinkAddress { device: 2, function: 1, link_id: 1 },
            LinkAddress { device: 3, function: 1, link_id: 2 },
            LinkAddress { device: 4, function: 1, link_id: 3 },
        ],
        UpiArchitecture::Icx => seq![
            LinkAddress { device: 2, function: 1, link_id: 0 },
            LinkAddress { device: 3, function: 1, link_id: 1 },
            LinkAddress { device: 4, function: 1, link_id: 2 },
        ],
        UpiArchitecture::Skx => seq![
            LinkAddress { device: 14, function: 0, link_id: 0 },
            LinkAddress { device: 15, function: 0, link_id: 1 },
            LinkAddress { device: 16, function: 0, link_id: 2 },
        ],
    }
}

/// The event groups, in the order in which they take turns.
pub open spec fn groups(architecture: UpiArchitecture) -> Seq<UpiEventGroup> {
    match architecture {
        UpiArchitecture::Emr | UpiArchitecture::Spr => seq![
            UpiEventGroup {
                events: [
                    event_of(UpiEventKind::Clockticks, 0x01, 0x00),
                    event_of(UpiEventKind::TxDataFlits, 0x02, 0x0f),
                    event_of(UpiEventKind::RxDataFlits, 0x03, 0x0f),
                    event_of(UpiEventKind::L1PowerCycles, 0x21, 0x00),
                ],
            },
            UpiEventGroup {
                events: [
                    event_of(UpiEventKind::TxNonDataFlits, 0x02, 0x97),
                    event_of(UpiEventKind::RxNonDataFlits, 0x03, 0x97),
                    no_event(),
                    no_event(),
                ],
            },
        ],
        UpiArchitecture::Icx => seq![
            UpiEventGroup {
                events: [
                    event_of(UpiEventKind::Clockticks, 0x01, 0x00),
                    event_of(UpiEventKind::TxDataFlits, 0x02, 0x0f),
                    event_of(UpiEventKind::RxDataFlits, 0x03, 0x0f),
                    event_of(UpiEventKind::L1PowerCycles, 0x21, 0x00),
                ],
            },
            UpiEventGroup {
                events: [
                    event_of(UpiEventKind::TxNonDataFlits, 0x02, 0x97),
                    event_of(UpiEventKind::RxNonDataFlits, 0x03, 0x97),
                    no_event(),
                    no_event(),
                ],
            },
            UpiEventGroup {
                events: [
                    event_of(UpiEventKind::TxL0pPowerCycles, 0x27, 0x00),
                    no_event(),
                    no_event(),
                    no_event(),
                ],
            },
        ],
        UpiArchitecture::Skx => seq![
            UpiEventGroup {
                events: [
                    event_of(UpiEventKind::Clockticks, 0x01, 0x00),
                    event_of(UpiEventKind::TxDataFlits, 0x02, 0x0f),
                    event_of(UpiEventKind::RxDataFlits, 0x03, 0x0f),
                    event_of(UpiEventKind::L1PowerCycles, 0x21, 0x00),
                ],
            },
            UpiEventGroup {
                events: [
                    event_of(UpiEventKind::TxNonDataFlits, 0x02, 0x97),
                    event_of(UpiEventKind::RxNonDataFlits, 0x03, 0x97),
                    no_event(),
                    no_event(),
                ],
            },
            UpiEventGroup {
                events: [
                    event_of(UpiEventKind::TxL0pPowerCycles, 0x27, 0x00),
                    event_of(UpiEventKind::RxL0pPowerCycles, 0x25, 0x00),
                    no_event(),
                    no_event(),
                ],
            },
        ],
    }
}

impl UpiArchitecture {
    /// The processor with UPI links that a model is.
    pub fn from_model(model: IntelServerCpuModel) -> (architecture: Option<Self>)
        ensures
            architecture == family_member(model),
    {
        match model {
            IntelServerCpuModel::EmeraldRapids => Some(UpiArchitecture::Emr),
            IntelServerCpuModel::IceLakeXeon => Some(UpiArchitecture::Icx),
            IntelServerCpuModel::SapphireRapids => Some(UpiArchitecture::Spr),
            IntelServerCpuModel::SkylakeXeon => Some(UpiArchitecture::Skx),
            _ => None,
        }
    }

    /// Where the unit of a link is frozen, reset and released.
    pub fn box_control_base(self) -> (value: u64)
        ensures
            value == box_control_at(self),
    {
        match self {
            UpiArchitecture::Emr | UpiArchitecture::Spr | UpiArchitecture::Icx => 0x318,
            UpiArchitecture::Skx => 0x378,
        }
    }

    /// Where the event of the first counter is selected.
    pub fn control_base(self) -> (value: u64)
        ensures
            value == controls_at(self),
    {
        match self {
            UpiArchitecture::Emr
            | UpiArchitecture::Icx
            | UpiArchitecture::Skx
            | UpiArchitecture::Spr => 0x350,
        }
    }

    /// How far the event selections stand apart.
    pub fn control_stride(self) -> (value: u64)
        ensures
            value == stride_of(self),
    {
        match self {
            UpiArchitecture::Emr
            | UpiArchitecture::Icx
            | UpiArchitecture::Skx
            | UpiArchitecture::Spr => 8,
        }
    }

    /// Where the first counter is.
    pub fn counter_base(self) -> (value: u64)
        ensures
            value == counters_at(self),
    {
        match self {
            UpiArchitecture::Emr | UpiArchitecture::Spr | UpiArchitecture::Icx => 0x320,
            UpiArchitecture::Skx => 0x318,
        }
    }

    /// The device id of a link.
    pub fn device_id(self) -> (value: u16)
        ensures
            value == link_device(self),
    {
        match self {
            UpiArchitecture::Emr | UpiArchitecture::Spr => 0x3241,
            UpiArchitecture::Icx => 0x3441,
            UpiArchitecture::Skx => 0x2058,
        }
    }

    /// The name of the processor.
    pub fn name(self) -> (value: &'static str)
        ensures
            value == name_of(self),
    {
        match self {
            UpiArchitecture::Emr => "Emerald Rapids",
            UpiArchitecture::Icx => "Ice Lake Xeon",
            UpiArchitecture::Skx => "Skylake/Cascade Lake",
            UpiArchitecture::Spr => "Sapphire Rapids",
        }
    }

    /// What the collector is called in an error.
    pub fn unit_text(self) -> (value: &'static str)
        ensures
            value == unit_name(self),
    {
        match self {
            UpiArchitecture::Emr => "Emerald Rapids UPI",
            UpiArchitecture::Icx => "Ice Lake Xeon UPI",
            UpiArchitecture::Skx => "Skylake/Cascade Lake UPI",
            UpiArchitecture::Spr => "Sapphire Rapids UPI",
        }
    }

    /// Freezes the counters of a link.
    pub fn unit_freeze(self) -> (value: u64)
        ensures
            value == freeze_word(self),
    {
        match self {
            UpiArchitecture::Emr | UpiArchitecture::Spr => 0x1,
            UpiArchitecture::Icx | UpiArchitecture::Skx => 0x100,
        }
    }

    /// Freezes the counters of a link and resets its counters and event selections.
    pub fn unit_freeze_and_reset(self) -> (value: u64)
        ensures
            value == reset_word(self),
    {
        match self {
            UpiArchitecture::Emr | UpiArchitecture::Spr => 0x301,
            UpiArchitecture::Icx | UpiArchitecture::Skx => 0x103,
        }
    }

    /// Releases the counters of a link.
    pub fn unit_unfreeze(self) -> (value: u64)
        ensures
            value == unfreeze_word(self),
    {
        match self {
            UpiArchitecture::Emr
            | UpiArchitecture::Icx
            | UpiArchitecture::Skx
            | UpiArchitecture::Spr => 0,
        }
    }

    /// The device id of the device that tells the node number of a socket; not every processor
    /// has one.
    pub fn ubox_device_id(self) -> (value: Option<u16>)
        ensures
            value == socket_device(self),
    {
        match self {
            UpiArchitecture::Emr | UpiArchitecture::Spr => Some(0x3250),
            UpiArchitecture::Icx => Some(0x3450),
            UpiArchitecture::Skx => None,
        }
    }

    /// Where on its bus each link stands.
    pub fn link_addresses(self) -> (table: Vec<LinkAddress>)
        ensures
            table@ == addresses(self),
    {
        match self {
            UpiArchitecture::Emr | UpiArchitecture::Spr => vec![
                LinkAddress { device: 1, function: 1, link_id: 0 },
                LinkAddress { device: 2, function: 1, link_id: 1 },
                LinkAddress { device: 3, function: 1, link_id: 2 },
                LinkAddress { device: 4, function: 1, link_id: 3 },
            ],
            UpiArchitecture::Icx => vec![
                LinkAddress { device: 2, function: 1, link_id: 0 },
                LinkAddress { device: 3, function: 1, link_id: 1 },
                LinkAddress { device: 4, function: 1, link_id: 2 },
            ],
            UpiArchitecture::Skx => vec![
                LinkAddress { device: 14, function: 0, link_id: 0 },
                LinkAddress { device: 15, function: 0, link_id: 1 },
                LinkAddress { device: 16, function: 0, link_id: 2 },
            ],
        }
    }

    /// The event groups, in the order in which they take turns.
    pub fn event_groups(self) -> (table: Vec<UpiEventGroup>)
        ensures
            table@ == groups(self),
    {
        match self {
            UpiArchitecture::Emr | UpiArchitecture::Spr => vec![
                UpiEventGroup {
                    events: [
                        UpiEventSpec::new(UpiEventKind::Clockticks, 0x01, 0x00),
                        UpiEventSpec::new(UpiEventKind::TxDataFlits, 0x02, 0x0f),
                        UpiEventSpec::new(UpiEventKind::RxDataFlits, 0x03, 0x0f),
                        UpiEventSpec::new(UpiEventKind::L1PowerCycles, 0x21, 0x00),
                    ],
                },
                UpiEventGroup {
                    events: [
                        UpiEventSpec::new(UpiEventKind::TxNonDataFlits, 0x02, 0x97),
                        UpiEventSpec::new(UpiEventKind::RxNonDataFlits, 0x03, 0x97),
                        UpiEventSpec::unused(),
                        UpiEventSpec::unused(),
                    ],
                },
            ],
            UpiArchitecture::Icx => vec![
                UpiEventGroup {
                    events: [
                        UpiEventSpec::new(UpiEventKind::Clockticks, 0x01, 0x00),
                        UpiEventSpec::new(UpiEventKind::TxDataFlits, 0x02, 0x0f),
                        UpiEventSpec::new(UpiEventKind::RxDataFlits, 0x03, 0x0f),
                        UpiEventSpec::new(UpiEventKind::L1PowerCycles, 0x21, 0x00),
                    ],
                },
                UpiEventGroup {
                    events: [
                        UpiEventSpec::new(UpiEventKind::TxNonDataFlits, 0x02, 0x97),
                        UpiEventSpec::new(UpiEventKind::RxNonDataFlits, 0x03, 0x97),
                        UpiEventSpec::unused(),
                        UpiEventSpec::unused(),
                    ],
                },
                UpiEventGroup {
                    events: [
                        UpiEventSpec::new(UpiEventKind::TxL0pPowerCycles, 0x27, 0x00),
                        UpiEventSpec::unused(),
                        UpiEventSpec::unused(),
                        UpiEventSpec::unused(),
                    ],
                },
            ],
            UpiArchitecture::Skx => vec![
                UpiEventGroup {
                    events: [
                        UpiEventSpec::new(UpiEventKind::Clockticks, 0x01, 0x00),
                        UpiEventSpec::new(UpiEventKind::TxDataFlits, 0x02, 0x0f),
                        UpiEventSpec::new(UpiEventKind::RxDataFlits, 0x03, 0x0f),
                        UpiEventSpec::new(UpiEventKind::L1PowerCycles, 0x21, 0x00),
                    ],
                },
                UpiEventGroup {
                    events: [
                        UpiEventSpec::new(UpiEventKind::TxNonDataFlits, 0x02, 0x97),
                        UpiEventSpec::new(UpiEventKind::RxNonDataFlits, 0x03, 0x97),
                        UpiEventSpec::unused(),
                        UpiEventSpec::unused(),
                    ],
                },
                UpiEventGroup {
                    events: [
                        UpiEventSpec::new(UpiEventKind::TxL0pPowerCycles, 0x27, 0x00),
                        UpiEventSpec::new(UpiEventKind::RxL0pPowerCycles, 0x25, 0x00),
                        UpiEventSpec::unused(),
                        UpiEventSpec::unused(),
                    ],
                },
            ],
        }
    }
}

/// What is counted on a link.
#[derive(Clone, Copy, Debug, PartialEq, Eq, Structural)]
pub enum UpiEventKind {
    Clockticks,
    L1PowerCycles,
    RxDataFlits,
    RxL0pPowerCycles,
    RxNonDataFlits,
    TxDataFlits,
    TxL0pPowerCycles,
    TxNonDataFlits,
    Unused,
}

/// The place of an event in the order of the events.
pub open spec fn event_index(kind: UpiEventKind) -> int {
    match kind {
        UpiEventKind::Clockticks => 0,
        UpiEventKind::L1PowerCycles => 1,
        UpiEventKind::RxDataFlits => 2,
        UpiEventKind::RxL0pPowerCycles => 3,
        UpiEventKind::RxNonDataFlits => 4,
        UpiEventKind::TxDataFlits => 5,
        UpiEventKind::TxL0pPowerCycles => 6,
        UpiEventKind::TxNonDataFlits => 7,
        UpiEventKind::Unused => 8,
    }
}

/// The name of an event, as it is shown in an error.
pub open spec fn event_name(kind: UpiEventKind) -> &'static str {
    match kind {
        UpiEventKind::Clockticks => "Clockticks",
        UpiEventKind::L1PowerCycles => "L1PowerCycles",
        UpiEventKind::RxDataFlits => "RxDataFlits",
        UpiEventKind::RxL0pPowerCycles => "RxL0pPowerCycles",
        UpiEventKind::RxNonDataFlits => "RxNonDataFlits",
        UpiEventKind::TxDataFlits => "TxDataFlits",
        UpiEventKind::TxL0pPowerCycles => "TxL0pPowerCycles",
        UpiEventKind::TxNonDataFlits => "TxNonDataFlits",
        UpiEventKind::Unused => "Unused",
    }
}

impl UpiEventKind {
    fn index(self) -> (index: u8)
        ensures
            index == event_index(self),
    {
        match self {
            UpiEventKind::Clockticks => 0,
            UpiEventKind::L1PowerCycles => 1,
            UpiEventKind::RxDataFlits => 2,
            UpiEventKind::RxL0pPowerCycles => 3,
            UpiEventKind::RxNonDataFlits => 4,
            UpiEventKind::TxDataFlits => 5,
            UpiEventKind::TxL0pPowerCycles => 6,
            UpiEventKind::TxNonDataFlits => 7,
            UpiEventKind::Unused => 8,
        }
    }

    /// The name of the event, as it is shown in an error.
    pub fn name(self) -> (name: &'static str)
        ensures
            name == event_name(self),
    {
        match self {
            UpiEventKind::Clockticks => "Clockticks",
            UpiEventKind::L1PowerCycles => "L1PowerCycles",
            UpiEventKind::RxDataFlits => "RxDataFlits",
            UpiEventKind::RxL0pPowerCycles => "RxL0pPowerCycles",
            UpiEventKind::RxNonDataFlits => "RxNonDataFlits",
            UpiEventKind::TxDataFlits => "TxDataFlits",
            UpiEventKind::TxL0pPowerCycles => "TxL0pPowerCycles",
            UpiEventKind::TxNonDataFlits => "TxNonDataFlits",
            UpiEventKind::Unused => "Unused",
        }
    }
}

impl Key for UpiEventKind {
    open spec fn rank(self) -> int {
        event_index(self)
    }

    proof fn rank_injective(a: Self, b: Self) {
    }

    fn precedes(&self, other: &Self) -> (result: bool) {
        self.index() < other.index()
    }
}

impl EventKind for UpiEventKind {
    open spec fn is_counted(self) -> bool {
        self != UpiEventKind::Unused
    }

    fn counts(&self) -> (result: bool) {
        match self {
            UpiEventKind::Unused => false,
            _ => true,
        }
    }
}

/// An event that a counter can count.
#[derive(Clone, Copy, Debug, PartialEq, Eq, Structural)]
pub struct UpiEventSpec {
    pub event: u8,
    pub kind: UpiEventKind,
    pub umask: u8,
}

/// An event.
pub open spec fn event_of(kind: UpiEventKind, event: u8, umask: u8) -> UpiEventSpec {
    UpiEventSpec { event, kind, umask }
}

/// No event.
pub open spec fn no_event() -> UpiEventSpec {
    UpiEventSpec { event: 0, kind: UpiEventKind::Unused, umask: 0 }
}

impl UpiEventSpec {
    /// An event.
    pub fn new(kind: UpiEventKind, event: u8, umask: u8) -> (spec: Self)
        ensures
            spec == event_of(kind, event, umask),
    {
        UpiEventSpec { event, kind, umask }
    }

    /// No event.
    pub fn unused() -> (spec: Self)
        ensures
            spec == no_event(),
    {
        UpiEventSpec { event: 0, kind: UpiEventKind::Unused, umask: 0 }
    }
}

/// The events that the counters of a link count at the same time.
#[derive(Clone, Copy, Debug, PartialEq, Eq)]
pub struct UpiEventGroup {
    pub events: [UpiEventSpec; 4],
}

/// What a counter counts, if anything.
pub open spec fn kind_of(event: UpiEventSpec) -> Option<UpiEventKind> {
    if event.kind == UpiEventKind::Unused {
        None
    } else {
        Some(event.kind)
    }
}

/// The flags above the unit mask: Ice Lake and Skylake take a reset and an enable bit.
pub open spec fn control_flags(architecture: UpiArchitecture) -> u64 {
    match architecture {
        UpiArchitecture::Emr | UpiArchitecture::Spr => 0,
        UpiArchitecture::Icx | UpiArchitecture::Skx => registers::COUNT,
    }
}

/// The control word of an event: event number, unit mask and flags; zero without an event.
pub open spec fn control_word(architecture: UpiArchitecture, event: UpiEventSpec) -> u64 {
    if event.kind == UpiEventKind::Unused {
        0
    } else {
        (event.event + event.umask * 0x100 + control_flags(architecture)) as u64
    }
}

/// What each counter counts while a group is programmed.
pub open spec fn counter_kinds(group: UpiEventGroup) -> Seq<Option<UpiEventKind>> {
    group.events@.map_values(|event: UpiEventSpec| kind_of(event))
}

/// The control words of the counters while a group is programmed.
pub open spec fn control_words(architecture: UpiArchitecture, group: UpiEventGroup) -> Seq<
    Option<u64>,
> {
    group.events@.map_values(|event: UpiEventSpec| Some(control_word(architecture, event)))
}

fn counted_kind(event: UpiEventSpec) -> (kind: Option<UpiEventKind>)
    ensures
        kind == kind_of(event),
{
    match event.kind {
        UpiEventKind::Unused => None,
        kind => Some(kind),
    }
}

/// The control word of an event.
pub fn counter_control(architecture: UpiArchitecture, event: UpiEventSpec) -> (word: u64)
    ensures
        word == control_word(architecture, event),
{
    let flags: u64 = match architecture {
        UpiArchitecture::Emr | UpiArchitecture::Spr => 0,
        UpiArchitecture::Icx | UpiArchitecture::Skx => registers::COUNT,
    };
    match event.kind {
        UpiEventKind::Unused => 0,
        _ => registers::select_word(event.event, event.umask, flags),
    }
}

impl UpiEventGroup {
    /// What each counter counts.
    pub fn kinds(&self) -> (kinds: Vec<Option<UpiEventKind>>)
        ensures
            kinds@ == counter_kinds(*self),
    {
        let kinds: Vec<Option<UpiEventKind>> = vec![
            counted_kind(self.events[0]),
            counted_kind(self.events[1]),
            counted_kind(self.events[2]),
            counted_kind(self.events[3]),
        ];
        assert(kinds@ =~= counter_kinds(*self));
        kinds
    }

    /// The control words of the counters.
    pub fn controls(&self, architecture: UpiArchitecture) -> (words: Vec<Option<u64>>)
        ensures
            words@ == control_words(architecture, *self),
    {
        let words: Vec<Option<u64>> = vec![
            Some(counter_control(architecture, self.events[0])),
            Some(counter_control(architecture, self.events[1])),
            Some(counter_control(architecture, self.events[2])),
            Some(counter_control(architecture, self.events[3])),
        ];
        assert(words@ =~= control_words(architecture, *self));
        words
    }
}

/// What an event counted on a link.
#[derive(Clone, Copy, Debug, PartialEq, Eq, Structural)]
pub struct UpiEventMeasurement {
    pub enabled_nanos: u128,
    pub running_nanos: u128,
    pub value: u64,
}

impl Merge for UpiEventMeasurement {
    open spec fn fits(self, other: Self) -> bool {
        &&& self.enabled_nanos + other.enabled_nanos <= MAX_SPAN_NANOS
        &&& self.running_nanos + other.running_nanos <= MAX_SPAN_NANOS
        &&& self.value + other.value <= u64::MAX
    }

    open spec fn merged(self, other: Self) -> Self {
        UpiEventMeasurement {
            enabled_nanos: (self.enabled_nanos + other.enabled_nanos) as u128,
            running_nanos: (self.running_nanos + other.running_nanos) as u128,
            value: (self.value + other.value) as u64,
        }
    }

    fn merge(&self, other: &Self) -> (result: Option<Self>) {
        let enabled: Option<u128> = self.enabled_nanos.checked_add(other.enabled_nanos);
        let running: Option<u128> = self.running_nanos.checked_add(other.running_nanos);
        let value: Option<u64> = self.value.checked_add(other.value);
        match (enabled, running, value) {
            (Some(enabled_nanos), Some(running_nanos), Some(value)) => {
                if enabled_nanos <= MAX_SPAN_NANOS && running_nanos <= MAX_SPAN_NANOS {
                    Some(UpiEventMeasurement { enabled_nanos, running_nanos, value })
                } else {
                    None
                }
            },
            _ => None,
        }
    }
}

impl UpiEventMeasurement {
    /// The measurement as one without clock ticks.
    pub open spec fn as_event(self) -> EventMeasurement {
        EventMeasurement {
            enabled_nanos: self.enabled_nanos,
            running_nanos: self.running_nanos,
            ticks: 0,
            value: self.value,
        }
    }

    /// The measurement as one without clock ticks.
    pub fn to_event(self) -> (event: EventMeasurement)
        ensures
            event == self.as_event(),
    {
        EventMeasurement {
            enabled_nanos: self.enabled_nanos,
            running_nanos: self.running_nanos,
            ticks: 0,
            value: self.value,
        }
    }
}

/// Measurements of the links by event.
pub type UpiMeasurementAccumulator = Accumulator<
    InterconnectScope,
    UpiEventKind,
    UpiEventMeasurement,
>;

/// What is reported for the links of a processor.
#[derive(Debug)]
pub struct UpiMetrics {
    pub links: Vec<InterconnectLinkMetrics>,
    pub power_states: Vec<InterconnectPowerStateMetrics>,
    pub traffic: Vec<InterconnectTrafficMetrics>,
}

/// A link with what its events counted.
pub type UpiRow = (InterconnectScope, Map<UpiEventKind, UpiEventMeasurement>);

/// The events that a report needs, in the order in which they are looked up.
pub open spec fn required_events() -> Seq<UpiEventKind> {
    seq![
        UpiEventKind::Clockticks,
        UpiEventKind::TxDataFlits,
        UpiEventKind::TxNonDataFlits,
        UpiEventKind::RxDataFlits,
        UpiEventKind::RxNonDataFlits,
        UpiEventKind::L1PowerCycles,
    ]
}

fn required_list() -> (kinds: Vec<UpiEventKind>)
    ensures
        kinds@ == required_events(),
{
    vec![
        UpiEventKind::Clockticks,
        UpiEventKind::TxDataFlits,
        UpiEventKind::TxNonDataFlits,
        UpiEventKind::RxDataFlits,
        UpiEventKind::RxNonDataFlits,
        UpiEventKind::L1PowerCycles,
    ]
}

/// What a link counted of an event that it must have counted.
pub open spec fn counted_of(row: UpiRow, kind: UpiEventKind) -> EventMeasurement {
    row.1[kind].as_event()
}

/// What a link carries: data and other flits that are sent, then those that are received.
pub open spec fn row_traffic(row: UpiRow) -> Seq<InterconnectTrafficMetrics> {
    let payload = Some((BYTES_PER_PAYLOAD, FLITS_PER_PAYLOAD));
    seq![
        interconnect::traffic_of(
            row.0,
            InterconnectDirection::Tx,
            InterconnectTrafficClass::Data,
            counted_of(row, UpiEventKind::TxDataFlits),
            payload,
        ),
        interconnect::traffic_of(
            row.0,
            InterconnectDirection::Tx,
            InterconnectTrafficClass::NonData,
            counted_of(row, UpiEventKind::TxNonDataFlits),
            None,
        ),
        interconnect::traffic_of(
            row.0,
            InterconnectDirection::Rx,
            InterconnectTrafficClass::Data,
            counted_of(row, UpiEventKind::RxDataFlits),
            payload,
        ),
        interconnect::traffic_of(
            row.0,
            InterconnectDirection::Rx,
            InterconnectTrafficClass::NonData,
            counted_of(row, UpiEventKind::RxNonDataFlits),
            None,
        ),
    ]
}

/// How long one direction of a link is in the L0p state; nothing where that was not counted.
pub open spec fn row_l0p(row: UpiRow, direction: InterconnectDirection, kind: UpiEventKind) -> Seq<
    InterconnectPowerStateMetrics,
> {
    if row.1.contains_key(kind) {
        seq![
            interconnect::power_state_of(
                row.0,
                Some(direction),
                InterconnectPowerState::L0p,
                counted_of(row, kind),
                counted_of(row, UpiEventKind::Clockticks),
            ),
        ]
    } else {
        Seq::empty()
    }
}

/// The power states of a link: L1 for the whole link, then L0p for each direction in which it was
/// counted.
pub open spec fn row_power_states(row: UpiRow) -> Seq<InterconnectPowerStateMetrics> {
    seq![
        interconnect::power_state_of(
            row.0,
            None,
            InterconnectPowerState::L1,
            counted_of(row, UpiEventKind::L1PowerCycles),
            counted_of(row, UpiEventKind::Clockticks),
        ),
    ] + row_l0p(row, InterconnectDirection::Rx, UpiEventKind::RxL0pPowerCycles) + row_l0p(
        row,
        InterconnectDirection::Tx,
        UpiEventKind::TxL0pPowerCycles,
    )
}

/// Whether `result` is the report on measurements, link by link in scope order, or the first
/// event that is needed and was not counted.
pub open spec fn reported(rows: Seq<UpiRow>, result: Result<UpiMetrics, CollectorError>) -> bool {
    match accumulator::first_gap(rows, required_events()) {
        Some(kind) => result matches Err(error) && error == (CollectorError::MissingMeasurement {
            unit: "UPI",
            event: event_name(kind),
        }),
        None => {
            &&& result matches Ok(metrics)
            &&& metrics.links@ == rows.map_values(
                |row: UpiRow|
                    interconnect::frequency_of_link(
                        row.0,
                        counted_of(row, UpiEventKind::Clockticks),
                    ),
            )
            &&& metrics.traffic@ == seqs::flat_map(rows, |row: UpiRow| row_traffic(row))
            &&& metrics.power_states@ == seqs::flat_map(rows, |row: UpiRow| row_power_states(row))
        },
    }
}

impl UpiMetrics {
    fn push_link(&mut self, measurements: &UpiMeasurementAccumulator, index: usize)
        requires
            measurements.wf(),
            index < measurements.rows().len(),
            accumulator::first_gap(measurements.rows(), required_events()) is None,
        ensures
            final(self).links@ == old(self).links@.push(
                interconnect::frequency_of_link(
                    measurements.rows()[index as int].0,
                    counted_of(measurements.rows()[index as int], UpiEventKind::Clockticks),
                ),
            ),
            final(self).traffic@ == old(self).traffic@ + row_traffic(
                measurements.rows()[index as int],
            ),
            final(self).power_states@ == old(self).power_states@ + row_power_states(
                measurements.rows()[index as int],
            ),
    {
        let ghost row = measurements.rows()[index as int];
        proof {
            let rows = measurements.rows();
            assert forall|j: int| 0 <= j < required_events().len() implies row.1.contains_key(
                #[trigger] required_events()[j],
            ) by {
                accumulator::lemma_no_gap(rows, required_events(), index as int, j);
            }
            assert(required_events()[0] == UpiEventKind::Clockticks);
            assert(required_events()[1] == UpiEventKind::TxDataFlits);
            assert(required_events()[2] == UpiEventKind::TxNonDataFlits);
            assert(required_events()[3] == UpiEventKind::RxDataFlits);
            assert(required_events()[4] == UpiEventKind::RxNonDataFlits);
            assert(required_events()[5] == UpiEventKind::L1PowerCycles);
        }
        let scope = measurements.scope_at(index);
        let payload: Option<(u64, u64)> = Some((BYTES_PER_PAYLOAD, FLITS_PER_PAYLOAD));
        let clockticks = measurements.require(index, UpiEventKind::Clockticks).to_event();
        let tx_data = measurements.require(index, UpiEventKind::TxDataFlits).to_event();
        let tx_non_data = measurements.require(index, UpiEventKind::TxNonDataFlits).to_event();
        let rx_data = measurements.require(index, UpiEventKind::RxDataFlits).to_event();
        let rx_non_data = measurements.require(index, UpiEventKind::RxNonDataFlits).to_event();
        let l1_cycles = measurements.require(index, UpiEventKind::L1PowerCycles).to_event();
        self.links.push(interconnect::link_frequency(scope, clockticks));
        self.traffic.push(
            interconnect::traffic_metric(
                scope,
                InterconnectDirection::Tx,
                InterconnectTrafficClass::Data,
                tx_data,
                payload,
            ),
        );
        self.traffic.push(
            interconnect::traffic_metric(
                scope,
                InterconnectDirection::Tx,
                InterconnectTrafficClass::NonData,
                tx_non_data,
                None,
            ),
        );
        self.traffic.push(
            interconnect::traffic_metric(
                scope,
                InterconnectDirection::Rx,
                InterconnectTrafficClass::Data,
                rx_data,
                payload,
            ),
        );
        self.traffic.push(
            interconnect::traffic_metric(
                scope,
                InterconnectDirection::Rx,
                InterconnectTrafficClass::NonData,
                rx_non_data,
                None,
            ),
        );
        self.power_states.push(
            interconnect::power_state_metric(
                scope,
                None,
                InterconnectPowerState::L1,
                l1_cycles,
                clockticks,
            ),
        );
        match measurements.measurement_at(index, UpiEventKind::RxL0pPowerCycles) {
            Some(measurement) => {
                self.power_states.push(
                    interconnect::power_state_metric(
                        scope,
                        Some(InterconnectDirection::Rx),
                        InterconnectPowerState::L0p,
                        measurement.to_event(),
                        clockticks,
                    ),
                );
            },
            None => {},
        }
        match measurements.measurement_at(index, UpiEventKind::TxL0pPowerCycles) {
            Some(measurement) => {
                self.power_states.push(
                    interconnect::power_state_metric(
                        scope,
                        Some(InterconnectDirection::Tx),
                        InterconnectPowerState::L0p,
                        measurement.to_event(),
                        clockticks,
                    ),
                );
            },
            None => {},
        }
        assert(self.traffic@ =~= old(self).traffic@ + row_traffic(row));
        assert(self.power_states@ =~= old(self).power_states@ + row_power_states(row));
    }

    /// Reports every link, in scope order; an error where an event that is needed was not counted
    /// on some link.
    pub fn from_measurements(measurements: &UpiMeasurementAccumulator) -> (result: Result<
        Self,
        CollectorError,
    >)
        requires
            measurements.wf(),
        ensures
            reported(measurements.rows(), result),
    {
        match measurements.find_gap(&required_list()) {
            Some(kind) => Err(
                CollectorError::MissingMeasurement { unit: "UPI", event: kind.name() },
            ),
            None => {
                let ghost rows = measurements.rows();
                let ghost traffic = |row: UpiRow| row_traffic(row);
                let ghost power_states = |row: UpiRow| row_power_states(row);
                let mut metrics = UpiMetrics {
                    links: Vec::new(),
                    power_states: Vec::new(),
                    traffic: Vec::new(),
                };
                let mut i: usize = 0;
                proof {
                    seqs::lemma_flat_map_ends(rows, traffic);
                    seqs::lemma_flat_map_ends(rows, power_states);
                }
                while i < measurements.len()
                    invariant
                        measurements.wf(),
                        rows == measurements.rows(),
                        traffic == (|row: UpiRow| row_traffic(row)),
                        power_states == (|row: UpiRow| row_power_states(row)),
                        accumulator::first_gap(rows, required_events()) is None,
                        i <= rows.len(),
                        metrics.links@.len() == i,
                        forall|k: int|
                            0 <= k < i ==> (#[trigger] metrics.links@[k])
                                == interconnect::frequency_of_link(
                                rows[k].0,
                                counted_of(rows[k], UpiEventKind::Clockticks),
                            ),
                        metrics.traffic@ == seqs::flat_map(rows.take(i as int), traffic),
                        metrics.power_states@ == seqs::flat_map(rows.take(i as int), power_states),
                    decreases rows.len() - i,
                {
                    metrics.push_link(measurements, i);
                    proof {
                        seqs::lemma_flat_map_step(rows, traffic, i as int);
                        seqs::lemma_flat_map_step(rows, power_states, i as int);
                    }
                    i += 1;
                }
                proof {
                    seqs::lemma_flat_map_ends(rows, traffic);
                    seqs::lemma_flat_map_ends(rows, power_states);
                    assert(metrics.links@ =~= rows.map_values(
                        |row: UpiRow|
                            interconnect::frequency_of_link(
                                row.0,
                                counted_of(row, UpiEventKind::Clockticks),
                            ),
                    ));
                }
                Ok(metrics)
            },
        }
    }
}

/// The bus of a die.
#[derive(Clone, Copy, Debug, PartialEq, Eq, Structural)]
pub struct UpiBusScope {
    pub bus: PciBus,
    pub scope: UncoreScope,
}

/// The place of a die in the order by package, die group and die.
pub open spec fn die_place(scope: UncoreScope) -> int {
    (scope.package_id * 0x1_0000_0000 + scope.die_group_id) * 0x1_0000_0000 + scope.die_id
}

impl Ranked for UpiBusScope {
    open spec fn place(self) -> int {
        die_place(self.scope) * 0x100_0000 + self.bus.rank()
    }

    fn not_after(&self, other: &Self) -> (result: bool) {
        let a = self.scope;
        let b = other.scope;
        if a.package_id != b.package_id {
            a.package_id < b.package_id
        } else if a.die_group_id != b.die_group_id {
            a.die_group_id < b.die_group_id
        } else if a.die_id != b.die_id {
            a.die_id < b.die_id
        } else {
            self.bus.not_after(&other.bus)
        }
    }
}

impl Kin for UpiBusScope {
    open spec fn family(self) -> int {
        die_place(self.scope)
    }

    fn is_kin(&self, other: &Self) -> (result: bool) {
        self.scope == other.scope
    }
}

/// The scope of the first of the first `n` leaders that has the given die number.
pub open spec fn scope_with_die(leaders: Seq<Leader<UncoreScope>>, die_id: u32, n: nat) -> Option<
    UncoreScope,
>
    decreases n,
{
    if n == 0 {
        None
    } else {
        match scope_with_die(leaders, die_id, (n - 1) as nat) {
            Some(scope) => Some(scope),
            None => if leaders[n - 1].scope.die_id == die_id {
                Some(leaders[n - 1].scope)
            } else {
                None
            },
        }
    }
}

/// The scope of the first of the first `n` leaders that has the given package number.
pub open spec fn scope_with_package(
    leaders: Seq<Leader<UncoreScope>>,
    package_id: u32,
    n: nat,
) -> Option<UncoreScope>
    decreases n,
{
    if n == 0 {
        None
    } else {
        match scope_with_package(leaders, package_id, (n - 1) as nat) {
            Some(scope) => Some(scope),
            None => if leaders[n - 1].scope.package_id == package_id {
                Some(leaders[n - 1].scope)
            } else {
                None
            },
        }
    }
}

/// The scope that a logical number stands for: the die with that number, else the package.
pub open spec fn scope_of_logical_id(leaders: Seq<Leader<UncoreScope>>, logical_id: u32) -> Option<
    UncoreScope,
> {
    match scope_with_die(leaders, logical_id, leaders.len()) {
        Some(scope) => Some(scope),
        None => scope_with_package(leaders, logical_id, leaders.len()),
    }
}

proof fn lemma_die_stays(leaders: Seq<Leader<UncoreScope>>, die_id: u32, n: nat, m: nat)
    requires
        n <= m,
        scope_with_die(leaders, die_id, n) is Some,
    ensures
        scope_with_die(leaders, die_id, m) == scope_with_die(leaders, die_id, n),
    decreases m,
{
    if n < m {
        lemma_die_stays(leaders, die_id, n, (m - 1) as nat);
    }
}

/// The scope that a logical number stands for.
pub fn leader_scope_for_logical_id(leaders: &Vec<Leader<UncoreScope>>, logical_id: u32) -> (scope:
    Option<UncoreScope>)
    ensures
        scope == scope_of_logical_id(leaders@, logical_id),
{
    let mut package: Option<UncoreScope> = None;
    let mut i: usize = 0;
    while i < leaders.len()
        invariant
            i <= leaders@.len(),
            scope_with_die(leaders@, logical_id, i as nat) is None,
            package == scope_with_package(leaders@, logical_id, i as nat),
        decreases leaders@.len() - i,
    {
        let scope: UncoreScope = leaders[i].scope;
        if scope.die_id == logical_id {
            proof {
                lemma_die_stays(leaders@, logical_id, (i + 1) as nat, leaders@.len());
            }
            return Some(scope);
        }
        if package.is_none() && scope.package_id == logical_id {
            package = Some(scope);
        }
        i += 1;
    }
    package
}

/// The buses that the first `n` sockets tell, or the first socket that tells none: its node number
/// is not in its mapping, or the logical number has no scope.
pub open spec fn told_buses(
    architecture: UpiArchitecture,
    leaders: Seq<Leader<UncoreScope>>,
    nodes: Seq<UboxNode>,
    n: nat,
) -> Result<Seq<UpiBusScope>, CollectorError>
    decreases n,
{
    if n == 0 {
        Ok(Seq::empty())
    } else {
        let node = nodes[n - 1];
        match told_buses(architecture, leaders, nodes, (n - 1) as nat) {
            Ok(before) => match sockets::package_of(node) {
                Some(logical_id) => match scope_of_logical_id(leaders, logical_id) {
                    Some(scope) => Ok(before.push(UpiBusScope { bus: node.location.on(), scope })),
                    None => Err(
                        CollectorError::UnmappedLogicalId {
                            unit: name_of(architecture),
                            logical_id,
                        },
                    ),
                },
                None => Err(
                    CollectorError::UnmappedNode {
                        unit: name_of(architecture),
                        local_node_id: node.local_node_word % 8,
                        node_mapping: node.node_mapping,
                        location: node.location,
                    },
                ),
            },
            Err(error) => Err(error),
        }
    }
}

proof fn lemma_untold_stays(
    architecture: UpiArchitecture,
    leaders: Seq<Leader<UncoreScope>>,
    nodes: Seq<UboxNode>,
    n: nat,
    m: nat,
)
    requires
        n <= m,
        told_buses(architecture, leaders, nodes, n) is Err,
    ensures
        told_buses(architecture, leaders, nodes, m) == told_buses(architecture, leaders, nodes, n),
    decreases m,
{
    if n < m {
        lemma_untold_stays(architecture, leaders, nodes, n, (m - 1) as nat);
    }
}

proof fn lemma_untold_error(
    architecture: UpiArchitecture,
    leaders: Seq<Leader<UncoreScope>>,
    nodes: Seq<UboxNode>,
    n: nat,
)
    ensures
        told_buses(architecture, leaders, nodes, n) matches Err(error) ==> error
            is UnmappedLogicalId || error is UnmappedNode,
    decreases n,
{
    if n > 0 {
        lemma_untold_error(architecture, leaders, nodes, (n - 1) as nat);
    }
}

fn buses_told(
    architecture: UpiArchitecture,
    leaders: &Vec<Leader<UncoreScope>>,
    nodes: &Vec<UboxNode>,
) -> (result: Result<Vec<UpiBusScope>, CollectorError>)
    ensures
        match told_buses(architecture, leaders@, nodes@, nodes@.len()) {
            Ok(buses) => result matches Ok(list) && list@ == buses,
            Err(error) => result matches Err(e) && e == error,
        },
{
    let mut list: Vec<UpiBusScope> = Vec::new();
    let mut i: usize = 0;
    while i < nodes.len()
        invariant
            i <= nodes@.len(),
            told_buses(architecture, leaders@, nodes@, i as nat) == Ok::<
                Seq<UpiBusScope>,
                CollectorError,
            >(list@),
        decreases nodes@.len() - i,
    {
        let node = nodes[i];
        let told: Result<UncoreScope, CollectorError> = match node.package_index() {
            Some(logical_id) => match leader_scope_for_logical_id(leaders, logical_id) {
                Some(scope) => Ok(scope),
                None => Err(
                    CollectorError::UnmappedLogicalId { unit: architecture.name(), logical_id },
                ),
            },
            None => Err(
                CollectorError::UnmappedNode {
                    unit: architecture.name(),
                    local_node_id: node.local_node_word % 8,
                    node_mapping: node.node_mapping,
                    location: node.location,
                },
            ),
        };
        match told {
            Ok(scope) => {
                list.push(UpiBusScope { bus: node.location.pci_bus(), scope });
            },
            Err(error) => {
                proof {
                    lemma_untold_stays(
                        architecture,
                        leaders@,
                        nodes@,
                        (i + 1) as nat,
                        nodes@.len(),
                    );
                }
                return Err(error);
            },
        }
        i += 1;
    }
    Ok(list)
}

/// Buses and leaders paired in order, as far as both go.
pub open spec fn paired(leaders: Seq<Leader<UncoreScope>>, buses: Seq<PciBus>) -> Seq<UpiBusScope> {
    let count = if leaders.len() < buses.len() {
        leaders.len()
    } else {
        buses.len()
    };
    Seq::new(count, |i: int| UpiBusScope { bus: buses[i], scope: leaders[i].scope })
}

fn pair(leaders: &Vec<Leader<UncoreScope>>, buses: &Vec<PciBus>) -> (list: Vec<UpiBusScope>)
    ensures
        list@ == paired(leaders@, buses@),
{
    let mut list: Vec<UpiBusScope> = Vec::new();
    let mut i: usize = 0;
    while i < leaders.len() && i < buses.len()
        invariant
            i <= leaders@.len(),
            i <= buses@.len(),
            list@.len() == i,
            forall|k: int|
                0 <= k < i ==> (#[trigger] list@[k]) == (UpiBusScope {
                    bus: buses@[k],
                    scope: leaders@[k].scope,
                }),
        decreases leaders@.len() - i,
    {
        list.push(UpiBusScope { bus: buses[i], scope: leaders[i].scope });
        i += 1;
    }
    assert(list@ =~= paired(leaders@, buses@));
    list
}

/// The buses of the dies: what the sockets tell, where the processor has a device for that, else
/// the buses on which links stand, in order, one for each leader.
pub open spec fn all_buses(
    architecture: UpiArchitecture,
    leaders: Seq<Leader<UncoreScope>>,
    nodes: Seq<UboxNode>,
    devices: Seq<PciVendorDevice>,
) -> Result<Seq<UpiBusScope>, CollectorError> {
    let told = if socket_device(architecture) is Some {
        told_buses(architecture, leaders, nodes, nodes.len())
    } else {
        Ok(Seq::empty())
    };
    match told {
        Ok(told) => Ok(
            if told.len() == 0 {
                paired(
                    leaders,
                    sorting::sorted(
                        sockets::distinct_buses(
                            pci::locations_with_id(devices, link_device(architecture)),
                        ),
                    ),
                )
            } else {
                told
            },
        ),
        Err(error) => Err(error),
    }
}

/// The bus of each die. Of several buses of a die the first one is taken.
pub open spec fn bus_scopes(
    architecture: UpiArchitecture,
    leaders: Seq<Leader<UncoreScope>>,
    nodes: Seq<UboxNode>,
    devices: Seq<PciVendorDevice>,
) -> Result<Seq<UpiBusScope>, CollectorError> {
    match all_buses(architecture, leaders, nodes, devices) {
        Ok(all) => {
            let kept = sorting::without_repeats(sorting::sorted(all));
            if kept.len() == 0 {
                Err(
                    CollectorError::NoneDiscovered {
                        family: name_of(architecture),
                        units: "UPI package buses",
                    },
                )
            } else {
                Ok(kept)
            }
        },
        Err(error) => Err(error),
    }
}

/// Finds the bus of each die.
pub fn upi_bus_scopes(
    architecture: UpiArchitecture,
    leaders: &Vec<Leader<UncoreScope>>,
    nodes: &Vec<UboxNode>,
    devices: &Vec<PciVendorDevice>,
) -> (result: Result<Vec<UpiBusScope>, CollectorError>)
    ensures
        match bus_scopes(architecture, leaders@, nodes@, devices@) {
            Ok(buses) => result matches Ok(list) && list@ == buses,
            Err(error) => result matches Err(e) && e == error,
        },
{
    let told: Vec<UpiBusScope> = if architecture.ubox_device_id().is_some() {
        match buses_told(architecture, leaders, nodes) {
            Ok(told) => told,
            Err(error) => {
                return Err(error);
            },
        }
    } else {
        Vec::new()
    };
    let all: Vec<UpiBusScope> = if told.len() == 0 {
        let locations: Vec<PciLocation> = pci::find_devices(devices, architecture.device_id());
        let buses: Vec<PciBus> = sockets::buses_of(&locations);
        pair(leaders, &sorting::sort(&buses))
    } else {
        told
    };
    let kept: Vec<UpiBusScope> = sorting::drop_repeats(&sorting::sort(&all));
    if kept.len() == 0 {
        Err(
            CollectorError::NoneDiscovered {
                family: architecture.name(),
                units: "UPI package buses",
            },
        )
    } else {
        Ok(kept)
    }
}

/// Whether a die comes before another one by package, die group and die.
pub open spec fn die_precedes(a: UncoreScope, b: UncoreScope) -> bool {
    ||| a.package_id < b.package_id
    ||| a.package_id == b.package_id && a.die_group_id < b.die_group_id
    ||| a.package_id == b.package_id && a.die_group_id == b.die_group_id && a.die_id < b.die_id
}

/// Whether a scope is that of a leader.
pub open spec fn is_led(leaders: Seq<Leader<UncoreScope>>, scope: UncoreScope) -> bool {
    exists|i: int| 0 <= i < leaders.len() && (#[trigger] leaders[i]).scope == scope
}

proof fn lemma_die_is_led(leaders: Seq<Leader<UncoreScope>>, id: u32, n: nat)
    requires
        n <= leaders.len(),
    ensures
        scope_with_die(leaders, id, n) matches Some(scope) ==> is_led(leaders, scope),
        scope_with_package(leaders, id, n) matches Some(scope) ==> is_led(leaders, scope),
    decreases n,
{
    if n > 0 {
        lemma_die_is_led(leaders, id, (n - 1) as nat);
        assert(is_led(leaders, leaders[n - 1].scope));
    }
}

proof fn lemma_told_is_led(
    architecture: UpiArchitecture,
    leaders: Seq<Leader<UncoreScope>>,
    nodes: Seq<UboxNode>,
    n: nat,
)
    requires
        n <= nodes.len(),
    ensures
        told_buses(architecture, leaders, nodes, n) matches Ok(told) ==> forall|i: int|
            0 <= i < told.len() ==> is_led(leaders, (#[trigger] told[i]).scope),
    decreases n,
{
    if n > 0 {
        lemma_told_is_led(architecture, leaders, nodes, (n - 1) as nat);
        match sockets::package_of(nodes[n - 1]) {
            Some(logical_id) => {
                lemma_die_is_led(leaders, logical_id, leaders.len());
            },
            None => {},
        }
    }
}

proof fn lemma_all_are_led(
    architecture: UpiArchitecture,
    leaders: Seq<Leader<UncoreScope>>,
    nodes: Seq<UboxNode>,
    devices: Seq<PciVendorDevice>,
)
    ensures
        all_buses(architecture, leaders, nodes, devices) matches Ok(all) ==> forall|i: int|
            0 <= i < all.len() ==> is_led(leaders, (#[trigger] all[i]).scope),
{
    lemma_told_is_led(architecture, leaders, nodes, nodes.len());
    let found = paired(
        leaders,
        sorting::sorted(
            sockets::distinct_buses(pci::locations_with_id(devices, link_device(architecture))),
        ),
    );
    assert forall|i: int| 0 <= i < found.len() implies is_led(
        leaders,
        (#[trigger] found[i]).scope,
    ) by {
        assert(leaders[i].scope == found[i].scope);
    }
}

proof fn lemma_dies_follow_places()
    ensures
        sorting::families_follow_places::<UpiBusScope>(),
{
    assert forall|a: UpiBusScope, b: UpiBusScope| #[trigger] sorting::follows(a, b) by {
        assert(0 <= a.bus.rank() < 0x100_0000);
        assert(0 <= b.bus.rank() < 0x100_0000);
    }
}

/// The buses that are found are one for each die: the dies ascend strictly by package, die group
/// and die, and each is that of a leader. The bus of a die is the least one of the die among those
/// that the sockets tell or that are paired with the leaders.
pub proof fn buses_are_one_for_each_die(
    architecture: UpiArchitecture,
    leaders: Seq<Leader<UncoreScope>>,
    nodes: Seq<UboxNode>,
    devices: Seq<PciVendorDevice>,
    all: Seq<UpiBusScope>,
    buses: Seq<UpiBusScope>,
)
    requires
        all_buses(architecture, leaders, nodes, devices) == Ok::<
            Seq<UpiBusScope>,
            CollectorError,
        >(all),
        bus_scopes(architecture, leaders, nodes, devices) == Ok::<
            Seq<UpiBusScope>,
            CollectorError,
        >(buses),
    ensures
        forall|i: int, j: int|
            0 <= i < j < buses.len() ==> die_precedes(
                (#[trigger] buses[i]).scope,
                (#[trigger] buses[j]).scope,
            ),
        forall|k: int| 0 <= k < buses.len() ==> is_led(leaders, (#[trigger] buses[k]).scope),
        forall|k: int| 0 <= k < buses.len() ==> all.contains(#[trigger] buses[k]),
        forall|k: int, i: int|
            0 <= k < buses.len() && 0 <= i < all.len() && (#[trigger] buses[k]).scope == (
            #[trigger] all[i]).scope ==> buses[k].bus.rank() <= all[i].bus.rank(),
{
    lemma_dies_follow_places();
    sorting::first_of_each_family_is_kept(all);
    lemma_all_are_led(architecture, leaders, nodes, devices);
    assert forall|i: int, j: int| 0 <= i < j < buses.len() implies die_precedes(
        (#[trigger] buses[i]).scope,
        (#[trigger] buses[j]).scope,
    ) by {
        assert(buses[i].family() < buses[j].family());
    }
    assert forall|k: int| 0 <= k < buses.len() implies is_led(
        leaders,
        (#[trigger] buses[k]).scope,
    ) by {
        assert(all.contains(buses[k]));
    }
    assert forall|k: int, i: int|
        0 <= k < buses.len() && 0 <= i < all.len() && (#[trigger] buses[k]).scope == (
        #[trigger] all[i]).scope implies buses[k].bus.rank() <= all[i].bus.rank() by {
        assert(buses[k].family() == all[i].family());
    }
}

/// No die is lost: every die that the sockets tell, or that is paired with a bus, has a bus.
pub proof fn every_die_has_a_bus(
    architecture: UpiArchitecture,
    leaders: Seq<Leader<UncoreScope>>,
    nodes: Seq<UboxNode>,
    devices: Seq<PciVendorDevice>,
    all: Seq<UpiBusScope>,
    buses: Seq<UpiBusScope>,
    i: int,
) -> (k: int)
    requires
        all_buses(architecture, leaders, nodes, devices) == Ok::<
            Seq<UpiBusScope>,
            CollectorError,
        >(all),
        bus_scopes(architecture, leaders, nodes, devices) == Ok::<
            Seq<UpiBusScope>,
            CollectorError,
        >(buses),
        0 <= i < all.len(),
    ensures
        0 <= k < buses.len(),
        buses[k].scope == all[i].scope,
{
    sorting::every_family_is_kept(all, i)
}

/// What is expected at the address of a link.
pub open spec fn link_spec(architecture: UpiArchitecture, address: LinkAddress) -> PciDeviceSpec {
    PciDeviceSpec {
        device: address.device,
        device_id: link_device(architecture),
        function: address.function,
    }
}

/// Where a link stands on a bus.
pub open spec fn link_place(address: LinkAddress, bus_scope: UpiBusScope) -> LinkPlace {
    LinkPlace {
        location: PciLocation {
            bus: bus_scope.bus.bus,
            device: address.device,
            function: address.function,
            group: bus_scope.bus.group,
        },
        scope: interconnect::link_of(bus_scope.scope, address.link_id),
    }
}

/// Whether the device of a link was found on a bus.
pub open spec fn link_found(
    architecture: UpiArchitecture,
    address: LinkAddress,
    bus: PciBus,
    devices: Seq<PciVendorDevice>,
) -> bool {
    exists|i: int|
        0 <= i < devices.len() && #[trigger] pci::fits_spec(
            devices[i],
            link_spec(architecture, address),
            bus,
        )
}

/// The links at an address on the first `n` buses.
pub open spec fn links_at(
    architecture: UpiArchitecture,
    address: LinkAddress,
    buses: Seq<UpiBusScope>,
    devices: Seq<PciVendorDevice>,
    n: nat,
) -> Seq<LinkPlace>
    decreases n,
{
    if n == 0 {
        Seq::empty()
    } else {
        let before = links_at(architecture, address, buses, devices, (n - 1) as nat);
        if link_found(architecture, address, buses[n - 1].bus, devices) {
            before.push(link_place(address, buses[n - 1]))
        } else {
            before
        }
    }
}

/// The links at all addresses, address by address.
pub open spec fn all_links(
    architecture: UpiArchitecture,
    buses: Seq<UpiBusScope>,
    devices: Seq<PciVendorDevice>,
) -> Seq<LinkPlace> {
    seqs::flat_map(
        addresses(architecture),
        |address: LinkAddress| links_at(architecture, address, buses, devices, buses.len()),
    )
}

/// The links of the processor by package, die group, die and number. It is an error where the
/// buses are not known, and where there is no link.
pub open spec fn discovered(
    architecture: UpiArchitecture,
    leaders: Seq<Leader<UncoreScope>>,
    nodes: Seq<UboxNode>,
    devices: Seq<PciVendorDevice>,
) -> Result<Seq<LinkPlace>, CollectorError> {
    match bus_scopes(architecture, leaders, nodes, devices) {
        Ok(buses) => {
            let links = sorting::sorted(all_links(architecture, buses, devices));
            if links.len() == 0 {
                Err(
                    CollectorError::NoneDiscovered {
                        family: name_of(architecture),
                        units: "UPI links",
                    },
                )
            } else {
                Ok(links)
            }
        },
        Err(error) => Err(error),
    }
}

fn push_links_at(
    links: &mut Vec<LinkPlace>,
    architecture: UpiArchitecture,
    address: LinkAddress,
    buses: &Vec<UpiBusScope>,
    devices: &Vec<PciVendorDevice>,
)
    ensures
        final(links)@ == old(links)@ + links_at(
            architecture,
            address,
            buses@,
            devices@,
            buses@.len(),
        ),
{
    let ghost start = links@;
    let spec = PciDeviceSpec {
        device: address.device,
        device_id: architecture.device_id(),
        function: address.function,
    };
    let mut i: usize = 0;
    assert(links@ =~= start + Seq::<LinkPlace>::empty());
    while i < buses.len()
        invariant
            i <= buses@.len(),
            spec == link_spec(architecture, address),
            links@ == start + links_at(architecture, address, buses@, devices@, i as nat),
        decreases buses@.len() - i,
    {
        match pci::find_on_bus(devices, spec, buses[i].bus) {
            Some(location) => {
                links.push(
                    LinkPlace {
                        location,
                        scope: InterconnectScope::new(buses[i].scope, address.link_id),
                    },
                );
            },
            None => {},
        }
        assert(links@ =~= start + links_at(
            architecture,
            address,
            buses@,
            devices@,
            (i + 1) as nat,
        ));
        i += 1;
    }
}

/// Finds the links of the processor.
pub fn discover_links(
    architecture: UpiArchitecture,
    leaders: &Vec<Leader<UncoreScope>>,
    nodes: &Vec<UboxNode>,
    devices: &Vec<PciVendorDevice>,
) -> (result: Result<Vec<LinkPlace>, CollectorError>)
    ensures
        match discovered(architecture, leaders@, nodes@, devices@) {
            Ok(places) => result matches Ok(list) && list@ == places,
            Err(error) => result matches Err(e) && e == error,
        },
{
    let buses: Vec<UpiBusScope> = match upi_bus_scopes(architecture, leaders, nodes, devices) {
        Ok(buses) => buses,
        Err(error) => {
            return Err(error);
        },
    };
    let table: Vec<LinkAddress> = architecture.link_addresses();
    let ghost f = |address: LinkAddress|
        links_at(architecture, address, buses@, devices@, buses@.len());
    let mut links: Vec<LinkPlace> = Vec::new();
    let mut i: usize = 0;
    proof {
        seqs::lemma_flat_map_ends(table@, f);
    }
    while i < table.len()
        invariant
            i <= table@.len(),
            f == (|address: LinkAddress|
                links_at(architecture, address, buses@, devices@, buses@.len())),
            links@ == seqs::flat_map(table@.take(i as int), f),
        decreases table@.len() - i,
    {
        push_links_at(&mut links, architecture, table[i], &buses, devices);
        proof {
            seqs::lemma_flat_map_step(table@, f, i as int);
        }
        i += 1;
    }
    proof {
        seqs::lemma_flat_map_ends(table@, f);
    }
    let links: Vec<LinkPlace> = sorting::sort(&links);
    if links.len() == 0 {
        Err(CollectorError::NoneDiscovered { family: architecture.name(), units: "UPI links" })
    } else {
        Ok(links)
    }
}

/// Whether `unit` has the registers of a link.
pub open spec fn is_link(
    unit: Unit<InterconnectScope>,
    architecture: UpiArchitecture,
    place: LinkPlace,
) -> bool {
    let location = place.location;
    &&& unit.scope == place.scope
    &&& unit.control == Register::Pci { location, offset: box_control_at(architecture) }
    &&& unit.width == Width::Bits32
    &&& unit.filter is None
    &&& unit.controls@ == Seq::new(
        4,
        |i: int|
            Register::Pci {
                location,
                offset: (controls_at(architecture) + i * stride_of(architecture)) as u64,
            },
    )
    &&& unit.counters@ == Seq::new(
        4,
        |i: int| Register::Pci { location, offset: (counters_at(architecture) + i * 8) as u64 },
    )
    &&& unit.fixed_control is None
    &&& unit.fixed_counter is None
}

fn link(architecture: UpiArchitecture, place: LinkPlace) -> (unit: Unit<InterconnectScope>)
    ensures
        is_link(unit, architecture, place),
{
    let location = place.location;
    let controls: u64 = architecture.control_base();
    let stride: u64 = architecture.control_stride();
    let counters: u64 = architecture.counter_base();
    let unit = Unit {
        scope: place.scope,
        control: Register::Pci { location, offset: architecture.box_control_base() },
        width: Width::Bits32,
        filter: None,
        controls: vec![
            Register::Pci { location, offset: controls },
            Register::Pci { location, offset: controls + stride },
            Register::Pci { location, offset: controls + 2 * stride },
            Register::Pci { location, offset: controls + 3 * stride },
        ],
        counters: vec![
            Register::Pci { location, offset: counters },
            Register::Pci { location, offset: counters + 8 },
            Register::Pci { location, offset: counters + 16 },
            Register::Pci { location, offset: counters + 24 },
        ],
        fixed_control: None,
        fixed_counter: None,
    };
    assert(unit.controls@ =~= Seq::new(
        4,
        |i: int|
            Register::Pci {
                location,
                offset: (controls_at(architecture) + i * stride_of(architecture)) as u64,
            },
    ));
    assert(unit.counters@ =~= Seq::new(
        4,
        |i: int| Register::Pci { location, offset: (counters_at(architecture) + i * 8) as u64 },
    ));
    unit
}

/// Whether `units` are the links at `places`.
pub open spec fn are_links(
    units: Seq<Unit<InterconnectScope>>,
    architecture: UpiArchitecture,
    places: Seq<LinkPlace>,
) -> bool {
    &&& units.len() == places.len()
    &&& forall|i: int|
        0 <= i < places.len() ==> is_link(#[trigger] units[i], architecture, places[i])
}

/// Whether `result` is the collector for a processor.
pub open spec fn created(
    architecture: Architecture,
    topologies: Seq<CpuTopology>,
    nodes: Seq<UboxNode>,
    devices: Seq<PciVendorDevice>,
    result: Result<UpiCollector, CollectorError>,
) -> bool {
    let model = architecture.server_model()->0;
    match family_member(model) {
        None => result matches Err(error) && error == (CollectorError::Unsupported {
            unit: "UPI",
            model,
        }),
        Some(member) => if topology::first_cpus::<UncoreScope>(topologies) is None {
            result matches Err(error) && error == CollectorError::MissingPackageLevel
        } else if topologies.len() == 0 {
            result matches Err(error) && error == (CollectorError::NothingFound {
                what: "uncore scope leaders",
            })
        } else {
            exists|leaders: Seq<Leader<UncoreScope>>|
                {
                    &&& topology::lists_leaders(
                        leaders,
                        topology::first_cpus::<UncoreScope>(topologies)->0,
                    )
                    &&& match #[trigger] discovered(member, leaders, nodes, devices) {
                        Ok(places) => {
                            &&& result matches Ok(collector)
                            &&& collector.wf()
                            &&& collector.architecture() == member
                            &&& collector.next_group() == 0
                            &&& are_links(collector.units(), member, places)
                        },
                        Err(error) => result matches Err(e) && e == error,
                    }
                }
        },
    }
}

/// A processor with UPI links is not refused as unsupported.
pub proof fn members_are_not_refused(
    architecture: Architecture,
    topologies: Seq<CpuTopology>,
    nodes: Seq<UboxNode>,
    devices: Seq<PciVendorDevice>,
    result: Result<UpiCollector, CollectorError>,
)
    requires
        family_member(architecture.server_model()->0) is Some,
        created(architecture, topologies, nodes, devices, result),
    ensures
        !(result matches Err(CollectorError::Unsupported { .. })),
{
    let member = family_member(architecture.server_model()->0)->0;
    assert forall|leaders: Seq<Leader<UncoreScope>>| #[trigger]
        discovered(member, leaders, nodes, devices) is Err implies !(discovered(
        member,
        leaders,
        nodes,
        devices,
    )->Err_0 is Unsupported) by {
        lemma_untold_error(member, leaders, nodes, nodes.len());
    }
}

/// What the counters of the links measured, with the interval of each slice.
pub open spec fn link_samples(
    samples: Seq<Sample<InterconnectScope, UpiEventKind, EventMeasurement>>,
) -> Seq<Sample<InterconnectScope, UpiEventKind, UpiEventMeasurement>> {
    samples.map_values(
        |sample: Sample<InterconnectScope, UpiEventKind, EventMeasurement>|
            Sample {
                scope: sample.scope,
                kind: sample.kind,
                measurement: UpiEventMeasurement {
                    enabled_nanos: sample.measurement.enabled_nanos,
                    running_nanos: sample.measurement.running_nanos,
                    value: sample.measurement.value,
                },
            },
    )
}

/// The measurements after a slice was added; nothing where a total does not fit.
pub open spec fn recorded(
    units: Seq<Unit<InterconnectScope>>,
    readings: SliceReadings,
    group: UpiEventGroup,
    grid: Grid<InterconnectScope, UpiEventKind, UpiEventMeasurement>,
) -> Option<Grid<InterconnectScope, UpiEventKind, UpiEventMeasurement>> {
    accumulator::accumulated(
        grid,
        link_samples(
            units::unit_samples(
                units,
                readings.values@,
                counter_kinds(group),
                readings.enabled_nanos,
                readings.running_nanos,
            ),
        ),
    )
}

/// Samples the UPI links of a processor.
#[derive(Debug)]
pub struct UpiCollector {
    architecture: UpiArchitecture,
    links: Vec<Unit<InterconnectScope>>,
    next_group: usize,
}

impl UpiCollector {
    /// The processor.
    pub closed spec fn architecture(self) -> UpiArchitecture {
        self.architecture
    }

    /// The links whose counters are read.
    pub closed spec fn units(self) -> Seq<Unit<InterconnectScope>> {
        self.links@
    }

    /// The group that goes first in the next sample.
    pub closed spec fn next_group(self) -> usize {
        self.next_group
    }

    /// The invariant: the next group is one of the groups, and every link has the counters that a
    /// group uses.
    pub open spec fn wf(self) -> bool {
        &&& self.next_group() < groups(self.architecture()).len()
        &&& units::units_have(self.units(), 4)
    }

    /// A collector for the processor.
    pub fn new(
        architecture: &Architecture,
        topologies: &Vec<CpuTopology>,
        nodes: &Vec<UboxNode>,
        devices: &Vec<PciVendorDevice>,
    ) -> (result: Result<Self, CollectorError>)
        requires
            architecture.server_model() is Some,
        ensures
            created(*architecture, topologies@, nodes@, devices@, result),
    {
        let model = architecture.intel_server_model();
        let member = match UpiArchitecture::from_model(model) {
            Some(member) => member,
            None => {
                return Err(CollectorError::Unsupported { unit: "UPI", model });
            },
        };
        let leaders: Vec<Leader<UncoreScope>> = match topology::leaders_in_order::<UncoreScope>(
            topologies,
        ) {
            Ok(leaders) => leaders,
            Err(error) => {
                return Err(error);
            },
        };
        if leaders.len() == 0 {
            return Err(CollectorError::NothingFound { what: "uncore scope leaders" });
        }
        let places: Vec<LinkPlace> = match discover_links(member, &leaders, nodes, devices) {
            Ok(places) => places,
            Err(error) => {
                return Err(error);
            },
        };
        let mut links: Vec<Unit<InterconnectScope>> = Vec::new();
        let mut i: usize = 0;
        while i < places.len()
            invariant
                i <= places@.len(),
                links@.len() == i,
                forall|k: int| 0 <= k < i ==> is_link(#[trigger] links@[k], member, places@[k]),
            decreases places@.len() - i,
        {
            links.push(link(member, places[i]));
            i += 1;
        }
        Ok(UpiCollector { architecture: member, links, next_group: 0 })
    }

    /// A collector for given links.
    pub fn from_units(architecture: UpiArchitecture, links: Vec<Unit<InterconnectScope>>) -> (
        collector: Self)
        requires
            units::units_have(links@, 4),
        ensures
            collector.wf(),
            collector.architecture() == architecture,
            collector.units() == links@,
            collector.next_group() == 0,
    {
        UpiCollector { architecture, links, next_group: 0 }
    }

    /// Makes the next group in cyclic order go first.
    pub fn rotate_group(&mut self)
        requires
            old(self).wf(),
        ensures
            final(self).wf(),
            final(self).next_group() == (
                old(self).next_group() + 1
            ) % groups(old(self).architecture()).len() as int,
            final(self).units() == old(self).units(),
            final(self).architecture() == old(self).architecture(),
    {
        self.next_group = schedule::rotate(
            self.next_group,
            self.architecture.event_groups().len(),
        );
    }

    /// The slices of a sample over an interval, one for each group; an error over no time.
    pub fn begin_sample(&self, interval_nanos: u128) -> (result: Result<
        Vec<Slice<UpiEventGroup>>,
        CollectorError,
    >)
        requires
            self.wf(),
        ensures
            if interval_nanos == 0 {
                result matches Err(error) && error == (CollectorError::ZeroInterval {
                    unit: unit_name(self.architecture()),
                })
            } else {
                result matches Ok(slices) && schedule::is_schedule(
                    slices@,
                    groups(self.architecture()),
                    self.next_group() as int,
                    interval_nanos,
                    1,
                )
            },
    {
        if interval_nanos == 0 {
            return Err(CollectorError::ZeroInterval { unit: self.architecture.unit_text() });
        }
        let table: Vec<UpiEventGroup> = self.architecture.event_groups();
        Ok(schedule::schedule_rounds(&table, self.next_group, interval_nanos, 1))
    }

    /// Freezes and resets the counters of all links and then selects the events of a group.
    pub fn program_writes(&self, group: UpiEventGroup) -> (writes: Vec<RegisterWrite>)
        requires
            self.wf(),
        ensures
            writes@ == units::all_control_writes(
                self.units(),
                seq![reset_word(self.architecture())],
            ) + units::all_program_writes(
                self.units(),
                control_words(self.architecture(), group),
                0,
            ),
    {
        let reset: Vec<u64> = vec![self.architecture.unit_freeze_and_reset()];
        assert(reset@ =~= seq![reset_word(self.architecture())]);
        let mut writes: Vec<RegisterWrite> = units::write_controls(&self.links, &reset);
        let mut events: Vec<RegisterWrite> = units::write_events(
            &self.links,
            &group.controls(self.architecture),
            0,
        );
        writes.append(&mut events);
        writes
    }

    /// Releases the counters of all links.
    pub fn unfreeze_writes(&self) -> (writes: Vec<RegisterWrite>)
        ensures
            writes@ == units::all_control_writes(
                self.units(),
                seq![unfreeze_word(self.architecture())],
            ),
    {
        let words: Vec<u64> = vec![self.architecture.unit_unfreeze()];
        assert(words@ =~= seq![unfreeze_word(self.architecture())]);
        units::write_controls(&self.links, &words)
    }

    /// Freezes the counters of all links.
    pub fn freeze_writes(&self) -> (writes: Vec<RegisterWrite>)
        ensures
            writes@ == units::all_control_writes(
                self.units(),
                seq![freeze_word(self.architecture())],
            ),
    {
        let words: Vec<u64> = vec![self.architecture.unit_freeze()];
        assert(words@ =~= seq![freeze_word(self.architecture())]);
        units::write_controls(&self.links, &words)
    }

    /// Shows that the links can be written: setting up the collector freezes them, and it cannot be
    /// used where one of these writes is refused.
    pub fn probe_writes(&self) -> (writes: Vec<RegisterWrite>)
        ensures
            writes@ == units::all_control_writes(
                self.units(),
                seq![freeze_word(self.architecture())],
            ),
    {
        self.freeze_writes()
    }

    /// Reads the counters of all links.
    pub fn reads(&self) -> (reads: Vec<RegisterRead>)
        requires
            self.wf(),
        ensures
            reads@ == units::all_reads(self.units(), units::every_counter(4)),
    {
        units::reads(&self.links, &units::all_used(4))
    }

    /// Adds what a slice counted to the measurements, counter by counter.
    pub fn record(
        &self,
        group: UpiEventGroup,
        readings: &SliceReadings,
        measurements: UpiMeasurementAccumulator,
    ) -> (result: Result<UpiMeasurementAccumulator, CollectorError>)
        requires
            measurements.wf(),
        ensures
            if readings.values@.len() == self.units().len() * 4 {
                match result {
                    Ok(after) => after.wf() && recorded(
                        self.units(),
                        *readings,
                        group,
                        measurements.grid(),
                    ) == Some(after.grid()),
                    Err(error) => error == CollectorError::Overflow && recorded(
                        self.units(),
                        *readings,
                        group,
                        measurements.grid(),
                    ) is None,
                }
            } else {
                result matches Err(error) && error == (CollectorError::ReadingCount {
                    expected: 4,
                    found: readings.values@.len() as usize,
                })
            },
    {
        let samples = match units::samples_by_unit(&self.links, readings, &group.kinds()) {
            Ok(samples) => samples,
            Err(error) => {
                return Err(error);
            },
        };
        let mut list: Vec<Sample<InterconnectScope, UpiEventKind, UpiEventMeasurement>> =
            Vec::new();
        let mut i: usize = 0;
        while i < samples.len()
            invariant
                i <= samples@.len(),
                list@.len() == i,
                forall|k: int| 0 <= k < i ==> (#[trigger] list@[k]) == link_samples(samples@)[k],
            decreases samples@.len() - i,
        {
            let sample = samples[i];
            list.push(
                Sample {
                    scope: sample.scope,
                    kind: sample.kind,
                    measurement: UpiEventMeasurement {
                        enabled_nanos: sample.measurement.enabled_nanos,
                        running_nanos: sample.measurement.running_nanos,
                        value: sample.measurement.value,
                    },
                },
            );
            i += 1;
        }
        assert(list@ =~= link_samples(samples@));
        match measurements.extend(&list) {
            Ok(after) => Ok(after),
            Err(_) => Err(CollectorError::Overflow),
        }
    }

    /// Ends a sample: the next group goes first in the next one, and the measurements are
    /// reported.
    pub fn finish_sample(&mut self, measurements: &UpiMeasurementAccumulator) -> (result: Result<
        UpiMetrics,
        CollectorError,
    >)
        requires
            old(self).wf(),
            measurements.wf(),
        ensures
            final(self).wf(),
            final(self).next_group() == (old(self).next_group() + 1) % groups(
                old(self).architecture(),
            ).len() as int,
            final(self).units() == old(self).units(),
            final(self).architecture() == old(self).architecture(),
            reported(measurements.rows(), result),
    {
        self.rotate_group();
        UpiMetrics::from_measurements(measurements)
    }
}

/// Recording a slice extends the measurements of the links by what its counters count.
pub proof fn record_extends(
    units: Seq<Unit<InterconnectScope>>,
    readings: SliceReadings,
    group: UpiEventGroup,
    before: Grid<InterconnectScope, UpiEventKind, UpiEventMeasurement>,
    after: Grid<InterconnectScope, UpiEventKind, UpiEventMeasurement>,
)
    requires
        recorded(units, readings, group, before) == Some(after),
    ensures
        completeness::extends(
            before,
            after,
            |scope: InterconnectScope| units::has_scope(units, scope),
            |kind: UpiEventKind| completeness::occurs_in(counter_kinds(group), kind),
        ),
{
    let samples = units::unit_samples(
        units,
        readings.values@,
        counter_kinds(group),
        readings.enabled_nanos,
        readings.running_nanos,
    );
    let converted = link_samples(samples);
    assert forall|scope: InterconnectScope, kind: UpiEventKind|
        (#[trigger] units::cell(after, scope, kind)) is Some <==> units::cell(
            before,
            scope,
            kind,
        ) is Some || (units::has_scope(units, scope) && completeness::occurs_in(
            counter_kinds(group),
            kind,
        )) by {
        completeness::accumulation_extends(before, converted, scope, kind);
        if kind.is_counted() {
            completeness::lemma_samples_of_units(
                units,
                readings.values@,
                counter_kinds(group),
                readings.enabled_nanos,
                readings.running_nanos,
                scope,
                kind,
            );
        }
        if completeness::sampled(samples, scope, kind) {
            let i = choose|i: int|
                0 <= i < samples.len() && (#[trigger] samples[i]).scope == scope
                    && samples[i].kind == kind;
            assert(converted[i].scope == scope && converted[i].kind == kind);
        }
        if completeness::sampled(converted, scope, kind) {
            let i = choose|i: int|
                0 <= i < converted.len() && (#[trigger] converted[i]).scope == scope
                    && converted[i].kind == kind;
            assert(samples[i].scope == scope && samples[i].kind == kind);
        }
    }
}

proof fn lemma_required_is_counted(architecture: UpiArchitecture, e: int) -> (group: int)
    requires
        0 <= e < required_events().len(),
    ensures
        0 <= group < groups(architecture).len(),
        completeness::occurs_in(counter_kinds(groups(architecture)[group]), required_events()[e]),
{
    if e == 0 {
        assert(counter_kinds(groups(architecture)[0])[0] == Some(UpiEventKind::Clockticks));
        0
    } else if e == 1 {
        assert(counter_kinds(groups(architecture)[0])[1] == Some(UpiEventKind::TxDataFlits));
        0
    } else if e == 2 {
        assert(counter_kinds(groups(architecture)[1])[0] == Some(UpiEventKind::TxNonDataFlits));
        1
    } else if e == 3 {
        assert(counter_kinds(groups(architecture)[0])[2] == Some(UpiEventKind::RxDataFlits));
        0
    } else if e == 4 {
        assert(counter_kinds(groups(architecture)[1])[1] == Some(UpiEventKind::RxNonDataFlits));
        1
    } else {
        assert(counter_kinds(groups(architecture)[0])[3] == Some(UpiEventKind::L1PowerCycles));
        0
    }
}

proof fn lemma_required_has_slice(
    architecture: UpiArchitecture,
    next_group: int,
    interval_nanos: u128,
    slices: Seq<Slice<UpiEventGroup>>,
    e: int,
) -> (slice: int)
    requires
        0 <= next_group < groups(architecture).len(),
        schedule::is_schedule(slices, groups(architecture), next_group, interval_nanos, 1),
        0 <= e < required_events().len(),
    ensures
        0 <= slice < slices.len(),
        completeness::occurs_in(counter_kinds(slices[slice].group), required_events()[e]),
{
    let group = lemma_required_is_counted(architecture, e);
    completeness::schedule_runs_group(
        slices,
        groups(architecture),
        next_group,
        interval_nanos,
        1,
        group,
    )
}

/// A sample that ran all of its slices is reported: no event that a report needs is missing, and
/// every link is in it.
#[verifier::spinoff_prover]
pub proof fn complete_sample_is_reported(
    collector: UpiCollector,
    interval_nanos: u128,
    slices: Seq<Slice<UpiEventGroup>>,
    readings: Seq<SliceReadings>,
    steps: Seq<UpiMeasurementAccumulator>,
    result: Result<UpiMetrics, CollectorError>,
)
    requires
        collector.wf(),
        schedule::is_schedule(
            slices,
            groups(collector.architecture()),
            collector.next_group() as int,
            interval_nanos,
            1,
        ),
        steps.len() == slices.len() + 1,
        steps.last().wf(),
        steps[0].grid() == Map::<
            InterconnectScope,
            Map<UpiEventKind, UpiEventMeasurement>,
        >::empty(),
        forall|i: int|
            0 <= i < slices.len() ==> recorded(
                collector.units(),
                readings[i],
                (#[trigger] slices[i]).group,
                steps[i].grid(),
            ) == Some(steps[i + 1].grid()),
        reported(steps.last().rows(), result),
    ensures
        result is Ok,
        forall|scope: InterconnectScope|
            steps.last().grid().contains_key(scope) <==> #[trigger] units::has_scope(
                collector.units(),
                scope,
            ),
{
    let grids = steps.map_values(|step: UpiMeasurementAccumulator| step.grid());
    let scopes = |scope: InterconnectScope| units::has_scope(collector.units(), scope);
    let counted = |i: int, kind: UpiEventKind|
        completeness::occurs_in(counter_kinds(slices[i].group), kind);
    assert forall|i: int| 0 <= i < grids.len() - 1 implies completeness::extends(
        #[trigger] grids[i],
        grids[i + 1],
        scopes,
        |kind: UpiEventKind| counted(i, kind),
    ) by {
        record_extends(
            collector.units(),
            readings[i],
            slices[i].group,
            steps[i].grid(),
            steps[i + 1].grid(),
        );
    }
    assert forall|e: int| 0 <= e < required_events().len() implies exists|i: int|
        0 <= i < grids.len() - 1 && #[trigger] counted(i, #[trigger] required_events()[e]) by {
        let i = lemma_required_has_slice(
            collector.architecture(),
            collector.next_group() as int,
            interval_nanos,
            slices,
            e,
        );
        assert(counted(i, required_events()[e]));
    }
    completeness::complete_course_has_no_gap(
        steps.last(),
        grids,
        scopes,
        counted,
        required_events(),
    );
    assert forall|scope: InterconnectScope|
        steps.last().grid().contains_key(scope) <==> #[trigger] units::has_scope(
            collector.units(),
            scope,
        ) by {
        assert(scopes(scope) == units::has_scope(collector.units(), scope));
    }
}

} // verus!
