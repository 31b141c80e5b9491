//! The QPI links of Sandy Bridge-EP, Ivy Bridge-EP, Haswell and Broadwell processors.
use crate::accumulator::{self, Accumulator, EventKind, EventMeasurement, Grid, Overflow, Sample};
use crate::arch::{Architecture, IntelServerCpuModel};
use crate::completeness;
use crate::error::CollectorError;
use crate::metrics::interconnect::{
    self, InterconnectDirection, InterconnectLinkMetrics, InterconnectPowerState,
    InterconnectPowerStateMetrics, InterconnectQueueMetrics, InterconnectScope,
    InterconnectTrafficClass, InterconnectTrafficMetrics, LinkPlace,
};
use crate::ordered_map::Key;
use crate::pci::{self, PciBus, PciLocation, PciVendorDevice};
use crate::quantity::{self, ScaledCount};
use crate::registers::{self, Register, RegisterRead, RegisterWrite, Width};
use crate::schedule::{self, Slice};
use crate::seqs;
use crate::sockets::{self, UboxNode};
use crate::sorting::{self, Kin, Ranked};
use crate::topology::{self, CpuTopology, UncoreScope};
use crate::units::{self, SliceReadings, Unit};
use vstd::prelude::*;

verus! {

/// Where the counters are.
pub const COUNTERS: [u64; 4] = [0xa0, 0xa8, 0xb0, 0xb8];

/// Where the events of the counters are selected.
pub const COUNTER_CONTROLS: [u64; 4] = [0xd8, 0xdc, 0xe0, 0xe4];

/// Where the unit of a link is frozen, reset and released.
pub const UNIT_CONTROL: u64 = 0xf4;

/// The bytes of payload that a data flit carries.
pub const BYTES_PER_FLIT: u64 = 8;

/// The control word of a counter that resets and enables it and selects from the extended events.
pub const COUNT_EXTENDED: u64 = 0x62_0000;

/// A processor with QPI links.
#[derive(Clone, Copy, Debug, PartialEq, Eq, Structural)]
pub enum QpiArchitecture {
    Bdx,
    Hsx,
    Ivb,
    Snb,
}

/// The processor with QPI links that a model is.
pub open spec fn family_member(model: IntelServerCpuModel) -> Option<QpiArchitecture> {
    match model {
        IntelServerCpuModel::BroadwellXeon => Some(QpiArchitecture::Bdx),
        IntelServerCpuModel::HaswellXeon => Some(QpiArchitecture::Hsx),
        IntelServerCpuModel::IvyTown => Some(QpiArchitecture::Ivb),
        IntelServerCpuModel::SandyBridgeEp => Some(QpiArchitecture::Snb),
        _ => None,
    }
}

/// The name of the processor.
pub open spec fn name_of(architecture: QpiArchitecture) -> &'static str {
    match architecture {
        QpiArchitecture::Bdx => "Broadwell Xeon",
        QpiArchitecture::Hsx => "Haswell Xeon",
        QpiArchitecture::Ivb => "Ivy Bridge-EP",
        QpiArchitecture::Snb => "Sandy Bridge-EP",
    }
}

/// What the collector is called in an error.
pub open spec fn unit_name(architecture: QpiArchitecture) -> &'static str {
    match architecture {
        QpiArchitecture::Bdx => "Broadwell Xeon QPI",
        QpiArchitecture::Hsx => "Haswell Xeon QPI",
        QpiArchitecture::Ivb => "Ivy Bridge-EP QPI",
        QpiArchitecture::Snb => "Sandy Bridge-EP QPI",
    }
}

/// The device id of the device that tells the node number of a socket.
pub open spec fn socket_device(architecture: QpiArchitecture) -> u16 {
    match architecture {
        QpiArchitecture::Bdx => 0x6f1e,
        QpiArchitecture::Hsx => 0x2f1e,
        QpiArchitecture::Ivb => 0x0e1e,
        QpiArchitecture::Snb => 0x3ce0,
    }
}

/// Releases the counters of a link. The bit that lets them be frozen stays set; Ivy Bridge does
/// not have it.
pub open spec fn unfreeze_word(architecture: QpiArchitecture) -> u64 {
    match architecture {
        QpiArchitecture::Ivb => 0,
        QpiArchitecture::Bdx | QpiArchitecture::Hsx | QpiArchitecture::Snb => 0x1_0000,
    }
}

/// Freezes the counters of a link.
pub open spec fn freeze_word(architecture: QpiArchitecture) -> u64 {
    match architecture {
        QpiArchitecture::Ivb => 0x100,
        QpiArchitecture::Bdx | QpiArchitecture::Hsx | QpiArchitecture::Snb => 0x1_0100,
    }
}

/// Freezes the counters of a link and resets its counters and event selections.
pub open spec fn reset_word(architecture: QpiArchitecture) -> u64 {
    match architecture {
        QpiArchitecture::Ivb => 0x103,
        QpiArchitecture::Bdx | QpiArchitecture::Hsx | QpiArchitecture::Snb => 0x1_0103,
    }
}

/// The device ids of the links, each with the number of the link.
pub open spec fn link_devices(architecture: QpiArchitecture) -> Seq<(u16, u32)> {
    match architecture {
        QpiArchitecture::Bdx => seq![(0x6f32, 0), (0x6f33, 1), (0x6f3a, 2)],
        QpiArchitecture::Hsx => seq![(0x2f32, 0), (0x2f33, 1), (0x2f3a, 2)],
        QpiArchitecture::Ivb => seq![(0x0e32, 0), (0x0e33, 1), (0x0e3a, 2)],
        QpiArchitecture::Snb => seq![(0x3c41, 0), (0x3c42, 1)],
    }
}

/// The event groups, in the order in which they take turns.
pub open spec fn groups(architecture: QpiArchitecture) -> Seq<QpiEventGroup> {
    match architecture {
        QpiArchitecture::Bdx | QpiArchitecture::Hsx => seq![
            QpiEventGroup {
                events: [
                    event_of(QpiEventKind::Clockticks, 0x14, 0x00, false),
                    event_of(QpiEventKind::TxDataFlits, 0x00, 0x02, false),
                    event_of(QpiEventKind::TxNonDataFlits, 0x00, 0x04, false),
                    event_of(QpiEventKind::L1PowerCycles, 0x12, 0x00, false),
                ],
            },
            QpiEventGroup {
                events: [
                    event_of(QpiEventKind::TxQueueInserts, 0x04, 0x00, false),
                    event_of(QpiEventKind::TxQueueOccupancy, 0x07, 0x00, false),
                    event_of(QpiEventKind::RxQueueInserts, 0x08, 0x00, false),
                    event_of(QpiEventKind::RxQueueOccupancy, 0x0b, 0x00, false),
                ],
            },
            QpiEventGroup {
                events: [
                    event_of(QpiEventKind::RxL0pPowerCycles, 0x10, 0x00, false),
                    event_of(QpiEventKind::TxL0pPowerCycles, 0x0d, 0x00, false),
                    no_event(),
                    no_event(),
                ],
            },
            QpiEventGroup {
                events: [
                    event_of(QpiEventKind::RxDataFlits, 0x02, 0x08, true),
                    event_of(QpiEventKind::RxDataFlits, 0x03, 0x04, true),
                    event_of(QpiEventKind::RxNonDataFlits, 0x02, 0x10, true),
                    event_of(QpiEventKind::RxNonDataFlits, 0x03, 0x08, true),
                ],
            },
            QpiEventGroup {
                events: [
                    event_of(QpiEventKind::RxNonDataFlits, 0x02, 0x01, true),
                    event_of(QpiEventKind::RxNonDataFlits, 0x02, 0x06, true),
                    event_of(QpiEventKind::RxNonDataFlits, 0x03, 0x01, true),
                    event_of(QpiEventKind::RxNonDataFlits, 0x03, 0x02, true),
                ],
            },
            QpiEventGroup {
                events: [
                    event_of(QpiEventKind::RxNonDataFlits, 0x03, 0x10, true),
                    no_event(),
                    no_event(),
                    no_event(),
                ],
            },
        ],
        QpiArchitecture::Ivb | QpiArchitecture::Snb => seq![
            QpiEventGroup {
                events: [
                    event_of(QpiEventKind::Clockticks, 0x14, 0x00, false),
                    event_of(QpiEventKind::TxDataFlits, 0x00, 0x02, false),
                    event_of(QpiEventKind::TxNonDataFlits, 0x00, 0x04, false),
                    event_of(QpiEventKind::L1PowerCycles, 0x12, 0x00, false),
                ],
            },
            QpiEventGroup {
                events: [
                    event_of(QpiEventKind::TxQueueInserts, 0x04, 0x00, false),
                    event_of(QpiEventKind::TxQueueOccupancy, 0x07, 0x00, false),
                    event_of(QpiEventKind::RxQueueInserts, 0x08, 0x00, false),
                    event_of(QpiEventKind::RxQueueOccupancy, 0x0b, 0x00, false),
                ],
            },
            QpiEventGroup {
                events: [
                    event_of(QpiEventKind::RxL0pPowerCycles, 0x10, 0x00, false),
                    event_of(QpiEventKind::TxL0pPowerCycles, 0x0d, 0x00, false),
                    no_event(),
                    no_event(),
                ],
            },
            QpiEventGroup {
                events: [
                    event_of(QpiEventKind::RxDataFlits, 0x01, 0x02, false),
                    event_of(QpiEventKind::RxNonDataFlits, 0x01, 0x04, false),
                    no_event(),
                    no_event(),
                ],
            },
            QpiEventGroup {
                events: [
                    event_of(QpiEventKind::RxDataFlits, 0x02, 0x08, true),
                    event_of(QpiEventKind::RxDataFlits, 0x03, 0x04, true),
                    event_of(QpiEventKind::RxNonDataFlits, 0x02, 0x10, true),
                    event_of(QpiEventKind::RxNonDataFlits, 0x03, 0x08, true),
                ],
            },
            QpiEventGroup {
                events: [
                    event_of(QpiEventKind::RxNonDataFlits, 0x02, 0x01, true),
                    event_of(QpiEventKind::RxNonDataFlits, 0x02, 0x06, true),
                    event_of(QpiEventKind::RxNonDataFlits, 0x03, 0x01, true),
                    event_of(QpiEventKind::RxNonDataFlits, 0x03, 0x02, true),
                ],
            },
            QpiEventGroup {
                events: [
                    event_of(QpiEventKind::RxNonDataFlits, 0x03, 0x10, true),
                    no_event(),
                    no_event(),
                    no_event(),
                ],
            },
        ],
    }
}

impl QpiArchitecture {
    /// The processor with QPI links that a model is.
    pub fn from_model(model: IntelServerCpuModel) -> (architecture: Option<Self>)
        ensures
            architecture == family_member(model),
    {
        match model {
            IntelServerCpuModel::BroadwellXeon => Some(QpiArchitecture::Bdx),
            IntelServerCpuModel::HaswellXeon => Some(QpiArchitecture::Hsx),
            IntelServerCpuModel::IvyTown => Some(QpiArchitecture::Ivb),
            IntelServerCpuModel::SandyBridgeEp => Some(QpiArchitecture::Snb),
            _ => None,
        }
    }

    /// The name of the processor.
    pub fn name(self) -> (value: &'static str)
        ensures
            value == name_of(self),
    {
        match self {
            QpiArchitecture::Bdx => "Broadwell Xeon",
            QpiArchitecture::Hsx => "Haswell Xeon",
            QpiArchitecture::Ivb => "Ivy Bridge-EP",
            QpiArchitecture::Snb => "Sandy Bridge-EP",
        }
    }

    /// What the collector is called in an error.
    pub fn unit_text(self) -> (value: &'static str)
        ensures
            value == unit_name(self),
    {
        match self {
            QpiArchitecture::Bdx => "Broadwell Xeon QPI",
            QpiArchitecture::Hsx => "Haswell Xeon QPI",
            QpiArchitecture::Ivb => "Ivy Bridge-EP QPI",
            QpiArchitecture::Snb => "Sandy Bridge-EP QPI",
        }
    }

    /// The device id of the device that tells the node number of a socket.
    pub fn ubox_device_id(self) -> (value: u16)
        ensures
            value == socket_device(self),
    {
        match self {
            QpiArchitecture::Bdx => 0x6f1e,
            QpiArchitecture::Hsx => 0x2f1e,
            QpiArchitecture::Ivb => 0x0e1e,
            QpiArchitecture::Snb => 0x3ce0,
        }
    }

    /// Releases the counters of a link. The bit that lets them be frozen stays set; Ivy Bridge does
    /// not have it.
    pub fn unit_unfreeze(self) -> (value: u64)
        ensures
            value == unfreeze_word(self),
    {
        match self {
            QpiArchitecture::Ivb => 0,
            QpiArchitecture::Bdx | QpiArchitecture::Hsx | QpiArchitecture::Snb => 0x1_0000,
        }
    }

    /// Freezes the counters of a link.
    pub fn unit_freeze(self) -> (value: u64)
        ensures
            value == freeze_word(self),
    {
        match self {
            QpiArchitecture::Ivb => 0x100,
            QpiArchitecture::Bdx | QpiArchitecture::Hsx | QpiArchitecture::Snb => 0x1_0100,
        }
    }

    /// Freezes the counters of a link and resets its counters and event selections.
    pub fn unit_freeze_and_reset(self) -> (value: u64)
        ensures
            value == reset_word(self),
    {
        match self {
            QpiArchitecture::Ivb => 0x103,
            QpiArchitecture::Bdx | QpiArchitecture::Hsx | QpiArchitecture::Snb => 0x1_0103,
        }
    }

    /// The device ids of the links, each with the number of the link.
    pub fn link_device_ids(self) -> (table: Vec<(u16, u32)>)
        ensures
            table@ == link_devices(self),
    {
        match self {
            QpiArchitecture::Bdx => vec![(0x6f32, 0), (0x6f33, 1), (0x6f3a, 2)],
            QpiArchitecture::Hsx => vec![(0x2f32, 0), (0x2f33, 1), (0x2f3a, 2)],
            QpiArchitecture::Ivb => vec![(0x0e32, 0), (0x0e33, 1), (0x0e3a, 2)],
            QpiArchitecture::Snb => vec![(0x3c41, 0), (0x3c42, 1)],
        }
    }

    /// The event groups, in the order in which they take turns.
    pub fn event_groups(self) -> (table: Vec<QpiEventGroup>)
        ensures
            table@ == groups(self),
    {
        match self {
            QpiArchitecture::Bdx | QpiArchitecture::Hsx => vec![
                QpiEventGroup {
                    events: [
                        QpiEventSpec::new(QpiEventKind::Clockticks, 0x14, 0x00, false),
                        QpiEventSpec::new(QpiEventKind::TxDataFlits, 0x00, 0x02, false),
                        QpiEventSpec::new(QpiEventKind::TxNonDataFlits, 0x00, 0x04, false),
                        QpiEventSpec::new(QpiEventKind::L1PowerCycles, 0x12, 0x00, false),
                    ],
                },
                QpiEventGroup {
                    events: [
                        QpiEventSpec::new(QpiEventKind::TxQueueInserts, 0x04, 0x00, false),
                        QpiEventSpec::new(QpiEventKind::TxQueueOccupancy, 0x07, 0x00, false),
                        QpiEventSpec::new(QpiEventKind::RxQueueInserts, 0x08, 0x00, false),
                        QpiEventSpec::new(QpiEventKind::RxQueueOccupancy, 0x0b, 0x00, false),
                    ],
                },
                QpiEventGroup {
                    events: [
                        QpiEventSpec::new(QpiEventKind::RxL0pPowerCycles, 0x10, 0x00, false),
                        QpiEventSpec::new(QpiEventKind::TxL0pPowerCycles, 0x0d, 0x00, false),
                        QpiEventSpec::unused(),
                        QpiEventSpec::unused(),
                    ],
                },
                QpiEventGroup {
                    events: [
                        QpiEventSpec::new(QpiEventKind::RxDataFlits, 0x02, 0x08, true),
                        QpiEventSpec::new(QpiEventKind::RxDataFlits, 0x03, 0x04, true),
                        QpiEventSpec::new(QpiEventKind::RxNonDataFlits, 0x02, 0x10, true),
                        QpiEventSpec::new(QpiEventKind::RxNonDataFlits, 0x03, 0x08, true),
                    ],
                },
                QpiEventGroup {
                    events: [
                        QpiEventSpec::new(QpiEventKind::RxNonDataFlits, 0x02, 0x01, true),
                        QpiEventSpec::new(QpiEventKind::RxNonDataFlits, 0x02, 0x06, true),
                        QpiEventSpec::new(QpiEventKind::RxNonDataFlits, 0x03, 0x01, true),
                        QpiEventSpec::new(QpiEventKind::RxNonDataFlits, 0x03, 0x02, true),
                    ],
                },
                QpiEventGroup {
                    events: [
                        QpiEventSpec::new(QpiEventKind::RxNonDataFlits, 0x03, 0x10, true),
                        QpiEventSpec::unused(),
                        QpiEventSpec::unused(),
                        QpiEventSpec::unused(),
                    ],
                },
            ],
            QpiArchitecture::Ivb | QpiArchitecture::Snb => vec![
                QpiEventGroup {
                    events: [
                        QpiEventSpec::new(QpiEventKind::Clockticks, 0x14, 0x00, false),
                        QpiEventSpec::new(QpiEventKind::TxDataFlits, 0x00, 0x02, false),
                        QpiEventSpec::new(QpiEventKind::TxNonDataFlits, 0x00, 0x04, false),
                        QpiEventSpec::new(QpiEventKind::L1PowerCycles, 0x12, 0x00, false),
                    ],
                },
                QpiEventGroup {
                    events: [
                        QpiEventSpec::new(QpiEventKind::TxQueueInserts, 0x04, 0x00, false),
                        QpiEventSpec::new(QpiEventKind::TxQueueOccupancy, 0x07, 0x00, false),
                        QpiEventSpec::new(QpiEventKind::RxQueueInserts, 0x08, 0x00, false),
                        QpiEventSpec::new(QpiEventKind::RxQueueOccupancy, 0x0b, 0x00, false),
                    ],
                },
                QpiEventGroup {
                    events: [
                        QpiEventSpec::new(QpiEventKind::RxL0pPowerCycles, 0x10, 0x00, false),
                        QpiEventSpec::new(QpiEventKind::TxL0pPowerCycles, 0x0d, 0x00, false),
                        QpiEventSpec::unused(),
                        QpiEventSpec::unused(),
                    ],
                },
                QpiEventGroup {
                    events: [
                        QpiEventSpec::new(QpiEventKind::RxDataFlits, 0x01, 0x02, false),
                        QpiEventSpec::new(QpiEventKind::RxNonDataFlits, 0x01, 0x04, false),
                        QpiEventSpec::unused(),
                        QpiEventSpec::unused(),
                    ],
                },
                QpiEventGroup {
                    events: [
                        QpiEventSpec::new(QpiEventKind::RxDataFlits, 0x02, 0x08, true),
                        QpiEventSpec::new(QpiEventKind::RxDataFlits, 0x03, 0x04, true),
                        QpiEventSpec::new(QpiEventKind::RxNonDataFlits, 0x02, 0x10, true),
                        QpiEventSpec::new(QpiEventKind::RxNonDataFlits, 0x03, 0x08, true),
                    ],
                },
                QpiEventGroup {
                    events: [
                        QpiEventSpec::new(QpiEventKind::RxNonDataFlits, 0x02, 0x01, true),
                        QpiEventSpec::new(QpiEventKind::RxNonDataFlits, 0x02, 0x06, true),
                        QpiEventSpec::new(QpiEventKind::RxNonDataFlits, 0x03, 0x01, true),
                        QpiEventSpec::new(QpiEventKind::RxNonDataFlits, 0x03, 0x02, true),
                    ],
                },
                QpiEventGroup {
                    events: [
                        QpiEventSpec::new(QpiEventKind::RxNonDataFlits, 0x03, 0x10, true),
                        QpiEventSpec::unused(),
                        QpiEventSpec::unused(),
                        QpiEventSpec::unused(),
                    ],
                },
            ],
        }
    }
}

/// What is counted on a link.
#[derive(Clone, Copy, Debug, PartialEq, Eq, Structural)]
pub enum QpiEventKind {
    Clockticks,
    L1PowerCycles,
    RxDataFlits,
    RxL0pPowerCycles,
    RxNonDataFlits,
    RxQueueInserts,
    RxQueueOccupancy,
    TxDataFlits,
    TxL0pPowerCycles,
    TxNonDataFlits,
    TxQueueInserts,
    TxQueueOccupancy,
    Unused,
}

/// The place of an event in the order of the events.
pub open spec fn event_index(kind: QpiEventKind) -> int {
    match kind {
        QpiEventKind::Clockticks => 0,
        QpiEventKind::L1PowerCycles => 1,
        QpiEventKind::RxDataFlits => 2,
        QpiEventKind::RxL0pPowerCycles => 3,
        QpiEventKind::RxNonDataFlits => 4,
        QpiEventKind::RxQueueInserts => 5,
        QpiEventKind::RxQueueOccupancy => 6,
        QpiEventKind::TxDataFlits => 7,
        QpiEventKind::TxL0pPowerCycles => 8,
        QpiEventKind::TxNonDataFlits => 9,
        QpiEventKind::TxQueueInserts => 10,
        QpiEventKind::TxQueueOccupancy => 11,
        QpiEventKind::Unused => 12,
    }
}

/// The name of an event, as it is shown in an error.
pub open spec fn event_name(kind: QpiEventKind) -> &'static str {
    match kind {
        QpiEventKind::Clockticks => "Clockticks",
        QpiEventKind::L1PowerCycles => "L1PowerCycles",
        QpiEventKind::RxDataFlits => "RxDataFlits",
        QpiEventKind::RxL0pPowerCycles => "RxL0pPowerCycles",
        QpiEventKind::RxNonDataFlits => "RxNonDataFlits",
        QpiEventKind::RxQueueInserts => "RxQueueInserts",
        QpiEventKind::RxQueueOccupancy => "RxQueueOccupancy",
        QpiEventKind::TxDataFlits => "TxDataFlits",
        QpiEventKind::TxL0pPowerCycles => "TxL0pPowerCycles",
        QpiEventKind::TxNonDataFlits => "TxNonDataFlits",
        QpiEventKind::TxQueueInserts => "TxQueueInserts",
        QpiEventKind::TxQueueOccupancy => "TxQueueOccupancy",
        QpiEventKind::Unused => "Unused",
    }
}

impl QpiEventKind {
    fn index(self) -> (index: u8)
        ensures
            index == event_index(self),
    {
        match self {
            QpiEventKind::Clockticks => 0,
            QpiEventKind::L1PowerCycles => 1,
            QpiEventKind::RxDataFlits => 2,
            QpiEventKind::RxL0pPowerCycles => 3,
            QpiEventKind::RxNonDataFlits => 4,
            QpiEventKind::RxQueueInserts => 5,
            QpiEventKind::RxQueueOccupancy => 6,
            QpiEventKind::TxDataFlits => 7,
            QpiEventKind::TxL0pPowerCycles => 8,
            QpiEventKind::TxNonDataFlits => 9,
            QpiEventKind::TxQueueInserts => 10,
            QpiEventKind::TxQueueOccupancy => 11,
            QpiEventKind::Unused => 12,
        }
    }

    /// The name of the event, as it is shown in an error.
    pub fn name(self) -> (name: &'static str)
        ensures
            name == event_name(self),
    {
        match self {
            QpiEventKind::Clockticks => "Clockticks",
            QpiEventKind::L1PowerCycles => "L1PowerCycles",
            QpiEventKind::RxDataFlits => "RxDataFlits",
            QpiEventKind::RxL0pPowerCycles => "RxL0pPowerCycles",
            QpiEventKind::RxNonDataFlits => "RxNonDataFlits",
            QpiEventKind::RxQueueInserts => "RxQueueInserts",
            QpiEventKind::RxQueueOccupancy => "RxQueueOccupancy",
            QpiEventKind::TxDataFlits => "TxDataFlits",
            QpiEventKind::TxL0pPowerCycles => "TxL0pPowerCycles",
            QpiEventKind::TxNonDataFlits => "TxNonDataFlits",
            QpiEventKind::TxQueueInserts => "TxQueueInserts",
            QpiEventKind::TxQueueOccupancy => "TxQueueOccupancy",
            QpiEventKind::Unused => "Unused",
        }
    }
}

impl Key for QpiEventKind {
    open spec fn rank(self) -> int {
        event_index(self)
    }

    proof fn rank_injective(a: Self, b: Self) {
    }

    fn precedes(&self, other: &Self) -> (result: bool) {
        self.index() < other.index()
    }
}

impl EventKind for QpiEventKind {
    open spec fn is_counted(self) -> bool {
        self != QpiEventKind::Unused
    }

    fn counts(&self) -> (result: bool) {
        match self {
            QpiEventKind::Unused => false,
            _ => true,
        }
    }
}

/// An event that a counter can count; `ext` says whether it is one of the extended events.
#[derive(Clone, Copy, Debug, PartialEq, Eq, Structural)]
pub struct QpiEventSpec {
    pub event: u8,
    pub ext: bool,
    pub kind: QpiEventKind,
    pub umask: u8,
}

/// An event.
pub open spec fn event_of(kind: QpiEventKind, event: u8, umask: u8, ext: bool) -> QpiEventSpec {
    QpiEventSpec { event, ext, kind, umask }
}

/// No event.
pub open spec fn no_event() -> QpiEventSpec {
    QpiEventSpec { event: 0, ext: false, kind: QpiEventKind::Unused, umask: 0 }
}

impl QpiEventSpec {
    /// An event.
    pub fn new(kind: QpiEventKind, event: u8, umask: u8, ext: bool) -> (spec: Self)
        ensures
            spec == event_of(kind, event, umask, ext),
    {
        QpiEventSpec { event, ext, kind, umask }
    }

    /// No event.
    pub fn unused() -> (spec: Self)
        ensures
            spec == no_event(),
    {
        QpiEventSpec { event: 0, ext: false, kind: QpiEventKind::Unused, umask: 0 }
    }
}

/// The events that the counters of a link count at the same time.
#[derive(Clone, Copy, Debug, PartialEq, Eq)]
pub struct QpiEventGroup {
    pub events: [QpiEventSpec; 4],
}

/// What a counter counts, if anything.
pub open spec fn kind_of(event: QpiEventSpec) -> Option<QpiEventKind> {
    if event.kind == QpiEventKind::Unused {
        None
    } else {
        Some(event.kind)
    }
}

/// The control word of an event: event number, unit mask, reset and enable bits and, for an
/// extended event, the bit that says so; zero without an event.
pub open spec fn control_word(event: QpiEventSpec) -> u64 {
    if event.kind == QpiEventKind::Unused {
        0
    } else if event.ext {
        (event.event + event.umask * 0x100 + COUNT_EXTENDED) as u64
    } else {
        (event.event + event.umask * 0x100 + registers::COUNT) as u64
    }
}

/// What each counter counts while a group is programmed.
pub open spec fn counter_kinds(group: QpiEventGroup) -> Seq<Option<QpiEventKind>> {
    group.events@.map_values(|event: QpiEventSpec| kind_of(event))
}

/// The control words of the counters while a group is programmed.
pub open spec fn control_words(group: QpiEventGroup) -> Seq<Option<u64>> {
    group.events@.map_values(|event: QpiEventSpec| Some(control_word(event)))
}

fn counted_kind(event: QpiEventSpec) -> (kind: Option<QpiEventKind>)
    ensures
        kind == kind_of(event),
{
    match event.kind {
        QpiEventKind::Unused => None,
        kind => Some(kind),
    }
}

/// The control word of an event.
pub fn counter_control(event: QpiEventSpec) -> (word: u64)
    ensures
        word == control_word(event),
{
    let flags: u64 = if event.ext {
        COUNT_EXTENDED
    } else {
        registers::COUNT
    };
    match event.kind {
        QpiEventKind::Unused => 0,
        _ => registers::select_word(event.event, event.umask, flags),
    }
}

impl QpiEventGroup {
    /// What each counter counts.
    pub fn kinds(&self) -> (kinds: Vec<Option<QpiEventKind>>)
        ensures
            kinds@ == counter_kinds(*self),
    {
        let kinds: Vec<Option<QpiEventKind>> = vec![
            counted_kind(self.events[0]),
            counted_kind(self.events[1]),
            counted_kind(self.events[2]),
            counted_kind(self.events[3]),
        ];
        assert(kinds@ =~= counter_kinds(*self));
        kinds
    }

    /// The control words of the counters.
    pub fn controls(&self) -> (words: Vec<Option<u64>>)
        ensures
            words@ == control_words(*self),
    {
        let words: Vec<Option<u64>> = vec![
            Some(counter_control(self.events[0])),
            Some(counter_control(self.events[1])),
            Some(counter_control(self.events[2])),
            Some(counter_control(self.events[3])),
        ];
        assert(words@ =~= control_words(*self));
        words
    }
}

/// What an event counted on a link.
#[derive(Clone, Copy, Debug, PartialEq, Eq, Structural)]
pub struct QpiEventMeasurement {
    pub enabled_nanos: u128,
    pub running_nanos: u128,
    pub value: u64,
}

/// The two counts that are summed when an event is counted in parts: what is held and what is
/// added, each scaled to the interval of what is held.
#[derive(Clone, Copy, Debug, PartialEq, Eq, Structural)]
pub struct SplitCounts {
    pub held: ScaledCount,
    pub added: ScaledCount,
}

/// A measurement to which a part was added: the sum of both scaled counts, over the interval.
pub open spec fn with_part(
    measurement: QpiEventMeasurement,
    held_count: u64,
    added_count: u64,
) -> QpiEventMeasurement {
    QpiEventMeasurement {
        enabled_nanos: measurement.enabled_nanos,
        running_nanos: measurement.enabled_nanos,
        value: (held_count + added_count) as u64,
    }
}

/// The counts that are summed when a part is added.
pub open spec fn counts_of_split(
    measurement: QpiEventMeasurement,
    value: u64,
    running_nanos: u128,
) -> SplitCounts {
    SplitCounts {
        held: ScaledCount {
            value: measurement.value,
            enabled_nanos: measurement.enabled_nanos,
            running_nanos: measurement.running_nanos,
        },
        added: ScaledCount { value, enabled_nanos: measurement.enabled_nanos, running_nanos },
    }
}

impl QpiEventMeasurement {
    /// The counts that are summed when a part is added.
    pub fn split_counts(self, value: u64, running_nanos: u128) -> (counts: SplitCounts)
        ensures
            counts == counts_of_split(self, value, running_nanos),
    {
        SplitCounts {
            held: ScaledCount {
                value: self.value,
                enabled_nanos: self.enabled_nanos,
                running_nanos: self.running_nanos,
            },
            added: ScaledCount { value, enabled_nanos: self.enabled_nanos, running_nanos },
        }
    }

    /// Adds a part, given both counts that are summed; nothing changes where the sum does not fit.
    pub fn add(&mut self, held_count: u64, added_count: u64) -> (result: Result<(), Overflow>)
        ensures
            match result {
                Ok(()) => held_count + added_count <= u64::MAX && *final(self) == with_part(
                    *old(self),
                    held_count,
                    added_count,
                ),
                Err(_) => held_count + added_count > u64::MAX && *final(self) == *old(self),
            },
    {
        match held_count.checked_add(added_count) {
            Some(value) => {
                self.running_nanos = self.enabled_nanos;
                self.value = value;
                Ok(())
            },
            None => Err(Overflow),
        }
    }

    /// The measurement as one without clock ticks.
    pub open spec fn as_event(self) -> EventMeasurement {
        EventMeasurement {
            enabled_nanos: self.enabled_nanos,
            running_nanos: self.running_nanos,
            ticks: 0,
            value: self.value,
        }
    }

    /// The measurement as one without clock ticks.
    pub fn to_event(self) -> (event: EventMeasurement)
        ensures
            event == self.as_event(),
    {
        EventMeasurement {
            enabled_nanos: self.enabled_nanos,
            running_nanos: self.running_nanos,
            ticks: 0,
            value: self.value,
        }
    }
}

/// An event that was counted in parts is reported as if the sum of its scaled counts had been
/// counted over the whole interval.
pub proof fn parts_are_reported_as_one(
    measurement: QpiEventMeasurement,
    held_count: u64,
    added_count: u64,
)
    requires
        held_count + added_count <= u64::MAX,
    ensures
        quantity::event_rate_of(with_part(measurement, held_count, added_count).as_event())
            == quantity::rate_of(
            ScaledCount {
                value: (held_count + added_count) as u64,
                enabled_nanos: measurement.enabled_nanos,
                running_nanos: measurement.enabled_nanos,
            },
            measurement.enabled_nanos,
        ),
{
}

/// A counted value with the link and the event that it belongs to.
pub type QpiSample = Sample<InterconnectScope, QpiEventKind, EventMeasurement>;

/// Measurements of the links by event.
pub type QpiGrid = Grid<InterconnectScope, QpiEventKind, QpiEventMeasurement>;

/// A counted value as a measurement of its own.
pub open spec fn first_part(sample: QpiSample) -> QpiEventMeasurement {
    QpiEventMeasurement {
        enabled_nanos: sample.measurement.enabled_nanos,
        running_nanos: sample.measurement.running_nanos,
        value: sample.measurement.value,
    }
}

/// The measurements after a counted value was added: the first of its link and event is taken as
/// it is, a later one is a part of what is held. A value of a counter that is not used leaves no
/// trace.
pub open spec fn with_sample(
    grid: QpiGrid,
    sample: QpiSample,
    held_count: u64,
    added_count: u64,
) -> QpiGrid {
    if sample.kind == QpiEventKind::Unused {
        grid
    } else {
        accumulator::replaced(
            grid,
            Sample {
                scope: sample.scope,
                kind: sample.kind,
                measurement: match units::cell(grid, sample.scope, sample.kind) {
                    Some(held) => with_part(held, held_count, added_count),
                    None => first_part(sample),
                },
            },
        )
    }
}

/// Whether a counted value can be added: the sum of the counts fits, where one is made.
pub open spec fn addable(
    grid: QpiGrid,
    sample: QpiSample,
    held_count: u64,
    added_count: u64,
) -> bool {
    sample.kind != QpiEventKind::Unused && units::cell(grid, sample.scope, sample.kind) is Some
        ==> held_count + added_count <= u64::MAX
}

/// Adding a counted value leaves what is held of every other link and event as it was.
pub proof fn adding_keeps_other_cells(
    grid: QpiGrid,
    sample: QpiSample,
    held_count: u64,
    added_count: u64,
    scope: InterconnectScope,
    kind: QpiEventKind,
)
    requires
        scope != sample.scope || kind != sample.kind,
    ensures
        units::cell(with_sample(grid, sample, held_count, added_count), scope, kind)
            == units::cell(grid, scope, kind),
{
}

/// Counted values of different links or events can be added in either order.
pub proof fn additions_commute(
    grid: QpiGrid,
    first: QpiSample,
    first_counts: (u64, u64),
    second: QpiSample,
    second_counts: (u64, u64),
)
    requires
        first.scope != second.scope || first.kind != second.kind,
    ensures
        ({
            let one = with_sample(grid, first, first_counts.0, first_counts.1);
            let other = with_sample(grid, second, second_counts.0, second_counts.1);
            &&& addable(one, second, second_counts.0, second_counts.1) == addable(
                grid,
                second,
                second_counts.0,
                second_counts.1,
            )
            &&& with_sample(one, second, second_counts.0, second_counts.1) == with_sample(
                other,
                first,
                first_counts.0,
                first_counts.1,
            )
        }),
{
    let one = with_sample(grid, first, first_counts.0, first_counts.1);
    let other = with_sample(grid, second, second_counts.0, second_counts.1);
    let both = with_sample(one, second, second_counts.0, second_counts.1);
    let swapped = with_sample(other, first, first_counts.0, first_counts.1);
    adding_keeps_other_cells(
        grid,
        first,
        first_counts.0,
        first_counts.1,
        second.scope,
        second.kind,
    );
    adding_keeps_other_cells(
        grid,
        second,
        second_counts.0,
        second_counts.1,
        first.scope,
        first.kind,
    );
    assert forall|scope: InterconnectScope| #[trigger]
        both.contains_key(scope) implies both[scope] =~= swapped[scope] by {
    }
    assert(both =~= swapped);
}

/// Measurements of the links by event, walked in scope order.
#[derive(Debug)]
pub struct QpiMeasurementAccumulator {
    measurements: Accumulator<InterconnectScope, QpiEventKind, QpiEventMeasurement>,
}

impl QpiMeasurementAccumulator {
    /// The measurements.
    pub closed spec fn held(self) -> Accumulator<
        InterconnectScope,
        QpiEventKind,
        QpiEventMeasurement,
    > {
        self.measurements
    }

    /// The invariant of the measurements.
    pub open spec fn wf(self) -> bool {
        self.held().wf()
    }

    /// The measurements by link and event.
    pub open spec fn grid(self) -> QpiGrid {
        self.held().grid()
    }

    /// The links in increasing order, each with its measurements by event.
    pub open spec fn rows(self) -> Seq<QpiRow> {
        self.held().rows()
    }

    /// An accumulator without measurements.
    pub fn new() -> (accumulator: Self)
        ensures
            accumulator.wf(),
            accumulator.rows() == Seq::<QpiRow>::empty(),
            accumulator.grid() == Map::<
                InterconnectScope,
                Map<QpiEventKind, QpiEventMeasurement>,
            >::empty(),
    {
        QpiMeasurementAccumulator { measurements: Accumulator::new() }
    }

    /// The counts that must be scaled before a value is added: those of what is held of its link
    /// and event and those of the value; nothing where nothing is held and where the counter is
    /// not used.
    pub fn pending(&self, sample: QpiSample) -> (counts: Option<SplitCounts>)
        requires
            self.wf(),
        ensures
            counts == if sample.kind == QpiEventKind::Unused {
                None
            } else {
                match units::cell(self.grid(), sample.scope, sample.kind) {
                    Some(held) => Some(
                        counts_of_split(
                            held,
                            sample.measurement.value,
                            sample.measurement.running_nanos,
                        ),
                    ),
                    None => None,
                }
            },
    {
        if !sample.kind.counts() {
            return None;
        }
        match self.measurements.get(sample.scope, sample.kind) {
            Some(held) => Some(
                held.split_counts(sample.measurement.value, sample.measurement.running_nanos),
            ),
            None => None,
        }
    }

    /// Adds a counted value, given the counts that were scaled for it. Nothing changes where the
    /// counter is not used.
    pub fn add(self, sample: QpiSample, held_count: u64, added_count: u64) -> (result: Result<
        Self,
        CollectorError,
    >)
        requires
            self.wf(),
        ensures
            match result {
                Ok(after) => addable(self.grid(), sample, held_count, added_count) && after.wf()
                    && after.grid() == with_sample(self.grid(), sample, held_count, added_count),
                Err(error) => !addable(self.grid(), sample, held_count, added_count) && error
                    == CollectorError::Overflow,
            },
            sample.kind == QpiEventKind::Unused ==> result == Ok::<Self, CollectorError>(self),
    {
        if sample.kind == QpiEventKind::Unused {
            return Ok(self);
        }
        let measurement: QpiEventMeasurement = match self.measurements.get(
            sample.scope,
            sample.kind,
        ) {
            Some(held) => {
                let mut both = held;
                match both.add(held_count, added_count) {
                    Ok(()) => both,
                    Err(_) => {
                        return Err(CollectorError::Overflow);
                    },
                }
            },
            None => QpiEventMeasurement {
                enabled_nanos: sample.measurement.enabled_nanos,
                running_nanos: sample.measurement.running_nanos,
                value: sample.measurement.value,
            },
        };
        let measurements = self.measurements.put(
            Sample { scope: sample.scope, kind: sample.kind, measurement },
        );
        Ok(QpiMeasurementAccumulator { measurements })
    }
}

/// What is reported for the links of a processor.
#[derive(Debug)]
pub struct QpiMetrics {
    pub links: Vec<InterconnectLinkMetrics>,
    pub power_states: Vec<InterconnectPowerStateMetrics>,
    pub queues: Vec<InterconnectQueueMetrics>,
    pub traffic: Vec<InterconnectTrafficMetrics>,
}

/// A link with what its events counted.
pub type QpiRow = (InterconnectScope, Map<QpiEventKind, QpiEventMeasurement>);

/// The events that a report needs, in the order in which they are looked up.
pub open spec fn required_events() -> Seq<QpiEventKind> {
    seq![
        QpiEventKind::Clockticks,
        QpiEventKind::L1PowerCycles,
        QpiEventKind::RxL0pPowerCycles,
        QpiEventKind::TxL0pPowerCycles,
        QpiEventKind::RxQueueInserts,
        QpiEventKind::RxQueueOccupancy,
        QpiEventKind::TxQueueInserts,
        QpiEventKind::TxQueueOccupancy,
    ]
}

fn required_list() -> (kinds: Vec<QpiEventKind>)
    ensures
        kinds@ == required_events(),
{
    vec![
        QpiEventKind::Clockticks,
        QpiEventKind::L1PowerCycles,
        QpiEventKind::RxL0pPowerCycles,
        QpiEventKind::TxL0pPowerCycles,
        QpiEventKind::RxQueueInserts,
        QpiEventKind::RxQueueOccupancy,
        QpiEventKind::TxQueueInserts,
        QpiEventKind::TxQueueOccupancy,
    ]
}

/// What a link counted of an event that it must have counted.
pub open spec fn counted_of(row: QpiRow, kind: QpiEventKind) -> EventMeasurement {
    row.1[kind].as_event()
}

/// What a link carries of one class in one direction; nothing where that was not counted.
pub open spec fn row_flits(
    row: QpiRow,
    kind: QpiEventKind,
    direction: InterconnectDirection,
    traffic: InterconnectTrafficClass,
    payload: Option<(u64, u64)>,
) -> Seq<InterconnectTrafficMetrics> {
    if row.1.contains_key(kind) {
        seq![interconnect::traffic_of(row.0, direction, traffic, counted_of(row, kind), payload)]
    } else {
        Seq::empty()
    }
}

/// What a link carries: data and other flits that are sent, then those that are received, each
/// where it was counted.
pub open spec fn row_traffic(row: QpiRow) -> Seq<InterconnectTrafficMetrics> {
    let payload = Some((BYTES_PER_FLIT, 1u64));
    row_flits(
        row,
        QpiEventKind::TxDataFlits,
        InterconnectDirection::Tx,
        InterconnectTrafficClass::Data,
        payload,
    ) + row_flits(
        row,
        QpiEventKind::TxNonDataFlits,
        InterconnectDirection::Tx,
        InterconnectTrafficClass::NonData,
        None,
    ) + row_flits(
        row,
        QpiEventKind::RxDataFlits,
        InterconnectDirection::Rx,
        InterconnectTrafficClass::Data,
        payload,
    ) + row_flits(
        row,
        QpiEventKind::RxNonDataFlits,
        InterconnectDirection::Rx,
        InterconnectTrafficClass::NonData,
        None,
    )
}

/// The power states of a link: L1 for the whole link, then L0p for each direction.
pub open spec fn row_power_states(row: QpiRow) -> Seq<InterconnectPowerStateMetrics> {
    let clockticks = counted_of(row, QpiEventKind::Clockticks);
    seq![
        interconnect::power_state_of(
            row.0,
            None,
            InterconnectPowerState::L1,
            counted_of(row, QpiEventKind::L1PowerCycles),
            clockticks,
        ),
        interconnect::power_state_of(
            row.0,
            Some(InterconnectDirection::Rx),
            InterconnectPowerState::L0p,
            counted_of(row, QpiEventKind::RxL0pPowerCycles),
            clockticks,
        ),
        interconnect::power_state_of(
            row.0,
            Some(InterconnectDirection::Tx),
            InterconnectPowerState::L0p,
            counted_of(row, QpiEventKind::TxL0pPowerCycles),
            clockticks,
        ),
    ]
}

/// What goes through a queue of a link.
pub open spec fn queue_of(
    scope: InterconnectScope,
    direction: InterconnectDirection,
    inserts: EventMeasurement,
    occupancy: EventMeasurement,
    clockticks: EventMeasurement,
) -> InterconnectQueueMetrics {
    InterconnectQueueMetrics {
        direction,
        inserts_per_second: quantity::event_rate_of(inserts),
        latency_seconds: quantity::link_latency_of(occupancy, inserts, clockticks),
        occupancy_flits: quantity::scaled_ratio_of(occupancy, clockticks),
        scope,
    }
}

fn queue_metric(
    scope: InterconnectScope,
    direction: InterconnectDirection,
    inserts: EventMeasurement,
    occupancy: EventMeasurement,
    clockticks: EventMeasurement,
) -> (metrics: InterconnectQueueMetrics)
    ensures
        metrics == queue_of(scope, direction, inserts, occupancy, clockticks),
{
    InterconnectQueueMetrics {
        direction,
        inserts_per_second: quantity::event_rate(inserts),
        latency_seconds: quantity::link_latency(occupancy, inserts, clockticks),
        occupancy_flits: quantity::scaled_ratio(occupancy, clockticks),
        scope,
    }
}

/// The queues of a link: that of what it receives, then that of what it sends.
pub open spec fn row_queues(row: QpiRow) -> Seq<InterconnectQueueMetrics> {
    let clockticks = counted_of(row, QpiEventKind::Clockticks);
    seq![
        queue_of(
            row.0,
            InterconnectDirection::Rx,
            counted_of(row, QpiEventKind::RxQueueInserts),
            counted_of(row, QpiEventKind::RxQueueOccupancy),
            clockticks,
        ),
        queue_of(
            row.0,
            InterconnectDirection::Tx,
            counted_of(row, QpiEventKind::TxQueueInserts),
            counted_of(row, QpiEventKind::TxQueueOccupancy),
            clockticks,
        ),
    ]
}

/// Whether `result` is the report on measurements, link by link in scope order, or the first
/// event that is needed and was not counted.
pub open spec fn reported(rows: Seq<QpiRow>, result: Result<QpiMetrics, CollectorError>) -> bool {
    match accumulator::first_gap(rows, required_events()) {
        Some(kind) => result matches Err(error) && error == (CollectorError::MissingMeasurement {
            unit: "QPI",
            event: event_name(kind),
        }),
        None => {
            &&& result matches Ok(metrics)
            &&& metrics.links@ == rows.map_values(
                |row: QpiRow|
                    interconnect::frequency_of_link(
                        row.0,
                        counted_of(row, QpiEventKind::Clockticks),
                    ),
            )
            &&& metrics.traffic@ == seqs::flat_map(rows, |row: QpiRow| row_traffic(row))
            &&& metrics.power_states@ == seqs::flat_map(rows, |row: QpiRow| row_power_states(row))
            &&& metrics.queues@ == seqs::flat_map(rows, |row: QpiRow| row_queues(row))
        },
    }
}

impl QpiMetrics {
    fn push_flits(
        &mut self,
        measurements: &QpiMeasurementAccumulator,
        index: usize,
        kind: QpiEventKind,
        direction: InterconnectDirection,
        traffic: InterconnectTrafficClass,
        payload: Option<(u64, u64)>,
    )
        requires
            measurements.wf(),
            index < measurements.rows().len(),
        ensures
            final(self).links == old(self).links,
            final(self).power_states == old(self).power_states,
            final(self).queues == old(self).queues,
            final(self).traffic@ == old(self).traffic@ + row_flits(
                measurements.rows()[index as int],
                kind,
                direction,
                traffic,
                payload,
            ),
    {
        match measurements.measurements.measurement_at(index, kind) {
            Some(measurement) => {
                let scope = measurements.measurements.scope_at(index);
                self.traffic.push(
                    interconnect::traffic_metric(
                        scope,
                        direction,
                        traffic,
                        measurement.to_event(),
                        payload,
                    ),
                );
            },
            None => {},
        }
        assert(self.traffic@ =~= old(self).traffic@ + row_flits(
            measurements.rows()[index as int],
            kind,
            direction,
            traffic,
            payload,
        ));
    }

    fn push_traffic(&mut self, measurements: &QpiMeasurementAccumulator, index: usize)
        requires
            measurements.wf(),
            index < measurements.rows().len(),
        ensures
            final(self).links == old(self).links,
            final(self).power_states == old(self).power_states,
            final(self).queues == old(self).queues,
            final(self).traffic@ == old(self).traffic@ + row_traffic(
                measurements.rows()[index as int],
            ),
    {
        let payload: Option<(u64, u64)> = Some((BYTES_PER_FLIT, 1));
        self.push_flits(
            measurements,
            index,
            QpiEventKind::TxDataFlits,
            InterconnectDirection::Tx,
            InterconnectTrafficClass::Data,
            payload,
        );
        self.push_flits(
            measurements,
            index,
            QpiEventKind::TxNonDataFlits,
            InterconnectDirection::Tx,
            InterconnectTrafficClass::NonData,
            None,
        );
        self.push_flits(
            measurements,
            index,
            QpiEventKind::RxDataFlits,
            InterconnectDirection::Rx,
            InterconnectTrafficClass::Data,
            payload,
        );
        self.push_flits(
            measurements,
            index,
            QpiEventKind::RxNonDataFlits,
            InterconnectDirection::Rx,
            InterconnectTrafficClass::NonData,
            None,
        );
        assert(self.traffic@ =~= old(self).traffic@ + row_traffic(
            measurements.rows()[index as int],
        ));
    }

    fn push_link(&mut self, measurements: &QpiMeasurementAccumulator, index: usize)
        requires
            measurements.wf(),
            index < measurements.rows().len(),
            accumulator::first_gap(measurements.rows(), required_events()) is None,
        ensures
            final(self).links@ == old(self).links@.push(
                interconnect::frequency_of_link(
                    measurements.rows()[index as int].0,
                    counted_of(measurements.rows()[index as int], QpiEventKind::Clockticks),
                ),
            ),
            final(self).traffic@ == old(self).traffic@ + row_traffic(
                measurements.rows()[index as int],
            ),
            final(self).power_states@ == old(self).power_states@ + row_power_states(
                measurements.rows()[index as int],
            ),
            final(self).queues@ == old(self).queues@ + row_queues(
                measurements.rows()[index as int],
            ),
    {
        let ghost row = measurements.rows()[index as int];
        proof {
            let rows = measurements.rows();
            assert forall|j: int| 0 <= j < required_events().len() implies row.1.contains_key(
                #[trigger] required_events()[j],
            ) by {
                accumulator::lemma_no_gap(rows, required_events(), index as int, j);
            }
            assert(required_events()[0] == QpiEventKind::Clockticks);
            assert(required_events()[1] == QpiEventKind::L1PowerCycles);
            assert(required_events()[2] == QpiEventKind::RxL0pPowerCycles);
            assert(required_events()[3] == QpiEventKind::TxL0pPowerCycles);
            assert(required_events()[4] == QpiEventKind::RxQueueInserts);
            assert(required_events()[5] == QpiEventKind::RxQueueOccupancy);
            assert(required_events()[6] == QpiEventKind::TxQueueInserts);
            assert(required_events()[7] == QpiEventKind::TxQueueOccupancy);
        }
        let table = &measurements.measurements;
        let scope = table.scope_at(index);
        let clockticks = table.require(index, QpiEventKind::Clockticks).to_event();
        let l1_cycles = table.require(index, QpiEventKind::L1PowerCycles).to_event();
        let rx_l0p_cycles = table.require(index, QpiEventKind::RxL0pPowerCycles).to_event();
        let tx_l0p_cycles = table.require(index, QpiEventKind::TxL0pPowerCycles).to_event();
        let rx_inserts = table.require(index, QpiEventKind::RxQueueInserts).to_event();
        let rx_occupancy = table.require(index, QpiEventKind::RxQueueOccupancy).to_event();
        let tx_inserts = table.require(index, QpiEventKind::TxQueueInserts).to_event();
        let tx_occupancy = table.require(index, QpiEventKind::TxQueueOccupancy).to_event();
        self.links.push(interconnect::link_frequency(scope, clockticks));
        self.push_traffic(measurements, index);
        self.power_states.push(
            interconnect::power_state_metric(
                scope,
                None,
                InterconnectPowerState::L1,
                l1_cycles,
                clockticks,
            ),
        );
        self.power_states.push(
            interconnect::power_state_metric(
                scope,
                Some(InterconnectDirection::Rx),
                InterconnectPowerState::L0p,
                rx_l0p_cycles,
                clockticks,
            ),
        );
        self.power_states.push(
            interconnect::power_state_metric(
                scope,
                Some(InterconnectDirection::Tx),
                InterconnectPowerState::L0p,
                tx_l0p_cycles,
                clockticks,
            ),
        );
        self.queues.push(
            queue_metric(
                scope,
                InterconnectDirection::Rx,
                rx_inserts,
                rx_occupancy,
                clockticks,
            ),
        );
        self.queues.push(
            queue_metric(
                scope,
                InterconnectDirection::Tx,
                tx_inserts,
                tx_occupancy,
                clockticks,
            ),
        );
        assert(self.power_states@ =~= old(self).power_states@ + row_power_states(row));
        assert(self.queues@ =~= old(self).queues@ + row_queues(row));
    }

    /// Reports every link, in scope order; an error where an event that is needed was not counted
    /// on some link.
    pub fn from_measurements(measurements: &QpiMeasurementAccumulator) -> (result: Result<
        Self,
        CollectorError,
    >)
        requires
            measurements.wf(),
        ensures
            reported(measurements.rows(), result),
    {
        match measurements.measurements.find_gap(&required_list()) {
            Some(kind) => Err(
                CollectorError::MissingMeasurement { unit: "QPI", event: kind.name() },
            ),
            None => {
                let ghost rows = measurements.rows();
                let ghost traffic = |row: QpiRow| row_traffic(row);
                let ghost power_states = |row: QpiRow| row_power_states(row);
                let ghost queues = |row: QpiRow| row_queues(row);
                let mut metrics = QpiMetrics {
                    links: Vec::new(),
                    power_states: Vec::new(),
                    queues: Vec::new(),
                    traffic: Vec::new(),
                };
                let mut i: usize = 0;
                proof {
                    seqs::lemma_flat_map_ends(rows, traffic);
                    seqs::lemma_flat_map_ends(rows, power_states);
                    seqs::lemma_flat_map_ends(rows, queues);
                }
                while i < measurements.measurements.len()
                    invariant
                        measurements.wf(),
                        rows == measurements.rows(),
                        traffic == (|row: QpiRow| row_traffic(row)),
                        power_states == (|row: QpiRow| row_power_states(row)),
                        queues == (|row: QpiRow| row_queues(row)),
                        accumulator::first_gap(rows, required_events()) is None,
                        i <= rows.len(),
                        metrics.links@.len() == i,
                        forall|k: int|
                            0 <= k < i ==> (#[trigger] metrics.links@[k])
                                == interconnect::frequency_of_link(
                                rows[k].0,
                                counted_of(rows[k], QpiEventKind::Clockticks),
                            ),
                        metrics.traffic@ == seqs::flat_map(rows.take(i as int), traffic),
                        metrics.power_states@ == seqs::flat_map(rows.take(i as int), power_states),
                        metrics.queues@ == seqs::flat_map(rows.take(i as int), queues),
                    decreases rows.len() - i,
                {
                    metrics.push_link(measurements, i);
                    proof {
                        seqs::lemma_flat_map_step(rows, traffic, i as int);
                        seqs::lemma_flat_map_step(rows, power_states, i as int);
                        seqs::lemma_flat_map_step(rows, queues, i as int);
                    }
                    i += 1;
                }
                proof {
                    seqs::lemma_flat_map_ends(rows, traffic);
                    seqs::lemma_flat_map_ends(rows, power_states);
                    seqs::lemma_flat_map_ends(rows, queues);
                    assert(metrics.links@ =~= rows.map_values(
                        |row: QpiRow|
                            interconnect::frequency_of_link(
                                row.0,
                                counted_of(row, QpiEventKind::Clockticks),
                            ),
                    ));
                }
                Ok(metrics)
            },
        }
    }
}

/// The bus of a package.
#[derive(Clone, Copy, Debug, PartialEq, Eq, Structural)]
pub struct QpiBusScope {
    pub bus: PciBus,
    pub scope: UncoreScope,
}

impl Ranked for QpiBusScope {
    open spec fn place(self) -> int {
        self.scope.package_id as int
    }

    fn not_after(&self, other: &Self) -> (result: bool) {
        self.scope.package_id <= other.scope.package_id
    }
}

impl Kin for QpiBusScope {
    open spec fn family(self) -> int {
        self.scope.package_id as int
    }

    fn is_kin(&self, other: &Self) -> (result: bool) {
        self.scope.package_id == other.scope.package_id
    }
}

impl QpiBusScope {
    /// Whether a location stands on the bus.
    pub fn matches(self, location: PciLocation) -> (result: bool)
        ensures
            result == (self.bus == location.on()),
    {
        self.bus == location.pci_bus()
    }
}

/// A device of a link, with the number of the link.
#[derive(Clone, Copy, Debug, PartialEq, Eq, Structural)]
pub struct LinkDevice {
    pub link_id: u32,
    pub location: PciLocation,
}

/// The devices with the id of a link.
pub open spec fn devices_of_link(
    devices: Seq<PciVendorDevice>,
    entry: (u16, u32),
) -> Seq<LinkDevice> {
    pci::locations_with_id(devices, entry.0).map_values(
        |location: PciLocation| LinkDevice { link_id: entry.1, location },
    )
}

/// The devices of all links, link by link.
pub open spec fn all_devices(architecture: QpiArchitecture, devices: Seq<PciVendorDevice>) -> Seq<
    LinkDevice,
> {
    seqs::flat_map(
        link_devices(architecture),
        |entry: (u16, u32)| devices_of_link(devices, entry),
    )
}

/// Where the devices stand.
pub open spec fn locations_of(devices: Seq<LinkDevice>) -> Seq<PciLocation> {
    devices.map_values(|device: LinkDevice| device.location)
}

fn find_link_devices(architecture: QpiArchitecture, devices: &Vec<PciVendorDevice>) -> (found: Vec<
    LinkDevice,
>)
    ensures
        found@ == all_devices(architecture, devices@),
{
    let table: Vec<(u16, u32)> = architecture.link_device_ids();
    let ghost f = |entry: (u16, u32)| devices_of_link(devices@, entry);
    let mut found: Vec<LinkDevice> = Vec::new();
    let mut i: usize = 0;
    proof {
        seqs::lemma_flat_map_ends(table@, f);
    }
    while i < table.len()
        invariant
            i <= table@.len(),
            f == (|entry: (u16, u32)| devices_of_link(devices@, entry)),
            found@ == seqs::flat_map(table@.take(i as int), f),
        decreases table@.len() - i,
    {
        let (device_id, link_id) = table[i];
        let locations: Vec<PciLocation> = pci::find_devices(devices, device_id);
        let ghost before = found@;
        let ghost part = devices_of_link(devices@, table@[i as int]);
        let mut j: usize = 0;
        assert(found@ =~= before + part.take(0));
        while j < locations.len()
            invariant
                j <= locations@.len(),
                part == devices_of_link(devices@, (device_id, link_id)),
                locations@ == pci::locations_with_id(devices@, device_id),
                found@ == before + part.take(j as int),
            decreases locations@.len() - j,
        {
            found.push(LinkDevice { link_id, location: locations[j] });
            assert(found@ =~= before + part.take(j + 1));
            j += 1;
        }
        proof {
            assert(part.take(j as int) =~= part);
            seqs::lemma_flat_map_step(table@, f, i as int);
        }
        i += 1;
    }
    proof {
        seqs::lemma_flat_map_ends(table@, f);
    }
    found
}

/// The buses that the first `n` sockets tell, or the first socket whose node number is not in its
/// mapping.
pub open spec fn told_buses(architecture: QpiArchitecture, nodes: Seq<UboxNode>, n: nat) -> Result<
    Seq<QpiBusScope>,
    CollectorError,
>
    decreases n,
{
    if n == 0 {
        Ok(Seq::empty())
    } else {
        let node = nodes[n - 1];
        match told_buses(architecture, nodes, (n - 1) as nat) {
            Ok(before) => match sockets::package_of(node) {
                Some(package_id) => Ok(
                    before.push(
                        QpiBusScope {
                            bus: node.location.on(),
                            scope: UncoreScope { die_group_id: 0, die_id: 0, package_id },
                        },
                    ),
                ),
                None => Err(
                    CollectorError::UnmappedNode {
                        unit: name_of(architecture),
                        local_node_id: node.local_node_word % 8,
                        node_mapping: node.node_mapping,
                        location: node.location,
                    },
                ),
            },
            Err(error) => Err(error),
        }
    }
}

proof fn lemma_untold_stays(architecture: QpiArchitecture, nodes: Seq<UboxNode>, n: nat, m: nat)
    requires
        n <= m,
        told_buses(architecture, nodes, n) is Err,
    ensures
        told_buses(architecture, nodes, m) == told_buses(architecture, nodes, n),
    decreases m,
{
    if n < m {
        lemma_untold_stays(architecture, nodes, n, (m - 1) as nat);
    }
}

proof fn lemma_told(architecture: QpiArchitecture, nodes: Seq<UboxNode>, n: nat)
    ensures
        match told_buses(architecture, nodes, n) {
            Ok(buses) => buses.len() == n,
            Err(error) => error is UnmappedNode,
        },
    decreases n,
{
    if n > 0 {
        lemma_told(architecture, nodes, (n - 1) as nat);
    }
}

fn buses_told(architecture: QpiArchitecture, nodes: &Vec<UboxNode>) -> (result: Result<
    Vec<QpiBusScope>,
    CollectorError,
>)
    ensures
        match told_buses(architecture, nodes@, nodes@.len()) {
            Ok(buses) => result matches Ok(list) && list@ == buses,
            Err(error) => result matches Err(e) && e == error,
        },
{
    let mut list: Vec<QpiBusScope> = Vec::new();
    let mut i: usize = 0;
    while i < nodes.len()
        invariant
            i <= nodes@.len(),
            told_buses(architecture, nodes@, i as nat) == Ok::<Seq<QpiBusScope>, CollectorError>(
                list@,
            ),
        decreases nodes@.len() - i,
    {
        let node = nodes[i];
        match node.package_index() {
            Some(package_id) => {
                list.push(
                    QpiBusScope {
                        bus: node.location.pci_bus(),
                        scope: UncoreScope { die_group_id: 0, die_id: 0, package_id },
                    },
                );
            },
            None => {
                proof {
                    lemma_untold_stays(architecture, nodes@, (i + 1) as nat, nodes@.len());
                }
                return Err(
                    CollectorError::UnmappedNode {
                        unit: architecture.name(),
                        local_node_id: node.local_node_word % 8,
                        node_mapping: node.node_mapping,
                        location: node.location,
                    },
                );
            },
        }
        i += 1;
    }
    Ok(list)
}

/// Buses and scopes paired in order, as far as both go.
pub open spec fn paired(scopes: Seq<UncoreScope>, buses: Seq<PciBus>) -> Seq<QpiBusScope> {
    let count = if scopes.len() < buses.len() {
        scopes.len()
    } else {
        buses.len()
    };
    Seq::new(count, |i: int| QpiBusScope { bus: buses[i], scope: scopes[i] })
}

fn pair(scopes: &Vec<UncoreScope>, buses: &Vec<PciBus>) -> (list: Vec<QpiBusScope>)
    ensures
        list@ == paired(scopes@, buses@),
{
    let mut list: Vec<QpiBusScope> = Vec::new();
    let mut i: usize = 0;
    while i < scopes.len() && i < buses.len()
        invariant
            i <= scopes@.len(),
            i <= buses@.len(),
            list@.len() == i,
            forall|k: int|
                0 <= k < i ==> (#[trigger] list@[k]) == (QpiBusScope {
                    bus: buses@[k],
                    scope: scopes@[k],
                }),
        decreases scopes@.len() - i,
    {
        list.push(QpiBusScope { bus: buses[i], scope: scopes[i] });
        i += 1;
    }
    assert(list@ =~= paired(scopes@, buses@));
    list
}

/// The buses of the packages: what the sockets tell, else the buses on which links stand, in
/// order, one for each scope.
pub open spec fn all_buses(
    architecture: QpiArchitecture,
    scopes: Seq<UncoreScope>,
    nodes: Seq<UboxNode>,
    devices: Seq<PciVendorDevice>,
) -> Result<Seq<QpiBusScope>, CollectorError> {
    match told_buses(architecture, nodes, nodes.len()) {
        Ok(told) => Ok(
            if told.len() == 0 {
                paired(
                    scopes,
                    sorting::sorted(
                        sockets::distinct_buses(locations_of(all_devices(architecture, devices))),
                    ),
                )
            } else {
                told
            },
        ),
        Err(error) => Err(error),
    }
}

/// The bus of each package. Of several buses of a package the first one is taken.
pub open spec fn bus_scopes(
    architecture: QpiArchitecture,
    scopes: Seq<UncoreScope>,
    nodes: Seq<UboxNode>,
    devices: Seq<PciVendorDevice>,
) -> Result<Seq<QpiBusScope>, CollectorError> {
    match all_buses(architecture, scopes, nodes, devices) {
        Ok(all) => {
            let kept = sorting::without_repeats(sorting::sorted(all));
            if kept.len() == 0 {
                Err(
                    CollectorError::NoneDiscovered {
                        family: name_of(architecture),
                        units: "QPI package buses",
                    },
                )
            } else {
                Ok(kept)
            }
        },
        Err(error) => Err(error),
    }
}

/// Finds the bus of each package.
pub fn package_bus_scopes(
    architecture: QpiArchitecture,
    scopes: &Vec<UncoreScope>,
    nodes: &Vec<UboxNode>,
    devices: &Vec<PciVendorDevice>,
) -> (result: Result<Vec<QpiBusScope>, CollectorError>)
    ensures
        match bus_scopes(architecture, scopes@, nodes@, devices@) {
            Ok(buses) => result matches Ok(list) && list@ == buses,
            Err(error) => result matches Err(e) && e == error,
        },
{
    let told: Vec<QpiBusScope> = match buses_told(architecture, nodes) {
        Ok(told) => told,
        Err(error) => {
            return Err(error);
        },
    };
    let all: Vec<QpiBusScope> = if told.len() == 0 {
        let found: Vec<LinkDevice> = find_link_devices(architecture, devices);
        let mut locations: Vec<PciLocation> = Vec::new();
        let mut i: usize = 0;
        while i < found.len()
            invariant
                i <= found@.len(),
                locations@.len() == i,
                forall|k: int| 0 <= k < i ==> (#[trigger] locations@[k]) == found@[k].location,
            decreases found@.len() - i,
        {
            locations.push(found[i].location);
            i += 1;
        }
        assert(locations@ =~= locations_of(found@));
        let buses: Vec<PciBus> = sockets::buses_of(&locations);
        pair(scopes, &sorting::sort(&buses))
    } else {
        told
    };
    let kept: Vec<QpiBusScope> = sorting::drop_repeats(&sorting::sort(&all));
    if kept.len() == 0 {
        Err(
            CollectorError::NoneDiscovered {
                family: architecture.name(),
                units: "QPI package buses",
            },
        )
    } else {
        Ok(kept)
    }
}

/// The buses that are found are one for each package: the packages ascend strictly. The bus of a
/// package is the first one of the package among those that the sockets tell or that are paired
/// with the scopes.
pub proof fn buses_are_one_for_each_package(
    architecture: QpiArchitecture,
    scopes: Seq<UncoreScope>,
    nodes: Seq<UboxNode>,
    devices: Seq<PciVendorDevice>,
    all: Seq<QpiBusScope>,
    buses: Seq<QpiBusScope>,
)
    requires
        all_buses(architecture, scopes, nodes, devices) == Ok::<
            Seq<QpiBusScope>,
            CollectorError,
        >(all),
        bus_scopes(architecture, scopes, nodes, devices) == Ok::<
            Seq<QpiBusScope>,
            CollectorError,
        >(buses),
    ensures
        forall|i: int, j: int|
            0 <= i < j < buses.len() ==> (#[trigger] buses[i]).scope.package_id < (
            #[trigger] buses[j]).scope.package_id,
        forall|k: int|
            0 <= k < buses.len() ==> {
                let told = sorting::at_place(all, (#[trigger] buses[k]).scope.package_id as int);
                told.len() > 0 && told[0] == buses[k]
            },
{
    assert(buses == sorting::without_repeats(sorting::sorted(all)));
    assert(sorting::families_follow_places::<QpiBusScope>());
    sorting::first_of_each_family_is_kept(all);
    assert forall|i: int, j: int| 0 <= i < j < buses.len() implies (
    #[trigger] buses[i]).scope.package_id < (#[trigger] buses[j]).scope.package_id by {
        assert(buses[i].family() < buses[j].family());
    }
    assert forall|k: int| 0 <= k < buses.len() implies {
        let told = sorting::at_place(all, (#[trigger] buses[k]).scope.package_id as int);
        told.len() > 0 && told[0] == buses[k]
    } by {
        sorting::first_at_each_place_is_kept(all, k);
    }
}

/// No package is lost: every package that the sockets tell, or that is paired with a bus, has a
/// bus.
pub proof fn every_package_has_a_bus(
    architecture: QpiArchitecture,
    scopes: Seq<UncoreScope>,
    nodes: Seq<UboxNode>,
    devices: Seq<PciVendorDevice>,
    all: Seq<QpiBusScope>,
    buses: Seq<QpiBusScope>,
    i: int,
) -> (k: int)
    requires
        all_buses(architecture, scopes, nodes, devices) == Ok::<
            Seq<QpiBusScope>,
            CollectorError,
        >(all),
        bus_scopes(architecture, scopes, nodes, devices) == Ok::<
            Seq<QpiBusScope>,
            CollectorError,
        >(buses),
        0 <= i < all.len(),
    ensures
        0 <= k < buses.len(),
        buses[k].scope.package_id == all[i].scope.package_id,
{
    sorting::every_family_is_kept(all, i)
}

/// The scope of the first of the first `n` buses on which a location stands.
pub open spec fn scope_on(buses: Seq<QpiBusScope>, location: PciLocation, n: nat) -> Option<
    UncoreScope,
>
    decreases n,
{
    if n == 0 {
        None
    } else {
        match scope_on(buses, location, (n - 1) as nat) {
            Some(scope) => Some(scope),
            None => if buses[n - 1].bus == location.on() {
                Some(buses[n - 1].scope)
            } else {
                None
            },
        }
    }
}

proof fn lemma_scope_stays(buses: Seq<QpiBusScope>, location: PciLocation, n: nat, m: nat)
    requires
        n <= m,
        scope_on(buses, location, n) is Some,
    ensures
        scope_on(buses, location, m) == scope_on(buses, location, n),
    decreases m,
{
    if n < m {
        lemma_scope_stays(buses, location, n, (m - 1) as nat);
    }
}

fn find_scope(buses: &Vec<QpiBusScope>, location: PciLocation) -> (scope: Option<UncoreScope>)
    ensures
        scope == scope_on(buses@, location, buses@.len()),
{
    let mut i: usize = 0;
    while i < buses.len()
        invariant
            i <= buses@.len(),
            scope_on(buses@, location, i as nat) is None,
        decreases buses@.len() - i,
    {
        if buses[i].matches(location) {
            proof {
                lemma_scope_stays(buses@, location, (i + 1) as nat, buses@.len());
            }
            return Some(buses[i].scope);
        }
        i += 1;
    }
    None
}

/// The links of the first `n` devices, or the first device that stands on the bus of no package.
pub open spec fn links_of(
    architecture: QpiArchitecture,
    buses: Seq<QpiBusScope>,
    found: Seq<LinkDevice>,
    n: nat,
) -> Result<Seq<LinkPlace>, CollectorError>
    decreases n,
{
    if n == 0 {
        Ok(Seq::empty())
    } else {
        let device = found[n - 1];
        match links_of(architecture, buses, found, (n - 1) as nat) {
            Ok(before) => match scope_on(buses, device.location, buses.len()) {
                Some(scope) => Ok(
                    before.push(
                        LinkPlace {
                            location: device.location,
                            scope: interconnect::link_of(scope, device.link_id),
                        },
                    ),
                ),
                None => Err(
                    CollectorError::UnmappedLink {
                        family: name_of(architecture),
                        location: device.location,
                    },
                ),
            },
            Err(error) => Err(error),
        }
    }
}

proof fn lemma_unmapped_stays(
    architecture: QpiArchitecture,
    buses: Seq<QpiBusScope>,
    found: Seq<LinkDevice>,
    n: nat,
    m: nat,
)
    requires
        n <= m,
        links_of(architecture, buses, found, n) is Err,
    ensures
        links_of(architecture, buses, found, m) == links_of(architecture, buses, found, n),
    decreases m,
{
    if n < m {
        lemma_unmapped_stays(architecture, buses, found, n, (m - 1) as nat);
    }
}

proof fn lemma_unmapped_error(
    architecture: QpiArchitecture,
    buses: Seq<QpiBusScope>,
    found: Seq<LinkDevice>,
    n: nat,
)
    ensures
        links_of(architecture, buses, found, n) matches Err(error) ==> error is UnmappedLink,
    decreases n,
{
    if n > 0 {
        lemma_unmapped_error(architecture, buses, found, (n - 1) as nat);
    }
}

/// The links of the processor by package, die group, die and number. It is an error where the
/// buses are not known, where a link stands on the bus of no package, and where there is no link.
pub open spec fn discovered(
    architecture: QpiArchitecture,
    scopes: Seq<UncoreScope>,
    nodes: Seq<UboxNode>,
    devices: Seq<PciVendorDevice>,
) -> Result<Seq<LinkPlace>, CollectorError> {
    let found = all_devices(architecture, devices);
    match bus_scopes(architecture, scopes, nodes, devices) {
        Ok(buses) => match links_of(architecture, buses, found, found.len()) {
            Ok(links) => if links.len() == 0 {
                Err(
                    CollectorError::NoneDiscovered {
                        family: name_of(architecture),
                        units: "QPI links",
                    },
                )
            } else {
                Ok(sorting::sorted(links))
            },
            Err(error) => Err(error),
        },
        Err(error) => Err(error),
    }
}

/// Finds the links of the processor.
pub fn discover_links(
    architecture: QpiArchitecture,
    scopes: &Vec<UncoreScope>,
    nodes: &Vec<UboxNode>,
    devices: &Vec<PciVendorDevice>,
) -> (result: Result<Vec<LinkPlace>, CollectorError>)
    ensures
        match discovered(architecture, scopes@, nodes@, devices@) {
            Ok(places) => result matches Ok(list) && list@ == places,
            Err(error) => result matches Err(e) && e == error,
        },
{
    let buses: Vec<QpiBusScope> = match package_bus_scopes(architecture, scopes, nodes, devices) {
        Ok(buses) => buses,
        Err(error) => {
            return Err(error);
        },
    };
    let found: Vec<LinkDevice> = find_link_devices(architecture, devices);
    let mut links: Vec<LinkPlace> = Vec::new();
    let mut i: usize = 0;
    while i < found.len()
        invariant
            i <= found@.len(),
            found@ == all_devices(architecture, devices@),
            bus_scopes(architecture, scopes@, nodes@, devices@) == Ok::<
                Seq<QpiBusScope>,
                CollectorError,
            >(buses@),
            links_of(architecture, buses@, found@, i as nat) == Ok::<
                Seq<LinkPlace>,
                CollectorError,
            >(links@),
        decreases found@.len() - i,
    {
        let device = found[i];
        match find_scope(&buses, device.location) {
            Some(scope) => {
                links.push(
                    LinkPlace {
                        location: device.location,
                        scope: InterconnectScope::new(scope, device.link_id),
                    },
                );
            },
            None => {
                proof {
                    lemma_unmapped_stays(
                        architecture,
                        buses@,
                        found@,
                        (i + 1) as nat,
                        found@.len(),
                    );
                }
                return Err(
                    CollectorError::UnmappedLink {
                        family: architecture.name(),
                        location: device.location,
                    },
                );
            },
        }
        i += 1;
    }
    if links.len() == 0 {
        Err(CollectorError::NoneDiscovered { family: architecture.name(), units: "QPI links" })
    } else {
        Ok(sorting::sort(&links))
    }
}

/// Whether `unit` has the registers of a link.
pub open spec fn is_link(unit: Unit<InterconnectScope>, place: LinkPlace) -> bool {
    let location = place.location;
    &&& unit.scope == place.scope
    &&& unit.control == Register::Pci { location, offset: UNIT_CONTROL }
    &&& unit.width == Width::Bits32
    &&& unit.filter is None
    &&& unit.controls@ == Seq::new(
        4,
        |i: int| Register::Pci { location, offset: COUNTER_CONTROLS@[i] },
    )
    &&& unit.counters@ == Seq::new(4, |i: int| Register::Pci { location, offset: COUNTERS@[i] })
    &&& unit.fixed_control is None
    &&& unit.fixed_counter is None
}

fn link(place: LinkPlace) -> (unit: Unit<InterconnectScope>)
    ensures
        is_link(unit, place),
{
    let location = place.location;
    let unit = Unit {
        scope: place.scope,
        control: Register::Pci { location, offset: UNIT_CONTROL },
        width: Width::Bits32,
        filter: None,
        controls: vec![
            Register::Pci { location, offset: COUNTER_CONTROLS[0] },
            Register::Pci { location, offset: COUNTER_CONTROLS[1] },
            Register::Pci { location, offset: COUNTER_CONTROLS[2] },
            Register::Pci { location, offset: COUNTER_CONTROLS[3] },
        ],
        counters: vec![
            Register::Pci { location, offset: COUNTERS[0] },
            Register::Pci { location, offset: COUNTERS[1] },
            Register::Pci { location, offset: COUNTERS[2] },
            Register::Pci { location, offset: COUNTERS[3] },
        ],
        fixed_control: None,
        fixed_counter: None,
    };
    assert(unit.controls@ =~= Seq::new(
        4,
        |i: int| Register::Pci { location, offset: COUNTER_CONTROLS@[i] },
    ));
    assert(unit.counters@ =~= Seq::new(
        4,
        |i: int| Register::Pci { location, offset: COUNTERS@[i] },
    ));
    unit
}

/// Whether `units` are the links at `places`.
pub open spec fn are_links(units: Seq<Unit<InterconnectScope>>, places: Seq<LinkPlace>) -> bool {
    &&& units.len() == places.len()
    &&& forall|i: int| 0 <= i < places.len() ==> is_link(#[trigger] units[i], places[i])
}

/// Whether `result` is the collector for a processor. The topology is looked at only where no
/// socket tells its bus.
pub open spec fn created(
    architecture: Architecture,
    topologies: Seq<CpuTopology>,
    nodes: Seq<UboxNode>,
    devices: Seq<PciVendorDevice>,
    result: Result<QpiCollector, CollectorError>,
) -> bool {
    let model = architecture.server_model()->0;
    match family_member(model) {
        None => result matches Err(error) && error == (CollectorError::Unsupported {
            unit: "QPI",
            model,
        }),
        Some(member) => if nodes.len() == 0 && topology::first_cpus::<UncoreScope>(
            topologies,
        ) is None {
            result matches Err(error) && error == CollectorError::MissingPackageLevel
        } else if nodes.len() == 0 && topologies.len() == 0 {
            result matches Err(error) && error == (CollectorError::NothingFound {
                what: "QPI CPU package scopes",
            })
        } else {
            exists|scopes: Seq<UncoreScope>|
                {
                    &&& nodes.len() == 0 ==> topology::lists_scopes(
                        scopes,
                        topology::first_cpus::<UncoreScope>(topologies)->0,
                    )
                    &&& match #[trigger] discovered(member, scopes, nodes, devices) {
                        Ok(places) => {
                            &&& result matches Ok(collector)
                            &&& collector.wf()
                            &&& collector.architecture() == member
                            &&& collector.next_group() == 0
                            &&& are_links(collector.units(), places)
                        },
                        Err(error) => result matches Err(e) && e == error,
                    }
                }
        },
    }
}

/// Where the sockets tell their buses, the links that are found do not depend on the topology.
pub proof fn topology_matters_only_without_sockets(
    architecture: QpiArchitecture,
    scopes: Seq<UncoreScope>,
    others: Seq<UncoreScope>,
    nodes: Seq<UboxNode>,
    devices: Seq<PciVendorDevice>,
)
    requires
        nodes.len() > 0,
    ensures
        discovered(architecture, scopes, nodes, devices) == discovered(
            architecture,
            others,
            nodes,
            devices,
        ),
{
    lemma_told(architecture, nodes, nodes.len());
}

/// A processor with QPI links is not refused as unsupported.
pub proof fn members_are_not_refused(
    architecture: Architecture,
    topologies: Seq<CpuTopology>,
    nodes: Seq<UboxNode>,
    devices: Seq<PciVendorDevice>,
    result: Result<QpiCollector, CollectorError>,
)
    requires
        family_member(architecture.server_model()->0) is Some,
        created(architecture, topologies, nodes, devices, result),
    ensures
        !(result matches Err(CollectorError::Unsupported { .. })),
{
    let member = family_member(architecture.server_model()->0)->0;
    let found = all_devices(member, devices);
    assert forall|scopes: Seq<UncoreScope>| #[trigger]
        discovered(member, scopes, nodes, devices) is Err implies !(discovered(
        member,
        scopes,
        nodes,
        devices,
    )->Err_0 is Unsupported) by {
        lemma_told(member, nodes, nodes.len());
        if bus_scopes(member, scopes, nodes, devices) is Ok {
            lemma_unmapped_error(
                member,
                bus_scopes(member, scopes, nodes, devices)->Ok_0,
                found,
                found.len(),
            );
        }
    }
}

/// Samples the QPI links of a processor.
#[derive(Debug)]
pub struct QpiCollector {
    architecture: QpiArchitecture,
    links: Vec<Unit<InterconnectScope>>,
    next_group: usize,
}

impl QpiCollector {
    /// The processor.
    pub closed spec fn architecture(self) -> QpiArchitecture {
        self.architecture
    }

    /// The links whose counters are read.
    pub closed spec fn units(self) -> Seq<Unit<InterconnectScope>> {
        self.links@
    }

    /// The group that goes first in the next sample.
    pub closed spec fn next_group(self) -> usize {
        self.next_group
    }

    /// The invariant: the next group is one of the groups, and every link has the counters that a
    /// group uses.
    pub open spec fn wf(self) -> bool {
        &&& self.next_group() < groups(self.architecture()).len()
        &&& units::units_have(self.units(), 4)
    }

    /// A collector for the processor.
    pub fn new(
        architecture: &Architecture,
        topologies: &Vec<CpuTopology>,
        nodes: &Vec<UboxNode>,
        devices: &Vec<PciVendorDevice>,
    ) -> (result: Result<Self, CollectorError>)
        requires
            architecture.server_model() is Some,
        ensures
            created(*architecture, topologies@, nodes@, devices@, result),
    {
        let model = architecture.intel_server_model();
        let member = match QpiArchitecture::from_model(model) {
            Some(member) => member,
            None => {
                return Err(CollectorError::Unsupported { unit: "QPI", model });
            },
        };
        let scopes: Vec<UncoreScope> = if nodes.len() == 0 {
            match topology::scopes_in_order::<UncoreScope>(topologies) {
                Ok(scopes) => scopes,
                Err(error) => {
                    return Err(error);
                },
            }
        } else {
            Vec::new()
        };
        if nodes.len() == 0 && scopes.len() == 0 {
            return Err(CollectorError::NothingFound { what: "QPI CPU package scopes" });
        }
        let places: Vec<LinkPlace> = match discover_links(member, &scopes, nodes, devices) {
            Ok(places) => places,
            Err(error) => {
                return Err(error);
            },
        };
        let mut links: Vec<Unit<InterconnectScope>> = Vec::new();
        let mut i: usize = 0;
        while i < places.len()
            invariant
                i <= places@.len(),
                links@.len() == i,
                forall|k: int| 0 <= k < i ==> is_link(#[trigger] links@[k], places@[k]),
            decreases places@.len() - i,
        {
            links.push(link(places[i]));
            i += 1;
        }
        Ok(QpiCollector { architecture: member, links, next_group: 0 })
    }

    /// A collector for given links.
    pub fn from_units(architecture: QpiArchitecture, links: Vec<Unit<InterconnectScope>>) -> (
        collector: Self)
        requires
            units::units_have(links@, 4),
        ensures
            collector.wf(),
            collector.architecture() == architecture,
            collector.units() == links@,
            collector.next_group() == 0,
    {
        QpiCollector { architecture, links, next_group: 0 }
    }

    /// Makes the next group in cyclic order go first.
    pub fn rotate_group(&mut self)
        requires
            old(self).wf(),
        ensures
            final(self).wf(),
            final(self).next_group() == (
                old(self).next_group() + 1
            ) % groups(old(self).architecture()).len() as int,
            final(self).units() == old(self).units(),
            final(self).architecture() == old(self).architecture(),
    {
        self.next_group = schedule::rotate(
            self.next_group,
            self.architecture.event_groups().len(),
        );
    }

    /// The slices of a sample over an interval, one for each group; an error over no time.
    pub fn begin_sample(&self, interval_nanos: u128) -> (result: Result<
        Vec<Slice<QpiEventGroup>>,
        CollectorError,
    >)
        requires
            self.wf(),
        ensures
            if interval_nanos == 0 {
                result matches Err(error) && error == (CollectorError::ZeroInterval {
                    unit: unit_name(self.architecture()),
                })
            } else {
                result matches Ok(slices) && schedule::is_schedule(
                    slices@,
                    groups(self.architecture()),
                    self.next_group() as int,
                    interval_nanos,
                    1,
                )
            },
    {
        if interval_nanos == 0 {
            return Err(CollectorError::ZeroInterval { unit: self.architecture.unit_text() });
        }
        let table: Vec<QpiEventGroup> = self.architecture.event_groups();
        Ok(schedule::schedule_rounds(&table, self.next_group, interval_nanos, 1))
    }

    /// Freezes and resets the counters of all links and then selects the events of a group.
    pub fn program_writes(&self, group: QpiEventGroup) -> (writes: Vec<RegisterWrite>)
        requires
            self.wf(),
        ensures
            writes@ == units::all_control_writes(
                self.units(),
                seq![reset_word(self.architecture())],
            ) + units::all_program_writes(
                self.units(),
                control_words(group),
                0,
            ),
    {
        let reset: Vec<u64> = vec![self.architecture.unit_freeze_and_reset()];
        assert(reset@ =~= seq![reset_word(self.architecture())]);
        let mut writes: Vec<RegisterWrite> = units::write_controls(&self.links, &reset);
        let mut events: Vec<RegisterWrite> = units::write_events(
            &self.links,
            &group.controls(),
            0,
        );
        writes.append(&mut events);
        writes
    }

    /// Releases the counters of all links.
    pub fn unfreeze_writes(&self) -> (writes: Vec<RegisterWrite>)
        ensures
            writes@ == units::all_control_writes(
                self.units(),
                seq![unfreeze_word(self.architecture())],
            ),
    {
        let words: Vec<u64> = vec![self.architecture.unit_unfreeze()];
        assert(words@ =~= seq![unfreeze_word(self.architecture())]);
        units::write_controls(&self.links, &words)
    }

    /// Freezes the counters of all links.
    pub fn freeze_writes(&self) -> (writes: Vec<RegisterWrite>)
        ensures
            writes@ == units::all_control_writes(
                self.units(),
                seq![freeze_word(self.architecture())],
            ),
    {
        let words: Vec<u64> = vec![self.architecture.unit_freeze()];
        assert(words@ =~= seq![freeze_word(self.architecture())]);
        units::write_controls(&self.links, &words)
    }

    /// Shows that the links can be written: setting up the collector freezes them, and it cannot be
    /// used where one of these writes is refused.
    pub fn probe_writes(&self) -> (writes: Vec<RegisterWrite>)
        ensures
            writes@ == units::all_control_writes(
                self.units(),
                seq![freeze_word(self.architecture())],
            ),
    {
        self.freeze_writes()
    }

    /// Reads the counters of all links.
    pub fn reads(&self) -> (reads: Vec<RegisterRead>)
        requires
            self.wf(),
        ensures
            reads@ == units::all_reads(self.units(), units::every_counter(4)),
    {
        units::reads(&self.links, &units::all_used(4))
    }

    /// What the counters of the links counted in a slice, link by link, to be added to the
    /// measurements one after the other.
    pub fn samples(&self, group: QpiEventGroup, readings: &SliceReadings) -> (result: Result<
        Vec<QpiSample>,
        CollectorError,
    >)
        ensures
            units::is_sampled_by_unit(self.units(), *readings, counter_kinds(group), result),
    {
        units::samples_by_unit(&self.links, readings, &group.kinds())
    }

    /// Ends a sample: the next group goes first in the next one, and the measurements are
    /// reported.
    pub fn finish_sample(&mut self, measurements: &QpiMeasurementAccumulator) -> (result: Result<
        QpiMetrics,
        CollectorError,
    >)
        requires
            old(self).wf(),
            measurements.wf(),
        ensures
            final(self).wf(),
            final(self).next_group() == (old(self).next_group() + 1) % groups(
                old(self).architecture(),
            ).len() as int,
            final(self).units() == old(self).units(),
            final(self).architecture() == old(self).architecture(),
            reported(measurements.rows(), result),
    {
        self.rotate_group();
        QpiMetrics::from_measurements(measurements)
    }
}

/// Recording a slice extends the measurements of the links by what its counters count, whatever the
/// scaled counts are.
pub proof fn record_extends(
    units: Seq<Unit<InterconnectScope>>,
    readings: SliceReadings,
    group: QpiEventGroup,
    counts: Seq<(u64, u64)>,
    before: QpiGrid,
)
    ensures
        completeness::extends(
            before,
            recorded(units, readings, group, counts, before),
            |scope: InterconnectScope| units::has_scope(units, scope),
            |kind: QpiEventKind| completeness::occurs_in(counter_kinds(group), kind),
        ),
{
    let samples = units::unit_samples(
        units,
        readings.values@,
        counter_kinds(group),
        readings.enabled_nanos,
        readings.running_nanos,
    );
    let after = with_samples(before, samples, counts);
    assert forall|scope: InterconnectScope, kind: QpiEventKind|
        (#[trigger] units::cell(after, scope, kind)) is Some <==> units::cell(
            before,
            scope,
            kind,
        ) is Some || (units::has_scope(units, scope) && completeness::occurs_in(
            counter_kinds(group),
            kind,
        )) by {
        lemma_samples_extend(before, samples, counts, scope, kind);
        if kind.is_counted() {
            completeness::lemma_samples_of_units(
                units,
                readings.values@,
                counter_kinds(group),
                readings.enabled_nanos,
                readings.running_nanos,
                scope,
                kind,
            );
        }
    }
}

/// The measurements after samples were added in turn, each with the two counts that were scaled
/// for it.
pub open spec fn with_samples(
    grid: QpiGrid,
    samples: Seq<QpiSample>,
    counts: Seq<(u64, u64)>,
) -> QpiGrid
    decreases samples.len(),
{
    if samples.len() == 0 {
        grid
    } else {
        let (held_count, added_count) = counts[samples.len() - 1];
        with_sample(
            with_samples(grid, samples.drop_last(), counts),
            samples.last(),
            held_count,
            added_count,
        )
    }
}

/// The measurements after a slice was added.
pub open spec fn recorded(
    units: Seq<Unit<InterconnectScope>>,
    readings: SliceReadings,
    group: QpiEventGroup,
    counts: Seq<(u64, u64)>,
    grid: QpiGrid,
) -> QpiGrid {
    with_samples(
        grid,
        units::unit_samples(
            units,
            readings.values@,
            counter_kinds(group),
            readings.enabled_nanos,
            readings.running_nanos,
        ),
        counts,
    )
}

proof fn lemma_samples_extend(
    grid: QpiGrid,
    samples: Seq<QpiSample>,
    counts: Seq<(u64, u64)>,
    scope: InterconnectScope,
    kind: QpiEventKind,
)
    ensures
        units::cell(with_samples(grid, samples, counts), scope, kind) is Some <==> units::cell(
            grid,
            scope,
            kind,
        ) is Some || (kind.is_counted() && completeness::sampled(samples, scope, kind)),
    decreases samples.len(),
{
    if samples.len() > 0 {
        let front = samples.drop_last();
        let last = samples.last();
        lemma_samples_extend(grid, front, counts, scope, kind);
        assert(samples =~= front + seq![last]);
        completeness::lemma_sampled_together(front, seq![last], scope, kind);
        if completeness::sampled(seq![last], scope, kind) {
            let i = choose|i: int|
                0 <= i < 1 && (#[trigger] seq![last][i]).scope == scope && seq![last][i].kind
                    == kind;
            assert(last.scope == scope && last.kind == kind);
        } else {
            assert(seq![last][0].scope != scope || seq![last][0].kind != kind);
        }
    }
}

proof fn lemma_required_is_counted(architecture: QpiArchitecture, e: int) -> (group: int)
    requires
        0 <= e < required_events().len(),
    ensures
        0 <= group < groups(architecture).len(),
        completeness::occurs_in(counter_kinds(groups(architecture)[group]), required_events()[e]),
{
    if e == 0 {
        assert(counter_kinds(groups(architecture)[0])[0] == Some(QpiEventKind::Clockticks));
        0
    } else if e == 1 {
        assert(counter_kinds(groups(architecture)[0])[3] == Some(QpiEventKind::L1PowerCycles));
        0
    } else if e == 2 {
        assert(counter_kinds(groups(architecture)[2])[0] == Some(QpiEventKind::RxL0pPowerCycles));
        2
    } else if e == 3 {
        assert(counter_kinds(groups(architecture)[2])[1] == Some(QpiEventKind::TxL0pPowerCycles));
        2
    } else if e == 4 {
        assert(counter_kinds(groups(architecture)[1])[2] == Some(QpiEventKind::RxQueueInserts));
        1
    } else if e == 5 {
        assert(counter_kinds(groups(architecture)[1])[3] == Some(QpiEventKind::RxQueueOccupancy));
        1
    } else if e == 6 {
        assert(counter_kinds(groups(architecture)[1])[0] == Some(QpiEventKind::TxQueueInserts));
        1
    } else {
        assert(counter_kinds(groups(architecture)[1])[1] == Some(QpiEventKind::TxQueueOccupancy));
        1
    }
}

proof fn lemma_required_has_slice(
    architecture: QpiArchitecture,
    next_group: int,
    interval_nanos: u128,
    slices: Seq<Slice<QpiEventGroup>>,
    e: int,
) -> (slice: int)
    requires
        0 <= next_group < groups(architecture).len(),
        schedule::is_schedule(slices, groups(architecture), next_group, interval_nanos, 1),
        0 <= e < required_events().len(),
    ensures
        0 <= slice < slices.len(),
        completeness::occurs_in(counter_kinds(slices[slice].group), required_events()[e]),
{
    let group = lemma_required_is_counted(architecture, e);
    completeness::schedule_runs_group(
        slices,
        groups(architecture),
        next_group,
        interval_nanos,
        1,
        group,
    )
}

/// A sample that ran all of its slices is reported: no event that a report needs is missing, and
/// every link is in it.
#[verifier::spinoff_prover]
pub proof fn complete_sample_is_reported(
    collector: QpiCollector,
    interval_nanos: u128,
    slices: Seq<Slice<QpiEventGroup>>,
    readings: Seq<SliceReadings>,
    counts: Seq<Seq<(u64, u64)>>,
    steps: Seq<QpiMeasurementAccumulator>,
    result: Result<QpiMetrics, CollectorError>,
)
    requires
        collector.wf(),
        schedule::is_schedule(
            slices,
            groups(collector.architecture()),
            collector.next_group() as int,
            interval_nanos,
            1,
        ),
        steps.len() == slices.len() + 1,
        steps.last().wf(),
        steps[0].grid() == Map::<
            InterconnectScope,
            Map<QpiEventKind, QpiEventMeasurement>,
        >::empty(),
        forall|i: int|
            0 <= i < slices.len() ==> steps[i + 1].grid() == recorded(
                collector.units(),
                readings[i],
                (#[trigger] slices[i]).group,
                counts[i],
                steps[i].grid(),
            ),
        reported(steps.last().rows(), result),
    ensures
        result is Ok,
        forall|scope: InterconnectScope|
            steps.last().grid().contains_key(scope) <==> #[trigger] units::has_scope(
                collector.units(),
                scope,
            ),
{
    let grids = steps.map_values(|step: QpiMeasurementAccumulator| step.grid());
    let scopes = |scope: InterconnectScope| units::has_scope(collector.units(), scope);
    let counted = |i: int, kind: QpiEventKind|
        completeness::occurs_in(counter_kinds(slices[i].group), kind);
    assert forall|i: int| 0 <= i < grids.len() - 1 implies completeness::extends(
        #[trigger] grids[i],
        grids[i + 1],
        scopes,
        |kind: QpiEventKind| counted(i, kind),
    ) by {
        record_extends(
            collector.units(),
            readings[i],
            slices[i].group,
            counts[i],
            steps[i].grid(),
        );
    }
    assert forall|e: int| 0 <= e < required_events().len() implies exists|i: int|
        0 <= i < grids.len() - 1 && #[trigger] counted(i, #[trigger] required_events()[e]) by {
        let i = lemma_required_has_slice(
            collector.architecture(),
            collector.next_group() as int,
            interval_nanos,
            slices,
            e,
        );
        assert(counted(i, required_events()[e]));
    }
    completeness::complete_course_has_no_gap(
        steps.last().held(),
        grids,
        scopes,
        counted,
        required_events(),
    );
    assert forall|scope: InterconnectScope|
        steps.last().grid().contains_key(scope) <==> #[trigger] units::has_scope(
            collector.units(),
            scope,
        ) by {
        assert(scopes(scope) == units::has_scope(collector.units(), scope));
    }
}

} // verus!
