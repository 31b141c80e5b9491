//! What Sandy Bridge-EP and Ivy Bridge-EP processors have in common and where they differ.
use crate::arch::IntelServerCpuModel;
use vstd::prelude::*;

verus! {

/// Where the device of a socket holds the node number of the socket.
pub const UBOX_LOCAL_NODE_ID_OFFSET: u64 = 0x40;

/// Where the device of a socket holds the mapping from packages to node numbers.
pub const UBOX_GID_OFFSET: u64 = 0x54;

/// A processor of the family.
#[derive(Clone, Copy, Debug, PartialEq, Eq, Structural)]
pub enum SnbArchitecture {
    Ivb,
    Snb,
}

/// The processor of the family that a model is.
pub open spec fn family_member(model: IntelServerCpuModel) -> Option<SnbArchitecture> {
    match model {
        IntelServerCpuModel::IvyTown => Some(SnbArchitecture::Ivb),
        IntelServerCpuModel::SandyBridgeEp => Some(SnbArchitecture::Snb),
        _ => None,
    }
}

/// The name of a processor.
pub open spec fn name_of(architecture: SnbArchitecture) -> &'static str {
    match architecture {
        SnbArchitecture::Ivb => "Ivy Bridge-EP",
        SnbArchitecture::Snb => "Sandy Bridge-EP",
    }
}

/// The bit without which a frozen unit of a Sandy Bridge would not freeze; Ivy Bridge has none.
pub open spec fn freeze_enable(architecture: SnbArchitecture) -> u64 {
    match architecture {
        SnbArchitecture::Ivb => 0,
        SnbArchitecture::Snb => 0x1_0000,
    }
}

/// Freezes the counters of a unit.
pub open spec fn freeze_word(architecture: SnbArchitecture) -> u64 {
    (freeze_enable(architecture) + 0x100) as u64
}

/// Freezes the counters of a unit and resets its counters and event selections.
pub open spec fn reset_word(architecture: SnbArchitecture) -> u64 {
    (freeze_enable(architecture) + 0x103) as u64
}

impl SnbArchitecture {
    /// The processor of the family that a model is.
    pub fn from_model(model: IntelServerCpuModel) -> (architecture: Option<Self>)
        ensures
            architecture == family_member(model),
    {
        match model {
            IntelServerCpuModel::IvyTown => Some(SnbArchitecture::Ivb),
            IntelServerCpuModel::SandyBridgeEp => Some(SnbArchitecture::Snb),
            _ => None,
        }
    }

    /// The name of the processor.
    pub fn name(self) -> (name: &'static str)
        ensures
            name == name_of(self),
    {
        match self {
            SnbArchitecture::Ivb => "Ivy Bridge-EP",
            SnbArchitecture::Snb => "Sandy Bridge-EP",
        }
    }

    /// The device id of the device that tells the node number of a socket.
    pub fn ubox_device_id(self) -> (id: u16)
        ensures
            id == (match self {
                SnbArchitecture::Ivb => 0x0e1eu16,
                SnbArchitecture::Snb => 0x3ce0u16,
            }),
    {
        match self {
            SnbArchitecture::Ivb => 0x0e1e,
            SnbArchitecture::Snb => 0x3ce0,
        }
    }

    /// The bit that makes a unit freeze.
    pub fn unit_freeze_enable(self) -> (word: u64)
        ensures
            word == freeze_enable(self),
    {
        match self {
            SnbArchitecture::Ivb => 0,
            SnbArchitecture::Snb => 0x1_0000,
        }
    }

    /// Freezes the counters of a unit.
    pub fn unit_freeze(self) -> (word: u64)
        ensures
            word == freeze_word(self),
    {
        self.unit_freeze_enable() + 0x100
    }

    /// Freezes the counters of a unit and resets its counters and event selections.
    pub fn unit_freeze_and_reset(self) -> (word: u64)
        ensures
            word == reset_word(self),
    {
        self.unit_freeze_enable() + 0x103
    }

    /// Releases the counters of a unit.
    pub fn unit_unfreeze(self) -> (word: u64)
        ensures
            word == freeze_enable(self),
    {
        self.unit_freeze_enable()
    }
}

} // verus!
