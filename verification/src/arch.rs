//! Processor identification.
use vstd::prelude::*;

verus! {

/// Intel server processors that some collector knows.
#[derive(Clone, Copy, Debug, PartialEq, Eq, Structural)]
pub enum IntelServerCpuModel {
    BroadwellDe,
    BroadwellXeon,
    EmeraldRapids,
    HaswellXeon,
    IceLakeXeon,
    IvyTown,
    SandyBridgeEp,
    SapphireRapids,
    SkylakeXeon,
}

/// The processor that CPUID family and model numbers stand for.
pub open spec fn model_of(family: u8, model: u8) -> Option<IntelServerCpuModel> {
    if family != 6 {
        None
    } else if model == 0x2d {
        Some(IntelServerCpuModel::SandyBridgeEp)
    } else if model == 0x3e {
        Some(IntelServerCpuModel::IvyTown)
    } else if model == 0x3f {
        Some(IntelServerCpuModel::HaswellXeon)
    } else if model == 0x4f {
        Some(IntelServerCpuModel::BroadwellXeon)
    } else if model == 0x56 {
        Some(IntelServerCpuModel::BroadwellDe)
    } else if model == 0x55 {
        Some(IntelServerCpuModel::SkylakeXeon)
    } else if model == 0x6a {
        Some(IntelServerCpuModel::IceLakeXeon)
    } else if model == 0x8f {
        Some(IntelServerCpuModel::SapphireRapids)
    } else if model == 0xcf {
        Some(IntelServerCpuModel::EmeraldRapids)
    } else {
        None
    }
}

impl IntelServerCpuModel {
    /// Finds the processor by its CPUID family and model numbers.
    pub fn from_family_model(family: u8, model: u8) -> (found: Option<Self>)
        ensures
            found == model_of(family, model),
    {
        if family != 6 {
            return None;
        }
        match model {
            0x2d => Some(IntelServerCpuModel::SandyBridgeEp),
            0x3e => Some(IntelServerCpuModel::IvyTown),
            0x3f => Some(IntelServerCpuModel::HaswellXeon),
            0x4f => Some(IntelServerCpuModel::BroadwellXeon),
            0x55 => Some(IntelServerCpuModel::SkylakeXeon),
            0x56 => Some(IntelServerCpuModel::BroadwellDe),
            0x6a => Some(IntelServerCpuModel::IceLakeXeon),
            0x8f => Some(IntelServerCpuModel::SapphireRapids),
            0xcf => Some(IntelServerCpuModel::EmeraldRapids),
            _ => None,
        }
    }
}

/// The processor that the exporter runs on.
#[derive(Clone, Debug)]
pub struct Architecture {
    pub brand: String,
    pub family: u8,
    pub model: u8,
    pub vendor: String,
}

impl Architecture {
    /// The server processor, if it is a known one.
    pub open spec fn server_model(self) -> Option<IntelServerCpuModel> {
        model_of(self.family, self.model)
    }

    /// The server processor.
    pub fn intel_server_model(&self) -> (model: IntelServerCpuModel)
        requires
            self.server_model() is Some,
        ensures
            Some(model) == self.server_model(),
    {
        match IntelServerCpuModel::from_family_model(self.family, self.model) {
            Some(model) => model,
            None => IntelServerCpuModel::SkylakeXeon,
        }
    }
}

} // verus!
