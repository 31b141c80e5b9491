//! Power control units.

pub mod common;
pub mod hsx;
pub mod icx;
pub mod skx;
pub mod snb;
pub mod spr;

use crate::arch::{self, Architecture, IntelServerCpuModel};
use crate::discovery::UncoreDiscoverySocketBoxes;
use crate::error::CollectorError;
use crate::export::{self, GaugeUpdate, Labels, MetricDescriptor};
use crate::metrics::pcu::common::PcuPlace;
use crate::metrics::InfoMetadata;
use crate::ordered_map::Key;
use crate::quantity::Quantity;
use crate::topology::{
    self, CpuTopology, HsxUncoreScope, TopologyLevel, TopologyLevelKind, TopologyScope, UncoreScope,
};
use vstd::prelude::*;

verus! {

/// What is reported, by processor.
#[derive(Debug)]
pub enum PcuMetrics {
    Bdx(hsx::HsxPcuMetrics),
    BdxDe(hsx::HsxPcuMetrics),
    Emr(spr::SprPcuMetrics),
    Hsx(hsx::HsxPcuMetrics),
    Icx(icx::IcxPcuMetrics),
    Ivb(snb::SnbPcuMetrics),
    Skx(skx::SkxPcuMetrics),
    Snb(snb::SnbPcuMetrics),
    Spr(spr::SprPcuMetrics),
}

/// A collector, by processor.
#[derive(Debug)]
pub enum PcuCollector {
    Bdx(hsx::HsxPcuCollector),
    BdxDe(hsx::HsxPcuCollector),
    Emr(spr::SprPcuCollector),
    Hsx(hsx::HsxPcuCollector),
    Icx(icx::IcxPcuCollector),
    Ivb(snb::SnbPcuCollector),
    Skx(skx::SkxPcuCollector),
    Snb(snb::SnbPcuCollector),
    Spr(spr::SprPcuCollector),
}

/// What is known of a machine before its power control units are looked for.
#[derive(Debug)]
pub struct PcuInventory {
    pub sockets: Vec<UncoreDiscoverySocketBoxes<UncoreScope>>,
    pub topologies: Vec<CpuTopology>,
}

/// Whether there is a collector for a processor.
pub open spec fn is_known(model: IntelServerCpuModel) -> bool {
    ||| model == IntelServerCpuModel::BroadwellXeon
    ||| model == IntelServerCpuModel::BroadwellDe
    ||| model == IntelServerCpuModel::EmeraldRapids
    ||| model == IntelServerCpuModel::HaswellXeon
    ||| model == IntelServerCpuModel::IceLakeXeon
    ||| model == IntelServerCpuModel::IvyTown
    ||| model == IntelServerCpuModel::SkylakeXeon
    ||| model == IntelServerCpuModel::SandyBridgeEp
    ||| model == IntelServerCpuModel::SapphireRapids
}

/// Whether `result` is the collector for a processor: what the collector of its family makes of
/// the inventory, and an error for a processor without one.
pub open spec fn created(
    architecture: Architecture,
    inventory: PcuInventory,
    result: Result<PcuCollector, CollectorError>,
) -> bool {
    let model = architecture.server_model()->0;
    match result {
        Ok(PcuCollector::Bdx(collector)) => (
            model == IntelServerCpuModel::BroadwellXeon
        ) && hsx::created(
            architecture, inventory.topologies@,
            Ok(collector),
        ),
        Ok(PcuCollector::BdxDe(collector)) => (
            model == IntelServerCpuModel::BroadwellDe
        ) && hsx::created(
            architecture, inventory.topologies@,
            Ok(collector),
        ),
        Ok(PcuCollector::Emr(collector)) => (
            model == IntelServerCpuModel::EmeraldRapids
        ) && spr::created(
            inventory.sockets@, inventory.topologies@,
            Ok(collector),
        ),
        Ok(PcuCollector::Hsx(collector)) => (
            model == IntelServerCpuModel::HaswellXeon
        ) && hsx::created(
            architecture, inventory.topologies@,
            Ok(collector),
        ),
        Ok(PcuCollector::Icx(collector)) => (
            model == IntelServerCpuModel::IceLakeXeon
        ) && icx::created(
            architecture, inventory.topologies@,
            Ok(collector),
        ),
        Ok(PcuCollector::Ivb(collector)) => (model == IntelServerCpuModel::IvyTown) && snb::created(
            architecture, inventory.topologies@,
            Ok(collector),
        ),
        Ok(PcuCollector::Skx(collector)) => (
            model == IntelServerCpuModel::SkylakeXeon
        ) && skx::created(
            architecture, inventory.topologies@,
            Ok(collector),
        ),
        Ok(PcuCollector::Snb(collector)) => (
            model == IntelServerCpuModel::SandyBridgeEp
        ) && snb::created(
            architecture, inventory.topologies@,
            Ok(collector),
        ),
        Ok(PcuCollector::Spr(collector)) => (
            model == IntelServerCpuModel::SapphireRapids
        ) && spr::created(
            inventory.sockets@, inventory.topologies@,
            Ok(collector),
        ),
        Err(error) => match model {
            IntelServerCpuModel::BroadwellXeon => hsx::created(
                architecture, inventory.topologies@,
                Err(error),
            ),
            IntelServerCpuModel::BroadwellDe => hsx::created(
                architecture, inventory.topologies@,
                Err(error),
            ),
            IntelServerCpuModel::EmeraldRapids => spr::created(
                inventory.sockets@, inventory.topologies@,
                Err(error),
            ),
            IntelServerCpuModel::HaswellXeon => hsx::created(
                architecture, inventory.topologies@,
                Err(error),
            ),
            IntelServerCpuModel::IceLakeXeon => icx::created(
                architecture, inventory.topologies@,
                Err(error),
            ),
            IntelServerCpuModel::IvyTown => snb::created(
                architecture, inventory.topologies@,
                Err(error),
            ),
            IntelServerCpuModel::SkylakeXeon => skx::created(
                architecture, inventory.topologies@,
                Err(error),
            ),
            IntelServerCpuModel::SandyBridgeEp => snb::created(
                architecture, inventory.topologies@,
                Err(error),
            ),
            IntelServerCpuModel::SapphireRapids => spr::created(
                inventory.sockets@, inventory.topologies@,
                Err(error),
            ),
            _ => error == (CollectorError::Unsupported { unit: "PCU", model }),
        },
    }
}

impl PcuCollector {
    /// A collector for the processor.
    pub fn new(architecture: &Architecture, inventory: &PcuInventory) -> (result: Result<
        Self,
        CollectorError,
    >)
        requires
            architecture.server_model() is Some,
        ensures
            created(*architecture, *inventory, result),
    {
        let model = architecture.intel_server_model();
        match model {
            IntelServerCpuModel::BroadwellXeon => match hsx::HsxPcuCollector::new(
                architecture, &inventory.topologies,
            ) {
                Ok(collector) => Ok(PcuCollector::Bdx(collector)),
                Err(error) => Err(error),
            },
            IntelServerCpuModel::BroadwellDe => match hsx::HsxPcuCollector::new(
                architecture, &inventory.topologies,
            ) {
                Ok(collector) => Ok(PcuCollector::BdxDe(collector)),
                Err(error) => Err(error),
            },
            IntelServerCpuModel::EmeraldRapids => match spr::SprPcuCollector::new(
                &inventory.sockets, &inventory.topologies,
            ) {
                Ok(collector) => Ok(PcuCollector::Emr(collector)),
                Err(error) => Err(error),
            },
            IntelServerCpuModel::HaswellXeon => match hsx::HsxPcuCollector::new(
                architecture, &inventory.topologies,
            ) {
                Ok(collector) => Ok(PcuCollector::Hsx(collector)),
                Err(error) => Err(error),
            },
            IntelServerCpuModel::IceLakeXeon => match icx::IcxPcuCollector::new(
                architecture, &inventory.topologies,
            ) {
                Ok(collector) => Ok(PcuCollector::Icx(collector)),
                Err(error) => Err(error),
            },
            IntelServerCpuModel::IvyTown => match snb::SnbPcuCollector::new(
                architecture, &inventory.topologies,
            ) {
                Ok(collector) => Ok(PcuCollector::Ivb(collector)),
                Err(error) => Err(error),
            },
            IntelServerCpuModel::SkylakeXeon => match skx::SkxPcuCollector::new(
                architecture, &inventory.topologies,
            ) {
                Ok(collector) => Ok(PcuCollector::Skx(collector)),
                Err(error) => Err(error),
            },
            IntelServerCpuModel::SandyBridgeEp => match snb::SnbPcuCollector::new(
                architecture, &inventory.topologies,
            ) {
                Ok(collector) => Ok(PcuCollector::Snb(collector)),
                Err(error) => Err(error),
            },
            IntelServerCpuModel::SapphireRapids => match spr::SprPcuCollector::new(
                &inventory.sockets, &inventory.topologies,
            ) {
                Ok(collector) => Ok(PcuCollector::Spr(collector)),
                Err(error) => Err(error),
            },
        }
    }

    /// Whether there is a collector for the processor.
    pub fn is_supported(architecture: &Architecture) -> (supported: bool)
        ensures
            supported == match architecture.server_model() {
                Some(model) => is_known(model),
                None => false,
            },
    {
        match IntelServerCpuModel::from_family_model(architecture.family, architecture.model) {
            Some(
                IntelServerCpuModel::BroadwellXeon
                | IntelServerCpuModel::BroadwellDe
                | IntelServerCpuModel::EmeraldRapids
                | IntelServerCpuModel::HaswellXeon
                | IntelServerCpuModel::IceLakeXeon
                | IntelServerCpuModel::IvyTown
                | IntelServerCpuModel::SkylakeXeon
                | IntelServerCpuModel::SandyBridgeEp
                | IntelServerCpuModel::SapphireRapids,
            ) => true,
            _ => false,
        }
    }
}

/// A processor has a collector if and only if making one does not fail for want of support.
pub proof fn supported_means_not_refused(
    architecture: Architecture,
    inventory: PcuInventory,
    result: Result<PcuCollector, CollectorError>,
)
    requires
        architecture.server_model() is Some,
        created(architecture, inventory, result),
    ensures
        is_known(architecture.server_model()->0) <==> !(result matches Err(
            CollectorError::Unsupported { .. },
        )),
{
}

/// The metric families, by processor.
#[derive(Clone, Copy, Debug)]
pub enum PcuPrometheusMetrics {
    Bdx(hsx::HsxPcuPrometheusMetrics),
    BdxDe(hsx::HsxPcuPrometheusMetrics),
    Emr(spr::SprPcuPrometheusMetrics),
    Hsx(hsx::HsxPcuPrometheusMetrics),
    Icx(icx::IcxPcuPrometheusMetrics),
    Ivb(snb::SnbPcuPrometheusMetrics),
    Skx(skx::SkxPcuPrometheusMetrics),
    Snb(snb::SnbPcuPrometheusMetrics),
    Spr(spr::SprPcuPrometheusMetrics),
}

/// The metric families of a processor.
pub open spec fn families(prometheus: PcuPrometheusMetrics) -> Seq<MetricDescriptor> {
    match prometheus {
        PcuPrometheusMetrics::Bdx(_) => hsx::families(),
        PcuPrometheusMetrics::BdxDe(_) => hsx::families(),
        PcuPrometheusMetrics::Emr(_) => spr::families(),
        PcuPrometheusMetrics::Hsx(_) => hsx::families(),
        PcuPrometheusMetrics::Icx(_) => icx::families(),
        PcuPrometheusMetrics::Ivb(_) => snb::families(),
        PcuPrometheusMetrics::Skx(_) => skx::families(),
        PcuPrometheusMetrics::Snb(_) => snb::families(),
        PcuPrometheusMetrics::Spr(_) => spr::families(),
    }
}

/// The metrics that are set: those of the report, where it is one of the processor that the
/// families were registered for, and else none.
pub open spec fn all_updates(
    prometheus: PcuPrometheusMetrics,
    metrics: PcuMetrics,
) -> Seq<GaugeUpdate> {
    match (prometheus, metrics) {
        (PcuPrometheusMetrics::Bdx(_), PcuMetrics::Bdx(metrics)) => hsx::all_updates(metrics),
        (PcuPrometheusMetrics::BdxDe(_), PcuMetrics::BdxDe(metrics)) => hsx::all_updates(metrics),
        (PcuPrometheusMetrics::Emr(_), PcuMetrics::Emr(metrics)) => spr::all_updates(metrics),
        (PcuPrometheusMetrics::Hsx(_), PcuMetrics::Hsx(metrics)) => hsx::all_updates(metrics),
        (PcuPrometheusMetrics::Icx(_), PcuMetrics::Icx(metrics)) => icx::all_updates(metrics),
        (PcuPrometheusMetrics::Ivb(_), PcuMetrics::Ivb(metrics)) => snb::all_updates(metrics),
        (PcuPrometheusMetrics::Skx(_), PcuMetrics::Skx(metrics)) => skx::all_updates(metrics),
        (PcuPrometheusMetrics::Snb(_), PcuMetrics::Snb(metrics)) => snb::all_updates(metrics),
        (PcuPrometheusMetrics::Spr(_), PcuMetrics::Spr(metrics)) => spr::all_updates(metrics),
        _ => Seq::empty(),
    }
}

/// The metric families that are registered for a processor.
pub open spec fn registered(model: Option<IntelServerCpuModel>) -> Option<PcuPrometheusMetrics> {
    match model {
        Some(IntelServerCpuModel::BroadwellXeon) => Some(
            PcuPrometheusMetrics::Bdx(hsx::HsxPcuPrometheusMetrics),
        ),
        Some(IntelServerCpuModel::BroadwellDe) => Some(
            PcuPrometheusMetrics::BdxDe(hsx::HsxPcuPrometheusMetrics),
        ),
        Some(IntelServerCpuModel::EmeraldRapids) => Some(
            PcuPrometheusMetrics::Emr(spr::SprPcuPrometheusMetrics),
        ),
        Some(IntelServerCpuModel::HaswellXeon) => Some(
            PcuPrometheusMetrics::Hsx(hsx::HsxPcuPrometheusMetrics),
        ),
        Some(IntelServerCpuModel::IceLakeXeon) => Some(
            PcuPrometheusMetrics::Icx(icx::IcxPcuPrometheusMetrics),
        ),
        Some(IntelServerCpuModel::IvyTown) => Some(
            PcuPrometheusMetrics::Ivb(snb::SnbPcuPrometheusMetrics),
        ),
        Some(IntelServerCpuModel::SkylakeXeon) => Some(
            PcuPrometheusMetrics::Skx(skx::SkxPcuPrometheusMetrics),
        ),
        Some(IntelServerCpuModel::SandyBridgeEp) => Some(
            PcuPrometheusMetrics::Snb(snb::SnbPcuPrometheusMetrics),
        ),
        Some(IntelServerCpuModel::SapphireRapids) => Some(
            PcuPrometheusMetrics::Spr(spr::SprPcuPrometheusMetrics),
        ),
        _ => None,
    }
}

impl PcuPrometheusMetrics {
    /// The metric families for the processor; nothing where it has no collector.
    pub fn register(metadata: &InfoMetadata) -> (result: Option<Self>)
        ensures
            result == registered(
                arch::model_of(metadata.processor.family, metadata.processor.model),
            ),
    {
        match IntelServerCpuModel::from_family_model(
            metadata.processor.family,
            metadata.processor.model,
        ) {
            Some(IntelServerCpuModel::BroadwellXeon) => Some(
                PcuPrometheusMetrics::Bdx(hsx::HsxPcuPrometheusMetrics),
            ),
            Some(IntelServerCpuModel::BroadwellDe) => Some(
                PcuPrometheusMetrics::BdxDe(hsx::HsxPcuPrometheusMetrics),
            ),
            Some(IntelServerCpuModel::EmeraldRapids) => Some(
                PcuPrometheusMetrics::Emr(spr::SprPcuPrometheusMetrics),
            ),
            Some(IntelServerCpuModel::HaswellXeon) => Some(
                PcuPrometheusMetrics::Hsx(hsx::HsxPcuPrometheusMetrics),
            ),
            Some(IntelServerCpuModel::IceLakeXeon) => Some(
                PcuPrometheusMetrics::Icx(icx::IcxPcuPrometheusMetrics),
            ),
            Some(IntelServerCpuModel::IvyTown) => Some(
                PcuPrometheusMetrics::Ivb(snb::SnbPcuPrometheusMetrics),
            ),
            Some(IntelServerCpuModel::SkylakeXeon) => Some(
                PcuPrometheusMetrics::Skx(skx::SkxPcuPrometheusMetrics),
            ),
            Some(IntelServerCpuModel::SandyBridgeEp) => Some(
                PcuPrometheusMetrics::Snb(snb::SnbPcuPrometheusMetrics),
            ),
            Some(IntelServerCpuModel::SapphireRapids) => Some(
                PcuPrometheusMetrics::Spr(spr::SprPcuPrometheusMetrics),
            ),
            _ => None,
        }
    }

    /// The families to be registered.
    pub fn descriptors(&self) -> (list: Vec<MetricDescriptor>)
        ensures
            list@ == families(*self),
    {
        match self {
            PcuPrometheusMetrics::Bdx(_) => hsx::HsxPcuPrometheusMetrics::register(),
            PcuPrometheusMetrics::BdxDe(_) => hsx::HsxPcuPrometheusMetrics::register(),
            PcuPrometheusMetrics::Emr(_) => spr::SprPcuPrometheusMetrics::register(),
            PcuPrometheusMetrics::Hsx(_) => hsx::HsxPcuPrometheusMetrics::register(),
            PcuPrometheusMetrics::Icx(_) => icx::IcxPcuPrometheusMetrics::register(),
            PcuPrometheusMetrics::Ivb(_) => snb::SnbPcuPrometheusMetrics::register(),
            PcuPrometheusMetrics::Skx(_) => skx::SkxPcuPrometheusMetrics::register(),
            PcuPrometheusMetrics::Snb(_) => snb::SnbPcuPrometheusMetrics::register(),
            PcuPrometheusMetrics::Spr(_) => spr::SprPcuPrometheusMetrics::register(),
        }
    }

    /// Whether a report is one of the processor that the families were registered for.
    pub fn accepts(&self, metrics: &PcuMetrics) -> (result: bool)
        ensures
            result == same_family(*self, *metrics),
    {
        match (self, metrics) {
            (PcuPrometheusMetrics::Bdx(_), PcuMetrics::Bdx(_)) => true,
            (PcuPrometheusMetrics::BdxDe(_), PcuMetrics::BdxDe(_)) => true,
            (PcuPrometheusMetrics::Emr(_), PcuMetrics::Emr(_)) => true,
            (PcuPrometheusMetrics::Hsx(_), PcuMetrics::Hsx(_)) => true,
            (PcuPrometheusMetrics::Icx(_), PcuMetrics::Icx(_)) => true,
            (PcuPrometheusMetrics::Ivb(_), PcuMetrics::Ivb(_)) => true,
            (PcuPrometheusMetrics::Skx(_), PcuMetrics::Skx(_)) => true,
            (PcuPrometheusMetrics::Snb(_), PcuMetrics::Snb(_)) => true,
            (PcuPrometheusMetrics::Spr(_), PcuMetrics::Spr(_)) => true,
            _ => false,
        }
    }

    /// The metrics to be set.
    pub fn update(&self, metrics: &PcuMetrics) -> (updates: Vec<GaugeUpdate>)
        ensures
            updates@ == all_updates(*self, *metrics),
    {
        match (self, metrics) {
            (PcuPrometheusMetrics::Bdx(prometheus), PcuMetrics::Bdx(metrics)) => prometheus.update(metrics),
            (PcuPrometheusMetrics::BdxDe(prometheus), PcuMetrics::BdxDe(metrics)) => prometheus.update(metrics),
            (PcuPrometheusMetrics::Emr(prometheus), PcuMetrics::Emr(metrics)) => prometheus.update(metrics),
            (PcuPrometheusMetrics::Hsx(prometheus), PcuMetrics::Hsx(metrics)) => prometheus.update(metrics),
            (PcuPrometheusMetrics::Icx(prometheus), PcuMetrics::Icx(metrics)) => prometheus.update(metrics),
            (PcuPrometheusMetrics::Ivb(prometheus), PcuMetrics::Ivb(metrics)) => prometheus.update(metrics),
            (PcuPrometheusMetrics::Skx(prometheus), PcuMetrics::Skx(metrics)) => prometheus.update(metrics),
            (PcuPrometheusMetrics::Snb(prometheus), PcuMetrics::Snb(metrics)) => prometheus.update(metrics),
            (PcuPrometheusMetrics::Spr(prometheus), PcuMetrics::Spr(metrics)) => prometheus.update(metrics),
            _ => Vec::new(),
        }
    }
}

/// Whether a report is one of the processor that the families were registered for.
pub open spec fn same_family(prometheus: PcuPrometheusMetrics, metrics: PcuMetrics) -> bool {
    match (prometheus, metrics) {
        (PcuPrometheusMetrics::Bdx(_), PcuMetrics::Bdx(_)) => true,
        (PcuPrometheusMetrics::BdxDe(_), PcuMetrics::BdxDe(_)) => true,
        (PcuPrometheusMetrics::Emr(_), PcuMetrics::Emr(_)) => true,
        (PcuPrometheusMetrics::Hsx(_), PcuMetrics::Hsx(_)) => true,
        (PcuPrometheusMetrics::Icx(_), PcuMetrics::Icx(_)) => true,
        (PcuPrometheusMetrics::Ivb(_), PcuMetrics::Ivb(_)) => true,
        (PcuPrometheusMetrics::Skx(_), PcuMetrics::Skx(_)) => true,
        (PcuPrometheusMetrics::Snb(_), PcuMetrics::Snb(_)) => true,
        (PcuPrometheusMetrics::Spr(_), PcuMetrics::Spr(_)) => true,
        _ => false,
    }
}

/// Metric families are registered for exactly the processors that have a collector.
pub proof fn families_are_registered_where_supported(model: IntelServerCpuModel)
    ensures
        registered(Some(model)) is Some <==> is_known(model),
{
}

/// Every metric that is set belongs to a family that is registered.
pub proof fn updates_are_registered(prometheus: PcuPrometheusMetrics, metrics: PcuMetrics)
    ensures
        export::all_registered(all_updates(prometheus, metrics), families(prometheus)),
{
    match (prometheus, metrics) {
        (PcuPrometheusMetrics::Bdx(_), PcuMetrics::Bdx(metrics)) => {
            hsx::updates_are_registered(metrics);
        },
        (PcuPrometheusMetrics::BdxDe(_), PcuMetrics::BdxDe(metrics)) => {
            hsx::updates_are_registered(metrics);
        },
        (PcuPrometheusMetrics::Emr(_), PcuMetrics::Emr(metrics)) => {
            spr::updates_are_registered(metrics);
        },
        (PcuPrometheusMetrics::Hsx(_), PcuMetrics::Hsx(metrics)) => {
            hsx::updates_are_registered(metrics);
        },
        (PcuPrometheusMetrics::Icx(_), PcuMetrics::Icx(metrics)) => {
            icx::updates_are_registered(metrics);
        },
        (PcuPrometheusMetrics::Ivb(_), PcuMetrics::Ivb(metrics)) => {
            snb::updates_are_registered(metrics);
        },
        (PcuPrometheusMetrics::Skx(_), PcuMetrics::Skx(metrics)) => {
            skx::updates_are_registered(metrics);
        },
        (PcuPrometheusMetrics::Snb(_), PcuMetrics::Snb(metrics)) => {
            snb::updates_are_registered(metrics);
        },
        (PcuPrometheusMetrics::Spr(_), PcuMetrics::Spr(metrics)) => {
            spr::updates_are_registered(metrics);
        },
        _ => {},
    }
}

/// A C-state of a core or a package.
#[derive(Clone, Copy, Debug, PartialEq, Eq, Structural, Hash)]
pub enum PcuCoreCState {
    C0,
    C3,
    C6,
}

/// The place of a value in the order of the values.
pub open spec fn state_index(value: PcuCoreCState) -> int {
    match value {
        PcuCoreCState::C0 => 0,
        PcuCoreCState::C3 => 1,
        PcuCoreCState::C6 => 2,
    }
}

/// The label of a value.
pub open spec fn state_label(value: PcuCoreCState) -> &'static str {
    match value {
        PcuCoreCState::C0 => "c0",
        PcuCoreCState::C3 => "c3",
        PcuCoreCState::C6 => "c6",
    }
}

impl PcuCoreCState {
    /// The place of the value in the order of the values.
    pub fn index(self) -> (index: u8)
        ensures
            index == state_index(self),
            index < 3,
    {
        match self {
            PcuCoreCState::C0 => 0,
            PcuCoreCState::C3 => 1,
            PcuCoreCState::C6 => 2,
        }
    }

    /// The label of the value.
    pub fn label(self) -> (label: &'static str)
        ensures
            label == state_label(self),
    {
        match self {
            PcuCoreCState::C0 => "c0",
            PcuCoreCState::C3 => "c3",
            PcuCoreCState::C6 => "c6",
        }
    }
}

/// What limits the frequency of a processor.
#[derive(Clone, Copy, Debug, PartialEq, Eq, Structural, Hash)]
pub enum PcuFrequencyLimitReason {
    Current,
    IoP,
    Os,
    PerfP,
    Power,
    Thermal,
}

/// The place of a value in the order of the values.
pub open spec fn reason_index(value: PcuFrequencyLimitReason) -> int {
    match value {
        PcuFrequencyLimitReason::Current => 0,
        PcuFrequencyLimitReason::IoP => 1,
        PcuFrequencyLimitReason::Os => 2,
        PcuFrequencyLimitReason::PerfP => 3,
        PcuFrequencyLimitReason::Power => 4,
        PcuFrequencyLimitReason::Thermal => 5,
    }
}

/// The label of a value.
pub open spec fn reason_label(value: PcuFrequencyLimitReason) -> &'static str {
    match value {
        PcuFrequencyLimitReason::Current => "current",
        PcuFrequencyLimitReason::IoP => "io_p",
        PcuFrequencyLimitReason::Os => "os",
        PcuFrequencyLimitReason::PerfP => "perf_p",
        PcuFrequencyLimitReason::Power => "power",
        PcuFrequencyLimitReason::Thermal => "thermal",
    }
}

impl PcuFrequencyLimitReason {
    /// The place of the value in the order of the values.
    pub fn index(self) -> (index: u8)
        ensures
            index == reason_index(self),
            index < 6,
    {
        match self {
            PcuFrequencyLimitReason::Current => 0,
            PcuFrequencyLimitReason::IoP => 1,
            PcuFrequencyLimitReason::Os => 2,
            PcuFrequencyLimitReason::PerfP => 3,
            PcuFrequencyLimitReason::Power => 4,
            PcuFrequencyLimitReason::Thermal => 5,
        }
    }

    /// The label of the value.
    pub fn label(self) -> (label: &'static str)
        ensures
            label == reason_label(self),
    {
        match self {
            PcuFrequencyLimitReason::Current => "current",
            PcuFrequencyLimitReason::IoP => "io_p",
            PcuFrequencyLimitReason::Os => "os",
            PcuFrequencyLimitReason::PerfP => "perf_p",
            PcuFrequencyLimitReason::Power => "power",
            PcuFrequencyLimitReason::Thermal => "thermal",
        }
    }
}

/// What throttles a processor.
#[derive(Clone, Copy, Debug, PartialEq, Eq, Structural, Hash)]
pub enum PcuThermalThrottleSource {
    ExternalProchot,
    InternalProchot,
    VrHot,
}

/// The place of a value in the order of the values.
pub open spec fn source_index(value: PcuThermalThrottleSource) -> int {
    match value {
        PcuThermalThrottleSource::ExternalProchot => 0,
        PcuThermalThrottleSource::InternalProchot => 1,
        PcuThermalThrottleSource::VrHot => 2,
    }
}

/// The label of a value.
pub open spec fn source_label(value: PcuThermalThrottleSource) -> &'static str {
    match value {
        PcuThermalThrottleSource::ExternalProchot => "external_prochot",
        PcuThermalThrottleSource::InternalProchot => "internal_prochot",
        PcuThermalThrottleSource::VrHot => "vr_hot",
    }
}

impl PcuThermalThrottleSource {
    /// The place of the value in the order of the values.
    pub fn index(self) -> (index: u8)
        ensures
            index == source_index(self),
            index < 3,
    {
        match self {
            PcuThermalThrottleSource::ExternalProchot => 0,
            PcuThermalThrottleSource::InternalProchot => 1,
            PcuThermalThrottleSource::VrHot => 2,
        }
    }

    /// The label of the value.
    pub fn label(self) -> (label: &'static str)
        ensures
            label == source_label(self),
    {
        match self {
            PcuThermalThrottleSource::ExternalProchot => "external_prochot",
            PcuThermalThrottleSource::InternalProchot => "internal_prochot",
            PcuThermalThrottleSource::VrHot => "vr_hot",
        }
    }
}

/// The scope of a power control unit of a die.
#[derive(Clone, Copy, Debug, PartialEq, Eq, Structural)]
pub struct PcuScope {
    pub die_group_id: u32,
    pub die_id: u32,
    pub package_id: u32,
}

impl Key for PcuScope {
    open spec fn rank(self) -> int {
        (self.die_group_id * 0x1_0000_0000 + self.die_id) * 0x1_0000_0000 + self.package_id
    }

    proof fn rank_injective(a: Self, b: Self) {
    }

    fn precedes(&self, other: &Self) -> (result: bool) {
        if self.die_group_id != other.die_group_id {
            self.die_group_id < other.die_group_id
        } else if self.die_id != other.die_id {
            self.die_id < other.die_id
        } else {
            self.package_id < other.package_id
        }
    }
}

impl TopologyScope for PcuScope {
    open spec fn of(levels: Seq<TopologyLevel>) -> Option<Self> {
        match topology::die_scope(levels) {
            Some(scope) => Some(
                PcuScope {
                    die_group_id: scope.die_group_id,
                    die_id: scope.die_id,
                    package_id: scope.package_id,
                },
            ),
            None => None,
        }
    }

    fn from_topology(topology: &CpuTopology) -> (scope: Result<Self, CollectorError>) {
        match UncoreScope::from_topology(topology) {
            Ok(scope) => Ok(
                PcuScope {
                    die_group_id: scope.die_group_id,
                    die_id: scope.die_id,
                    package_id: scope.package_id,
                },
            ),
            Err(error) => Err(error),
        }
    }
}

impl PcuScope {
    /// The same die.
    pub fn from_uncore_scope(scope: UncoreScope) -> (result: Self)
        ensures
            result == (PcuScope {
                die_group_id: scope.die_group_id,
                die_id: scope.die_id,
                package_id: scope.package_id,
            }),
    {
        PcuScope {
            die_group_id: scope.die_group_id,
            die_id: scope.die_id,
            package_id: scope.package_id,
        }
    }
}

impl PcuPlace for PcuScope {
    open spec fn place_labels(self) -> Labels {
        export::of_die(self.die_group_id, self.die_id, self.package_id)
    }

    open spec fn clock_error(self) -> CollectorError {
        CollectorError::MissingClock {
            die_group_id: self.die_group_id,
            die_id: self.die_id,
            package_id: self.package_id,
        }
    }

    fn labels(&self) -> (labels: Labels) {
        Labels::die(self.die_group_id, self.die_id, self.package_id)
    }

    fn missing_clock(&self) -> (error: CollectorError) {
        CollectorError::MissingClock {
            die_group_id: self.die_group_id,
            die_id: self.die_id,
            package_id: self.package_id,
        }
    }
}

/// The scope of a power control unit of a package.
#[derive(Clone, Copy, Debug, PartialEq, Eq, Structural)]
pub struct PcuPackageScope {
    pub package_id: u32,
}

impl Key for PcuPackageScope {
    open spec fn rank(self) -> int {
        self.package_id as int
    }

    proof fn rank_injective(a: Self, b: Self) {
    }

    fn precedes(&self, other: &Self) -> (result: bool) {
        self.package_id < other.package_id
    }
}

impl TopologyScope for PcuPackageScope {
    open spec fn of(levels: Seq<TopologyLevel>) -> Option<Self> {
        match topology::id_at(levels, TopologyLevelKind::Package) {
            Some(package_id) => Some(PcuPackageScope { package_id }),
            None => None,
        }
    }

    fn from_topology(topology: &CpuTopology) -> (scope: Result<Self, CollectorError>) {
        match topology.level_id(TopologyLevelKind::Package) {
            Some(package_id) => Ok(PcuPackageScope { package_id }),
            None => Err(CollectorError::MissingPackageLevel),
        }
    }
}

impl PcuPackageScope {
    /// The same package.
    pub fn from_hsx_scope(scope: HsxUncoreScope) -> (result: Self)
        ensures
            result == (PcuPackageScope { package_id: scope.package_id }),
    {
        PcuPackageScope { package_id: scope.package_id }
    }
}

impl PcuPlace for PcuPackageScope {
    open spec fn place_labels(self) -> Labels {
        export::of_package(self.package_id)
    }

    open spec fn clock_error(self) -> CollectorError {
        CollectorError::MissingPackageClock { package_id: self.package_id }
    }

    fn labels(&self) -> (labels: Labels) {
        Labels::package(self.package_id)
    }

    fn missing_clock(&self) -> (error: CollectorError) {
        CollectorError::MissingPackageClock { package_id: self.package_id }
    }
}

/// The frequency of the clock of a scope.
#[derive(Clone, Copy, Debug)]
pub struct PcuClockMetrics<S> {
    pub frequency_hz: Quantity,
    pub scope: S,
}

/// How many cores of a scope are in a C-state, on average.
#[derive(Clone, Copy, Debug)]
pub struct PcuCoreCStateMetrics<S> {
    pub average_cores: Quantity,
    pub c_state: PcuCoreCState,
    pub scope: S,
}

/// For which part of the time something goes on in a scope.
#[derive(Clone, Copy, Debug)]
pub struct PcuCycleRatioMetrics<S, K> {
    pub ratio: Quantity,
    pub scope: S,
    pub source: K,
}

/// For which part of the time a reason limits the frequency in a scope.
#[derive(Clone, Copy, Debug)]
pub struct PcuFrequencyLimitMetrics<S> {
    pub ratio: Quantity,
    pub reason: PcuFrequencyLimitReason,
    pub scope: S,
}

/// For which part of the time the package is in a C-state.
#[derive(Clone, Copy, Debug)]
pub struct PcuPackageCStateMetrics<S> {
    pub c_state: PcuCoreCState,
    pub ratio: Quantity,
    pub scope: S,
}

} // verus!
