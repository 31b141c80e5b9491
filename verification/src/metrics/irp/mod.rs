//! I/O ring ports.

pub mod hsx;
pub mod icx;
pub mod skx;
pub mod snb;
pub mod spr;

use crate::arch::{self, Architecture, IntelServerCpuModel};
use crate::error::CollectorError;
use crate::export::{self, GaugeUpdate, MetricDescriptor};
use crate::metrics::InfoMetadata;
use crate::pci::PciVendorDevice;
use crate::registers::PmonWords;
use crate::sockets::UboxNode;
use crate::topology::CpuTopology;
use vstd::prelude::*;

verus! {

/// What is reported, by processor.
#[derive(Debug)]
pub enum IrpMetrics {
    Emr(spr::SprIrpMetrics),
    Hsx(hsx::HsxIrpMetrics),
    Icx(icx::IcxIrpMetrics),
    Ivb(snb::SnbIrpMetrics),
    Skx(skx::IrpMetrics),
    Snb(snb::SnbIrpMetrics),
    Spr(spr::SprIrpMetrics),
}

/// A collector, by processor.
#[derive(Debug)]
pub enum IrpCollector {
    Emr(spr::SprIrpCollector),
    Hsx(hsx::HsxIrpCollector),
    Icx(icx::IcxIrpCollector),
    Ivb(snb::SnbIrpCollector),
    Skx(skx::IrpCollector),
    Snb(snb::SnbIrpCollector),
    Spr(spr::SprIrpCollector),
}

/// What is known of a machine before its I/O ring ports are looked for.
#[derive(Debug)]
pub struct IrpInventory {
    pub devices: Vec<PciVendorDevice>,
    pub locations: Vec<hsx::SocketLocation>,
    pub nodes: Vec<UboxNode>,
    pub topologies: Vec<CpuTopology>,
    pub words: PmonWords,
}

/// Whether there is a collector for a processor.
pub open spec fn is_known(model: IntelServerCpuModel) -> bool {
    ||| model == IntelServerCpuModel::EmeraldRapids
    ||| model == IntelServerCpuModel::HaswellXeon
    ||| model == IntelServerCpuModel::BroadwellXeon
    ||| model == IntelServerCpuModel::IceLakeXeon
    ||| model == IntelServerCpuModel::IvyTown
    ||| model == IntelServerCpuModel::SkylakeXeon
    ||| model == IntelServerCpuModel::SandyBridgeEp
    ||| model == IntelServerCpuModel::SapphireRapids
}

/// Whether `result` is the collector for a processor: what the collector of its family makes of
/// the inventory, and an error for a processor without one.
pub open spec fn created(
    architecture: Architecture,
    inventory: IrpInventory,
    result: Result<IrpCollector, CollectorError>,
) -> bool {
    let model = architecture.server_model()->0;
    match result {
        Ok(IrpCollector::Emr(collector)) => (
            model == IntelServerCpuModel::EmeraldRapids
        ) && spr::created(
            inventory.topologies@,
            Ok(collector),
        ),
        Ok(IrpCollector::Hsx(collector)) => (
            model == IntelServerCpuModel::HaswellXeon || model == IntelServerCpuModel::BroadwellXeon
        ) && hsx::created(
            architecture, inventory.words, inventory.locations@,
            Ok(collector),
        ),
        Ok(IrpCollector::Icx(collector)) => (
            model == IntelServerCpuModel::IceLakeXeon
        ) && icx::created(
            architecture, inventory.topologies@,
            Ok(collector),
        ),
        Ok(IrpCollector::Ivb(collector)) => (model == IntelServerCpuModel::IvyTown) && snb::created(
            architecture, inventory.topologies@, inventory.nodes@, inventory.devices@,
            Ok(collector),
        ),
        Ok(IrpCollector::Skx(collector)) => (
            model == IntelServerCpuModel::SkylakeXeon
        ) && skx::created(
            architecture, inventory.words, inventory.topologies@,
            Ok(collector),
        ),
        Ok(IrpCollector::Snb(collector)) => (
            model == IntelServerCpuModel::SandyBridgeEp
        ) && snb::created(
            architecture, inventory.topologies@, inventory.nodes@, inventory.devices@,
            Ok(collector),
        ),
        Ok(IrpCollector::Spr(collector)) => (
            model == IntelServerCpuModel::SapphireRapids
        ) && spr::created(
            inventory.topologies@,
            Ok(collector),
        ),
        Err(error) => match model {
            IntelServerCpuModel::EmeraldRapids => spr::created(
                inventory.topologies@,
                Err(error),
            ),
            IntelServerCpuModel::HaswellXeon | IntelServerCpuModel::BroadwellXeon => hsx::created(
                architecture, inventory.words, inventory.locations@,
                Err(error),
            ),
            IntelServerCpuModel::IceLakeXeon => icx::created(
                architecture, inventory.topologies@,
                Err(error),
            ),
            IntelServerCpuModel::IvyTown => snb::created(
                architecture, inventory.topologies@, inventory.nodes@, inventory.devices@,
                Err(error),
            ),
            IntelServerCpuModel::SkylakeXeon => skx::created(
                architecture, inventory.words, inventory.topologies@,
                Err(error),
            ),
            IntelServerCpuModel::SandyBridgeEp => snb::created(
                architecture, inventory.topologies@, inventory.nodes@, inventory.devices@,
                Err(error),
            ),
            IntelServerCpuModel::SapphireRapids => spr::created(
                inventory.topologies@,
                Err(error),
            ),
            _ => error == (CollectorError::Unsupported { unit: "IRP", model }),
        },
    }
}

impl IrpCollector {
    /// A collector for the processor.
    pub fn new(architecture: &Architecture, inventory: &IrpInventory) -> (result: Result<
        Self,
        CollectorError,
    >)
        requires
            architecture.server_model() is Some,
        ensures
            created(*architecture, *inventory, result),
    {
        let model = architecture.intel_server_model();
        match model {
            IntelServerCpuModel::EmeraldRapids => match spr::SprIrpCollector::new(
                &inventory.topologies,
            ) {
                Ok(collector) => Ok(IrpCollector::Emr(collector)),
                Err(error) => Err(error),
            },
            IntelServerCpuModel::HaswellXeon | IntelServerCpuModel::BroadwellXeon => match hsx::HsxIrpCollector::new(
                architecture, inventory.words, &inventory.locations,
            ) {
                Ok(collector) => Ok(IrpCollector::Hsx(collector)),
                Err(error) => Err(error),
            },
            IntelServerCpuModel::IceLakeXeon => match icx::IcxIrpCollector::new(
                architecture, &inventory.topologies,
            ) {
                Ok(collector) => Ok(IrpCollector::Icx(collector)),
                Err(error) => Err(error),
            },
            IntelServerCpuModel::IvyTown => match snb::SnbIrpCollector::new(
                architecture, &inventory.topologies, &inventory.nodes, &inventory.devices,
            ) {
                Ok(collector) => Ok(IrpCollector::Ivb(collector)),
                Err(error) => Err(error),
            },
            IntelServerCpuModel::SkylakeXeon => match skx::IrpCollector::new(
                architecture, inventory.words, &inventory.topologies,
            ) {
                Ok(collector) => Ok(IrpCollector::Skx(collector)),
                Err(error) => Err(error),
            },
            IntelServerCpuModel::SandyBridgeEp => match snb::SnbIrpCollector::new(
                architecture, &inventory.topologies, &inventory.nodes, &inventory.devices,
            ) {
                Ok(collector) => Ok(IrpCollector::Snb(collector)),
                Err(error) => Err(error),
            },
            IntelServerCpuModel::SapphireRapids => match spr::SprIrpCollector::new(
                &inventory.topologies,
            ) {
                Ok(collector) => Ok(IrpCollector::Spr(collector)),
                Err(error) => Err(error),
            },
            _ => Err(CollectorError::Unsupported { unit: "IRP", model }),
        }
    }

    /// Whether there is a collector for the processor.
    pub fn is_supported(architecture: &Architecture) -> (supported: bool)
        ensures
            supported == match architecture.server_model() {
                Some(model) => is_known(model),
                None => false,
            },
    {
        match IntelServerCpuModel::from_family_model(architecture.family, architecture.model) {
            Some(
                IntelServerCpuModel::EmeraldRapids
                | IntelServerCpuModel::HaswellXeon
                | IntelServerCpuModel::BroadwellXeon
                | IntelServerCpuModel::IceLakeXeon
                | IntelServerCpuModel::IvyTown
                | IntelServerCpuModel::SkylakeXeon
                | IntelServerCpuModel::SandyBridgeEp
                | IntelServerCpuModel::SapphireRapids,
            ) => true,
            _ => false,
        }
    }
}

/// A processor has a collector if and only if making one does not fail for want of support.
pub proof fn supported_means_not_refused(
    architecture: Architecture,
    inventory: IrpInventory,
    result: Result<IrpCollector, CollectorError>,
)
    requires
        architecture.server_model() is Some,
        created(architecture, inventory, result),
    ensures
        is_known(architecture.server_model()->0) <==> !(result matches Err(
            CollectorError::Unsupported { .. },
        )),
{
    let model = architecture.server_model()->0;
    if model == IntelServerCpuModel::IvyTown || model == IntelServerCpuModel::SandyBridgeEp {
        if let Err(error) = result {
            snb::members_are_not_refused(
                architecture,
                inventory.topologies@,
                inventory.nodes@,
                inventory.devices@,
                Err(error),
            );
        }
    }
}

/// The metric families, by processor.
#[derive(Clone, Copy, Debug)]
pub enum IrpPrometheusMetrics {
    Emr(spr::SprIrpPrometheusMetrics),
    Hsx(hsx::HsxIrpPrometheusMetrics),
    Icx(icx::IcxIrpPrometheusMetrics),
    Ivb(snb::SnbIrpPrometheusMetrics),
    Skx(skx::IrpPrometheusMetrics),
    Snb(snb::SnbIrpPrometheusMetrics),
    Spr(spr::SprIrpPrometheusMetrics),
}

/// The metric families of a processor.
pub open spec fn families(prometheus: IrpPrometheusMetrics) -> Seq<MetricDescriptor> {
    match prometheus {
        IrpPrometheusMetrics::Emr(_) => spr::families(),
        IrpPrometheusMetrics::Hsx(_) => hsx::families(),
        IrpPrometheusMetrics::Icx(_) => icx::families(),
        IrpPrometheusMetrics::Ivb(_) => snb::families(),
        IrpPrometheusMetrics::Skx(_) => skx::families(),
        IrpPrometheusMetrics::Snb(_) => snb::families(),
        IrpPrometheusMetrics::Spr(_) => spr::families(),
    }
}

/// The metrics that are set: those of the report, where it is one of the processor that the
/// families were registered for, and else none.
pub open spec fn all_updates(
    prometheus: IrpPrometheusMetrics,
    metrics: IrpMetrics,
) -> Seq<GaugeUpdate> {
    match (prometheus, metrics) {
        (IrpPrometheusMetrics::Emr(_), IrpMetrics::Emr(metrics)) => spr::all_updates(metrics),
        (IrpPrometheusMetrics::Hsx(_), IrpMetrics::Hsx(metrics)) => hsx::all_updates(metrics),
        (IrpPrometheusMetrics::Icx(_), IrpMetrics::Icx(metrics)) => icx::all_updates(metrics),
        (IrpPrometheusMetrics::Ivb(_), IrpMetrics::Ivb(metrics)) => snb::all_updates(metrics),
        (IrpPrometheusMetrics::Skx(_), IrpMetrics::Skx(metrics)) => skx::all_updates(metrics),
        (IrpPrometheusMetrics::Snb(_), IrpMetrics::Snb(metrics)) => snb::all_updates(metrics),
        (IrpPrometheusMetrics::Spr(_), IrpMetrics::Spr(metrics)) => spr::all_updates(metrics),
        _ => Seq::empty(),
    }
}

/// The metric families that are registered for a processor.
pub open spec fn registered(model: Option<IntelServerCpuModel>) -> Option<IrpPrometheusMetrics> {
    match model {
        Some(IntelServerCpuModel::EmeraldRapids) => Some(
            IrpPrometheusMetrics::Emr(spr::SprIrpPrometheusMetrics),
        ),
        Some(IntelServerCpuModel::HaswellXeon | IntelServerCpuModel::BroadwellXeon) => Some(
            IrpPrometheusMetrics::Hsx(hsx::HsxIrpPrometheusMetrics),
        ),
        Some(IntelServerCpuModel::IceLakeXeon) => Some(
            IrpPrometheusMetrics::Icx(icx::IcxIrpPrometheusMetrics),
        ),
        Some(IntelServerCpuModel::IvyTown) => Some(
            IrpPrometheusMetrics::Ivb(snb::SnbIrpPrometheusMetrics),
        ),
        Some(IntelServerCpuModel::SkylakeXeon) => Some(
            IrpPrometheusMetrics::Skx(skx::IrpPrometheusMetrics),
        ),
        Some(IntelServerCpuModel::SandyBridgeEp) => Some(
            IrpPrometheusMetrics::Snb(snb::SnbIrpPrometheusMetrics),
        ),
        Some(IntelServerCpuModel::SapphireRapids) => Some(
            IrpPrometheusMetrics::Spr(spr::SprIrpPrometheusMetrics),
        ),
        _ => None,
    }
}

impl IrpPrometheusMetrics {
    /// The metric families for the processor; nothing where it has no collector.
    pub fn register(metadata: &InfoMetadata) -> (result: Option<Self>)
        ensures
            result == registered(
                arch::model_of(metadata.processor.family, metadata.processor.model),
            ),
    {
        match IntelServerCpuModel::from_family_model(
            metadata.processor.family,
            metadata.processor.model,
        ) {
            Some(IntelServerCpuModel::EmeraldRapids) => Some(
                IrpPrometheusMetrics::Emr(spr::SprIrpPrometheusMetrics),
            ),
            Some(IntelServerCpuModel::HaswellXeon | IntelServerCpuModel::BroadwellXeon) => Some(
                IrpPrometheusMetrics::Hsx(hsx::HsxIrpPrometheusMetrics),
            ),
            Some(IntelServerCpuModel::IceLakeXeon) => Some(
                IrpPrometheusMetrics::Icx(icx::IcxIrpPrometheusMetrics),
            ),
            Some(IntelServerCpuModel::IvyTown) => Some(
                IrpPrometheusMetrics::Ivb(snb::SnbIrpPrometheusMetrics),
            ),
            Some(IntelServerCpuModel::SkylakeXeon) => Some(
                IrpPrometheusMetrics::Skx(skx::IrpPrometheusMetrics),
            ),
            Some(IntelServerCpuModel::SandyBridgeEp) => Some(
                IrpPrometheusMetrics::Snb(snb::SnbIrpPrometheusMetrics),
            ),
            Some(IntelServerCpuModel::SapphireRapids) => Some(
                IrpPrometheusMetrics::Spr(spr::SprIrpPrometheusMetrics),
            ),
            _ => None,
        }
    }

    /// The families to be registered.
    pub fn descriptors(&self) -> (list: Vec<MetricDescriptor>)
        ensures
            list@ == families(*self),
    {
        match self {
            IrpPrometheusMetrics::Emr(_) => spr::SprIrpPrometheusMetrics::register(),
            IrpPrometheusMetrics::Hsx(_) => hsx::HsxIrpPrometheusMetrics::register(),
            IrpPrometheusMetrics::Icx(_) => icx::IcxIrpPrometheusMetrics::register(),
            IrpPrometheusMetrics::Ivb(_) => snb::SnbIrpPrometheusMetrics::register(),
            IrpPrometheusMetrics::Skx(_) => skx::IrpPrometheusMetrics::register(),
            IrpPrometheusMetrics::Snb(_) => snb::SnbIrpPrometheusMetrics::register(),
            IrpPrometheusMetrics::Spr(_) => spr::SprIrpPrometheusMetrics::register(),
        }
    }

    /// Whether a report is one of the processor that the families were registered for.
    pub fn accepts(&self, metrics: &IrpMetrics) -> (result: bool)
        ensures
            result == same_family(*self, *metrics),
    {
        match (self, metrics) {
            (IrpPrometheusMetrics::Emr(_), IrpMetrics::Emr(_)) => true,
            (IrpPrometheusMetrics::Hsx(_), IrpMetrics::Hsx(_)) => true,
            (IrpPrometheusMetrics::Icx(_), IrpMetrics::Icx(_)) => true,
            (IrpPrometheusMetrics::Ivb(_), IrpMetrics::Ivb(_)) => true,
            (IrpPrometheusMetrics::Skx(_), IrpMetrics::Skx(_)) => true,
            (IrpPrometheusMetrics::Snb(_), IrpMetrics::Snb(_)) => true,
            (IrpPrometheusMetrics::Spr(_), IrpMetrics::Spr(_)) => true,
            _ => false,
        }
    }

    /// The metrics to be set.
    pub fn update(&self, metrics: &IrpMetrics) -> (updates: Vec<GaugeUpdate>)
        ensures
            updates@ == all_updates(*self, *metrics),
    {
        match (self, metrics) {
            (IrpPrometheusMetrics::Emr(prometheus), IrpMetrics::Emr(metrics)) => prometheus.update(metrics),
            (IrpPrometheusMetrics::Hsx(prometheus), IrpMetrics::Hsx(metrics)) => prometheus.update(metrics),
            (IrpPrometheusMetrics::Icx(prometheus), IrpMetrics::Icx(metrics)) => prometheus.update(metrics),
            (IrpPrometheusMetrics::Ivb(prometheus), IrpMetrics::Ivb(metrics)) => prometheus.update(metrics),
            (IrpPrometheusMetrics::Skx(prometheus), IrpMetrics::Skx(metrics)) => prometheus.update(metrics),
            (IrpPrometheusMetrics::Snb(prometheus), IrpMetrics::Snb(metrics)) => prometheus.update(metrics),
            (IrpPrometheusMetrics::Spr(prometheus), IrpMetrics::Spr(metrics)) => prometheus.update(metrics),
            _ => Vec::new(),
        }
    }
}

/// Whether a report is one of the processor that the families were registered for.
pub open spec fn same_family(prometheus: IrpPrometheusMetrics, metrics: IrpMetrics) -> bool {
    match (prometheus, metrics) {
        (IrpPrometheusMetrics::Emr(_), IrpMetrics::Emr(_)) => true,
        (IrpPrometheusMetrics::Hsx(_), IrpMetrics::Hsx(_)) => true,
        (IrpPrometheusMetrics::Icx(_), IrpMetrics::Icx(_)) => true,
        (IrpPrometheusMetrics::Ivb(_), IrpMetrics::Ivb(_)) => true,
        (IrpPrometheusMetrics::Skx(_), IrpMetrics::Skx(_)) => true,
        (IrpPrometheusMetrics::Snb(_), IrpMetrics::Snb(_)) => true,
        (IrpPrometheusMetrics::Spr(_), IrpMetrics::Spr(_)) => true,
        _ => false,
    }
}

/// Metric families are registered for exactly the processors that have a collector.
pub proof fn families_are_registered_where_supported(model: IntelServerCpuModel)
    ensures
        registered(Some(model)) is Some <==> is_known(model),
{
}

/// Every metric that is set belongs to a family that is registered.
pub proof fn updates_are_registered(prometheus: IrpPrometheusMetrics, metrics: IrpMetrics)
    ensures
        export::all_registered(all_updates(prometheus, metrics), families(prometheus)),
{
    match (prometheus, metrics) {
        (IrpPrometheusMetrics::Emr(_), IrpMetrics::Emr(metrics)) => {
            spr::updates_are_registered(metrics);
        },
        (IrpPrometheusMetrics::Hsx(_), IrpMetrics::Hsx(metrics)) => {
            hsx::updates_are_registered(metrics);
        },
        (IrpPrometheusMetrics::Icx(_), IrpMetrics::Icx(metrics)) => {
            icx::updates_are_registered(metrics);
        },
        (IrpPrometheusMetrics::Ivb(_), IrpMetrics::Ivb(metrics)) => {
            snb::updates_are_registered(metrics);
        },
        (IrpPrometheusMetrics::Skx(_), IrpMetrics::Skx(metrics)) => {
            skx::updates_are_registered(metrics);
        },
        (IrpPrometheusMetrics::Snb(_), IrpMetrics::Snb(metrics)) => {
            snb::updates_are_registered(metrics);
        },
        (IrpPrometheusMetrics::Spr(_), IrpMetrics::Spr(metrics)) => {
            spr::updates_are_registered(metrics);
        },
        _ => {},
    }
}

} // verus!
