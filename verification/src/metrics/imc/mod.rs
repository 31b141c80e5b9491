//! Memory controllers.

pub mod hsx;
pub mod icx;
pub mod skx;
pub mod snb;
pub mod spr;

use crate::arch::{self, Architecture, IntelServerCpuModel};
use crate::error::CollectorError;
use crate::export::{self, GaugeUpdate, MetricDescriptor};
use crate::hsx::{HsxBusScope, HsxUncoreSpec};
use crate::metrics::InfoMetadata;
use crate::pci::{PciDeviceSpec, PciVendorDevice};
use crate::registers::PmonWords;
use crate::topology::CpuTopology;
use vstd::prelude::*;

verus! {

/// What is reported, by processor.
#[derive(Debug)]
pub enum ImcMetrics {
    Hsx(hsx::HsxImcMetrics),
    Skx(skx::ImcMetrics),
}

/// A collector, by processor.
#[derive(Debug)]
pub enum ImcCollector {
    Hsx(hsx::HsxImcCollector),
    Skx(skx::SkxImcCollector),
}

/// What is known of a machine before its memory controllers are looked for.
#[derive(Debug)]
pub struct ImcInventory {
    pub bus_scopes: Vec<HsxBusScope>,
    pub channel_specs: Vec<PciDeviceSpec>,
    pub devices: Vec<PciVendorDevice>,
    pub socket_buses: Vec<skx::SocketBus>,
    pub topologies: Vec<CpuTopology>,
    pub uncore: HsxUncoreSpec,
    pub words: PmonWords,
}

/// Whether there is a collector for a processor.
pub open spec fn is_known(model: IntelServerCpuModel) -> bool {
    ||| model == IntelServerCpuModel::HaswellXeon
    ||| model == IntelServerCpuModel::BroadwellXeon
    ||| model == IntelServerCpuModel::SkylakeXeon
}

/// Whether `result` is the collector for a processor: what the collector of its family makes of
/// the inventory, and an error for a processor without one.
pub open spec fn created(
    architecture: Architecture,
    inventory: ImcInventory,
    result: Result<ImcCollector, CollectorError>,
) -> bool {
    let model = architecture.server_model()->0;
    match result {
        Ok(ImcCollector::Hsx(collector)) => (
            model == IntelServerCpuModel::HaswellXeon || model == IntelServerCpuModel::BroadwellXeon
        ) && hsx::discovered(
            inventory.uncore,
            inventory.bus_scopes@,
            inventory.devices@,
            Ok(collector),
        ),
        Ok(ImcCollector::Skx(collector)) => (
            model == IntelServerCpuModel::SkylakeXeon
        ) && skx::created(
            architecture,
            inventory.topologies@,
            inventory.socket_buses@,
            inventory.channel_specs@,
            inventory.devices@,
            inventory.words,
            Ok(collector),
        ),
        Err(error) => match model {
            IntelServerCpuModel::HaswellXeon | IntelServerCpuModel::BroadwellXeon => hsx::discovered(
                inventory.uncore,
                inventory.bus_scopes@,
                inventory.devices@,
                Err(error),
            ),
            IntelServerCpuModel::SkylakeXeon => skx::created(
                architecture,
                inventory.topologies@,
                inventory.socket_buses@,
                inventory.channel_specs@,
                inventory.devices@,
                inventory.words,
                Err(error),
            ),
            _ => error == (CollectorError::Unsupported { unit: "IMC", model }),
        },
    }
}

impl ImcCollector {
    /// A collector for the processor.
    pub fn new(architecture: &Architecture, inventory: &ImcInventory) -> (result: Result<
        Self,
        CollectorError,
    >)
        requires
            architecture.server_model() is Some,
        ensures
            created(*architecture, *inventory, result),
    {
        let model = architecture.intel_server_model();
        match model {
            IntelServerCpuModel::HaswellXeon | IntelServerCpuModel::BroadwellXeon => match hsx::HsxImcCollector::new(
                architecture,
                &inventory.uncore,
                &inventory.bus_scopes,
                &inventory.devices,
            ) {
                Ok(collector) => Ok(ImcCollector::Hsx(collector)),
                Err(error) => Err(error),
            },
            IntelServerCpuModel::SkylakeXeon => match skx::SkxImcCollector::new(
                architecture,
                &inventory.topologies,
                &inventory.socket_buses,
                &inventory.channel_specs,
                &inventory.devices,
                inventory.words,
            ) {
                Ok(collector) => Ok(ImcCollector::Skx(collector)),
                Err(error) => Err(error),
            },
            _ => Err(CollectorError::Unsupported { unit: "IMC", model }),
        }
    }

    /// Whether there is a collector for the processor.
    pub fn is_supported(architecture: &Architecture) -> (supported: bool)
        ensures
            supported == match architecture.server_model() {
                Some(model) => is_known(model),
                None => false,
            },
    {
        match IntelServerCpuModel::from_family_model(architecture.family, architecture.model) {
            Some(
                IntelServerCpuModel::HaswellXeon
                | IntelServerCpuModel::BroadwellXeon
                | IntelServerCpuModel::SkylakeXeon,
            ) => true,
            _ => false,
        }
    }
}

/// A processor has a collector if and only if making one does not fail for want of support.
pub proof fn supported_means_not_refused(
    architecture: Architecture,
    inventory: ImcInventory,
    result: Result<ImcCollector, CollectorError>,
)
    requires
        architecture.server_model() is Some,
        created(architecture, inventory, result),
    ensures
        is_known(architecture.server_model()->0) <==> !(result matches Err(
            CollectorError::Unsupported { .. },
        )),
{
}

/// The metric families, by processor.
#[derive(Clone, Copy, Debug)]
pub enum ImcPrometheusMetrics {
    Hsx(hsx::HsxImcPrometheusMetrics),
    Skx(skx::ImcPrometheusMetrics),
}

/// The metric families of a processor.
pub open spec fn families(prometheus: ImcPrometheusMetrics) -> Seq<MetricDescriptor> {
    match prometheus {
        ImcPrometheusMetrics::Hsx(_) => hsx::families(),
        ImcPrometheusMetrics::Skx(_) => skx::families(),
    }
}

/// The metrics that are set: those of the report, where it is one of the processor that the
/// families were registered for, and else none.
pub open spec fn all_updates(
    prometheus: ImcPrometheusMetrics,
    metrics: ImcMetrics,
) -> Seq<GaugeUpdate> {
    match (prometheus, metrics) {
        (ImcPrometheusMetrics::Hsx(_), ImcMetrics::Hsx(metrics)) => hsx::all_updates(metrics),
        (ImcPrometheusMetrics::Skx(_), ImcMetrics::Skx(metrics)) => skx::all_updates(metrics),
        _ => Seq::empty(),
    }
}

/// The metric families that are registered for a processor.
pub open spec fn registered(model: Option<IntelServerCpuModel>) -> Option<ImcPrometheusMetrics> {
    match model {
        Some(IntelServerCpuModel::HaswellXeon | IntelServerCpuModel::BroadwellXeon) => Some(
            ImcPrometheusMetrics::Hsx(hsx::HsxImcPrometheusMetrics),
        ),
        Some(IntelServerCpuModel::SkylakeXeon) => Some(
            ImcPrometheusMetrics::Skx(skx::ImcPrometheusMetrics),
        ),
        _ => None,
    }
}

impl ImcPrometheusMetrics {
    /// The metric families for the processor; nothing where it has no collector.
    pub fn register(metadata: &InfoMetadata) -> (result: Option<Self>)
        ensures
            result == registered(
                arch::model_of(metadata.processor.family, metadata.processor.model),
            ),
    {
        match IntelServerCpuModel::from_family_model(
            metadata.processor.family,
            metadata.processor.model,
        ) {
            Some(IntelServerCpuModel::HaswellXeon | IntelServerCpuModel::BroadwellXeon) => Some(
                ImcPrometheusMetrics::Hsx(hsx::HsxImcPrometheusMetrics),
            ),
            Some(IntelServerCpuModel::SkylakeXeon) => Some(
                ImcPrometheusMetrics::Skx(skx::ImcPrometheusMetrics),
            ),
            _ => None,
        }
    }

    /// The families to be registered.
    pub fn descriptors(&self) -> (list: Vec<MetricDescriptor>)
        ensures
            list@ == families(*self),
    {
        match self {
            ImcPrometheusMetrics::Hsx(_) => hsx::HsxImcPrometheusMetrics::register(),
            ImcPrometheusMetrics::Skx(_) => skx::ImcPrometheusMetrics::register(),
        }
    }

    /// Whether a report is one of the processor that the families were registered for.
    pub fn accepts(&self, metrics: &ImcMetrics) -> (result: bool)
        ensures
            result == same_family(*self, *metrics),
    {
        match (self, metrics) {
            (ImcPrometheusMetrics::Hsx(_), ImcMetrics::Hsx(_)) => true,
            (ImcPrometheusMetrics::Skx(_), ImcMetrics::Skx(_)) => true,
            _ => false,
        }
    }

    /// The metrics to be set.
    pub fn update(&self, metrics: &ImcMetrics) -> (updates: Vec<GaugeUpdate>)
        ensures
            updates@ == all_updates(*self, *metrics),
    {
        match (self, metrics) {
            (ImcPrometheusMetrics::Hsx(prometheus), ImcMetrics::Hsx(metrics)) => prometheus.update(metrics),
            (ImcPrometheusMetrics::Skx(prometheus), ImcMetrics::Skx(metrics)) => prometheus.update(metrics),
            _ => Vec::new(),
        }
    }
}

/// Whether a report is one of the processor that the families were registered for.
pub open spec fn same_family(prometheus: ImcPrometheusMetrics, metrics: ImcMetrics) -> bool {
    match (prometheus, metrics) {
        (ImcPrometheusMetrics::Hsx(_), ImcMetrics::Hsx(_)) => true,
        (ImcPrometheusMetrics::Skx(_), ImcMetrics::Skx(_)) => true,
        _ => false,
    }
}

/// Metric families are registered for exactly the processors that have a collector.
pub proof fn families_are_registered_where_supported(model: IntelServerCpuModel)
    ensures
        registered(Some(model)) is Some <==> is_known(model),
{
}

/// Every metric that is set belongs to a family that is registered.
pub proof fn updates_are_registered(prometheus: ImcPrometheusMetrics, metrics: ImcMetrics)
    ensures
        export::all_registered(all_updates(prometheus, metrics), families(prometheus)),
{
    match (prometheus, metrics) {
        (ImcPrometheusMetrics::Hsx(_), ImcMetrics::Hsx(metrics)) => {
            hsx::updates_are_registered(metrics);
        },
        (ImcPrometheusMetrics::Skx(_), ImcMetrics::Skx(metrics)) => {
            skx::updates_are_registered(metrics);
        },
        _ => {},
    }
}

} // verus!
