//! What is told of the machine, and who is told what.
use crate::arch::{self, Architecture, IntelServerCpuModel};
use crate::capabilities::{self, CapabilityWalk, ConfigRead};
use crate::counter;
use crate::discovery::{self, UncoreBoxDiscovery, UncoreDiscoveryVsec};
use crate::ep::{self, SnbArchitecture};
use crate::error::CollectorError;
use crate::export::GaugeUpdate;
use crate::hsx;
use crate::laws::labels;
use crate::metrics::imc::hsx as imc_hsx;
use crate::metrics::imc::skx as imc_skx;
use crate::metrics::info::{self, InfoLabel, InfoValue};
use crate::metrics::interconnect::hsx as ic_hsx;
use crate::metrics::interconnect::icx as ic_icx;
use crate::metrics::interconnect::qpi_common::{self, QpiArchitecture, QpiMetrics};
use crate::metrics::interconnect::skx as ic_skx;
use crate::metrics::interconnect::snb as ic_snb;
use crate::metrics::interconnect::spr as ic_spr;
use crate::metrics::interconnect::upi_common::{self, UpiArchitecture, UpiMetrics};
use crate::metrics::interconnect::{InterconnectMetrics, InterconnectMetricsView};
use crate::metrics::irp::hsx as irp_hsx;
use crate::metrics::irp::icx as irp_icx;
use crate::metrics::irp::skx as irp_skx;
use crate::metrics::irp::snb as irp_snb;
use crate::metrics::irp::spr as irp_spr;
use crate::metrics::pcu::hsx as pcu_hsx;
use crate::metrics::pcu::icx as pcu_icx;
use crate::metrics::pcu::skx as pcu_skx;
use crate::metrics::pcu::snb as pcu_snb;
use crate::metrics::pcu::spr as pcu_spr;
use crate::metrics::{
    self, imc, interconnect, irp, pcu, MetricUpdate, MetricsRegistry, MetricsState,
    ProcessorMetadata,
};
use crate::registers::Width;
use crate::schedule::{self, Slice};
use crate::topology::{CpuTopology, TopologyScope};
use vstd::arithmetic::div_mod::*;
use vstd::arithmetic::power2::{lemma_pow2_pos, pow2};
use vstd::prelude::*;

verus! {

/// Each server processor has its own model number, all of them in family 6, and no other number
/// stands for one.
pub proof fn processors_are_told_by_their_numbers(family: u8, model: u8)
    ensures
        arch::model_of(family, model) == Some(
            IntelServerCpuModel::SandyBridgeEp,
        ) <==> family == 6 && model
            == 0x2d,
        arch::model_of(family, model) == Some(
            IntelServerCpuModel::IvyTown,
        ) <==> family == 6 && model
            == 0x3e,
        arch::model_of(family, model) == Some(
            IntelServerCpuModel::HaswellXeon,
        ) <==> family == 6 && model
            == 0x3f,
        arch::model_of(family, model) == Some(
            IntelServerCpuModel::BroadwellXeon,
        ) <==> family == 6 && model
            == 0x4f,
        arch::model_of(family, model) == Some(
            IntelServerCpuModel::SkylakeXeon,
        ) <==> family == 6 && model
            == 0x55,
        arch::model_of(family, model) == Some(
            IntelServerCpuModel::BroadwellDe,
        ) <==> family == 6 && model
            == 0x56,
        arch::model_of(family, model) == Some(
            IntelServerCpuModel::IceLakeXeon,
        ) <==> family == 6 && model
            == 0x6a,
        arch::model_of(family, model) == Some(
            IntelServerCpuModel::SapphireRapids,
        ) <==> family == 6 && model
            == 0x8f,
        arch::model_of(family, model) == Some(
            IntelServerCpuModel::EmeraldRapids,
        ) <==> family == 6 && model
            == 0xcf,
{
}

/// Which processors each collector knows.
pub proof fn collectors_know_their_processors(model: IntelServerCpuModel)
    ensures
        imc::is_known(model) <==> model == IntelServerCpuModel::HaswellXeon || model
            == IntelServerCpuModel::BroadwellXeon || model == IntelServerCpuModel::SkylakeXeon,
        irp::is_known(model) <==> model != IntelServerCpuModel::BroadwellDe,
        interconnect::is_known(model) <==> model != IntelServerCpuModel::BroadwellDe,
        pcu::is_known(model),
        ep::family_member(model) == Some(SnbArchitecture::Ivb) <==> model
            == IntelServerCpuModel::IvyTown,
        ep::family_member(model) == Some(SnbArchitecture::Snb) <==> model
            == IntelServerCpuModel::SandyBridgeEp,
        hsx::is_member(model) <==> model == IntelServerCpuModel::HaswellXeon || model
            == IntelServerCpuModel::BroadwellXeon,
        pcu_hsx::member_of(model) == Some(pcu_hsx::HsxPcuArchitecture::Hsx) <==> model
            == IntelServerCpuModel::HaswellXeon,
        pcu_hsx::member_of(model) == Some(pcu_hsx::HsxPcuArchitecture::Bdx) <==> model
            == IntelServerCpuModel::BroadwellXeon,
        pcu_hsx::member_of(model) == Some(pcu_hsx::HsxPcuArchitecture::BdxDe) <==> model
            == IntelServerCpuModel::BroadwellDe,
        qpi_common::family_member(model) == Some(QpiArchitecture::Hsx) <==> model
            == IntelServerCpuModel::HaswellXeon,
        qpi_common::family_member(model) == Some(QpiArchitecture::Bdx) <==> model
            == IntelServerCpuModel::BroadwellXeon,
        qpi_common::family_member(model) == Some(QpiArchitecture::Ivb) <==> model
            == IntelServerCpuModel::IvyTown,
        qpi_common::family_member(model) == Some(QpiArchitecture::Snb) <==> model
            == IntelServerCpuModel::SandyBridgeEp,
        upi_common::family_member(model) == Some(UpiArchitecture::Skx) <==> model
            == IntelServerCpuModel::SkylakeXeon,
        upi_common::family_member(model) == Some(UpiArchitecture::Icx) <==> model
            == IntelServerCpuModel::IceLakeXeon,
        upi_common::family_member(model) == Some(UpiArchitecture::Spr) <==> model
            == IntelServerCpuModel::SapphireRapids,
        upi_common::family_member(model) == Some(UpiArchitecture::Emr) <==> model
            == IntelServerCpuModel::EmeraldRapids,
{
}

/// The collector on memory is the one of the very processor, and so are the families that are
/// registered for it.
pub proof fn imc_collector_is_that_of_the_processor(
    architecture: Architecture,
    inventory: imc::ImcInventory,
    result: Result<imc::ImcCollector, CollectorError>,
    model: IntelServerCpuModel,
)
    requires
        architecture.server_model() == Some(model),
        imc::created(architecture, inventory, result),
    ensures
        result matches Ok(
            imc::ImcCollector::Hsx(_),
        ) ==> model == IntelServerCpuModel::HaswellXeon
            || model == IntelServerCpuModel::BroadwellXeon,
        (imc::registered(Some(model)) matches Some(
            imc::ImcPrometheusMetrics::Hsx(_),
        )) <==> model == IntelServerCpuModel::HaswellXeon
            || model == IntelServerCpuModel::BroadwellXeon,
        result matches Ok(imc::ImcCollector::Skx(_)) ==> model == IntelServerCpuModel::SkylakeXeon,
        (imc::registered(Some(model)) matches Some(
            imc::ImcPrometheusMetrics::Skx(_),
        )) <==> model == IntelServerCpuModel::SkylakeXeon,
        imc::registered(None) is None,
{
}

/// The collector on inbound traffic is the one of the very processor, and so are the families that
/// are registered for it.
pub proof fn irp_collector_is_that_of_the_processor(
    architecture: Architecture,
    inventory: irp::IrpInventory,
    result: Result<irp::IrpCollector, CollectorError>,
    model: IntelServerCpuModel,
)
    requires
        architecture.server_model() == Some(model),
        irp::created(architecture, inventory, result),
    ensures
        result matches Ok(
            irp::IrpCollector::Emr(_),
        ) ==> model == IntelServerCpuModel::EmeraldRapids,
        (irp::registered(Some(model)) matches Some(
            irp::IrpPrometheusMetrics::Emr(_),
        )) <==> model == IntelServerCpuModel::EmeraldRapids,
        result matches Ok(
            irp::IrpCollector::Hsx(_),
        ) ==> model == IntelServerCpuModel::HaswellXeon
            || model == IntelServerCpuModel::BroadwellXeon,
        (irp::registered(Some(model)) matches Some(
            irp::IrpPrometheusMetrics::Hsx(_),
        )) <==> model == IntelServerCpuModel::HaswellXeon
            || model == IntelServerCpuModel::BroadwellXeon,
        result matches Ok(irp::IrpCollector::Icx(_)) ==> model == IntelServerCpuModel::IceLakeXeon,
        (irp::registered(Some(model)) matches Some(
            irp::IrpPrometheusMetrics::Icx(_),
        )) <==> model == IntelServerCpuModel::IceLakeXeon,
        result matches Ok(irp::IrpCollector::Ivb(_)) ==> model == IntelServerCpuModel::IvyTown,
        (irp::registered(Some(model)) matches Some(
            irp::IrpPrometheusMetrics::Ivb(_),
        )) <==> model == IntelServerCpuModel::IvyTown,
        result matches Ok(irp::IrpCollector::Skx(_)) ==> model == IntelServerCpuModel::SkylakeXeon,
        (irp::registered(Some(model)) matches Some(
            irp::IrpPrometheusMetrics::Skx(_),
        )) <==> model == IntelServerCpuModel::SkylakeXeon,
        result matches Ok(
            irp::IrpCollector::Snb(_),
        ) ==> model == IntelServerCpuModel::SandyBridgeEp,
        (irp::registered(Some(model)) matches Some(
            irp::IrpPrometheusMetrics::Snb(_),
        )) <==> model == IntelServerCpuModel::SandyBridgeEp,
        result matches Ok(
            irp::IrpCollector::Spr(_),
        ) ==> model == IntelServerCpuModel::SapphireRapids,
        (irp::registered(Some(model)) matches Some(
            irp::IrpPrometheusMetrics::Spr(_),
        )) <==> model == IntelServerCpuModel::SapphireRapids,
        irp::registered(None) is None,
{
}

/// The collector on power control units is the one of the very processor, and so are the families
/// that are registered for it.
pub proof fn pcu_collector_is_that_of_the_processor(
    architecture: Architecture,
    inventory: pcu::PcuInventory,
    result: Result<pcu::PcuCollector, CollectorError>,
    model: IntelServerCpuModel,
)
    requires
        architecture.server_model() == Some(model),
        pcu::created(architecture, inventory, result),
    ensures
        result matches Ok(
            pcu::PcuCollector::Bdx(_),
        ) ==> model == IntelServerCpuModel::BroadwellXeon,
        (pcu::registered(Some(model)) matches Some(
            pcu::PcuPrometheusMetrics::Bdx(_),
        )) <==> model == IntelServerCpuModel::BroadwellXeon,
        result matches Ok(
            pcu::PcuCollector::BdxDe(_),
        ) ==> model == IntelServerCpuModel::BroadwellDe,
        (pcu::registered(Some(model)) matches Some(
            pcu::PcuPrometheusMetrics::BdxDe(_),
        )) <==> model == IntelServerCpuModel::BroadwellDe,
        result matches Ok(
            pcu::PcuCollector::Emr(_),
        ) ==> model == IntelServerCpuModel::EmeraldRapids,
        (pcu::registered(Some(model)) matches Some(
            pcu::PcuPrometheusMetrics::Emr(_),
        )) <==> model == IntelServerCpuModel::EmeraldRapids,
        result matches Ok(pcu::PcuCollector::Hsx(_)) ==> model == IntelServerCpuModel::HaswellXeon,
        (pcu::registered(Some(model)) matches Some(
            pcu::PcuPrometheusMetrics::Hsx(_),
        )) <==> model == IntelServerCpuModel::HaswellXeon,
        result matches Ok(pcu::PcuCollector::Icx(_)) ==> model == IntelServerCpuModel::IceLakeXeon,
        (pcu::registered(Some(model)) matches Some(
            pcu::PcuPrometheusMetrics::Icx(_),
        )) <==> model == IntelServerCpuModel::IceLakeXeon,
        result matches Ok(pcu::PcuCollector::Ivb(_)) ==> model == IntelServerCpuModel::IvyTown,
        (pcu::registered(Some(model)) matches Some(
            pcu::PcuPrometheusMetrics::Ivb(_),
        )) <==> model == IntelServerCpuModel::IvyTown,
        result matches Ok(pcu::PcuCollector::Skx(_)) ==> model == IntelServerCpuModel::SkylakeXeon,
        (pcu::registered(Some(model)) matches Some(
            pcu::PcuPrometheusMetrics::Skx(_),
        )) <==> model == IntelServerCpuModel::SkylakeXeon,
        result matches Ok(
            pcu::PcuCollector::Snb(_),
        ) ==> model == IntelServerCpuModel::SandyBridgeEp,
        (pcu::registered(Some(model)) matches Some(
            pcu::PcuPrometheusMetrics::Snb(_),
        )) <==> model == IntelServerCpuModel::SandyBridgeEp,
        result matches Ok(
            pcu::PcuCollector::Spr(_),
        ) ==> model == IntelServerCpuModel::SapphireRapids,
        (pcu::registered(Some(model)) matches Some(
            pcu::PcuPrometheusMetrics::Spr(_),
        )) <==> model == IntelServerCpuModel::SapphireRapids,
        pcu::registered(None) is None,
{
}

/// The collector on links is the one of the very processor, and so are the families that are
/// registered for it.
pub proof fn interconnect_collector_is_that_of_the_processor(
    architecture: Architecture,
    inventory: interconnect::InterconnectInventory,
    result: Result<interconnect::InterconnectCollector, CollectorError>,
    model: IntelServerCpuModel,
)
    requires
        architecture.server_model() == Some(model),
        interconnect::created(architecture, inventory, result),
    ensures
        result matches Ok(
            interconnect::InterconnectCollector::Bdx(_),
        ) ==> model == IntelServerCpuModel::BroadwellXeon,
        (interconnect::registered(Some(model)) matches Some(
            interconnect::InterconnectPrometheusMetrics::Bdx(_),
        )) <==> model == IntelServerCpuModel::BroadwellXeon,
        result matches Ok(
            interconnect::InterconnectCollector::Emr(_),
        ) ==> model == IntelServerCpuModel::EmeraldRapids,
        (interconnect::registered(Some(model)) matches Some(
            interconnect::InterconnectPrometheusMetrics::Emr(_),
        )) <==> model == IntelServerCpuModel::EmeraldRapids,
        result matches Ok(
            interconnect::InterconnectCollector::Hsx(_),
        ) ==> model == IntelServerCpuModel::HaswellXeon,
        (interconnect::registered(Some(model)) matches Some(
            interconnect::InterconnectPrometheusMetrics::Hsx(_),
        )) <==> model == IntelServerCpuModel::HaswellXeon,
        result matches Ok(
            interconnect::InterconnectCollector::Icx(_),
        ) ==> model == IntelServerCpuModel::IceLakeXeon,
        (interconnect::registered(Some(model)) matches Some(
            interconnect::InterconnectPrometheusMetrics::Icx(_),
        )) <==> model == IntelServerCpuModel::IceLakeXeon,
        result matches Ok(
            interconnect::InterconnectCollector::Ivb(_),
        ) ==> model == IntelServerCpuModel::IvyTown,
        (interconnect::registered(Some(model)) matches Some(
            interconnect::InterconnectPrometheusMetrics::Ivb(_),
        )) <==> model == IntelServerCpuModel::IvyTown,
        result matches Ok(
            interconnect::InterconnectCollector::Skx(_),
        ) ==> model == IntelServerCpuModel::SkylakeXeon,
        (interconnect::registered(Some(model)) matches Some(
            interconnect::InterconnectPrometheusMetrics::Skx(_),
        )) <==> model == IntelServerCpuModel::SkylakeXeon,
        result matches Ok(
            interconnect::InterconnectCollector::Snb(_),
        ) ==> model == IntelServerCpuModel::SandyBridgeEp,
        (interconnect::registered(Some(model)) matches Some(
            interconnect::InterconnectPrometheusMetrics::Snb(_),
        )) <==> model == IntelServerCpuModel::SandyBridgeEp,
        result matches Ok(
            interconnect::InterconnectCollector::Spr(_),
        ) ==> model == IntelServerCpuModel::SapphireRapids,
        (interconnect::registered(Some(model)) matches Some(
            interconnect::InterconnectPrometheusMetrics::Spr(_),
        )) <==> model == IntelServerCpuModel::SapphireRapids,
        interconnect::registered(None) is None,
{
}

/// A report on memory is handed out as a report of its processor where the families of that
/// processor are registered, and not at all where others are; the families that are registered are
/// those of the processor.
pub proof fn imc_report_is_handed_out_as_its_own(
    families: imc::ImcPrometheusMetrics,
    metrics: imc::ImcMetrics,
    given: Vec<GaugeUpdate>,
)
    requires
        call_ensures(imc::ImcPrometheusMetrics::update, (&families, &metrics), given),
    ensures
        !imc::same_family(families, metrics) ==> given@.len() == 0,
        match metrics {
            imc::ImcMetrics::Hsx(report) => {
                &&& imc::same_family(families, metrics) <==> families is Hsx
                &&& families is Hsx ==> given@ == imc_hsx::all_updates(report)
            },
            imc::ImcMetrics::Skx(report) => {
                &&& imc::same_family(families, metrics) <==> families is Skx
                &&& families is Skx ==> given@ == imc_skx::all_updates(report)
            },
        },
        match families {
            imc::ImcPrometheusMetrics::Hsx(_) => imc::families(families) == imc_hsx::families(),
            imc::ImcPrometheusMetrics::Skx(_) => imc::families(families) == imc_skx::families(),
        },
{
}

/// A report on inbound traffic is handed out as a report of its processor where the families of
/// that processor are registered, and not at all where others are; the families that are registered
/// are those of the processor.
pub proof fn irp_report_is_handed_out_as_its_own(
    families: irp::IrpPrometheusMetrics,
    metrics: irp::IrpMetrics,
    given: Vec<GaugeUpdate>,
)
    requires
        call_ensures(irp::IrpPrometheusMetrics::update, (&families, &metrics), given),
    ensures
        !irp::same_family(families, metrics) ==> given@.len() == 0,
        match metrics {
            irp::IrpMetrics::Emr(report) => {
                &&& irp::same_family(families, metrics) <==> families is Emr
                &&& families is Emr ==> given@ == irp_spr::all_updates(report)
            },
            irp::IrpMetrics::Spr(report) => {
                &&& irp::same_family(families, metrics) <==> families is Spr
                &&& families is Spr ==> given@ == irp_spr::all_updates(report)
            },
            irp::IrpMetrics::Hsx(report) => {
                &&& irp::same_family(families, metrics) <==> families is Hsx
                &&& families is Hsx ==> given@ == irp_hsx::all_updates(report)
            },
            irp::IrpMetrics::Icx(report) => {
                &&& irp::same_family(families, metrics) <==> families is Icx
                &&& families is Icx ==> given@ == irp_icx::all_updates(report)
            },
            irp::IrpMetrics::Ivb(report) => {
                &&& irp::same_family(families, metrics) <==> families is Ivb
                &&& families is Ivb ==> given@ == irp_snb::all_updates(report)
            },
            irp::IrpMetrics::Snb(report) => {
                &&& irp::same_family(families, metrics) <==> families is Snb
                &&& families is Snb ==> given@ == irp_snb::all_updates(report)
            },
            irp::IrpMetrics::Skx(report) => {
                &&& irp::same_family(families, metrics) <==> families is Skx
                &&& families is Skx ==> given@ == irp_skx::all_updates(report)
            },
        },
        match families {
            irp::IrpPrometheusMetrics::Emr(_) => irp::families(families) == irp_spr::families(),
            irp::IrpPrometheusMetrics::Spr(_) => irp::families(families) == irp_spr::families(),
            irp::IrpPrometheusMetrics::Hsx(_) => irp::families(families) == irp_hsx::families(),
            irp::IrpPrometheusMetrics::Icx(_) => irp::families(families) == irp_icx::families(),
            irp::IrpPrometheusMetrics::Ivb(_) => irp::families(families) == irp_snb::families(),
            irp::IrpPrometheusMetrics::Snb(_) => irp::families(families) == irp_snb::families(),
            irp::IrpPrometheusMetrics::Skx(_) => irp::families(families) == irp_skx::families(),
        },
{
}

/// A report on power control units is handed out as a report of its processor where the families of
/// that processor are registered, and not at all where others are; the families that are registered
/// are those of the processor.
pub proof fn pcu_report_is_handed_out_as_its_own(
    families: pcu::PcuPrometheusMetrics,
    metrics: pcu::PcuMetrics,
    given: Vec<GaugeUpdate>,
)
    requires
        call_ensures(pcu::PcuPrometheusMetrics::update, (&families, &metrics), given),
    ensures
        !pcu::same_family(families, metrics) ==> given@.len() == 0,
        match metrics {
            pcu::PcuMetrics::Bdx(report) => {
                &&& pcu::same_family(families, metrics) <==> families is Bdx
                &&& families is Bdx ==> given@ == pcu_hsx::all_updates(report)
            },
            pcu::PcuMetrics::BdxDe(report) => {
                &&& pcu::same_family(families, metrics) <==> families is BdxDe
                &&& families is BdxDe ==> given@ == pcu_hsx::all_updates(report)
            },
            pcu::PcuMetrics::Hsx(report) => {
                &&& pcu::same_family(families, metrics) <==> families is Hsx
                &&& families is Hsx ==> given@ == pcu_hsx::all_updates(report)
            },
            pcu::PcuMetrics::Emr(report) => {
                &&& pcu::same_family(families, metrics) <==> families is Emr
                &&& families is Emr ==> given@ == pcu_spr::all_updates(report)
            },
            pcu::PcuMetrics::Spr(report) => {
                &&& pcu::same_family(families, metrics) <==> families is Spr
                &&& families is Spr ==> given@ == pcu_spr::all_updates(report)
            },
            pcu::PcuMetrics::Icx(report) => {
                &&& pcu::same_family(families, metrics) <==> families is Icx
                &&& families is Icx ==> given@ == pcu_icx::all_updates(report)
            },
            pcu::PcuMetrics::Ivb(report) => {
                &&& pcu::same_family(families, metrics) <==> families is Ivb
                &&& families is Ivb ==> given@ == pcu_snb::all_updates(report)
            },
            pcu::PcuMetrics::Snb(report) => {
                &&& pcu::same_family(families, metrics) <==> families is Snb
                &&& families is Snb ==> given@ == pcu_snb::all_updates(report)
            },
            pcu::PcuMetrics::Skx(report) => {
                &&& pcu::same_family(families, metrics) <==> families is Skx
                &&& families is Skx ==> given@ == pcu_skx::all_updates(report)
            },
        },
        match families {
            pcu::PcuPrometheusMetrics::Bdx(_) => pcu::families(families) == pcu_hsx::families(),
            pcu::PcuPrometheusMetrics::BdxDe(_) => pcu::families(families) == pcu_hsx::families(),
            pcu::PcuPrometheusMetrics::Hsx(_) => pcu::families(families) == pcu_hsx::families(),
            pcu::PcuPrometheusMetrics::Emr(_) => pcu::families(families) == pcu_spr::families(),
            pcu::PcuPrometheusMetrics::Spr(_) => pcu::families(families) == pcu_spr::families(),
            pcu::PcuPrometheusMetrics::Icx(_) => pcu::families(families) == pcu_icx::families(),
            pcu::PcuPrometheusMetrics::Ivb(_) => pcu::families(families) == pcu_snb::families(),
            pcu::PcuPrometheusMetrics::Snb(_) => pcu::families(families) == pcu_snb::families(),
            pcu::PcuPrometheusMetrics::Skx(_) => pcu::families(families) == pcu_skx::families(),
        },
{
}

/// A report on links is handed out where the families of its processor are registered, and not at
/// all where those of another one are.
pub proof fn interconnect_report_is_handed_out_as_its_own(
    families: interconnect::InterconnectPrometheusMetrics,
    metrics: InterconnectMetrics,
    given: Vec<GaugeUpdate>,
)
    requires
        call_ensures(
            interconnect::InterconnectPrometheusMetrics::update,
            (&families, metrics),
            given,
        ),
    ensures
        !interconnect::same_family(families, metrics) ==> given@.len() == 0,
        interconnect::same_family(families, metrics)
            ==> given@ == interconnect::report_updates(metrics),
        match metrics {
            InterconnectMetrics::Bdx(_) => interconnect::same_family(families, metrics)
                <==> families is Bdx,
            InterconnectMetrics::Emr(_) => interconnect::same_family(families, metrics)
                <==> families is Emr,
            InterconnectMetrics::Hsx(_) => interconnect::same_family(families, metrics)
                <==> families is Hsx,
            InterconnectMetrics::Icx(_) => interconnect::same_family(families, metrics)
                <==> families is Icx,
            InterconnectMetrics::Ivb(_) => interconnect::same_family(families, metrics)
                <==> families is Ivb,
            InterconnectMetrics::Skx(_) => interconnect::same_family(families, metrics)
                <==> families is Skx,
            InterconnectMetrics::Snb(_) => interconnect::same_family(families, metrics)
                <==> families is Snb,
            InterconnectMetrics::Spr(_) => interconnect::same_family(families, metrics)
                <==> families is Spr,
        },
{
}

/// Whether the words of a capability hold its fields: the kind and the place of the next one in the
/// first word, and in the second what it describes, through which base address and at which
/// offset.
pub open spec fn capability_holds(vsec: UncoreDiscoveryVsec, first: u64, second: u64) -> bool {
    &&& exists|version: int, rest: int|
        0 <= version < 16 && 0 <= rest && first == #[trigger] (rest * 0x1_0000_0000) + vsec.cap_next
            * 0x10_0000 + #[trigger] (version * 0x1_0000) + vsec.cap_id
    &&& exists|middle: int|
        0 <= middle < 0x1_0000 && second == vsec.address * 0x8_0000_0000 + vsec.tbir * 0x1_0000_0000
            + #[trigger] (middle * 0x1_0000) + vsec.entry_id
    &&& vsec.cap_next < 0x1000
    &&& vsec.tbir < 8
    &&& vsec.address < 0x2000_0000
}

/// The fields of a capability are those that its words hold.
pub proof fn capability_is_read_by_its_fields(first: u64, second: u64)
    ensures
        capability_holds(discovery::vsec_of(first, second), first, second),
{
    let vsec = discovery::vsec_of(first, second);
    let rest = first as int / 0x1_0000_0000;
    let version = first as int / 0x1_0000 % 16;
    assert(first as int / 0x1_0000 == first as int / 0x10_0000 * 16 + version);
    assert(first as int / 0x10_0000 == rest * 0x1000 + first as int / 0x10_0000 % 0x1000);
    assert(first == (rest * 0x1_0000_0000) + vsec.cap_next * 0x10_0000 + (version * 0x1_0000)
        + vsec.cap_id);
    let middle = second as int / 0x1_0000 % 0x1_0000;
    assert(second as int / 0x1_0000 == second as int / 0x1_0000_0000 * 0x1_0000 + middle);
    assert(second as int / 0x1_0000_0000 == second as int / 0x8_0000_0000 * 8 + vsec.tbir);
    assert(second == vsec.address * 0x8_0000_0000 + vsec.tbir * 0x1_0000_0000 + (middle * 0x1_0000)
        + vsec.entry_id);
}

/// A capability points to counting units exactly where its kind is 0x23 and its entry 1; the next
/// one is at a multiple of four, and there is none where that is zero or the same place.
pub proof fn capabilities_are_followed_in_order(vsec: UncoreDiscoveryVsec, offset: u64)
    ensures
        discovery::points_to_units(vsec) <==> vsec.cap_id == 0x23 && vsec.entry_id == 1,
        discovery::FIRST_CAPABILITY == 0x100,
        match discovery::capability_after(vsec, offset) {
            Some(next) => {
                &&& next % 4 == 0
                &&& next <= vsec.cap_next < next + 4
                &&& next != 0
                &&& next != offset
            },
            None => vsec.cap_next < 4 || vsec.cap_next as int / 4 * 4 == offset,
        },
{
}

/// A base address is made of both words without the low twelve bits; it has a second word exactly
/// where bit 2 of the first is set.
pub proof fn base_address_is_made_of_both_words(low: u32, high: u32)
    ensures
        discovery::address_of(low, high) % 0x1000 == 0,
        discovery::address_of(low, high) <= high * 0x1_0000_0000 + low < discovery::address_of(
            low,
            high,
        ) + 0x1000,
        discovery::is_wide(low) <==> low % 8 >= 4,
{
    let address = high * 0x1_0000_0000 + low - low % 0x1000;
    assert(address % 0x1000 == 0);
}

/// Whether the words of an entry hold its fields.
pub open spec fn entry_holds(entry: UncoreBoxDiscovery, words: Seq<u64>) -> bool {
    &&& exists|middle: int|
        0 <= middle < 0x4000_0000 && words[0] == entry.access_type * 0x4000_0000_0000_0000
            + #[trigger] (middle * 0x1_0000_0000) + entry.counter_offset * 0x100_0000
            + entry.bit_width * 0x1_0000 + entry.control_offset * 0x100 + entry.num_registers
    &&& entry.box_control == words[1]
    &&& exists|rest: int| words[2] == #[trigger] (rest * 0x1_0000) + entry.box_type
}

/// The fields of an entry are those that its words hold: how a unit is reached, where its counters
/// and its event selections are, how wide the counters are and how many there are, its control
/// register and its kind.
pub proof fn entry_is_read_by_its_fields(words: Seq<u64>)
    ensures
        entry_holds(discovery::box_of(words), words),
{
    let entry = discovery::box_of(words);
    let word = words[0] as int;
    let middle = word / 0x1_0000_0000 % 0x4000_0000;
    assert(0 <= word / 0x4000_0000_0000_0000 < 4);
    assert(word / 0x1_0000_0000 == word / 0x4000_0000_0000_0000 * 0x4000_0000 + middle);
    assert(word / 0x100_0000 == word / 0x1_0000_0000 * 0x100 + entry.counter_offset);
    assert(word / 0x1_0000 == word / 0x100_0000 * 0x100 + entry.bit_width);
    assert(word / 0x100 == word / 0x1_0000 * 0x100 + entry.control_offset);
    assert(word == word / 0x100 * 0x100 + entry.num_registers);
    assert(words[0] == entry.access_type * 0x4000_0000_0000_0000 + (middle * 0x1_0000_0000)
        + entry.counter_offset * 0x100_0000 + entry.bit_width * 0x1_0000 + entry.control_offset
        * 0x100 + entry.num_registers);
    let rest = words[2] as int / 0x1_0000;
    assert(words[2] == (rest * 0x1_0000) + entry.box_type);
}

/// Whether an entry is taken: it is not blank, it has a control register and at least four
/// counters of at most 64 bits, and it is of the kind and reached in the way that is asked for.
pub open spec fn is_taken(words: Seq<u64>, box_type: u16, access_type: Option<u8>) -> bool {
    let entry = discovery::box_of(words);
    &&& words[0] != 0 || words[1] != 0
    &&& entry.box_control != 0
    &&& 4 <= entry.num_registers
    &&& entry.bit_width <= 64
    &&& entry.box_type == box_type
    &&& access_type is None || access_type == Some(entry.access_type)
}

/// The entries that are taken from a table are those that fit, in the order of the table.
pub proof fn fitting_entries_are_taken(
    table: Seq<[u64; 3]>,
    box_type: u16,
    access_type: Option<u8>,
    n: nat,
)
    requires
        n <= table.len(),
    ensures
        discovery::selected_boxes(table, box_type, access_type, n) == table.take(n as int).filter(
            |words: [u64; 3]| is_taken(words@, box_type, access_type),
        ).map_values(|words: [u64; 3]| discovery::box_of(words@)),
    decreases n,
{
    reveal(Seq::filter);
    let fits = |words: [u64; 3]| is_taken(words@, box_type, access_type);
    let read = |words: [u64; 3]| discovery::box_of(words@);
    if n > 0 {
        let part = table.take(n as int);
        let front = table.take(n - 1);
        fitting_entries_are_taken(table, box_type, access_type, (n - 1) as nat);
        assert(part.drop_last() =~= front);
        assert(part.last() == table[n - 1]);
        assert(part.filter(fits).map_values(read) =~= if fits(table[n - 1]) {
            front.filter(fits).map_values(read).push(read(table[n - 1]))
        } else {
            front.filter(fits).map_values(read)
        });
        assert(fits(table[n - 1]) <==> discovery::is_selected(
            table[n - 1]@,
            box_type,
            access_type,
        ));
    } else {
        assert(table.take(0).len() == 0);
    }
}

/// The place of a processor in a list is that of the first entry with its number.
pub proof fn processor_is_found_where_it_is_first(topologies: Seq<CpuTopology>, cpu: u32)
    ensures
        match discovery::index_of_cpu(topologies, cpu) {
            Some(index) => {
                &&& 0 <= index < topologies.len()
                &&& topologies[index].cpu == cpu
                &&& forall|j: int| 0 <= j < index ==> (#[trigger] topologies[j]).cpu != cpu
            },
            None => forall|j: int|
                0 <= j < topologies.len() ==> (#[trigger] topologies[j]).cpu != cpu,
        },
    decreases topologies.len(),
{
    if topologies.len() > 0 {
        let front = topologies.drop_last();
        processor_is_found_where_it_is_first(front, cpu);
        match discovery::index_of_cpu(front, cpu) {
            Some(index) => {
                assert(front[index] == topologies[index]);
                assert forall|j: int| 0 <= j < index implies (#[trigger] topologies[j]).cpu
                    != cpu by {
                    assert(front[j] == topologies[j]);
                }
            },
            None => {
                assert forall|j: int| 0 <= j < topologies.len() - 1 implies (
                #[trigger] topologies[j]).cpu != cpu by {
                    assert(front[j] == topologies[j]);
                }
            },
        }
    }
}

/// The scope of a device is that of the first of its processors that is known.
pub proof fn scope_is_that_of_the_first_known_processor<S: TopologyScope>(
    cpus: Seq<u32>,
    topologies: Seq<CpuTopology>,
    first: int,
)
    requires
        0 <= first < cpus.len(),
        discovery::index_of_cpu(topologies, cpus[first]) is Some,
        forall|j: int|
            0 <= j < first ==> discovery::index_of_cpu(topologies, #[trigger] cpus[j]) is None,
    ensures
        discovery::scope_of_cpus::<S>(cpus, topologies) == S::of(
            topologies[discovery::index_of_cpu(topologies, cpus[first])->0].levels@,
        ),
    decreases cpus.len(),
{
    if first > 0 {
        let rest = cpus.drop_first();
        assert(discovery::index_of_cpu(topologies, cpus[0]) is None);
        assert forall|j: int| 0 <= j < first - 1 implies discovery::index_of_cpu(
            topologies,
            #[trigger] rest[j],
        ) is None by {
            assert(rest[j] == cpus[j + 1]);
        }
        assert(rest[first - 1] == cpus[first]);
        scope_is_that_of_the_first_known_processor::<S>(rest, topologies, first - 1);
    }
}

/// A walk over capabilities reads the two words of a capability where it stands, and then the base
/// address that the capability names.
pub proof fn walk_reads_where_it_stands(
    offset: u64,
    first: u64,
    vsec: UncoreDiscoveryVsec,
    low: u32,
    base: u64,
)
    requires
        offset <= 0xffff,
    ensures
        capabilities::wanted_of(CapabilityWalk::First { offset }) == Some(
            ConfigRead { offset, width: Width::Bits64 },
        ),
        capabilities::wanted_of(CapabilityWalk::Second { offset, first }) matches Some(read)
            && read.offset == offset + 8 && read.width == Width::Bits64,
        capabilities::wanted_of(CapabilityWalk::BarLow { offset, vsec }) matches Some(read)
            && read.offset == 0x10 + 4 * vsec.tbir && read.width == Width::Bits32,
        capabilities::wanted_of(CapabilityWalk::BarHigh { offset, vsec, low }) matches Some(read)
            && read.offset == 0x14 + 4 * vsec.tbir && read.width == Width::Bits32,
        capabilities::wanted_of(CapabilityWalk::Table { offset, vsec, base }) is None,
        capabilities::wanted_of(CapabilityWalk::End) is None,
{
}

/// What a walk finds: it ends at a blank word and where a word cannot be read; it fails where a
/// base address cannot be; a table is never at address zero.
pub proof fn walk_ends_where_the_list_does(
    offset: u64,
    first: u64,
    vsec: UncoreDiscoveryVsec,
    low: u32,
    word: Option<u64>,
)
    ensures
        capabilities::stepped(CapabilityWalk::First { offset }, word) == Some(CapabilityWalk::End)
            <==> word is None || word == Some(0u64),
        word is Some && word->0 != 0 ==> capabilities::stepped(
            CapabilityWalk::First { offset },
            word,
        ) == Some(CapabilityWalk::Second { offset, first: word->0 }),
        capabilities::stepped(CapabilityWalk::BarLow { offset, vsec }, word) is None <==> word
            is None,
        capabilities::stepped(CapabilityWalk::BarHigh { offset, vsec, low }, word) is None <==> word
            is None,
        capabilities::stepped(CapabilityWalk::BarLow { offset, vsec }, word) matches Some(
            CapabilityWalk::Table { offset: o, vsec: v, base },
        ) ==> base != 0 && o == offset && v == vsec && base == discovery::address_of(
            (word->0 % 0x1_0000_0000) as u32,
            0,
        ),
        capabilities::stepped(CapabilityWalk::BarHigh { offset, vsec, low }, word) matches Some(
            CapabilityWalk::Table { offset: o, vsec: v, base },
        ) ==> base != 0 && o == offset && v == vsec && base == discovery::address_of(
            low,
            (word->0 % 0x1_0000_0000) as u32,
        ),
        capabilities::stepped(CapabilityWalk::Second { offset, first }, word) matches Some(
            CapabilityWalk::BarLow { offset: o, vsec: v },
        ) ==> o == offset && word is Some && capability_holds(v, first, word->0) && v.cap_id == 0x23
            && v.entry_id == 1,
{
    if let Some(second) = word {
        capability_is_read_by_its_fields(first, second);
    }
}

/// Whether a label of the processor is listed with its value.
pub open spec fn tells(labels: Seq<InfoLabel>, name: &'static str, value: InfoValue) -> bool {
    exists|k: int|
        0 <= k < labels.len() && (#[trigger] labels[k]).name == name && labels[k].value == value
}

/// The labels of the processor tell what is known of it, each under its own name.
pub proof fn processor_labels_tell_what_is_known(processor: ProcessorMetadata)
    ensures
        info::processor_labels(processor).len() == 6,
        tells(info::processor_labels(processor), "brand", InfoValue::Text(processor.brand)),
        tells(info::processor_labels(processor), "family", InfoValue::Number(processor.family)),
        tells(
            info::processor_labels(processor),
            "invariant_tsc_supported",
            InfoValue::Flag(processor.invariant_tsc_supported),
        ),
        tells(info::processor_labels(processor), "model", InfoValue::Number(processor.model)),
        tells(
            info::processor_labels(processor),
            "package_rapl_supported",
            InfoValue::Flag(processor.package_rapl_supported),
        ),
        tells(info::processor_labels(processor), "vendor", InfoValue::Text(processor.vendor)),
        info::exporter_family().name == "ocellus_info",
        info::exporter_family().help == "Static metadata for the ocellus exporter",
        info::processor_family().name == "processor_info",
        info::processor_family().help == "Static processor metadata and capabilities",
{
    let labels = info::processor_labels(processor);
    assert(labels[0].name == "brand");
    assert(labels[1].name == "family");
    assert(labels[2].name == "invariant_tsc_supported");
    assert(labels[3].name == "model");
    assert(labels[4].name == "package_rapl_supported");
    assert(labels[5].name == "vendor");
}

/// The low bits of a value are what is left of it after full turns of a counter; a counter of 64
/// bits has none.
pub proof fn low_bits_are_what_is_left(value: u64, width: nat)
    ensures
        width >= 64 ==> counter::low_bits(value as nat, width) == value,
        width < 64 ==> counter::low_bits(value as nat, width) < pow2(width) && exists|turns: int|
            value == #[trigger] (turns * pow2(width)) + counter::low_bits(value as nat, width),
{
    if width < 64 {
        lemma_pow2_pos(width);
        let m = pow2(width) as int;
        lemma_fundamental_div_mod(value as int, m);
        lemma_mod_bound(value as int, m);
        let turns = value as int / m;
        assert(m * turns == turns * m) by (nonlinear_arith);
        assert(value == (turns * m) + counter::low_bits(value as nat, width));
    }
}

/// How far a counter moved is less than a full turn, nothing where it stands still, and the
/// difference of the readings where it did not wrap around.
pub proof fn distance_is_less_than_a_turn(previous: int, current: int, width: nat)
    requires
        width < 64,
        0 <= previous < pow2(width),
        0 <= current < pow2(width),
    ensures
        0 <= counter::distance(previous, current, width) < pow2(width),
        counter::distance(previous, current, width) == 0 <==> previous == current,
        previous <= current ==> counter::distance(previous, current, width) == current - previous,
        previous > current ==> counter::distance(previous, current, width) == current + pow2(width)
            - previous,
        counter::COUNTER_WIDTH == 48,
{
    lemma_pow2_pos(width);
    let m = pow2(width) as int;
    let d = current - previous;
    lemma_mod_bound(d, m);
    if d >= 0 {
        lemma_small_mod(d as nat, m as nat);
    } else {
        lemma_mod_add_multiples_vanish(d, m);
        lemma_small_mod((d + m) as nat, m as nat);
    }
}

/// A schedule deals the interval out evenly over its slices. It starts with the group whose turn it
/// is and goes on with the group after it, the first one after the last.
pub proof fn schedule_deals_turns_in_order<G>(
    slices: Seq<Slice<G>>,
    groups: Seq<G>,
    next_group: int,
    interval_nanos: u128,
    rounds: nat,
    i: int,
)
    requires
        schedule::is_schedule(slices, groups, next_group, interval_nanos, rounds),
        0 <= next_group < groups.len(),
        0 <= i < slices.len(),
        slices.len() <= usize::MAX,
    ensures
        slices.len() == groups.len() * rounds,
        slices[i].share.interval_nanos == interval_nanos,
        slices[i].share.slice_count == slices.len(),
        slices[0].group == groups[next_group],
        schedule::MAX_SLICE_NANOS == 100_000_000,
        ({
            let n = groups.len() as int;
            let g = schedule::group_at(next_group, n, i);
            let h = schedule::group_at(next_group, n, i + 1);
            &&& 0 <= g < n
            &&& slices[i].group == groups[g]
            &&& h == if g + 1 == n {
                0
            } else {
                g + 1
            }
        }),
{
    let n = groups.len() as int;
    lemma_mod_bound(i, n);
    lemma_mod_bound(i + 1, n);
    lemma_mod_bound(next_group + i % n, n);
    lemma_add_mod_noop_right(next_group, i, n);
    lemma_add_mod_noop_right(next_group, i + 1, n);
    let t = next_group + i;
    lemma_add_mod_noop(t, 1, n);
    lemma_fundamental_div_mod(t, n);
    if n == 1 {
        lemma_mod_bound(t, n);
        lemma_mod_bound(t + 1, n);
    } else {
        lemma_small_mod(1, n as nat);
        if t % n + 1 == n {
            lemma_mod_self_0(n);
        } else {
            lemma_small_mod((t % n + 1) as nat, n as nat);
        }
    }
    lemma_small_mod(next_group as nat, n as nat);
    lemma_small_mod(0, n as nat);
}

/// A report of a processor says the same as the one that it was made of, and so does its view.
pub proof fn reports_and_views_say_the_same(
    hsx_report: ic_hsx::HsxInterconnectMetrics,
    snb_report: ic_snb::SnbInterconnectMetrics,
    qpi: QpiMetrics,
    skx_report: ic_skx::SkxInterconnectMetrics,
    icx_report: ic_icx::IcxInterconnectMetrics,
    spr_report: ic_spr::SprInterconnectMetrics,
    upi: UpiMetrics,
    view: InterconnectMetricsView,
)
    ensures
        ic_hsx::same_report(hsx_report, qpi) && ic_hsx::is_view(hsx_report, view) ==> is_qpi_view(
            qpi,
            view,
        ),
        ic_snb::same_report(snb_report, qpi) && ic_snb::is_view(snb_report, view) ==> is_qpi_view(
            qpi,
            view,
        ),
        ic_skx::same_report(skx_report, upi) && ic_skx::is_view(skx_report, view) ==> is_upi_view(
            upi,
            view,
        ),
        ic_icx::same_report(icx_report, upi) && ic_icx::is_view(icx_report, view) ==> is_upi_view(
            upi,
            view,
        ),
        ic_spr::same_report(spr_report, upi) && ic_spr::is_view(spr_report, view) ==> is_upi_view(
            upi,
            view,
        ),
{
}

/// Whether a view has all that a report on QPI links says.
pub open spec fn is_qpi_view(report: QpiMetrics, view: InterconnectMetricsView) -> bool {
    &&& view.links@ == report.links@
    &&& view.traffic@ == report.traffic@
    &&& view.power_states@ == report.power_states@
    &&& view.queues@ == report.queues@
}

/// Whether a view has all that a report on UPI links says; it has no queues.
pub open spec fn is_upi_view(report: UpiMetrics, view: InterconnectMetricsView) -> bool {
    &&& view.links@ == report.links@
    &&& view.traffic@ == report.traffic@
    &&& view.power_states@ == report.power_states@
    &&& view.queues@.len() == 0
}

/// Whether a list has a report.
#[verifier::opaque]
pub open spec fn has_report<U>(list: Seq<U>, report: U) -> bool {
    exists|k: int| 0 <= k < list.len() && #[trigger] list[k] == report
}

proof fn lemma_one_more<U>(before: Seq<U>, next: Option<U>)
    ensures
        (before + metrics::present(next)).len() == before.len() + labels::one(next is Some),
        forall|u: U| #[trigger]
            has_report(before + metrics::present(next), u) <==> has_report(before, u) || next
                == Some(u),
{
    reveal(has_report);
    let all = before + metrics::present(next);
    assert forall|u: U| #[trigger] has_report(all, u) <==> has_report(before, u) || next
        == Some(u) by {
        if has_report(before, u) {
            let k = choose|k: int| 0 <= k < before.len() && #[trigger] before[k] == u;
            assert(all[k] == u);
        }
        if next == Some(u) {
            assert(all[before.len() as int] == u);
        }
    }
}

/// A state hands on every report that it holds, once, and nothing else.
pub proof fn state_hands_on_what_it_holds<Cha, Iio, Tsc>(state: MetricsState<Cha, Iio, Tsc>)
    ensures
        metrics::state_updates(state).len() == labels::one(state.cha is Some)
            + labels::one(state.iio is Some) + labels::one(state.imc is Some) + labels::one(
            state.interconnect is Some,
        ) + labels::one(state.irp is Some) + labels::one(state.pcu is Some)
            + labels::one(state.rapl is Some) + labels::one(state.tsc is Some),
        forall|update: MetricUpdate<Cha, Iio, Tsc>| #[trigger]
            has_report(metrics::state_updates(state), update) <==> metrics::holds(state, update),
{
    let u0: Option<MetricUpdate<Cha, Iio, Tsc>> = match state.cha {
        Some(report) => Some(MetricUpdate::Cha(Box::new(report))),
        None => None,
    };
    let u1: Option<MetricUpdate<Cha, Iio, Tsc>> = match state.iio {
        Some(report) => Some(MetricUpdate::Iio(Box::new(report))),
        None => None,
    };
    let u2: Option<MetricUpdate<Cha, Iio, Tsc>> = match state.imc {
        Some(report) => Some(MetricUpdate::Imc(Box::new(report))),
        None => None,
    };
    let u3: Option<MetricUpdate<Cha, Iio, Tsc>> = match state.interconnect {
        Some(report) => Some(MetricUpdate::Interconnect(Box::new(report))),
        None => None,
    };
    let u4: Option<MetricUpdate<Cha, Iio, Tsc>> = match state.irp {
        Some(report) => Some(MetricUpdate::Irp(Box::new(report))),
        None => None,
    };
    let u5: Option<MetricUpdate<Cha, Iio, Tsc>> = match state.pcu {
        Some(report) => Some(MetricUpdate::Pcu(Box::new(report))),
        None => None,
    };
    let u6: Option<MetricUpdate<Cha, Iio, Tsc>> = match state.rapl {
        Some(report) => Some(MetricUpdate::Rapl(Box::new(report))),
        None => None,
    };
    let u7: Option<MetricUpdate<Cha, Iio, Tsc>> = match state.tsc {
        Some(report) => Some(MetricUpdate::Tsc(Box::new(report))),
        None => None,
    };
    let p0 = metrics::present(u0);
    let p1 = p0 + metrics::present(u1);
    let p2 = p1 + metrics::present(u2);
    let p3 = p2 + metrics::present(u3);
    let p4 = p3 + metrics::present(u4);
    let p5 = p4 + metrics::present(u5);
    let p6 = p5 + metrics::present(u6);
    let p7 = p6 + metrics::present(u7);
    let none: Seq<MetricUpdate<Cha, Iio, Tsc>> = Seq::empty();
    lemma_one_more(none, u0);
    assert(none + p0 =~= p0);
    assert(forall|u: MetricUpdate<Cha, Iio, Tsc>| !#[trigger] has_report(none, u)) by {
        reveal(has_report);
    }
    lemma_one_more(p0, u1);
    lemma_one_more(p1, u2);
    lemma_one_more(p2, u3);
    lemma_one_more(p3, u4);
    lemma_one_more(p4, u5);
    lemma_one_more(p5, u6);
    lemma_one_more(p6, u7);
    assert(metrics::state_updates(state) == p7);
}

/// A report is expected exactly where the families of its collector are registered; those of the
/// time stamp counter always are.
pub proof fn reports_are_expected_where_registered<Cha, Iio, Tsc>(
    registry: MetricsRegistry,
    state: MetricsState<Cha, Iio, Tsc>,
    update: MetricUpdate<Cha, Iio, Tsc>,
)
    ensures
        update is Tsc ==> metrics::is_expected(registry, update),
        update is Cha ==> (metrics::is_expected(registry, update) <==> registry.has_cha()),
        update is Iio ==> (metrics::is_expected(registry, update) <==> registry.has_iio()),
        update is Imc ==> (metrics::is_expected(registry, update) <==> registry.imc() is Some),
        update is Interconnect ==> (
            metrics::is_expected(registry, update) <==> registry.interconnect() is Some
        ),
        update is Irp ==> (metrics::is_expected(registry, update) <==> registry.irp() is Some),
        update is Pcu ==> (metrics::is_expected(registry, update) <==> registry.pcu() is Some),
        update is Rapl ==> (metrics::is_expected(registry, update) <==> registry.rapl() is Some),
        metrics::is_accepted(registry, update) ==> metrics::is_expected(registry, update),
        metrics::all_expected(registry, state)
            <==> forall|u: MetricUpdate<Cha, Iio, Tsc>| #[trigger]
            metrics::holds(state, u) ==> metrics::is_expected(registry, u),
{
    if !metrics::all_expected(registry, state) {
        if state.cha is Some && !(registry.has_cha()) {
            assert(metrics::holds(
                state,
                MetricUpdate::<Cha, Iio, Tsc>::Cha(Box::new(state.cha->0)),
            ));
        }
        if state.iio is Some && !(registry.has_iio()) {
            assert(metrics::holds(
                state,
                MetricUpdate::<Cha, Iio, Tsc>::Iio(Box::new(state.iio->0)),
            ));
        }
        if state.imc is Some && !(registry.imc() is Some) {
            assert(metrics::holds(
                state,
                MetricUpdate::<Cha, Iio, Tsc>::Imc(Box::new(state.imc->0)),
            ));
        }
        if state.interconnect is Some && !(registry.interconnect() is Some) {
            assert(metrics::holds(
                state,
                MetricUpdate::<Cha, Iio, Tsc>::Interconnect(Box::new(state.interconnect->0)),
            ));
        }
        if state.irp is Some && !(registry.irp() is Some) {
            assert(metrics::holds(
                state,
                MetricUpdate::<Cha, Iio, Tsc>::Irp(Box::new(state.irp->0)),
            ));
        }
        if state.pcu is Some && !(registry.pcu() is Some) {
            assert(metrics::holds(
                state,
                MetricUpdate::<Cha, Iio, Tsc>::Pcu(Box::new(state.pcu->0)),
            ));
        }
        if state.rapl is Some && !(registry.rapl() is Some) {
            assert(metrics::holds(
                state,
                MetricUpdate::<Cha, Iio, Tsc>::Rapl(Box::new(state.rapl->0)),
            ));
        }
    }
}

} // verus!
