//! What the families of metrics are called and mean.
use crate::export::MetricDescriptor;
use crate::laws::labels;
use crate::metrics::imc::hsx as imc_hsx;
use crate::metrics::imc::icx as imc_icx;
use crate::metrics::imc::skx as imc_skx;
use crate::metrics::imc::snb as imc_snb;
use crate::metrics::imc::spr as imc_spr;
use crate::metrics::interconnect;
use crate::metrics::irp::hsx as irp_hsx;
use crate::metrics::irp::icx as irp_icx;
use crate::metrics::irp::skx as irp_skx;
use crate::metrics::irp::snb as irp_snb;
use crate::metrics::irp::spr as irp_spr;
use crate::metrics::pcu::hsx as pcu_hsx;
use crate::metrics::pcu::icx as pcu_icx;
use crate::metrics::pcu::skx as pcu_skx;
use crate::metrics::pcu::snb as pcu_snb;
use crate::metrics::pcu::spr as pcu_spr;
use crate::metrics::rapl;
use vstd::prelude::*;

verus! {

/// Every family on the memory of Haswell and Broadwell is registered with what it means.
pub proof fn imc_hsx_families_say_what_they_mean(given: Vec<MetricDescriptor>)
    requires
        call_ensures(imc_hsx::HsxImcPrometheusMetrics::register, (), given),
    ensures
        given@.len() == 16,
        labels::describes(
            given@,
            "ocellus_haswell_imc_activate_commands_per_second",
            "Interval-derived Haswell IMC activate commands per second",
        ),
        labels::describes(
            given@,
            "ocellus_haswell_imc_frequency_hz",
            "Interval-derived Haswell IMC DCLK frequency in hertz",
        ),
        labels::describes(
            given@,
            "ocellus_haswell_imc_page_miss_precharge_commands_per_second",
            "Interval-derived Haswell IMC page-miss precharge commands per second",
        ),
        labels::describes(
            given@,
            "ocellus_haswell_imc_read_cas_commands_per_second",
            "Interval-derived Haswell IMC read CAS commands per second",
        ),
        labels::describes(
            given@,
            "ocellus_haswell_imc_read_bytes_per_second",
            "Interval-derived Haswell IMC read bandwidth in bytes per second",
        ),
        labels::describes(
            given@,
            "ocellus_haswell_imc_rpq_non_empty_ratio",
            "Haswell IMC read pending queue non-empty cycle ratio",
        ),
        labels::describes(
            given@,
            "ocellus_haswell_imc_write_cas_commands_per_second",
            "Interval-derived Haswell IMC write CAS commands per second",
        ),
        labels::describes(
            given@,
            "ocellus_haswell_imc_write_bytes_per_second",
            "Interval-derived Haswell IMC write bandwidth in bytes per second",
        ),
        labels::describes(
            given@,
            "ocellus_haswell_imc_wpq_full_ratio",
            "Haswell IMC write pending queue full cycle ratio",
        ),
        labels::describes(
            given@,
            "ocellus_haswell_imc_wpq_non_empty_ratio",
            "Haswell IMC write pending queue non-empty cycle ratio",
        ),
        labels::describes(
            given@,
            "ocellus_haswell_ha_local_read_bytes_per_second",
            "Interval-derived Haswell HA local read request bandwidth in bytes per second",
        ),
        labels::describes(
            given@,
            "ocellus_haswell_ha_local_read_ratio",
            "Haswell HA local read request ratio",
        ),
        labels::describes(
            given@,
            "ocellus_haswell_ha_local_write_bytes_per_second",
            "Interval-derived Haswell HA local write request bandwidth in bytes per second",
        ),
        labels::describes(
            given@,
            "ocellus_haswell_ha_local_write_ratio",
            "Haswell HA local write request ratio",
        ),
        labels::describes(
            given@,
            "ocellus_haswell_ha_remote_read_bytes_per_second",
            "Interval-derived Haswell HA remote read request bandwidth in bytes per second",
        ),
        labels::describes(
            given@,
            "ocellus_haswell_ha_remote_write_bytes_per_second",
            "Interval-derived Haswell HA remote write request bandwidth in bytes per second",
        ),
{
    let families = imc_hsx::families();
    assert(families[0].name == "ocellus_haswell_imc_activate_commands_per_second");
    assert(families[1].name == "ocellus_haswell_imc_frequency_hz");
    assert(families[2].name == "ocellus_haswell_imc_page_miss_precharge_commands_per_second");
    assert(families[3].name == "ocellus_haswell_imc_read_cas_commands_per_second");
    assert(families[4].name == "ocellus_haswell_imc_read_bytes_per_second");
    assert(families[5].name == "ocellus_haswell_imc_rpq_non_empty_ratio");
    assert(families[6].name == "ocellus_haswell_imc_write_cas_commands_per_second");
    assert(families[7].name == "ocellus_haswell_imc_write_bytes_per_second");
    assert(families[8].name == "ocellus_haswell_imc_wpq_full_ratio");
    assert(families[9].name == "ocellus_haswell_imc_wpq_non_empty_ratio");
    assert(families[10].name == "ocellus_haswell_ha_local_read_bytes_per_second");
    assert(families[11].name == "ocellus_haswell_ha_local_read_ratio");
    assert(families[12].name == "ocellus_haswell_ha_local_write_bytes_per_second");
    assert(families[13].name == "ocellus_haswell_ha_local_write_ratio");
    assert(families[14].name == "ocellus_haswell_ha_remote_read_bytes_per_second");
    assert(families[15].name == "ocellus_haswell_ha_remote_write_bytes_per_second");
}

/// Every family on the memory of Ice Lake is registered with what it means.
pub proof fn imc_icx_families_say_what_they_mean(given: Vec<MetricDescriptor>)
    requires
        call_ensures(imc_icx::IcxImcPrometheusMetrics::register, (), given),
    ensures
        given@.len() == 11,
        labels::describes(
            given@,
            "ocellus_imc_activate_commands_per_second",
            "Interval-derived IMC activate commands per second",
        ),
        labels::describes(
            given@,
            "ocellus_imc_frequency_hz",
            "Interval-derived IMC DCLK frequency in hertz",
        ),
        labels::describes(
            given@,
            "ocellus_imc_page_miss_precharge_commands_per_second",
            "Interval-derived IMC page-miss precharge commands per second",
        ),
        labels::describes(
            given@,
            "ocellus_imc_read_cas_commands_per_second",
            "Interval-derived IMC read CAS commands per second",
        ),
        labels::describes(
            given@,
            "ocellus_imc_read_bytes_per_second",
            "Interval-derived IMC read bandwidth in bytes per second",
        ),
        labels::describes(
            given@,
            "ocellus_imc_rpq_residency_seconds",
            "Interval-derived IMC read pending queue residency in seconds",
        ),
        labels::describes(
            given@,
            "ocellus_imc_rpq_occupancy_entries",
            "Average IMC read pending queue occupancy in entries",
        ),
        labels::describes(
            given@,
            "ocellus_imc_write_cas_commands_per_second",
            "Interval-derived IMC write CAS commands per second",
        ),
        labels::describes(
            given@,
            "ocellus_imc_write_bytes_per_second",
            "Interval-derived IMC write bandwidth in bytes per second",
        ),
        labels::describes(
            given@,
            "ocellus_imc_wpq_residency_seconds",
            "Interval-derived IMC write pending queue residency in seconds",
        ),
        labels::describes(
            given@,
            "ocellus_imc_wpq_occupancy_entries",
            "Average IMC write pending queue occupancy in entries",
        ),
{
    let families = imc_icx::families();
    assert(families[0].name == "ocellus_imc_activate_commands_per_second");
    assert(families[1].name == "ocellus_imc_frequency_hz");
    assert(families[2].name == "ocellus_imc_page_miss_precharge_commands_per_second");
    assert(families[3].name == "ocellus_imc_read_cas_commands_per_second");
    assert(families[4].name == "ocellus_imc_read_bytes_per_second");
    assert(families[5].name == "ocellus_imc_rpq_residency_seconds");
    assert(families[6].name == "ocellus_imc_rpq_occupancy_entries");
    assert(families[7].name == "ocellus_imc_write_cas_commands_per_second");
    assert(families[8].name == "ocellus_imc_write_bytes_per_second");
    assert(families[9].name == "ocellus_imc_wpq_residency_seconds");
    assert(families[10].name == "ocellus_imc_wpq_occupancy_entries");
}

/// Every family on the memory of Skylake is registered with what it means.
pub proof fn imc_skx_families_say_what_they_mean(given: Vec<MetricDescriptor>)
    requires
        call_ensures(imc_skx::ImcPrometheusMetrics::register, (), given),
    ensures
        given@.len() == 11,
        labels::describes(
            given@,
            "ocellus_imc_activate_commands_per_second",
            "Interval-derived IMC activate commands per second",
        ),
        labels::describes(
            given@,
            "ocellus_imc_frequency_hz",
            "Interval-derived IMC DCLK frequency in hertz",
        ),
        labels::describes(
            given@,
            "ocellus_imc_page_miss_precharge_commands_per_second",
            "Interval-derived IMC page-miss precharge commands per second",
        ),
        labels::describes(
            given@,
            "ocellus_imc_read_cas_commands_per_second",
            "Interval-derived IMC read CAS commands per second",
        ),
        labels::describes(
            given@,
            "ocellus_imc_read_bytes_per_second",
            "Interval-derived IMC read bandwidth in bytes per second",
        ),
        labels::describes(
            given@,
            "ocellus_imc_rpq_residency_seconds",
            "Interval-derived IMC read pending queue residency in seconds",
        ),
        labels::describes(
            given@,
            "ocellus_imc_rpq_occupancy_entries",
            "Average IMC read pending queue occupancy in entries",
        ),
        labels::describes(
            given@,
            "ocellus_imc_write_cas_commands_per_second",
            "Interval-derived IMC write CAS commands per second",
        ),
        labels::describes(
            given@,
            "ocellus_imc_write_bytes_per_second",
            "Interval-derived IMC write bandwidth in bytes per second",
        ),
        labels::describes(
            given@,
            "ocellus_imc_wpq_residency_seconds",
            "Interval-derived IMC write pending queue residency in seconds",
        ),
        labels::describes(
            given@,
            "ocellus_imc_wpq_occupancy_entries",
            "Average IMC write pending queue occupancy in entries",
        ),
{
    let families = imc_skx::families();
    assert(families[0].name == "ocellus_imc_activate_commands_per_second");
    assert(families[1].name == "ocellus_imc_frequency_hz");
    assert(families[2].name == "ocellus_imc_page_miss_precharge_commands_per_second");
    assert(families[3].name == "ocellus_imc_read_cas_commands_per_second");
    assert(families[4].name == "ocellus_imc_read_bytes_per_second");
    assert(families[5].name == "ocellus_imc_rpq_residency_seconds");
    assert(families[6].name == "ocellus_imc_rpq_occupancy_entries");
    assert(families[7].name == "ocellus_imc_write_cas_commands_per_second");
    assert(families[8].name == "ocellus_imc_write_bytes_per_second");
    assert(families[9].name == "ocellus_imc_wpq_residency_seconds");
    assert(families[10].name == "ocellus_imc_wpq_occupancy_entries");
}

/// Every family on the memory of Sandy and Ivy Bridge is registered with what it means.
pub proof fn imc_snb_families_say_what_they_mean(given: Vec<MetricDescriptor>)
    requires
        call_ensures(imc_snb::SnbImcPrometheusMetrics::register, (), given),
    ensures
        given@.len() == 10,
        labels::describes(
            given@,
            "ocellus_imc_activate_commands_per_second",
            "Interval-derived IMC activate commands per second",
        ),
        labels::describes(
            given@,
            "ocellus_imc_frequency_hz",
            "Interval-derived IMC DCLK frequency in hertz",
        ),
        labels::describes(
            given@,
            "ocellus_imc_page_miss_precharge_commands_per_second",
            "Interval-derived IMC page-miss precharge commands per second",
        ),
        labels::describes(
            given@,
            "ocellus_imc_read_cas_commands_per_second",
            "Interval-derived IMC read CAS commands per second",
        ),
        labels::describes(
            given@,
            "ocellus_imc_read_bytes_per_second",
            "Interval-derived IMC read bandwidth in bytes per second",
        ),
        labels::describes(
            given@,
            "ocellus_imc_rpq_non_empty_ratio",
            "Average IMC read pending queue non-empty cycle ratio",
        ),
        labels::describes(
            given@,
            "ocellus_imc_write_cas_commands_per_second",
            "Interval-derived IMC write CAS commands per second",
        ),
        labels::describes(
            given@,
            "ocellus_imc_write_bytes_per_second",
            "Interval-derived IMC write bandwidth in bytes per second",
        ),
        labels::describes(
            given@,
            "ocellus_imc_wpq_full_ratio",
            "Average IMC write pending queue full cycle ratio",
        ),
        labels::describes(
            given@,
            "ocellus_imc_wpq_non_empty_ratio",
            "Average IMC write pending queue non-empty cycle ratio",
        ),
{
    let families = imc_snb::families();
    assert(families[0].name == "ocellus_imc_activate_commands_per_second");
    assert(families[1].name == "ocellus_imc_frequency_hz");
    assert(families[2].name == "ocellus_imc_page_miss_precharge_commands_per_second");
    assert(families[3].name == "ocellus_imc_read_cas_commands_per_second");
    assert(families[4].name == "ocellus_imc_read_bytes_per_second");
    assert(families[5].name == "ocellus_imc_rpq_non_empty_ratio");
    assert(families[6].name == "ocellus_imc_write_cas_commands_per_second");
    assert(families[7].name == "ocellus_imc_write_bytes_per_second");
    assert(families[8].name == "ocellus_imc_wpq_full_ratio");
    assert(families[9].name == "ocellus_imc_wpq_non_empty_ratio");
}

/// Every family on the memory of Sapphire Rapids is registered with what it means.
pub proof fn imc_spr_families_say_what_they_mean(given: Vec<MetricDescriptor>)
    requires
        call_ensures(imc_spr::SprImcPrometheusMetrics::register, (), given),
    ensures
        given@.len() == 11,
        labels::describes(
            given@,
            "ocellus_imc_activate_commands_per_second",
            "Interval-derived IMC activate commands per second",
        ),
        labels::describes(
            given@,
            "ocellus_imc_frequency_hz",
            "Interval-derived IMC DCLK frequency in hertz",
        ),
        labels::describes(
            given@,
            "ocellus_imc_page_miss_precharge_commands_per_second",
            "Interval-derived IMC page-miss precharge commands per second",
        ),
        labels::describes(
            given@,
            "ocellus_imc_read_cas_commands_per_second",
            "Interval-derived IMC read CAS commands per second",
        ),
        labels::describes(
            given@,
            "ocellus_imc_read_bytes_per_second",
            "Interval-derived IMC read bandwidth in bytes per second",
        ),
        labels::describes(
            given@,
            "ocellus_imc_rpq_residency_seconds",
            "Interval-derived IMC read pending queue residency in seconds",
        ),
        labels::describes(
            given@,
            "ocellus_imc_rpq_occupancy_entries",
            "Average IMC read pending queue occupancy in entries",
        ),
        labels::describes(
            given@,
            "ocellus_imc_write_cas_commands_per_second",
            "Interval-derived IMC write CAS commands per second",
        ),
        labels::describes(
            given@,
            "ocellus_imc_write_bytes_per_second",
            "Interval-derived IMC write bandwidth in bytes per second",
        ),
        labels::describes(
            given@,
            "ocellus_imc_wpq_residency_seconds",
            "Interval-derived IMC write pending queue residency in seconds",
        ),
        labels::describes(
            given@,
            "ocellus_imc_wpq_occupancy_entries",
            "Average IMC write pending queue occupancy in entries",
        ),
{
    let families = imc_spr::families();
    assert(families[0].name == "ocellus_imc_activate_commands_per_second");
    assert(families[1].name == "ocellus_imc_frequency_hz");
    assert(families[2].name == "ocellus_imc_page_miss_precharge_commands_per_second");
    assert(families[3].name == "ocellus_imc_read_cas_commands_per_second");
    assert(families[4].name == "ocellus_imc_read_bytes_per_second");
    assert(families[5].name == "ocellus_imc_rpq_residency_seconds");
    assert(families[6].name == "ocellus_imc_rpq_occupancy_entries");
    assert(families[7].name == "ocellus_imc_write_cas_commands_per_second");
    assert(families[8].name == "ocellus_imc_write_bytes_per_second");
    assert(families[9].name == "ocellus_imc_wpq_residency_seconds");
    assert(families[10].name == "ocellus_imc_wpq_occupancy_entries");
}

/// Every family on inbound traffic of Haswell and Broadwell is registered with what it means.
pub proof fn irp_hsx_families_say_what_they_mean(given: Vec<MetricDescriptor>)
    requires
        call_ensures(irp_hsx::HsxIrpPrometheusMetrics::register, (), given),
    ensures
        given@.len() == 13,
        labels::describes(
            given@,
            "ocellus_irp_clflush_bytes_per_second",
            "Interval-derived IRP CLFlush bandwidth in bytes per second",
        ),
        labels::describes(
            given@,
            "ocellus_irp_core_read_bytes_per_second",
            "Interval-derived IRP core read bandwidth in bytes per second",
        ),
        labels::describes(
            given@,
            "ocellus_irp_demand_read_bytes_per_second",
            "Interval-derived IRP demand read bandwidth in bytes per second",
        ),
        labels::describes(
            given@,
            "ocellus_irp_frequency_hz",
            "Interval-derived IRP clock frequency in hertz",
        ),
        labels::describes(
            given@,
            "ocellus_irp_io_write_conflict_ratio",
            "Interval-derived IRP I/O write conflict ratio from lost forwards over PCIe inbound writes",
        ),
        labels::describes(
            given@,
            "ocellus_irp_pci_dca_hint_bytes_per_second",
            "Interval-derived IRP PCI DCA hint bandwidth in bytes per second",
        ),
        labels::describes(
            given@,
            "ocellus_irp_pci_itom_bytes_per_second",
            "Interval-derived IRP PCI ItoM bandwidth in bytes per second",
        ),
        labels::describes(
            given@,
            "ocellus_irp_pcie_inbound_reads_per_second",
            "Interval-derived IRP PCIe inbound reads per second",
        ),
        labels::describes(
            given@,
            "ocellus_irp_pcie_inbound_writes_per_second",
            "Interval-derived IRP PCIe inbound writes per second",
        ),
        labels::describes(
            given@,
            "ocellus_irp_pcie_read_current_bytes_per_second",
            "Interval-derived IRP PCIe read current bandwidth in bytes per second",
        ),
        labels::describes(
            given@,
            "ocellus_irp_read_for_ownership_bytes_per_second",
            "Interval-derived IRP RFO bandwidth in bytes per second",
        ),
        labels::describes(
            given@,
            "ocellus_irp_total_occupancy_entries",
            "Average total IRP read and write occupancy in entries",
        ),
        labels::describes(
            given@,
            "ocellus_irp_wbmtoi_bytes_per_second",
            "Interval-derived IRP WbMtoI bandwidth in bytes per second",
        ),
{
    let families = irp_hsx::families();
    assert(families[0].name == "ocellus_irp_clflush_bytes_per_second");
    assert(families[1].name == "ocellus_irp_core_read_bytes_per_second");
    assert(families[2].name == "ocellus_irp_demand_read_bytes_per_second");
    assert(families[3].name == "ocellus_irp_frequency_hz");
    assert(families[4].name == "ocellus_irp_io_write_conflict_ratio");
    assert(families[5].name == "ocellus_irp_pci_dca_hint_bytes_per_second");
    assert(families[6].name == "ocellus_irp_pci_itom_bytes_per_second");
    assert(families[7].name == "ocellus_irp_pcie_inbound_reads_per_second");
    assert(families[8].name == "ocellus_irp_pcie_inbound_writes_per_second");
    assert(families[9].name == "ocellus_irp_pcie_read_current_bytes_per_second");
    assert(families[10].name == "ocellus_irp_read_for_ownership_bytes_per_second");
    assert(families[11].name == "ocellus_irp_total_occupancy_entries");
    assert(families[12].name == "ocellus_irp_wbmtoi_bytes_per_second");
}

/// Every family on inbound traffic of Ice Lake is registered with what it means.
pub proof fn irp_icx_families_say_what_they_mean(given: Vec<MetricDescriptor>)
    requires
        call_ensures(irp_icx::IcxIrpPrometheusMetrics::register, (), given),
    ensures
        given@.len() == 14,
        labels::describes(
            given@,
            "ocellus_irp_all_hit_m_snoop_responses_per_second",
            "Interval-derived IRP snoop responses that hit modified lines per second",
        ),
        labels::describes(
            given@,
            "ocellus_irp_clflush_bytes_per_second",
            "Interval-derived IRP CLFlush bandwidth in bytes per second",
        ),
        labels::describes(
            given@,
            "ocellus_irp_faf_full_ratio",
            "Interval-derived fraction of IRP fire-and-forget queue full cycles",
        ),
        labels::describes(
            given@,
            "ocellus_irp_faf_occupancy_entries",
            "Average IRP fire-and-forget queue occupancy in entries",
        ),
        labels::describes(
            given@,
            "ocellus_irp_pcie_inbound_reads_per_second",
            "Interval-derived IRP PCIe inbound reads per second",
        ),
        labels::describes(
            given@,
            "ocellus_irp_frequency_hz",
            "Interval-derived IRP clock frequency in hertz",
        ),
        labels::describes(
            given@,
            "ocellus_irp_io_write_conflict_ratio",
            "Interval-derived IRP I/O write conflict ratio from lost forwards over PCIe inbound writes",
        ),
        labels::describes(
            given@,
            "ocellus_irp_pci_itom_bytes_per_second",
            "Interval-derived IRP PCI ItoM bandwidth in bytes per second",
        ),
        labels::describes(
            given@,
            "ocellus_irp_pcie_read_current_bytes_per_second",
            "Interval-derived IRP PCIe read current bandwidth in bytes per second",
        ),
        labels::describes(
            given@,
            "ocellus_irp_read_for_ownership_bytes_per_second",
            "Interval-derived IRP RFO bandwidth in bytes per second",
        ),
        labels::describes(
            given@,
            "ocellus_irp_total_occupancy_entries",
            "Average total IRP read and write occupancy in entries",
        ),
        labels::describes(
            given@,
            "ocellus_irp_wbmtoi_bytes_per_second",
            "Interval-derived IRP WbMtoI bandwidth in bytes per second",
        ),
        labels::describes(
            given@,
            "ocellus_irp_pcie_inbound_writes_per_second",
            "Interval-derived IRP PCIe inbound writes per second",
        ),
        labels::describes(
            given@,
            "ocellus_irp_pcie_inbound_write_latency_seconds",
            "Interval-derived IRP inbound write residency latency in seconds",
        ),
{
    let families = irp_icx::families();
    assert(families[0].name == "ocellus_irp_all_hit_m_snoop_responses_per_second");
    assert(families[1].name == "ocellus_irp_clflush_bytes_per_second");
    assert(families[2].name == "ocellus_irp_faf_full_ratio");
    assert(families[3].name == "ocellus_irp_faf_occupancy_entries");
    assert(families[4].name == "ocellus_irp_pcie_inbound_reads_per_second");
    assert(families[5].name == "ocellus_irp_frequency_hz");
    assert(families[6].name == "ocellus_irp_io_write_conflict_ratio");
    assert(families[7].name == "ocellus_irp_pci_itom_bytes_per_second");
    assert(families[8].name == "ocellus_irp_pcie_read_current_bytes_per_second");
    assert(families[9].name == "ocellus_irp_read_for_ownership_bytes_per_second");
    assert(families[10].name == "ocellus_irp_total_occupancy_entries");
    assert(families[11].name == "ocellus_irp_wbmtoi_bytes_per_second");
    assert(families[12].name == "ocellus_irp_pcie_inbound_writes_per_second");
    assert(families[13].name == "ocellus_irp_pcie_inbound_write_latency_seconds");
}

/// Every family on inbound traffic of Skylake is registered with what it means.
pub proof fn irp_skx_families_say_what_they_mean(given: Vec<MetricDescriptor>)
    requires
        call_ensures(irp_skx::IrpPrometheusMetrics::register, (), given),
    ensures
        given@.len() == 13,
        labels::describes(
            given@,
            "ocellus_irp_clflush_bytes_per_second",
            "Interval-derived IRP CLFlush bandwidth in bytes per second",
        ),
        labels::describes(
            given@,
            "ocellus_irp_core_read_bytes_per_second",
            "Interval-derived IRP core read bandwidth in bytes per second",
        ),
        labels::describes(
            given@,
            "ocellus_irp_demand_read_bytes_per_second",
            "Interval-derived IRP demand read bandwidth in bytes per second",
        ),
        labels::describes(
            given@,
            "ocellus_irp_faf_occupancy_entries",
            "Average IRP fire-and-forget queue occupancy in entries",
        ),
        labels::describes(
            given@,
            "ocellus_irp_frequency_hz",
            "Interval-derived IRP clock frequency in hertz",
        ),
        labels::describes(
            given@,
            "ocellus_irp_pci_dca_hint_bytes_per_second",
            "Interval-derived IRP PCI DCA hint bandwidth in bytes per second",
        ),
        labels::describes(
            given@,
            "ocellus_irp_pci_itom_bytes_per_second",
            "Interval-derived IRP PCI ItoM bandwidth in bytes per second",
        ),
        labels::describes(
            given@,
            "ocellus_irp_pcie_read_current_bytes_per_second",
            "Interval-derived IRP PCIe read current bandwidth in bytes per second",
        ),
        labels::describes(
            given@,
            "ocellus_irp_read_for_ownership_bytes_per_second",
            "Interval-derived IRP RFO bandwidth in bytes per second",
        ),
        labels::describes(
            given@,
            "ocellus_irp_total_occupancy_entries",
            "Average total IRP read and write occupancy in entries",
        ),
        labels::describes(
            given@,
            "ocellus_irp_wbmtoi_bytes_per_second",
            "Interval-derived IRP WbMtoI bandwidth in bytes per second",
        ),
        labels::describes(
            given@,
            "ocellus_irp_write_inserts_per_second",
            "Interval-derived IRP inbound write fast-path inserts per second",
        ),
        labels::describes(
            given@,
            "ocellus_irp_write_latency_seconds",
            "Interval-derived IRP inbound write residency latency in seconds",
        ),
{
    let families = irp_skx::families();
    assert(families[0].name == "ocellus_irp_clflush_bytes_per_second");
    assert(families[1].name == "ocellus_irp_core_read_bytes_per_second");
    assert(families[2].name == "ocellus_irp_demand_read_bytes_per_second");
    assert(families[3].name == "ocellus_irp_faf_occupancy_entries");
    assert(families[4].name == "ocellus_irp_frequency_hz");
    assert(families[5].name == "ocellus_irp_pci_dca_hint_bytes_per_second");
    assert(families[6].name == "ocellus_irp_pci_itom_bytes_per_second");
    assert(families[7].name == "ocellus_irp_pcie_read_current_bytes_per_second");
    assert(families[8].name == "ocellus_irp_read_for_ownership_bytes_per_second");
    assert(families[9].name == "ocellus_irp_total_occupancy_entries");
    assert(families[10].name == "ocellus_irp_wbmtoi_bytes_per_second");
    assert(families[11].name == "ocellus_irp_write_inserts_per_second");
    assert(families[12].name == "ocellus_irp_write_latency_seconds");
}

/// Every family on inbound traffic of Sandy and Ivy Bridge is registered with what it means.
pub proof fn irp_snb_families_say_what_they_mean(given: Vec<MetricDescriptor>)
    requires
        call_ensures(irp_snb::SnbIrpPrometheusMetrics::register, (), given),
    ensures
        given@.len() == 5,
        labels::describes(
            given@,
            "ocellus_irp_frequency_hz",
            "Interval-derived IRP clock frequency in hertz",
        ),
        labels::describes(
            given@,
            "ocellus_irp_io_write_conflict_ratio",
            "Interval-derived IRP I/O write conflict ratio from lost ownership over PCIe inbound writes",
        ),
        labels::describes(
            given@,
            "ocellus_irp_pcie_inbound_reads_per_second",
            "Interval-derived IRP PCIe inbound reads per second",
        ),
        labels::describes(
            given@,
            "ocellus_irp_pcie_inbound_writes_per_second",
            "Interval-derived IRP PCIe inbound writes per second",
        ),
        labels::describes(
            given@,
            "ocellus_irp_total_occupancy_entries",
            "Average total IRP read and write occupancy in entries",
        ),
{
    let families = irp_snb::families();
    assert(families[0].name == "ocellus_irp_frequency_hz");
    assert(families[1].name == "ocellus_irp_io_write_conflict_ratio");
    assert(families[2].name == "ocellus_irp_pcie_inbound_reads_per_second");
    assert(families[3].name == "ocellus_irp_pcie_inbound_writes_per_second");
    assert(families[4].name == "ocellus_irp_total_occupancy_entries");
}

/// Every family on inbound traffic of Sapphire Rapids is registered with what it means.
pub proof fn irp_spr_families_say_what_they_mean(given: Vec<MetricDescriptor>)
    requires
        call_ensures(irp_spr::SprIrpPrometheusMetrics::register, (), given),
    ensures
        given@.len() == 9,
        labels::describes(
            given@,
            "ocellus_irp_all_hit_m_snoop_responses_per_second",
            "Interval-derived IRP snoop responses that hit modified lines per second",
        ),
        labels::describes(
            given@,
            "ocellus_irp_faf_full_ratio",
            "Interval-derived fraction of IRP fire-and-forget queue full cycles",
        ),
        labels::describes(
            given@,
            "ocellus_irp_faf_occupancy_entries",
            "Average IRP fire-and-forget queue occupancy in entries",
        ),
        labels::describes(
            given@,
            "ocellus_irp_pcie_inbound_reads_per_second",
            "Interval-derived IRP PCIe inbound reads per second",
        ),
        labels::describes(
            given@,
            "ocellus_irp_frequency_hz",
            "Interval-derived IRP clock frequency in hertz",
        ),
        labels::describes(
            given@,
            "ocellus_irp_io_write_conflict_ratio",
            "Interval-derived IRP I/O write conflict ratio from lost forwards over PCIe inbound writes",
        ),
        labels::describes(
            given@,
            "ocellus_irp_total_occupancy_entries",
            "Average total IRP read and write occupancy in entries",
        ),
        labels::describes(
            given@,
            "ocellus_irp_pcie_inbound_writes_per_second",
            "Interval-derived IRP PCIe inbound writes per second",
        ),
        labels::describes(
            given@,
            "ocellus_irp_pcie_inbound_write_latency_seconds",
            "Interval-derived IRP inbound write residency latency in seconds",
        ),
{
    let families = irp_spr::families();
    assert(families[0].name == "ocellus_irp_all_hit_m_snoop_responses_per_second");
    assert(families[1].name == "ocellus_irp_faf_full_ratio");
    assert(families[2].name == "ocellus_irp_faf_occupancy_entries");
    assert(families[3].name == "ocellus_irp_pcie_inbound_reads_per_second");
    assert(families[4].name == "ocellus_irp_frequency_hz");
    assert(families[5].name == "ocellus_irp_io_write_conflict_ratio");
    assert(families[6].name == "ocellus_irp_total_occupancy_entries");
    assert(families[7].name == "ocellus_irp_pcie_inbound_writes_per_second");
    assert(families[8].name == "ocellus_irp_pcie_inbound_write_latency_seconds");
}

/// Every family on power control units of Haswell and Broadwell is registered with what it means.
pub proof fn pcu_hsx_families_say_what_they_mean(given: Vec<MetricDescriptor>)
    requires
        call_ensures(pcu_hsx::HsxPcuPrometheusMetrics::register, (), given),
    ensures
        given@.len() == 7,
        labels::describes(
            given@,
            "ocellus_pcu_frequency_hz",
            "Interval-derived PCU PCLK frequency in hertz",
        ),
        labels::describes(
            given@,
            "ocellus_pcu_core_c_state_average_cores",
            "Average number of cores in the PCU-observed core C-state during the interval",
        ),
        labels::describes(
            given@,
            "ocellus_pcu_frequency_limit_ratio",
            "Ratio of PCU cycles where the given reason limited processor frequency",
        ),
        labels::describes(
            given@,
            "ocellus_pcu_frequency_transition_ratio",
            "Ratio of PCU cycles spent changing processor frequency",
        ),
        labels::describes(
            given@,
            "ocellus_pcu_memory_phase_shedding_ratio",
            "Ratio of PCU cycles with memory phase shedding active",
        ),
        labels::describes(
            given@,
            "ocellus_pcu_package_c_state_ratio",
            "Ratio of PCU cycles spent in the package C-state",
        ),
        labels::describes(
            given@,
            "ocellus_pcu_thermal_throttle_ratio",
            "Ratio of PCU cycles spent under the thermal throttle source",
        ),
{
    let families = pcu_hsx::families();
    assert(families[0].name == "ocellus_pcu_frequency_hz");
    assert(families[1].name == "ocellus_pcu_core_c_state_average_cores");
    assert(families[2].name == "ocellus_pcu_frequency_limit_ratio");
    assert(families[3].name == "ocellus_pcu_frequency_transition_ratio");
    assert(families[4].name == "ocellus_pcu_memory_phase_shedding_ratio");
    assert(families[5].name == "ocellus_pcu_package_c_state_ratio");
    assert(families[6].name == "ocellus_pcu_thermal_throttle_ratio");
}

/// Every family on power control units of Ice Lake is registered with what it means.
pub proof fn pcu_icx_families_say_what_they_mean(given: Vec<MetricDescriptor>)
    requires
        call_ensures(pcu_icx::IcxPcuPrometheusMetrics::register, (), given),
    ensures
        given@.len() == 1,
        labels::describes(
            given@,
            "ocellus_pcu_frequency_hz",
            "Interval-derived PCU PCLK frequency in hertz",
        ),
{
    let families = pcu_icx::families();
    assert(families[0].name == "ocellus_pcu_frequency_hz");
}

/// Every family on power control units of Skylake is registered with what it means.
pub proof fn pcu_skx_families_say_what_they_mean(given: Vec<MetricDescriptor>)
    requires
        call_ensures(pcu_skx::SkxPcuPrometheusMetrics::register, (), given),
    ensures
        given@.len() == 7,
        labels::describes(
            given@,
            "ocellus_pcu_frequency_hz",
            "Interval-derived PCU PCLK frequency in hertz",
        ),
        labels::describes(
            given@,
            "ocellus_pcu_core_c_state_average_cores",
            "Average number of cores in the PCU-observed core C-state during the interval",
        ),
        labels::describes(
            given@,
            "ocellus_pcu_frequency_limit_ratio",
            "Ratio of PCU cycles where the given reason limited processor frequency",
        ),
        labels::describes(
            given@,
            "ocellus_pcu_frequency_transition_ratio",
            "Ratio of PCU cycles spent changing processor frequency",
        ),
        labels::describes(
            given@,
            "ocellus_pcu_memory_phase_shedding_ratio",
            "Ratio of PCU cycles with memory phase shedding active",
        ),
        labels::describes(
            given@,
            "ocellus_pcu_package_c_state_ratio",
            "Ratio of PCU cycles spent in the package C-state",
        ),
        labels::describes(
            given@,
            "ocellus_pcu_thermal_throttle_ratio",
            "Ratio of PCU cycles spent under the thermal throttle source",
        ),
{
    let families = pcu_skx::families();
    assert(families[0].name == "ocellus_pcu_frequency_hz");
    assert(families[1].name == "ocellus_pcu_core_c_state_average_cores");
    assert(families[2].name == "ocellus_pcu_frequency_limit_ratio");
    assert(families[3].name == "ocellus_pcu_frequency_transition_ratio");
    assert(families[4].name == "ocellus_pcu_memory_phase_shedding_ratio");
    assert(families[5].name == "ocellus_pcu_package_c_state_ratio");
    assert(families[6].name == "ocellus_pcu_thermal_throttle_ratio");
}

/// Every family on power control units of Sandy and Ivy Bridge is registered with what it means.
pub proof fn pcu_snb_families_say_what_they_mean(given: Vec<MetricDescriptor>)
    requires
        call_ensures(pcu_snb::SnbPcuPrometheusMetrics::register, (), given),
    ensures
        given@.len() == 7,
        labels::describes(
            given@,
            "ocellus_pcu_frequency_hz",
            "Interval-derived PCU PCLK frequency in hertz",
        ),
        labels::describes(
            given@,
            "ocellus_pcu_core_c_state_average_cores",
            "Average number of cores in the PCU-observed core C-state during the interval",
        ),
        labels::describes(
            given@,
            "ocellus_pcu_frequency_limit_ratio",
            "Ratio of PCU cycles where the given reason limited processor frequency",
        ),
        labels::describes(
            given@,
            "ocellus_pcu_frequency_transition_ratio",
            "Ratio of PCU cycles spent changing processor frequency",
        ),
        labels::describes(
            given@,
            "ocellus_pcu_memory_phase_shedding_ratio",
            "Ratio of PCU cycles with memory phase shedding active",
        ),
        labels::describes(
            given@,
            "ocellus_pcu_package_c_state_ratio",
            "Ratio of PCU cycles spent in the package C-state",
        ),
        labels::describes(
            given@,
            "ocellus_pcu_thermal_throttle_ratio",
            "Ratio of PCU cycles spent under the thermal throttle source",
        ),
{
    let families = pcu_snb::families();
    assert(families[0].name == "ocellus_pcu_frequency_hz");
    assert(families[1].name == "ocellus_pcu_core_c_state_average_cores");
    assert(families[2].name == "ocellus_pcu_frequency_limit_ratio");
    assert(families[3].name == "ocellus_pcu_frequency_transition_ratio");
    assert(families[4].name == "ocellus_pcu_memory_phase_shedding_ratio");
    assert(families[5].name == "ocellus_pcu_package_c_state_ratio");
    assert(families[6].name == "ocellus_pcu_thermal_throttle_ratio");
}

/// Every family on power control units of Sapphire Rapids is registered with what it means.
pub proof fn pcu_spr_families_say_what_they_mean(given: Vec<MetricDescriptor>)
    requires
        call_ensures(pcu_spr::SprPcuPrometheusMetrics::register, (), given),
    ensures
        given@.len() == 2,
        labels::describes(
            given@,
            "ocellus_pcu_frequency_hz",
            "Interval-derived PCU PCLK frequency in hertz",
        ),
        labels::describes(
            given@,
            "ocellus_pcu_core_c_state_average_cores",
            "Average number of cores in the PCU-observed core C-state during the interval",
        ),
{
    let families = pcu_spr::families();
    assert(families[0].name == "ocellus_pcu_frequency_hz");
    assert(families[1].name == "ocellus_pcu_core_c_state_average_cores");
}

/// Every family on links is registered with what it means.
pub proof fn interconnect_families_say_what_they_mean(given: Vec<MetricDescriptor>)
    requires
        call_ensures(interconnect::InterconnectPrometheusFamilies::register, (), given),
    ensures
        given@.len() == 7,
        labels::describes(
            given@,
            "ocellus_interconnect_data_bytes_per_second",
            "Interval-derived QPI/UPI payload data bandwidth in bytes per second",
        ),
        labels::describes(
            given@,
            "ocellus_interconnect_flits_per_second",
            "Interval-derived QPI/UPI flits per second by direction and traffic class",
        ),
        labels::describes(
            given@,
            "ocellus_interconnect_frequency_hz",
            "Interval-derived QPI/UPI link-layer clock frequency in hertz",
        ),
        labels::describes(
            given@,
            "ocellus_interconnect_power_state_ratio",
            "Ratio of QPI/UPI link-layer cycles spent in the power state",
        ),
        labels::describes(
            given@,
            "ocellus_interconnect_queue_inserts_per_second",
            "Interval-derived QPI link-layer queue inserts per second",
        ),
        labels::describes(
            given@,
            "ocellus_interconnect_queue_latency_seconds",
            "Interval-derived QPI link-layer queue residency latency in seconds",
        ),
        labels::describes(
            given@,
            "ocellus_interconnect_queue_occupancy_flits",
            "Average QPI link-layer queue occupancy in flits",
        ),
{
    let families = interconnect::families();
    assert(families[0].name == "ocellus_interconnect_data_bytes_per_second");
    assert(families[1].name == "ocellus_interconnect_flits_per_second");
    assert(families[2].name == "ocellus_interconnect_frequency_hz");
    assert(families[3].name == "ocellus_interconnect_power_state_ratio");
    assert(families[4].name == "ocellus_interconnect_queue_inserts_per_second");
    assert(families[5].name == "ocellus_interconnect_queue_latency_seconds");
    assert(families[6].name == "ocellus_interconnect_queue_occupancy_flits");
}

/// Every family on energy is registered with what it means.
pub proof fn rapl_families_say_what_they_mean(given: Vec<MetricDescriptor>)
    requires
        call_ensures(rapl::RaplPrometheusMetrics::register, (), given),
    ensures
        given@.len() == 2,
        labels::describes(
            given@,
            "ocellus_rapl_energy_joules",
            "Total RAPL domain energy consumed since exporter start in joules",
        ),
        labels::describes(
            given@,
            "ocellus_rapl_power_watts",
            "Interval-derived RAPL domain power in watts",
        ),
{
    let families = rapl::families();
    assert(families[0].name == "ocellus_rapl_energy_joules");
    assert(families[1].name == "ocellus_rapl_power_watts");
}

} // verus!
