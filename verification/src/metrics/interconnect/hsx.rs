//! The links of Haswell and Broadwell processors.
use crate::arch::Architecture;
use crate::error::CollectorError;
use crate::metrics::interconnect::qpi_common::{
    self, QpiCollector, QpiMeasurementAccumulator, QpiMetrics,
};
use crate::metrics::interconnect::{
    InterconnectLinkMetrics, InterconnectMetricsView, InterconnectPowerStateMetrics,
    InterconnectQueueMetrics, InterconnectTrafficMetrics,
};
use crate::pci::PciVendorDevice;
use crate::sockets::UboxNode;
use crate::topology::CpuTopology;
use vstd::prelude::*;

verus! {

/// What is reported for the links of a processor.
#[derive(Debug)]
pub struct HsxInterconnectMetrics {
    pub links: Vec<InterconnectLinkMetrics>,
    pub power_states: Vec<InterconnectPowerStateMetrics>,
    pub queues: Vec<InterconnectQueueMetrics>,
    pub traffic: Vec<InterconnectTrafficMetrics>,
}

/// Whether both reports say the same.
pub open spec fn same_report(metrics: HsxInterconnectMetrics, report: QpiMetrics) -> bool {
    &&& metrics.links@ == report.links@
    &&& metrics.power_states@ == report.power_states@
    &&& metrics.queues@ == report.queues@
    &&& metrics.traffic@ == report.traffic@
}

/// Whether a report and its view say the same.
pub open spec fn is_view(metrics: HsxInterconnectMetrics, view: InterconnectMetricsView) -> bool {
    &&& view.links@ == metrics.links@
    &&& view.power_states@ == metrics.power_states@
    &&& view.queues@ == metrics.queues@
    &&& view.traffic@ == metrics.traffic@
}

impl HsxInterconnectMetrics {
    /// The report as one of this processor.
    pub fn from_report(report: QpiMetrics) -> (metrics: Self)
        ensures
            same_report(metrics, report),
    {
        HsxInterconnectMetrics {
            links: report.links,
            power_states: report.power_states,
            queues: report.queues,
            traffic: report.traffic,
        }
    }

    /// The report as one of any processor.
    pub fn into_view(self) -> (view: InterconnectMetricsView)
        ensures
            is_view(self, view),
    {
        InterconnectMetricsView {
            links: self.links,
            power_states: self.power_states,
            queues: self.queues,
            traffic: self.traffic,
        }
    }
}

/// Samples the links of Haswell and Broadwell processors.
#[derive(Debug)]
pub struct HsxInterconnectCollector {
    pub inner: QpiCollector,
}

/// Whether `result` is the collector for a processor.
pub open spec fn created(
    architecture: Architecture,
    topologies: Seq<CpuTopology>,
    nodes: Seq<UboxNode>,
    devices: Seq<PciVendorDevice>,
    result: Result<HsxInterconnectCollector, CollectorError>,
) -> bool {
    qpi_common::created(
        architecture,
        topologies,
        nodes,
        devices,
        match result {
            Ok(collector) => Ok(collector.inner),
            Err(error) => Err(error),
        },
    )
}

impl HsxInterconnectCollector {
    /// A collector for the processor.
    pub fn new(
        architecture: &Architecture,
        topologies: &Vec<CpuTopology>,
        nodes: &Vec<UboxNode>,
        devices: &Vec<PciVendorDevice>,
    ) -> (result: Result<Self, CollectorError>)
        requires
            architecture.server_model() is Some,
        ensures
            created(*architecture, topologies@, nodes@, devices@, result),
    {
        match QpiCollector::new(architecture, topologies, nodes, devices) {
            Ok(inner) => Ok(HsxInterconnectCollector { inner }),
            Err(error) => Err(error),
        }
    }

    /// Ends a sample: the next group goes first in the next one, and the measurements are
    /// reported.
    pub fn finish_sample(&mut self, measurements: &QpiMeasurementAccumulator) -> (result: Result<
        HsxInterconnectMetrics,
        CollectorError,
    >)
        requires
            old(self).inner.wf(),
            measurements.wf(),
        ensures
            final(self).inner.wf(),
            final(self).inner.next_group() == (old(self).inner.next_group() + 1)
                % qpi_common::groups(old(self).inner.architecture()).len() as int,
            final(self).inner.units() == old(self).inner.units(),
            final(self).inner.architecture() == old(self).inner.architecture(),
            exists|report: Result<QpiMetrics, CollectorError>|
                #![trigger qpi_common::reported(measurements.rows(), report)]
                {
                    &&& qpi_common::reported(measurements.rows(), report)
                    &&& match report {
                        Ok(report) => result matches Ok(metrics) && same_report(metrics, report),
                        Err(error) => result matches Err(e) && e == error,
                    }
                },
    {
        let report = self.inner.finish_sample(measurements);
        assert(qpi_common::reported(measurements.rows(), report));
        match report {
            Ok(report) => Ok(HsxInterconnectMetrics::from_report(report)),
            Err(error) => Err(error),
        }
    }
}

} // verus!
