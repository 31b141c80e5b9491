//! What is exported once and does not change.
use crate::export::MetricDescriptor;
use crate::metrics::ProcessorMetadata;
use vstd::prelude::*;

verus! {

/// The value of a label that describes the exporter or the processor.
#[derive(Debug)]
pub enum InfoValue {
    Flag(bool),
    Number(u8),
    Text(String),
}

/// A label that describes the exporter or the processor.
#[derive(Debug)]
pub struct InfoLabel {
    pub name: &'static str,
    pub value: InfoValue,
}

/// A family with a single metric, which is set to one and described by its labels.
#[derive(Debug)]
pub struct InfoFamily {
    pub descriptor: MetricDescriptor,
    pub labels: Vec<InfoLabel>,
}

/// The family that describes the exporter.
pub open spec fn exporter_family() -> MetricDescriptor {
    MetricDescriptor { name: "ocellus_info", help: "Static metadata for the ocellus exporter" }
}

/// The family that describes the processor.
pub open spec fn processor_family() -> MetricDescriptor {
    MetricDescriptor { name: "processor_info", help: "Static processor metadata and capabilities" }
}

/// The labels of the processor, in the order of their names.
pub open spec fn processor_labels(processor: ProcessorMetadata) -> Seq<InfoLabel> {
    seq![
        InfoLabel { name: "brand", value: InfoValue::Text(processor.brand) },
        InfoLabel { name: "family", value: InfoValue::Number(processor.family) },
        InfoLabel {
            name: "invariant_tsc_supported",
            value: InfoValue::Flag(processor.invariant_tsc_supported),
        },
        InfoLabel { name: "model", value: InfoValue::Number(processor.model) },
        InfoLabel {
            name: "package_rapl_supported",
            value: InfoValue::Flag(processor.package_rapl_supported),
        },
        InfoLabel { name: "vendor", value: InfoValue::Text(processor.vendor) },
    ]
}

/// The families that describe the exporter and the processor.
pub fn register(version: String, processor: ProcessorMetadata) -> (families: Vec<InfoFamily>)
    ensures
        families@.len() == 2,
        families@[0].descriptor == exporter_family(),
        families@[0].labels@ == seq![
            InfoLabel { name: "version", value: InfoValue::Text(version) },
        ],
        families@[1].descriptor == processor_family(),
        families@[1].labels@ == processor_labels(processor),
{
    let exporter = InfoFamily {
        descriptor: MetricDescriptor {
            name: "ocellus_info",
            help: "Static metadata for the ocellus exporter",
        },
        labels: vec![InfoLabel { name: "version", value: InfoValue::Text(version) }],
    };
    let details = InfoFamily {
        descriptor: MetricDescriptor {
            name: "processor_info",
            help: "Static processor metadata and capabilities",
        },
        labels: vec![
            InfoLabel { name: "brand", value: InfoValue::Text(processor.brand) },
            InfoLabel { name: "family", value: InfoValue::Number(processor.family) },
            InfoLabel {
                name: "invariant_tsc_supported",
                value: InfoValue::Flag(processor.invariant_tsc_supported),
            },
            InfoLabel { name: "model", value: InfoValue::Number(processor.model) },
            InfoLabel {
                name: "package_rapl_supported",
                value: InfoValue::Flag(processor.package_rapl_supported),
            },
            InfoLabel { name: "vendor", value: InfoValue::Text(processor.vendor) },
        ],
    };
    assert(exporter.labels@ =~= seq![
        InfoLabel { name: "version", value: InfoValue::Text(version) },
    ]);
    assert(details.labels@ =~= processor_labels(processor));
    vec![exporter, details]
}

} // verus!
