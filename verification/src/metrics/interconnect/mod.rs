//! Links between processor packages.

pub mod hsx;
pub mod icx;
pub mod qpi_common;
pub mod skx;
pub mod snb;
pub mod spr;
pub mod upi_common;

use crate::accumulator::EventMeasurement;
use crate::arch::{self, Architecture, IntelServerCpuModel};
use crate::error::CollectorError;
use crate::export::{self, GaugeUpdate, Labels, MetricDescriptor};
use crate::metrics::InfoMetadata;
use crate::ordered_map::Key;
use crate::pci::{PciBus, PciLocation, PciVendorDevice};
use crate::quantity::{self, Quantity, ScaledCount};
use crate::seqs;
use crate::sockets::UboxNode;
use crate::sorting::Ranked;
use crate::topology::{CpuTopology, UncoreScope};
use vstd::prelude::*;

verus! {

/// Whether a link receives or sends.
#[derive(Clone, Copy, Debug, PartialEq, Eq, Structural, Hash)]
pub enum InterconnectDirection {
    Rx,
    Tx,
}

/// What a direction is called in a label.
pub open spec fn direction_label(value: InterconnectDirection) -> &'static str {
    match value {
        InterconnectDirection::Rx => "rx",
        InterconnectDirection::Tx => "tx",
    }
}

impl InterconnectDirection {
    /// What a direction is called in a label.
    pub fn label(self) -> (label: &'static str)
        ensures
            label == direction_label(self),
    {
        match self {
            InterconnectDirection::Rx => "rx",
            InterconnectDirection::Tx => "tx",
        }
    }
}

/// What a link carries.
#[derive(Clone, Copy, Debug, PartialEq, Eq, Structural, Hash)]
pub enum InterconnectTrafficClass {
    Data,
    NonData,
}

/// What a traffic class is called in a label.
pub open spec fn traffic_label(value: InterconnectTrafficClass) -> &'static str {
    match value {
        InterconnectTrafficClass::Data => "data",
        InterconnectTrafficClass::NonData => "non_data",
    }
}

impl InterconnectTrafficClass {
    /// What a traffic class is called in a label.
    pub fn label(self) -> (label: &'static str)
        ensures
            label == traffic_label(self),
    {
        match self {
            InterconnectTrafficClass::Data => "data",
            InterconnectTrafficClass::NonData => "non_data",
        }
    }
}

/// A power state of a link.
#[derive(Clone, Copy, Debug, PartialEq, Eq, Structural, Hash)]
pub enum InterconnectPowerState {
    L0p,
    L1,
}

/// What a power state is called in a label.
pub open spec fn state_label(value: InterconnectPowerState) -> &'static str {
    match value {
        InterconnectPowerState::L0p => "l0p",
        InterconnectPowerState::L1 => "l1",
    }
}

impl InterconnectPowerState {
    /// What a power state is called in a label.
    pub fn label(self) -> (label: &'static str)
        ensures
            label == state_label(self),
    {
        match self {
            InterconnectPowerState::L0p => "l0p",
            InterconnectPowerState::L1 => "l1",
        }
    }
}

/// A link of a die.
#[derive(Clone, Copy, Debug, PartialEq, Eq, Structural)]
pub struct InterconnectScope {
    pub die_group_id: u32,
    pub die_id: u32,
    pub link_id: u32,
    pub package_id: u32,
}

/// The link with the given number of a die.
pub open spec fn link_of(scope: UncoreScope, link_id: u32) -> InterconnectScope {
    InterconnectScope {
        die_group_id: scope.die_group_id,
        die_id: scope.die_id,
        link_id,
        package_id: scope.package_id,
    }
}

impl InterconnectScope {
    /// The link with the given number of a die.
    pub fn new(scope: UncoreScope, link_id: u32) -> (link: Self)
        ensures
            link == link_of(scope, link_id),
    {
        InterconnectScope {
            die_group_id: scope.die_group_id,
            die_id: scope.die_id,
            link_id,
            package_id: scope.package_id,
        }
    }
}

impl Key for InterconnectScope {
    open spec fn rank(self) -> int {
        ((self.die_group_id * 0x1_0000_0000 + self.die_id) * 0x1_0000_0000 + self.link_id)
            * 0x1_0000_0000 + self.package_id
    }

    proof fn rank_injective(a: Self, b: Self) {
    }

    fn precedes(&self, other: &Self) -> (result: bool) {
        if self.die_group_id != other.die_group_id {
            self.die_group_id < other.die_group_id
        } else if self.die_id != other.die_id {
            self.die_id < other.die_id
        } else if self.link_id != other.link_id {
            self.link_id < other.link_id
        } else {
            self.package_id < other.package_id
        }
    }
}

/// A link and where its counters stand.
#[derive(Clone, Copy, Debug, PartialEq, Eq, Structural)]
pub struct LinkPlace {
    pub location: PciLocation,
    pub scope: InterconnectScope,
}

impl Ranked for LinkPlace {
    open spec fn place(self) -> int {
        ((self.scope.package_id * 0x1_0000_0000 + self.scope.die_group_id) * 0x1_0000_0000
            + self.scope.die_id) * 0x1_0000_0000 + self.scope.link_id
    }

    fn not_after(&self, other: &Self) -> (result: bool) {
        let a = self.scope;
        let b = other.scope;
        if a.package_id != b.package_id {
            a.package_id < b.package_id
        } else if a.die_group_id != b.die_group_id {
            a.die_group_id < b.die_group_id
        } else if a.die_id != b.die_id {
            a.die_id < b.die_id
        } else {
            a.link_id <= b.link_id
        }
    }
}

impl Ranked for PciBus {
    open spec fn place(self) -> int {
        self.rank()
    }

    fn not_after(&self, other: &Self) -> (result: bool) {
        if self.group != other.group {
            self.group < other.group
        } else {
            self.bus <= other.bus
        }
    }
}

/// What is reported for a link.
#[derive(Clone, Copy, Debug)]
pub struct InterconnectLinkMetrics {
    pub frequency_hz: Quantity,
    pub scope: InterconnectScope,
}

/// How long a link is in a power state; without a direction the state holds for the whole link.
#[derive(Clone, Copy, Debug)]
pub struct InterconnectPowerStateMetrics {
    pub direction: Option<InterconnectDirection>,
    pub ratio: Quantity,
    pub scope: InterconnectScope,
    pub state: InterconnectPowerState,
}

/// What a link carries in one direction.
#[derive(Clone, Copy, Debug)]
pub struct InterconnectTrafficMetrics {
    pub bytes_per_second: Option<Quantity>,
    pub direction: InterconnectDirection,
    pub flits_per_second: Quantity,
    pub scope: InterconnectScope,
    pub traffic: InterconnectTrafficClass,
}

/// What goes through a queue of a link.
#[derive(Clone, Copy, Debug)]
pub struct InterconnectQueueMetrics {
    pub direction: InterconnectDirection,
    pub inserts_per_second: Quantity,
    pub latency_seconds: Quantity,
    pub occupancy_flits: Quantity,
    pub scope: InterconnectScope,
}

/// What is reported for the links of a processor, whatever their kind.
#[derive(Debug)]
pub struct InterconnectMetricsView {
    pub links: Vec<InterconnectLinkMetrics>,
    pub power_states: Vec<InterconnectPowerStateMetrics>,
    pub queues: Vec<InterconnectQueueMetrics>,
    pub traffic: Vec<InterconnectTrafficMetrics>,
}

/// The families that are registered, in this order.
pub open spec fn families() -> Seq<MetricDescriptor> {
    seq![
        MetricDescriptor {
            name: "ocellus_interconnect_data_bytes_per_second",
            help: "Interval-derived QPI/UPI payload data bandwidth in bytes per second",
        },
        MetricDescriptor {
            name: "ocellus_interconnect_flits_per_second",
            help: "Interval-derived QPI/UPI flits per second by direction and traffic class",
        },
        MetricDescriptor {
            name: "ocellus_interconnect_frequency_hz",
            help: "Interval-derived QPI/UPI link-layer clock frequency in hertz",
        },
        MetricDescriptor {
            name: "ocellus_interconnect_power_state_ratio",
            help: "Ratio of QPI/UPI link-layer cycles spent in the power state",
        },
        MetricDescriptor {
            name: "ocellus_interconnect_queue_inserts_per_second",
            help: "Interval-derived QPI link-layer queue inserts per second",
        },
        MetricDescriptor {
            name: "ocellus_interconnect_queue_latency_seconds",
            help: "Interval-derived QPI link-layer queue residency latency in seconds",
        },
        MetricDescriptor {
            name: "ocellus_interconnect_queue_occupancy_flits",
            help: "Average QPI link-layer queue occupancy in flits",
        },
    ]
}

/// The labels of a link.
pub open spec fn link_labels(scope: InterconnectScope) -> Labels {
    Labels {
        link: Some(scope.link_id),
        ..export::of_die(scope.die_group_id, scope.die_id, scope.package_id)
    }
}

/// The labels of one direction of a link.
pub open spec fn direction_labels(
    scope: InterconnectScope,
    direction: InterconnectDirection,
) -> Labels {
    Labels { direction: Some(direction_label(direction)), ..link_labels(scope) }
}

/// The labels of a traffic class in one direction of a link.
pub open spec fn traffic_labels(
    scope: InterconnectScope,
    direction: InterconnectDirection,
    traffic: InterconnectTrafficClass,
) -> Labels {
    Labels { traffic: Some(traffic_label(traffic)), ..direction_labels(scope, direction) }
}

/// The labels of a power state; where it has no direction it is that of the link.
pub open spec fn power_state_labels(
    scope: InterconnectScope,
    direction: Option<InterconnectDirection>,
    state: InterconnectPowerState,
) -> Labels {
    Labels {
        direction: Some(
            match direction {
                Some(direction) => direction_label(direction),
                None => "link",
            },
        ),
        state: Some(state_label(state)),
        ..link_labels(scope)
    }
}

impl InterconnectScope {
    fn labels(self) -> (labels: Labels)
        ensures
            labels == link_labels(self),
    {
        Labels {
            link: Some(self.link_id),
            ..Labels::die(self.die_group_id, self.die_id, self.package_id)
        }
    }
}

/// The metrics that are set for a link.
pub open spec fn link_updates(link: InterconnectLinkMetrics) -> Seq<GaugeUpdate> {
    seq![
        GaugeUpdate {
            family: "ocellus_interconnect_frequency_hz",
            labels: link_labels(link.scope),
            value: link.frequency_hz,
        },
    ]
}

/// The metrics that are set for what a link carries in one direction.
pub open spec fn traffic_updates(traffic: InterconnectTrafficMetrics) -> Seq<GaugeUpdate> {
    let flits = GaugeUpdate {
        family: "ocellus_interconnect_flits_per_second",
        labels: traffic_labels(traffic.scope, traffic.direction, traffic.traffic),
        value: traffic.flits_per_second,
    };
    match traffic.bytes_per_second {
        Some(value) => seq![
            GaugeUpdate {
                family: "ocellus_interconnect_data_bytes_per_second",
                labels: direction_labels(traffic.scope, traffic.direction),
                value,
            },
            flits,
        ],
        None => seq![flits],
    }
}

/// The metrics that are set for a power state.
pub open spec fn power_state_updates(
    power_state: InterconnectPowerStateMetrics,
) -> Seq<GaugeUpdate> {
    seq![
        GaugeUpdate {
            family: "ocellus_interconnect_power_state_ratio",
            labels: power_state_labels(power_state.scope, power_state.direction, power_state.state),
            value: power_state.ratio,
        },
    ]
}

/// The metrics that are set for a queue.
pub open spec fn queue_updates(queue: InterconnectQueueMetrics) -> Seq<GaugeUpdate> {
    let labels = direction_labels(queue.scope, queue.direction);
    seq![
        GaugeUpdate {
            family: "ocellus_interconnect_queue_inserts_per_second",
            labels,
            value: queue.inserts_per_second,
        },
        GaugeUpdate {
            family: "ocellus_interconnect_queue_latency_seconds",
            labels,
            value: queue.latency_seconds,
        },
        GaugeUpdate {
            family: "ocellus_interconnect_queue_occupancy_flits",
            labels,
            value: queue.occupancy_flits,
        },
    ]
}

/// The metrics that are set: those of the links, of what they carry, of their power states and of
/// their queues.
pub open spec fn list_updates(
    links: Seq<InterconnectLinkMetrics>,
    traffic: Seq<InterconnectTrafficMetrics>,
    power_states: Seq<InterconnectPowerStateMetrics>,
    queues: Seq<InterconnectQueueMetrics>,
) -> Seq<GaugeUpdate> {
    seqs::flat_map(links, |link: InterconnectLinkMetrics| link_updates(link)) + seqs::flat_map(
        traffic,
        |traffic: InterconnectTrafficMetrics| traffic_updates(traffic),
    ) + seqs::flat_map(
        power_states,
        |power_state: InterconnectPowerStateMetrics| power_state_updates(power_state),
    ) + seqs::flat_map(queues, |queue: InterconnectQueueMetrics| queue_updates(queue))
}

/// The metrics that are set for a report.
pub open spec fn view_updates(view: InterconnectMetricsView) -> Seq<GaugeUpdate> {
    list_updates(view.links@, view.traffic@, view.power_states@, view.queues@)
}

fn push_links(updates: &mut Vec<GaugeUpdate>, items: &Vec<InterconnectLinkMetrics>)
    ensures
        final(updates)@ == old(updates)@ + seqs::flat_map(
            items@,
            |link: InterconnectLinkMetrics| link_updates(link),
        ),
{
    let ghost f = |link: InterconnectLinkMetrics| link_updates(link);
    let ghost start = updates@;
    let mut i: usize = 0;
    proof {
        seqs::lemma_flat_map_ends(items@, f);
        assert(updates@ =~= start + Seq::<GaugeUpdate>::empty());
    }
    while i < items.len()
        invariant
            i <= items@.len(),
            f == (|link: InterconnectLinkMetrics| link_updates(link)),
            updates@ == start + seqs::flat_map(items@.take(i as int), f),
        decreases items@.len() - i,
    {
        let link = &items[i];
        let ghost before = updates@;
        updates.push(
            GaugeUpdate {
                family: "ocellus_interconnect_frequency_hz",
                labels: link.scope.labels(),
                value: link.frequency_hz,
            },
        );
        proof {
            assert(updates@ =~= before + link_updates(*link));
            seqs::lemma_flat_map_step(items@, f, i as int);
            assert(updates@ =~= start + seqs::flat_map(items@.take(i + 1), f));
        }
        i += 1;
    }
    proof {
        seqs::lemma_flat_map_ends(items@, f);
    }
}

fn push_traffic(updates: &mut Vec<GaugeUpdate>, items: &Vec<InterconnectTrafficMetrics>)
    ensures
        final(updates)@ == old(updates)@ + seqs::flat_map(
            items@,
            |traffic: InterconnectTrafficMetrics| traffic_updates(traffic),
        ),
{
    let ghost f = |traffic: InterconnectTrafficMetrics| traffic_updates(traffic);
    let ghost start = updates@;
    let mut i: usize = 0;
    proof {
        seqs::lemma_flat_map_ends(items@, f);
        assert(updates@ =~= start + Seq::<GaugeUpdate>::empty());
    }
    while i < items.len()
        invariant
            i <= items@.len(),
            f == (|traffic: InterconnectTrafficMetrics| traffic_updates(traffic)),
            updates@ == start + seqs::flat_map(items@.take(i as int), f),
        decreases items@.len() - i,
    {
        let traffic = &items[i];
        let ghost before = updates@;
        let labels = Labels {
            direction: Some(traffic.direction.label()),
            ..traffic.scope.labels()
        };
        match traffic.bytes_per_second {
            Some(value) => {
                updates.push(
                    GaugeUpdate {
                        family: "ocellus_interconnect_data_bytes_per_second",
                        labels,
                        value,
                    },
                );
            },
            None => {},
        }
        updates.push(
            GaugeUpdate {
                family: "ocellus_interconnect_flits_per_second",
                labels: Labels { traffic: Some(traffic.traffic.label()), ..labels },
                value: traffic.flits_per_second,
            },
        );
        proof {
            assert(updates@ =~= before + traffic_updates(*traffic));
            seqs::lemma_flat_map_step(items@, f, i as int);
            assert(updates@ =~= start + seqs::flat_map(items@.take(i + 1), f));
        }
        i += 1;
    }
    proof {
        seqs::lemma_flat_map_ends(items@, f);
    }
}

fn push_power_states(updates: &mut Vec<GaugeUpdate>, items: &Vec<InterconnectPowerStateMetrics>)
    ensures
        final(updates)@ == old(updates)@ + seqs::flat_map(
            items@,
            |power_state: InterconnectPowerStateMetrics| power_state_updates(power_state),
        ),
{
    let ghost f = |power_state: InterconnectPowerStateMetrics| power_state_updates(power_state);
    let ghost start = updates@;
    let mut i: usize = 0;
    proof {
        seqs::lemma_flat_map_ends(items@, f);
        assert(updates@ =~= start + Seq::<GaugeUpdate>::empty());
    }
    while i < items.len()
        invariant
            i <= items@.len(),
            f == (|power_state: InterconnectPowerStateMetrics| power_state_updates(power_state)),
            updates@ == start + seqs::flat_map(items@.take(i as int), f),
        decreases items@.len() - i,
    {
        let power_state = &items[i];
        let ghost before = updates@;
        let direction: &'static str = match power_state.direction {
            Some(direction) => direction.label(),
            None => "link",
        };
        let labels = Labels {
            direction: Some(direction),
            state: Some(power_state.state.label()),
            ..power_state.scope.labels()
        };
        updates.push(
            GaugeUpdate {
                family: "ocellus_interconnect_power_state_ratio",
                labels,
                value: power_state.ratio,
            },
        );
        proof {
            assert(updates@ =~= before + power_state_updates(*power_state));
            seqs::lemma_flat_map_step(items@, f, i as int);
            assert(updates@ =~= start + seqs::flat_map(items@.take(i + 1), f));
        }
        i += 1;
    }
    proof {
        seqs::lemma_flat_map_ends(items@, f);
    }
}

fn push_queues(updates: &mut Vec<GaugeUpdate>, items: &Vec<InterconnectQueueMetrics>)
    ensures
        final(updates)@ == old(updates)@ + seqs::flat_map(
            items@,
            |queue: InterconnectQueueMetrics| queue_updates(queue),
        ),
{
    let ghost f = |queue: InterconnectQueueMetrics| queue_updates(queue);
    let ghost start = updates@;
    let mut i: usize = 0;
    proof {
        seqs::lemma_flat_map_ends(items@, f);
        assert(updates@ =~= start + Seq::<GaugeUpdate>::empty());
    }
    while i < items.len()
        invariant
            i <= items@.len(),
            f == (|queue: InterconnectQueueMetrics| queue_updates(queue)),
            updates@ == start + seqs::flat_map(items@.take(i as int), f),
        decreases items@.len() - i,
    {
        let queue = &items[i];
        let ghost before = updates@;
        let labels = Labels { direction: Some(queue.direction.label()), ..queue.scope.labels() };
        updates.push(
            GaugeUpdate {
                family: "ocellus_interconnect_queue_inserts_per_second",
                labels,
                value: queue.inserts_per_second,
            },
        );
        updates.push(
            GaugeUpdate {
                family: "ocellus_interconnect_queue_latency_seconds",
                labels,
                value: queue.latency_seconds,
            },
        );
        updates.push(
            GaugeUpdate {
                family: "ocellus_interconnect_queue_occupancy_flits",
                labels,
                value: queue.occupancy_flits,
            },
        );
        proof {
            assert(updates@ =~= before + queue_updates(*queue));
            seqs::lemma_flat_map_step(items@, f, i as int);
            assert(updates@ =~= start + seqs::flat_map(items@.take(i + 1), f));
        }
        i += 1;
    }
    proof {
        seqs::lemma_flat_map_ends(items@, f);
    }
}

/// The metric families of the links of a processor.
#[derive(Clone, Copy, Debug)]
pub struct InterconnectPrometheusFamilies;

impl InterconnectPrometheusFamilies {
    /// The families to be registered.
    pub fn register() -> (families: Vec<MetricDescriptor>)
        ensures
            families@ == self::families(),
    {
        vec![
            MetricDescriptor {
                name: "ocellus_interconnect_data_bytes_per_second",
                help: "Interval-derived QPI/UPI payload data bandwidth in bytes per second",
            },
            MetricDescriptor {
                name: "ocellus_interconnect_flits_per_second",
                help: "Interval-derived QPI/UPI flits per second by direction and traffic class",
            },
            MetricDescriptor {
                name: "ocellus_interconnect_frequency_hz",
                help: "Interval-derived QPI/UPI link-layer clock frequency in hertz",
            },
            MetricDescriptor {
                name: "ocellus_interconnect_power_state_ratio",
                help: "Ratio of QPI/UPI link-layer cycles spent in the power state",
            },
            MetricDescriptor {
                name: "ocellus_interconnect_queue_inserts_per_second",
                help: "Interval-derived QPI link-layer queue inserts per second",
            },
            MetricDescriptor {
                name: "ocellus_interconnect_queue_latency_seconds",
                help: "Interval-derived QPI link-layer queue residency latency in seconds",
            },
            MetricDescriptor {
                name: "ocellus_interconnect_queue_occupancy_flits",
                help: "Average QPI link-layer queue occupancy in flits",
            },
        ]
    }

    /// The metrics to be set.
    pub fn update(&self, metrics: &InterconnectMetricsView) -> (updates: Vec<GaugeUpdate>)
        ensures
            updates@ == view_updates(*metrics),
    {
        let mut updates: Vec<GaugeUpdate> = Vec::new();
        push_links(&mut updates, &metrics.links);
        push_traffic(&mut updates, &metrics.traffic);
        push_power_states(&mut updates, &metrics.power_states);
        push_queues(&mut updates, &metrics.queues);
        assert(updates@ =~= view_updates(*metrics));
        updates
    }
}

/// Every metric that is set for links belongs to a family that is registered.
pub proof fn link_updates_are_registered(
    links: Seq<InterconnectLinkMetrics>,
    traffic: Seq<InterconnectTrafficMetrics>,
    power_states: Seq<InterconnectPowerStateMetrics>,
    queues: Seq<InterconnectQueueMetrics>,
)
    ensures
        export::all_registered(list_updates(links, traffic, power_states, queues), families()),
{
    let descriptors = families();
    let of_links = |link: InterconnectLinkMetrics| link_updates(link);
    assert forall|k: int| 0 <= k < links.len() implies export::all_registered(
        of_links(#[trigger] links[k]),
        descriptors,
    ) by {
        let updates = of_links(links[k]);
        assert forall|i: int| 0 <= i < updates.len() implies export::is_registered(
            #[trigger] updates[i],
            descriptors,
        ) by {
            assert(descriptors[2].name == updates[i].family);
        }
    }
    export::lemma_all_registered(links, of_links, descriptors);
    let of_traffic = |traffic: InterconnectTrafficMetrics| traffic_updates(traffic);
    assert forall|k: int| 0 <= k < traffic.len() implies export::all_registered(
        of_traffic(#[trigger] traffic[k]),
        descriptors,
    ) by {
        let updates = of_traffic(traffic[k]);
        assert forall|i: int| 0 <= i < updates.len() implies export::is_registered(
            #[trigger] updates[i],
            descriptors,
        ) by {
            if i == updates.len() - 1 {
                assert(descriptors[1].name == updates[i].family);
            } else {
                assert(descriptors[0].name == updates[i].family);
            }
        }
    }
    export::lemma_all_registered(traffic, of_traffic, descriptors);
    let of_power_states = |power_state: InterconnectPowerStateMetrics| power_state_updates(power_state);
    assert forall|k: int| 0 <= k < power_states.len() implies export::all_registered(
        of_power_states(#[trigger] power_states[k]),
        descriptors,
    ) by {
        let updates = of_power_states(power_states[k]);
        assert forall|i: int| 0 <= i < updates.len() implies export::is_registered(
            #[trigger] updates[i],
            descriptors,
        ) by {
            assert(descriptors[3].name == updates[i].family);
        }
    }
    export::lemma_all_registered(power_states, of_power_states, descriptors);
    let of_queues = |queue: InterconnectQueueMetrics| queue_updates(queue);
    assert forall|k: int| 0 <= k < queues.len() implies export::all_registered(
        of_queues(#[trigger] queues[k]),
        descriptors,
    ) by {
        let updates = of_queues(queues[k]);
        assert forall|i: int| 0 <= i < updates.len() implies export::is_registered(
            #[trigger] updates[i],
            descriptors,
        ) by {
            assert(descriptors[4 + i].name == updates[i].family);
        }
    }
    export::lemma_all_registered(queues, of_queues, descriptors);
    let link_part = seqs::flat_map(links, of_links);
    let traffic_part = seqs::flat_map(traffic, of_traffic);
    let power_part = seqs::flat_map(power_states, of_power_states);
    let queue_part = seqs::flat_map(queues, of_queues);
    export::lemma_registered_together(link_part, traffic_part, descriptors);
    export::lemma_registered_together(link_part + traffic_part, power_part, descriptors);
    export::lemma_registered_together(
        link_part + traffic_part + power_part,
        queue_part,
        descriptors,
    );
}

/// The bytes per second that flits carry, `payload.1` of them carrying `payload.0` bytes.
pub open spec fn data_rate_of(
    flits: ScaledCount,
    payload: (u64, u64),
    duration_nanos: u128,
) -> Quantity {
    quantity::byte_rate_of(flits, duration_nanos, payload.0, payload.1)
}

/// The bytes per second that flits carry, `payload.1` of them carrying `payload.0` bytes.
pub fn data_bytes_per_second(
    flits: ScaledCount,
    payload: (u64, u64),
    duration_nanos: u128,
) -> (rate: Quantity)
    ensures
        rate == data_rate_of(flits, payload, duration_nanos),
{
    quantity::byte_rate(flits, duration_nanos, payload.0, payload.1)
}

/// The clock frequency of a link.
pub open spec fn frequency_of_link(
    scope: InterconnectScope,
    clockticks: EventMeasurement,
) -> InterconnectLinkMetrics {
    InterconnectLinkMetrics { frequency_hz: quantity::count_frequency_of(clockticks), scope }
}

/// The clock frequency of a link.
pub fn link_frequency(scope: InterconnectScope, clockticks: EventMeasurement) -> (metrics:
    InterconnectLinkMetrics)
    ensures
        metrics == frequency_of_link(scope, clockticks),
{
    InterconnectLinkMetrics { frequency_hz: quantity::count_frequency(clockticks), scope }
}

/// What a link carries in one direction: flits per second and, where they carry payload, bytes
/// per second.
pub open spec fn traffic_of(
    scope: InterconnectScope,
    direction: InterconnectDirection,
    traffic: InterconnectTrafficClass,
    measurement: EventMeasurement,
    payload: Option<(u64, u64)>,
) -> InterconnectTrafficMetrics {
    InterconnectTrafficMetrics {
        bytes_per_second: match payload {
            Some(payload) => Some(
                data_rate_of(quantity::scaled(measurement), payload, measurement.enabled_nanos),
            ),
            None => None,
        },
        direction,
        flits_per_second: quantity::event_rate_of(measurement),
        scope,
        traffic,
    }
}

/// What a link carries in one direction.
pub fn traffic_metric(
    scope: InterconnectScope,
    direction: InterconnectDirection,
    traffic: InterconnectTrafficClass,
    measurement: EventMeasurement,
    payload: Option<(u64, u64)>,
) -> (metrics: InterconnectTrafficMetrics)
    ensures
        metrics == traffic_of(scope, direction, traffic, measurement, payload),
{
    let bytes_per_second: Option<Quantity> = match payload {
        Some(payload) => Some(
            data_bytes_per_second(ScaledCount::of(measurement), payload, measurement.enabled_nanos),
        ),
        None => None,
    };
    InterconnectTrafficMetrics {
        bytes_per_second,
        direction,
        flits_per_second: quantity::event_rate(measurement),
        scope,
        traffic,
    }
}

/// The share of the clock ticks of a link that it spends in a power state.
pub open spec fn power_state_of(
    scope: InterconnectScope,
    direction: Option<InterconnectDirection>,
    state: InterconnectPowerState,
    cycles: EventMeasurement,
    clockticks: EventMeasurement,
) -> InterconnectPowerStateMetrics {
    InterconnectPowerStateMetrics {
        direction,
        ratio: quantity::scaled_ratio_of(cycles, clockticks),
        scope,
        state,
    }
}

/// The share of the clock ticks of a link that it spends in a power state.
pub fn power_state_metric(
    scope: InterconnectScope,
    direction: Option<InterconnectDirection>,
    state: InterconnectPowerState,
    cycles: EventMeasurement,
    clockticks: EventMeasurement,
) -> (metrics: InterconnectPowerStateMetrics)
    ensures
        metrics == power_state_of(scope, direction, state, cycles, clockticks),
{
    InterconnectPowerStateMetrics {
        direction,
        ratio: quantity::scaled_ratio(cycles, clockticks),
        scope,
        state,
    }
}

/// What is reported, by processor.
#[derive(Debug)]
pub enum InterconnectMetrics {
    Bdx(hsx::HsxInterconnectMetrics),
    Emr(spr::SprInterconnectMetrics),
    Hsx(hsx::HsxInterconnectMetrics),
    Icx(icx::IcxInterconnectMetrics),
    Ivb(snb::SnbInterconnectMetrics),
    Skx(skx::SkxInterconnectMetrics),
    Snb(snb::SnbInterconnectMetrics),
    Spr(spr::SprInterconnectMetrics),
}

/// A collector, by processor.
#[derive(Debug)]
pub enum InterconnectCollector {
    Bdx(hsx::HsxInterconnectCollector),
    Emr(spr::SprInterconnectCollector),
    Hsx(hsx::HsxInterconnectCollector),
    Icx(icx::IcxInterconnectCollector),
    Ivb(snb::SnbInterconnectCollector),
    Skx(skx::SkxInterconnectCollector),
    Snb(snb::SnbInterconnectCollector),
    Spr(spr::SprInterconnectCollector),
}

/// What is known of a machine before its links are looked for. Where a processor has devices that
/// tell the node numbers of the sockets, `nodes` holds what they tell.
#[derive(Debug)]
pub struct InterconnectInventory {
    pub devices: Vec<PciVendorDevice>,
    pub nodes: Vec<UboxNode>,
    pub topologies: Vec<CpuTopology>,
}

/// Whether there is a collector for a processor.
pub open spec fn is_known(model: IntelServerCpuModel) -> bool {
    ||| model == IntelServerCpuModel::BroadwellXeon
    ||| model == IntelServerCpuModel::EmeraldRapids
    ||| model == IntelServerCpuModel::HaswellXeon
    ||| model == IntelServerCpuModel::IceLakeXeon
    ||| model == IntelServerCpuModel::IvyTown
    ||| model == IntelServerCpuModel::SkylakeXeon
    ||| model == IntelServerCpuModel::SandyBridgeEp
    ||| model == IntelServerCpuModel::SapphireRapids
}

/// Whether `result` is the collector for a processor: what the collector of its family makes of
/// the inventory, and an error for a processor without one.
pub open spec fn created(
    architecture: Architecture,
    inventory: InterconnectInventory,
    result: Result<InterconnectCollector, CollectorError>,
) -> bool {
    let model = architecture.server_model()->0;
    match result {
        Ok(
            InterconnectCollector::Bdx(collector),
        ) => model == IntelServerCpuModel::BroadwellXeon && hsx::created(
            architecture,
            inventory.topologies@,
            inventory.nodes@,
            inventory.devices@,
            Ok(collector),
        ),
        Ok(
            InterconnectCollector::Emr(collector),
        ) => model == IntelServerCpuModel::EmeraldRapids && spr::created(
            architecture,
            inventory.topologies@,
            inventory.nodes@,
            inventory.devices@,
            Ok(collector),
        ),
        Ok(
            InterconnectCollector::Hsx(collector),
        ) => model == IntelServerCpuModel::HaswellXeon && hsx::created(
            architecture,
            inventory.topologies@,
            inventory.nodes@,
            inventory.devices@,
            Ok(collector),
        ),
        Ok(
            InterconnectCollector::Icx(collector),
        ) => model == IntelServerCpuModel::IceLakeXeon && icx::created(
            architecture,
            inventory.topologies@,
            inventory.nodes@,
            inventory.devices@,
            Ok(collector),
        ),
        Ok(
            InterconnectCollector::Ivb(collector),
        ) => model == IntelServerCpuModel::IvyTown && snb::created(
            architecture,
            inventory.topologies@,
            inventory.nodes@,
            inventory.devices@,
            Ok(collector),
        ),
        Ok(
            InterconnectCollector::Skx(collector),
        ) => model == IntelServerCpuModel::SkylakeXeon && skx::created(
            architecture,
            inventory.topologies@,
            inventory.nodes@,
            inventory.devices@,
            Ok(collector),
        ),
        Ok(
            InterconnectCollector::Snb(collector),
        ) => model == IntelServerCpuModel::SandyBridgeEp && snb::created(
            architecture,
            inventory.topologies@,
            inventory.nodes@,
            inventory.devices@,
            Ok(collector),
        ),
        Ok(
            InterconnectCollector::Spr(collector),
        ) => model == IntelServerCpuModel::SapphireRapids && spr::created(
            architecture,
            inventory.topologies@,
            inventory.nodes@,
            inventory.devices@,
            Ok(collector),
        ),
        Err(error) => match model {
            IntelServerCpuModel::BroadwellXeon => hsx::created(
                architecture,
                inventory.topologies@,
                inventory.nodes@,
                inventory.devices@,
                Err(error),
            ),
            IntelServerCpuModel::EmeraldRapids => spr::created(
                architecture,
                inventory.topologies@,
                inventory.nodes@,
                inventory.devices@,
                Err(error),
            ),
            IntelServerCpuModel::HaswellXeon => hsx::created(
                architecture,
                inventory.topologies@,
                inventory.nodes@,
                inventory.devices@,
                Err(error),
            ),
            IntelServerCpuModel::IceLakeXeon => icx::created(
                architecture,
                inventory.topologies@,
                inventory.nodes@,
                inventory.devices@,
                Err(error),
            ),
            IntelServerCpuModel::IvyTown => snb::created(
                architecture,
                inventory.topologies@,
                inventory.nodes@,
                inventory.devices@,
                Err(error),
            ),
            IntelServerCpuModel::SkylakeXeon => skx::created(
                architecture,
                inventory.topologies@,
                inventory.nodes@,
                inventory.devices@,
                Err(error),
            ),
            IntelServerCpuModel::SandyBridgeEp => snb::created(
                architecture,
                inventory.topologies@,
                inventory.nodes@,
                inventory.devices@,
                Err(error),
            ),
            IntelServerCpuModel::SapphireRapids => spr::created(
                architecture,
                inventory.topologies@,
                inventory.nodes@,
                inventory.devices@,
                Err(error),
            ),
            _ => error == (CollectorError::Unsupported { unit: "interconnect", model }),
        },
    }
}

impl InterconnectCollector {
    /// A collector for the processor.
    pub fn new(architecture: &Architecture, inventory: &InterconnectInventory) -> (result: Result<
        Self,
        CollectorError,
    >)
        requires
            architecture.server_model() is Some,
        ensures
            created(*architecture, *inventory, result),
    {
        let model = architecture.intel_server_model();
        match model {
            IntelServerCpuModel::BroadwellXeon => match hsx::HsxInterconnectCollector::new(
                architecture,
                &inventory.topologies,
                &inventory.nodes,
                &inventory.devices,
            ) {
                Ok(collector) => Ok(InterconnectCollector::Bdx(collector)),
                Err(error) => Err(error),
            },
            IntelServerCpuModel::EmeraldRapids => match spr::SprInterconnectCollector::new(
                architecture,
                &inventory.topologies,
                &inventory.nodes,
                &inventory.devices,
            ) {
                Ok(collector) => Ok(InterconnectCollector::Emr(collector)),
                Err(error) => Err(error),
            },
            IntelServerCpuModel::HaswellXeon => match hsx::HsxInterconnectCollector::new(
                architecture,
                &inventory.topologies,
                &inventory.nodes,
                &inventory.devices,
            ) {
                Ok(collector) => Ok(InterconnectCollector::Hsx(collector)),
                Err(error) => Err(error),
            },
            IntelServerCpuModel::IceLakeXeon => match icx::IcxInterconnectCollector::new(
                architecture,
                &inventory.topologies,
                &inventory.nodes,
                &inventory.devices,
            ) {
                Ok(collector) => Ok(InterconnectCollector::Icx(collector)),
                Err(error) => Err(error),
            },
            IntelServerCpuModel::IvyTown => match snb::SnbInterconnectCollector::new(
                architecture,
                &inventory.topologies,
                &inventory.nodes,
                &inventory.devices,
            ) {
                Ok(collector) => Ok(InterconnectCollector::Ivb(collector)),
                Err(error) => Err(error),
            },
            IntelServerCpuModel::SkylakeXeon => match skx::SkxInterconnectCollector::new(
                architecture,
                &inventory.topologies,
                &inventory.nodes,
                &inventory.devices,
            ) {
                Ok(collector) => Ok(InterconnectCollector::Skx(collector)),
                Err(error) => Err(error),
            },
            IntelServerCpuModel::SandyBridgeEp => match snb::SnbInterconnectCollector::new(
                architecture,
                &inventory.topologies,
                &inventory.nodes,
                &inventory.devices,
            ) {
                Ok(collector) => Ok(InterconnectCollector::Snb(collector)),
                Err(error) => Err(error),
            },
            IntelServerCpuModel::SapphireRapids => match spr::SprInterconnectCollector::new(
                architecture,
                &inventory.topologies,
                &inventory.nodes,
                &inventory.devices,
            ) {
                Ok(collector) => Ok(InterconnectCollector::Spr(collector)),
                Err(error) => Err(error),
            },
            _ => Err(CollectorError::Unsupported { unit: "interconnect", model }),
        }
    }

    /// Whether there is a collector for the processor.
    pub fn is_supported(architecture: &Architecture) -> (supported: bool)
        ensures
            supported == match architecture.server_model() {
                Some(model) => is_known(model),
                None => false,
            },
    {
        match IntelServerCpuModel::from_family_model(architecture.family, architecture.model) {
            Some(
                IntelServerCpuModel::BroadwellXeon
                | IntelServerCpuModel::EmeraldRapids
                | IntelServerCpuModel::HaswellXeon
                | IntelServerCpuModel::IceLakeXeon
                | IntelServerCpuModel::IvyTown
                | IntelServerCpuModel::SkylakeXeon
                | IntelServerCpuModel::SandyBridgeEp
                | IntelServerCpuModel::SapphireRapids,
            ) => true,
            _ => false,
        }
    }
}

/// A processor has a collector if and only if making one does not fail for want of support.
pub proof fn supported_means_not_refused(
    architecture: Architecture,
    inventory: InterconnectInventory,
    result: Result<InterconnectCollector, CollectorError>,
)
    requires
        architecture.server_model() is Some,
        created(architecture, inventory, result),
    ensures
        is_known(architecture.server_model()->0) <==> !(result matches Err(
            CollectorError::Unsupported { .. },
        )),
{
    let model = architecture.server_model()->0;
    if result is Err && is_known(model) {
        if qpi_common::family_member(model) is Some {
            qpi_common::members_are_not_refused(
                architecture,
                inventory.topologies@,
                inventory.nodes@,
                inventory.devices@,
                Err(result->Err_0),
            );
        } else {
            upi_common::members_are_not_refused(
                architecture,
                inventory.topologies@,
                inventory.nodes@,
                inventory.devices@,
                Err(result->Err_0),
            );
        }
    }
}

/// The metric families, by processor.
#[derive(Clone, Copy, Debug)]
pub enum InterconnectPrometheusMetrics {
    Bdx(InterconnectPrometheusFamilies),
    Emr(InterconnectPrometheusFamilies),
    Hsx(InterconnectPrometheusFamilies),
    Icx(InterconnectPrometheusFamilies),
    Ivb(InterconnectPrometheusFamilies),
    Skx(InterconnectPrometheusFamilies),
    Snb(InterconnectPrometheusFamilies),
    Spr(InterconnectPrometheusFamilies),
}

/// Whether a report is one of the processor that the families were registered for.
pub open spec fn same_family(
    prometheus: InterconnectPrometheusMetrics,
    metrics: InterconnectMetrics,
) -> bool {
    match (prometheus, metrics) {
        (InterconnectPrometheusMetrics::Bdx(_), InterconnectMetrics::Bdx(_)) => true,
        (InterconnectPrometheusMetrics::Emr(_), InterconnectMetrics::Emr(_)) => true,
        (InterconnectPrometheusMetrics::Hsx(_), InterconnectMetrics::Hsx(_)) => true,
        (InterconnectPrometheusMetrics::Icx(_), InterconnectMetrics::Icx(_)) => true,
        (InterconnectPrometheusMetrics::Ivb(_), InterconnectMetrics::Ivb(_)) => true,
        (InterconnectPrometheusMetrics::Skx(_), InterconnectMetrics::Skx(_)) => true,
        (InterconnectPrometheusMetrics::Snb(_), InterconnectMetrics::Snb(_)) => true,
        (InterconnectPrometheusMetrics::Spr(_), InterconnectMetrics::Spr(_)) => true,
        _ => false,
    }
}

/// Whether `view` is the view of a report.
pub open spec fn is_view_of(metrics: InterconnectMetrics, view: InterconnectMetricsView) -> bool {
    match metrics {
        InterconnectMetrics::Bdx(metrics) => hsx::is_view(metrics, view),
        InterconnectMetrics::Emr(metrics) => spr::is_view(metrics, view),
        InterconnectMetrics::Hsx(metrics) => hsx::is_view(metrics, view),
        InterconnectMetrics::Icx(metrics) => icx::is_view(metrics, view),
        InterconnectMetrics::Ivb(metrics) => snb::is_view(metrics, view),
        InterconnectMetrics::Skx(metrics) => skx::is_view(metrics, view),
        InterconnectMetrics::Snb(metrics) => snb::is_view(metrics, view),
        InterconnectMetrics::Spr(metrics) => spr::is_view(metrics, view),
    }
}

/// The metrics that are set for a report.
pub open spec fn report_updates(metrics: InterconnectMetrics) -> Seq<GaugeUpdate> {
    match metrics {
        InterconnectMetrics::Bdx(metrics) => list_updates(
            metrics.links@,
            metrics.traffic@,
            metrics.power_states@,
            metrics.queues@,
        ),
        InterconnectMetrics::Emr(metrics) => list_updates(
            metrics.links@,
            metrics.traffic@,
            metrics.power_states@,
            Seq::empty(),
        ),
        InterconnectMetrics::Hsx(metrics) => list_updates(
            metrics.links@,
            metrics.traffic@,
            metrics.power_states@,
            metrics.queues@,
        ),
        InterconnectMetrics::Icx(metrics) => list_updates(
            metrics.links@,
            metrics.traffic@,
            metrics.power_states@,
            Seq::empty(),
        ),
        InterconnectMetrics::Ivb(metrics) => list_updates(
            metrics.links@,
            metrics.traffic@,
            metrics.power_states@,
            metrics.queues@,
        ),
        InterconnectMetrics::Skx(metrics) => list_updates(
            metrics.links@,
            metrics.traffic@,
            metrics.power_states@,
            Seq::empty(),
        ),
        InterconnectMetrics::Snb(metrics) => list_updates(
            metrics.links@,
            metrics.traffic@,
            metrics.power_states@,
            metrics.queues@,
        ),
        InterconnectMetrics::Spr(metrics) => list_updates(
            metrics.links@,
            metrics.traffic@,
            metrics.power_states@,
            Seq::empty(),
        ),
    }
}

/// The metrics that are set: those of the report, where it is one of the processor that the
/// families were registered for, and else none.
pub open spec fn all_updates(
    prometheus: InterconnectPrometheusMetrics,
    metrics: InterconnectMetrics,
) -> Seq<GaugeUpdate> {
    if same_family(prometheus, metrics) {
        report_updates(metrics)
    } else {
        Seq::empty()
    }
}

/// The metric families that are registered for a processor.
pub open spec fn registered(model: Option<IntelServerCpuModel>) -> Option<
    InterconnectPrometheusMetrics,
> {
    match model {
        Some(IntelServerCpuModel::BroadwellXeon) => Some(
            InterconnectPrometheusMetrics::Bdx(InterconnectPrometheusFamilies),
        ),
        Some(IntelServerCpuModel::EmeraldRapids) => Some(
            InterconnectPrometheusMetrics::Emr(InterconnectPrometheusFamilies),
        ),
        Some(IntelServerCpuModel::HaswellXeon) => Some(
            InterconnectPrometheusMetrics::Hsx(InterconnectPrometheusFamilies),
        ),
        Some(IntelServerCpuModel::IceLakeXeon) => Some(
            InterconnectPrometheusMetrics::Icx(InterconnectPrometheusFamilies),
        ),
        Some(IntelServerCpuModel::IvyTown) => Some(
            InterconnectPrometheusMetrics::Ivb(InterconnectPrometheusFamilies),
        ),
        Some(IntelServerCpuModel::SkylakeXeon) => Some(
            InterconnectPrometheusMetrics::Skx(InterconnectPrometheusFamilies),
        ),
        Some(IntelServerCpuModel::SandyBridgeEp) => Some(
            InterconnectPrometheusMetrics::Snb(InterconnectPrometheusFamilies),
        ),
        Some(IntelServerCpuModel::SapphireRapids) => Some(
            InterconnectPrometheusMetrics::Spr(InterconnectPrometheusFamilies),
        ),
        _ => None,
    }
}

impl InterconnectMetrics {
    /// The report as one of any processor.
    pub fn into_view(self) -> (view: InterconnectMetricsView)
        ensures
            is_view_of(self, view),
    {
        match self {
            InterconnectMetrics::Bdx(metrics) => metrics.into_view(),
            InterconnectMetrics::Emr(metrics) => metrics.into_view(),
            InterconnectMetrics::Hsx(metrics) => metrics.into_view(),
            InterconnectMetrics::Icx(metrics) => metrics.into_view(),
            InterconnectMetrics::Ivb(metrics) => metrics.into_view(),
            InterconnectMetrics::Skx(metrics) => metrics.into_view(),
            InterconnectMetrics::Snb(metrics) => metrics.into_view(),
            InterconnectMetrics::Spr(metrics) => metrics.into_view(),
        }
    }
}

impl InterconnectPrometheusMetrics {
    /// The metric families for the processor; nothing where it has no collector.
    pub fn register(metadata: &InfoMetadata) -> (result: Option<Self>)
        ensures
            result == registered(
                arch::model_of(metadata.processor.family, metadata.processor.model),
            ),
    {
        match IntelServerCpuModel::from_family_model(
            metadata.processor.family,
            metadata.processor.model,
        ) {
            Some(IntelServerCpuModel::BroadwellXeon) => Some(
                InterconnectPrometheusMetrics::Bdx(InterconnectPrometheusFamilies),
            ),
            Some(IntelServerCpuModel::EmeraldRapids) => Some(
                InterconnectPrometheusMetrics::Emr(InterconnectPrometheusFamilies),
            ),
            Some(IntelServerCpuModel::HaswellXeon) => Some(
                InterconnectPrometheusMetrics::Hsx(InterconnectPrometheusFamilies),
            ),
            Some(IntelServerCpuModel::IceLakeXeon) => Some(
                InterconnectPrometheusMetrics::Icx(InterconnectPrometheusFamilies),
            ),
            Some(IntelServerCpuModel::IvyTown) => Some(
                InterconnectPrometheusMetrics::Ivb(InterconnectPrometheusFamilies),
            ),
            Some(IntelServerCpuModel::SkylakeXeon) => Some(
                InterconnectPrometheusMetrics::Skx(InterconnectPrometheusFamilies),
            ),
            Some(IntelServerCpuModel::SandyBridgeEp) => Some(
                InterconnectPrometheusMetrics::Snb(InterconnectPrometheusFamilies),
            ),
            Some(IntelServerCpuModel::SapphireRapids) => Some(
                InterconnectPrometheusMetrics::Spr(InterconnectPrometheusFamilies),
            ),
            _ => None,
        }
    }

    /// The families to be registered.
    pub fn descriptors(&self) -> (families: Vec<MetricDescriptor>)
        ensures
            families@ == self::families(),
    {
        InterconnectPrometheusFamilies::register()
    }

    /// Whether a report is one of the processor that the families were registered for.
    pub fn accepts(&self, metrics: &InterconnectMetrics) -> (accepted: bool)
        ensures
            accepted == same_family(*self, *metrics),
    {
        match (self, metrics) {
            (InterconnectPrometheusMetrics::Bdx(_), InterconnectMetrics::Bdx(_)) => true,
            (InterconnectPrometheusMetrics::Emr(_), InterconnectMetrics::Emr(_)) => true,
            (InterconnectPrometheusMetrics::Hsx(_), InterconnectMetrics::Hsx(_)) => true,
            (InterconnectPrometheusMetrics::Icx(_), InterconnectMetrics::Icx(_)) => true,
            (InterconnectPrometheusMetrics::Ivb(_), InterconnectMetrics::Ivb(_)) => true,
            (InterconnectPrometheusMetrics::Skx(_), InterconnectMetrics::Skx(_)) => true,
            (InterconnectPrometheusMetrics::Snb(_), InterconnectMetrics::Snb(_)) => true,
            (InterconnectPrometheusMetrics::Spr(_), InterconnectMetrics::Spr(_)) => true,
            _ => false,
        }
    }

    /// The metrics to be set: those of the report, where it is one of the processor that the
    /// families were registered for, and else none.
    pub fn update(&self, metrics: InterconnectMetrics) -> (updates: Vec<GaugeUpdate>)
        ensures
            updates@ == all_updates(*self, metrics),
    {
        if self.accepts(&metrics) {
            let view = metrics.into_view();
            assert(is_view_of(metrics, view) ==> view_updates(view) == report_updates(metrics)) by {
                if view.queues@.len() == 0 {
                    assert(view.queues@ =~= Seq::<InterconnectQueueMetrics>::empty());
                }
            }
            InterconnectPrometheusFamilies.update(&view)
        } else {
            Vec::new()
        }
    }
}

/// Every metric that is set belongs to a family that is registered.
pub proof fn updates_are_registered(
    prometheus: InterconnectPrometheusMetrics,
    metrics: InterconnectMetrics,
)
    ensures
        export::all_registered(all_updates(prometheus, metrics), families()),
{
    match metrics {
        InterconnectMetrics::Bdx(metrics) => {
            link_updates_are_registered(
                metrics.links@,
                metrics.traffic@,
                metrics.power_states@,
                metrics.queues@,
            );
        },
        InterconnectMetrics::Emr(metrics) => {
            link_updates_are_registered(
                metrics.links@,
                metrics.traffic@,
                metrics.power_states@,
                Seq::empty(),
            );
        },
        InterconnectMetrics::Hsx(metrics) => {
            link_updates_are_registered(
                metrics.links@,
                metrics.traffic@,
                metrics.power_states@,
                metrics.queues@,
            );
        },
        InterconnectMetrics::Icx(metrics) => {
            link_updates_are_registered(
                metrics.links@,
                metrics.traffic@,
                metrics.power_states@,
                Seq::empty(),
            );
        },
        InterconnectMetrics::Ivb(metrics) => {
            link_updates_are_registered(
                metrics.links@,
                metrics.traffic@,
                metrics.power_states@,
                metrics.queues@,
            );
        },
        InterconnectMetrics::Skx(metrics) => {
            link_updates_are_registered(
                metrics.links@,
                metrics.traffic@,
                metrics.power_states@,
                Seq::empty(),
            );
        },
        InterconnectMetrics::Snb(metrics) => {
            link_updates_are_registered(
                metrics.links@,
                metrics.traffic@,
                metrics.power_states@,
                metrics.queues@,
            );
        },
        InterconnectMetrics::Spr(metrics) => {
            link_updates_are_registered(
                metrics.links@,
                metrics.traffic@,
                metrics.power_states@,
                Seq::empty(),
            );
        },
    }
}

/// There are metric families for exactly the processors that have a collector.
pub proof fn families_are_registered_where_supported(model: IntelServerCpuModel)
    ensures
        registered(Some(model)) is Some <==> is_known(model),
{
}

} // verus!
