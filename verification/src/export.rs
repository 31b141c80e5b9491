//! What is handed to the metrics registry.
use crate::quantity::Quantity;
use crate::seqs;
use vstd::prelude::*;

verus! {

/// A metric family to be registered under a name, with its description.
#[derive(Clone, Copy, Debug)]
pub struct MetricDescriptor {
    pub name: &'static str,
    pub help: &'static str,
}

/// The value of a label.
#[derive(Clone, Copy, Debug)]
pub enum LabelValue {
    Index(u32),
    Text(&'static str),
}

/// A label of a metric.
#[derive(Clone, Copy, Debug)]
pub struct Label {
    pub name: &'static str,
    pub value: LabelValue,
}

/// The labels of a metric, by name.
#[derive(Clone, Copy, Debug)]
pub struct Labels {
    pub c_state: Option<&'static str>,
    pub die: Option<u32>,
    pub die_group: Option<u32>,
    pub direction: Option<&'static str>,
    pub domain: Option<&'static str>,
    pub link: Option<u32>,
    pub package: Option<u32>,
    pub reason: Option<&'static str>,
    pub source: Option<&'static str>,
    pub stack: Option<&'static str>,
    pub state: Option<&'static str>,
    pub traffic: Option<&'static str>,
}

/// A metric that is to be set.
#[derive(Clone, Copy, Debug)]
pub struct GaugeUpdate {
    pub family: &'static str,
    pub labels: Labels,
    pub value: Quantity,
}

/// A counter that is to be raised to a total; it stays where it is where it is not below.
#[derive(Clone, Copy, Debug)]
pub struct CounterUpdate {
    pub family: &'static str,
    pub labels: Labels,
    pub total: Quantity,
}

/// What is to be set in the registry.
#[derive(Debug)]
pub struct RegistryUpdates {
    pub counters: Vec<CounterUpdate>,
    pub gauges: Vec<GaugeUpdate>,
}

/// No label.
pub open spec fn no_labels() -> Labels {
    Labels {
        c_state: None,
        die: None,
        die_group: None,
        direction: None,
        domain: None,
        link: None,
        package: None,
        reason: None,
        source: None,
        stack: None,
        state: None,
        traffic: None,
    }
}

/// The label of a package.
pub open spec fn of_package(package_id: u32) -> Labels {
    Labels { package: Some(package_id), ..no_labels() }
}

/// The labels of a die.
pub open spec fn of_die(die_group_id: u32, die_id: u32, package_id: u32) -> Labels {
    Labels {
        die: Some(die_id),
        die_group: Some(die_group_id),
        package: Some(package_id),
        ..no_labels()
    }
}

/// An index label, if it is set.
pub open spec fn index_label(name: &'static str, value: Option<u32>) -> Seq<Label> {
    match value {
        Some(index) => seq![Label { name, value: LabelValue::Index(index) }],
        None => Seq::empty(),
    }
}

/// A text label, if it is set.
pub open spec fn text_label(name: &'static str, value: Option<&'static str>) -> Seq<Label> {
    match value {
        Some(text) => seq![Label { name, value: LabelValue::Text(text) }],
        None => Seq::empty(),
    }
}

/// The labels that are set, in the order of their names.
pub open spec fn listed(labels: Labels) -> Seq<Label> {
    text_label("c_state", labels.c_state) + index_label("die", labels.die) + index_label(
        "die_group",
        labels.die_group,
    ) + text_label("direction", labels.direction) + text_label("domain", labels.domain)
        + index_label("link", labels.link) + index_label("package", labels.package) + text_label(
        "reason",
        labels.reason,
    ) + text_label("source", labels.source) + text_label("stack", labels.stack) + text_label(
        "state",
        labels.state,
    ) + text_label("traffic", labels.traffic)
}

fn push_index(list: &mut Vec<Label>, name: &'static str, value: Option<u32>)
    ensures
        final(list)@ == old(list)@ + index_label(name, value),
{
    match value {
        Some(index) => {
            list.push(Label { name, value: LabelValue::Index(index) });
        },
        None => {},
    }
    assert(list@ =~= old(list)@ + index_label(name, value));
}

fn push_text(list: &mut Vec<Label>, name: &'static str, value: Option<&'static str>)
    ensures
        final(list)@ == old(list)@ + text_label(name, value),
{
    match value {
        Some(text) => {
            list.push(Label { name, value: LabelValue::Text(text) });
        },
        None => {},
    }
    assert(list@ =~= old(list)@ + text_label(name, value));
}

impl Labels {
    /// No label.
    pub fn none() -> (labels: Self)
        ensures
            labels == no_labels(),
    {
        Labels {
            c_state: None,
            die: None,
            die_group: None,
            direction: None,
            domain: None,
            link: None,
            package: None,
            reason: None,
            source: None,
            stack: None,
            state: None,
            traffic: None,
        }
    }

    /// The label of a package.
    pub fn package(package_id: u32) -> (labels: Self)
        ensures
            labels == of_package(package_id),
    {
        Labels { package: Some(package_id), ..Labels::none() }
    }

    /// The labels of a die.
    pub fn die(die_group_id: u32, die_id: u32, package_id: u32) -> (labels: Self)
        ensures
            labels == of_die(die_group_id, die_id, package_id),
    {
        Labels {
            die: Some(die_id),
            die_group: Some(die_group_id),
            package: Some(package_id),
            ..Labels::none()
        }
    }

    /// The labels that are set, in the order of their names.
    pub fn list(&self) -> (list: Vec<Label>)
        ensures
            list@ == listed(*self),
    {
        let mut list: Vec<Label> = Vec::new();
        push_text(&mut list, "c_state", self.c_state);
        push_index(&mut list, "die", self.die);
        push_index(&mut list, "die_group", self.die_group);
        push_text(&mut list, "direction", self.direction);
        push_text(&mut list, "domain", self.domain);
        push_index(&mut list, "link", self.link);
        push_index(&mut list, "package", self.package);
        push_text(&mut list, "reason", self.reason);
        push_text(&mut list, "source", self.source);
        push_text(&mut list, "stack", self.stack);
        push_text(&mut list, "state", self.state);
        push_text(&mut list, "traffic", self.traffic);
        assert(list@ =~= listed(*self));
        list
    }
}

/// Whether a metric belongs to a family in `descriptors`.
pub open spec fn is_registered(update: GaugeUpdate, descriptors: Seq<MetricDescriptor>) -> bool {
    exists|j: int| 0 <= j < descriptors.len() && (#[trigger] descriptors[j]).name == update.family
}

/// Whether every metric in `updates` belongs to a family in `descriptors`.
pub open spec fn all_registered(
    updates: Seq<GaugeUpdate>,
    descriptors: Seq<MetricDescriptor>,
) -> bool {
    forall|i: int| 0 <= i < updates.len() ==> is_registered(#[trigger] updates[i], descriptors)
}

/// Whether a counter belongs to a family in `descriptors`.
pub open spec fn counter_registered(
    update: CounterUpdate,
    descriptors: Seq<MetricDescriptor>,
) -> bool {
    exists|j: int| 0 <= j < descriptors.len() && (#[trigger] descriptors[j]).name == update.family
}

/// Whether every counter in `updates` belongs to a family in `descriptors`.
pub open spec fn counters_registered(
    updates: Seq<CounterUpdate>,
    descriptors: Seq<MetricDescriptor>,
) -> bool {
    forall|i: int| 0 <= i < updates.len() ==> counter_registered(#[trigger] updates[i], descriptors)
}

/// Where the metrics of every item are registered, those of all items are.
pub proof fn lemma_all_registered<T>(
    items: Seq<T>,
    updates: spec_fn(T) -> Seq<GaugeUpdate>,
    descriptors: Seq<MetricDescriptor>,
)
    requires
        forall|i: int|
            0 <= i < items.len() ==> all_registered(updates(#[trigger] items[i]), descriptors),
    ensures
        all_registered(seqs::flat_map(items, updates), descriptors),
    decreases items.len(),
{
    if items.len() > 0 {
        let front = items.drop_last();
        assert forall|i: int| 0 <= i < front.len() implies all_registered(
            updates(#[trigger] front[i]),
            descriptors,
        ) by {
            assert(front[i] == items[i]);
        }
        lemma_all_registered(front, updates, descriptors);
        assert(all_registered(updates(items[items.len() - 1]), descriptors));
    }
}

/// Where two lists of metrics are registered, both together are.
pub proof fn lemma_registered_together(
    first: Seq<GaugeUpdate>,
    second: Seq<GaugeUpdate>,
    descriptors: Seq<MetricDescriptor>,
)
    requires
        all_registered(first, descriptors),
        all_registered(second, descriptors),
    ensures
        all_registered(first + second, descriptors),
{
}

/// Metrics that are registered in one of two lists of families are registered in both together.
pub proof fn lemma_registered_in_either(
    updates: Seq<GaugeUpdate>,
    first: Seq<MetricDescriptor>,
    second: Seq<MetricDescriptor>,
)
    requires
        all_registered(updates, first) || all_registered(updates, second),
    ensures
        all_registered(updates, first + second),
{
    let all = first + second;
    assert forall|i: int| 0 <= i < updates.len() implies is_registered(
        #[trigger] updates[i],
        all,
    ) by {
        if is_registered(updates[i], first) {
            let j = choose|j: int|
                0 <= j < first.len() && (#[trigger] first[j]).name == updates[i].family;
            assert(all[j] == first[j]);
        } else {
            assert(is_registered(updates[i], second));
            let j = choose|j: int|
                0 <= j < second.len() && (#[trigger] second[j]).name == updates[i].family;
            assert(all[first.len() + j] == second[j]);
        }
    }
}

/// Counters that are registered in the second of two lists of families are registered in both
/// together.
pub proof fn lemma_counters_registered_in_both(
    updates: Seq<CounterUpdate>,
    first: Seq<MetricDescriptor>,
    second: Seq<MetricDescriptor>,
)
    requires
        counters_registered(updates, second),
    ensures
        counters_registered(updates, first + second),
{
    let all = first + second;
    assert forall|i: int| 0 <= i < updates.len() implies counter_registered(
        #[trigger] updates[i],
        all,
    ) by {
        assert(counter_registered(updates[i], second));
        let j = choose|j: int|
            0 <= j < second.len() && (#[trigger] second[j]).name == updates[i].family;
        assert(all[first.len() + j] == second[j]);
    }
}

/// Where all metrics of a list belong to one family that is registered, the list is registered.
pub proof fn lemma_one_family(updates: Seq<GaugeUpdate>, descriptors: Seq<MetricDescriptor>, j: int)
    requires
        0 <= j < descriptors.len(),
        forall|i: int|
            0 <= i < updates.len() ==> (#[trigger] updates[i]).family == descriptors[j].name,
    ensures
        all_registered(updates, descriptors),
{
    assert forall|i: int| 0 <= i < updates.len() implies is_registered(
        #[trigger] updates[i],
        descriptors,
    ) by {
        assert(descriptors[j].name == updates[i].family);
    }
}

} // verus!
