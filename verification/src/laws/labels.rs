//! Under which labels a metric is handed out.
use crate::export::{self, GaugeUpdate, Label, LabelValue, Labels, MetricDescriptor};
use crate::quantity::Quantity;
use crate::seqs;
use vstd::prelude::*;

verus! {

/// The labels of a package: its number, and nothing else.
pub open spec fn package_only(package: u32) -> Labels {
    Labels {
        c_state: None,
        die: None,
        die_group: None,
        direction: None,
        domain: None,
        link: None,
        package: Some(package),
        reason: None,
        source: None,
        stack: None,
        state: None,
        traffic: None,
    }
}

/// The labels of a die: the numbers of the group, the die and the package, and nothing else.
pub open spec fn die_only(die_group: u32, die: u32, package: u32) -> Labels {
    Labels {
        c_state: None,
        die: Some(die),
        die_group: Some(die_group),
        direction: None,
        domain: None,
        link: None,
        package: Some(package),
        reason: None,
        source: None,
        stack: None,
        state: None,
        traffic: None,
    }
}

/// Whether a metric of a family is set to a value under some labels.
pub open spec fn hands_out(
    updates: Seq<GaugeUpdate>,
    family: &'static str,
    labels: Labels,
    value: Quantity,
) -> bool {
    exists|k: int|
        {
            &&& 0 <= k < updates.len()
            &&& (#[trigger] updates[k]).family == family
            &&& updates[k].labels == labels
            &&& updates[k].value == value
        }
}

/// Whether a family is registered under a name with a description.
pub open spec fn describes(
    families: Seq<MetricDescriptor>,
    name: &'static str,
    help: &'static str,
) -> bool {
    exists|k: int|
        {
            &&& 0 <= k < families.len()
            &&& (#[trigger] families[k]).name == name
            &&& families[k].help == help
        }
}

/// Where each item gives `width` metrics, a metric of one item is handed out with those of all.
pub proof fn lemma_handed_out<A>(
    items: Seq<A>,
    f: spec_fn(A) -> Seq<GaugeUpdate>,
    width: int,
    i: int,
    j: int,
    update: GaugeUpdate,
)
    requires
        forall|k: int| 0 <= k < items.len() ==> f(#[trigger] items[k]).len() == width,
        0 <= i < items.len(),
        0 <= j < width,
        f(items[i])[j] == update,
    ensures
        seqs::flat_map(items, f).len() == items.len() * width,
        hands_out(seqs::flat_map(items, f), update.family, update.labels, update.value),
{
    seqs::lemma_flat_map_index(items, f, width, i, j);
    assert(seqs::flat_map(items, f)[i * width + j] == update);
}

/// The labels of a die name its group, itself and its package; those of a package name it alone;
/// no labels name nothing.
pub proof fn labels_name_their_place(die_group: u32, die: u32, package: u32)
    ensures
        export::of_die(die_group, die, package) == die_only(die_group, die, package),
        export::of_package(package) == package_only(package),
        export::listed(export::no_labels()).len() == 0,
{
}

/// Whether a label with a number is listed.
#[verifier::opaque]
pub open spec fn lists_index(list: Seq<Label>, name: &'static str, value: Option<u32>) -> bool {
    value matches Some(index) ==> exists|k: int|
        0 <= k < list.len() && (#[trigger] list[k]).name == name && list[k].value
            == LabelValue::Index(index)
}

/// Whether a label with a text is listed.
#[verifier::opaque]
pub open spec fn lists_text(
    list: Seq<Label>,
    name: &'static str,
    value: Option<&'static str>,
) -> bool {
    value matches Some(text) ==> exists|k: int|
        0 <= k < list.len() && (#[trigger] list[k]).name == name && list[k].value
            == LabelValue::Text(text)
}

/// How many labels are set.
pub open spec fn set_count(labels: Labels) -> int {
    one(labels.c_state is Some) + one(labels.die is Some) + one(labels.die_group is Some) + one(
        labels.direction is Some,
    ) + one(labels.domain is Some) + one(labels.link is Some) + one(labels.package is Some) + one(
        labels.reason is Some,
    ) + one(labels.source is Some) + one(labels.stack is Some) + one(labels.state is Some) + one(
        labels.traffic is Some,
    )
}

/// One where something holds.
pub open spec fn one(holds: bool) -> int {
    if holds {
        1
    } else {
        0
    }
}

proof fn lemma_text_added(list: Seq<Label>, name: &'static str, value: Option<&'static str>)
    ensures
        (list + export::text_label(name, value)).len() == list.len() + one(value is Some),
        lists_text(list + export::text_label(name, value), name, value),
        forall|n: &'static str, v: Option<&'static str>|
            lists_text(list, n, v) ==> #[trigger] lists_text(
                list + export::text_label(name, value),
                n,
                v,
            ),
        forall|n: &'static str, v: Option<u32>|
            lists_index(list, n, v) ==> #[trigger] lists_index(
                list + export::text_label(name, value),
                n,
                v,
            ),
{
    reveal(lists_text);
    let added = list + export::text_label(name, value);
    if value is Some {
        assert(added[list.len() as int] == export::text_label(name, value)[0]);
    }
    lemma_listed_stays(list, export::text_label(name, value));
}

proof fn lemma_index_added(list: Seq<Label>, name: &'static str, value: Option<u32>)
    ensures
        (list + export::index_label(name, value)).len() == list.len() + one(value is Some),
        lists_index(list + export::index_label(name, value), name, value),
        forall|n: &'static str, v: Option<&'static str>|
            lists_text(list, n, v) ==> #[trigger] lists_text(
                list + export::index_label(name, value),
                n,
                v,
            ),
        forall|n: &'static str, v: Option<u32>|
            lists_index(list, n, v) ==> #[trigger] lists_index(
                list + export::index_label(name, value),
                n,
                v,
            ),
{
    reveal(lists_index);
    let added = list + export::index_label(name, value);
    if value is Some {
        assert(added[list.len() as int] == export::index_label(name, value)[0]);
    }
    lemma_listed_stays(list, export::index_label(name, value));
}

proof fn lemma_listed_stays(list: Seq<Label>, more: Seq<Label>)
    ensures
        forall|n: &'static str, v: Option<&'static str>|
            lists_text(list, n, v) ==> #[trigger] lists_text(list + more, n, v),
        forall|n: &'static str, v: Option<u32>|
            lists_index(list, n, v) ==> #[trigger] lists_index(list + more, n, v),
{
    reveal(lists_text);
    reveal(lists_index);
    let all = list + more;
    assert forall|n: &'static str, v: Option<&'static str>| lists_text(list, n, v) implies
        #[trigger] lists_text(all, n, v) by {
        if let Some(text) = v {
            let k = choose|k: int|
                0 <= k < list.len() && (#[trigger] list[k]).name == n && list[k].value
                    == LabelValue::Text(text);
            assert(all[k] == list[k]);
        }
    }
    assert forall|n: &'static str, v: Option<u32>| lists_index(list, n, v) implies #[trigger]
        lists_index(all, n, v) by {
        if let Some(index) = v {
            let k = choose|k: int|
                0 <= k < list.len() && (#[trigger] list[k]).name == n && list[k].value
                    == LabelValue::Index(index);
            assert(all[k] == list[k]);
        }
    }
}

/// Every label that is set is listed once under its own name, with its value.
pub proof fn every_label_is_listed(labels: Labels)
    ensures
        export::listed(labels).len() == set_count(labels),
        lists_text(export::listed(labels), "c_state", labels.c_state),
        lists_index(export::listed(labels), "die", labels.die),
        lists_index(export::listed(labels), "die_group", labels.die_group),
        lists_text(export::listed(labels), "direction", labels.direction),
        lists_text(export::listed(labels), "domain", labels.domain),
        lists_index(export::listed(labels), "link", labels.link),
        lists_index(export::listed(labels), "package", labels.package),
        lists_text(export::listed(labels), "reason", labels.reason),
        lists_text(export::listed(labels), "source", labels.source),
        lists_text(export::listed(labels), "stack", labels.stack),
        lists_text(export::listed(labels), "state", labels.state),
        lists_text(export::listed(labels), "traffic", labels.traffic),
{
    let p0 = export::text_label("c_state", labels.c_state);
    let p1 = p0 + export::index_label("die", labels.die);
    let p2 = p1 + export::index_label("die_group", labels.die_group);
    let p3 = p2 + export::text_label("direction", labels.direction);
    let p4 = p3 + export::text_label("domain", labels.domain);
    let p5 = p4 + export::index_label("link", labels.link);
    let p6 = p5 + export::index_label("package", labels.package);
    let p7 = p6 + export::text_label("reason", labels.reason);
    let p8 = p7 + export::text_label("source", labels.source);
    let p9 = p8 + export::text_label("stack", labels.stack);
    let p10 = p9 + export::text_label("state", labels.state);
    lemma_text_added(Seq::empty(), "c_state", labels.c_state);
    assert(Seq::empty() + p0 =~= p0);
    lemma_index_added(p0, "die", labels.die);
    lemma_index_added(p1, "die_group", labels.die_group);
    lemma_text_added(p2, "direction", labels.direction);
    lemma_text_added(p3, "domain", labels.domain);
    lemma_index_added(p4, "link", labels.link);
    lemma_index_added(p5, "package", labels.package);
    lemma_text_added(p6, "reason", labels.reason);
    lemma_text_added(p7, "source", labels.source);
    lemma_text_added(p8, "stack", labels.stack);
    lemma_text_added(p9, "state", labels.state);
    lemma_text_added(p10, "traffic", labels.traffic);
}

} // verus!
