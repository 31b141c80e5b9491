//! The memory controllers and home agents of Haswell and Broadwell processors.
use crate::accumulator::{self, Accumulator, EventKind, EventMeasurement, Grid};
use crate::arch::Architecture;
use crate::completeness;
use crate::counter::Aggregate;
use crate::error::CollectorError;
use crate::export::{self, GaugeUpdate, Labels, MetricDescriptor};
use crate::hsx::{self, HsxBusScope, HsxUncoreSpec, UnitPlace};
use crate::ordered_map::{self, Key};
use crate::pci::PciVendorDevice;
use crate::quantity::{self, Quantity};
use crate::registers::{self, PmonWords, RegisterRead, RegisterWrite};
use crate::schedule::{self, Slice};
use crate::seqs;
use crate::topology::HsxUncoreScope;
use crate::units::{self, Clock, CounterUse, SliceReadings, Tally, Unit};
use vstd::prelude::*;

verus! {

/// What is counted in a home agent.
#[derive(Clone, Copy, Debug, PartialEq, Eq, Structural)]
pub enum HsxHaEventKind {
    LocalRead,
    LocalWrite,
    RemoteRead,
    RemoteWrite,
}

/// The place of an event in the order of the events.
pub open spec fn ha_event_index(kind: HsxHaEventKind) -> int {
    match kind {
        HsxHaEventKind::LocalRead => 0,
        HsxHaEventKind::LocalWrite => 1,
        HsxHaEventKind::RemoteRead => 2,
        HsxHaEventKind::RemoteWrite => 3,
    }
}

/// The name of an event, as it is shown in an error.
pub open spec fn ha_event_name(kind: HsxHaEventKind) -> &'static str {
    match kind {
        HsxHaEventKind::LocalRead => "LocalRead",
        HsxHaEventKind::LocalWrite => "LocalWrite",
        HsxHaEventKind::RemoteRead => "RemoteRead",
        HsxHaEventKind::RemoteWrite => "RemoteWrite",
    }
}

impl HsxHaEventKind {
    fn index(self) -> (index: u8)
        ensures
            index == ha_event_index(self),
    {
        match self {
            HsxHaEventKind::LocalRead => 0,
            HsxHaEventKind::LocalWrite => 1,
            HsxHaEventKind::RemoteRead => 2,
            HsxHaEventKind::RemoteWrite => 3,
        }
    }

    /// The name of the event, as it is shown in an error.
    pub fn name(self) -> (name: &'static str)
        ensures
            name == ha_event_name(self),
    {
        match self {
            HsxHaEventKind::LocalRead => "LocalRead",
            HsxHaEventKind::LocalWrite => "LocalWrite",
            HsxHaEventKind::RemoteRead => "RemoteRead",
            HsxHaEventKind::RemoteWrite => "RemoteWrite",
        }
    }
}

impl Key for HsxHaEventKind {
    open spec fn rank(self) -> int {
        ha_event_index(self)
    }

    proof fn rank_injective(a: Self, b: Self) {
    }

    fn precedes(&self, other: &Self) -> (result: bool) {
        self.index() < other.index()
    }
}

impl EventKind for HsxHaEventKind {
    open spec fn is_counted(self) -> bool {
        true
    }

    fn counts(&self) -> (result: bool) {
        true
    }
}

/// What is counted in a memory channel.
#[derive(Clone, Copy, Debug, PartialEq, Eq, Structural)]
pub enum HsxImcEventKind {
    Activate,
    PageMissPrecharge,
    ReadCas,
    RpqNonEmpty,
    WpqFull,
    WpqNonEmpty,
    WriteCas,
}

/// The place of an event in the order of the events.
pub open spec fn imc_event_index(kind: HsxImcEventKind) -> int {
    match kind {
        HsxImcEventKind::Activate => 0,
        HsxImcEventKind::PageMissPrecharge => 1,
        HsxImcEventKind::ReadCas => 2,
        HsxImcEventKind::RpqNonEmpty => 3,
        HsxImcEventKind::WpqFull => 4,
        HsxImcEventKind::WpqNonEmpty => 5,
        HsxImcEventKind::WriteCas => 6,
    }
}

/// The name of an event, as it is shown in an error.
pub open spec fn imc_event_name(kind: HsxImcEventKind) -> &'static str {
    match kind {
        HsxImcEventKind::Activate => "Activate",
        HsxImcEventKind::PageMissPrecharge => "PageMissPrecharge",
        HsxImcEventKind::ReadCas => "ReadCas",
        HsxImcEventKind::RpqNonEmpty => "RpqNonEmpty",
        HsxImcEventKind::WpqFull => "WpqFull",
        HsxImcEventKind::WpqNonEmpty => "WpqNonEmpty",
        HsxImcEventKind::WriteCas => "WriteCas",
    }
}

impl HsxImcEventKind {
    fn index(self) -> (index: u8)
        ensures
            index == imc_event_index(self),
    {
        match self {
            HsxImcEventKind::Activate => 0,
            HsxImcEventKind::PageMissPrecharge => 1,
            HsxImcEventKind::ReadCas => 2,
            HsxImcEventKind::RpqNonEmpty => 3,
            HsxImcEventKind::WpqFull => 4,
            HsxImcEventKind::WpqNonEmpty => 5,
            HsxImcEventKind::WriteCas => 6,
        }
    }

    /// The name of the event, as it is shown in an error.
    pub fn name(self) -> (name: &'static str)
        ensures
            name == imc_event_name(self),
    {
        match self {
            HsxImcEventKind::Activate => "Activate",
            HsxImcEventKind::PageMissPrecharge => "PageMissPrecharge",
            HsxImcEventKind::ReadCas => "ReadCas",
            HsxImcEventKind::RpqNonEmpty => "RpqNonEmpty",
            HsxImcEventKind::WpqFull => "WpqFull",
            HsxImcEventKind::WpqNonEmpty => "WpqNonEmpty",
            HsxImcEventKind::WriteCas => "WriteCas",
        }
    }
}

impl Key for HsxImcEventKind {
    open spec fn rank(self) -> int {
        imc_event_index(self)
    }

    proof fn rank_injective(a: Self, b: Self) {
    }

    fn precedes(&self, other: &Self) -> (result: bool) {
        self.index() < other.index()
    }
}

impl EventKind for HsxImcEventKind {
    open spec fn is_counted(self) -> bool {
        true
    }

    fn counts(&self) -> (result: bool) {
        true
    }
}

/// An event that a counter of a home agent can count.
#[derive(Clone, Copy, Debug, PartialEq, Eq, Structural)]
pub struct HsxHaEventSpec {
    pub event: u8,
    pub kind: HsxHaEventKind,
    pub umask: u8,
}

impl HsxHaEventSpec {
    /// An event.
    pub fn new(kind: HsxHaEventKind, event: u8, umask: u8) -> (spec: Self)
        ensures
            spec == (HsxHaEventSpec { event, kind, umask }),
    {
        HsxHaEventSpec { event, kind, umask }
    }
}

/// The events that the counters of a home agent count at the same time.
#[derive(Clone, Copy, Debug, PartialEq, Eq)]
pub struct HsxHaEventGroup {
    pub events: [HsxHaEventSpec; 4],
}

/// An event that a counter of a memory channel can count, and how the counts of several channels
/// are combined; a counter without one stays off.
#[derive(Clone, Copy, Debug, PartialEq, Eq, Structural)]
pub struct HsxImcEventSpec {
    pub aggregate: Aggregate,
    pub event: u8,
    pub kind: Option<HsxImcEventKind>,
    pub umask: u8,
}

/// An event of which the counts of several channels are averaged.
pub open spec fn average_of(kind: HsxImcEventKind, event: u8, umask: u8) -> HsxImcEventSpec {
    HsxImcEventSpec { aggregate: Aggregate::Average, event, kind: Some(kind), umask }
}

/// No event.
pub open spec fn no_event() -> HsxImcEventSpec {
    HsxImcEventSpec { aggregate: Aggregate::Disabled, event: 0, kind: None, umask: 0 }
}

/// An event of which the counts of several channels are summed.
pub open spec fn sum_of(kind: HsxImcEventKind, event: u8, umask: u8) -> HsxImcEventSpec {
    HsxImcEventSpec { aggregate: Aggregate::Sum, event, kind: Some(kind), umask }
}

impl HsxImcEventSpec {
    /// An event of which the counts of several channels are averaged.
    pub fn average(kind: HsxImcEventKind, event: u8, umask: u8) -> (spec: Self)
        ensures
            spec == average_of(kind, event, umask),
    {
        HsxImcEventSpec { aggregate: Aggregate::Average, event, kind: Some(kind), umask }
    }

    /// No event.
    pub fn disabled() -> (spec: Self)
        ensures
            spec == no_event(),
    {
        HsxImcEventSpec { aggregate: Aggregate::Disabled, event: 0, kind: None, umask: 0 }
    }

    /// An event of which the counts of several channels are summed.
    pub fn sum(kind: HsxImcEventKind, event: u8, umask: u8) -> (spec: Self)
        ensures
            spec == sum_of(kind, event, umask),
    {
        HsxImcEventSpec { aggregate: Aggregate::Sum, event, kind: Some(kind), umask }
    }
}

/// The events that the counters of a memory channel count at the same time.
#[derive(Clone, Copy, Debug, PartialEq, Eq)]
pub struct HsxImcEventGroup {
    pub events: [HsxImcEventSpec; 4],
}

/// A group of events that is measured by itself.
#[derive(Clone, Copy, Debug, PartialEq, Eq)]
pub enum HsxMeasurementGroup {
    Ha(HsxHaEventGroup),
    Imc(HsxImcEventGroup),
}

/// The control word of an event: event number, unit mask, reset, overflow and enable bits.
pub open spec fn control_word(event: u8, umask: u8) -> u64 {
    (event + umask * 0x100 + registers::COUNT_AND_REPORT_OVERFLOW) as u64
}

fn counter_control(event: u8, umask: u8) -> (word: u64)
    ensures
        word == control_word(event, umask),
{
    registers::select_word(event, umask, registers::COUNT_AND_REPORT_OVERFLOW)
}

fn optional_control(event: HsxImcEventSpec) -> (word: Option<u64>)
    ensures
        word == if event.kind is None {
            None
        } else {
            Some(control_word(event.event, event.umask))
        },
{
    if event.kind.is_none() {
        None
    } else {
        Some(counter_control(event.event, event.umask))
    }
}

/// What each counter of a home agent counts while a group is programmed.
pub open spec fn ha_uses(group: HsxHaEventGroup) -> Seq<CounterUse<HsxHaEventKind>> {
    group.events@.map_values(
        |event: HsxHaEventSpec| CounterUse { aggregate: Aggregate::Sum, kind: Some(event.kind) },
    )
}

/// The control words of the counters of a home agent while a group is programmed.
pub open spec fn ha_words(group: HsxHaEventGroup) -> Seq<Option<u64>> {
    group.events@.map_values(
        |event: HsxHaEventSpec| Some(control_word(event.event, event.umask)),
    )
}

/// What each counter of a memory channel counts while a group is programmed.
pub open spec fn imc_uses(group: HsxImcEventGroup) -> Seq<CounterUse<HsxImcEventKind>> {
    group.events@.map_values(
        |event: HsxImcEventSpec| CounterUse { aggregate: event.aggregate, kind: event.kind },
    )
}

/// The control words of the counters of a memory channel while a group is programmed; a counter
/// without an event is left as the reset left it.
pub open spec fn imc_words(group: HsxImcEventGroup) -> Seq<Option<u64>> {
    group.events@.map_values(
        |event: HsxImcEventSpec|
            if event.kind is None {
                None
            } else {
                Some(control_word(event.event, event.umask))
            },
    )
}

impl HsxHaEventGroup {
    /// What each counter counts.
    pub fn uses(&self) -> (uses: Vec<CounterUse<HsxHaEventKind>>)
        ensures
            uses@ == ha_uses(*self),
    {
        let uses: Vec<CounterUse<HsxHaEventKind>> = vec![
            CounterUse { aggregate: Aggregate::Sum, kind: Some(self.events[0].kind) },
            CounterUse { aggregate: Aggregate::Sum, kind: Some(self.events[1].kind) },
            CounterUse { aggregate: Aggregate::Sum, kind: Some(self.events[2].kind) },
            CounterUse { aggregate: Aggregate::Sum, kind: Some(self.events[3].kind) },
        ];
        assert(uses@ =~= ha_uses(*self));
        uses
    }

    /// The control words of the counters.
    pub fn controls(&self) -> (words: Vec<Option<u64>>)
        ensures
            words@ == ha_words(*self),
    {
        let words: Vec<Option<u64>> = vec![
            Some(counter_control(self.events[0].event, self.events[0].umask)),
            Some(counter_control(self.events[1].event, self.events[1].umask)),
            Some(counter_control(self.events[2].event, self.events[2].umask)),
            Some(counter_control(self.events[3].event, self.events[3].umask)),
        ];
        assert(words@ =~= ha_words(*self));
        words
    }
}

impl HsxImcEventGroup {
    /// What each counter counts.
    pub fn uses(&self) -> (uses: Vec<CounterUse<HsxImcEventKind>>)
        ensures
            uses@ == imc_uses(*self),
    {
        let uses: Vec<CounterUse<HsxImcEventKind>> = vec![
            CounterUse { aggregate: self.events[0].aggregate, kind: self.events[0].kind },
            CounterUse { aggregate: self.events[1].aggregate, kind: self.events[1].kind },
            CounterUse { aggregate: self.events[2].aggregate, kind: self.events[2].kind },
            CounterUse { aggregate: self.events[3].aggregate, kind: self.events[3].kind },
        ];
        assert(uses@ =~= imc_uses(*self));
        uses
    }

    /// The control words of the counters.
    pub fn controls(&self) -> (words: Vec<Option<u64>>)
        ensures
            words@ == imc_words(*self),
    {
        let words: Vec<Option<u64>> = vec![
            optional_control(self.events[0]),
            optional_control(self.events[1]),
            optional_control(self.events[2]),
            optional_control(self.events[3]),
        ];
        assert(words@ =~= imc_words(*self));
        words
    }
}

/// The groups, in the order in which they take turns: the home agents first, the memory channels
/// after them.
pub open spec fn groups() -> Seq<HsxMeasurementGroup> {
    seq![
        HsxMeasurementGroup::Ha(
            HsxHaEventGroup {
                events: [
                    HsxHaEventSpec { event: 0x01, kind: HsxHaEventKind::LocalRead, umask: 0x01 },
                    HsxHaEventSpec { event: 0x01, kind: HsxHaEventKind::RemoteRead, umask: 0x02 },
                    HsxHaEventSpec { event: 0x01, kind: HsxHaEventKind::LocalWrite, umask: 0x04 },
                    HsxHaEventSpec { event: 0x01, kind: HsxHaEventKind::RemoteWrite, umask: 0x08 },
                ],
            },
        ),
        HsxMeasurementGroup::Imc(
            HsxImcEventGroup {
                events: [
                    sum_of(HsxImcEventKind::ReadCas, 0x04, 0x03),
                    sum_of(HsxImcEventKind::WriteCas, 0x04, 0x0c),
                    sum_of(HsxImcEventKind::Activate, 0x01, 0x0b),
                    sum_of(HsxImcEventKind::PageMissPrecharge, 0x02, 0x01),
                ],
            },
        ),
        HsxMeasurementGroup::Imc(
            HsxImcEventGroup {
                events: [
                    average_of(HsxImcEventKind::RpqNonEmpty, 0x11, 0x00),
                    average_of(HsxImcEventKind::WpqNonEmpty, 0x21, 0x00),
                    average_of(HsxImcEventKind::WpqFull, 0x22, 0x00),
                    no_event(),
                ],
            },
        ),
    ]
}

/// The groups, in the order in which they take turns.
pub fn measurement_groups() -> (table: Vec<HsxMeasurementGroup>)
    ensures
        table@ == groups(),
{
    vec![
        HsxMeasurementGroup::Ha(
            HsxHaEventGroup {
                events: [
                    HsxHaEventSpec::new(HsxHaEventKind::LocalRead, 0x01, 0x01),
                    HsxHaEventSpec::new(HsxHaEventKind::RemoteRead, 0x01, 0x02),
                    HsxHaEventSpec::new(HsxHaEventKind::LocalWrite, 0x01, 0x04),
                    HsxHaEventSpec::new(HsxHaEventKind::RemoteWrite, 0x01, 0x08),
                ],
            },
        ),
        HsxMeasurementGroup::Imc(
            HsxImcEventGroup {
                events: [
                    HsxImcEventSpec::sum(HsxImcEventKind::ReadCas, 0x04, 0x03),
                    HsxImcEventSpec::sum(HsxImcEventKind::WriteCas, 0x04, 0x0c),
                    HsxImcEventSpec::sum(HsxImcEventKind::Activate, 0x01, 0x0b),
                    HsxImcEventSpec::sum(HsxImcEventKind::PageMissPrecharge, 0x02, 0x01),
                ],
            },
        ),
        HsxMeasurementGroup::Imc(
            HsxImcEventGroup {
                events: [
                    HsxImcEventSpec::average(HsxImcEventKind::RpqNonEmpty, 0x11, 0x00),
                    HsxImcEventSpec::average(HsxImcEventKind::WpqNonEmpty, 0x21, 0x00),
                    HsxImcEventSpec::average(HsxImcEventKind::WpqFull, 0x22, 0x00),
                    HsxImcEventSpec::disabled(),
                ],
            },
        ),
    ]
}

/// What is reported for the memory controllers and home agents of a package.
#[derive(Clone, Copy, Debug)]
pub struct HsxImcMetricsByScope {
    pub activate_commands_per_second: Quantity,
    pub frequency_hz: Quantity,
    pub ha_local_read_bytes_per_second: Quantity,
    pub ha_local_read_ratio: Quantity,
    pub ha_local_write_bytes_per_second: Quantity,
    pub ha_local_write_ratio: Quantity,
    pub ha_remote_read_bytes_per_second: Quantity,
    pub ha_remote_write_bytes_per_second: Quantity,
    pub page_miss_precharge_commands_per_second: Quantity,
    pub read_cas_commands_per_second: Quantity,
    pub read_bytes_per_second: Quantity,
    pub rpq_non_empty_ratio: Quantity,
    pub write_cas_commands_per_second: Quantity,
    pub write_bytes_per_second: Quantity,
    pub wpq_full_ratio: Quantity,
    pub wpq_non_empty_ratio: Quantity,
    pub scope: HsxUncoreScope,
}

/// What is reported for a package.
pub open spec fn scope_metrics(
    scope: HsxUncoreScope,
    ha: Map<HsxHaEventKind, EventMeasurement>,
    imc: Map<HsxImcEventKind, EventMeasurement>,
) -> HsxImcMetricsByScope {
    let local_read = ha[HsxHaEventKind::LocalRead];
    let remote_read = ha[HsxHaEventKind::RemoteRead];
    let local_write = ha[HsxHaEventKind::LocalWrite];
    let remote_write = ha[HsxHaEventKind::RemoteWrite];
    let activate = imc[HsxImcEventKind::Activate];
    let page_miss_precharge = imc[HsxImcEventKind::PageMissPrecharge];
    let read_cas = imc[HsxImcEventKind::ReadCas];
    let read_queue = imc[HsxImcEventKind::RpqNonEmpty];
    let write_cas = imc[HsxImcEventKind::WriteCas];
    let write_queue = imc[HsxImcEventKind::WpqNonEmpty];
    let write_queue_full = imc[HsxImcEventKind::WpqFull];
    HsxImcMetricsByScope {
        activate_commands_per_second: quantity::event_rate_of(activate),
        frequency_hz: quantity::clock_of(read_cas),
        ha_local_read_bytes_per_second: quantity::line_rate_of(local_read),
        ha_local_read_ratio: quantity::share_of(local_read, remote_read),
        ha_local_write_bytes_per_second: quantity::line_rate_of(local_write),
        ha_local_write_ratio: quantity::share_of(local_write, remote_write),
        ha_remote_read_bytes_per_second: quantity::line_rate_of(remote_read),
        ha_remote_write_bytes_per_second: quantity::line_rate_of(remote_write),
        page_miss_precharge_commands_per_second: quantity::event_rate_of(page_miss_precharge),
        read_cas_commands_per_second: quantity::event_rate_of(read_cas),
        read_bytes_per_second: quantity::line_rate_of(read_cas),
        rpq_non_empty_ratio: quantity::per_tick_of(read_queue),
        write_cas_commands_per_second: quantity::event_rate_of(write_cas),
        write_bytes_per_second: quantity::line_rate_of(write_cas),
        wpq_full_ratio: quantity::per_tick_of(write_queue_full),
        wpq_non_empty_ratio: quantity::per_tick_of(write_queue),
        scope,
    }
}

/// An event that is needed and was not counted.
pub open spec fn gap(unit: &'static str, event: &'static str) -> CollectorError {
    CollectorError::MissingMeasurement { unit, event }
}

/// The events of the home agents that a report needs, in the order in which they are looked up.
pub open spec fn ha_required() -> Seq<HsxHaEventKind> {
    seq![
        HsxHaEventKind::LocalRead,
        HsxHaEventKind::RemoteRead,
        HsxHaEventKind::LocalWrite,
        HsxHaEventKind::RemoteWrite,
    ]
}

/// The events of the memory channels that are looked up after those of the home agents.
pub open spec fn imc_required() -> Seq<HsxImcEventKind> {
    seq![
        HsxImcEventKind::PageMissPrecharge,
        HsxImcEventKind::ReadCas,
        HsxImcEventKind::RpqNonEmpty,
        HsxImcEventKind::WriteCas,
        HsxImcEventKind::WpqNonEmpty,
        HsxImcEventKind::WpqFull,
    ]
}

/// What stops the report on a package, if anything does: first the activations are looked up,
/// then the events of the home agents, then the other events of the memory channels.
pub open spec fn obstacle(
    ha: Map<HsxHaEventKind, EventMeasurement>,
    imc: Map<HsxImcEventKind, EventMeasurement>,
) -> Option<CollectorError> {
    if !imc.contains_key(HsxImcEventKind::Activate) {
        Some(gap("HSX IMC", imc_event_name(HsxImcEventKind::Activate)))
    } else {
        match accumulator::first_missing(ha, ha_required(), ha_required().len()) {
            Some(kind) => Some(gap("HSX HA", ha_event_name(kind))),
            None => match accumulator::first_missing(imc, imc_required(), imc_required().len()) {
                Some(kind) => Some(gap("HSX IMC", imc_event_name(kind))),
                None => None,
            },
        }
    }
}

/// The report on a package; an error where its home agents were not counted at all, or where an
/// event that is needed was not counted.
pub open spec fn scope_report(
    scope: HsxUncoreScope,
    ha: Grid<HsxUncoreScope, HsxHaEventKind, EventMeasurement>,
    imc: Map<HsxImcEventKind, EventMeasurement>,
) -> Result<HsxImcMetricsByScope, CollectorError> {
    if !ha.contains_key(scope) {
        Err(CollectorError::MissingPackage { unit: "HSX HA", package_id: scope.package_id })
    } else {
        match obstacle(ha[scope], imc) {
            Some(error) => Err(error),
            None => Ok(scope_metrics(scope, ha[scope], imc)),
        }
    }
}

/// The reports on all packages, in package order, or the first error.
pub open spec fn all_reports(
    ha: Grid<HsxUncoreScope, HsxHaEventKind, EventMeasurement>,
    rows: Seq<(HsxUncoreScope, Map<HsxImcEventKind, EventMeasurement>)>,
) -> Result<Seq<HsxImcMetricsByScope>, CollectorError>
    decreases rows.len(),
{
    if rows.len() == 0 {
        Ok(Seq::empty())
    } else {
        match all_reports(ha, rows.drop_last()) {
            Ok(before) => match scope_report(rows.last().0, ha, rows.last().1) {
                Ok(metrics) => Ok(before.push(metrics)),
                Err(error) => Err(error),
            },
            Err(error) => Err(error),
        }
    }
}

proof fn lemma_error_stays(
    ha: Grid<HsxUncoreScope, HsxHaEventKind, EventMeasurement>,
    rows: Seq<(HsxUncoreScope, Map<HsxImcEventKind, EventMeasurement>)>,
    n: int,
)
    requires
        0 <= n <= rows.len(),
        all_reports(ha, rows.take(n)) is Err,
    ensures
        all_reports(ha, rows) == all_reports(ha, rows.take(n)),
    decreases rows.len() - n,
{
    if n == rows.len() {
        assert(rows.take(n) =~= rows);
    } else {
        assert(rows.take(n + 1).drop_last() =~= rows.take(n));
        lemma_error_stays(ha, rows, n + 1);
    }
}

/// What was counted in a sample.
#[derive(Debug)]
pub struct HsxImcMeasurements {
    pub ha: Accumulator<HsxUncoreScope, HsxHaEventKind, EventMeasurement>,
    pub imc: Accumulator<HsxUncoreScope, HsxImcEventKind, EventMeasurement>,
}

impl HsxImcMeasurements {
    /// The invariant of the two collections.
    pub open spec fn wf(self) -> bool {
        self.ha.wf() && self.imc.wf()
    }

    /// Nothing counted.
    pub fn new() -> (measurements: Self)
        ensures
            measurements.wf(),
            measurements.ha.rows().len() == 0,
            measurements.imc.rows().len() == 0,
    {
        HsxImcMeasurements { ha: Accumulator::new(), imc: Accumulator::new() }
    }

    fn required_ha(&self, scope: HsxUncoreScope, kind: HsxHaEventKind) -> (result: Result<
        EventMeasurement,
        CollectorError,
    >)
        requires
            self.wf(),
            self.ha.grid().contains_key(scope),
        ensures
            match result {
                Ok(measurement) => self.ha.grid()[scope].contains_key(kind) && measurement
                    == self.ha.grid()[scope][kind],
                Err(error) => !self.ha.grid()[scope].contains_key(kind) && error == gap(
                    "HSX HA",
                    ha_event_name(kind),
                ),
            },
    {
        match self.ha.get(scope, kind) {
            Some(measurement) => Ok(measurement),
            None => Err(
                CollectorError::MissingMeasurement { unit: "HSX HA", event: kind.name() },
            ),
        }
    }

    fn required_imc(&self, index: usize, kind: HsxImcEventKind) -> (result: Result<
        EventMeasurement,
        CollectorError,
    >)
        requires
            self.wf(),
            index < self.imc.rows().len(),
        ensures
            match result {
                Ok(measurement) => self.imc.rows()[index as int].1.contains_key(kind) && measurement
                    == self.imc.rows()[index as int].1[kind],
                Err(error) => !self.imc.rows()[index as int].1.contains_key(kind) && error == gap(
                    "HSX IMC",
                    imc_event_name(kind),
                ),
            },
    {
        match self.imc.measurement_at(index, kind) {
            Some(measurement) => Ok(measurement),
            None => Err(
                CollectorError::MissingMeasurement { unit: "HSX IMC", event: kind.name() },
            ),
        }
    }
}

impl HsxImcMetricsByScope {
    fn from_measurements(measurements: &HsxImcMeasurements, index: usize) -> (result: Result<
        Self,
        CollectorError,
    >)
        requires
            measurements.wf(),
            index < measurements.imc.rows().len(),
        ensures
            result == scope_report(
                measurements.imc.rows()[index as int].0,
                measurements.ha.grid(),
                measurements.imc.rows()[index as int].1,
            ),
    {
        let scope = measurements.imc.scope_at(index);
        if !measurements.ha.has_scope(scope) {
            return Err(
                CollectorError::MissingPackage { unit: "HSX HA", package_id: scope.package_id },
            );
        }
        proof {
            reveal_with_fuel(accumulator::first_missing, 7);
        }
        let activate = match measurements.required_imc(index, HsxImcEventKind::Activate) {
            Ok(measurement) => measurement,
            Err(error) => {
                return Err(error);
            },
        };
        let local_read = match measurements.required_ha(scope, HsxHaEventKind::LocalRead) {
            Ok(measurement) => measurement,
            Err(error) => {
                return Err(error);
            },
        };
        let remote_read = match measurements.required_ha(scope, HsxHaEventKind::RemoteRead) {
            Ok(measurement) => measurement,
            Err(error) => {
                return Err(error);
            },
        };
        let local_write = match measurements.required_ha(scope, HsxHaEventKind::LocalWrite) {
            Ok(measurement) => measurement,
            Err(error) => {
                return Err(error);
            },
        };
        let remote_write = match measurements.required_ha(scope, HsxHaEventKind::RemoteWrite) {
            Ok(measurement) => measurement,
            Err(error) => {
                return Err(error);
            },
        };
        let page_miss_precharge = match measurements.required_imc(
            index,
            HsxImcEventKind::PageMissPrecharge,
        ) {
            Ok(measurement) => measurement,
            Err(error) => {
                return Err(error);
            },
        };
        let read_cas = match measurements.required_imc(index, HsxImcEventKind::ReadCas) {
            Ok(measurement) => measurement,
            Err(error) => {
                return Err(error);
            },
        };
        let read_queue = match measurements.required_imc(index, HsxImcEventKind::RpqNonEmpty) {
            Ok(measurement) => measurement,
            Err(error) => {
                return Err(error);
            },
        };
        let write_cas = match measurements.required_imc(index, HsxImcEventKind::WriteCas) {
            Ok(measurement) => measurement,
            Err(error) => {
                return Err(error);
            },
        };
        let write_queue = match measurements.required_imc(index, HsxImcEventKind::WpqNonEmpty) {
            Ok(measurement) => measurement,
            Err(error) => {
                return Err(error);
            },
        };
        let write_queue_full = match measurements.required_imc(index, HsxImcEventKind::WpqFull) {
            Ok(measurement) => measurement,
            Err(error) => {
                return Err(error);
            },
        };
        Ok(
            HsxImcMetricsByScope {
                activate_commands_per_second: quantity::event_rate(activate),
                frequency_hz: quantity::clock(read_cas),
                ha_local_read_bytes_per_second: quantity::line_rate(local_read),
                ha_local_read_ratio: quantity::share(local_read, remote_read),
                ha_local_write_bytes_per_second: quantity::line_rate(local_write),
                ha_local_write_ratio: quantity::share(local_write, remote_write),
                ha_remote_read_bytes_per_second: quantity::line_rate(remote_read),
                ha_remote_write_bytes_per_second: quantity::line_rate(remote_write),
                page_miss_precharge_commands_per_second: quantity::event_rate(page_miss_precharge),
                read_cas_commands_per_second: quantity::event_rate(read_cas),
                read_bytes_per_second: quantity::line_rate(read_cas),
                rpq_non_empty_ratio: quantity::per_tick(read_queue),
                write_cas_commands_per_second: quantity::event_rate(write_cas),
                write_bytes_per_second: quantity::line_rate(write_cas),
                wpq_full_ratio: quantity::per_tick(write_queue_full),
                wpq_non_empty_ratio: quantity::per_tick(write_queue),
                scope,
            },
        )
    }
}

/// What is reported for all memory controllers and home agents.
#[derive(Debug)]
pub struct HsxImcMetrics {
    pub scopes: Vec<HsxImcMetricsByScope>,
}

/// Whether `result` is the report on measurements.
pub open spec fn reported(
    measurements: HsxImcMeasurements,
    result: Result<HsxImcMetrics, CollectorError>,
) -> bool {
    match all_reports(measurements.ha.grid(), measurements.imc.rows()) {
        Ok(scopes) => result matches Ok(metrics) && metrics.scopes@ == scopes,
        Err(error) => result matches Err(e) && e == error,
    }
}

impl HsxImcMetrics {
    /// Reports every package whose memory channels were counted, in package order.
    pub fn from_measurements(measurements: &HsxImcMeasurements) -> (result: Result<
        Self,
        CollectorError,
    >)
        requires
            measurements.wf(),
        ensures
            reported(*measurements, result),
    {
        let ghost ha = measurements.ha.grid();
        let ghost rows = measurements.imc.rows();
        let mut scopes: Vec<HsxImcMetricsByScope> = Vec::new();
        let mut i: usize = 0;
        assert(
            rows.take(0) =~= Seq::<(
                HsxUncoreScope,
                Map<HsxImcEventKind, EventMeasurement>
            )>::empty()
        );
        while i < measurements.imc.len()
            invariant
                measurements.wf(),
                ha == measurements.ha.grid(),
                rows == measurements.imc.rows(),
                i <= rows.len(),
                all_reports(ha, rows.take(i as int)) == Ok::<
                    Seq<HsxImcMetricsByScope>,
                    CollectorError,
                >(scopes@),
            decreases rows.len() - i,
        {
            assert(rows.take(i + 1).drop_last() =~= rows.take(i as int));
            match HsxImcMetricsByScope::from_measurements(measurements, i) {
                Ok(metrics) => {
                    scopes.push(metrics);
                },
                Err(error) => {
                    proof {
                        lemma_error_stays(ha, rows, i + 1);
                    }
                    return Err(error);
                },
            }
            i += 1;
        }
        assert(rows.take(i as int) =~= rows);
        Ok(HsxImcMetrics { scopes })
    }
}

/// Samples the memory controllers and home agents of Haswell and Broadwell processors.
#[derive(Debug)]
pub struct HsxImcCollector {
    channels: Vec<Unit<HsxUncoreScope>>,
    ha_units: Vec<Unit<HsxUncoreScope>>,
    next_group: usize,
    words: PmonWords,
}

/// Whether `result` is the collector for the units that were found: the memory channels and the
/// home agents at the addresses that the processor has them at. It is an error where there are
/// none of either.
pub open spec fn discovered(
    uncore: HsxUncoreSpec,
    bus_scopes: Seq<HsxBusScope>,
    devices: Seq<PciVendorDevice>,
    result: Result<HsxImcCollector, CollectorError>,
) -> bool {
    let channels = hsx::all_places(devices, bus_scopes, uncore.imc_channels@);
    let ha_units = hsx::all_places(devices, bus_scopes, uncore.ha_units@);
    if channels.len() == 0 {
        result matches Err(error) && error == (CollectorError::NoneDiscovered {
            family: uncore.name,
            units: "IMC channels",
        })
    } else if ha_units.len() == 0 {
        result matches Err(error) && error == (CollectorError::NoneDiscovered {
            family: uncore.name,
            units: "HA units",
        })
    } else {
        &&& result matches Ok(collector)
        &&& collector.wf()
        &&& collector.words() == uncore.words
        &&& collector.next_group() == 0
        &&& hsx::are_units(collector.channels(), channels, uncore.layout, true)
        &&& hsx::are_units(collector.ha_units(), ha_units, uncore.layout, false)
    }
}

impl HsxImcCollector {
    /// The memory channels.
    pub closed spec fn channels(self) -> Seq<Unit<HsxUncoreScope>> {
        self.channels@
    }

    /// The home agents.
    pub closed spec fn ha_units(self) -> Seq<Unit<HsxUncoreScope>> {
        self.ha_units@
    }

    /// The group that goes first in the next sample.
    pub closed spec fn next_group(self) -> usize {
        self.next_group
    }

    /// The words that the units take in their control registers.
    pub closed spec fn words(self) -> PmonWords {
        self.words
    }

    /// The invariant: the next group is one of the groups, and every unit has the counters that a
    /// group uses.
    pub open spec fn wf(self) -> bool {
        &&& self.next_group() < groups().len()
        &&& units::units_have(self.channels(), 4)
        &&& units::units_have(self.ha_units(), 4)
    }

    /// The units that count the events of a group.
    pub open spec fn units_of(self, group: HsxMeasurementGroup) -> Seq<Unit<HsxUncoreScope>> {
        match group {
            HsxMeasurementGroup::Ha(_) => self.ha_units(),
            HsxMeasurementGroup::Imc(_) => self.channels(),
        }
    }

    /// The number of rounds in a sample over an interval.
    pub open spec fn rounds(interval_nanos: u128) -> nat {
        schedule::saturated(schedule::bounded_rounds(interval_nanos as nat, groups().len()))
    }

    /// A collector for given units.
    pub fn from_units(
        words: PmonWords,
        channels: Vec<Unit<HsxUncoreScope>>,
        ha_units: Vec<Unit<HsxUncoreScope>>,
    ) -> (collector: Self)
        requires
            units::units_have(channels@, 4),
            units::units_have(ha_units@, 4),
        ensures
            collector.wf(),
            collector.words() == words,
            collector.channels() == channels@,
            collector.ha_units() == ha_units@,
            collector.next_group() == 0,
    {
        HsxImcCollector { channels, ha_units, next_group: 0, words }
    }

    /// A collector for the processor: Haswell and Broadwell servers only.
    pub fn new(
        architecture: &Architecture,
        uncore: &HsxUncoreSpec,
        bus_scopes: &Vec<HsxBusScope>,
        devices: &Vec<PciVendorDevice>,
    ) -> (result: Result<Self, CollectorError>)
        requires
            architecture.server_model() is Some,
        ensures
            if hsx::is_member(architecture.server_model()->0) {
                discovered(*uncore, bus_scopes@, devices@, result)
            } else {
                result matches Err(error) && error == (CollectorError::Unsupported {
                    unit: "HSX IMC",
                    model: architecture.server_model()->0,
                })
            },
    {
        let model = architecture.intel_server_model();
        if !hsx::belongs(model) {
            return Err(CollectorError::Unsupported { unit: "HSX IMC", model });
        }
        let channel_places: Vec<UnitPlace> = hsx::find_places(
            devices,
            bus_scopes,
            &uncore.imc_channels,
        );
        if channel_places.len() == 0 {
            return Err(
                CollectorError::NoneDiscovered { family: uncore.name, units: "IMC channels" },
            );
        }
        let ha_places: Vec<UnitPlace> = hsx::find_places(devices, bus_scopes, &uncore.ha_units);
        if ha_places.len() == 0 {
            return Err(CollectorError::NoneDiscovered { family: uncore.name, units: "HA units" });
        }
        let channels: Vec<Unit<HsxUncoreScope>> = hsx::units_at(
            &channel_places,
            uncore.layout,
            true,
        );
        let ha_units: Vec<Unit<HsxUncoreScope>> = hsx::units_at(&ha_places, uncore.layout, false);
        Ok(HsxImcCollector { channels, ha_units, next_group: 0, words: uncore.words })
    }

    /// Makes the next group in cyclic order go first.
    pub fn rotate_group(&mut self)
        requires
            old(self).wf(),
        ensures
            final(self).wf(),
            final(self).next_group() == (old(self).next_group() + 1) % groups().len() as int,
            final(self).channels() == old(self).channels(),
            final(self).ha_units() == old(self).ha_units(),
            final(self).words() == old(self).words(),
    {
        self.next_group = schedule::rotate(self.next_group, measurement_groups().len());
    }

    /// The turns of the groups over an interval.
    pub fn schedule(&self, interval_nanos: u128) -> (slices: Vec<Slice<HsxMeasurementGroup>>)
        requires
            self.wf(),
            groups().len() * Self::rounds(interval_nanos) <= usize::MAX,
        ensures
            schedule::is_schedule(
                slices@,
                groups(),
                self.next_group() as int,
                interval_nanos,
                Self::rounds(interval_nanos),
            ),
    {
        let groups = measurement_groups();
        let round_count: usize = schedule::bounded_round_count(interval_nanos, groups.len());
        schedule::schedule_rounds(&groups, self.next_group, interval_nanos, round_count)
    }

    /// The slices of a sample over an interval; an error over no time, or where there are more
    /// slices than can be numbered.
    pub fn begin_sample(&self, interval_nanos: u128) -> (result: Result<
        Vec<Slice<HsxMeasurementGroup>>,
        CollectorError,
    >)
        requires
            self.wf(),
        ensures
            match result {
                Ok(slices) => interval_nanos > 0 && schedule::is_schedule(
                    slices@,
                    groups(),
                    self.next_group() as int,
                    interval_nanos,
                    Self::rounds(interval_nanos),
                ),
                Err(error) => if interval_nanos == 0 {
                    error == (CollectorError::ZeroInterval { unit: "HSX IMC" })
                } else {
                    error == CollectorError::Overflow && groups().len() * Self::rounds(
                        interval_nanos,
                    ) > usize::MAX
                },
            },
    {
        if interval_nanos == 0 {
            return Err(CollectorError::ZeroInterval { unit: "HSX IMC" });
        }
        let group_count: usize = measurement_groups().len();
        let round_count: usize = schedule::bounded_round_count(interval_nanos, group_count);
        if group_count.checked_mul(round_count).is_none() {
            return Err(CollectorError::Overflow);
        }
        Ok(self.schedule(interval_nanos))
    }

    /// Freezes and resets the counters of the units of a group and then selects its events.
    pub fn program_writes(&self, group: HsxMeasurementGroup) -> (writes: Vec<RegisterWrite>)
        requires
            self.wf(),
        ensures
            writes@ == units::all_control_writes(
                self.units_of(group),
                seq![self.words().freeze_and_reset],
            ) + units::all_program_writes(
                self.units_of(group),
                match group {
                    HsxMeasurementGroup::Ha(group) => ha_words(group),
                    HsxMeasurementGroup::Imc(group) => imc_words(group),
                },
                registers::FIXED_COUNTER_RESET_AND_ENABLE,
            ),
    {
        let reset: Vec<u64> = vec![self.words.freeze_and_reset];
        assert(reset@ =~= seq![self.words().freeze_and_reset]);
        let (units, controls): (&Vec<Unit<HsxUncoreScope>>, Vec<Option<u64>>) = match group {
            HsxMeasurementGroup::Ha(group) => (&self.ha_units, group.controls()),
            HsxMeasurementGroup::Imc(group) => (&self.channels, group.controls()),
        };
        let mut writes: Vec<RegisterWrite> = units::write_controls(units, &reset);
        let mut events: Vec<RegisterWrite> = units::write_events(
            units,
            &controls,
            registers::FIXED_COUNTER_RESET_AND_ENABLE,
        );
        writes.append(&mut events);
        writes
    }

    /// Releases the counters of the units of a group.
    pub fn unfreeze_writes(&self, group: HsxMeasurementGroup) -> (writes: Vec<RegisterWrite>)
        ensures
            writes@ == units::all_control_writes(
                self.units_of(group),
                seq![self.words().unfreeze],
            ),
    {
        let words: Vec<u64> = vec![self.words.unfreeze];
        assert(words@ =~= seq![self.words().unfreeze]);
        match group {
            HsxMeasurementGroup::Ha(_) => units::write_controls(&self.ha_units, &words),
            HsxMeasurementGroup::Imc(_) => units::write_controls(&self.channels, &words),
        }
    }

    /// Freezes the counters of the units of a group.
    pub fn freeze_writes(&self, group: HsxMeasurementGroup) -> (writes: Vec<RegisterWrite>)
        ensures
            writes@ == units::all_control_writes(self.units_of(group), seq![self.words().freeze]),
    {
        let words: Vec<u64> = vec![self.words.freeze];
        assert(words@ =~= seq![self.words().freeze]);
        match group {
            HsxMeasurementGroup::Ha(_) => units::write_controls(&self.ha_units, &words),
            HsxMeasurementGroup::Imc(_) => units::write_controls(&self.channels, &words),
        }
    }

    /// Reads the counters of the units of a group, and the clock counters of those that have one.
    pub fn reads(&self, group: HsxMeasurementGroup) -> (reads: Vec<RegisterRead>)
        requires
            self.wf(),
        ensures
            reads@ == units::all_reads(self.units_of(group), units::every_counter(4)),
    {
        match group {
            HsxMeasurementGroup::Ha(_) => units::reads(&self.ha_units, &units::all_used(4)),
            HsxMeasurementGroup::Imc(_) => units::reads(&self.channels, &units::all_used(4)),
        }
    }

    /// Adds what a slice counted to the measurements: for every package, the counts of its units
    /// taken together and, of memory channels, the average of their clock ticks. What was counted
    /// by the other units stays as it is.
    pub fn record(
        &self,
        group: HsxMeasurementGroup,
        readings: &SliceReadings,
        measurements: HsxImcMeasurements,
    ) -> (result: Result<HsxImcMeasurements, CollectorError>)
        requires
            measurements.wf(),
        ensures
            match group {
                HsxMeasurementGroup::Ha(group) => match result {
                    Ok(after) => after.imc == measurements.imc && units::is_record_by_scope(
                        self.ha_units(),
                        *readings,
                        Clock::Absent,
                        Tally::Counter,
                        ha_uses(group),
                        measurements.ha,
                        Ok(after.ha),
                    ),
                    Err(error) => units::is_record_by_scope(
                        self.ha_units(),
                        *readings,
                        Clock::Absent,
                        Tally::Counter,
                        ha_uses(group),
                        measurements.ha,
                        Err(error),
                    ),
                },
                HsxMeasurementGroup::Imc(group) => match result {
                    Ok(after) => after.ha == measurements.ha && units::is_record_by_scope(
                        self.channels(),
                        *readings,
                        Clock::Full,
                        Tally::Counter,
                        imc_uses(group),
                        measurements.imc,
                        Ok(after.imc),
                    ),
                    Err(error) => units::is_record_by_scope(
                        self.channels(),
                        *readings,
                        Clock::Full,
                        Tally::Counter,
                        imc_uses(group),
                        measurements.imc,
                        Err(error),
                    ),
                },
            },
    {
        match group {
            HsxMeasurementGroup::Ha(group) => match units::record_by_scope(
                &self.ha_units,
                readings,
                Clock::Absent,
                Tally::Counter,
                &group.uses(),
                measurements.ha,
            ) {
                Ok(ha) => Ok(HsxImcMeasurements { ha, imc: measurements.imc }),
                Err(error) => Err(error),
            },
            HsxMeasurementGroup::Imc(group) => match units::record_by_scope(
                &self.channels,
                readings,
                Clock::Full,
                Tally::Counter,
                &group.uses(),
                measurements.imc,
            ) {
                Ok(imc) => Ok(HsxImcMeasurements { ha: measurements.ha, imc }),
                Err(error) => Err(error),
            },
        }
    }

    /// Ends a sample: the next group goes first in the next one, and the measurements are
    /// reported.
    pub fn finish_sample(&mut self, measurements: &HsxImcMeasurements) -> (result: Result<
        HsxImcMetrics,
        CollectorError,
    >)
        requires
            old(self).wf(),
            measurements.wf(),
        ensures
            final(self).wf(),
            final(self).next_group() == (old(self).next_group() + 1) % groups().len() as int,
            final(self).channels() == old(self).channels(),
            final(self).ha_units() == old(self).ha_units(),
            final(self).words() == old(self).words(),
            reported(*measurements, result),
    {
        self.rotate_group();
        HsxImcMetrics::from_measurements(measurements)
    }
}

/// The families that are registered, in this order.
pub open spec fn families() -> Seq<MetricDescriptor> {
    seq![
        MetricDescriptor {
            name: "ocellus_haswell_imc_activate_commands_per_second",
            help: "Interval-derived Haswell IMC activate commands per second",
        },
        MetricDescriptor {
            name: "ocellus_haswell_imc_frequency_hz",
            help: "Interval-derived Haswell IMC DCLK frequency in hertz",
        },
        MetricDescriptor {
            name: "ocellus_haswell_imc_page_miss_precharge_commands_per_second",
            help: "Interval-derived Haswell IMC page-miss precharge commands per second",
        },
        MetricDescriptor {
            name: "ocellus_haswell_imc_read_cas_commands_per_second",
            help: "Interval-derived Haswell IMC read CAS commands per second",
        },
        MetricDescriptor {
            name: "ocellus_haswell_imc_read_bytes_per_second",
            help: "Interval-derived Haswell IMC read bandwidth in bytes per second",
        },
        MetricDescriptor {
            name: "ocellus_haswell_imc_rpq_non_empty_ratio",
            help: "Haswell IMC read pending queue non-empty cycle ratio",
        },
        MetricDescriptor {
            name: "ocellus_haswell_imc_write_cas_commands_per_second",
            help: "Interval-derived Haswell IMC write CAS commands per second",
        },
        MetricDescriptor {
            name: "ocellus_haswell_imc_write_bytes_per_second",
            help: "Interval-derived Haswell IMC write bandwidth in bytes per second",
        },
        MetricDescriptor {
            name: "ocellus_haswell_imc_wpq_full_ratio",
            help: "Haswell IMC write pending queue full cycle ratio",
        },
        MetricDescriptor {
            name: "ocellus_haswell_imc_wpq_non_empty_ratio",
            help: "Haswell IMC write pending queue non-empty cycle ratio",
        },
        MetricDescriptor {
            name: "ocellus_haswell_ha_local_read_bytes_per_second",
            help: "Interval-derived Haswell HA local read request bandwidth in bytes per second",
        },
        MetricDescriptor {
            name: "ocellus_haswell_ha_local_read_ratio",
            help: "Haswell HA local read request ratio",
        },
        MetricDescriptor {
            name: "ocellus_haswell_ha_local_write_bytes_per_second",
            help: "Interval-derived Haswell HA local write request bandwidth in bytes per second",
        },
        MetricDescriptor {
            name: "ocellus_haswell_ha_local_write_ratio",
            help: "Haswell HA local write request ratio",
        },
        MetricDescriptor {
            name: "ocellus_haswell_ha_remote_read_bytes_per_second",
            help: "Interval-derived Haswell HA remote read request bandwidth in bytes per second",
        },
        MetricDescriptor {
            name: "ocellus_haswell_ha_remote_write_bytes_per_second",
            help: "Interval-derived Haswell HA remote write request bandwidth in bytes per second",
        },
    ]
}

/// The metrics that are set for a scope, in this order.
pub open spec fn scope_updates(metrics: HsxImcMetricsByScope) -> Seq<GaugeUpdate> {
    let labels = export::of_package(metrics.scope.package_id);
    seq![
        GaugeUpdate {
            family: "ocellus_haswell_imc_activate_commands_per_second",
            labels,
            value: metrics.activate_commands_per_second,
        },
        GaugeUpdate {
            family: "ocellus_haswell_imc_frequency_hz",
            labels,
            value: metrics.frequency_hz,
        },
        GaugeUpdate {
            family: "ocellus_haswell_ha_local_read_bytes_per_second",
            labels,
            value: metrics.ha_local_read_bytes_per_second,
        },
        GaugeUpdate {
            family: "ocellus_haswell_ha_local_read_ratio",
            labels,
            value: metrics.ha_local_read_ratio,
        },
        GaugeUpdate {
            family: "ocellus_haswell_ha_local_write_bytes_per_second",
            labels,
            value: metrics.ha_local_write_bytes_per_second,
        },
        GaugeUpdate {
            family: "ocellus_haswell_ha_local_write_ratio",
            labels,
            value: metrics.ha_local_write_ratio,
        },
        GaugeUpdate {
            family: "ocellus_haswell_ha_remote_read_bytes_per_second",
            labels,
            value: metrics.ha_remote_read_bytes_per_second,
        },
        GaugeUpdate {
            family: "ocellus_haswell_ha_remote_write_bytes_per_second",
            labels,
            value: metrics.ha_remote_write_bytes_per_second,
        },
        GaugeUpdate {
            family: "ocellus_haswell_imc_page_miss_precharge_commands_per_second",
            labels,
            value: metrics.page_miss_precharge_commands_per_second,
        },
        GaugeUpdate {
            family: "ocellus_haswell_imc_read_cas_commands_per_second",
            labels,
            value: metrics.read_cas_commands_per_second,
        },
        GaugeUpdate {
            family: "ocellus_haswell_imc_read_bytes_per_second",
            labels,
            value: metrics.read_bytes_per_second,
        },
        GaugeUpdate {
            family: "ocellus_haswell_imc_rpq_non_empty_ratio",
            labels,
            value: metrics.rpq_non_empty_ratio,
        },
        GaugeUpdate {
            family: "ocellus_haswell_imc_write_cas_commands_per_second",
            labels,
            value: metrics.write_cas_commands_per_second,
        },
        GaugeUpdate {
            family: "ocellus_haswell_imc_write_bytes_per_second",
            labels,
            value: metrics.write_bytes_per_second,
        },
        GaugeUpdate {
            family: "ocellus_haswell_imc_wpq_full_ratio",
            labels,
            value: metrics.wpq_full_ratio,
        },
        GaugeUpdate {
            family: "ocellus_haswell_imc_wpq_non_empty_ratio",
            labels,
            value: metrics.wpq_non_empty_ratio,
        },
    ]
}

/// The metrics that are set for all of them, one after the other.
pub open spec fn all_updates(metrics: HsxImcMetrics) -> Seq<GaugeUpdate> {
    seqs::flat_map(metrics.scopes@, |metrics: HsxImcMetricsByScope| scope_updates(metrics))
}

/// The metric families of the memory controllers and home agents of a processor.
#[derive(Clone, Copy, Debug)]
pub struct HsxImcPrometheusMetrics;

impl HsxImcPrometheusMetrics {
    /// The families to be registered.
    pub fn register() -> (families: Vec<MetricDescriptor>)
        ensures
            families@ == self::families(),
    {
        vec![
            MetricDescriptor {
                name: "ocellus_haswell_imc_activate_commands_per_second",
                help: "Interval-derived Haswell IMC activate commands per second",
            },
            MetricDescriptor {
                name: "ocellus_haswell_imc_frequency_hz",
                help: "Interval-derived Haswell IMC DCLK frequency in hertz",
            },
            MetricDescriptor {
                name: "ocellus_haswell_imc_page_miss_precharge_commands_per_second",
                help: "Interval-derived Haswell IMC page-miss precharge commands per second",
            },
            MetricDescriptor {
                name: "ocellus_haswell_imc_read_cas_commands_per_second",
                help: "Interval-derived Haswell IMC read CAS commands per second",
            },
            MetricDescriptor {
                name: "ocellus_haswell_imc_read_bytes_per_second",
                help: "Interval-derived Haswell IMC read bandwidth in bytes per second",
            },
            MetricDescriptor {
                name: "ocellus_haswell_imc_rpq_non_empty_ratio",
                help: "Haswell IMC read pending queue non-empty cycle ratio",
            },
            MetricDescriptor {
                name: "ocellus_haswell_imc_write_cas_commands_per_second",
                help: "Interval-derived Haswell IMC write CAS commands per second",
            },
            MetricDescriptor {
                name: "ocellus_haswell_imc_write_bytes_per_second",
                help: "Interval-derived Haswell IMC write bandwidth in bytes per second",
            },
            MetricDescriptor {
                name: "ocellus_haswell_imc_wpq_full_ratio",
                help: "Haswell IMC write pending queue full cycle ratio",
            },
            MetricDescriptor {
                name: "ocellus_haswell_imc_wpq_non_empty_ratio",
                help: "Haswell IMC write pending queue non-empty cycle ratio",
            },
            MetricDescriptor {
                name: "ocellus_haswell_ha_local_read_bytes_per_second",
                help: "Interval-derived Haswell HA local read request bandwidth in bytes per second",
            },
            MetricDescriptor {
                name: "ocellus_haswell_ha_local_read_ratio",
                help: "Haswell HA local read request ratio",
            },
            MetricDescriptor {
                name: "ocellus_haswell_ha_local_write_bytes_per_second",
                help: "Interval-derived Haswell HA local write request bandwidth in bytes per second",
            },
            MetricDescriptor {
                name: "ocellus_haswell_ha_local_write_ratio",
                help: "Haswell HA local write request ratio",
            },
            MetricDescriptor {
                name: "ocellus_haswell_ha_remote_read_bytes_per_second",
                help: "Interval-derived Haswell HA remote read request bandwidth in bytes per second",
            },
            MetricDescriptor {
                name: "ocellus_haswell_ha_remote_write_bytes_per_second",
                help: "Interval-derived Haswell HA remote write request bandwidth in bytes per second",
            },
        ]
    }

    /// The metrics to be set.
    pub fn update(&self, metrics: &HsxImcMetrics) -> (updates: Vec<GaugeUpdate>)
        ensures
            updates@ == all_updates(*metrics),
    {
        let ghost f = |metrics: HsxImcMetricsByScope| scope_updates(metrics);
        let mut updates: Vec<GaugeUpdate> = Vec::new();
        let mut i: usize = 0;
        proof {
            seqs::lemma_flat_map_ends(metrics.scopes@, f);
        }
        while i < metrics.scopes.len()
            invariant
                i <= metrics.scopes@.len(),
                f == (|metrics: HsxImcMetricsByScope| scope_updates(metrics)),
                updates@ == seqs::flat_map(metrics.scopes@.take(i as int), f),
            decreases metrics.scopes@.len() - i,
        {
            let scope = &metrics.scopes[i];
            let labels = Labels::package(scope.scope.package_id);
            let ghost before = updates@;
            updates.push(
                GaugeUpdate {
                    family: "ocellus_haswell_imc_activate_commands_per_second",
                    labels,
                    value: scope.activate_commands_per_second,
                },
            );
            updates.push(
                GaugeUpdate {
                    family: "ocellus_haswell_imc_frequency_hz",
                    labels,
                    value: scope.frequency_hz,
                },
            );
            updates.push(
                GaugeUpdate {
                    family: "ocellus_haswell_ha_local_read_bytes_per_second",
                    labels,
                    value: scope.ha_local_read_bytes_per_second,
                },
            );
            updates.push(
                GaugeUpdate {
                    family: "ocellus_haswell_ha_local_read_ratio",
                    labels,
                    value: scope.ha_local_read_ratio,
                },
            );
            updates.push(
                GaugeUpdate {
                    family: "ocellus_haswell_ha_local_write_bytes_per_second",
                    labels,
                    value: scope.ha_local_write_bytes_per_second,
                },
            );
            updates.push(
                GaugeUpdate {
                    family: "ocellus_haswell_ha_local_write_ratio",
                    labels,
                    value: scope.ha_local_write_ratio,
                },
            );
            updates.push(
                GaugeUpdate {
                    family: "ocellus_haswell_ha_remote_read_bytes_per_second",
                    labels,
                    value: scope.ha_remote_read_bytes_per_second,
                },
            );
            updates.push(
                GaugeUpdate {
                    family: "ocellus_haswell_ha_remote_write_bytes_per_second",
                    labels,
                    value: scope.ha_remote_write_bytes_per_second,
                },
            );
            updates.push(
                GaugeUpdate {
                    family: "ocellus_haswell_imc_page_miss_precharge_commands_per_second",
                    labels,
                    value: scope.page_miss_precharge_commands_per_second,
                },
            );
            updates.push(
                GaugeUpdate {
                    family: "ocellus_haswell_imc_read_cas_commands_per_second",
                    labels,
                    value: scope.read_cas_commands_per_second,
                },
            );
            updates.push(
                GaugeUpdate {
                    family: "ocellus_haswell_imc_read_bytes_per_second",
                    labels,
                    value: scope.read_bytes_per_second,
                },
            );
            updates.push(
                GaugeUpdate {
                    family: "ocellus_haswell_imc_rpq_non_empty_ratio",
                    labels,
                    value: scope.rpq_non_empty_ratio,
                },
            );
            updates.push(
                GaugeUpdate {
                    family: "ocellus_haswell_imc_write_cas_commands_per_second",
                    labels,
                    value: scope.write_cas_commands_per_second,
                },
            );
            updates.push(
                GaugeUpdate {
                    family: "ocellus_haswell_imc_write_bytes_per_second",
                    labels,
                    value: scope.write_bytes_per_second,
                },
            );
            updates.push(
                GaugeUpdate {
                    family: "ocellus_haswell_imc_wpq_full_ratio",
                    labels,
                    value: scope.wpq_full_ratio,
                },
            );
            updates.push(
                GaugeUpdate {
                    family: "ocellus_haswell_imc_wpq_non_empty_ratio",
                    labels,
                    value: scope.wpq_non_empty_ratio,
                },
            );
            proof {
                assert(updates@ =~= before + scope_updates(*scope));
                seqs::lemma_flat_map_step(metrics.scopes@, f, i as int);
            }
            i += 1;
        }
        proof {
            seqs::lemma_flat_map_ends(metrics.scopes@, f);
        }
        updates
    }
}

/// Every metric that is set belongs to a family that is registered.
pub proof fn updates_are_registered(metrics: HsxImcMetrics)
    ensures
        export::all_registered(all_updates(metrics), families()),
{
    let descriptors = families();
    let scopes = metrics.scopes@;
    let f = |metrics: HsxImcMetricsByScope| scope_updates(metrics);
    assert forall|k: int| 0 <= k < scopes.len() implies export::all_registered(
        f(#[trigger] scopes[k]),
        descriptors,
    ) by {
        let updates = f(scopes[k]);
        assert forall|i: int| 0 <= i < updates.len() implies export::is_registered(
            #[trigger] updates[i],
            descriptors,
        ) by {
            assert(descriptors[0].name == updates[0].family);
            assert(descriptors[1].name == updates[1].family);
            assert(descriptors[10].name == updates[2].family);
            assert(descriptors[11].name == updates[3].family);
            assert(descriptors[12].name == updates[4].family);
            assert(descriptors[13].name == updates[5].family);
            assert(descriptors[14].name == updates[6].family);
            assert(descriptors[15].name == updates[7].family);
            assert(descriptors[2].name == updates[8].family);
            assert(descriptors[3].name == updates[9].family);
            assert(descriptors[4].name == updates[10].family);
            assert(descriptors[5].name == updates[11].family);
            assert(descriptors[6].name == updates[12].family);
            assert(descriptors[7].name == updates[13].family);
            assert(descriptors[8].name == updates[14].family);
            assert(descriptors[9].name == updates[15].family);
        }
    }
    export::lemma_all_registered(scopes, f, descriptors);
}

/// A sample that ran all of its slices is reported: where every package with memory channels has
/// home agents, no event that a report needs is missing.
#[verifier::spinoff_prover]
pub proof fn complete_sample_is_reported(
    collector: HsxImcCollector,
    interval_nanos: u128,
    slices: Seq<Slice<HsxMeasurementGroup>>,
    readings: Seq<SliceReadings>,
    steps: Seq<HsxImcMeasurements>,
    result: Result<HsxImcMetrics, CollectorError>,
)
    requires
        collector.wf(),
        forall|scope: HsxUncoreScope| #[trigger]
            units::has_scope(collector.channels(), scope) ==> units::has_scope(
                collector.ha_units(),
                scope,
            ),
        schedule::is_schedule(
            slices,
            groups(),
            collector.next_group() as int,
            interval_nanos,
            HsxImcCollector::rounds(interval_nanos),
        ),
        steps.len() == slices.len() + 1,
        steps.last().wf(),
        steps[0].ha.grid() == Map::<
            HsxUncoreScope,
            Map<HsxHaEventKind, EventMeasurement>,
        >::empty(),
        steps[0].imc.grid() == Map::<
            HsxUncoreScope,
            Map<HsxImcEventKind, EventMeasurement>,
        >::empty(),
        forall|i: int|
            0 <= i < slices.len() ==> is_recorded(
                collector,
                (#[trigger] slices[i]).group,
                readings[i],
                steps[i],
                steps[i + 1],
            ),
        reported(steps.last(), result),
    ensures
        result is Ok,
{
    let last = steps.last();
    let ha_grids = steps.map_values(|step: HsxImcMeasurements| step.ha.grid());
    let imc_grids = steps.map_values(|step: HsxImcMeasurements| step.imc.grid());
    let ha_scopes = |scope: HsxUncoreScope| units::has_scope(collector.ha_units(), scope);
    let imc_scopes = |scope: HsxUncoreScope| units::has_scope(collector.channels(), scope);
    let ha_counted = |i: int, kind: HsxHaEventKind| counts_ha(slices[i].group, kind);
    let imc_counted = |i: int, kind: HsxImcEventKind| counts_imc(slices[i].group, kind);
    assert forall|i: int| 0 <= i < ha_grids.len() - 1 implies completeness::extends(
        #[trigger] ha_grids[i],
        ha_grids[i + 1],
        ha_scopes,
        |kind: HsxHaEventKind| ha_counted(i, kind),
    ) by {
        lemma_ha_extends(collector, slices[i].group, readings[i], steps[i], steps[i + 1]);
    }
    assert forall|i: int| 0 <= i < imc_grids.len() - 1 implies completeness::extends(
        #[trigger] imc_grids[i],
        imc_grids[i + 1],
        imc_scopes,
        |kind: HsxImcEventKind| imc_counted(i, kind),
    ) by {
        lemma_imc_extends(collector, slices[i].group, readings[i], steps[i], steps[i + 1]);
    }
    let ha_turn = turn_of(collector, interval_nanos, slices, 0);
    let busy_turn = turn_of(collector, interval_nanos, slices, 1);
    let queue_turn = turn_of(collector, interval_nanos, slices, 2);
    lemma_counted_kinds();
    assert forall|kind: HsxHaEventKind| #[trigger] ha_counted(ha_turn, kind) by {
    }
    assert forall|kind: HsxImcEventKind| #[trigger] imc_counted(busy_turn, kind) || imc_counted(
        queue_turn,
        kind,
    ) by {
    }
    assert forall|scope: HsxUncoreScope| #[trigger] imc_scopes(scope) implies ha_scopes(scope) by {
        assert(units::has_scope(collector.channels(), scope));
    }
    lemma_complete_courses_are_reported(
        last,
        ha_grids,
        imc_grids,
        ha_scopes,
        imc_scopes,
        ha_counted,
        imc_counted,
        ha_turn,
        busy_turn,
        queue_turn,
    );
}

proof fn lemma_ha_extends(
    collector: HsxImcCollector,
    group: HsxMeasurementGroup,
    readings: SliceReadings,
    before: HsxImcMeasurements,
    after: HsxImcMeasurements,
)
    requires
        is_recorded(collector, group, readings, before, after),
    ensures
        completeness::extends(
            before.ha.grid(),
            after.ha.grid(),
            |scope: HsxUncoreScope| units::has_scope(collector.ha_units(), scope),
            |kind: HsxHaEventKind| counts_ha(group, kind),
        ),
{
    match group {
        HsxMeasurementGroup::Ha(group) => {
            completeness::record_by_scope_extends(
                collector.ha_units(),
                readings,
                Clock::Absent,
                Tally::Counter,
                ha_uses(group),
                before.ha,
                after.ha,
            );
        },
        HsxMeasurementGroup::Imc(_) => {},
    }
}

proof fn lemma_imc_extends(
    collector: HsxImcCollector,
    group: HsxMeasurementGroup,
    readings: SliceReadings,
    before: HsxImcMeasurements,
    after: HsxImcMeasurements,
)
    requires
        is_recorded(collector, group, readings, before, after),
    ensures
        completeness::extends(
            before.imc.grid(),
            after.imc.grid(),
            |scope: HsxUncoreScope| units::has_scope(collector.channels(), scope),
            |kind: HsxImcEventKind| counts_imc(group, kind),
        ),
{
    match group {
        HsxMeasurementGroup::Ha(_) => {},
        HsxMeasurementGroup::Imc(group) => {
            completeness::record_by_scope_extends(
                collector.channels(),
                readings,
                Clock::Full,
                Tally::Counter,
                imc_uses(group),
                before.imc,
                after.imc,
            );
        },
    }
}

proof fn lemma_row_is_reported(
    ha: Grid<HsxUncoreScope, HsxHaEventKind, EventMeasurement>,
    scope: HsxUncoreScope,
    row: Map<HsxImcEventKind, EventMeasurement>,
)
    requires
        forall|kind: HsxHaEventKind| (#[trigger] units::cell(ha, scope, kind)) is Some,
        forall|kind: HsxImcEventKind| #[trigger] row.contains_key(kind),
    ensures
        scope_report(scope, ha, row) is Ok,
{
    assert(units::cell(ha, scope, HsxHaEventKind::LocalRead) is Some);
    assert forall|j: int| 0 <= j < ha_required().len() implies ha[scope].contains_key(
        #[trigger] ha_required()[j],
    ) by {
        assert(units::cell(ha, scope, ha_required()[j]) is Some);
    }
    completeness::lemma_nothing_missing(ha[scope], ha_required(), ha_required().len());
    completeness::lemma_nothing_missing(row, imc_required(), imc_required().len());
}

proof fn lemma_complete_courses_are_reported(
    last: HsxImcMeasurements,
    ha_grids: Seq<Grid<HsxUncoreScope, HsxHaEventKind, EventMeasurement>>,
    imc_grids: Seq<Grid<HsxUncoreScope, HsxImcEventKind, EventMeasurement>>,
    ha_scopes: spec_fn(HsxUncoreScope) -> bool,
    imc_scopes: spec_fn(HsxUncoreScope) -> bool,
    ha_counted: spec_fn(int, HsxHaEventKind) -> bool,
    imc_counted: spec_fn(int, HsxImcEventKind) -> bool,
    ha_turn: int,
    busy_turn: int,
    queue_turn: int,
)
    requires
        last.wf(),
        completeness::is_course(ha_grids, ha_scopes, ha_counted),
        completeness::is_course(imc_grids, imc_scopes, imc_counted),
        ha_grids.len() == imc_grids.len(),
        ha_grids.last() == last.ha.grid(),
        imc_grids.last() == last.imc.grid(),
        0 <= ha_turn < ha_grids.len() - 1,
        0 <= busy_turn < imc_grids.len() - 1,
        0 <= queue_turn < imc_grids.len() - 1,
        forall|kind: HsxHaEventKind| #[trigger] ha_counted(ha_turn, kind),
        forall|kind: HsxImcEventKind| #[trigger]
            imc_counted(busy_turn, kind) || imc_counted(queue_turn, kind),
        forall|scope: HsxUncoreScope| #[trigger] imc_scopes(scope) ==> ha_scopes(scope),
    ensures
        all_reports(last.ha.grid(), last.imc.rows()) is Ok,
{
    let n = imc_grids.len() - 1;
    let ha = last.ha.grid();
    let imc = last.imc.grid();
    let rows = last.imc.rows();
    assert forall|r: int| 0 <= r < rows.len() implies scope_report(
        (#[trigger] rows[r]).0,
        ha,
        rows[r].1,
    ) is Ok by {
        ordered_map::lemma_entry_at(rows, r);
        let scope = rows[r].0;
        let some_kind = choose|kind: HsxImcEventKind| #[trigger] imc[scope].contains_key(kind);
        completeness::course_holds_what_was_counted(
            imc_grids,
            imc_scopes,
            imc_counted,
            n,
            scope,
            some_kind,
        );
        assert(units::cell(imc, scope, some_kind) is Some);
        assert(imc_scopes(scope));
        assert forall|kind: HsxHaEventKind| (#[trigger] units::cell(ha, scope, kind)) is Some by {
            completeness::course_holds_what_was_counted(
                ha_grids,
                ha_scopes,
                ha_counted,
                n,
                scope,
                kind,
            );
            assert(ha_counted(ha_turn, kind));
        }
        assert forall|kind: HsxImcEventKind| #[trigger] imc[scope].contains_key(kind) by {
            completeness::course_holds_what_was_counted(
                imc_grids,
                imc_scopes,
                imc_counted,
                n,
                scope,
                kind,
            );
            assert(imc_counted(busy_turn, kind) || imc_counted(queue_turn, kind));
            assert(units::cell(imc, scope, kind) is Some);
        }
        lemma_row_is_reported(ha, scope, rows[r].1);
    }
    lemma_all_reported(ha, rows);
}

/// Whether a group counts an event of the home agents.
pub open spec fn counts_ha(group: HsxMeasurementGroup, kind: HsxHaEventKind) -> bool {
    match group {
        HsxMeasurementGroup::Ha(group) => units::has_kind(ha_uses(group), kind),
        HsxMeasurementGroup::Imc(_) => false,
    }
}

/// Whether a group counts an event of the memory channels.
pub open spec fn counts_imc(group: HsxMeasurementGroup, kind: HsxImcEventKind) -> bool {
    match group {
        HsxMeasurementGroup::Ha(_) => false,
        HsxMeasurementGroup::Imc(group) => units::has_kind(imc_uses(group), kind),
    }
}

/// Whether `after` is what `before` becomes when the readings of a slice are added.
pub open spec fn is_recorded(
    collector: HsxImcCollector,
    group: HsxMeasurementGroup,
    readings: SliceReadings,
    before: HsxImcMeasurements,
    after: HsxImcMeasurements,
) -> bool {
    match group {
        HsxMeasurementGroup::Ha(group) => after.imc == before.imc && units::is_record_by_scope(
            collector.ha_units(),
            readings,
            Clock::Absent,
            Tally::Counter,
            ha_uses(group),
            before.ha,
            Ok::<
                Accumulator<HsxUncoreScope, HsxHaEventKind, EventMeasurement>,
                CollectorError,
            >(after.ha),
        ),
        HsxMeasurementGroup::Imc(group) => after.ha == before.ha && units::is_record_by_scope(
            collector.channels(),
            readings,
            Clock::Full,
            Tally::Counter,
            imc_uses(group),
            before.imc,
            Ok::<
                Accumulator<HsxUncoreScope, HsxImcEventKind, EventMeasurement>,
                CollectorError,
            >(after.imc),
        ),
    }
}

proof fn turn_of(
    collector: HsxImcCollector,
    interval_nanos: u128,
    slices: Seq<Slice<HsxMeasurementGroup>>,
    group: int,
) -> (turn: int)
    requires
        collector.wf(),
        schedule::is_schedule(
            slices,
            groups(),
            collector.next_group() as int,
            interval_nanos,
            HsxImcCollector::rounds(interval_nanos),
        ),
        0 <= group < groups().len(),
    ensures
        0 <= turn < slices.len(),
        slices[turn].group == groups()[group],
{
    schedule::rounds_are_positive(interval_nanos as nat, groups().len());
    completeness::schedule_runs_group(
        slices,
        groups(),
        collector.next_group() as int,
        interval_nanos,
        HsxImcCollector::rounds(interval_nanos),
        group,
    )
}

proof fn lemma_counted_kinds()
    ensures
        forall|kind: HsxHaEventKind| #[trigger] counts_ha(groups()[0], kind),
        forall|kind: HsxImcEventKind| #[trigger]
            counts_imc(groups()[1], kind) || counts_imc(groups()[2], kind),
{
    assert forall|kind: HsxHaEventKind| #[trigger] counts_ha(groups()[0], kind) by {
        let uses = ha_uses(groups()[0]->Ha_0);
        let j: int = match kind {
            HsxHaEventKind::LocalRead => 0,
            HsxHaEventKind::RemoteRead => 1,
            HsxHaEventKind::LocalWrite => 2,
            HsxHaEventKind::RemoteWrite => 3,
        };
        assert(uses[j].kind == Some(kind));
    }
    assert forall|kind: HsxImcEventKind| #[trigger]
        counts_imc(groups()[1], kind) || counts_imc(groups()[2], kind) by {
        let busy = imc_uses(groups()[1]->Imc_0);
        let queues = imc_uses(groups()[2]->Imc_0);
        match kind {
            HsxImcEventKind::ReadCas => assert(busy[0].kind == Some(kind)),
            HsxImcEventKind::WriteCas => assert(busy[1].kind == Some(kind)),
            HsxImcEventKind::Activate => assert(busy[2].kind == Some(kind)),
            HsxImcEventKind::PageMissPrecharge => assert(busy[3].kind == Some(kind)),
            HsxImcEventKind::RpqNonEmpty => assert(queues[0].kind == Some(kind)),
            HsxImcEventKind::WpqNonEmpty => assert(queues[1].kind == Some(kind)),
            HsxImcEventKind::WpqFull => assert(queues[2].kind == Some(kind)),
        }
    }
}

proof fn lemma_all_reported(
    ha: Grid<HsxUncoreScope, HsxHaEventKind, EventMeasurement>,
    rows: Seq<(HsxUncoreScope, Map<HsxImcEventKind, EventMeasurement>)>,
)
    requires
        forall|r: int|
            0 <= r < rows.len() ==> scope_report((#[trigger] rows[r]).0, ha, rows[r].1) is Ok,
    ensures
        all_reports(ha, rows) is Ok,
    decreases rows.len(),
{
    if rows.len() > 0 {
        let front = rows.drop_last();
        assert forall|r: int| 0 <= r < front.len() implies scope_report(
            (#[trigger] front[r]).0,
            ha,
            front[r].1,
        ) is Ok by {
            assert(front[r] == rows[r]);
        }
        lemma_all_reported(ha, front);
        assert(scope_report(rows[rows.len() - 1].0, ha, rows[rows.len() - 1].1) is Ok);
    }
}

} // verus!
