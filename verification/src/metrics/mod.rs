//! What is collected, reported and exported.

pub mod imc;
pub mod info;
pub mod interconnect;
pub mod irp;
pub mod pcu;
pub mod rapl;

use crate::arch;
use crate::export::{self, CounterUpdate, GaugeUpdate, MetricDescriptor, RegistryUpdates};
use vstd::prelude::*;

verus! {

/// The version of the exporter.
pub const VERSION: &'static str = "0.1.0";

/// The latest report of each collector. `Cha`, `Iio` and `Tsc` are what the collectors of the
/// caching agents, of the I/O stacks and of the time stamp counter report.
#[derive(Debug)]
pub struct MetricsState<Cha, Iio, Tsc> {
    pub cha: Option<Cha>,
    pub iio: Option<Iio>,
    pub imc: Option<imc::ImcMetrics>,
    pub interconnect: Option<interconnect::InterconnectMetrics>,
    pub irp: Option<irp::IrpMetrics>,
    pub pcu: Option<pcu::PcuMetrics>,
    pub rapl: Option<rapl::RaplMetrics>,
    pub tsc: Option<Tsc>,
    pub version: String,
}

/// The state after a report came in: it takes the place of the last report of its collector.
pub open spec fn applied<Cha, Iio, Tsc>(
    state: MetricsState<Cha, Iio, Tsc>,
    update: MetricUpdate<Cha, Iio, Tsc>,
) -> MetricsState<Cha, Iio, Tsc> {
    match update {
        MetricUpdate::Cha(cha) => MetricsState { cha: Some(*cha), ..state },
        MetricUpdate::Iio(iio) => MetricsState { iio: Some(*iio), ..state },
        MetricUpdate::Imc(imc) => MetricsState { imc: Some(*imc), ..state },
        MetricUpdate::Interconnect(interconnect) => MetricsState {
            interconnect: Some(*interconnect),
            ..state
        },
        MetricUpdate::Irp(irp) => MetricsState { irp: Some(*irp), ..state },
        MetricUpdate::Pcu(pcu) => MetricsState { pcu: Some(*pcu), ..state },
        MetricUpdate::Rapl(rapl) => MetricsState { rapl: Some(*rapl), ..state },
        MetricUpdate::Tsc(tsc) => MetricsState { tsc: Some(*tsc), ..state },
    }
}

/// Whether a state holds no report.
pub open spec fn is_blank<Cha, Iio, Tsc>(state: MetricsState<Cha, Iio, Tsc>) -> bool {
    &&& state.cha is None
    &&& state.iio is None
    &&& state.imc is None
    &&& state.interconnect is None
    &&& state.irp is None
    &&& state.pcu is None
    &&& state.rapl is None
    &&& state.tsc is None
}

impl<Cha, Iio, Tsc> MetricsState<Cha, Iio, Tsc> {
    /// Takes in a report.
    pub fn apply(&mut self, update: MetricUpdate<Cha, Iio, Tsc>)
        ensures
            *final(self) == applied(*old(self), update),
    {
        match update {
            MetricUpdate::Cha(cha) => {
                self.cha = Some(*cha);
            },
            MetricUpdate::Iio(iio) => {
                self.iio = Some(*iio);
            },
            MetricUpdate::Imc(imc) => {
                self.imc = Some(*imc);
            },
            MetricUpdate::Interconnect(interconnect) => {
                self.interconnect = Some(*interconnect);
            },
            MetricUpdate::Irp(irp) => {
                self.irp = Some(*irp);
            },
            MetricUpdate::Pcu(pcu) => {
                self.pcu = Some(*pcu);
            },
            MetricUpdate::Rapl(rapl) => {
                self.rapl = Some(*rapl);
            },
            MetricUpdate::Tsc(tsc) => {
                self.tsc = Some(*tsc);
            },
        }
    }
}

impl<Cha, Iio, Tsc> Default for MetricsState<Cha, Iio, Tsc> {
    /// A state without reports.
    fn default() -> (state: Self)
        ensures
            is_blank(state),
            state.version@ == VERSION@,
    {
        MetricsState {
            cha: None,
            iio: None,
            imc: None,
            interconnect: None,
            irp: None,
            pcu: None,
            rapl: None,
            tsc: None,
            version: VERSION.to_owned(),
        }
    }
}

/// Which collectors the processor has.
#[derive(Clone, Debug)]
pub struct CollectorMetadata {
    pub cha_supported: bool,
    pub iio_supported: bool,
    pub imc_supported: bool,
    pub irp_supported: bool,
    pub pcu_supported: bool,
}

/// What does not change while the exporter runs.
#[derive(Clone, Debug)]
pub struct InfoMetadata {
    pub collectors: CollectorMetadata,
    pub processor: ProcessorMetadata,
}

/// The processor that the exporter runs on, and what it can do.
#[derive(Clone, Debug)]
pub struct ProcessorMetadata {
    pub brand: String,
    pub family: u8,
    pub invariant_tsc_supported: bool,
    pub model: u8,
    pub package_rapl_supported: bool,
    pub vendor: String,
}

/// What a collector hands on: a report, or why it stopped.
#[derive(Debug)]
pub enum MetricEvent<Cha, Iio, Tsc> {
    Failure(String),
    Update(Box<MetricUpdate<Cha, Iio, Tsc>>),
}

/// A report of a collector.
#[derive(Debug)]
pub enum MetricUpdate<Cha, Iio, Tsc> {
    Cha(Box<Cha>),
    Iio(Box<Iio>),
    Imc(Box<imc::ImcMetrics>),
    Interconnect(Box<interconnect::InterconnectMetrics>),
    Irp(Box<irp::IrpMetrics>),
    Pcu(Box<pcu::PcuMetrics>),
    Rapl(Box<rapl::RaplMetrics>),
    Tsc(Box<Tsc>),
}

/// What a report changes in the registry. The reports of the caching agents, of the I/O stacks and
/// of the time stamp counter are handed on to their own metrics.
#[derive(Debug)]
pub enum RegistryOutcome<Cha, Iio, Tsc> {
    Cha(Cha),
    Iio(Iio),
    Values(RegistryUpdates),
    Tsc(Tsc),
}

/// Which metric families are registered.
#[derive(Clone, Copy, Debug)]
pub struct MetricsRegistry {
    cha: bool,
    iio: bool,
    imc: Option<imc::ImcPrometheusMetrics>,
    interconnect: Option<interconnect::InterconnectPrometheusMetrics>,
    irp: Option<irp::IrpPrometheusMetrics>,
    pcu: Option<pcu::PcuPrometheusMetrics>,
    rapl: Option<rapl::RaplPrometheusMetrics>,
}

/// Whether the collector of a report has registered its families.
pub open spec fn is_expected<Cha, Iio, Tsc>(
    registry: MetricsRegistry,
    update: MetricUpdate<Cha, Iio, Tsc>,
) -> bool {
    match update {
        MetricUpdate::Cha(_) => registry.has_cha(),
        MetricUpdate::Iio(_) => registry.has_iio(),
        MetricUpdate::Imc(_) => registry.imc() is Some,
        MetricUpdate::Interconnect(_) => registry.interconnect() is Some,
        MetricUpdate::Irp(_) => registry.irp() is Some,
        MetricUpdate::Pcu(_) => registry.pcu() is Some,
        MetricUpdate::Rapl(_) => registry.rapl() is Some,
        MetricUpdate::Tsc(_) => true,
    }
}

/// Whether the families that are registered are those of the processor that a report is on.
pub open spec fn is_accepted<Cha, Iio, Tsc>(
    registry: MetricsRegistry,
    update: MetricUpdate<Cha, Iio, Tsc>,
) -> bool {
    match update {
        MetricUpdate::Imc(metrics) => registry.imc() matches Some(families) && imc::same_family(
            families,
            *metrics,
        ),
        MetricUpdate::Interconnect(metrics) => registry.interconnect() matches Some(families)
            && interconnect::same_family(families, *metrics),
        MetricUpdate::Irp(metrics) => registry.irp() matches Some(families) && irp::same_family(
            families,
            *metrics,
        ),
        MetricUpdate::Pcu(metrics) => registry.pcu() matches Some(families) && pcu::same_family(
            families,
            *metrics,
        ),
        _ => is_expected(registry, update),
    }
}

/// Whether `outcome` sets the given gauges and raises no counter.
pub open spec fn sets<Cha, Iio, Tsc>(
    outcome: RegistryOutcome<Cha, Iio, Tsc>,
    gauges: Seq<GaugeUpdate>,
) -> bool {
    outcome matches RegistryOutcome::Values(updates) && updates.counters@.len() == 0
        && updates.gauges@ == gauges
}

/// Whether `outcome` is what a report changes in the registry.
pub open spec fn is_outcome<Cha, Iio, Tsc>(
    registry: MetricsRegistry,
    update: MetricUpdate<Cha, Iio, Tsc>,
    outcome: RegistryOutcome<Cha, Iio, Tsc>,
) -> bool {
    match update {
        MetricUpdate::Cha(cha) => outcome == RegistryOutcome::<Cha, Iio, Tsc>::Cha(*cha),
        MetricUpdate::Iio(iio) => outcome == RegistryOutcome::<Cha, Iio, Tsc>::Iio(*iio),
        MetricUpdate::Imc(imc) => sets(outcome, imc::all_updates(registry.imc()->0, *imc)),
        MetricUpdate::Interconnect(interconnect) => sets(
            outcome,
            interconnect::all_updates(registry.interconnect()->0, *interconnect),
        ),
        MetricUpdate::Irp(irp) => sets(outcome, irp::all_updates(registry.irp()->0, *irp)),
        MetricUpdate::Pcu(pcu) => sets(outcome, pcu::all_updates(registry.pcu()->0, *pcu)),
        MetricUpdate::Rapl(rapl) => outcome matches RegistryOutcome::Values(updates)
            && rapl::are_updates(*rapl, updates),
        MetricUpdate::Tsc(tsc) => outcome == RegistryOutcome::<Cha, Iio, Tsc>::Tsc(*tsc),
    }
}

/// The families of the collectors of a registry, in this order: memory controllers, links, I/O
/// ring ports, power control units and energy counters.
pub open spec fn registry_families(registry: MetricsRegistry) -> Seq<MetricDescriptor> {
    (match registry.imc() {
        Some(imc) => imc::families(imc),
        None => Seq::empty(),
    }) + (match registry.interconnect() {
        Some(_) => interconnect::families(),
        None => Seq::empty(),
    }) + (match registry.irp() {
        Some(irp) => irp::families(irp),
        None => Seq::empty(),
    }) + (match registry.pcu() {
        Some(pcu) => pcu::families(pcu),
        None => Seq::empty(),
    }) + (match registry.rapl() {
        Some(_) => rapl::families(),
        None => Seq::empty(),
    })
}

/// One report, or none.
pub open spec fn present<U>(update: Option<U>) -> Seq<U> {
    match update {
        Some(update) => seq![update],
        None => Seq::empty(),
    }
}

fn push_present<U>(list: &mut Vec<U>, update: Option<U>)
    ensures
        final(list)@ == old(list)@ + present(update),
{
    match update {
        Some(update) => {
            list.push(update);
        },
        None => {},
    }
    assert(list@ =~= old(list)@ + present(update));
}

/// The reports that a state holds.
pub open spec fn state_updates<Cha, Iio, Tsc>(state: MetricsState<Cha, Iio, Tsc>) -> Seq<
    MetricUpdate<Cha, Iio, Tsc>,
> {
    present(
        match state.cha {
            Some(cha) => Some(MetricUpdate::Cha(Box::new(cha))),
            None => None,
        },
    ) + present(
        match state.iio {
            Some(iio) => Some(MetricUpdate::Iio(Box::new(iio))),
            None => None,
        },
    ) + present(
        match state.imc {
            Some(imc) => Some(MetricUpdate::Imc(Box::new(imc))),
            None => None,
        },
    ) + present(
        match state.interconnect {
            Some(interconnect) => Some(MetricUpdate::Interconnect(Box::new(interconnect))),
            None => None,
        },
    ) + present(
        match state.irp {
            Some(irp) => Some(MetricUpdate::Irp(Box::new(irp))),
            None => None,
        },
    ) + present(
        match state.pcu {
            Some(pcu) => Some(MetricUpdate::Pcu(Box::new(pcu))),
            None => None,
        },
    ) + present(
        match state.rapl {
            Some(rapl) => Some(MetricUpdate::Rapl(Box::new(rapl))),
            None => None,
        },
    ) + present(
        match state.tsc {
            Some(tsc) => Some(MetricUpdate::Tsc(Box::new(tsc))),
            None => None,
        },
    )
}

/// Whether the collectors of all reports in a state have registered their families.
pub open spec fn all_expected<Cha, Iio, Tsc>(
    registry: MetricsRegistry,
    state: MetricsState<Cha, Iio, Tsc>,
) -> bool {
    &&& state.cha is Some ==> registry.has_cha()
    &&& state.iio is Some ==> registry.has_iio()
    &&& state.imc is Some ==> registry.imc() is Some
    &&& state.interconnect is Some ==> registry.interconnect() is Some
    &&& state.irp is Some ==> registry.irp() is Some
    &&& state.pcu is Some ==> registry.pcu() is Some
    &&& state.rapl is Some ==> registry.rapl() is Some
}

/// Whether the collectors of all reports in a list have registered their families.
spec fn every_expected<Cha, Iio, Tsc>(
    registry: MetricsRegistry,
    updates: Seq<MetricUpdate<Cha, Iio, Tsc>>,
) -> bool {
    forall|i: int| 0 <= i < updates.len() ==> is_expected(registry, #[trigger] updates[i])
}

proof fn lemma_expected_together<Cha, Iio, Tsc>(
    registry: MetricsRegistry,
    first: Seq<MetricUpdate<Cha, Iio, Tsc>>,
    second: Seq<MetricUpdate<Cha, Iio, Tsc>>,
)
    requires
        every_expected(registry, first),
        every_expected(registry, second),
    ensures
        every_expected(registry, first + second),
{
}

proof fn lemma_state_expected<Cha, Iio, Tsc>(
    registry: MetricsRegistry,
    state: MetricsState<Cha, Iio, Tsc>,
)
    requires
        all_expected(registry, state),
    ensures
        every_expected(registry, state_updates(state)),
{
    let cha: Seq<MetricUpdate<Cha, Iio, Tsc>> = present(
        match state.cha {
            Some(cha) => Some(MetricUpdate::Cha(Box::new(cha))),
            None => None,
        },
    );
    assert(every_expected(registry, cha));
    let iio: Seq<MetricUpdate<Cha, Iio, Tsc>> = present(
        match state.iio {
            Some(iio) => Some(MetricUpdate::Iio(Box::new(iio))),
            None => None,
        },
    );
    assert(every_expected(registry, iio));
    let imc: Seq<MetricUpdate<Cha, Iio, Tsc>> = present(
        match state.imc {
            Some(imc) => Some(MetricUpdate::Imc(Box::new(imc))),
            None => None,
        },
    );
    assert(every_expected(registry, imc));
    let interconnect: Seq<MetricUpdate<Cha, Iio, Tsc>> = present(
        match state.interconnect {
            Some(interconnect) => Some(MetricUpdate::Interconnect(Box::new(interconnect))),
            None => None,
        },
    );
    assert(every_expected(registry, interconnect));
    let irp: Seq<MetricUpdate<Cha, Iio, Tsc>> = present(
        match state.irp {
            Some(irp) => Some(MetricUpdate::Irp(Box::new(irp))),
            None => None,
        },
    );
    assert(every_expected(registry, irp));
    let pcu: Seq<MetricUpdate<Cha, Iio, Tsc>> = present(
        match state.pcu {
            Some(pcu) => Some(MetricUpdate::Pcu(Box::new(pcu))),
            None => None,
        },
    );
    assert(every_expected(registry, pcu));
    let rapl: Seq<MetricUpdate<Cha, Iio, Tsc>> = present(
        match state.rapl {
            Some(rapl) => Some(MetricUpdate::Rapl(Box::new(rapl))),
            None => None,
        },
    );
    assert(every_expected(registry, rapl));
    let tsc: Seq<MetricUpdate<Cha, Iio, Tsc>> = present(
        match state.tsc {
            Some(tsc) => Some(MetricUpdate::Tsc(Box::new(tsc))),
            None => None,
        },
    );
    assert(every_expected(registry, tsc));
    lemma_expected_together(registry, cha, iio);
    lemma_expected_together(registry, cha + iio, imc);
    lemma_expected_together(registry, cha + iio + imc, interconnect);
    lemma_expected_together(registry, cha + iio + imc + interconnect, irp);
    lemma_expected_together(registry, cha + iio + imc + interconnect + irp, pcu);
    lemma_expected_together(registry, cha + iio + imc + interconnect + irp + pcu, rapl);
    lemma_expected_together(registry, cha + iio + imc + interconnect + irp + pcu + rapl, tsc);
}

impl MetricsRegistry {
    /// Whether the families of the caching agents are registered.
    pub closed spec fn has_cha(self) -> bool {
        self.cha
    }

    /// Whether the families of the I/O stacks are registered.
    pub closed spec fn has_iio(self) -> bool {
        self.iio
    }

    /// The families of the memory controllers.
    pub closed spec fn imc(self) -> Option<imc::ImcPrometheusMetrics> {
        self.imc
    }

    /// The families of the links.
    pub closed spec fn interconnect(self) -> Option<interconnect::InterconnectPrometheusMetrics> {
        self.interconnect
    }

    /// The families of the I/O ring ports.
    pub closed spec fn irp(self) -> Option<irp::IrpPrometheusMetrics> {
        self.irp
    }

    /// The families of the power control units.
    pub closed spec fn pcu(self) -> Option<pcu::PcuPrometheusMetrics> {
        self.pcu
    }

    /// The families of the energy counters.
    pub closed spec fn rapl(self) -> Option<rapl::RaplPrometheusMetrics> {
        self.rapl
    }

    /// Registers the families of the collectors that the processor has. `cha` and `iio` say
    /// whether those of the caching agents and of the I/O stacks are registered; those of the
    /// energy counters are where the processor has them.
    pub fn register(metadata: &InfoMetadata, cha: bool, iio: bool) -> (registry: Self)
        ensures
            registry.has_cha() == cha,
            registry.has_iio() == iio,
            registry.imc() == imc::registered(
                arch::model_of(metadata.processor.family, metadata.processor.model),
            ),
            registry.interconnect() == interconnect::registered(
                arch::model_of(metadata.processor.family, metadata.processor.model),
            ),
            registry.irp() == irp::registered(
                arch::model_of(metadata.processor.family, metadata.processor.model),
            ),
            registry.pcu() == pcu::registered(
                arch::model_of(metadata.processor.family, metadata.processor.model),
            ),
            registry.rapl() == if metadata.processor.package_rapl_supported {
                Some(rapl::RaplPrometheusMetrics)
            } else {
                None
            },
    {
        let rapl: Option<rapl::RaplPrometheusMetrics> = if metadata.processor.package_rapl_supported {
            Some(rapl::RaplPrometheusMetrics)
        } else {
            None
        };
        MetricsRegistry {
            cha,
            iio,
            imc: imc::ImcPrometheusMetrics::register(metadata),
            interconnect: interconnect::InterconnectPrometheusMetrics::register(metadata),
            irp: irp::IrpPrometheusMetrics::register(metadata),
            pcu: pcu::PcuPrometheusMetrics::register(metadata),
            rapl,
        }
    }

    /// The families to be registered.
    pub fn descriptors(&self) -> (families: Vec<MetricDescriptor>)
        ensures
            families@ == registry_families(*self),
    {
        let mut families: Vec<MetricDescriptor> = Vec::new();
        match &self.imc {
            Some(imc) => {
                families.append(&mut imc.descriptors());
            },
            None => {},
        }
        match &self.interconnect {
            Some(interconnect) => {
                families.append(&mut interconnect.descriptors());
            },
            None => {},
        }
        match &self.irp {
            Some(irp) => {
                families.append(&mut irp.descriptors());
            },
            None => {},
        }
        match &self.pcu {
            Some(pcu) => {
                families.append(&mut pcu.descriptors());
            },
            None => {},
        }
        match &self.rapl {
            Some(_) => {
                families.append(&mut rapl::RaplPrometheusMetrics::register());
            },
            None => {},
        }
        assert(families@ =~= registry_families(*self));
        families
    }

    /// Whether the collector of a report has registered its families.
    pub fn expects<Cha, Iio, Tsc>(&self, update: &MetricUpdate<Cha, Iio, Tsc>) -> (expected: bool)
        ensures
            expected == is_expected(*self, *update),
    {
        match update {
            MetricUpdate::Cha(_) => self.cha,
            MetricUpdate::Iio(_) => self.iio,
            MetricUpdate::Imc(_) => self.imc.is_some(),
            MetricUpdate::Interconnect(_) => self.interconnect.is_some(),
            MetricUpdate::Irp(_) => self.irp.is_some(),
            MetricUpdate::Pcu(_) => self.pcu.is_some(),
            MetricUpdate::Rapl(_) => self.rapl.is_some(),
            MetricUpdate::Tsc(_) => true,
        }
    }

    /// Whether the families that are registered are those of the processor that a report is on.
    pub fn accepts<Cha, Iio, Tsc>(&self, update: &MetricUpdate<Cha, Iio, Tsc>) -> (accepted: bool)
        ensures
            accepted == is_accepted(*self, *update),
    {
        match update {
            MetricUpdate::Imc(imc) => match self.imc {
                Some(families) => families.accepts(&**imc),
                None => false,
            },
            MetricUpdate::Interconnect(interconnect) => match self.interconnect {
                Some(families) => families.accepts(&**interconnect),
                None => false,
            },
            MetricUpdate::Irp(irp) => match self.irp {
                Some(families) => families.accepts(&**irp),
                None => false,
            },
            MetricUpdate::Pcu(pcu) => match self.pcu {
                Some(families) => families.accepts(&**pcu),
                None => false,
            },
            MetricUpdate::Cha(_) | MetricUpdate::Iio(_) | MetricUpdate::Rapl(_)
            | MetricUpdate::Tsc(_) => self.expects(update),
        }
    }

    /// What a report changes in the registry.
    pub fn update<Cha, Iio, Tsc>(&self, update: MetricUpdate<Cha, Iio, Tsc>) -> (outcome:
        RegistryOutcome<Cha, Iio, Tsc>)
        requires
            is_expected(*self, update),
        ensures
            is_outcome(*self, update, outcome),
    {
        match update {
            MetricUpdate::Cha(cha) => RegistryOutcome::Cha(*cha),
            MetricUpdate::Iio(iio) => RegistryOutcome::Iio(*iio),
            MetricUpdate::Imc(imc) => {
                let gauges: Vec<GaugeUpdate> = self.imc.unwrap().update(&*imc);
                RegistryOutcome::Values(RegistryUpdates { counters: Vec::new(), gauges })
            },
            MetricUpdate::Interconnect(interconnect) => {
                let gauges: Vec<GaugeUpdate> = self.interconnect.unwrap().update(*interconnect);
                RegistryOutcome::Values(RegistryUpdates { counters: Vec::new(), gauges })
            },
            MetricUpdate::Irp(irp) => {
                let gauges: Vec<GaugeUpdate> = self.irp.unwrap().update(&*irp);
                RegistryOutcome::Values(RegistryUpdates { counters: Vec::new(), gauges })
            },
            MetricUpdate::Pcu(pcu) => {
                let gauges: Vec<GaugeUpdate> = self.pcu.unwrap().update(&*pcu);
                RegistryOutcome::Values(RegistryUpdates { counters: Vec::new(), gauges })
            },
            MetricUpdate::Rapl(rapl) => RegistryOutcome::Values(self.rapl.unwrap().update(&*rapl)),
            MetricUpdate::Tsc(tsc) => RegistryOutcome::Tsc(*tsc),
        }
    }

    /// Whether the collectors of all reports in a state have registered their families.
    pub fn expects_state<Cha, Iio, Tsc>(&self, state: &MetricsState<Cha, Iio, Tsc>) -> (expected:
        bool)
        ensures
            expected == all_expected(*self, *state),
    {
        (state.cha.is_none() || self.cha)
            && (state.iio.is_none() || self.iio)
            && (state.imc.is_none() || self.imc.is_some())
            && (state.interconnect.is_none() || self.interconnect.is_some())
            && (state.irp.is_none() || self.irp.is_some())
            && (state.pcu.is_none() || self.pcu.is_some())
            && (state.rapl.is_none() || self.rapl.is_some())
    }

    /// What the reports of a state change in the registry.
    pub fn update_state<Cha, Iio, Tsc>(&self, state: MetricsState<Cha, Iio, Tsc>) -> (outcomes: Vec<
        RegistryOutcome<Cha, Iio, Tsc>,
    >)
        requires
            all_expected(*self, state),
        ensures
            outcomes@.len() == state_updates(state).len(),
            forall|i: int|
                0 <= i < outcomes@.len() ==> is_outcome(
                    *self,
                    state_updates(state)[i],
                    #[trigger] outcomes@[i],
                ),
    {
        let ghost all = state_updates(state);
        proof {
            lemma_state_expected(*self, state);
        }
        let mut updates: Vec<MetricUpdate<Cha, Iio, Tsc>> = Vec::new();
        push_present(
            &mut updates,
            match state.cha {
                Some(cha) => Some(MetricUpdate::Cha(Box::new(cha))),
                None => None,
            },
        );
        push_present(
            &mut updates,
            match state.iio {
                Some(iio) => Some(MetricUpdate::Iio(Box::new(iio))),
                None => None,
            },
        );
        push_present(
            &mut updates,
            match state.imc {
                Some(imc) => Some(MetricUpdate::Imc(Box::new(imc))),
                None => None,
            },
        );
        push_present(
            &mut updates,
            match state.interconnect {
                Some(interconnect) => Some(MetricUpdate::Interconnect(Box::new(interconnect))),
                None => None,
            },
        );
        push_present(
            &mut updates,
            match state.irp {
                Some(irp) => Some(MetricUpdate::Irp(Box::new(irp))),
                None => None,
            },
        );
        push_present(
            &mut updates,
            match state.pcu {
                Some(pcu) => Some(MetricUpdate::Pcu(Box::new(pcu))),
                None => None,
            },
        );
        push_present(
            &mut updates,
            match state.rapl {
                Some(rapl) => Some(MetricUpdate::Rapl(Box::new(rapl))),
                None => None,
            },
        );
        push_present(
            &mut updates,
            match state.tsc {
                Some(tsc) => Some(MetricUpdate::Tsc(Box::new(tsc))),
                None => None,
            },
        );
        assert(updates@ =~= all);
        let mut outcomes: Vec<RegistryOutcome<Cha, Iio, Tsc>> = Vec::new();
        let ghost count = all.len();
        while updates.len() > 0
            invariant
                count == all.len(),
                updates@.len() + outcomes@.len() == count,
                updates@ == all.skip(outcomes@.len() as int),
                forall|i: int|
                    0 <= i < count ==> is_expected(*self, #[trigger] all[i]),
                forall|i: int|
                    0 <= i < outcomes@.len() ==> is_outcome(*self, all[i], #[trigger] outcomes@[i]),
            decreases updates@.len(),
        {
            assert(updates@[0] == all[outcomes@.len() as int]);
            let update = updates.remove(0);
            outcomes.push(self.update(update));
            assert(updates@ =~= all.skip(outcomes@.len() as int));
        }
        outcomes
    }
}

/// Whether a state holds a report.
pub open spec fn holds<Cha, Iio, Tsc>(
    state: MetricsState<Cha, Iio, Tsc>,
    update: MetricUpdate<Cha, Iio, Tsc>,
) -> bool {
    match update {
        MetricUpdate::Cha(cha) => state.cha == Some(*cha),
        MetricUpdate::Iio(iio) => state.iio == Some(*iio),
        MetricUpdate::Imc(imc) => state.imc == Some(*imc),
        MetricUpdate::Interconnect(interconnect) => state.interconnect == Some(*interconnect),
        MetricUpdate::Irp(irp) => state.irp == Some(*irp),
        MetricUpdate::Pcu(pcu) => state.pcu == Some(*pcu),
        MetricUpdate::Rapl(rapl) => state.rapl == Some(*rapl),
        MetricUpdate::Tsc(tsc) => state.tsc == Some(*tsc),
    }
}

/// A report is held after it came in. A later one of the same collector takes its place, and
/// reports of different collectors do not touch each other.
pub proof fn report_replaces_its_predecessor<Cha, Iio, Tsc>(
    state: MetricsState<Cha, Iio, Tsc>,
    first: MetricUpdate<Cha, Iio, Tsc>,
    second: MetricUpdate<Cha, Iio, Tsc>,
)
    ensures
        holds(applied(state, first), first),
        applied(state, first).version == state.version,
        same_collector(first, second) ==> applied(applied(state, first), second) == applied(
            state,
            second,
        ),
        !same_collector(first, second) ==> holds(applied(applied(state, first), second), first)
            && applied(applied(state, first), second) == applied(applied(state, second), first),
{
}

/// Whether both reports come from the same collector.
pub open spec fn same_collector<Cha, Iio, Tsc>(
    first: MetricUpdate<Cha, Iio, Tsc>,
    second: MetricUpdate<Cha, Iio, Tsc>,
) -> bool {
    ||| first is Cha && second is Cha
    ||| first is Iio && second is Iio
    ||| first is Imc && second is Imc
    ||| first is Interconnect && second is Interconnect
    ||| first is Irp && second is Irp
    ||| first is Pcu && second is Pcu
    ||| first is Rapl && second is Rapl
    ||| first is Tsc && second is Tsc
}

/// Whatever a report sets in the registry belongs to a family that is registered.
pub proof fn outcomes_are_registered<Cha, Iio, Tsc>(
    registry: MetricsRegistry,
    update: MetricUpdate<Cha, Iio, Tsc>,
    updates: RegistryUpdates,
)
    requires
        is_expected(registry, update),
        is_outcome(registry, update, RegistryOutcome::Values(updates)),
    ensures
        export::all_registered(updates.gauges@, registry_families(registry)),
        export::counters_registered(updates.counters@, registry_families(registry)),
{
    let imc_part = match registry.imc() {
        Some(imc) => imc::families(imc),
        None => Seq::empty(),
    };
    let link_part = match registry.interconnect() {
        Some(_) => interconnect::families(),
        None => Seq::empty(),
    };
    let irp_part = match registry.irp() {
        Some(irp) => irp::families(irp),
        None => Seq::empty(),
    };
    let pcu_part = match registry.pcu() {
        Some(pcu) => pcu::families(pcu),
        None => Seq::empty(),
    };
    let rapl_part = match registry.rapl() {
        Some(_) => rapl::families(),
        None => Seq::empty(),
    };
    let outcome = RegistryOutcome::<Cha, Iio, Tsc>::Values(updates);
    match update {
        MetricUpdate::Imc(imc) => {
            assert(sets(outcome, imc::all_updates(registry.imc()->0, *imc)));
            imc::updates_are_registered(registry.imc()->0, *imc);
        },
        MetricUpdate::Interconnect(interconnect) => {
            assert(sets(
                outcome,
                interconnect::all_updates(registry.interconnect()->0, *interconnect),
            ));
            interconnect::updates_are_registered(registry.interconnect()->0, *interconnect);
        },
        MetricUpdate::Irp(irp) => {
            assert(sets(outcome, irp::all_updates(registry.irp()->0, *irp)));
            irp::updates_are_registered(registry.irp()->0, *irp);
        },
        MetricUpdate::Pcu(pcu) => {
            assert(sets(outcome, pcu::all_updates(registry.pcu()->0, *pcu)));
            pcu::updates_are_registered(registry.pcu()->0, *pcu);
        },
        MetricUpdate::Rapl(rapl) => {
            rapl::updates_are_registered(*rapl, updates);
        },
        _ => {},
    }
    lemma_registered_in_parts(updates, imc_part, link_part, irp_part, pcu_part, rapl_part);
}

proof fn lemma_registered_in_parts(
    updates: RegistryUpdates,
    a: Seq<MetricDescriptor>,
    b: Seq<MetricDescriptor>,
    c: Seq<MetricDescriptor>,
    d: Seq<MetricDescriptor>,
    e: Seq<MetricDescriptor>,
)
    requires
        ({
            ||| export::all_registered(updates.gauges@, a)
            ||| export::all_registered(updates.gauges@, b)
            ||| export::all_registered(updates.gauges@, c)
            ||| export::all_registered(updates.gauges@, d)
            ||| export::all_registered(updates.gauges@, e)
        }),
        updates.counters@.len() == 0 || export::counters_registered(updates.counters@, e),
    ensures
        export::all_registered(updates.gauges@, a + b + c + d + e),
        export::counters_registered(updates.counters@, a + b + c + d + e),
{
    let gauges = updates.gauges@;
    if export::all_registered(gauges, a) || export::all_registered(gauges, b) {
        export::lemma_registered_in_either(gauges, a, b);
    }
    if export::all_registered(gauges, a + b) || export::all_registered(gauges, c) {
        export::lemma_registered_in_either(gauges, a + b, c);
    }
    if export::all_registered(gauges, a + b + c) || export::all_registered(gauges, d) {
        export::lemma_registered_in_either(gauges, a + b + c, d);
    }
    export::lemma_registered_in_either(gauges, a + b + c + d, e);
    if updates.counters@.len() > 0 {
        export::lemma_counters_registered_in_both(updates.counters@, a + b + c + d, e);
    }
}

} // verus!
