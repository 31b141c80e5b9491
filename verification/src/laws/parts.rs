//! What the small calls give: words, offsets, shares and steps.
use crate::accumulator::{EventMeasurement, Overflow};
use crate::arch::{self, Architecture};
use crate::discovery::{UncoreBoxDiscovery, UncoreDiscoveryVsec, UncoreGlobalDiscovery};
use crate::ep::{self, SnbArchitecture};
use crate::error::CollectorError;
use crate::export::MetricDescriptor;
use crate::laws::layout;
use crate::laws::rapl as domains;
use crate::metrics::imc::icx as imc_icx;
use crate::metrics::irp::icx as irp_icx;
use crate::metrics::irp::skx as irp_skx;
use crate::metrics::irp::spr as irp_spr;
use crate::metrics::pcu::hsx as pcu_hsx;
use crate::metrics::pcu::skx as pcu_skx;
use crate::metrics::pcu::snb as pcu_snb;
use crate::metrics::pcu::spr as pcu_spr;
use crate::metrics::rapl;
use crate::metrics::rapl::{RaplCollector, RaplDomainKind, RaplScope};
use crate::metrics::{
    self, imc, interconnect, irp, pcu, InfoMetadata, MetricUpdate, MetricsRegistry, RegistryOutcome,
};
use crate::pci::{self, PciBus, PciDeviceSpec, PciLocation, PciVendorDevice};
use crate::quantity::{self, ScaledCount};
use crate::registers::{self, Register, RegisterRead, Width};
use crate::sockets;
use crate::task::{self, TaskAction, TaskEvent};
use crate::topology::Leader;
use vstd::prelude::*;

verus! {

/// A control word holds the event in its lowest byte and the mask in the next one; the flags are
/// above them.
pub proof fn word_holds_event_mask_and_flags(event: u8, umask: u8, flags: u64, word: u64)
    requires
        flags % 0x1_0000 == 0,
        call_ensures(registers::select_word, (event, umask, flags), word),
    ensures
        word % 0x100 == event,
        word / 0x100 % 0x100 == umask,
        word - word % 0x1_0000 == flags,
{
}

/// The counters of an inbound stack of Skylake stand one after the other: its unit control first,
/// then two counters, then their two controls.
pub proof fn skx_stack_registers_stand_in_a_row(
    place: irp_skx::UnitPlace,
    counter: usize,
    unit_control: u64,
    control: u64,
    read: u64,
)
    requires
        counter < 2,
        call_ensures(irp_skx::irp_unit_control_offset, (place.scope.stack,), unit_control),
        call_ensures(irp_skx::irp_control_offset, (place.scope.stack, counter), control),
        call_ensures(irp_skx::irp_counter_offset, (place.scope.stack, counter), read),
    ensures
        unit_control == layout::skx_stack_base(place),
        read == unit_control + 1 + counter,
        control == unit_control + 3 + counter,
{
}

/// The counters of an inbound stack of Ice Lake stand one after the other: its unit control first,
/// then two counters, then their two controls.
pub proof fn icx_stack_registers_stand_in_a_row(
    spec: irp_icx::IcxIrpSpec,
    stack: irp_icx::IcxIrpStack,
    place: irp_icx::UnitPlace,
    counter: usize,
    unit_control: u64,
    control: u64,
    read: u64,
)
    requires
        counter < 2,
        call_ensures(irp_icx::icx_irp_spec, (), spec),
        call_ensures(irp_icx::IcxIrpStackId::stack, (place.scope.stack,), stack),
        call_ensures(irp_icx::irp_unit_control_offset, (spec, stack), unit_control),
        call_ensures(irp_icx::irp_control_offset, (spec, stack, counter), control),
        call_ensures(irp_icx::irp_counter_offset, (spec, stack, counter), read),
    ensures
        unit_control == layout::icx_stack_base(place),
        read == unit_control + 1 + counter,
        control == unit_control + 3 + counter,
{
    assert(irp_icx::stack_index(place.scope.stack) >= 0);
}

/// The counters of an inbound stack of Sapphire Rapids: its unit control first, two controls after
/// it, and two counters from the ninth register on.
pub proof fn spr_stack_registers_stand_in_a_row(
    spec: irp_spr::SprIrpSpec,
    stack: irp_spr::SprIrpStack,
    place: irp_spr::UnitPlace,
    counter: usize,
    unit_control: u64,
    control: u64,
    read: u64,
)
    requires
        counter < 2,
        call_ensures(irp_spr::spr_emr_irp_spec, (), spec),
        call_ensures(irp_spr::SprIrpStackId::stack, (place.scope.stack,), stack),
        call_ensures(irp_spr::irp_unit_control_offset, (spec, stack), unit_control),
        call_ensures(irp_spr::irp_control_offset, (spec, stack, counter), control),
        call_ensures(irp_spr::irp_counter_offset, (spec, stack, counter), read),
    ensures
        unit_control == layout::spr_stack_base(place),
        control == unit_control + 2 + counter,
        read == unit_control + 8 + counter,
{
    assert(irp_spr::stack_index(place.scope.stack) >= 0);
}

/// The controls and the counters of a power control unit stand one after the other, from 0x711 and
/// 0x717 on, or on Sandy and Ivy Bridge from 0xc30 and 0xc36 on.
pub proof fn power_registers_stand_in_a_row(
    counter: usize,
    hsx: (u64, u64),
    skx: (u64, u64),
    snb: (u64, u64),
)
    requires
        counter < 4,
        call_ensures(pcu_hsx::pcu_control_offset, (counter,), hsx.0),
        call_ensures(pcu_hsx::pcu_counter_offset, (counter,), hsx.1),
        call_ensures(pcu_skx::pcu_control_offset, (counter,), skx.0),
        call_ensures(pcu_skx::pcu_counter_offset, (counter,), skx.1),
        call_ensures(pcu_snb::pcu_control_offset, (counter,), snb.0),
        call_ensures(pcu_snb::pcu_counter_offset, (counter,), snb.1),
    ensures
        hsx == ((0x711 + counter) as u64, (0x717 + counter) as u64),
        skx == hsx,
        snb == ((0xc30 + counter) as u64, (0xc36 + counter) as u64),
{
}

/// The registers of a discovered power control unit stand where its entry says, one after the
/// other.
pub proof fn discovered_registers_stand_in_a_row(
    cpu: u32,
    entry: UncoreBoxDiscovery,
    unit: pcu_spr::SprPcuUnit,
    counter: usize,
    control: u64,
    read: u64,
)
    requires
        call_ensures(pcu_spr::SprPcuUnit::new, (cpu, entry), unit),
        call_ensures(pcu_spr::SprPcuUnit::control_address, (unit, counter), control),
        call_ensures(pcu_spr::SprPcuUnit::counter_address, (unit, counter), read),
    ensures
        control == entry.box_control + entry.control_offset + counter,
        read == entry.box_control + entry.counter_offset + counter,
{
}

/// The base address register that a capability names is one of those from offset 0x10 on, each four
/// bytes long.
pub proof fn capability_names_a_base_address(vsec: UncoreDiscoveryVsec, offset: u64)
    requires
        call_ensures(UncoreDiscoveryVsec::bar_offset, (vsec,), offset),
    ensures
        offset >= 0x10,
        (offset - 0x10) % 4 == 0,
        (offset - 0x10) / 4 == vsec.tbir,
{
}

/// The first word of a discovery table tells in bits 8 to 15 how many words an entry takes, and in
/// bits 16 to 25 how many entries there are. The entries follow the first one, which is the table's
/// own.
pub proof fn discovery_table_is_laid_out(
    words: [u64; 3],
    global: UncoreGlobalDiscovery,
    index: u16,
    offset: u64,
)
    requires
        call_ensures(UncoreGlobalDiscovery::from_words, (words,), global),
        call_ensures(UncoreGlobalDiscovery::unit_offset, (global, index), offset),
    ensures
        words@[0] / 0x100 % 0x100 == global.stride,
        words@[0] / 0x1_0000 % 0x400 == global.max_units,
        offset == global.stride * 8 + index * (global.stride * 8),
{
    let step = global.stride * 8;
    assert((index + 1) * step == step + index * step) by (nonlinear_arith);
}

/// An entry is usable exactly where it has registers and says where they are.
pub proof fn entry_needs_registers_and_an_address(entry: UncoreBoxDiscovery, valid: bool)
    requires
        call_ensures(UncoreBoxDiscovery::is_valid, (entry,), valid),
    ensures
        !valid <==> entry.num_registers == 0 || entry.box_control == 0,
{
}

/// Sandy and Ivy Bridge tell their sockets by different devices, at offsets 0x40 and 0x54 of them.
pub proof fn ep_sockets_are_told_by_their_device(architecture: SnbArchitecture, id: u16)
    requires
        call_ensures(SnbArchitecture::ubox_device_id, (architecture,), id),
    ensures
        architecture is Ivb <==> id == 0x0e1e,
        architecture is Snb <==> id == 0x3ce0,
        ep::UBOX_LOCAL_NODE_ID_OFFSET == 0x40,
        ep::UBOX_GID_OFFSET == 0x54,
{
}

/// The memory of Ice Lake is reached through four base addresses for each package, with three
/// channels each.
pub proof fn icx_has_twelve_channels(spec: imc_icx::IcxImcSpec)
    requires
        call_ensures(imc_icx::icx_imc_spec, (), spec),
    ensures
        spec.channels == (imc_icx::IcxImcChannels::UboxBars {
            bars_per_package: 4,
            channels_per_bar: 3,
        }),
        spec.name == "Ice Lake-SP",
{
}

/// A device that is found on a bus is there, at the numbers at which it was looked for.
pub proof fn found_device_is_where_it_was_looked_for(
    devices: Vec<PciVendorDevice>,
    spec: PciDeviceSpec,
    bus: PciBus,
    location: PciLocation,
)
    requires
        call_ensures(pci::find_on_bus, (&devices, spec, bus), Some(location)),
    ensures
        location.bus == bus.bus,
        location.group == bus.group,
        location.device == spec.device,
        location.function == spec.function,
        exists|i: int|
            0 <= i < devices@.len() && (#[trigger] devices@[i]).location == location
                && devices@[i].device_id == spec.device_id,
{
}

/// A ratio keeps its two numbers apart and has none where nothing was counted below the line.
pub proof fn ratio_divides_the_first_by_the_second(
    numerator: u64,
    denominator: u64,
    parts: Option<(u64, u64)>,
)
    requires
        call_ensures(quantity::ratio_parts, (numerator, denominator), parts),
    ensures
        parts is None <==> denominator == 0,
        parts matches Some(parts) ==> parts.0 == numerator && parts.1 == denominator,
{
}

/// The share of a part is that part over both together.
pub proof fn share_is_of_both_together(part: u64, rest: u64, parts: Option<(u64, u64)>)
    requires
        call_ensures(
            quantity::share_parts,
            (part, rest),
            Ok::<Option<(u64, u64)>, Overflow>(parts),
        ),
    ensures
        parts is None <==> part + rest == 0,
        parts matches Some(parts) ==> parts.0 == part && parts.1 - parts.0 == rest,
{
}

/// A clock is sampled until nobody listens or a failure was handed on: a report is handed on before
/// the next sample, and an idle sample is followed by the next one.
pub proof fn task_goes_on_until_it_fails_or_is_unheard(
    action: TaskAction,
    event: TaskEvent,
    next: TaskAction,
)
    requires
        task::can_follow(action, event),
        call_ensures(TaskAction::next, (action, event), next),
    ensures
        match (action, event) {
            (_, TaskEvent::Sampled) => action is Sample && next is Report,
            (_, TaskEvent::Idle) => action is Sample && next is Sample,
            (_, TaskEvent::Failed) => action is Sample && next is Fail,
            (_, TaskEvent::Unheard) => next is Stop && (action is Report || action is Fail),
            (TaskAction::Report, TaskEvent::Delivered) => next is Sample,
            (TaskAction::Fail, TaskEvent::Delivered) => next is Stop,
            (_, TaskEvent::Delivered) => false,
        },
{
}

/// A bus comes first exactly where its group, and within a group its number, does not come later.
pub proof fn buses_come_in_order(a: PciBus, b: PciBus, first: bool)
    requires
        call_ensures(sockets::comes_first, (a, b), first),
    ensures
        first <==> (a.group < b.group || (a.group == b.group && a.bus <= b.bus)),
{
}

/// Every domain is read from the status register of its kind, through the processor that leads its
/// package: the package from 0x611 and the memory from 0x619.
pub proof fn collector_reads_each_domain_from_its_register(
    collector: RaplCollector,
    leaders: Vec<Leader<RaplScope>>,
    power_units: Vec<u64>,
    fixed_dram_unit: bool,
    reads: Vec<RegisterRead>,
    i: int,
)
    requires
        call_ensures(
            RaplCollector::new,
            (&leaders, &power_units, fixed_dram_unit),
            Ok::<RaplCollector, CollectorError>(collector),
        ),
        call_ensures(RaplCollector::reads, (&collector,), reads),
        0 <= i < collector.domains().len(),
    ensures
        reads@.len() == collector.domains().len(),
        reads@[i].width == Width::Bits64,
        ({
            let domain = collector.domains()[i];
            exists|l: int|
                {
                    &&& 0 <= l < leaders@.len()
                    &&& (#[trigger] leaders@[l]).scope == domain.key.scope
                    &&& reads@[i].register == (Register::Msr {
                        address: if domain.key.domain is Package {
                            0x611
                        } else {
                            0x619
                        },
                        cpu: leaders@[l].cpu,
                    })
                }
        }),
{
    domains::domains_are_read_from_their_own_registers(
        leaders@,
        power_units@,
        fixed_dram_unit,
        collector,
        reads@,
        i,
    );
}

/// The table of domains that is handed out has the package at 0x611 and the memory at 0x619.
pub proof fn domain_table_names_the_registers(list: [rapl::RaplDomainSpec; 2])
    requires
        call_ensures(rapl::domain_specs, (), list),
    ensures
        forall|i: int|
            0 <= i < 2 ==> {
                let spec = #[trigger] list@[i];
                &&& spec.kind == RaplDomainKind::Package <==> spec.status_msr == 0x611
                &&& spec.kind == RaplDomainKind::Dram <==> spec.status_msr == 0x619
            },
        list@[0].kind != list@[1].kind,
{
    domains::each_kind_has_its_register();
}

/// Which processors each family of collectors is there for: the memory, the links and the inbound
/// traffic, and the power control units.
pub proof fn collectors_are_there_for_their_processors(
    architecture: Architecture,
    memory: bool,
    links: bool,
    inbound: bool,
    power: bool,
)
    requires
        call_ensures(imc::ImcCollector::is_supported, (&architecture,), memory),
        call_ensures(interconnect::InterconnectCollector::is_supported, (&architecture,), links),
        call_ensures(irp::IrpCollector::is_supported, (&architecture,), inbound),
        call_ensures(pcu::PcuCollector::is_supported, (&architecture,), power),
    ensures
        architecture.server_model() is None ==> !memory && !links && !inbound && !power,
        architecture.server_model() matches Some(model) ==> {
            &&& memory == imc::is_known(model)
            &&& links == interconnect::is_known(model)
            &&& inbound == irp::is_known(model)
            &&& power == pcu::is_known(model)
        },
{
}

/// A count without measurement is empty, and that of a measurement keeps its value and its times.
pub proof fn counts_keep_their_measurement(
    none: ScaledCount,
    of: ScaledCount,
    measurement: EventMeasurement,
)
    requires
        call_ensures(ScaledCount::none, (), none),
        call_ensures(ScaledCount::of, (measurement,), of),
    ensures
        none.value == 0,
        of.value == measurement.value,
        of.enabled_nanos == measurement.enabled_nanos,
        of.running_nanos == measurement.running_nanos,
{
}

/// The families of a registry are those of every collector that is registered, and no others.
pub proof fn registry_lists_its_families(registry: MetricsRegistry, given: Vec<MetricDescriptor>)
    requires
        call_ensures(MetricsRegistry::descriptors, (&registry,), given),
    ensures
        ({
            let memory = match registry.imc() {
                Some(families) => imc::families(families),
                None => Seq::empty(),
            };
            let links = if registry.interconnect() is Some {
                interconnect::families()
            } else {
                Seq::empty()
            };
            let inbound = match registry.irp() {
                Some(families) => irp::families(families),
                None => Seq::empty(),
            };
            let power = match registry.pcu() {
                Some(families) => pcu::families(families),
                None => Seq::empty(),
            };
            let energy = if registry.rapl() is Some {
                rapl::families()
            } else {
                Seq::empty()
            };
            follow_each_other(given@, memory, links, inbound, power, energy)
        }),
{
    let memory = match registry.imc() {
        Some(families) => imc::families(families),
        None => Seq::empty(),
    };
    let links = if registry.interconnect() is Some {
        interconnect::families()
    } else {
        Seq::empty()
    };
    let inbound = match registry.irp() {
        Some(families) => irp::families(families),
        None => Seq::empty(),
    };
    let power = match registry.pcu() {
        Some(families) => pcu::families(families),
        None => Seq::empty(),
    };
    let energy = if registry.rapl() is Some {
        rapl::families()
    } else {
        Seq::empty()
    };
    assert(given@ == memory + links + inbound + power + energy);
    lemma_follow(memory, links, inbound, power, energy);
}

/// Whether a list is made of five lists, one after the other.
#[verifier::opaque]
pub open spec fn follow_each_other<A>(
    list: Seq<A>,
    a: Seq<A>,
    b: Seq<A>,
    c: Seq<A>,
    d: Seq<A>,
    e: Seq<A>,
) -> bool {
    let second = a.len() as int;
    let third = second + b.len();
    let fourth = third + c.len();
    let fifth = fourth + d.len();
    &&& list.len() == fifth + e.len()
    &&& forall|i: int| 0 <= i < a.len() ==> list[i] == #[trigger] a[i]
    &&& forall|i: int| 0 <= i < b.len() ==> list[second + i] == #[trigger] b[i]
    &&& forall|i: int| 0 <= i < c.len() ==> list[third + i] == #[trigger] c[i]
    &&& forall|i: int| 0 <= i < d.len() ==> list[fourth + i] == #[trigger] d[i]
    &&& forall|i: int| 0 <= i < e.len() ==> list[fifth + i] == #[trigger] e[i]
}

proof fn lemma_follow<A>(a: Seq<A>, b: Seq<A>, c: Seq<A>, d: Seq<A>, e: Seq<A>)
    ensures
        follow_each_other(a + b + c + d + e, a, b, c, d, e),
{
    reveal(follow_each_other);
}

/// A registry has the families of the very processor; those on energy exactly where the processor
/// counts the energy of its package.
pub proof fn registry_is_that_of_the_processor(
    metadata: InfoMetadata,
    cha: bool,
    iio: bool,
    registry: MetricsRegistry,
)
    requires
        call_ensures(MetricsRegistry::register, (&metadata, cha, iio), registry),
    ensures
        registry.has_cha() == cha,
        registry.has_iio() == iio,
        registry.rapl() is Some <==> metadata.processor.package_rapl_supported,
        ({
            let model = arch::model_of(metadata.processor.family, metadata.processor.model);
            &&& registry.imc() == imc::registered(model)
            &&& registry.interconnect() == interconnect::registered(model)
            &&& registry.irp() == irp::registered(model)
            &&& registry.pcu() == pcu::registered(model)
        }),
{
}

/// A report changes the gauges of its own collector and no counter; that on energy changes both,
/// and the others are handed on as they are.
pub proof fn report_changes_its_own_families<Cha, Iio, Tsc>(
    registry: MetricsRegistry,
    update: MetricUpdate<Cha, Iio, Tsc>,
    outcome: RegistryOutcome<Cha, Iio, Tsc>,
)
    requires
        metrics::is_expected(registry, update),
        call_ensures(MetricsRegistry::update::<Cha, Iio, Tsc>, (&registry, update), outcome),
    ensures
        match update {
            MetricUpdate::Cha(report) => outcome matches RegistryOutcome::Cha(given) && given
                == *report,
            MetricUpdate::Iio(report) => outcome matches RegistryOutcome::Iio(given) && given
                == *report,
            MetricUpdate::Tsc(report) => outcome matches RegistryOutcome::Tsc(given) && given
                == *report,
            MetricUpdate::Imc(report) => outcome matches RegistryOutcome::Values(given)
                && given.counters@.len() == 0 && given.gauges@ == imc::all_updates(
                registry.imc()->0,
                *report,
            ),
            MetricUpdate::Interconnect(report) => outcome matches RegistryOutcome::Values(given)
                && given.counters@.len() == 0 && given.gauges@ == interconnect::all_updates(
                registry.interconnect()->0,
                *report,
            ),
            MetricUpdate::Irp(report) => outcome matches RegistryOutcome::Values(given)
                && given.counters@.len() == 0 && given.gauges@ == irp::all_updates(
                registry.irp()->0,
                *report,
            ),
            MetricUpdate::Pcu(report) => outcome matches RegistryOutcome::Values(given)
                && given.counters@.len() == 0 && given.gauges@ == pcu::all_updates(
                registry.pcu()->0,
                *report,
            ),
            MetricUpdate::Rapl(report) => outcome matches RegistryOutcome::Values(given)
                && given.counters@.len() == report.domains@.len() && given.gauges@.len()
                == report.domains@.len(),
        },
{
}

} // verus!
