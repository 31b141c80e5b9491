//! Which units the collectors are made for.
use crate::arch::Architecture;
use crate::discovery::UncoreDiscoverySocketBoxes;
use crate::error::CollectorError;
use crate::hsx::{HsxBusScope, HsxUncoreSpec};
use crate::laws::found;
use crate::laws::layout;
use crate::metrics::imc::hsx as imc_hsx;
use crate::metrics::imc::icx as imc_icx;
use crate::metrics::imc::skx as imc_skx;
use crate::metrics::imc::snb as imc_snb;
use crate::metrics::imc::spr as imc_spr;
use crate::metrics::interconnect::qpi_common;
use crate::metrics::interconnect::upi_common;
use crate::metrics::irp::hsx as irp_hsx;
use crate::metrics::irp::icx as irp_icx;
use crate::metrics::irp::skx as irp_skx;
use crate::metrics::irp::snb as irp_snb;
use crate::metrics::irp::spr as irp_spr;
use crate::metrics::pcu::hsx as pcu_hsx;
use crate::metrics::pcu::icx as pcu_icx;
use crate::metrics::pcu::skx as pcu_skx;
use crate::metrics::pcu::snb as pcu_snb;
use crate::metrics::pcu::spr as pcu_spr;
use crate::metrics::pcu::{PcuPackageScope, PcuScope};
use crate::ordered_map::Key;
use crate::pci::{PciDeviceSpec, PciVendorDevice};
use crate::registers::{PmonWords, Register};
use crate::sockets::UboxNode;
use crate::topology::{self, CpuTopology, Leader, UncoreScope};
use crate::units::Unit;
use vstd::prelude::*;

verus! {

/// Whether some unit counts for a scope.
pub open spec fn counts_for<S>(units: Seq<Unit<S>>, scope: S) -> bool {
    exists|j: int| 0 <= j < units.len() && (#[trigger] units[j]).scope == scope
}

/// On Haswell and Broadwell every place with a processor has a power control unit, reached through
/// the first processor there, and the units are in the order of their places.
pub proof fn hsx_power_units_are_where_the_processors_are(
    architecture: Architecture,
    topologies: Vec<CpuTopology>,
    collector: pcu_hsx::HsxPcuCollector,
    scope: PcuPackageScope,
    i: int,
)
    requires
        architecture.server_model() is Some,
        call_ensures(
            pcu_hsx::HsxPcuCollector::new,
            (&architecture, &topologies),
            Ok::<pcu_hsx::HsxPcuCollector, CollectorError>(collector),
        ),
        0 <= i < collector.units().len(),
    ensures
        ({
            let cpus = topology::first_cpus::<PcuPackageScope>(topologies@)->0;
            let unit = collector.units()[i];
            &&& topology::first_cpus::<PcuPackageScope>(topologies@) is Some
            &&& cpus.contains_key(unit.scope)
            &&& unit.control == (Register::Msr { address: 0x710, cpu: cpus[unit.scope] })
            &&& cpus.contains_key(scope) ==> counts_for(collector.units(), scope)
            &&& i > 0 ==> collector.units()[i - 1].scope.rank() < unit.scope.rank()
        }),
{
    let cpus = topology::first_cpus::<PcuPackageScope>(topologies@)->0;
    let units = collector.units();
    let leaders = choose|leaders: Seq<Leader<PcuPackageScope>>|
        {
            &&& #[trigger] topology::lists_leaders(leaders, cpus)
            &&& pcu_hsx::are_units(units, leaders)
        };
    assert(pcu_hsx::is_unit(units[i], leaders[i]));
    layout::hsx_power_registers(units[i], leaders[i], 0);
    assert(cpus.contains_key(leaders[i].scope));
    if i > 0 {
        assert(pcu_hsx::is_unit(units[i - 1], leaders[i - 1]));
        layout::hsx_power_registers(units[i - 1], leaders[i - 1], 0);
        assert(leaders[i - 1].scope.rank() < leaders[i].scope.rank());
    }
    if cpus.contains_key(scope) {
        let j = choose|j: int| 0 <= j < leaders.len() && (#[trigger] leaders[j]).scope == scope;
        assert(pcu_hsx::is_unit(units[j], leaders[j]));
        layout::hsx_power_registers(units[j], leaders[j], 0);
        assert(units[j].scope == scope);
    }
}

/// On Skylake every place with a processor has a power control unit, reached through the first
/// processor there, and the units are in the order of their places.
pub proof fn skx_power_units_are_where_the_processors_are(
    architecture: Architecture,
    topologies: Vec<CpuTopology>,
    collector: pcu_skx::SkxPcuCollector,
    scope: PcuScope,
    i: int,
)
    requires
        architecture.server_model() is Some,
        call_ensures(
            pcu_skx::SkxPcuCollector::new,
            (&architecture, &topologies),
            Ok::<pcu_skx::SkxPcuCollector, CollectorError>(collector),
        ),
        0 <= i < collector.units().len(),
    ensures
        ({
            let cpus = topology::first_cpus::<PcuScope>(topologies@)->0;
            let unit = collector.units()[i];
            &&& topology::first_cpus::<PcuScope>(topologies@) is Some
            &&& cpus.contains_key(unit.scope)
            &&& unit.control == (Register::Msr { address: 0x710, cpu: cpus[unit.scope] })
            &&& cpus.contains_key(scope) ==> counts_for(collector.units(), scope)
            &&& i > 0 ==> collector.units()[i - 1].scope.rank() < unit.scope.rank()
        }),
{
    let cpus = topology::first_cpus::<PcuScope>(topologies@)->0;
    let units = collector.units();
    let leaders = choose|leaders: Seq<Leader<PcuScope>>|
        {
            &&& #[trigger] topology::lists_leaders(leaders, cpus)
            &&& pcu_skx::are_units(units, leaders)
        };
    assert(pcu_skx::is_unit(units[i], leaders[i]));
    layout::skx_power_registers(units[i], leaders[i], 0);
    assert(cpus.contains_key(leaders[i].scope));
    if i > 0 {
        assert(pcu_skx::is_unit(units[i - 1], leaders[i - 1]));
        layout::skx_power_registers(units[i - 1], leaders[i - 1], 0);
        assert(leaders[i - 1].scope.rank() < leaders[i].scope.rank());
    }
    if cpus.contains_key(scope) {
        let j = choose|j: int| 0 <= j < leaders.len() && (#[trigger] leaders[j]).scope == scope;
        assert(pcu_skx::is_unit(units[j], leaders[j]));
        layout::skx_power_registers(units[j], leaders[j], 0);
        assert(units[j].scope == scope);
    }
}

/// On Sandy and Ivy Bridge every place with a processor has a power control unit, reached through
/// the first processor there, and the units are in the order of their places.
pub proof fn snb_power_units_are_where_the_processors_are(
    architecture: Architecture,
    topologies: Vec<CpuTopology>,
    collector: pcu_snb::SnbPcuCollector,
    scope: PcuPackageScope,
    i: int,
)
    requires
        architecture.server_model() is Some,
        call_ensures(
            pcu_snb::SnbPcuCollector::new,
            (&architecture, &topologies),
            Ok::<pcu_snb::SnbPcuCollector, CollectorError>(collector),
        ),
        0 <= i < collector.units().len(),
    ensures
        ({
            let cpus = topology::first_cpus::<PcuPackageScope>(topologies@)->0;
            let unit = collector.units()[i];
            &&& topology::first_cpus::<PcuPackageScope>(topologies@) is Some
            &&& cpus.contains_key(unit.scope)
            &&& unit.control == (Register::Msr { address: 0xc24, cpu: cpus[unit.scope] })
            &&& cpus.contains_key(scope) ==> counts_for(collector.units(), scope)
            &&& i > 0 ==> collector.units()[i - 1].scope.rank() < unit.scope.rank()
        }),
{
    let cpus = topology::first_cpus::<PcuPackageScope>(topologies@)->0;
    let units = collector.units();
    let leaders = choose|leaders: Seq<Leader<PcuPackageScope>>|
        {
            &&& #[trigger] topology::lists_leaders(leaders, cpus)
            &&& pcu_snb::are_units(units, leaders)
        };
    assert(pcu_snb::is_unit(units[i], leaders[i]));
    layout::snb_power_registers(units[i], leaders[i], 0);
    assert(cpus.contains_key(leaders[i].scope));
    if i > 0 {
        assert(pcu_snb::is_unit(units[i - 1], leaders[i - 1]));
        layout::snb_power_registers(units[i - 1], leaders[i - 1], 0);
        assert(leaders[i - 1].scope.rank() < leaders[i].scope.rank());
    }
    if cpus.contains_key(scope) {
        let j = choose|j: int| 0 <= j < leaders.len() && (#[trigger] leaders[j]).scope == scope;
        assert(pcu_snb::is_unit(units[j], leaders[j]));
        layout::snb_power_registers(units[j], leaders[j], 0);
        assert(units[j].scope == scope);
    }
}

/// On Ice Lake every place with a processor has a power control unit, reached through the first
/// processor there, and the units are in the order of their places.
pub proof fn icx_power_units_are_where_the_processors_are(
    architecture: Architecture,
    topologies: Vec<CpuTopology>,
    collector: pcu_icx::IcxPcuCollector,
    scope: UncoreScope,
    i: int,
)
    requires
        architecture.server_model() is Some,
        call_ensures(
            pcu_icx::IcxPcuCollector::new,
            (&architecture, &topologies),
            Ok::<pcu_icx::IcxPcuCollector, CollectorError>(collector),
        ),
        0 <= i < collector.units().len(),
    ensures
        ({
            let cpus = topology::first_cpus::<UncoreScope>(topologies@)->0;
            let unit = collector.units()[i];
            &&& topology::first_cpus::<UncoreScope>(topologies@) is Some
            &&& cpus.contains_key(unit.scope)
            &&& unit.control == (Register::Msr { address: 0x710, cpu: cpus[unit.scope] })
            &&& cpus.contains_key(scope) ==> counts_for(collector.units(), scope)
            &&& i > 0 ==> collector.units()[i - 1].scope.rank() < unit.scope.rank()
        }),
{
    let cpus = topology::first_cpus::<UncoreScope>(topologies@)->0;
    let units = collector.units();
    let leaders = choose|leaders: Seq<Leader<UncoreScope>>|
        {
            &&& #[trigger] topology::lists_leaders(leaders, cpus)
            &&& pcu_icx::are_units(units, leaders)
        };
    assert(pcu_icx::is_unit(units[i], leaders[i]));
    layout::icx_power_registers(units[i], leaders[i], 0);
    assert(cpus.contains_key(leaders[i].scope));
    if i > 0 {
        assert(pcu_icx::is_unit(units[i - 1], leaders[i - 1]));
        layout::icx_power_registers(units[i - 1], leaders[i - 1], 0);
        assert(leaders[i - 1].scope.rank() < leaders[i].scope.rank());
    }
    if cpus.contains_key(scope) {
        let j = choose|j: int| 0 <= j < leaders.len() && (#[trigger] leaders[j]).scope == scope;
        assert(pcu_icx::is_unit(units[j], leaders[j]));
        layout::icx_power_registers(units[j], leaders[j], 0);
        assert(units[j].scope == scope);
    }
}

/// On Ice Lake every stack of every die with a processor has an inbound unit, reached through the
/// first processor of the die.
pub proof fn icx_inbound_units_are_where_the_processors_are(
    architecture: Architecture,
    topologies: Vec<CpuTopology>,
    collector: irp_icx::IcxIrpCollector,
    die: irp_icx::IcxUncoreScope,
    s: int,
)
    requires
        architecture.server_model() is Some,
        call_ensures(
            irp_icx::IcxIrpCollector::new,
            (&architecture, &topologies),
            Ok::<irp_icx::IcxIrpCollector, CollectorError>(collector),
        ),
        0 <= s < 6,
    ensures
        topology::first_cpus::<irp_icx::IcxUncoreScope>(topologies@) is Some,
        topology::first_cpus::<irp_icx::IcxUncoreScope>(topologies@)->0.contains_key(die)
            ==> has_icx_stack(
            collector.units(),
            die,
            found::icx_stack(s),
            topology::first_cpus::<irp_icx::IcxUncoreScope>(topologies@)->0[die],
        ),
{
    let cpus = topology::first_cpus::<irp_icx::IcxUncoreScope>(topologies@)->0;
    let units = collector.units();
    let leaders = choose|leaders: Seq<Leader<irp_icx::IcxUncoreScope>>|
        {
            &&& #[trigger] topology::lists_leaders(leaders, cpus)
            &&& irp_icx::are_units(units, irp_icx::all_places(leaders))
        };
    if cpus.contains_key(die) {
        let l = choose|l: int| 0 <= l < leaders.len() && (#[trigger] leaders[l]).scope == die;
        found::icx_every_stack_has_a_unit(leaders, l, s);
        let place = irp_icx::all_places(leaders)[l * 6 + s];
        let unit = units[l * 6 + s];
        assert(irp_icx::is_unit(unit, place));
        layout::icx_inbound_registers(unit, place, 0);
        assert(is_icx_stack(unit, die, found::icx_stack(s), cpus[die]));
    }
}

/// Whether a unit is that of a stack of a die, reached through a processor.
pub open spec fn is_icx_stack(
    unit: Unit<irp_icx::IcxIrpStackScope>,
    die: irp_icx::IcxUncoreScope,
    stack: irp_icx::IcxIrpStackId,
    cpu: u32,
) -> bool {
    let place = irp_icx::UnitPlace { cpu, scope: unit.scope };
    &&& unit.scope.scope == die
    &&& unit.scope.stack == stack
    &&& unit.control == (Register::Msr {
        address: layout::icx_stack_base(place) as u64,
        cpu,
    })
}

/// Whether a stack of a die has a unit, reached through a processor.
pub open spec fn has_icx_stack(
    units: Seq<Unit<irp_icx::IcxIrpStackScope>>,
    die: irp_icx::IcxUncoreScope,
    stack: irp_icx::IcxIrpStackId,
    cpu: u32,
) -> bool {
    exists|k: int| 0 <= k < units.len() && is_icx_stack(#[trigger] units[k], die, stack, cpu)
}

/// On Skylake every stack of every die with a processor has an inbound unit, reached through the
/// first processor of the die.
pub proof fn skx_inbound_units_are_where_the_processors_are(
    architecture: Architecture,
    words: PmonWords,
    topologies: Vec<CpuTopology>,
    collector: irp_skx::IrpCollector,
    die: UncoreScope,
    s: int,
)
    requires
        architecture.server_model() is Some,
        call_ensures(
            irp_skx::IrpCollector::new,
            (&architecture, words, &topologies),
            Ok::<irp_skx::IrpCollector, CollectorError>(collector),
        ),
        0 <= s < 6,
    ensures
        topology::first_cpus::<UncoreScope>(topologies@) is Some,
        topology::first_cpus::<UncoreScope>(topologies@)->0.contains_key(die) ==> has_skx_stack(
            collector.units(),
            die,
            found::skx_stack(s),
            topology::first_cpus::<UncoreScope>(topologies@)->0[die],
        ),
{
    let cpus = topology::first_cpus::<UncoreScope>(topologies@)->0;
    let units = collector.units();
    let leaders = choose|leaders: Seq<Leader<UncoreScope>>|
        {
            &&& #[trigger] topology::lists_leaders(leaders, cpus)
            &&& irp_skx::are_units(units, irp_skx::all_places(leaders))
        };
    if cpus.contains_key(die) {
        let l = choose|l: int| 0 <= l < leaders.len() && (#[trigger] leaders[l]).scope == die;
        found::skx_every_stack_has_a_unit(leaders, l, s);
        let place = irp_skx::all_places(leaders)[l * 6 + s];
        let unit = units[l * 6 + s];
        assert(irp_skx::is_unit(unit, place));
        layout::skx_inbound_registers(unit, place, 0);
        assert(is_skx_stack(unit, die, found::skx_stack(s), cpus[die]));
    }
}

/// Whether a unit is that of a stack of a die, reached through a processor.
pub open spec fn is_skx_stack(
    unit: Unit<irp_skx::IrpStackScope>,
    die: UncoreScope,
    stack: irp_skx::SkxIioStack,
    cpu: u32,
) -> bool {
    let place = irp_skx::UnitPlace { cpu, scope: unit.scope };
    &&& unit.scope.scope == die
    &&& unit.scope.stack == stack
    &&& unit.control == (Register::Msr {
        address: layout::skx_stack_base(place) as u64,
        cpu,
    })
}

/// Whether a stack of a die has a unit, reached through a processor.
pub open spec fn has_skx_stack(
    units: Seq<Unit<irp_skx::IrpStackScope>>,
    die: UncoreScope,
    stack: irp_skx::SkxIioStack,
    cpu: u32,
) -> bool {
    exists|k: int| 0 <= k < units.len() && is_skx_stack(#[trigger] units[k], die, stack, cpu)
}

/// On Sapphire Rapids every stack of every die with a processor has an inbound unit, reached
/// through the first processor of the die.
pub proof fn spr_inbound_units_are_where_the_processors_are(
    topologies: Vec<CpuTopology>,
    collector: irp_spr::SprIrpCollector,
    die: irp_spr::SprUncoreScope,
    s: int,
)
    requires
        call_ensures(
            irp_spr::SprIrpCollector::new,
            (&topologies,),
            Ok::<irp_spr::SprIrpCollector, CollectorError>(collector),
        ),
        0 <= s < 12,
    ensures
        topology::first_cpus::<irp_spr::SprUncoreScope>(topologies@) is Some,
        topology::first_cpus::<irp_spr::SprUncoreScope>(topologies@)->0.contains_key(die)
            ==> has_spr_stack(
            collector.units(),
            die,
            found::spr_stack(s),
            topology::first_cpus::<irp_spr::SprUncoreScope>(topologies@)->0[die],
        ),
{
    let cpus = topology::first_cpus::<irp_spr::SprUncoreScope>(topologies@)->0;
    let units = collector.units();
    let leaders = choose|leaders: Seq<Leader<irp_spr::SprUncoreScope>>|
        {
            &&& #[trigger] topology::lists_leaders(leaders, cpus)
            &&& irp_spr::are_units(units, irp_spr::all_places(leaders))
        };
    if cpus.contains_key(die) {
        let l = choose|l: int| 0 <= l < leaders.len() && (#[trigger] leaders[l]).scope == die;
        found::spr_every_stack_has_a_unit(leaders, l, s);
        let place = irp_spr::all_places(leaders)[l * 12 + s];
        let unit = units[l * 12 + s];
        assert(irp_spr::is_unit(unit, place));
        layout::spr_inbound_registers(unit, place, 0);
        assert(is_spr_stack(unit, die, found::spr_stack(s), cpus[die]));
    }
}

/// Whether a unit is that of a stack of a die, reached through a processor.
pub open spec fn is_spr_stack(
    unit: Unit<irp_spr::SprIrpStackScope>,
    die: irp_spr::SprUncoreScope,
    stack: irp_spr::SprIrpStackId,
    cpu: u32,
) -> bool {
    let place = irp_spr::UnitPlace { cpu, scope: unit.scope };
    &&& unit.scope.scope == die
    &&& unit.scope.stack == stack
    &&& unit.control == (Register::Msr {
        address: layout::spr_stack_base(place) as u64,
        cpu,
    })
}

/// Whether a stack of a die has a unit, reached through a processor.
pub open spec fn has_spr_stack(
    units: Seq<Unit<irp_spr::SprIrpStackScope>>,
    die: irp_spr::SprUncoreScope,
    stack: irp_spr::SprIrpStackId,
    cpu: u32,
) -> bool {
    exists|k: int| 0 <= k < units.len() && is_spr_stack(#[trigger] units[k], die, stack, cpu)
}

/// Every discovery entry of a socket of Sapphire Rapids has a memory channel, for the scope of the
/// socket, at the place that the entry names.
pub proof fn spr_memory_channels_are_those_discovered(
    architecture: Architecture,
    sockets: Vec<UncoreDiscoverySocketBoxes<imc_spr::SprImcScope>>,
    collector: imc_spr::SprImcCollector,
    s: int,
    b: int,
) -> (k: int)
    requires
        architecture.server_model() is Some,
        call_ensures(
            imc_spr::SprImcCollector::new,
            (&architecture, &sockets),
            Ok::<imc_spr::SprImcCollector, CollectorError>(collector),
        ),
        0 <= s < sockets@.len(),
        0 <= b < sockets@[s].boxes@.len(),
    ensures
        architecture.server_model()->0 is SapphireRapids,
        0 <= k < collector.units().len(),
        collector.units()[k].scope == sockets@[s].scope,
        collector.units()[k].control == (Register::Mmio {
            base: sockets@[s].boxes@[b].box_control,
            offset: 0,
        }),
{
    let k = found::spr_channels_are_those_discovered(sockets@, s, b);
    assert(imc_spr::is_channel(collector.units()[k], imc_spr::all_places(sockets@)[k]));
    layout::spr_memory_registers(collector.units()[k], imc_spr::all_places(sockets@)[k], 0);
    k
}

/// Every power control unit that the discovery tables of Sapphire Rapids list, and that is reached
/// through processor registers, has a unit for its die, with the width of its counters.
pub proof fn spr_power_units_are_those_discovered(
    sockets: Vec<UncoreDiscoverySocketBoxes<UncoreScope>>,
    topologies: Vec<CpuTopology>,
    collector: pcu_spr::SprPcuCollector,
    s: int,
    b: int,
) -> (k: int)
    requires
        call_ensures(
            pcu_spr::SprPcuCollector::new,
            (&sockets, &topologies),
            Ok::<pcu_spr::SprPcuCollector, CollectorError>(collector),
        ),
        0 <= s < sockets@.len(),
        0 <= b < sockets@[s].boxes@.len(),
        sockets@[s].boxes@[b].access_type == 0,
        topology::first_cpus::<UncoreScope>(topologies@) is Some,
        topology::first_cpus::<UncoreScope>(topologies@)->0.contains_key(sockets@[s].scope),
    ensures
        0 <= k < collector.units().len(),
        collector.widths().len() == collector.units().len(),
        ({
            let die = sockets@[s].scope;
            let entry = sockets@[s].boxes@[b];
            let cpu = topology::first_cpus::<UncoreScope>(topologies@)->0[die];
            let unit = collector.units()[k];
            &&& unit.scope.package_id == die.package_id
            &&& unit.scope.die_group_id == die.die_group_id
            &&& unit.scope.die_id == die.die_id
            &&& unit.control == (Register::Msr { address: entry.box_control, cpu })
            &&& collector.widths()[k] == entry.bit_width
        }),
{
    let cpus = topology::first_cpus::<UncoreScope>(topologies@)->0;
    let packages = pcu_spr::all_packages(sockets@, cpus);
    let k = found::spr_power_units_are_found(sockets@, cpus, s, b);
    assert(pcu_spr::is_unit(collector.units()[k], packages[k]));
    layout::spr_power_registers(collector.units()[k], packages[k], 0);
    k
}

/// A collector for the memory of Haswell and Broadwell is there for these processors alone; it is
/// the one of the very processor and starts with the first group.
pub proof fn hsx_memory_collector_starts_with_the_first_group(
    architecture: Architecture,
    uncore: HsxUncoreSpec,
    bus_scopes: Vec<HsxBusScope>,
    devices: Vec<PciVendorDevice>,
    collector: imc_hsx::HsxImcCollector,
)
    requires
        architecture.server_model() is Some,
        call_ensures(
            imc_hsx::HsxImcCollector::new,
            (&architecture, &uncore, &bus_scopes, &devices),
            Ok::<imc_hsx::HsxImcCollector, CollectorError>(collector),
        ),
    ensures
        collector.next_group() == 0,
        ({
            let model = architecture.server_model()->0;
            &&& model is HaswellXeon || model is BroadwellXeon
            &&& collector.words() == uncore.words
        }),
{
}

/// A collector for the memory of Ice Lake is there for these processors alone; it is the one of the
/// very processor and starts with the first group.
pub proof fn icx_memory_collector_starts_with_the_first_group(
    architecture: Architecture,
    topologies: Vec<CpuTopology>,
    uboxes: Vec<imc_icx::UboxBars<4>>,
    collector: imc_icx::IcxImcCollector,
)
    requires
        architecture.server_model() is Some,
        call_ensures(
            imc_icx::IcxImcCollector::new,
            (&architecture, &topologies, &uboxes),
            Ok::<imc_icx::IcxImcCollector, CollectorError>(collector),
        ),
    ensures
        collector.next_group() == 0,
        ({
            let model = architecture.server_model()->0;
            &&& model is IceLakeXeon
        }),
{
}

/// A collector for the memory of Skylake is there for these processors alone; it is the one of the
/// very processor and starts with the first group.
pub proof fn skx_memory_collector_starts_with_the_first_group(
    architecture: Architecture,
    topologies: Vec<CpuTopology>,
    socket_buses: Vec<imc_skx::SocketBus>,
    specs: Vec<PciDeviceSpec>,
    devices: Vec<PciVendorDevice>,
    words: PmonWords,
    collector: imc_skx::SkxImcCollector,
)
    requires
        architecture.server_model() is Some,
        call_ensures(
            imc_skx::SkxImcCollector::new,
            (&architecture, &topologies, &socket_buses, &specs, &devices, words),
            Ok::<imc_skx::SkxImcCollector, CollectorError>(collector),
        ),
    ensures
        collector.next_group() == 0,
        ({
            let model = architecture.server_model()->0;
            &&& model is SkylakeXeon
            &&& collector.words() == words
        }),
{
}

/// A collector for the memory of Sandy and Ivy Bridge is there for these processors alone; it is
/// the one of the very processor and starts with the first group.
pub proof fn snb_memory_collector_starts_with_the_first_group(
    architecture: Architecture,
    topologies: Vec<CpuTopology>,
    nodes: Vec<UboxNode>,
    devices: Vec<PciVendorDevice>,
    collector: imc_snb::SnbImcCollector,
)
    requires
        architecture.server_model() is Some,
        call_ensures(
            imc_snb::SnbImcCollector::new,
            (&architecture, &topologies, &nodes, &devices),
            Ok::<imc_snb::SnbImcCollector, CollectorError>(collector),
        ),
    ensures
        collector.next_group() == 0,
        ({
            let model = architecture.server_model()->0;
            &&& model is IvyTown || model is SandyBridgeEp
            &&& collector.architecture() is Ivb <==> model is IvyTown
        }),
{
}

/// A collector for the inbound units of Haswell and Broadwell is there for these processors alone;
/// it is the one of the very processor and starts with the first group.
pub proof fn hsx_inbound_collector_starts_with_the_first_group(
    architecture: Architecture,
    words: PmonWords,
    locations: Vec<irp_hsx::SocketLocation>,
    collector: irp_hsx::HsxIrpCollector,
)
    requires
        architecture.server_model() is Some,
        call_ensures(
            irp_hsx::HsxIrpCollector::new,
            (&architecture, words, &locations),
            Ok::<irp_hsx::HsxIrpCollector, CollectorError>(collector),
        ),
    ensures
        collector.next_group() == 0,
        ({
            let model = architecture.server_model()->0;
            &&& model is HaswellXeon || model is BroadwellXeon
            &&& collector.words() == words
        }),
{
}

/// A collector for the inbound units of Ice Lake is there for these processors alone; it is the one
/// of the very processor and starts with the first group.
pub proof fn icx_inbound_collector_starts_with_the_first_group(
    architecture: Architecture,
    topologies: Vec<CpuTopology>,
    collector: irp_icx::IcxIrpCollector,
)
    requires
        architecture.server_model() is Some,
        call_ensures(
            irp_icx::IcxIrpCollector::new,
            (&architecture, &topologies),
            Ok::<irp_icx::IcxIrpCollector, CollectorError>(collector),
        ),
    ensures
        collector.next_group() == 0,
        ({
            let model = architecture.server_model()->0;
            &&& model is IceLakeXeon
        }),
{
}

/// A collector for the inbound units of Skylake is there for these processors alone; it is the one
/// of the very processor and starts with the first group.
pub proof fn skx_inbound_collector_starts_with_the_first_group(
    architecture: Architecture,
    words: PmonWords,
    topologies: Vec<CpuTopology>,
    collector: irp_skx::IrpCollector,
)
    requires
        architecture.server_model() is Some,
        call_ensures(
            irp_skx::IrpCollector::new,
            (&architecture, words, &topologies),
            Ok::<irp_skx::IrpCollector, CollectorError>(collector),
        ),
    ensures
        collector.next_group() == 0,
        ({
            let model = architecture.server_model()->0;
            &&& model is SkylakeXeon
            &&& collector.words() == words
        }),
{
}

/// A collector for the inbound units of Sandy and Ivy Bridge is there for these processors alone;
/// it is the one of the very processor and starts with the first group.
pub proof fn snb_inbound_collector_starts_with_the_first_group(
    architecture: Architecture,
    topologies: Vec<CpuTopology>,
    nodes: Vec<UboxNode>,
    devices: Vec<PciVendorDevice>,
    collector: irp_snb::SnbIrpCollector,
)
    requires
        architecture.server_model() is Some,
        call_ensures(
            irp_snb::SnbIrpCollector::new,
            (&architecture, &topologies, &nodes, &devices),
            Ok::<irp_snb::SnbIrpCollector, CollectorError>(collector),
        ),
    ensures
        collector.next_group() == 0,
        ({
            let model = architecture.server_model()->0;
            &&& model is IvyTown || model is SandyBridgeEp
            &&& collector.architecture() is Ivb <==> model is IvyTown
        }),
{
}

/// A collector for the power control units of Haswell and Broadwell is there for these processors
/// alone; it is the one of the very processor and starts with the first group.
pub proof fn hsx_power_collector_starts_with_the_first_group(
    architecture: Architecture,
    topologies: Vec<CpuTopology>,
    collector: pcu_hsx::HsxPcuCollector,
)
    requires
        architecture.server_model() is Some,
        call_ensures(
            pcu_hsx::HsxPcuCollector::new,
            (&architecture, &topologies),
            Ok::<pcu_hsx::HsxPcuCollector, CollectorError>(collector),
        ),
    ensures
        collector.next_group() == 0,
        ({
            let model = architecture.server_model()->0;
            &&& model is HaswellXeon || model is BroadwellXeon || model is BroadwellDe
            &&& collector.architecture() is Hsx <==> model is HaswellXeon
            &&& collector.architecture() is Bdx <==> model is BroadwellXeon
        }),
{
}

/// A collector for the power control units of Skylake is there for these processors alone; it is
/// the one of the very processor and starts with the first group.
pub proof fn skx_power_collector_starts_with_the_first_group(
    architecture: Architecture,
    topologies: Vec<CpuTopology>,
    collector: pcu_skx::SkxPcuCollector,
)
    requires
        architecture.server_model() is Some,
        call_ensures(
            pcu_skx::SkxPcuCollector::new,
            (&architecture, &topologies),
            Ok::<pcu_skx::SkxPcuCollector, CollectorError>(collector),
        ),
    ensures
        collector.next_group() == 0,
        ({
            let model = architecture.server_model()->0;
            &&& model is SkylakeXeon
        }),
{
}

/// A collector for the power control units of Sandy and Ivy Bridge is there for these processors
/// alone; it is the one of the very processor and starts with the first group.
pub proof fn snb_power_collector_starts_with_the_first_group(
    architecture: Architecture,
    topologies: Vec<CpuTopology>,
    collector: pcu_snb::SnbPcuCollector,
)
    requires
        architecture.server_model() is Some,
        call_ensures(
            pcu_snb::SnbPcuCollector::new,
            (&architecture, &topologies),
            Ok::<pcu_snb::SnbPcuCollector, CollectorError>(collector),
        ),
    ensures
        collector.next_group() == 0,
        ({
            let model = architecture.server_model()->0;
            &&& model is IvyTown || model is SandyBridgeEp
            &&& collector.architecture() is Ivb <==> model is IvyTown
        }),
{
}

/// A collector for QPI links is there for these processors alone; it is the one of the very
/// processor and starts with the first group.
pub proof fn qpi_collector_starts_with_the_first_group(
    architecture: Architecture,
    topologies: Vec<CpuTopology>,
    nodes: Vec<UboxNode>,
    devices: Vec<PciVendorDevice>,
    collector: qpi_common::QpiCollector,
)
    requires
        architecture.server_model() is Some,
        call_ensures(
            qpi_common::QpiCollector::new,
            (&architecture, &topologies, &nodes, &devices),
            Ok::<qpi_common::QpiCollector, CollectorError>(collector),
        ),
    ensures
        collector.next_group() == 0,
        ({
            let model = architecture.server_model()->0;
            &&& collector.architecture() is Hsx <==> model is HaswellXeon
            &&& collector.architecture() is Bdx <==> model is BroadwellXeon
            &&& collector.architecture() is Ivb <==> model is IvyTown
            &&& collector.architecture() is Snb <==> model is SandyBridgeEp
        }),
{
}

/// A collector for UPI links is there for these processors alone; it is the one of the very
/// processor and starts with the first group.
pub proof fn upi_collector_starts_with_the_first_group(
    architecture: Architecture,
    topologies: Vec<CpuTopology>,
    nodes: Vec<UboxNode>,
    devices: Vec<PciVendorDevice>,
    collector: upi_common::UpiCollector,
)
    requires
        architecture.server_model() is Some,
        call_ensures(
            upi_common::UpiCollector::new,
            (&architecture, &topologies, &nodes, &devices),
            Ok::<upi_common::UpiCollector, CollectorError>(collector),
        ),
    ensures
        collector.next_group() == 0,
        ({
            let model = architecture.server_model()->0;
            &&& collector.architecture() is Skx <==> model is SkylakeXeon
            &&& collector.architecture() is Icx <==> model is IceLakeXeon
            &&& collector.architecture() is Spr <==> model is SapphireRapids
            &&& collector.architecture() is Emr <==> model is EmeraldRapids
        }),
{
}

} // verus!
