//! Where counting units have their registers, and what they are told.
use crate::discovery::UncoreBoxDiscovery;
use crate::ep::{self, SnbArchitecture};
use crate::hsx;
use crate::metrics::imc::icx as imc_icx;
use crate::metrics::imc::skx as imc_skx;
use crate::metrics::imc::snb as imc_snb;
use crate::metrics::imc::spr as imc_spr;
use crate::metrics::interconnect::qpi_common::{self, QpiArchitecture};
use crate::metrics::interconnect::upi_common::{self, UpiArchitecture};
use crate::metrics::interconnect::{InterconnectScope, LinkPlace};
use crate::metrics::irp::hsx as irp_hsx;
use crate::metrics::irp::icx as irp_icx;
use crate::metrics::irp::skx as irp_skx;
use crate::metrics::irp::snb as irp_snb;
use crate::metrics::irp::spr as irp_spr;
use crate::metrics::pcu::hsx as pcu_hsx;
use crate::metrics::pcu::icx as pcu_icx;
use crate::metrics::pcu::skx as pcu_skx;
use crate::metrics::pcu::snb as pcu_snb;
use crate::metrics::pcu::spr as pcu_spr;
use crate::metrics::pcu::{PcuPackageScope, PcuScope};
use crate::pci::PciLocation;
use crate::registers::{self, Register, Width};
use crate::topology::{HsxUncoreScope, Leader, UncoreScope};
use crate::units::Unit;
use vstd::prelude::*;

verus! {

/// A memory channel of Skylake is frozen, programmed and read through its own PCI function; its
/// clock has a counter of its own.
pub proof fn skx_memory_registers(
    unit: Unit<imc_skx::ImcScope>,
    location: PciLocation,
    scope: imc_skx::ImcScope,
    c: int,
)
    requires
        imc_skx::is_channel(unit, location, scope),
        0 <= c < 4,
    ensures
        unit.scope == scope,
        unit.width == Width::Bits32,
        unit.filter is None,
        unit.controls@.len() == 4,
        unit.counters@.len() == 4,
        unit.control == (Register::Pci { location: location, offset: 0xf4 }),
        unit.controls@[c] == (Register::Pci { location: location, offset: (0xd8 + 4 * c) as u64 }),
        unit.counters@[c] == (Register::Pci { location: location, offset: (0xa0 + 8 * c) as u64 }),
        unit.fixed_control == Some(Register::Pci { location: location, offset: 0xf0 }),
        unit.fixed_counter == Some(Register::Pci { location: location, offset: 0xd0 }),
{
    assert(c == 0 || c == 1 || c == 2 || c == 3);
}

/// A memory channel of Sandy or Ivy Bridge is frozen, programmed and read through its own PCI
/// function; its clock has a counter of its own.
pub proof fn snb_memory_registers(
    unit: Unit<imc_snb::SnbImcScope>,
    place: imc_snb::ChannelPlace,
    c: int,
)
    requires
        imc_snb::is_channel(unit, place),
        0 <= c < 4,
    ensures
        unit.scope == place.scope,
        unit.width == Width::Bits32,
        unit.filter is None,
        unit.controls@.len() == 4,
        unit.counters@.len() == 4,
        unit.control == (Register::Pci { location: place.location, offset: 0xf4 }),
        unit.controls@[c] == (
            Register::Pci { location: place.location, offset: (0xd8 + 4 * c) as u64 }
        ),
        unit.counters@[c] == (
            Register::Pci { location: place.location, offset: (0xa0 + 8 * c) as u64 }
        ),
        unit.fixed_control == Some(Register::Pci { location: place.location, offset: 0xf0 }),
        unit.fixed_counter == Some(Register::Pci { location: place.location, offset: 0xd0 }),
{
    assert(c == 0 || c == 1 || c == 2 || c == 3);
}

/// The inbound unit of a package of Haswell or Broadwell is frozen, programmed and read through its
/// own PCI function.
pub proof fn hsx_inbound_registers(
    unit: Unit<HsxUncoreScope>,
    place: irp_hsx::SocketLocation,
    c: int,
)
    requires
        irp_hsx::is_package(unit, place),
        0 <= c < 4,
    ensures
        unit.scope == (HsxUncoreScope { package_id: place.package_id }),
        unit.width == Width::Bits32,
        unit.filter is None,
        unit.controls@.len() == 4,
        unit.counters@.len() == 4,
        unit.control == (Register::Pci { location: place.location, offset: 0xf4 }),
        unit.controls@[c] == (
            Register::Pci { location: place.location, offset: (0xd8 + 4 * c) as u64 }
        ),
        unit.counters@[c] == (Register::Pci { location: place.location, offset: (if c == 0 {
                0xa0int
            } else {
                0xa8 + 8 * c
            }) as u64 }),
        unit.fixed_control is None,
        unit.fixed_counter is None,
{
    assert(c == 0 || c == 1 || c == 2 || c == 3);
}

/// The inbound unit of a package of Sandy or Ivy Bridge is frozen, programmed and read through its
/// own PCI function.
pub proof fn snb_inbound_registers(
    unit: Unit<irp_snb::SnbIrpScope>,
    place: irp_snb::UnitPlace,
    c: int,
)
    requires
        irp_snb::is_package(unit, place),
        0 <= c < 4,
    ensures
        unit.scope == place.scope,
        unit.width == Width::Bits32,
        unit.filter is None,
        unit.controls@.len() == 4,
        unit.counters@.len() == 4,
        unit.control == (Register::Pci { location: place.location, offset: 0xf4 }),
        unit.controls@[c] == (
            Register::Pci { location: place.location, offset: (0xd8 + 4 * c) as u64 }
        ),
        unit.counters@[c] == (Register::Pci { location: place.location, offset: (if c == 0 {
                0xa0int
            } else {
                0xa8 + 8 * c
            }) as u64 }),
        unit.fixed_control is None,
        unit.fixed_counter is None,
{
    assert(c == 0 || c == 1 || c == 2 || c == 3);
}

/// A QPI link is frozen, programmed and read through its own PCI function.
pub proof fn qpi_registers(unit: Unit<InterconnectScope>, place: LinkPlace, c: int)
    requires
        qpi_common::is_link(unit, place),
        0 <= c < 4,
    ensures
        unit.scope == place.scope,
        unit.width == Width::Bits32,
        unit.filter is None,
        unit.controls@.len() == 4,
        unit.counters@.len() == 4,
        unit.control == (Register::Pci { location: place.location, offset: 0xf4 }),
        unit.controls@[c] == (
            Register::Pci { location: place.location, offset: (0xd8 + 4 * c) as u64 }
        ),
        unit.counters@[c] == (
            Register::Pci { location: place.location, offset: (0xa0 + 8 * c) as u64 }
        ),
        unit.fixed_control is None,
        unit.fixed_counter is None,
{
    assert(c == 0 || c == 1 || c == 2 || c == 3);
}

/// A UPI link is frozen, programmed and read through its own PCI function; Skylake has its control
/// and its counters elsewhere.
pub proof fn upi_registers(
    unit: Unit<InterconnectScope>,
    architecture: UpiArchitecture,
    place: LinkPlace,
    c: int,
)
    requires
        upi_common::is_link(unit, architecture, place),
        0 <= c < 4,
    ensures
        unit.scope == place.scope,
        unit.width == Width::Bits32,
        unit.filter is None,
        unit.controls@.len() == 4,
        unit.counters@.len() == 4,
        unit.control == (Register::Pci { location: place.location, offset: (if architecture == UpiArchitecture::Skx {
                0x378u64
            } else {
                0x318u64
            }) }),
        unit.controls@[c] == (
            Register::Pci { location: place.location, offset: (0x350 + 8 * c) as u64 }
        ),
        unit.counters@[c] == (Register::Pci { location: place.location, offset: (8 * c + if architecture == UpiArchitecture::Skx {
                0x318int
            } else {
                0x320int
            }) as u64 }),
        unit.fixed_control is None,
        unit.fixed_counter is None,
{
    assert(c == 0 || c == 1 || c == 2 || c == 3);
}

/// A memory channel of Ice Lake is frozen, programmed and read at its place in memory; its clock
/// has a counter of its own.
pub proof fn icx_memory_registers(
    unit: Unit<imc_icx::IcxImcScope>,
    place: imc_icx::ChannelPlace,
    c: int,
)
    requires
        imc_icx::is_channel(unit, place),
        0 <= c < 4,
    ensures
        unit.scope == place.scope,
        unit.width == Width::Bits32,
        unit.filter is None,
        unit.controls@.len() == 4,
        unit.counters@.len() == 4,
        unit.control == (Register::Mmio { base: place.base, offset: 0 }),
        unit.controls@[c] == (Register::Mmio { base: place.base, offset: (0x40 + 4 * c) as u64 }),
        unit.counters@[c] == (Register::Mmio { base: place.base, offset: (0x08 + 8 * c) as u64 }),
        unit.fixed_control == Some(Register::Mmio { base: place.base, offset: 0x54 }),
        unit.fixed_counter == Some(Register::Mmio { base: place.base, offset: 0x38 }),
{
}

/// A memory channel of Sapphire Rapids is frozen, programmed and read where its discovery entry
/// says; its clock has a counter of its own.
pub proof fn spr_memory_registers(
    unit: Unit<imc_spr::SprImcScope>,
    place: imc_spr::ChannelPlace,
    c: int,
)
    requires
        imc_spr::is_channel(unit, place),
        0 <= c < 4,
    ensures
        unit.scope == place.scope,
        unit.width == Width::Bits32,
        unit.filter is None,
        unit.controls@.len() == 4,
        unit.counters@.len() == 4,
        unit.control == (Register::Mmio { base: place.entry.box_control, offset: 0 }),
        unit.controls@[c] == (
            Register::Mmio {
                base: place.entry.box_control,
                offset: (place.entry.control_offset + 4 * c) as u64,
            }
        ),
        unit.counters@[c] == (
            Register::Mmio {
                base: place.entry.box_control,
                offset: (place.entry.counter_offset + 8 * c) as u64,
            }
        ),
        unit.fixed_control == Some(Register::Mmio { base: place.entry.box_control, offset: 0x54 }),
        unit.fixed_counter == Some(Register::Mmio { base: place.entry.box_control, offset: 0x38 }),
{
}

/// Where the registers of an inbound stack of Ice Lake begin.
pub open spec fn icx_stack_base(place: irp_icx::UnitPlace) -> int {
    match place.scope.stack {
        irp_icx::IcxIrpStackId::Pcie0 => 0xa4aint,
        irp_icx::IcxIrpStackId::Pcie1 => 0xa6aint,
        irp_icx::IcxIrpStackId::Mcp => 0xa8aint,
        irp_icx::IcxIrpStackId::Pcie2 => 0xadaint,
        irp_icx::IcxIrpStackId::Pcie3 => 0xafaint,
        irp_icx::IcxIrpStackId::CbdmaDmi => 0xb1aint,
    }
}

/// A stack of Ice Lake is frozen, programmed and read through registers of the processor that leads
/// its die, each stack at its own place.
pub proof fn icx_inbound_registers(
    unit: Unit<irp_icx::IcxIrpStackScope>,
    place: irp_icx::UnitPlace,
    c: int,
)
    requires
        irp_icx::is_unit(unit, place),
        0 <= c < 2,
    ensures
        unit.scope == place.scope,
        unit.width == Width::Bits64,
        unit.filter is None,
        unit.controls@.len() == 2,
        unit.counters@.len() == 2,
        unit.control == (Register::Msr { address: (icx_stack_base(place)) as u64, cpu: place.cpu }),
        unit.controls@[c] == (
            Register::Msr { address: (icx_stack_base(place) + 3 + c) as u64, cpu: place.cpu }
        ),
        unit.counters@[c] == (
            Register::Msr { address: (icx_stack_base(place) + 1 + c) as u64, cpu: place.cpu }
        ),
        unit.fixed_control is None,
        unit.fixed_counter is None,
{
    assert(irp_icx::stack_index(place.scope.stack) >= 0);
    assert(c == 0 || c == 1);
}

/// Where the registers of an inbound stack of Skylake begin.
pub open spec fn skx_stack_base(place: irp_skx::UnitPlace) -> int {
    match place.scope.stack {
        irp_skx::SkxIioStack::CbdmaDmi => 0xa58int,
        irp_skx::SkxIioStack::Pcie0 => 0xa78int,
        irp_skx::SkxIioStack::Pcie1 => 0xa98int,
        irp_skx::SkxIioStack::Pcie2 => 0xab8int,
        irp_skx::SkxIioStack::Mcp0 => 0xad8int,
        irp_skx::SkxIioStack::Mcp1 => 0xaf8int,
    }
}

/// A stack of Skylake is frozen, programmed and read through registers of the processor that leads
/// its die, each stack at its own place.
pub proof fn skx_inbound_registers(
    unit: Unit<irp_skx::IrpStackScope>,
    place: irp_skx::UnitPlace,
    c: int,
)
    requires
        irp_skx::is_unit(unit, place),
        0 <= c < 2,
    ensures
        unit.scope == place.scope,
        unit.width == Width::Bits64,
        unit.filter is None,
        unit.controls@.len() == 2,
        unit.counters@.len() == 2,
        unit.control == (Register::Msr { address: (skx_stack_base(place)) as u64, cpu: place.cpu }),
        unit.controls@[c] == (
            Register::Msr { address: (skx_stack_base(place) + 3 + c) as u64, cpu: place.cpu }
        ),
        unit.counters@[c] == (
            Register::Msr { address: (skx_stack_base(place) + 1 + c) as u64, cpu: place.cpu }
        ),
        unit.fixed_control is None,
        unit.fixed_counter is None,
{
    assert(irp_skx::stack_index(place.scope.stack) >= 0);
    assert(c == 0 || c == 1);
}

/// Where the registers of an inbound stack of Sapphire Rapids begin.
pub open spec fn spr_stack_base(place: irp_spr::UnitPlace) -> int {
    match place.scope.stack {
        irp_spr::SprIrpStackId::M2iosf0 => 0x3400int,
        irp_spr::SprIrpStackId::M2iosf1 => 0x3410int,
        irp_spr::SprIrpStackId::M2iosf2 => 0x3420int,
        irp_spr::SprIrpStackId::M2iosf3 => 0x3430int,
        irp_spr::SprIrpStackId::M2iosf4 => 0x3440int,
        irp_spr::SprIrpStackId::M2iosf5 => 0x3450int,
        irp_spr::SprIrpStackId::M2iosf6 => 0x3460int,
        irp_spr::SprIrpStackId::M2iosf7 => 0x3470int,
        irp_spr::SprIrpStackId::M2iosf8 => 0x3480int,
        irp_spr::SprIrpStackId::M2iosf9 => 0x3490int,
        irp_spr::SprIrpStackId::M2iosf10 => 0x34a0int,
        irp_spr::SprIrpStackId::M2iosf11 => 0x34b0int,
    }
}

/// A stack of Sapphire Rapids is frozen, programmed and read through registers of the processor
/// that leads its die, each stack at its own place.
pub proof fn spr_inbound_registers(
    unit: Unit<irp_spr::SprIrpStackScope>,
    place: irp_spr::UnitPlace,
    c: int,
)
    requires
        irp_spr::is_unit(unit, place),
        0 <= c < 2,
    ensures
        unit.scope == place.scope,
        unit.width == Width::Bits64,
        unit.filter is None,
        unit.controls@.len() == 2,
        unit.counters@.len() == 2,
        unit.control == (Register::Msr { address: (spr_stack_base(place)) as u64, cpu: place.cpu }),
        unit.controls@[c] == (
            Register::Msr { address: (spr_stack_base(place) + 2 + c) as u64, cpu: place.cpu }
        ),
        unit.counters@[c] == (
            Register::Msr { address: (spr_stack_base(place) + 8 + c) as u64, cpu: place.cpu }
        ),
        unit.fixed_control is None,
        unit.fixed_counter is None,
{
    assert(irp_spr::stack_index(place.scope.stack) >= 0);
    assert(c == 0 || c == 1);
}

/// The power control unit of Haswell or Broadwell is frozen, programmed and read through registers
/// of the processor that leads its scope.
pub proof fn hsx_power_registers(
    unit: Unit<PcuPackageScope>,
    leader: Leader<PcuPackageScope>,
    c: int,
)
    requires
        pcu_hsx::is_unit(unit, leader),
        0 <= c < 4,
    ensures
        unit.scope == leader.scope,
        unit.width == Width::Bits64,
        unit.filter is None,
        unit.controls@.len() == 4,
        unit.counters@.len() == 4,
        unit.control == (Register::Msr { address: (0x710) as u64, cpu: leader.cpu }),
        unit.controls@[c] == (Register::Msr { address: (0x711 + c) as u64, cpu: leader.cpu }),
        unit.counters@[c] == (Register::Msr { address: (0x717 + c) as u64, cpu: leader.cpu }),
        unit.fixed_control is None,
        unit.fixed_counter is None,
{
    assert(c == 0 || c == 1 || c == 2 || c == 3);
}

/// The power control unit of Skylake is frozen, programmed and read through registers of the
/// processor that leads its scope.
pub proof fn skx_power_registers(unit: Unit<PcuScope>, leader: Leader<PcuScope>, c: int)
    requires
        pcu_skx::is_unit(unit, leader),
        0 <= c < 4,
    ensures
        unit.scope == leader.scope,
        unit.width == Width::Bits64,
        unit.filter == Some(Register::Msr { address: 0x715, cpu: leader.cpu }),
        unit.controls@.len() == 4,
        unit.counters@.len() == 4,
        unit.control == (Register::Msr { address: (0x710) as u64, cpu: leader.cpu }),
        unit.controls@[c] == (Register::Msr { address: (0x711 + c) as u64, cpu: leader.cpu }),
        unit.counters@[c] == (Register::Msr { address: (0x717 + c) as u64, cpu: leader.cpu }),
        unit.fixed_control is None,
        unit.fixed_counter is None,
{
    assert(c == 0 || c == 1 || c == 2 || c == 3);
}

/// The power control unit of Sandy or Ivy Bridge is frozen, programmed and read through registers
/// of the processor that leads its scope.
pub proof fn snb_power_registers(
    unit: Unit<PcuPackageScope>,
    leader: Leader<PcuPackageScope>,
    c: int,
)
    requires
        pcu_snb::is_unit(unit, leader),
        0 <= c < 4,
    ensures
        unit.scope == leader.scope,
        unit.width == Width::Bits64,
        unit.filter == Some(Register::Msr { address: 0xc34, cpu: leader.cpu }),
        unit.controls@.len() == 4,
        unit.counters@.len() == 4,
        unit.control == (Register::Msr { address: (0xc24) as u64, cpu: leader.cpu }),
        unit.controls@[c] == (Register::Msr { address: (0xc30 + c) as u64, cpu: leader.cpu }),
        unit.counters@[c] == (Register::Msr { address: (0xc36 + c) as u64, cpu: leader.cpu }),
        unit.fixed_control is None,
        unit.fixed_counter is None,
{
    assert(c == 0 || c == 1 || c == 2 || c == 3);
}

/// The power control unit of Ice Lake is frozen, programmed and read through registers of the
/// processor that leads its die.
pub proof fn icx_power_registers(unit: Unit<UncoreScope>, leader: Leader<UncoreScope>, c: int)
    requires
        pcu_icx::is_unit(unit, leader),
        0 <= c < 1,
    ensures
        unit.scope == leader.scope,
        unit.width == Width::Bits64,
        unit.filter is None,
        unit.controls@.len() == 1,
        unit.counters@.len() == 1,
        unit.control == (Register::Msr { address: (0x710) as u64, cpu: leader.cpu }),
        unit.controls@[c] == (Register::Msr { address: (0x711) as u64, cpu: leader.cpu }),
        unit.counters@[c] == (Register::Msr { address: (0x717) as u64, cpu: leader.cpu }),
        unit.fixed_control is None,
        unit.fixed_counter is None,
{
    assert(c == 0);
}

/// The power control unit of Sapphire Rapids is frozen, programmed and read where its discovery
/// entry says, through the processor that leads its die.
pub proof fn spr_power_registers(unit: Unit<PcuScope>, package: pcu_spr::SprPcuPackage, c: int)
    requires
        pcu_spr::is_unit(unit, package),
        0 <= c < 4,
    ensures
        unit.scope == package.scope,
        unit.width == Width::Bits64,
        unit.filter is None,
        unit.controls@.len() == 4,
        unit.counters@.len() == 4,
        unit.control == (
            Register::Msr { address: (package.unit.unit_control) as u64, cpu: package.unit.cpu }
        ),
        unit.controls@[c] == (
            Register::Msr {
                address: (package.unit.unit_control + package.unit.control_offset + c) as u64,
                cpu: package.unit.cpu,
            }
        ),
        unit.counters@[c] == (
            Register::Msr {
                address: (package.unit.unit_control + package.unit.counter_offset + c) as u64,
                cpu: package.unit.cpu,
            }
        ),
        unit.fixed_control is None,
        unit.fixed_counter is None,
{
    assert(c == 0 || c == 1 || c == 2 || c == 3);
}

/// A unit of Haswell or Broadwell has its registers where the layout says, at its own place.
pub proof fn hsx_memory_registers(
    unit: Unit<HsxUncoreScope>,
    place: hsx::UnitPlace,
    layout: hsx::HsxUnitLayout,
    clocked: bool,
    c: int,
)
    requires
        hsx::is_unit(unit, place, layout, clocked),
        0 <= c < 4,
    ensures
        unit.scope == place.scope,
        unit.width == Width::Bits32,
        unit.filter is None,
        unit.controls@.len() == 4,
        unit.counters@.len() == 4,
        unit.control == (Register::Pci { location: place.location, offset: layout.unit_control }),
        unit.controls@[c] == (Register::Pci {
            location: place.location,
            offset: layout.controls@[c],
        }),
        unit.counters@[c] == (Register::Pci {
            location: place.location,
            offset: layout.counters@[c],
        }),
        clocked ==> unit.fixed_control == Some(
            Register::Pci { location: place.location, offset: layout.fixed_control },
        ) && unit.fixed_counter == Some(
            Register::Pci { location: place.location, offset: layout.fixed_counter },
        ),
        !clocked ==> unit.fixed_control is None && unit.fixed_counter is None,
{
}

/// The discovery entry of a power control unit tells where its registers are and how wide its
/// counters; they are reached through the processor of its die.
pub proof fn spr_power_unit_is_as_discovered(
    cpu: u32,
    entry: UncoreBoxDiscovery,
    scope: UncoreScope,
)
    ensures
        ({
            let unit = pcu_spr::unit_of(cpu, entry);
            &&& unit.cpu == cpu
            &&& unit.unit_control == entry.box_control
            &&& unit.control_offset == entry.control_offset
            &&& unit.counter_offset == entry.counter_offset
            &&& unit.counter_width == entry.bit_width
        }),
        pcu_spr::die_of(scope).package_id == scope.package_id,
        pcu_spr::die_of(scope).die_id == scope.die_id,
        pcu_spr::die_of(scope).die_group_id == scope.die_group_id,
{
}

/// What Sandy and Ivy Bridge units are told to freeze, to be reset and to go on: Sandy Bridge has
/// to be told that it may be frozen every time.
pub open spec fn ep_words(architecture: SnbArchitecture) -> (u64, u64, u64) {
    match architecture {
        SnbArchitecture::Ivb => (0x100, 0x103, 0),
        SnbArchitecture::Snb => (0x1_0100, 0x1_0103, 0x1_0000),
    }
}

/// The words that freeze, reset and release the units of each family of processors. Freezing sets
/// bit 8, or bit 0 from Sapphire Rapids on; resetting keeps them frozen; releasing clears it.
pub proof fn words_freeze_reset_and_release(
    member: SnbArchitecture,
    upi: UpiArchitecture,
    qpi: QpiArchitecture,
)
    ensures
        ep::freeze_word(member) == ep_words(member).0,
        ep::reset_word(member) == ep_words(member).1,
        ep::freeze_enable(member) == ep_words(member).2,
        match qpi {
            QpiArchitecture::Ivb => {
                &&& qpi_common::freeze_word(qpi) == 0x100
                &&& qpi_common::reset_word(qpi) == 0x103
                &&& qpi_common::unfreeze_word(qpi) == 0
            },
            _ => {
                &&& qpi_common::freeze_word(qpi) == 0x1_0100
                &&& qpi_common::reset_word(qpi) == 0x1_0103
                &&& qpi_common::unfreeze_word(qpi) == 0x1_0000
            },
        },
        match upi {
            UpiArchitecture::Emr | UpiArchitecture::Spr => {
                &&& upi_common::freeze_word(upi) == 1
                &&& upi_common::reset_word(upi) == 0x301
                &&& upi_common::unfreeze_word(upi) == 0
            },
            _ => {
                &&& upi_common::freeze_word(upi) == 0x100
                &&& upi_common::reset_word(upi) == 0x103
                &&& upi_common::unfreeze_word(upi) == 0
            },
        },
        imc_icx::UNIT_FREEZE == 0x1_0100,
        imc_icx::UNIT_FREEZE_AND_RESET == 0x1_0103,
        imc_icx::UNIT_UNFREEZE == 0x1_0000,
        irp_icx::UNIT_FREEZE == 0x3_0100,
        irp_icx::UNIT_FREEZE_AND_RESET == 0x3_0103,
        irp_icx::UNIT_UNFREEZE == 0x3_0000,
        pcu_icx::UNIT_FREEZE == 0x100,
        pcu_icx::UNIT_FREEZE_AND_RESET == 0x103,
        pcu_icx::UNIT_UNFREEZE == 0,
        pcu_skx::UNIT_FREEZE == 0x100,
        pcu_skx::UNIT_FREEZE_AND_RESET == 0x103,
        pcu_skx::UNIT_UNFREEZE == 0,
        pcu_hsx::UNIT_FREEZE == 0x1_0100,
        pcu_hsx::UNIT_FREEZE_AND_RESET == 0x1_0103,
        pcu_hsx::UNIT_UNFREEZE == 0x1_0000,
        imc_spr::UNIT_FREEZE == 1,
        imc_spr::UNIT_FREEZE_AND_CONTROL_RESET == 0x101,
        imc_spr::UNIT_FREEZE_AND_COUNTER_RESET == 0x201,
        imc_spr::UNIT_UNFREEZE == 0,
        irp_spr::UNIT_FREEZE == 1,
        irp_spr::UNIT_FREEZE_AND_CONTROL_RESET == 0x101,
        irp_spr::UNIT_FREEZE_AND_COUNTER_RESET == 0x201,
        irp_spr::UNIT_UNFREEZE == 0,
        pcu_spr::UNIT_FREEZE == 1,
        pcu_spr::UNIT_FREEZE_AND_CONTROL_RESET == 0x101,
        pcu_spr::UNIT_FREEZE_AND_COUNTER_RESET == 0x201,
        pcu_spr::UNIT_UNFREEZE == 0,
        registers::COUNT == 0x42_0000,
        registers::COUNT_AND_REPORT_OVERFLOW == 0x52_0000,
        registers::FIXED_COUNTER_RESET_AND_ENABLE == 0x48_0000,
{
}

} // verus!
