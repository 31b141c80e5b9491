//! Register accesses that a collector asks for.
//!
//! The collectors decide which registers are written with which values and which are read, and
//! in which order; performing the accesses is left to the caller.
use crate::pci::PciLocation;
use vstd::prelude::*;

verus! {

/// A hardware register.
#[derive(Clone, Copy, Debug, PartialEq, Eq, Structural)]
pub enum Register {
    /// A register in memory-mapped I/O space at an offset from a physical base address.
    Mmio { base: u64, offset: u64 },
    /// A model-specific register of a processor.
    Msr { address: u64, cpu: u32 },
    /// A register in the configuration space of a PCI function.
    Pci { location: PciLocation, offset: u64 },
}

/// The width of a register access.
#[derive(Clone, Copy, Debug, PartialEq, Eq, Structural)]
pub enum Width {
    Bits32,
    Bits64,
}

/// A value to be written to a register.
#[derive(Clone, Copy, Debug, PartialEq, Eq, Structural)]
pub struct RegisterWrite {
    pub register: Register,
    pub value: u64,
    pub width: Width,
}

/// A register to be read.
#[derive(Clone, Copy, Debug, PartialEq, Eq, Structural)]
pub struct RegisterRead {
    pub register: Register,
    pub width: Width,
}

/// The control word of a counter that resets it, enables it and reports its overflow.
pub const COUNT_AND_REPORT_OVERFLOW: u64 = 0x52_0000;

/// The control word of a counter that resets and enables it.
pub const COUNT: u64 = 0x42_0000;

/// The control word that resets and enables a clock counter.
pub const FIXED_COUNTER_RESET_AND_ENABLE: u64 = 0x48_0000;

/// Selects an event: the event number in the low byte, the unit mask in the byte above it, and
/// flags in the bits above.
pub fn select_word(event: u8, umask: u8, flags: u64) -> (word: u64)
    requires
        flags % 0x1_0000 == 0,
    ensures
        word == event + umask * 0x100 + flags,
{
    let e: u64 = event as u64;
    let u: u64 = umask as u64;
    assert(e | (u << 8) | flags == e + u * 0x100 + flags) by (bit_vector)
        requires
            e < 0x100,
            u < 0x100,
            flags % 0x1_0000 == 0,
    ;
    e | (u << 8) | flags
}

/// The parts of a word that selects an event can be told apart: no two selections share a word.
pub proof fn selection_is_readable(event: u8, umask: u8, flags: u64)
    requires
        flags % 0x1_0000 == 0,
    ensures
        (event + umask * 0x100 + flags) % 0x100 == event,
        (event + umask * 0x100 + flags) / 0x100 % 0x100 == umask,
        (event + umask * 0x100 + flags) / 0x1_0000 * 0x1_0000 == flags,
{
}

/// The words that a family of units takes in its control registers.
#[derive(Clone, Copy, Debug, PartialEq, Eq, Structural)]
pub struct PmonWords {
    pub freeze: u64,
    pub freeze_and_reset: u64,
    pub unfreeze: u64,
}

} // verus!
