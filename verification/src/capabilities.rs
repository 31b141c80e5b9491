//! The walk over the capabilities of a PCI device in search of discovery tables.
use crate::discovery::{
    self, bar_is_wide, decode_discovery_bar, UncoreDiscoveryVsec, FIRST_CAPABILITY,
};
use crate::registers::Width;
use vstd::prelude::*;

verus! {

/// A word of the configuration space of a device.
#[derive(Clone, Copy, Debug, PartialEq, Eq, Structural)]
pub struct ConfigRead {
    pub offset: u64,
    pub width: Width,
}

/// Where a walk stands.
#[derive(Clone, Copy, Debug, PartialEq, Eq, Structural)]
pub enum CapabilityWalk {
    /// At the first word of the capability at `offset`.
    First { offset: u64 },
    /// At its second word.
    Second { offset: u64, first: u64 },
    /// At the base address register that the capability names.
    BarLow { offset: u64, vsec: UncoreDiscoveryVsec },
    /// At the register after it.
    BarHigh { offset: u64, vsec: UncoreDiscoveryVsec, low: u32 },
    /// At a discovery table, which starts at `base`.
    Table { offset: u64, vsec: UncoreDiscoveryVsec, base: u64 },
    /// Behind the last capability.
    End,
}

/// What is read next.
pub open spec fn wanted_of(walk: CapabilityWalk) -> Option<ConfigRead> {
    match walk {
        CapabilityWalk::First { offset } => Some(ConfigRead { offset, width: Width::Bits64 }),
        CapabilityWalk::Second { offset, .. } => Some(
            ConfigRead { offset: (offset + 8) as u64, width: Width::Bits64 },
        ),
        CapabilityWalk::BarLow { vsec, .. } => Some(
            ConfigRead { offset: (0x10 + vsec.tbir * 4) as u64, width: Width::Bits32 },
        ),
        CapabilityWalk::BarHigh { vsec, .. } => Some(
            ConfigRead { offset: (0x10 + vsec.tbir * 4 + 4) as u64, width: Width::Bits32 },
        ),
        CapabilityWalk::Table { .. } => None,
        CapabilityWalk::End => None,
    }
}

/// Behind the capability at `offset`.
pub open spec fn past(vsec: UncoreDiscoveryVsec, offset: u64) -> CapabilityWalk {
    match discovery::capability_after(vsec, offset) {
        Some(next) => CapabilityWalk::First { offset: next },
        None => CapabilityWalk::End,
    }
}

/// At the table that a capability points to, if its base address register is set.
pub open spec fn at_table(vsec: UncoreDiscoveryVsec, offset: u64, base: u64) -> CapabilityWalk {
    if base == 0 {
        past(vsec, offset)
    } else {
        CapabilityWalk::Table { offset, vsec, base }
    }
}

/// The lower half of a word.
pub open spec fn lower(word: u64) -> u32 {
    (word % 0x1_0000_0000) as u32
}

/// Where a walk goes on after a word was read, or after it could not be read. A device whose
/// capabilities cannot be read has none; without its base address register the walk fails.
pub open spec fn stepped(walk: CapabilityWalk, word: Option<u64>) -> Option<CapabilityWalk> {
    match walk {
        CapabilityWalk::First { offset } => match word {
            Some(first) => if first == 0 {
                Some(CapabilityWalk::End)
            } else {
                Some(CapabilityWalk::Second { offset, first })
            },
            None => Some(CapabilityWalk::End),
        },
        CapabilityWalk::Second { offset, first } => match word {
            Some(second) => {
                let vsec = discovery::vsec_of(first, second);
                if discovery::points_to_units(vsec) {
                    Some(CapabilityWalk::BarLow { offset, vsec })
                } else {
                    Some(past(vsec, offset))
                }
            },
            None => Some(CapabilityWalk::End),
        },
        CapabilityWalk::BarLow { offset, vsec } => match word {
            Some(word) => if discovery::is_wide(lower(word)) {
                Some(CapabilityWalk::BarHigh { offset, vsec, low: lower(word) })
            } else {
                Some(at_table(vsec, offset, discovery::address_of(lower(word), 0)))
            },
            None => None,
        },
        CapabilityWalk::BarHigh { offset, vsec, low } => match word {
            Some(word) => Some(at_table(vsec, offset, discovery::address_of(low, lower(word)))),
            None => None,
        },
        CapabilityWalk::Table { offset, vsec, .. } => Some(past(vsec, offset)),
        CapabilityWalk::End => Some(CapabilityWalk::End),
    }
}

fn go_past(vsec: UncoreDiscoveryVsec, offset: u64) -> (walk: CapabilityWalk)
    ensures
        walk == past(vsec, offset),
{
    match vsec.next_capability(offset) {
        Some(next) => CapabilityWalk::First { offset: next },
        None => CapabilityWalk::End,
    }
}

fn go_to_table(vsec: UncoreDiscoveryVsec, offset: u64, base: u64) -> (walk: CapabilityWalk)
    ensures
        walk == at_table(vsec, offset, base),
{
    if base == 0 {
        go_past(vsec, offset)
    } else {
        CapabilityWalk::Table { offset, vsec, base }
    }
}

impl CapabilityWalk {
    /// Whether the walk stands where a capability can be.
    pub open spec fn wf(self) -> bool {
        match self {
            CapabilityWalk::First { offset } => offset <= u16::MAX,
            CapabilityWalk::Second { offset, .. } => offset <= u16::MAX,
            CapabilityWalk::BarLow { offset, .. } => offset <= u16::MAX,
            CapabilityWalk::BarHigh { offset, .. } => offset <= u16::MAX,
            CapabilityWalk::Table { offset, .. } => offset <= u16::MAX,
            CapabilityWalk::End => true,
        }
    }

    /// The start of a walk.
    pub fn start() -> (walk: Self)
        ensures
            walk == (CapabilityWalk::First { offset: FIRST_CAPABILITY }),
            walk.wf(),
    {
        CapabilityWalk::First { offset: FIRST_CAPABILITY }
    }

    /// What is to be read next; nothing at a table and at the end.
    pub fn wanted(self) -> (read: Option<ConfigRead>)
        requires
            self.wf(),
        ensures
            read == wanted_of(self),
    {
        match self {
            CapabilityWalk::First { offset } => Some(ConfigRead { offset, width: Width::Bits64 }),
            CapabilityWalk::Second { offset, .. } => Some(
                ConfigRead { offset: offset + 8, width: Width::Bits64 },
            ),
            CapabilityWalk::BarLow { vsec, .. } => Some(
                ConfigRead { offset: vsec.bar_offset(), width: Width::Bits32 },
            ),
            CapabilityWalk::BarHigh { vsec, .. } => Some(
                ConfigRead { offset: vsec.bar_offset() + 4, width: Width::Bits32 },
            ),
            CapabilityWalk::Table { .. } => None,
            CapabilityWalk::End => None,
        }
    }

    /// Where the walk goes on after a word was read, or after it could not be read; nothing where
    /// the walk fails.
    pub fn next(self, word: Option<u64>) -> (walk: Option<Self>)
        requires
            self.wf(),
        ensures
            walk == stepped(self, word),
            walk matches Some(walk) ==> walk.wf(),
    {
        match self {
            CapabilityWalk::First { offset } => match word {
                Some(first) => if first == 0 {
                    Some(CapabilityWalk::End)
                } else {
                    Some(CapabilityWalk::Second { offset, first })
                },
                None => Some(CapabilityWalk::End),
            },
            CapabilityWalk::Second { offset, first } => match word {
                Some(second) => {
                    let vsec = UncoreDiscoveryVsec::from_words(first, second);
                    if vsec.lists_units() {
                        Some(CapabilityWalk::BarLow { offset, vsec })
                    } else {
                        Some(go_past(vsec, offset))
                    }
                },
                None => Some(CapabilityWalk::End),
            },
            CapabilityWalk::BarLow { offset, vsec } => match word {
                Some(word) => {
                    let low: u32 = (word % 0x1_0000_0000) as u32;
                    if bar_is_wide(low) {
                        Some(CapabilityWalk::BarHigh { offset, vsec, low })
                    } else {
                        Some(go_to_table(vsec, offset, decode_discovery_bar(low, 0)))
                    }
                },
                None => None,
            },
            CapabilityWalk::BarHigh { offset, vsec, low } => match word {
                Some(word) => {
                    let high: u32 = (word % 0x1_0000_0000) as u32;
                    Some(go_to_table(vsec, offset, decode_discovery_bar(low, high)))
                },
                None => None,
            },
            CapabilityWalk::Table { offset, vsec, .. } => Some(go_past(vsec, offset)),
            CapabilityWalk::End => Some(CapabilityWalk::End),
        }
    }
}

/// Where a walk over a configuration space stands after some steps; nothing where it failed.
pub open spec fn walked(
    config: spec_fn(ConfigRead) -> Option<u64>,
    walk: CapabilityWalk,
    steps: nat,
) -> Option<CapabilityWalk>
    decreases steps,
{
    if steps == 0 {
        Some(walk)
    } else {
        match walked(config, walk, (steps - 1) as nat) {
            Some(before) => stepped(
                before,
                match wanted_of(before) {
                    Some(read) => config(read),
                    None => None,
                },
            ),
            None => None,
        }
    }
}

/// The capability at an offset, if there is one that can be read.
pub open spec fn capability_at(
    config: spec_fn(ConfigRead) -> Option<u64>,
    offset: u64,
) -> Option<UncoreDiscoveryVsec> {
    match (
        config(ConfigRead { offset, width: Width::Bits64 }),
        config(ConfigRead { offset: (offset + 8) as u64, width: Width::Bits64 }),
    ) {
        (Some(first), Some(second)) => if first == 0 {
            None
        } else {
            Some(discovery::vsec_of(first, second))
        },
        _ => None,
    }
}

/// The address in the base address register that a capability names, if it can be read.
pub open spec fn base_at(
    config: spec_fn(ConfigRead) -> Option<u64>,
    vsec: UncoreDiscoveryVsec,
) -> Option<u64> {
    let offset = 0x10 + vsec.tbir * 4;
    match config(ConfigRead { offset: offset as u64, width: Width::Bits32 }) {
        Some(low) => if discovery::is_wide(lower(low)) {
            match config(ConfigRead { offset: (offset + 4) as u64, width: Width::Bits32 }) {
                Some(high) => Some(discovery::address_of(lower(low), lower(high))),
                None => None,
            }
        } else {
            Some(discovery::address_of(lower(low), 0))
        },
        None => None,
    }
}

/// A walk that comes to a capability stops at its table, if it points to one, and then goes on to
/// the capability after it. It ends where there is no capability, and fails where the address of
/// the table cannot be read.
pub proof fn walk_follows_the_list(
    config: spec_fn(ConfigRead) -> Option<u64>,
    offset: u64,
) -> (steps: nat)
    ensures
        ({
            let start = CapabilityWalk::First { offset };
            match capability_at(config, offset) {
                None => walked(config, start, steps) == Some(CapabilityWalk::End),
                Some(vsec) => if discovery::points_to_units(vsec) {
                    match base_at(config, vsec) {
                        None => walked(config, start, steps) is None,
                        Some(base) => if base == 0 {
                            walked(config, start, steps) == Some(past(vsec, offset))
                        } else {
                            &&& walked(config, start, steps) == Some(
                                CapabilityWalk::Table { offset, vsec, base },
                            )
                            &&& walked(config, start, steps + 1) == Some(past(vsec, offset))
                        },
                    }
                } else {
                    walked(config, start, steps) == Some(past(vsec, offset))
                },
            }
        }),
{
    reveal_with_fuel(walked, 6);
    let start = CapabilityWalk::First { offset };
    match capability_at(config, offset) {
        None => 2,
        Some(vsec) => if discovery::points_to_units(vsec) {
            if walked(config, start, 3) matches Some(walk) && walk is BarHigh {
                4
            } else {
                3
            }
        } else {
            2
        },
    }
}

} // verus!
