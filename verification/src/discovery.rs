//! The discovery tables in which a processor lists its counting units.
//!
//! A PCI device of each socket has a capability that points to a table in memory. The table
//! starts with a global entry and goes on with one entry for each unit.
use crate::topology::{CpuTopology, TopologyScope};
use vstd::prelude::*;

verus! {

/// Where the list of capabilities of a device starts.
pub const FIRST_CAPABILITY: u64 = 0x100;

/// The capability that points to a discovery table.
pub const DISCOVERY_CAPABILITY: u16 = 0x23;

/// The entry of the capability that is on performance monitoring.
pub const PERFORMANCE_MONITORING: u16 = 1;

/// A capability that points to a discovery table.
#[derive(Clone, Copy, Debug, PartialEq, Eq, Structural)]
pub struct UncoreDiscoveryVsec {
    pub address: u32,
    pub cap_id: u16,
    pub cap_next: u16,
    pub entry_id: u16,
    pub tbir: u8,
}

/// The capability that two words hold.
pub open spec fn vsec_of(first: u64, second: u64) -> UncoreDiscoveryVsec {
    UncoreDiscoveryVsec {
        address: ((second / 0x8_0000_0000) % 0x2000_0000) as u32,
        cap_id: (first % 0x1_0000) as u16,
        cap_next: ((first / 0x10_0000) % 0x1000) as u16,
        entry_id: (second % 0x1_0000) as u16,
        tbir: ((second / 0x1_0000_0000) % 8) as u8,
    }
}

/// Whether a capability points to the table of the counting units.
pub open spec fn points_to_units(vsec: UncoreDiscoveryVsec) -> bool {
    vsec.cap_id == DISCOVERY_CAPABILITY && vsec.entry_id == PERFORMANCE_MONITORING
}

/// Where the capability after the one at `offset` is; nothing at the end of the list.
pub open spec fn capability_after(vsec: UncoreDiscoveryVsec, offset: u64) -> Option<u64> {
    let follows = vsec.cap_next - vsec.cap_next % 4;
    if follows == 0 || follows == offset {
        None
    } else {
        Some(follows as u64)
    }
}

impl UncoreDiscoveryVsec {
    /// Takes a capability from its two words.
    pub fn from_words(first: u64, second: u64) -> (vsec: Self)
        ensures
            vsec == vsec_of(first, second),
    {
        assert((second >> 35) & 0x1fff_ffff == (second / 0x8_0000_0000) % 0x2000_0000)
            by (bit_vector);
        assert(first & 0xffff == first % 0x1_0000) by (bit_vector);
        assert((first >> 20) & 0xfff == (first / 0x10_0000) % 0x1000) by (bit_vector);
        assert(second & 0xffff == second % 0x1_0000) by (bit_vector);
        assert((second >> 32) & 7 == (second / 0x1_0000_0000) % 8) by (bit_vector);
        UncoreDiscoveryVsec {
            address: ((second >> 35) & 0x1fff_ffff) as u32,
            cap_id: (first & 0xffff) as u16,
            cap_next: ((first >> 20) & 0xfff) as u16,
            entry_id: (second & 0xffff) as u16,
            tbir: ((second >> 32) & 7) as u8,
        }
    }

    /// Whether the capability points to the table of the counting units.
    pub fn lists_units(self) -> (result: bool)
        ensures
            result == points_to_units(self),
    {
        self.cap_id == DISCOVERY_CAPABILITY && self.entry_id == PERFORMANCE_MONITORING
    }

    /// The base address register that tells where the table is.
    pub fn bar_offset(self) -> (offset: u64)
        ensures
            offset == 0x10 + self.tbir * 4,
    {
        0x10 + self.tbir as u64 * 4
    }

    /// Where the capability after the one at `offset` is; nothing at the end of the list.
    pub fn next_capability(self, offset: u64) -> (next: Option<u64>)
        ensures
            next == capability_after(self, offset),
    {
        let follows: u64 = self.cap_next as u64 - self.cap_next as u64 % 4;
        if follows == 0 || follows == offset {
            None
        } else {
            Some(follows)
        }
    }
}

/// Whether a base address register goes on in the register after it.
pub open spec fn is_wide(low: u32) -> bool {
    (low / 4) % 2 == 1
}

/// Whether a base address register goes on in the register after it.
pub fn bar_is_wide(low: u32) -> (wide: bool)
    ensures
        wide == is_wide(low),
{
    assert((low & 4 != 0) == ((low / 4) % 2 == 1)) by (bit_vector);
    low & 4 != 0
}

/// The address in a base address register, which is a multiple of a page.
pub open spec fn address_of(low: u32, high: u32) -> u64 {
    (high * 0x1_0000_0000 + low - low % 0x1000) as u64
}

/// The address in a base address register.
pub fn decode_discovery_bar(low: u32, high: u32) -> (bar: u64)
    ensures
        bar == address_of(low, high),
        bar == high * 0x1_0000_0000 + low - low % 0x1000,
{
    let l: u64 = low as u64;
    let h: u64 = high as u64;
    assert((l | (h << 32)) & 0xffff_ffff_ffff_f000 == h * 0x1_0000_0000 + l - l % 0x1000)
        by (bit_vector)
        requires
            l < 0x1_0000_0000,
            h < 0x1_0000_0000,
    ;
    (l | (h << 32)) & 0xffff_ffff_ffff_f000
}

/// The global entry of a discovery table.
#[derive(Clone, Copy, Debug, PartialEq, Eq, Structural)]
pub struct UncoreGlobalDiscovery {
    pub max_units: u16,
    pub stride: u8,
}

impl UncoreGlobalDiscovery {
    /// Takes the global entry from its words.
    pub fn from_words(words: [u64; 3]) -> (global: Self)
        ensures
            global.max_units == (words@[0] / 0x1_0000) % 0x400,
            global.stride == (words@[0] / 0x100) % 0x100,
    {
        let word: u64 = words[0];
        assert((word >> 16) & 0x3ff == (word / 0x1_0000) % 0x400) by (bit_vector);
        assert((word >> 8) & 0xff == (word / 0x100) % 0x100) by (bit_vector);
        UncoreGlobalDiscovery {
            max_units: ((word >> 16) & 0x3ff) as u16,
            stride: ((word >> 8) & 0xff) as u8,
        }
    }

    /// Where the entry of a unit is, counted from the start of the table.
    pub fn unit_offset(self, index: u16) -> (offset: u64)
        ensures
            offset == (index + 1) * (self.stride * 8),
    {
        let stride: u64 = self.stride as u64 * 8;
        assert((index + 1) * stride <= 0x1_0000 * 2040) by (nonlinear_arith)
            requires
                index < 0x1_0000,
                stride <= 2040,
        ;
        (index as u64 + 1) * stride
    }
}

/// The entry of a unit in a discovery table.
#[derive(Clone, Copy, Debug, PartialEq, Eq, Structural)]
pub struct UncoreBoxDiscovery {
    pub access_type: u8,
    pub bit_width: u8,
    pub box_control: u64,
    pub box_type: u16,
    pub counter_offset: u8,
    pub control_offset: u8,
    pub num_registers: u8,
}

/// The entry that three words stand for.
pub open spec fn box_of(words: Seq<u64>) -> UncoreBoxDiscovery {
    UncoreBoxDiscovery {
        access_type: (words[0] / 0x4000_0000_0000_0000) as u8,
        bit_width: ((words[0] / 0x1_0000) % 0x100) as u8,
        box_control: words[1],
        box_type: (words[2] % 0x1_0000) as u16,
        counter_offset: ((words[0] / 0x100_0000) % 0x100) as u8,
        control_offset: ((words[0] / 0x100) % 0x100) as u8,
        num_registers: (words[0] % 0x100) as u8,
    }
}

impl UncoreBoxDiscovery {
    /// Takes the entry of a unit from its words.
    pub fn from_words(words: [u64; 3]) -> (entry: Self)
        ensures
            entry == box_of(words@),
    {
        let word: u64 = words[0];
        let kind: u64 = words[2];
        assert((word >> 62) & 3 == word / 0x4000_0000_0000_0000) by (bit_vector);
        assert((word >> 16) & 0xff == (word / 0x1_0000) % 0x100) by (bit_vector);
        assert(kind & 0xffff == kind % 0x1_0000) by (bit_vector);
        assert((word >> 24) & 0xff == (word / 0x100_0000) % 0x100) by (bit_vector);
        assert((word >> 8) & 0xff == (word / 0x100) % 0x100) by (bit_vector);
        assert(word & 0xff == word % 0x100) by (bit_vector);
        UncoreBoxDiscovery {
            access_type: ((word >> 62) & 3) as u8,
            bit_width: ((word >> 16) & 0xff) as u8,
            box_control: words[1],
            box_type: (kind & 0xffff) as u16,
            counter_offset: ((word >> 24) & 0xff) as u8,
            control_offset: ((word >> 8) & 0xff) as u8,
            num_registers: (word & 0xff) as u8,
        }
    }

    /// Whether the entry describes a unit.
    pub fn is_valid(self) -> (valid: bool)
        ensures
            valid == (self.num_registers != 0 && self.box_control != 0),
    {
        self.num_registers != 0 && self.box_control != 0
    }
}

/// The units that the discovery table of a socket lists.
#[derive(Debug)]
pub struct UncoreDiscoverySocketBoxes<S> {
    pub boxes: Vec<UncoreBoxDiscovery>,
    pub scope: S,
}

/// Whether an entry describes a unit of a type that has at least four counters of at most 64
/// bits and is reached as `access_type` says, where that matters.
pub open spec fn is_selected(words: Seq<u64>, box_type: u16, access_type: Option<u8>) -> bool {
    let entry = box_of(words);
    &&& !(words[0] == 0 && words[1] == 0)
    &&& entry.num_registers != 0
    &&& entry.box_control != 0
    &&& access_type matches Some(access_type) ==> entry.access_type == access_type
    &&& entry.bit_width <= 64
    &&& entry.num_registers >= 4
    &&& entry.box_type == box_type
}

/// The units of a type that are listed in the first `n` entries of a table.
pub open spec fn selected_boxes(
    table: Seq<[u64; 3]>,
    box_type: u16,
    access_type: Option<u8>,
    n: nat,
) -> Seq<UncoreBoxDiscovery>
    decreases n,
{
    if n == 0 {
        Seq::empty()
    } else {
        let before = selected_boxes(table, box_type, access_type, (n - 1) as nat);
        if is_selected(table[n - 1]@, box_type, access_type) {
            before.push(box_of(table[n - 1]@))
        } else {
            before
        }
    }
}

/// Picks the units of a type from the entries of a table.
pub fn select_boxes(table: &Vec<[u64; 3]>, box_type: u16, access_type: Option<u8>) -> (boxes: Vec<
    UncoreBoxDiscovery,
>)
    ensures
        boxes@ == selected_boxes(table@, box_type, access_type, table@.len()),
{
    let mut boxes: Vec<UncoreBoxDiscovery> = Vec::new();
    let mut i: usize = 0;
    while i < table.len()
        invariant
            i <= table@.len(),
            boxes@ == selected_boxes(table@, box_type, access_type, i as nat),
        decreases table@.len() - i,
    {
        let words: [u64; 3] = table[i];
        let entry = UncoreBoxDiscovery::from_words(words);
        let reached: bool = match access_type {
            Some(access_type) => entry.access_type == access_type,
            None => true,
        };
        if !(words[0] == 0 && words[1] == 0) && entry.is_valid() && reached && entry.bit_width
            <= 64 && entry.num_registers >= 4 && entry.box_type == box_type {
            boxes.push(entry);
        }
        i += 1;
    }
    boxes
}

/// The index of the first topology of a processor.
pub open spec fn index_of_cpu(topologies: Seq<CpuTopology>, cpu: u32) -> Option<int>
    decreases topologies.len(),
{
    if topologies.len() == 0 {
        None
    } else {
        match index_of_cpu(topologies.drop_last(), cpu) {
            Some(index) => Some(index),
            None => if topologies.last().cpu == cpu {
                Some(topologies.len() - 1)
            } else {
                None
            },
        }
    }
}

/// The scope of the first of `cpus` whose topology is known.
pub open spec fn scope_of_cpus<S: TopologyScope>(
    cpus: Seq<u32>,
    topologies: Seq<CpuTopology>,
) -> Option<S>
    decreases cpus.len(),
{
    if cpus.len() == 0 {
        None
    } else {
        match index_of_cpu(topologies, cpus[0]) {
            Some(index) => S::of(topologies[index].levels@),
            None => scope_of_cpus(cpus.drop_first(), topologies),
        }
    }
}

proof fn lemma_index_stays(topologies: Seq<CpuTopology>, cpu: u32, n: int)
    requires
        0 <= n <= topologies.len(),
        index_of_cpu(topologies.take(n), cpu) is Some,
    ensures
        index_of_cpu(topologies, cpu) == index_of_cpu(topologies.take(n), cpu),
    decreases topologies.len() - n,
{
    if n == topologies.len() {
        assert(topologies.take(n) =~= topologies);
    } else {
        assert(topologies.take(n + 1).drop_last() =~= topologies.take(n));
        lemma_index_stays(topologies, cpu, n + 1);
    }
}

fn find_cpu(topologies: &Vec<CpuTopology>, cpu: u32) -> (index: Option<usize>)
    ensures
        match index {
            Some(index) => index < topologies@.len() && index_of_cpu(topologies@, cpu) == Some(
                index as int,
            ),
            None => index_of_cpu(topologies@, cpu) is None,
        },
{
    let mut i: usize = 0;
    assert(topologies@.take(0) =~= Seq::<CpuTopology>::empty());
    while i < topologies.len()
        invariant
            i <= topologies@.len(),
            index_of_cpu(topologies@.take(i as int), cpu) is None,
        decreases topologies@.len() - i,
    {
        assert(topologies@.take(i + 1).drop_last() =~= topologies@.take(i as int));
        if topologies[i].cpu == cpu {
            proof {
                lemma_index_stays(topologies@, cpu, i + 1);
            }
            return Some(i);
        }
        i += 1;
    }
    assert(topologies@.take(i as int) =~= topologies@);
    None
}

/// The scope of a device, given the processors that are close to it.
pub fn scope_from_local_cpus<S: TopologyScope>(
    local_cpus: &Vec<u32>,
    topologies: &Vec<CpuTopology>,
) -> (scope: Option<S>)
    ensures
        scope == scope_of_cpus::<S>(local_cpus@, topologies@),
{
    let mut i: usize = 0;
    assert(local_cpus@.skip(0) =~= local_cpus@);
    while i < local_cpus.len()
        invariant
            i <= local_cpus@.len(),
            scope_of_cpus::<S>(local_cpus@, topologies@) == scope_of_cpus::<S>(
                local_cpus@.skip(i as int),
                topologies@,
            ),
        decreases local_cpus@.len() - i,
    {
        assert(local_cpus@.skip(i as int).drop_first() =~= local_cpus@.skip(i + 1));
        match find_cpu(topologies, local_cpus[i]) {
            Some(index) => {
                return match S::from_topology(&topologies[index]) {
                    Ok(scope) => Some(scope),
                    Err(_) => None,
                };
            },
            None => {},
        }
        i += 1;
    }
    None
}

} // verus!
