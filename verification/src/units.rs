//! Counting units: how they are programmed, frozen and read, and what their readings amount to.
use crate::accumulator::{
    self, Accumulator, EventKind, EventMeasurement, Grid, Merge, Overflow, Sample,
};
use crate::counter::{self, Aggregate};
use crate::error::CollectorError;
use crate::ordered_map::Key;
use crate::registers::{Register, RegisterRead, RegisterWrite, Width};
use crate::schedule::MAX_SPAN_NANOS;
use crate::seqs;
use vstd::prelude::*;

verus! {

/// The registers of a counting unit.
#[derive(Debug)]
pub struct Unit<S> {
    /// What the unit counts for.
    pub scope: S,
    /// Freezes, resets and releases the counters.
    pub control: Register,
    /// The width of writes.
    pub width: Width,
    /// Is cleared before the counters are programmed.
    pub filter: Option<Register>,
    /// Select the event of each counter.
    pub controls: Vec<Register>,
    /// The counters.
    pub counters: Vec<Register>,
    /// Starts the counter of clock ticks.
    pub fixed_control: Option<Register>,
    /// The counter of clock ticks.
    pub fixed_counter: Option<Register>,
}

/// A write to a register of a unit.
pub open spec fn write_of<S>(unit: Unit<S>, register: Register, value: u64) -> RegisterWrite {
    RegisterWrite { register, value, width: unit.width }
}

/// Writes `words` to the control register of a unit, one after the other.
pub open spec fn control_writes<S>(unit: Unit<S>, words: Seq<u64>) -> Seq<RegisterWrite> {
    words.map_values(|word: u64| write_of(unit, unit.control, word))
}

/// Writes the event selections of the first `n` counters; a counter without one is left alone.
pub open spec fn event_writes<S>(unit: Unit<S>, words: Seq<Option<u64>>, n: nat) -> Seq<
    RegisterWrite,
>
    decreases n,
{
    if n == 0 {
        Seq::empty()
    } else {
        let before = event_writes(unit, words, (n - 1) as nat);
        match words[n - 1] {
            Some(word) => before.push(write_of(unit, unit.controls@[n - 1], word)),
            None => before,
        }
    }
}

/// A write to a register that not every unit has.
pub open spec fn optional_write<S>(unit: Unit<S>, register: Option<Register>, value: u64) -> Seq<
    RegisterWrite,
> {
    match register {
        Some(register) => seq![write_of(unit, register, value)],
        None => Seq::empty(),
    }
}

/// Programs the counters of a unit: the filter is cleared, the events are selected, and the
/// clock counter is started.
pub open spec fn program_writes<S>(
    unit: Unit<S>,
    words: Seq<Option<u64>>,
    fixed: u64,
) -> Seq<RegisterWrite> {
    optional_write(unit, unit.filter, 0) + event_writes(unit, words, words.len())
        + optional_write(unit, unit.fixed_control, fixed)
}

/// Reads the first `n` counters of a unit, leaving out those that are not used.
pub open spec fn counter_reads<S>(unit: Unit<S>, used: Seq<bool>, n: nat) -> Seq<RegisterRead>
    decreases n,
{
    if n == 0 {
        Seq::empty()
    } else {
        let before = counter_reads(unit, used, (n - 1) as nat);
        if used[n - 1] {
            before.push(RegisterRead { register: unit.counters@[n - 1], width: Width::Bits64 })
        } else {
            before
        }
    }
}

/// Reads the counters of a unit that are used, and then its clock counter.
pub open spec fn unit_reads<S>(unit: Unit<S>, used: Seq<bool>) -> Seq<RegisterRead> {
    counter_reads(unit, used, used.len()) + match unit.fixed_counter {
        Some(register) => seq![RegisterRead { register, width: Width::Bits64 }],
        None => Seq::empty(),
    }
}

/// Whether every unit has as many event selections and counters as there are events.
pub open spec fn units_have<S>(units: Seq<Unit<S>>, counters: nat) -> bool {
    forall|i: int|
        0 <= i < units.len() ==> (#[trigger] units[i]).controls@.len() == counters
            && units[i].counters@.len() == counters
}

/// Writes `words` to the control register of every unit, unit by unit.
pub open spec fn all_control_writes<S>(units: Seq<Unit<S>>, words: Seq<u64>) -> Seq<RegisterWrite> {
    seqs::flat_map(units, |unit: Unit<S>| control_writes(unit, words))
}

/// Programs the counters of every unit, unit by unit.
pub open spec fn all_program_writes<S>(
    units: Seq<Unit<S>>,
    words: Seq<Option<u64>>,
    fixed: u64,
) -> Seq<RegisterWrite> {
    seqs::flat_map(units, |unit: Unit<S>| program_writes(unit, words, fixed))
}

/// Reads the counters of every unit that are used, and its clock counter, unit by unit.
pub open spec fn all_reads<S>(units: Seq<Unit<S>>, used: Seq<bool>) -> Seq<RegisterRead> {
    seqs::flat_map(units, |unit: Unit<S>| unit_reads(unit, used))
}

/// Every one of `counters` counters is used.
pub open spec fn every_counter(counters: nat) -> Seq<bool> {
    Seq::new(counters, |i: int| true)
}

/// Writes `words` to the control register of every unit, unit by unit.
pub fn write_controls<S>(units: &Vec<Unit<S>>, words: &Vec<u64>) -> (writes: Vec<RegisterWrite>)
    ensures
        writes@ == all_control_writes(units@, words@),
{
    let ghost f = |unit: Unit<S>| control_writes(unit, words@);
    let mut writes: Vec<RegisterWrite> = Vec::new();
    let mut i: usize = 0;
    proof {
        seqs::lemma_flat_map_ends(units@, f);
    }
    while i < units.len()
        invariant
            i <= units@.len(),
            f == (|unit: Unit<S>| control_writes(unit, words@)),
            writes@ == seqs::flat_map(units@.take(i as int), f),
        decreases units@.len() - i,
    {
        let unit = &units[i];
        let ghost before = writes@;
        let mut j: usize = 0;
        while j < words.len()
            invariant
                j <= words@.len(),
                writes@ == before + control_writes(*unit, words@).take(j as int),
            decreases words@.len() - j,
        {
            writes.push(
                RegisterWrite { register: unit.control, value: words[j], width: unit.width },
            );
            proof {
                let all = control_writes(*unit, words@);
                assert(all.take(j + 1) =~= all.take(j as int).push(all[j as int]));
                assert(writes@ =~= before + all.take(j + 1));
            }
            j += 1;
        }
        proof {
            let all = control_writes(*unit, words@);
            assert(all.take(j as int) =~= all);
            seqs::lemma_flat_map_step(units@, f, i as int);
        }
        i += 1;
    }
    proof {
        seqs::lemma_flat_map_ends(units@, f);
    }
    writes
}

fn push_optional<S>(
    writes: &mut Vec<RegisterWrite>,
    unit: &Unit<S>,
    register: Option<Register>,
    value: u64,
)
    ensures
        final(writes)@ == old(writes)@ + optional_write(*unit, register, value),
{
    match register {
        Some(register) => {
            writes.push(RegisterWrite { register, value, width: unit.width });
        },
        None => {},
    }
    assert(writes@ =~= old(writes)@ + optional_write(*unit, register, value));
}

fn push_program<S>(
    writes: &mut Vec<RegisterWrite>,
    unit: &Unit<S>,
    words: &Vec<Option<u64>>,
    fixed: u64,
)
    requires
        unit.controls@.len() == words@.len(),
    ensures
        final(writes)@ == old(writes)@ + program_writes(*unit, words@, fixed),
{
    push_optional(writes, unit, unit.filter, 0);
    let ghost before = writes@;
    let mut j: usize = 0;
    while j < words.len()
        invariant
            j <= words@.len(),
            unit.controls@.len() == words@.len(),
            writes@ == before + event_writes(*unit, words@, j as nat),
        decreases words@.len() - j,
    {
        let ghost current = writes@;
        match words[j] {
            Some(word) => {
                writes.push(
                    RegisterWrite { register: unit.controls[j], value: word, width: unit.width },
                );
            },
            None => {},
        }
        assert(writes@ =~= before + event_writes(*unit, words@, (j + 1) as nat));
        j += 1;
    }
    push_optional(writes, unit, unit.fixed_control, fixed);
    assert(writes@ =~= old(writes)@ + program_writes(*unit, words@, fixed));
}

/// Programs the counters of every unit, unit by unit.
pub fn write_events<S>(units: &Vec<Unit<S>>, words: &Vec<Option<u64>>, fixed: u64) -> (writes: Vec<
    RegisterWrite,
>)
    requires
        units_have(units@, words@.len()),
    ensures
        writes@ == all_program_writes(units@, words@, fixed),
{
    let ghost f = |unit: Unit<S>| program_writes(unit, words@, fixed);
    let mut writes: Vec<RegisterWrite> = Vec::new();
    let mut i: usize = 0;
    proof {
        seqs::lemma_flat_map_ends(units@, f);
    }
    while i < units.len()
        invariant
            i <= units@.len(),
            units_have(units@, words@.len()),
            f == (|unit: Unit<S>| program_writes(unit, words@, fixed)),
            writes@ == seqs::flat_map(units@.take(i as int), f),
        decreases units@.len() - i,
    {
        push_program(&mut writes, &units[i], words, fixed);
        proof {
            seqs::lemma_flat_map_step(units@, f, i as int);
        }
        i += 1;
    }
    proof {
        seqs::lemma_flat_map_ends(units@, f);
    }
    writes
}

/// Writes `reset` to the control register of a unit and then programs its counters.
pub open spec fn reset_and_program<S>(
    unit: Unit<S>,
    reset: Seq<u64>,
    words: Seq<Option<u64>>,
) -> Seq<RegisterWrite> {
    control_writes(unit, reset) + program_writes(unit, words, 0)
}

/// Resets and programs the counters of every unit, unit by unit.
pub open spec fn all_resets_and_programs<S>(
    units: Seq<Unit<S>>,
    reset: Seq<u64>,
    words: Seq<Option<u64>>,
) -> Seq<RegisterWrite> {
    seqs::flat_map(units, |unit: Unit<S>| reset_and_program(unit, reset, words))
}

fn push_controls<S>(writes: &mut Vec<RegisterWrite>, unit: &Unit<S>, words: &Vec<u64>)
    ensures
        final(writes)@ == old(writes)@ + control_writes(*unit, words@),
{
    let ghost all = control_writes(*unit, words@);
    let mut j: usize = 0;
    while j < words.len()
        invariant
            j <= words@.len(),
            all == control_writes(*unit, words@),
            writes@ == old(writes)@ + all.take(j as int),
        decreases words@.len() - j,
    {
        writes.push(RegisterWrite { register: unit.control, value: words[j], width: unit.width });
        proof {
            assert(all.take(j + 1) =~= all.take(j as int).push(all[j as int]));
            assert(writes@ =~= old(writes)@ + all.take(j + 1));
        }
        j += 1;
    }
    assert(all.take(j as int) =~= all);
}

/// Resets and programs the counters of every unit, unit by unit.
pub fn reset_and_write_events<S>(
    units: &Vec<Unit<S>>,
    reset: &Vec<u64>,
    words: &Vec<Option<u64>>,
) -> (writes: Vec<RegisterWrite>)
    requires
        units_have(units@, words@.len()),
    ensures
        writes@ == all_resets_and_programs(units@, reset@, words@),
{
    let ghost f = |unit: Unit<S>| reset_and_program(unit, reset@, words@);
    let mut writes: Vec<RegisterWrite> = Vec::new();
    let mut i: usize = 0;
    proof {
        seqs::lemma_flat_map_ends(units@, f);
    }
    while i < units.len()
        invariant
            i <= units@.len(),
            units_have(units@, words@.len()),
            f == (|unit: Unit<S>| reset_and_program(unit, reset@, words@)),
            writes@ == seqs::flat_map(units@.take(i as int), f),
        decreases units@.len() - i,
    {
        let ghost before = writes@;
        push_controls(&mut writes, &units[i], reset);
        push_program(&mut writes, &units[i], words, 0);
        proof {
            assert(writes@ =~= before + reset_and_program(units@[i as int], reset@, words@));
            seqs::lemma_flat_map_step(units@, f, i as int);
        }
        i += 1;
    }
    proof {
        seqs::lemma_flat_map_ends(units@, f);
    }
    writes
}

/// Freezes a unit, clears its filter and turns its first counter off.
pub open spec fn unit_probe<S>(unit: Unit<S>, freeze: u64) -> Seq<RegisterWrite> {
    control_writes(unit, seq![freeze]) + optional_write(unit, unit.filter, 0) + seq![
        write_of(unit, unit.controls@[0], 0),
    ]
}

/// Freezes every unit, clears its filter and turns its first counter off, unit by unit.
pub open spec fn all_probes<S>(units: Seq<Unit<S>>, freeze: u64) -> Seq<RegisterWrite> {
    seqs::flat_map(units, |unit: Unit<S>| unit_probe(unit, freeze))
}

/// Freezes every unit, clears its filter and turns its first counter off, unit by unit.
pub fn write_probes<S>(units: &Vec<Unit<S>>, freeze: u64) -> (writes: Vec<RegisterWrite>)
    requires
        forall|i: int| 0 <= i < units@.len() ==> (#[trigger] units@[i]).controls@.len() > 0,
    ensures
        writes@ == all_probes(units@, freeze),
{
    let ghost f = |unit: Unit<S>| unit_probe(unit, freeze);
    let words: Vec<u64> = vec![freeze];
    assert(words@ =~= seq![freeze]);
    let mut writes: Vec<RegisterWrite> = Vec::new();
    let mut i: usize = 0;
    proof {
        seqs::lemma_flat_map_ends(units@, f);
    }
    while i < units.len()
        invariant
            i <= units@.len(),
            forall|i: int| 0 <= i < units@.len() ==> (#[trigger] units@[i]).controls@.len() > 0,
            words@ == seq![freeze],
            f == (|unit: Unit<S>| unit_probe(unit, freeze)),
            writes@ == seqs::flat_map(units@.take(i as int), f),
        decreases units@.len() - i,
    {
        let unit = &units[i];
        let ghost before = writes@;
        push_controls(&mut writes, unit, &words);
        push_optional(&mut writes, unit, unit.filter, 0);
        writes.push(RegisterWrite { register: unit.controls[0], value: 0, width: unit.width });
        proof {
            assert(writes@ =~= before + unit_probe(*unit, freeze));
            seqs::lemma_flat_map_step(units@, f, i as int);
        }
        i += 1;
    }
    proof {
        seqs::lemma_flat_map_ends(units@, f);
    }
    writes
}

/// The registers of every unit that are read after its counters were frozen, unit by unit.
pub fn reads<S>(units: &Vec<Unit<S>>, used: &Vec<bool>) -> (reads: Vec<RegisterRead>)
    requires
        units_have(units@, used@.len()),
    ensures
        reads@ == all_reads(units@, used@),
{
    let ghost f = |unit: Unit<S>| unit_reads(unit, used@);
    let mut reads: Vec<RegisterRead> = Vec::new();
    let mut i: usize = 0;
    proof {
        seqs::lemma_flat_map_ends(units@, f);
    }
    while i < units.len()
        invariant
            i <= units@.len(),
            units_have(units@, used@.len()),
            f == (|unit: Unit<S>| unit_reads(unit, used@)),
            reads@ == seqs::flat_map(units@.take(i as int), f),
        decreases units@.len() - i,
    {
        let unit = &units[i];
        let ghost before = reads@;
        let mut j: usize = 0;
        while j < used.len()
            invariant
                j <= used@.len(),
                unit.counters@.len() == used@.len(),
                reads@ == before + counter_reads(*unit, used@, j as nat),
            decreases used@.len() - j,
        {
            if used[j] {
                reads.push(RegisterRead { register: unit.counters[j], width: Width::Bits64 });
            }
            assert(reads@ =~= before + counter_reads(*unit, used@, (j + 1) as nat));
            j += 1;
        }
        match unit.fixed_counter {
            Some(register) => {
                reads.push(RegisterRead { register, width: Width::Bits64 });
            },
            None => {},
        }
        proof {
            assert(reads@ =~= before + unit_reads(*unit, used@));
            seqs::lemma_flat_map_step(units@, f, i as int);
        }
        i += 1;
    }
    proof {
        seqs::lemma_flat_map_ends(units@, f);
    }
    reads
}

/// A list of `count` times `true`.
pub fn all_used(count: usize) -> (used: Vec<bool>)
    ensures
        used@ == every_counter(count as nat),
{
    let mut used: Vec<bool> = Vec::new();
    while used.len() < count
        invariant
            used@.len() <= count,
            forall|i: int| 0 <= i < used@.len() ==> used@[i],
        decreases count - used@.len(),
    {
        used.push(true);
    }
    assert(used@ =~= every_counter(count as nat));
    used
}

/// The processors whose registers freeze the units, in unit order; neighbours that share one name
/// it once.
pub open spec fn processors<S>(units: Seq<Unit<S>>) -> Seq<u32>
    decreases units.len(),
{
    if units.len() == 0 {
        Seq::empty()
    } else {
        let before = processors(units.drop_last());
        match units.last().control {
            Register::Msr { cpu, .. } => if before.len() > 0 && before.last() == cpu {
                before
            } else {
                before.push(cpu)
            },
            _ => before,
        }
    }
}

/// Lists the processors whose registers freeze the units.
pub fn processors_of<S>(units: &Vec<Unit<S>>) -> (cpus: Vec<u32>)
    ensures
        cpus@ == processors(units@),
{
    let mut cpus: Vec<u32> = Vec::new();
    let mut i: usize = 0;
    assert(units@.take(0) =~= Seq::<Unit<S>>::empty());
    while i < units.len()
        invariant
            i <= units@.len(),
            cpus@ == processors(units@.take(i as int)),
        decreases units@.len() - i,
    {
        assert(units@.take(i + 1).drop_last() =~= units@.take(i as int));
        match units[i].control {
            Register::Msr { cpu, .. } => {
                if cpus.len() == 0 || cpus[cpus.len() - 1] != cpu {
                    cpus.push(cpu);
                }
            },
            _ => {},
        }
        i += 1;
    }
    assert(units@.take(i as int) =~= units@);
    cpus
}

/// What a counter of a unit counts while a group of events is programmed.
#[derive(Clone, Copy, Debug)]
pub struct CounterUse<K> {
    pub aggregate: Aggregate,
    pub kind: Option<K>,
}

/// The clock counter of a unit.
#[derive(Clone, Copy, Debug, PartialEq, Eq, Structural)]
pub enum Clock {
    /// The unit has none.
    Absent,
    /// All bits of its register count.
    Full,
    /// The low 48 bits of its register count.
    Masked,
}

impl Clock {
    /// Whether there is one.
    pub fn ticks(self) -> (ticks: bool)
        ensures
            ticks == (self !is Absent),
    {
        match self {
            Clock::Absent => false,
            _ => true,
        }
    }
}

/// How often the running time and the clock ticks of a slice enter the measurement of an event
/// that more than one counter counts.
#[derive(Clone, Copy, Debug, PartialEq, Eq, Structural)]
pub enum Tally {
    /// Once for each counter that counts the event.
    Counter,
    /// Once, however many counters count the event.
    Event,
}

/// How many of the first `n` counters count an event.
pub open spec fn counters_of<K>(uses: Seq<CounterUse<K>>, kind: K, n: nat) -> nat
    decreases n,
{
    if n == 0 {
        0
    } else {
        let before = counters_of(uses, kind, (n - 1) as nat);
        if uses[n - 1].kind == Some(kind) {
            before + 1
        } else {
            before
        }
    }
}

/// How often the running time and the clock ticks of a slice enter the measurement of an event.
pub open spec fn times_of<K>(uses: Seq<CounterUse<K>>, kind: K, tally: Tally) -> nat {
    match tally {
        Tally::Counter => counters_of(uses, kind, uses.len()),
        Tally::Event => 1,
    }
}

/// The value of a clock register.
pub open spec fn tick_value(value: u64, clock: Clock) -> u64 {
    match clock {
        Clock::Masked => counted(value),
        _ => value,
    }
}

/// The readings of a slice: the same number of values for each unit, unit by unit, the counters
/// first and the clock counter, where there is one, last.
pub struct SliceReadings {
    pub values: Vec<u64>,
    pub enabled_nanos: u128,
    pub running_nanos: u128,
}

/// The value of a counter register, of which the low 48 bits count.
pub open spec fn counted(value: u64) -> u64 {
    value % 0x1_0000_0000_0000
}

/// What counter `j` read in the units of a scope, in unit order.
pub open spec fn counter_column<S>(
    units: Seq<Unit<S>>,
    values: Seq<u64>,
    width: int,
    scope: S,
    j: int,
) -> Seq<u64>
    decreases units.len(),
{
    if units.len() == 0 {
        Seq::empty()
    } else {
        let before = counter_column(units.drop_last(), values, width, scope, j);
        if units.last().scope == scope {
            before.push(counted(values[(units.len() - 1) * width + j]))
        } else {
            before
        }
    }
}

/// What the clock counter, the last value of a unit, read in the units of a scope.
pub open spec fn tick_column<S>(
    units: Seq<Unit<S>>,
    values: Seq<u64>,
    width: int,
    scope: S,
    clock: Clock,
) -> Seq<u64>
    decreases units.len(),
{
    if units.len() == 0 {
        Seq::empty()
    } else {
        let before = tick_column(units.drop_last(), values, width, scope, clock);
        if units.last().scope == scope {
            before.push(tick_value(values[(units.len() - 1) * width + width - 1], clock))
        } else {
            before
        }
    }
}

/// The sum of what the first `n` counters counted of an event in the units of a scope.
pub open spec fn event_total<S, K>(
    units: Seq<Unit<S>>,
    values: Seq<u64>,
    width: int,
    scope: S,
    uses: Seq<CounterUse<K>>,
    kind: K,
    n: nat,
) -> nat
    decreases n,
{
    if n == 0 {
        0
    } else {
        let before = event_total(units, values, width, scope, uses, kind, (n - 1) as nat);
        if uses[n - 1].kind == Some(kind) {
            before + counter::aggregated(
                uses[n - 1].aggregate,
                counter_column(units, values, width, scope, n - 1),
            )
        } else {
            before
        }
    }
}

/// Whether the sums that enter the total of an event in a scope fit in 64 bits.
pub open spec fn event_fits<S, K>(
    units: Seq<Unit<S>>,
    values: Seq<u64>,
    width: int,
    scope: S,
    uses: Seq<CounterUse<K>>,
    kind: K,
) -> bool {
    &&& forall|j: int|
        0 <= j < uses.len() && (#[trigger] uses[j]).kind == Some(kind) && uses[j].aggregate
            !is Disabled ==> counter::total(counter_column(units, values, width, scope, j))
            <= u64::MAX
    &&& event_total(units, values, width, scope, uses, kind, uses.len()) <= u64::MAX
}

/// Whether some unit counts for the scope.
pub open spec fn has_scope<S>(units: Seq<Unit<S>>, scope: S) -> bool {
    exists|i: int| 0 <= i < units.len() && (#[trigger] units[i]).scope == scope
}

/// Whether some counter counts the event.
pub open spec fn has_kind<K: EventKind>(uses: Seq<CounterUse<K>>, kind: K) -> bool {
    &&& kind.is_counted()
    &&& exists|j: int| 0 <= j < uses.len() && (#[trigger] uses[j]).kind == Some(kind)
}

/// Whether the clock ticks that the units of a scope read can be averaged.
pub open spec fn ticks_fit<S>(
    units: Seq<Unit<S>>,
    values: Seq<u64>,
    width: int,
    scope: S,
    clock: Clock,
) -> bool {
    clock !is Absent ==> counter::total(tick_column(units, values, width, scope, clock)) <= u64::MAX
}

/// The average of the clock ticks that the units of a scope read.
pub open spec fn mean_ticks<S>(
    units: Seq<Unit<S>>,
    values: Seq<u64>,
    width: int,
    scope: S,
    clock: Clock,
) -> nat {
    if clock !is Absent {
        counter::mean(tick_column(units, values, width, scope, clock))
    } else {
        0
    }
}

/// Whether the running time and the clock ticks of a slice still fit where they enter more than
/// once.
pub open spec fn times_fit(times: nat, ticks: nat, running_nanos: u128) -> bool {
    times > 1 ==> times * running_nanos <= MAX_SPAN_NANOS && times * ticks <= u64::MAX
}

/// What a slice measured of an event in a scope: the counts of its units taken together, the time
/// for which the counters ran, and the average of the clock ticks of the units.
pub open spec fn measured<S, K>(
    units: Seq<Unit<S>>,
    values: Seq<u64>,
    clock: Clock,
    tally: Tally,
    scope: S,
    uses: Seq<CounterUse<K>>,
    kind: K,
    enabled_nanos: u128,
    running_nanos: u128,
) -> EventMeasurement {
    let width = values_per_unit(uses.len(), clock);
    let times = times_of(uses, kind, tally);
    EventMeasurement {
        enabled_nanos,
        running_nanos: (times * running_nanos) as u128,
        ticks: (times * mean_ticks(units, values, width, scope, clock)) as u64,
        value: event_total(units, values, width, scope, uses, kind, uses.len()) as u64,
    }
}

/// How many values a unit hands in.
pub open spec fn values_per_unit(counters: nat, clock: Clock) -> int {
    if clock !is Absent {
        counters as int + 1
    } else {
        counters as int
    }
}

/// Whether the measurement of an event in a scope fits, by itself and added to what is held.
pub open spec fn event_recordable<S, K: EventKind>(
    grid: Grid<S, K, EventMeasurement>,
    units: Seq<Unit<S>>,
    readings: SliceReadings,
    clock: Clock,
    tally: Tally,
    uses: Seq<CounterUse<K>>,
    scope: S,
    kind: K,
) -> bool {
    &&& event_fits(
        units,
        readings.values@,
        values_per_unit(uses.len(), clock),
        scope,
        uses,
        kind,
    )
    &&& times_fit(
        times_of(uses, kind, tally),
        mean_ticks(
            units,
            readings.values@,
            values_per_unit(uses.len(), clock),
            scope,
            clock,
        ),
        readings.running_nanos,
    )
    &&& accumulator::addable(
        grid,
        Sample {
            scope,
            kind,
            measurement: measured(
                units,
                readings.values@,
                clock,
                tally,
                scope,
                uses,
                kind,
                readings.enabled_nanos,
                readings.running_nanos,
            ),
        },
    )
}

/// Whether the clock ticks and every event of a scope fit.
pub open spec fn scope_recordable<S, K: EventKind>(
    grid: Grid<S, K, EventMeasurement>,
    units: Seq<Unit<S>>,
    readings: SliceReadings,
    clock: Clock,
    tally: Tally,
    uses: Seq<CounterUse<K>>,
    scope: S,
) -> bool {
    &&& ticks_fit(
        units,
        readings.values@,
        values_per_unit(uses.len(), clock),
        scope,
        clock,
    )
    &&& forall|kind: K|
        has_kind(uses, kind) ==> #[trigger] event_recordable(
            grid,
            units,
            readings,
            clock,
            tally,
            uses,
            scope,
            kind,
        )
}

/// What is held of an event in a scope.
pub open spec fn cell<S, K, M>(grid: Grid<S, K, M>, scope: S, kind: K) -> Option<M> {
    accumulator::held(accumulator::row_of(grid, scope), kind)
}

/// A measurement merged into what is held.
pub open spec fn merged_into<M: Merge>(held: Option<M>, measurement: M) -> M {
    match held {
        Some(earlier) => earlier.merged(measurement),
        None => measurement,
    }
}

/// Whether `after` holds what `before` held and, of every event that was counted in every scope
/// that has units, the measurement of the slice on top.
pub open spec fn slice_recorded<S, K: EventKind>(
    before: Grid<S, K, EventMeasurement>,
    after: Grid<S, K, EventMeasurement>,
    units: Seq<Unit<S>>,
    readings: SliceReadings,
    clock: Clock,
    tally: Tally,
    uses: Seq<CounterUse<K>>,
) -> bool {
    &&& forall|scope: S, kind: K| #[trigger]
        cell(after, scope, kind) == if has_scope(units, scope) && has_kind(uses, kind) {
            Some(
                merged_into(
                    cell(before, scope, kind),
                    measured(
                        units,
                        readings.values@,
                        clock,
                        tally,
                        scope,
                        uses,
                        kind,
                        readings.enabled_nanos,
                        readings.running_nanos,
                    ),
                ),
            )
        } else {
            cell(before, scope, kind)
        }
}

/// Whether two keys are the same.
pub fn same<K: Key>(a: &K, b: &K) -> (result: bool)
    ensures
        result == (*a == *b),
{
    let result: bool = !a.precedes(b) && !b.precedes(a);
    proof {
        if result {
            K::rank_injective(*a, *b);
        }
    }
    result
}

fn column<S: Key>(
    units: &Vec<Unit<S>>,
    values: &Vec<u64>,
    width: usize,
    scope: S,
    j: usize,
) -> (column: Vec<u64>)
    requires
        j < width,
        values@.len() == units@.len() * width,
    ensures
        column@ == counter_column(units@, values@, width as int, scope, j as int),
{
    let mut column: Vec<u64> = Vec::new();
    let mut i: usize = 0;
    let mut base: usize = 0;
    let count: usize = values.len();
    assert(units@.take(0) =~= Seq::<Unit<S>>::empty());
    while i < units.len()
        invariant
            i <= units@.len(),
            j < width,
            base == i * width,
            count == values@.len(),
            values@.len() == units@.len() * width,
            column@ == counter_column(
                units@.take(i as int),
                values@,
                width as int,
                scope,
                j as int,
            ),
        decreases units@.len() - i,
    {
        assert((i + 1) * width == i * width + width) by (nonlinear_arith);
        assert((i + 1) * width <= units@.len() * width) by (nonlinear_arith)
            requires
                i + 1 <= units@.len(),
                width > 0,
        ;
        assert(units@.take(i + 1).drop_last() =~= units@.take(i as int));
        if same(&units[i].scope, &scope) {
            column.push(counter::mask_counter(values[base + j]));
        }
        i += 1;
        base += width;
    }
    assert(units@.take(i as int) =~= units@);
    column
}

fn ticks_of<S: Key>(
    units: &Vec<Unit<S>>,
    values: &Vec<u64>,
    width: usize,
    scope: S,
    clock: Clock,
) -> (column: Vec<u64>)
    requires
        width > 0,
        values@.len() == units@.len() * width,
    ensures
        column@ == tick_column(units@, values@, width as int, scope, clock),
{
    let mut column: Vec<u64> = Vec::new();
    let mut i: usize = 0;
    let mut base: usize = 0;
    let count: usize = values.len();
    assert(units@.take(0) =~= Seq::<Unit<S>>::empty());
    while i < units.len()
        invariant
            i <= units@.len(),
            width > 0,
            base == i * width,
            count == values@.len(),
            values@.len() == units@.len() * width,
            column@ == tick_column(units@.take(i as int), values@, width as int, scope, clock),
        decreases units@.len() - i,
    {
        assert((i + 1) * width == i * width + width) by (nonlinear_arith);
        assert((i + 1) * width <= units@.len() * width) by (nonlinear_arith)
            requires
                i + 1 <= units@.len(),
                width > 0,
        ;
        assert(units@.take(i + 1).drop_last() =~= units@.take(i as int));
        if same(&units[i].scope, &scope) {
            let value: u64 = values[base + (width - 1)];
            column.push(
                match clock {
                    Clock::Masked => counter::mask_counter(value),
                    _ => value,
                },
            );
        }
        i += 1;
        base += width;
    }
    assert(units@.take(i as int) =~= units@);
    column
}

proof fn lemma_event_total_grows<S, K>(
    units: Seq<Unit<S>>,
    values: Seq<u64>,
    width: int,
    scope: S,
    uses: Seq<CounterUse<K>>,
    kind: K,
    m: nat,
    n: nat,
)
    requires
        m <= n,
    ensures
        event_total(units, values, width, scope, uses, kind, m) <= event_total(
            units,
            values,
            width,
            scope,
            uses,
            kind,
            n,
        ),
    decreases n,
{
    if m < n {
        lemma_event_total_grows(units, values, width, scope, uses, kind, m, (n - 1) as nat);
    }
}

fn total_of_event<S: Key, K: EventKind>(
    units: &Vec<Unit<S>>,
    values: &Vec<u64>,
    width: usize,
    scope: S,
    uses: &Vec<CounterUse<K>>,
    kind: K,
) -> (result: Option<u64>)
    requires
        uses@.len() <= width,
        width > 0,
        values@.len() == units@.len() * width,
    ensures
        match result {
            Some(total) => event_fits(units@, values@, width as int, scope, uses@, kind) && total
                == event_total(units@, values@, width as int, scope, uses@, kind, uses@.len()),
            None => !event_fits(units@, values@, width as int, scope, uses@, kind),
        },
{
    let mut total: u64 = 0;
    let mut j: usize = 0;
    while j < uses.len()
        invariant
            j <= uses@.len() <= width,
            width > 0,
            values@.len() == units@.len() * width,
            total == event_total(units@, values@, width as int, scope, uses@, kind, j as nat),
            forall|i: int|
                0 <= i < j && (#[trigger] uses@[i]).kind == Some(kind) && uses@[i].aggregate
                    !is Disabled ==> counter::total(
                    counter_column(units@, values@, width as int, scope, i),
                ) <= u64::MAX,
        decreases uses@.len() - j,
    {
        let counts: bool = match uses[j].kind {
            Some(other) => same(&other, &kind),
            None => false,
        };
        proof {
            lemma_event_total_grows(
                units@,
                values@,
                width as int,
                scope,
                uses@,
                kind,
                (j + 1) as nat,
                uses@.len(),
            );
        }
        if counts {
            let values_of_counter: Vec<u64> = column(units, values, width, scope, j);
            match uses[j].aggregate.aggregate(&values_of_counter) {
                Some(value) => match total.checked_add(value) {
                    Some(next) => {
                        total = next;
                    },
                    None => {
                        return None;
                    },
                },
                None => {
                    return None;
                },
            }
        }
        j += 1;
    }
    Some(total)
}

proof fn lemma_has_kind_step<K: EventKind>(uses: Seq<CounterUse<K>>, j: int, kind: K)
    requires
        0 <= j < uses.len(),
    ensures
        has_kind(uses.take(j + 1), kind) == (has_kind(uses.take(j), kind) || (kind.is_counted()
            && uses[j].kind == Some(kind))),
{
    let before = uses.take(j);
    let after = uses.take(j + 1);
    if has_kind(before, kind) {
        let m = choose|m: int| 0 <= m < before.len() && (#[trigger] before[m]).kind == Some(kind);
        assert(after[m].kind == Some(kind));
    }
    if uses[j].kind == Some(kind) {
        assert(after[j].kind == Some(kind));
    }
    if has_kind(after, kind) {
        let m = choose|m: int| 0 <= m < after.len() && (#[trigger] after[m]).kind == Some(kind);
        if m < j {
            assert(before[m].kind == Some(kind));
        }
    }
}

proof fn lemma_has_scope_step<S>(units: Seq<Unit<S>>, i: int, scope: S)
    requires
        0 <= i < units.len(),
    ensures
        has_scope(units.take(i + 1), scope) == (has_scope(units.take(i), scope) || units[i].scope
            == scope),
        has_scope(units, units[i].scope),
{
    let before = units.take(i);
    let after = units.take(i + 1);
    if has_scope(before, scope) {
        let m = choose|m: int| 0 <= m < before.len() && (#[trigger] before[m]).scope == scope;
        assert(after[m].scope == scope);
    }
    if units[i].scope == scope {
        assert(after[i].scope == scope);
    }
    if has_scope(after, scope) {
        let m = choose|m: int| 0 <= m < after.len() && (#[trigger] after[m]).scope == scope;
        if m < i {
            assert(before[m].scope == scope);
        }
    }
}

fn kind_in_prefix<K: EventKind>(uses: &Vec<CounterUse<K>>, n: usize, kind: K) -> (found: bool)
    requires
        n <= uses@.len(),
    ensures
        found == has_kind(uses@.take(n as int), kind),
{
    if !kind.counts() {
        return false;
    }
    let mut j: usize = 0;
    while j < n
        invariant
            j <= n <= uses@.len(),
            kind.is_counted(),
            !has_kind(uses@.take(j as int), kind),
        decreases n - j,
    {
        let hit: bool = match uses[j].kind {
            Some(other) => same(&other, &kind),
            None => false,
        };
        proof {
            lemma_has_kind_step(uses@, j as int, kind);
        }
        if hit {
            proof {
                let before = uses@.take(j + 1);
                let m = choose|m: int|
                    0 <= m < before.len() && (#[trigger] before[m]).kind == Some(kind);
                assert(uses@.take(n as int)[m].kind == Some(kind));
            }
            return true;
        }
        j += 1;
    }
    false
}

fn scope_in_prefix<S: Key>(units: &Vec<Unit<S>>, n: usize, scope: S) -> (found: bool)
    requires
        n <= units@.len(),
    ensures
        found == has_scope(units@.take(n as int), scope),
{
    let mut i: usize = 0;
    while i < n
        invariant
            i <= n <= units@.len(),
            !has_scope(units@.take(i as int), scope),
        decreases n - i,
    {
        proof {
            lemma_has_scope_step(units@, i as int, scope);
        }
        if same(&units[i].scope, &scope) {
            assert(units@.take(n as int)[i as int].scope == scope);
            return true;
        }
        i += 1;
    }
    false
}

/// What adding a measurement does to a cell.
pub proof fn lemma_added_cell<S, K: EventKind, M: Merge>(
    grid: Grid<S, K, M>,
    sample: Sample<S, K, M>,
    scope: S,
    kind: K,
)
    ensures
        cell(accumulator::added(grid, sample), scope, kind) == if scope == sample.scope && kind
            == sample.kind && kind.is_counted() {
            Some(merged_into(cell(grid, scope, kind), sample.measurement))
        } else {
            cell(grid, scope, kind)
        },
{
}

proof fn lemma_counters_bound<K>(uses: Seq<CounterUse<K>>, kind: K, n: nat)
    ensures
        counters_of(uses, kind, n) <= n,
    decreases n,
{
    if n > 0 {
        lemma_counters_bound(uses, kind, (n - 1) as nat);
    }
}

fn count_times<K: EventKind>(uses: &Vec<CounterUse<K>>, kind: K, tally: Tally) -> (times: usize)
    ensures
        times == times_of(uses@, kind, tally),
{
    match tally {
        Tally::Counter => {
            let mut times: usize = 0;
            let mut j: usize = 0;
            while j < uses.len()
                invariant
                    j <= uses@.len(),
                    times == counters_of(uses@, kind, j as nat),
                decreases uses@.len() - j,
            {
                proof {
                    lemma_counters_bound(uses@, kind, j as nat);
                }
                match uses[j].kind {
                    Some(other) => {
                        if same(&other, &kind) {
                            times += 1;
                        }
                    },
                    None => {},
                }
                j += 1;
            }
            times
        },
        Tally::Event => 1,
    }
}

fn enter(times: usize, ticks: u64, running_nanos: u128) -> (entered: Option<(u128, u64)>)
    ensures
        match entered {
            Some((running, all_ticks)) => times_fit(times as nat, ticks as nat, running_nanos)
                && running == (times * running_nanos) as u128 && all_ticks == (times
                * ticks) as u64,
            None => !times_fit(times as nat, ticks as nat, running_nanos),
        },
{
    if times == 0 {
        return Some((0, 0));
    }
    if times == 1 {
        return Some((running_nanos, ticks));
    }
    match (running_nanos.checked_mul(times as u128), ticks.checked_mul(times as u64)) {
        (Some(running), Some(all_ticks)) => {
            assert(times * running_nanos == running_nanos * times) by (nonlinear_arith);
            assert(times * ticks == ticks * times) by (nonlinear_arith);
            if running <= MAX_SPAN_NANOS {
                Some((running, all_ticks))
            } else {
                None
            }
        },
        _ => {
            assert(times * running_nanos == running_nanos * times) by (nonlinear_arith);
            assert(times * ticks == ticks * times) by (nonlinear_arith);
            None
        },
    }
}

fn record_scope<S: Key, K: EventKind>(
    units: &Vec<Unit<S>>,
    readings: &SliceReadings,
    clock: Clock,
    tally: Tally,
    uses: &Vec<CounterUse<K>>,
    width: usize,
    scope: S,
    held: Accumulator<S, K, EventMeasurement>,
) -> (result: Result<Accumulator<S, K, EventMeasurement>, Overflow>)
    requires
        held.wf(),
        width == values_per_unit(uses@.len(), clock),
        readings.values@.len() == units@.len() * width,
    ensures
        match result {
            Ok(after) => {
                &&& after.wf()
                &&& scope_recordable(held.grid(), units@, *readings, clock, tally, uses@, scope)
                &&& forall|s: S, kind: K| #[trigger]
                    cell(after.grid(), s, kind) == if s == scope && has_kind(uses@, kind) {
                        Some(
                            merged_into(
                                cell(held.grid(), s, kind),
                                measured(
                                    units@,
                                    readings.values@,
                                    clock,
                                    tally,
                                    s,
                                    uses@,
                                    kind,
                                    readings.enabled_nanos,
                                    readings.running_nanos,
                                ),
                            ),
                        )
                    } else {
                        cell(held.grid(), s, kind)
                    }
            },
            Err(_) => !scope_recordable(held.grid(), units@, *readings, clock, tally, uses@, scope),
        },
{
    let ticks: u64 = if clock.ticks() {
        let column: Vec<u64> = ticks_of(units, &readings.values, width, scope, clock);
        match counter::average(&column) {
            Some(ticks) => ticks,
            None => {
                return Err(Overflow);
            },
        }
    } else {
        0
    };
    let ghost start = held.grid();
    let ghost w = width as int;
    let ghost values = readings.values@;
    let mut current = held;
    let mut j: usize = 0;
    while j < uses.len()
        invariant
            j <= uses@.len() <= width,
            width == values_per_unit(uses@.len(), clock),
            w == width,
            values == readings.values@,
            values.len() == units@.len() * width,
            current.wf(),
            start == held.grid(),
            ticks_fit(units@, values, w, scope, clock),
            ticks == mean_ticks(units@, values, w, scope, clock),
            forall|s: S, kind: K| #[trigger]
                cell(current.grid(), s, kind) == if s == scope && has_kind(
                    uses@.take(j as int),
                    kind,
                ) {
                    Some(
                        merged_into(
                            cell(start, s, kind),
                            measured(
                                units@,
                                values,
                                clock,
                                tally,
                                s,
                                uses@,
                                kind,
                                readings.enabled_nanos,
                                readings.running_nanos,
                            ),
                        ),
                    )
                } else {
                    cell(start, s, kind)
                },
            forall|kind: K|
                has_kind(uses@.take(j as int), kind) ==> #[trigger] event_recordable(
                    start,
                    units@,
                    *readings,
                    clock,
                    tally,
                    uses@,
                    scope,
                    kind,
                ),
        decreases uses@.len() - j,
    {
        proof {
            assert forall|x: K| #[trigger]
                has_kind(uses@.take(j + 1), x) == (has_kind(uses@.take(j as int), x) || (
                x.is_counted() && uses@[j as int].kind == Some(x))) by {
                lemma_has_kind_step(uses@, j as int, x);
            }
        }
        match uses[j].kind {
            Some(kind) => {
                if kind.counts() && !kind_in_prefix(uses, j, kind) {
                    assert(uses@[j as int].kind == Some(kind));
                    assert(has_kind(uses@, kind));
                    match total_of_event(units, &readings.values, width, scope, uses, kind) {
                        Some(value) => {
                            let times: usize = count_times(uses, kind, tally);
                            let (running_nanos, ticks): (u128, u64) = match enter(
                                times,
                                ticks,
                                readings.running_nanos,
                            ) {
                                Some(entered) => entered,
                                None => {
                                    assert(!event_recordable(
                                        start,
                                        units@,
                                        *readings,
                                        clock,
                                        tally,
                                        uses@,
                                        scope,
                                        kind,
                                    ));
                                    return Err(Overflow);
                                },
                            };
                            let measurement = EventMeasurement {
                                enabled_nanos: readings.enabled_nanos,
                                running_nanos,
                                ticks,
                                value,
                            };
                            let ghost before = current.grid();
                            let sample = Sample { scope, kind, measurement };
                            assert(cell(before, scope, kind) == cell(start, scope, kind));
                            match current.add(sample) {
                                Ok(after) => {
                                    proof {
                                        assert forall|s: S, x: K| #[trigger]
                                            cell(after.grid(), s, x) == if s == scope && x
                                            == kind {
                                            Some(merged_into(cell(before, s, x), measurement))
                                        } else {
                                            cell(before, s, x)
                                        } by {
                                            lemma_added_cell(before, sample, s, x);
                                        }
                                    }
                                    current = after;
                                },
                                Err(overflow) => {
                                    assert(!event_recordable(
                                        start,
                                        units@,
                                        *readings,
                                        clock,
                                        tally,
                                        uses@,
                                        scope,
                                        kind,
                                    ));
                                    return Err(overflow);
                                },
                            }
                        },
                        None => {
                            assert(!event_recordable(
                                start,
                                units@,
                                *readings,
                                clock,
                                tally,
                                uses@,
                                scope,
                                kind,
                            ));
                            return Err(Overflow);
                        },
                    }
                }
            },
            None => {},
        }
        j += 1;
    }
    assert(uses@.take(j as int) =~= uses@);
    Ok(current)
}

/// Whether `result` is what `held` becomes when the readings of a slice are added scope by scope.
/// It is an error where the readings are not as many as the units hand in, and where a total does
/// not fit.
pub open spec fn is_record_by_scope<S: Key, K: EventKind>(
    units: Seq<Unit<S>>,
    readings: SliceReadings,
    clock: Clock,
    tally: Tally,
    uses: Seq<CounterUse<K>>,
    held: Accumulator<S, K, EventMeasurement>,
    result: Result<Accumulator<S, K, EventMeasurement>, CollectorError>,
) -> bool {
    let width = values_per_unit(uses.len(), clock);
    match result {
        Ok(after) => {
            &&& readings.values@.len() == units.len() * width
            &&& after.wf()
            &&& slice_recorded(held.grid(), after.grid(), units, readings, clock, tally, uses)
            &&& forall|scope: S|
                has_scope(units, scope) ==> #[trigger] scope_recordable(
                    held.grid(),
                    units,
                    readings,
                    clock,
                    tally,
                    uses,
                    scope,
                )
        },
        Err(error) => if readings.values@.len() == units.len() * width {
            &&& error == CollectorError::Overflow
            &&& exists|scope: S|
                has_scope(units, scope) && !#[trigger] scope_recordable(
                    held.grid(),
                    units,
                    readings,
                    clock,
                    tally,
                    uses,
                    scope,
                )
        } else {
            error == (CollectorError::ReadingCount {
                expected: width as usize,
                found: readings.values@.len() as usize,
            })
        },
    }
}

/// Adds the readings of a slice to what is held: for every scope that has units and every event
/// that a counter counts, what the units of the scope counted together.
pub fn record_by_scope<S: Key, K: EventKind>(
    units: &Vec<Unit<S>>,
    readings: &SliceReadings,
    clock: Clock,
    tally: Tally,
    uses: &Vec<CounterUse<K>>,
    held: Accumulator<S, K, EventMeasurement>,
) -> (result: Result<Accumulator<S, K, EventMeasurement>, CollectorError>)
    requires
        held.wf(),
        uses@.len() < usize::MAX,
    ensures
        is_record_by_scope(units@, *readings, clock, tally, uses@, held, result),
{
    let width: usize = if clock.ticks() {
        uses.len() + 1
    } else {
        uses.len()
    };
    let matching: bool = match units.len().checked_mul(width) {
        Some(count) => count == readings.values.len(),
        None => false,
    };
    if !matching {
        return Err(
            CollectorError::ReadingCount { expected: width, found: readings.values.len() },
        );
    }
    let ghost start = held.grid();
    let mut current = held;
    let mut i: usize = 0;
    while i < units.len()
        invariant
            i <= units@.len(),
            width == values_per_unit(uses@.len(), clock),
            readings.values@.len() == units@.len() * width,
            current.wf(),
            start == held.grid(),
            forall|scope: S, kind: K| #[trigger]
                cell(current.grid(), scope, kind) == if has_scope(units@.take(i as int), scope)
                    && has_kind(uses@, kind) {
                    Some(
                        merged_into(
                            cell(start, scope, kind),
                            measured(
                                units@,
                                readings.values@,
                                clock,
                                tally,
                                scope,
                                uses@,
                                kind,
                                readings.enabled_nanos,
                                readings.running_nanos,
                            ),
                        ),
                    )
                } else {
                    cell(start, scope, kind)
                },
            forall|scope: S|
                has_scope(units@.take(i as int), scope) ==> #[trigger] scope_recordable(
                    start,
                    units@,
                    *readings,
                    clock,
                    tally,
                    uses@,
                    scope,
                ),
        decreases units@.len() - i,
    {
        let scope: S = units[i].scope;
        proof {
            assert forall|s: S| #[trigger]
                has_scope(units@.take(i + 1), s) == (has_scope(units@.take(i as int), s) || scope
                    == s) by {
                lemma_has_scope_step(units@, i as int, s);
            }
            lemma_has_scope_step(units@, i as int, scope);
        }
        if !scope_in_prefix(units, i, scope) {
            let ghost before = current.grid();
            proof {
                assert(scope_recordable(before, units@, *readings, clock, tally, uses@, scope)
                    == scope_recordable(start, units@, *readings, clock, tally, uses@, scope)) by {
                    assert forall|kind: K|
                        #![
                            trigger event_recordable(
                                before,
                                units@,
                                *readings,
                                clock,
                                tally,
                                uses@,
                                scope,
                                kind,
                            ),
                        ]
                        #![
                            trigger event_recordable(
                                start,
                                units@,
                                *readings,
                                clock,
                                tally,
                                uses@,
                                scope,
                                kind,
                            ),
                        ]
                        event_recordable(
                            before,
                            units@,
                            *readings,
                            clock,
                            tally,
                            uses@,
                            scope,
                            kind,
                        )
                            == event_recordable(
                            start,
                            units@,
                            *readings,
                            clock,
                            tally,
                            uses@,
                            scope,
                            kind,
                        ) by {
                        assert(cell(before, scope, kind) == cell(start, scope, kind));
                    }
                }
            }
            match record_scope(units, readings, clock, tally, uses, width, scope, current) {
                Ok(after) => {
                    current = after;
                },
                Err(_) => {
                    return Err(CollectorError::Overflow);
                },
            }
        }
        i += 1;
    }
    assert(units@.take(i as int) =~= units@);
    Ok(current)
}

/// What the first `n` counters of a unit measured in a slice; a counter without an event
/// measures nothing.
pub open spec fn unit_row<S, K>(
    scope: S,
    values: Seq<u64>,
    base: int,
    kinds: Seq<Option<K>>,
    enabled_nanos: u128,
    running_nanos: u128,
    n: nat,
) -> Seq<Sample<S, K, EventMeasurement>>
    decreases n,
{
    if n == 0 {
        Seq::empty()
    } else {
        let before = unit_row(
            scope,
            values,
            base,
            kinds,
            enabled_nanos,
            running_nanos,
            (n - 1) as nat,
        );
        match kinds[n - 1] {
            Some(kind) => before.push(
                Sample {
                    scope,
                    kind,
                    measurement: EventMeasurement {
                        enabled_nanos,
                        running_nanos,
                        ticks: 0,
                        value: counted(values[base + n - 1]),
                    },
                },
            ),
            None => before,
        }
    }
}

/// What the counters of the units measured in a slice, unit by unit.
pub open spec fn unit_samples<S, K>(
    units: Seq<Unit<S>>,
    values: Seq<u64>,
    kinds: Seq<Option<K>>,
    enabled_nanos: u128,
    running_nanos: u128,
) -> Seq<Sample<S, K, EventMeasurement>>
    decreases units.len(),
{
    if units.len() == 0 {
        Seq::empty()
    } else {
        unit_samples(units.drop_last(), values, kinds, enabled_nanos, running_nanos) + unit_row(
            units.last().scope,
            values,
            (units.len() - 1) * kinds.len(),
            kinds,
            enabled_nanos,
            running_nanos,
            kinds.len(),
        )
    }
}

/// Whether `result` is what `held` becomes when the readings of a slice are added counter by
/// counter. It is an error where the readings are not as many as the units hand in, and where a
/// total does not fit.
pub open spec fn is_record_by_unit<S: Key, K: EventKind>(
    units: Seq<Unit<S>>,
    readings: SliceReadings,
    kinds: Seq<Option<K>>,
    held: Accumulator<S, K, EventMeasurement>,
    result: Result<Accumulator<S, K, EventMeasurement>, CollectorError>,
) -> bool {
    let samples = unit_samples(
        units,
        readings.values@,
        kinds,
        readings.enabled_nanos,
        readings.running_nanos,
    );
    if readings.values@.len() == units.len() * kinds.len() {
        match result {
            Ok(after) => after.wf() && accumulator::accumulated(held.grid(), samples) == Some(
                after.grid(),
            ),
            Err(error) => error == CollectorError::Overflow && accumulator::accumulated(
                held.grid(),
                samples,
            ) is None,
        }
    } else {
        result matches Err(error) && error == (CollectorError::ReadingCount {
            expected: kinds.len() as usize,
            found: readings.values@.len() as usize,
        })
    }
}

/// Whether `result` is what the counters of the units measured in a slice. It is an error where
/// the readings are not as many as the units hand in.
pub open spec fn is_sampled_by_unit<S: Key, K: EventKind>(
    units: Seq<Unit<S>>,
    readings: SliceReadings,
    kinds: Seq<Option<K>>,
    result: Result<Vec<Sample<S, K, EventMeasurement>>, CollectorError>,
) -> bool {
    if readings.values@.len() == units.len() * kinds.len() {
        result matches Ok(samples) && samples@ == unit_samples(
            units,
            readings.values@,
            kinds,
            readings.enabled_nanos,
            readings.running_nanos,
        )
    } else {
        result matches Err(error) && error == (CollectorError::ReadingCount {
            expected: kinds.len() as usize,
            found: readings.values@.len() as usize,
        })
    }
}

/// Lists what the counters of the units measured in a slice, unit by unit.
pub fn samples_by_unit<S: Key, K: EventKind>(
    units: &Vec<Unit<S>>,
    readings: &SliceReadings,
    kinds: &Vec<Option<K>>,
) -> (result: Result<Vec<Sample<S, K, EventMeasurement>>, CollectorError>)
    ensures
        is_sampled_by_unit(units@, *readings, kinds@, result),
{
    let width: usize = kinds.len();
    let values = &readings.values;
    let count: usize = values.len();
    let matching: bool = match units.len().checked_mul(width) {
        Some(expected) => expected == count,
        None => false,
    };
    if !matching {
        return Err(CollectorError::ReadingCount { expected: width, found: count });
    }
    let mut samples: Vec<Sample<S, K, EventMeasurement>> = Vec::new();
    let mut i: usize = 0;
    let mut base: usize = 0;
    assert(units@.take(0) =~= Seq::<Unit<S>>::empty());
    while i < units.len()
        invariant
            i <= units@.len(),
            width == kinds@.len(),
            base == i * width,
            count == values@.len(),
            values@ == readings.values@,
            values@.len() == units@.len() * width,
            samples@ == unit_samples(
                units@.take(i as int),
                values@,
                kinds@,
                readings.enabled_nanos,
                readings.running_nanos,
            ),
        decreases units@.len() - i,
    {
        let ghost before = samples@;
        let scope: S = units[i].scope;
        assert((i + 1) * width == i * width + width) by (nonlinear_arith);
        assert((i + 1) * width <= units@.len() * width) by (nonlinear_arith)
            requires
                i + 1 <= units@.len(),
        ;
        let mut j: usize = 0;
        while j < width
            invariant
                j <= width,
                width == kinds@.len(),
                base + width <= values@.len(),
                count == values@.len(),
                samples@ == before + unit_row(
                    scope,
                    values@,
                    base as int,
                    kinds@,
                    readings.enabled_nanos,
                    readings.running_nanos,
                    j as nat,
                ),
            decreases width - j,
        {
            match kinds[j] {
                Some(kind) => {
                    samples.push(
                        Sample {
                            scope,
                            kind,
                            measurement: EventMeasurement {
                                enabled_nanos: readings.enabled_nanos,
                                running_nanos: readings.running_nanos,
                                ticks: 0,
                                value: counter::mask_counter(values[base + j]),
                            },
                        },
                    );
                },
                None => {},
            }
            assert(samples@ =~= before + unit_row(
                scope,
                values@,
                base as int,
                kinds@,
                readings.enabled_nanos,
                readings.running_nanos,
                (j + 1) as nat,
            ));
            j += 1;
        }
        assert(units@.take(i + 1).drop_last() =~= units@.take(i as int));
        i += 1;
        base += width;
    }
    assert(units@.take(i as int) =~= units@);
    Ok(samples)
}

/// Adds the readings of a slice to what is held, counter by counter.
pub fn record_by_unit<S: Key, K: EventKind>(
    units: &Vec<Unit<S>>,
    readings: &SliceReadings,
    kinds: &Vec<Option<K>>,
    held: Accumulator<S, K, EventMeasurement>,
) -> (result: Result<Accumulator<S, K, EventMeasurement>, CollectorError>)
    requires
        held.wf(),
    ensures
        is_record_by_unit(units@, *readings, kinds@, held, result),
{
    match samples_by_unit(units, readings, kinds) {
        Ok(samples) => match held.extend(&samples) {
            Ok(after) => Ok(after),
            Err(_) => Err(CollectorError::Overflow),
        },
        Err(error) => Err(error),
    }
}

proof fn lemma_every_counter_is_read<S>(unit: Unit<S>, counters: nat, n: nat)
    requires
        n <= counters,
    ensures
        counter_reads(unit, every_counter(counters), n) == Seq::new(
            n,
            |j: int| RegisterRead { register: unit.counters@[j], width: Width::Bits64 },
        ),
    decreases n,
{
    if n > 0 {
        lemma_every_counter_is_read(unit, counters, (n - 1) as nat);
    }
    assert(counter_reads(unit, every_counter(counters), n) =~= Seq::new(
        n,
        |j: int| RegisterRead { register: unit.counters@[j], width: Width::Bits64 },
    ));
}

/// Where all counters are read, the registers that are read and the values that a slice hands in
/// match: as many values as registers, and value `j` of unit `i` is that of its counter `j`, or of
/// its clock counter where it is the last one.
pub proof fn reads_are_laid_out_by_unit<S>(
    units: Seq<Unit<S>>,
    counters: nat,
    clock: Clock,
    i: int,
    j: int,
)
    requires
        forall|k: int|
            0 <= k < units.len() ==> ((#[trigger] units[k]).fixed_counter is Some <==> clock
                !is Absent),
        0 <= i < units.len(),
        0 <= j < values_per_unit(counters, clock),
    ensures
        all_reads(units, every_counter(counters)).len() == units.len() * values_per_unit(
            counters,
            clock,
        ),
        0 <= i * values_per_unit(counters, clock) + j < all_reads(
            units,
            every_counter(counters),
        ).len(),
        all_reads(units, every_counter(counters))[i * values_per_unit(counters, clock) + j].register
            == if j < counters {
            units[i].counters@[j]
        } else {
            units[i].fixed_counter->0
        },
{
    let used = every_counter(counters);
    let width = values_per_unit(counters, clock);
    let f = |unit: Unit<S>| unit_reads(unit, used);
    assert forall|k: int| 0 <= k < units.len() implies f(#[trigger] units[k]).len() == width by {
        lemma_every_counter_is_read(units[k], counters, counters);
    }
    seqs::lemma_flat_map_index(units, f, width, i, j);
    lemma_every_counter_is_read(units[i], counters, counters);
}

} // verus!
