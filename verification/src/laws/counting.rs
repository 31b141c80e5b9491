//! What is written to counting units, what is read from them, and what the values that were read
//! amount to.
use crate::accumulator::{self, EventKind, EventMeasurement, Grid, Merge, Sample};
use crate::counter::{self, Aggregate};
use crate::laws::lists;
use crate::metrics::interconnect::qpi_common::{self, QpiEventMeasurement};
use crate::metrics::interconnect::upi_common::UpiEventMeasurement;
use crate::metrics::pcu::common::PcuMeasurement;
use crate::registers::{Register, RegisterRead, RegisterWrite, Width};
use crate::seqs;
use crate::units::{self, Clock, CounterUse, Tally, Unit};
use vstd::prelude::*;

verus! {

/// Whether a value is written to a register.
pub open spec fn is_written(
    writes: Seq<RegisterWrite>,
    register: Register,
    value: u64,
    width: Width,
) -> bool {
    exists|k: int|
        {
            &&& 0 <= k < writes.len()
            &&& (#[trigger] writes[k]).register == register
            &&& writes[k].value == value
            &&& writes[k].width == width
        }
}

/// Every unit is told every word through its control register, in the order of the units and of
/// the words, and nothing else is written.
pub proof fn every_unit_is_told_every_word<S>(
    units: Seq<Unit<S>>,
    words: Seq<u64>,
    i: int,
    k: int,
)
    requires
        0 <= i < units.len(),
        0 <= k < words.len(),
    ensures
        units::all_control_writes(units, words).len() == units.len() * words.len(),
        0 <= i * words.len() + k < units::all_control_writes(units, words).len(),
        ({
            let write = units::all_control_writes(units, words)[i * words.len() + k];
            &&& write.register == units[i].control
            &&& write.value == words[k]
            &&& write.width == units[i].width
        }),
{
    let f = |unit: Unit<S>| units::control_writes(unit, words);
    seqs::lemma_flat_map_index(units, f, words.len() as int, i, k);
}

/// Whether a write belongs to programming a unit: it clears the filter, selects the event of one of
/// the counters, or starts the clock counter.
pub open spec fn programs<S>(
    write: RegisterWrite,
    unit: Unit<S>,
    words: Seq<Option<u64>>,
    fixed: u64,
) -> bool {
    &&& write.width == unit.width
    &&& {
        ||| unit.filter == Some(write.register) && write.value == 0
        ||| selects(write, unit, words)
        ||| unit.fixed_control == Some(write.register) && write.value == fixed
    }
}

/// Whether a write selects the event of one of the counters of a unit.
pub open spec fn selects<S>(write: RegisterWrite, unit: Unit<S>, words: Seq<Option<u64>>) -> bool {
    exists|c: int|
        {
            &&& 0 <= c < words.len()
            &&& write.register == unit.controls@[c]
            &&& #[trigger] words[c] == Some(write.value)
        }
}

proof fn lemma_selection<S>(unit: Unit<S>, words: Seq<Option<u64>>, n: nat, j: int)
    requires
        n <= words.len(),
        0 <= j < units::event_writes(unit, words, n).len(),
    ensures
        selects(units::event_writes(unit, words, n)[j], unit, words),
        units::event_writes(unit, words, n)[j].width == unit.width,
    decreases n,
{
    if j < units::event_writes(unit, words, (n - 1) as nat).len() {
        lemma_selection(unit, words, (n - 1) as nat, j);
    } else {
        assert(words[n - 1] == Some(units::event_writes(unit, words, n)[j].value));
    }
}

proof fn lemma_selected<S>(unit: Unit<S>, words: Seq<Option<u64>>, n: nat, c: int) -> (j: int)
    requires
        0 <= c < n <= words.len(),
        words[c] is Some,
    ensures
        0 <= j < units::event_writes(unit, words, n).len(),
        units::event_writes(unit, words, n)[j] == (RegisterWrite {
            register: unit.controls@[c],
            value: words[c]->0,
            width: unit.width,
        }),
    decreases n,
{
    if c < n - 1 {
        lemma_selected(unit, words, (n - 1) as nat, c)
    } else {
        units::event_writes(unit, words, (n - 1) as nat).len() as int
    }
}

/// Programming the units selects the event of every counter that has one, on every unit; it clears
/// the filter and starts the clock counter of every unit that has them.
pub proof fn every_counter_is_told_its_event<S>(
    units: Seq<Unit<S>>,
    words: Seq<Option<u64>>,
    fixed: u64,
    i: int,
    c: int,
)
    requires
        0 <= i < units.len(),
        0 <= c < words.len(),
    ensures
        ({
            let writes = units::all_program_writes(units, words, fixed);
            let unit = units[i];
            &&& words[c] is Some ==> is_written(
                writes,
                unit.controls@[c],
                words[c]->0,
                unit.width,
            )
            &&& unit.filter is Some ==> is_written(writes, unit.filter->0, 0, unit.width)
            &&& unit.fixed_control is Some ==> is_written(
                writes,
                unit.fixed_control->0,
                fixed,
                unit.width,
            )
        }),
{
    let f = |unit: Unit<S>| units::program_writes(unit, words, fixed);
    let writes = units::all_program_writes(units, words, fixed);
    let unit = units[i];
    let first = units::optional_write(unit, unit.filter, 0);
    let events = units::event_writes(unit, words, words.len());
    let own = units::program_writes(unit, words, fixed);
    if words[c] is Some {
        let j = lemma_selected(unit, words, words.len(), c);
        assert(own[first.len() + j] == events[j]);
        let k = lists::every_item_is_flattened(units, f, i, first.len() + j);
        assert(writes[k].register == unit.controls@[c]);
    }
    if unit.filter is Some {
        assert(own[0] == first[0]);
        let k = lists::every_item_is_flattened(units, f, i, 0);
        assert(writes[k].register == unit.filter->0);
    }
    if unit.fixed_control is Some {
        let at = (first.len() + events.len()) as int;
        assert(own[at] == units::optional_write(unit, unit.fixed_control, fixed)[0]);
        let k = lists::every_item_is_flattened(units, f, i, at);
        assert(writes[k].register == unit.fixed_control->0);
    }
}

/// Programming the units writes nothing but what programs one of them.
pub proof fn nothing_else_is_programmed<S>(
    units: Seq<Unit<S>>,
    words: Seq<Option<u64>>,
    fixed: u64,
    k: int,
) -> (i: int)
    requires
        0 <= k < units::all_program_writes(units, words, fixed).len(),
    ensures
        0 <= i < units.len(),
        programs(units::all_program_writes(units, words, fixed)[k], units[i], words, fixed),
{
    let f = |unit: Unit<S>| units::program_writes(unit, words, fixed);
    let place = lists::every_element_comes_of_an_item(units, f, k);
    let unit = units[place.0];
    let first = units::optional_write(unit, unit.filter, 0);
    let events = units::event_writes(unit, words, words.len());
    let j = place.1;
    if first.len() <= j < first.len() + events.len() {
        lemma_selection(unit, words, words.len(), j - first.len());
    }
    place.0
}

/// Resetting and programming a unit tells it all the words of the reset first, in order, and then
/// programs it.
pub proof fn reset_comes_before_programming<S>(
    unit: Unit<S>,
    reset: Seq<u64>,
    words: Seq<Option<u64>>,
    j: int,
)
    requires
        0 <= j < units::reset_and_program(unit, reset, words).len(),
    ensures
        ({
            let write = units::reset_and_program(unit, reset, words)[j];
            &&& units::reset_and_program(unit, reset, words).len() >= reset.len()
            &&& j < reset.len() ==> write.register == unit.control && write.value == reset[j]
                && write.width == unit.width
            &&& j >= reset.len() ==> programs(write, unit, words, 0)
        }),
{
    if j >= reset.len() {
        let first = units::optional_write(unit, unit.filter, 0);
        let events = units::event_writes(unit, words, words.len());
        let at = j - reset.len();
        if first.len() <= at < first.len() + events.len() {
            lemma_selection(unit, words, words.len(), at - first.len());
        }
    }
}

/// Resetting and programming the units does so with each of them.
pub proof fn every_unit_is_reset_and_programmed<S>(
    units: Seq<Unit<S>>,
    reset: Seq<u64>,
    words: Seq<Option<u64>>,
    i: int,
    c: int,
)
    requires
        0 <= i < units.len(),
        0 <= c < words.len(),
    ensures
        ({
            let writes = units::all_resets_and_programs(units, reset, words);
            let unit = units[i];
            &&& forall|k: int|
                0 <= k < reset.len() ==> is_written(
                    writes,
                    unit.control,
                    #[trigger] reset[k],
                    unit.width,
                )
            &&& words[c] is Some ==> is_written(
                writes,
                unit.controls@[c],
                words[c]->0,
                unit.width,
            )
            &&& unit.filter is Some ==> is_written(writes, unit.filter->0, 0, unit.width)
        }),
{
    let f = |unit: Unit<S>| units::reset_and_program(unit, reset, words);
    let writes = units::all_resets_and_programs(units, reset, words);
    let unit = units[i];
    let own = units::reset_and_program(unit, reset, words);
    let told = units::control_writes(unit, reset);
    let first = units::optional_write(unit, unit.filter, 0);
    let events = units::event_writes(unit, words, words.len());
    assert forall|k: int| 0 <= k < reset.len() implies is_written(
        writes,
        unit.control,
        #[trigger] reset[k],
        unit.width,
    ) by {
        assert(own[k] == told[k]);
        let at = lists::every_item_is_flattened(units, f, i, k);
        assert(writes[at].register == unit.control);
    }
    if words[c] is Some {
        let j = lemma_selected(unit, words, words.len(), c);
        let inner = first.len() + j;
        assert(units::program_writes(unit, words, 0)[inner] == events[j]);
        assert(own[reset.len() + inner] == events[j]);
        let k = lists::every_item_is_flattened(units, f, i, reset.len() + inner);
        assert(writes[k].register == unit.controls@[c]);
    }
    if unit.filter is Some {
        assert(units::program_writes(unit, words, 0)[0] == first[0]);
        assert(own[reset.len() as int] == first[0]);
        let k = lists::every_item_is_flattened(units, f, i, reset.len() as int);
        assert(writes[k].register == unit.filter->0);
    }
}

/// Trying a unit out freezes it first, clears its filter where it has one, and turns its first
/// counter off last.
pub proof fn probing_freezes_first<S>(unit: Unit<S>, freeze: u64)
    ensures
        ({
            let writes = units::unit_probe(unit, freeze);
            let last = writes[writes.len() - 1];
            &&& writes.len() == if unit.filter is Some {
                3int
            } else {
                2int
            }
            &&& writes[0] == (RegisterWrite {
                register: unit.control,
                value: freeze,
                width: unit.width,
            })
            &&& unit.filter is Some ==> writes[1] == (RegisterWrite {
                register: unit.filter->0,
                value: 0,
                width: unit.width,
            })
            &&& last == (RegisterWrite {
                register: unit.controls@[0],
                value: 0,
                width: unit.width,
            })
        }),
{
}

/// Trying the units out does so with each of them.
pub proof fn every_unit_is_probed<S>(units: Seq<Unit<S>>, freeze: u64, i: int)
    requires
        0 <= i < units.len(),
    ensures
        ({
            let writes = units::all_probes(units, freeze);
            let unit = units[i];
            &&& is_written(writes, unit.control, freeze, unit.width)
            &&& is_written(writes, unit.controls@[0], 0, unit.width)
            &&& unit.filter is Some ==> is_written(writes, unit.filter->0, 0, unit.width)
        }),
{
    let f = |unit: Unit<S>| units::unit_probe(unit, freeze);
    let writes = units::all_probes(units, freeze);
    let unit = units[i];
    let own = units::unit_probe(unit, freeze);
    probing_freezes_first(unit, freeze);
    let a = lists::every_item_is_flattened(units, f, i, 0);
    assert(writes[a].register == unit.control);
    let b = lists::every_item_is_flattened(units, f, i, own.len() - 1);
    assert(writes[b].register == unit.controls@[0]);
    if unit.filter is Some {
        let c = lists::every_item_is_flattened(units, f, i, 1);
        assert(writes[c].register == unit.filter->0);
    }
}

/// Whether a read is that of a counter of a unit that is used.
pub open spec fn reads_used<S>(read: RegisterRead, unit: Unit<S>, used: Seq<bool>) -> bool {
    exists|c: int|
        0 <= c < used.len() && #[trigger] used[c] && read.register == unit.counters@[c]
            && read.width == Width::Bits64
}

/// The numbers of the used counters among the first `n`, in order.
pub open spec fn used_places(used: Seq<bool>, n: nat) -> Seq<int>
    decreases n,
{
    if n == 0 {
        Seq::empty()
    } else if used[n - 1] {
        used_places(used, (n - 1) as nat).push(n - 1)
    } else {
        used_places(used, (n - 1) as nat)
    }
}

/// The used counters are read in order, each of them once, and no other one.
pub proof fn used_counters_are_read_in_order<S>(unit: Unit<S>, used: Seq<bool>, n: nat, j: int)
    requires
        n <= used.len(),
        0 <= j < units::counter_reads(unit, used, n).len(),
    ensures
        units::counter_reads(unit, used, n).len() == used_places(used, n).len(),
        0 <= used_places(used, n)[j] < n,
        used[used_places(used, n)[j]],
        j > 0 ==> used_places(used, n)[j - 1] < used_places(used, n)[j],
        units::counter_reads(unit, used, n)[j].register == unit.counters@[used_places(used, n)[j]],
        units::counter_reads(unit, used, n)[j].width == Width::Bits64,
    decreases n,
{
    let before = units::counter_reads(unit, used, (n - 1) as nat);
    if j < before.len() {
        used_counters_are_read_in_order(unit, used, (n - 1) as nat, j);
    } else if before.len() > 0 {
        used_counters_are_read_in_order(unit, used, (n - 1) as nat, j - 1);
    } else {
        lemma_places_match(unit, used, (n - 1) as nat);
    }
}

proof fn lemma_places_match<S>(unit: Unit<S>, used: Seq<bool>, n: nat)
    requires
        n <= used.len(),
    ensures
        units::counter_reads(unit, used, n).len() == used_places(used, n).len(),
    decreases n,
{
    if n > 0 {
        lemma_places_match(unit, used, (n - 1) as nat);
    }
}

/// The clock counter of a unit is read after its counters.
pub proof fn clock_is_read_last<S>(unit: Unit<S>, used: Seq<bool>)
    ensures
        ({
            let reads = units::unit_reads(unit, used);
            let counters = units::counter_reads(unit, used, used.len());
            &&& reads.len() == counters.len() + if unit.fixed_counter is Some {
                1int
            } else {
                0int
            }
            &&& forall|j: int| 0 <= j < counters.len() ==> reads[j] == #[trigger] counters[j]
            &&& unit.fixed_counter is Some ==> reads[reads.len() - 1] == (RegisterRead {
                register: unit.fixed_counter->0,
                width: Width::Bits64,
            })
        }),
{
}

/// Of a counter register the low 48 bits count, of a clock register all or as many.
pub proof fn low_bits_count(value: u64)
    ensures
        units::counted(value) < 0x1_0000_0000_0000,
        exists|turns: int| value == #[trigger] (turns * 0x1_0000_0000_0000) + units::counted(value),
        units::tick_value(value, Clock::Masked) == units::counted(value),
        units::tick_value(value, Clock::Full) == value,
{
    let turns = value as int / 0x1_0000_0000_0000;
    assert(value == turns * 0x1_0000_0000_0000 + units::counted(value));
}

/// Every value in the column of a counter is what that counter read in a unit of the scope.
pub proof fn column_is_of_the_scope<S>(
    units: Seq<Unit<S>>,
    values: Seq<u64>,
    width: int,
    scope: S,
    j: int,
    k: int,
) -> (i: int)
    requires
        0 <= k < units::counter_column(units, values, width, scope, j).len(),
    ensures
        0 <= i < units.len(),
        units[i].scope == scope,
        units::counter_column(units, values, width, scope, j)[k] == values[i * width + j]
            % 0x1_0000_0000_0000,
    decreases units.len(),
{
    let front = units.drop_last();
    let before = units::counter_column(front, values, width, scope, j);
    if k < before.len() {
        let i = column_is_of_the_scope(front, values, width, scope, j, k);
        assert(front[i] == units[i]);
        i
    } else {
        units.len() - 1
    }
}

/// How many units count for a scope.
pub open spec fn units_of<S>(units: Seq<Unit<S>>, scope: S) -> nat {
    units.filter(|unit: Unit<S>| unit.scope == scope).len()
}

/// The columns of a scope have one value for each of its units.
pub proof fn column_has_every_unit<S>(
    units: Seq<Unit<S>>,
    values: Seq<u64>,
    width: int,
    scope: S,
    j: int,
    clock: Clock,
)
    ensures
        units::counter_column(units, values, width, scope, j).len() == units_of(units, scope),
        units::tick_column(units, values, width, scope, clock).len() == units_of(units, scope),
    decreases units.len(),
{
    reveal(Seq::filter);
    if units.len() > 0 {
        column_has_every_unit(units.drop_last(), values, width, scope, j, clock);
    }
}

/// What a unit of a scope read is in the column of the scope.
pub proof fn unit_is_in_the_column<S>(
    units: Seq<Unit<S>>,
    values: Seq<u64>,
    width: int,
    scope: S,
    j: int,
    i: int,
) -> (k: int)
    requires
        0 <= i < units.len(),
        units[i].scope == scope,
    ensures
        0 <= k < units::counter_column(units, values, width, scope, j).len(),
        units::counter_column(units, values, width, scope, j)[k] == values[i * width + j]
            % 0x1_0000_0000_0000,
    decreases units.len(),
{
    let front = units.drop_last();
    let before = units::counter_column(front, values, width, scope, j);
    if i < units.len() - 1 {
        assert(front[i] == units[i]);
        unit_is_in_the_column(front, values, width, scope, j, i)
    } else {
        before.len() as int
    }
}

/// Every value in the column of the clocks is what the clock counter, the last value of a unit,
/// read in a unit of the scope.
pub proof fn ticks_are_of_the_scope<S>(
    units: Seq<Unit<S>>,
    values: Seq<u64>,
    width: int,
    scope: S,
    clock: Clock,
    k: int,
) -> (i: int)
    requires
        0 <= k < units::tick_column(units, values, width, scope, clock).len(),
    ensures
        0 <= i < units.len(),
        units[i].scope == scope,
        units::tick_column(units, values, width, scope, clock)[k] == if clock is Masked {
            values[i * width + width - 1] % 0x1_0000_0000_0000
        } else {
            values[i * width + width - 1]
        },
    decreases units.len(),
{
    let front = units.drop_last();
    let before = units::tick_column(front, values, width, scope, clock);
    if k < before.len() {
        let i = ticks_are_of_the_scope(front, values, width, scope, clock, k);
        assert(front[i] == units[i]);
        i
    } else {
        units.len() - 1
    }
}

/// The sum of two lists is the sum of their sums, and that of one value is the value.
pub proof fn sums_add_up(a: Seq<u64>, b: Seq<u64>, value: u64)
    ensures
        counter::total(a + b) == counter::total(a) + counter::total(b),
        counter::total(seq![value]) == value,
        counter::total(Seq::empty()) == 0,
    decreases b.len(),
{
    reveal_with_fuel(counter::total, 2);
    assert(seq![value].drop_last() =~= Seq::<u64>::empty());
    if b.len() == 0 {
        assert(a + b =~= a);
    } else {
        sums_add_up(a, b.drop_last(), value);
        assert((a + b).drop_last() =~= a + b.drop_last());
    }
}

/// The average of some values, times their number, is their sum up to what does not divide.
pub proof fn average_times_number_is_sum(values: Seq<u64>)
    ensures
        values.len() > 0 ==> counter::mean(values) * values.len() <= counter::total(values) < (
        counter::mean(values) + 1) * values.len(),
        values.len() == 0 ==> counter::mean(values) == 0,
{
    if values.len() > 0 {
        let t = counter::total(values) as int;
        let n = values.len() as int;
        vstd::arithmetic::div_mod::lemma_fundamental_div_mod(t, n);
        vstd::arithmetic::div_mod::lemma_mod_bound(t, n);
        let m = t / n;
        assert(m * n <= t < (m + 1) * n) by (nonlinear_arith)
            requires
                t == n * m + t % n,
                0 <= t % n < n,
        ;
    }
}

/// Counts that are added up give their sum, counts that are averaged their average, and counts
/// that are not used nothing.
pub proof fn counts_are_put_together_as_told(values: Seq<u64>)
    ensures
        counter::aggregated(Aggregate::Sum, values) == counter::total(values),
        values.len() > 0 ==> counter::aggregated(Aggregate::Average, values) * values.len()
            <= counter::total(values) < (counter::aggregated(Aggregate::Average, values) + 1)
            * values.len(),
        counter::aggregated(Aggregate::Disabled, values) == 0,
        values.len() == 1 ==> counter::aggregated(Aggregate::Average, values) == values[0],
{
    average_times_number_is_sum(values);
    if values.len() == 1 {
        assert(values =~= seq![values[0]]);
        sums_add_up(values, values, values[0]);
    }
}

proof fn lemma_not_counted<S, K>(
    units: Seq<Unit<S>>,
    values: Seq<u64>,
    width: int,
    scope: S,
    uses: Seq<CounterUse<K>>,
    kind: K,
    n: nat,
)
    requires
        n <= uses.len(),
        forall|j: int| 0 <= j < n ==> (#[trigger] uses[j]).kind != Some(kind),
    ensures
        units::event_total(units, values, width, scope, uses, kind, n) == 0,
        units::counters_of(uses, kind, n) == 0,
    decreases n,
{
    if n > 0 {
        lemma_not_counted(units, values, width, scope, uses, kind, (n - 1) as nat);
    }
}

proof fn lemma_counted_once<S, K>(
    units: Seq<Unit<S>>,
    values: Seq<u64>,
    width: int,
    scope: S,
    uses: Seq<CounterUse<K>>,
    kind: K,
    n: nat,
    c: int,
)
    requires
        0 <= c < n <= uses.len(),
        uses[c].kind == Some(kind),
        forall|j: int| 0 <= j < n && j != c ==> (#[trigger] uses[j]).kind != Some(kind),
    ensures
        units::event_total(units, values, width, scope, uses, kind, n) == counter::aggregated(
            uses[c].aggregate,
            units::counter_column(units, values, width, scope, c),
        ),
        units::counters_of(uses, kind, n) == 1,
    decreases n,
{
    if c < n - 1 {
        lemma_counted_once(units, values, width, scope, uses, kind, (n - 1) as nat, c);
    } else {
        lemma_not_counted(units, values, width, scope, uses, kind, (n - 1) as nat);
    }
}

/// An event that one counter counts is measured by that counter alone: by what it read in the
/// units of the scope, over the time of the slice, with the average of the clocks of the scope.
pub proof fn one_counter_measures_its_event<S, K>(
    units: Seq<Unit<S>>,
    values: Seq<u64>,
    clock: Clock,
    tally: Tally,
    scope: S,
    uses: Seq<CounterUse<K>>,
    kind: K,
    enabled_nanos: u128,
    running_nanos: u128,
    c: int,
)
    requires
        0 <= c < uses.len(),
        uses[c].kind == Some(kind),
        forall|j: int| 0 <= j < uses.len() && j != c ==> (#[trigger] uses[j]).kind != Some(kind),
    ensures
        ({
            let width = uses.len() + if clock is Absent {
                0int
            } else {
                1int
            };
            let column = units::counter_column(units, values, width, scope, c);
            let measured = units::measured(
                units,
                values,
                clock,
                tally,
                scope,
                uses,
                kind,
                enabled_nanos,
                running_nanos,
            );
            let ticks = units::tick_column(units, values, width, scope, clock);
            &&& measured.enabled_nanos == enabled_nanos
            &&& measured.running_nanos == running_nanos
            &&& uses[c].aggregate is Sum && counter::total(column) <= u64::MAX ==> measured.value
                == counter::total(column)
            &&& uses[c].aggregate is Average && counter::mean(column) <= u64::MAX
                ==> measured.value == counter::mean(column)
            &&& clock is Absent ==> measured.ticks == 0
            &&& clock !is Absent && counter::mean(ticks) <= u64::MAX ==> measured.ticks
                == counter::mean(ticks)
        }),
{
    let width = units::values_per_unit(uses.len(), clock);
    lemma_counted_once(units, values, width, scope, uses, kind, uses.len(), c);
    assert(1 * running_nanos == running_nanos);
    let ticks = units::mean_ticks(units, values, width, scope, clock);
    assert(1 * ticks == ticks);
}

/// An event that two counters count is measured by both: their counts are added up. The time
/// enters once for each of them or once for both, as told.
pub proof fn two_counters_measure_their_event<S, K>(
    units: Seq<Unit<S>>,
    values: Seq<u64>,
    clock: Clock,
    tally: Tally,
    scope: S,
    uses: Seq<CounterUse<K>>,
    kind: K,
    enabled_nanos: u128,
    running_nanos: u128,
    c: int,
    d: int,
)
    requires
        0 <= c < d < uses.len(),
        uses[c].kind == Some(kind),
        uses[d].kind == Some(kind),
        uses[c].aggregate is Sum,
        uses[d].aggregate is Sum,
        forall|j: int|
            0 <= j < uses.len() && j != c && j != d ==> (#[trigger] uses[j]).kind != Some(kind),
        2 * running_nanos <= u128::MAX,
    ensures
        ({
            let width = uses.len() + if clock is Absent {
                0int
            } else {
                1int
            };
            let both = counter::total(units::counter_column(units, values, width, scope, c))
                + counter::total(units::counter_column(units, values, width, scope, d));
            let measured = units::measured(
                units,
                values,
                clock,
                tally,
                scope,
                uses,
                kind,
                enabled_nanos,
                running_nanos,
            );
            &&& both <= u64::MAX ==> measured.value == both
            &&& tally is Event ==> measured.running_nanos == running_nanos
            &&& tally is Counter ==> measured.running_nanos == 2 * running_nanos
        }),
{
    let width = units::values_per_unit(uses.len(), clock);
    lemma_counted_twice(units, values, width, scope, uses, kind, uses.len(), c, d);
    assert(1 * running_nanos == running_nanos);
}

proof fn lemma_counted_twice<S, K>(
    units: Seq<Unit<S>>,
    values: Seq<u64>,
    width: int,
    scope: S,
    uses: Seq<CounterUse<K>>,
    kind: K,
    n: nat,
    c: int,
    d: int,
)
    requires
        0 <= c < d < n <= uses.len(),
        uses[c].kind == Some(kind),
        uses[d].kind == Some(kind),
        forall|j: int|
            0 <= j < n && j != c && j != d ==> (#[trigger] uses[j]).kind != Some(kind),
    ensures
        units::event_total(units, values, width, scope, uses, kind, n) == counter::aggregated(
            uses[c].aggregate,
            units::counter_column(units, values, width, scope, c),
        ) + counter::aggregated(
            uses[d].aggregate,
            units::counter_column(units, values, width, scope, d),
        ),
        units::counters_of(uses, kind, n) == 2,
    decreases n,
{
    if d < n - 1 {
        lemma_counted_twice(units, values, width, scope, uses, kind, (n - 1) as nat, c, d);
    } else {
        lemma_counted_once(units, values, width, scope, uses, kind, (n - 1) as nat, c);
    }
}

/// Whether a sample is what counter `j` of unit `i` measured: its event, in the scope of the unit,
/// by the low 48 bits of its own value.
pub open spec fn is_measured_at<S, K>(
    sample: Sample<S, K, EventMeasurement>,
    units: Seq<Unit<S>>,
    values: Seq<u64>,
    kinds: Seq<Option<K>>,
    enabled_nanos: u128,
    running_nanos: u128,
    i: int,
    j: int,
) -> bool {
    &&& sample.scope == units[i].scope
    &&& Some(sample.kind) == kinds[j]
    &&& sample.measurement.enabled_nanos == enabled_nanos
    &&& sample.measurement.running_nanos == running_nanos
    &&& sample.measurement.value == values[i * kinds.len() + j] % 0x1_0000_0000_0000
}

proof fn lemma_row_sample<S, K>(
    scope: S,
    values: Seq<u64>,
    base: int,
    kinds: Seq<Option<K>>,
    enabled_nanos: u128,
    running_nanos: u128,
    n: nat,
    k: int,
) -> (j: int)
    requires
        n <= kinds.len(),
        0 <= k < units::unit_row(scope, values, base, kinds, enabled_nanos, running_nanos, n).len(),
    ensures
        0 <= j < n,
        ({
            let sample = units::unit_row(
                scope,
                values,
                base,
                kinds,
                enabled_nanos,
                running_nanos,
                n,
            )[k];
            &&& sample.scope == scope
            &&& Some(sample.kind) == kinds[j]
            &&& sample.measurement.enabled_nanos == enabled_nanos
            &&& sample.measurement.running_nanos == running_nanos
            &&& sample.measurement.value == values[base + j] % 0x1_0000_0000_0000
        }),
    decreases n,
{
    let before = units::unit_row(
        scope,
        values,
        base,
        kinds,
        enabled_nanos,
        running_nanos,
        (n - 1) as nat,
    );
    if k < before.len() {
        lemma_row_sample(
            scope,
            values,
            base,
            kinds,
            enabled_nanos,
            running_nanos,
            (n - 1) as nat,
            k,
        )
    } else {
        n - 1
    }
}

/// Every sample of a slice is what some counter of some unit measured.
pub proof fn samples_are_of_their_units<S, K>(
    units: Seq<Unit<S>>,
    values: Seq<u64>,
    kinds: Seq<Option<K>>,
    enabled_nanos: u128,
    running_nanos: u128,
    k: int,
) -> (place: (int, int))
    requires
        0 <= k < units::unit_samples(units, values, kinds, enabled_nanos, running_nanos).len(),
    ensures
        0 <= place.0 < units.len(),
        0 <= place.1 < kinds.len(),
        is_measured_at(
            units::unit_samples(units, values, kinds, enabled_nanos, running_nanos)[k],
            units,
            values,
            kinds,
            enabled_nanos,
            running_nanos,
            place.0,
            place.1,
        ),
    decreases units.len(),
{
    let front = units.drop_last();
    let before = units::unit_samples(front, values, kinds, enabled_nanos, running_nanos);
    if k < before.len() {
        let place = samples_are_of_their_units(
            front,
            values,
            kinds,
            enabled_nanos,
            running_nanos,
            k,
        );
        assert(front[place.0] == units[place.0]);
        place
    } else {
        let i = units.len() - 1;
        let j = lemma_row_sample(
            units.last().scope,
            values,
            i * kinds.len(),
            kinds,
            enabled_nanos,
            running_nanos,
            kinds.len(),
            k - before.len(),
        );
        (i, j)
    }
}

proof fn lemma_row_has<S, K>(
    scope: S,
    values: Seq<u64>,
    base: int,
    kinds: Seq<Option<K>>,
    enabled_nanos: u128,
    running_nanos: u128,
    n: nat,
    j: int,
) -> (k: int)
    requires
        0 <= j < n <= kinds.len(),
        kinds[j] is Some,
    ensures
        ({
            let row = units::unit_row(
                scope,
                values,
                base,
                kinds,
                enabled_nanos,
                running_nanos,
                n,
            );
            &&& 0 <= k < row.len()
            &&& row[k].scope == scope
            &&& Some(row[k].kind) == kinds[j]
            &&& row[k].measurement.enabled_nanos == enabled_nanos
            &&& row[k].measurement.running_nanos == running_nanos
            &&& row[k].measurement.value == values[base + j] % 0x1_0000_0000_0000
        }),
    decreases n,
{
    if j < n - 1 {
        lemma_row_has(
            scope,
            values,
            base,
            kinds,
            enabled_nanos,
            running_nanos,
            (n - 1) as nat,
            j,
        )
    } else {
        units::unit_row(
            scope,
            values,
            base,
            kinds,
            enabled_nanos,
            running_nanos,
            (n - 1) as nat,
        ).len() as int
    }
}

/// Every counter of every unit that counts an event has its sample.
pub proof fn every_counter_has_its_sample<S, K>(
    units: Seq<Unit<S>>,
    values: Seq<u64>,
    kinds: Seq<Option<K>>,
    enabled_nanos: u128,
    running_nanos: u128,
    i: int,
    j: int,
) -> (k: int)
    requires
        0 <= i < units.len(),
        0 <= j < kinds.len(),
        kinds[j] is Some,
    ensures
        0 <= k < units::unit_samples(units, values, kinds, enabled_nanos, running_nanos).len(),
        is_measured_at(
            units::unit_samples(units, values, kinds, enabled_nanos, running_nanos)[k],
            units,
            values,
            kinds,
            enabled_nanos,
            running_nanos,
            i,
            j,
        ),
    decreases units.len(),
{
    let front = units.drop_last();
    let before = units::unit_samples(front, values, kinds, enabled_nanos, running_nanos);
    if i < units.len() - 1 {
        assert(front[i] == units[i]);
        every_counter_has_its_sample(front, values, kinds, enabled_nanos, running_nanos, i, j)
    } else {
        let k = lemma_row_has(
            units.last().scope,
            values,
            i * kinds.len(),
            kinds,
            enabled_nanos,
            running_nanos,
            kinds.len(),
            j,
        );
        before.len() + k
    }
}

/// Two measurements of one event are held as one: what they counted and how long they ran is added
/// up; the interval stays that of the first one, but between links it is added up too.
pub proof fn measurements_are_added_up(
    a: EventMeasurement,
    b: EventMeasurement,
    c: UpiEventMeasurement,
    d: UpiEventMeasurement,
    e: PcuMeasurement,
    f: PcuMeasurement,
)
    ensures
        a.fits(b) ==> {
            let sum = a.merged(b);
            &&& sum.value == a.value + b.value
            &&& sum.ticks == a.ticks + b.ticks
            &&& sum.running_nanos == a.running_nanos + b.running_nanos
            &&& sum.enabled_nanos == a.enabled_nanos
        },
        c.fits(d) ==> {
            let sum = c.merged(d);
            &&& sum.value == c.value + d.value
            &&& sum.running_nanos == c.running_nanos + d.running_nanos
            &&& sum.enabled_nanos == c.enabled_nanos + d.enabled_nanos
        },
        e.fits(f) ==> {
            let sum = e.merged(f);
            &&& sum.value == e.value + f.value
            &&& sum.ticks == e.ticks + f.ticks
            &&& sum.running_nanos == e.running_nanos + f.running_nanos
        },
{
}

/// What a part of a QPI event adds is added to what is held, over the whole interval.
pub proof fn parts_are_added_up(measurement: QpiEventMeasurement, held: u64, more: u64)
    requires
        held + more <= u64::MAX,
    ensures
        qpi_common::with_part(measurement, held, more).value == held + more,
        qpi_common::with_part(measurement, held, more).enabled_nanos == measurement.enabled_nanos,
        qpi_common::with_part(measurement, held, more).running_nanos == measurement.enabled_nanos,
{
}

/// A slice adds what it measured of an event to what was held of it in the same scope; an event
/// that was not counted, and a scope without units, keep what they had.
pub proof fn slice_adds_what_it_measured<S, K: EventKind>(
    before: Grid<S, K, EventMeasurement>,
    after: Grid<S, K, EventMeasurement>,
    units: Seq<Unit<S>>,
    readings: units::SliceReadings,
    clock: Clock,
    tally: Tally,
    uses: Seq<CounterUse<K>>,
    scope: S,
    kind: K,
)
    requires
        units::slice_recorded(before, after, units, readings, clock, tally, uses),
        units::has_scope(units, scope) && units::has_kind(uses, kind) ==> units::event_recordable(
            before,
            units,
            readings,
            clock,
            tally,
            uses,
            scope,
            kind,
        ),
    ensures
        ({
            let held = accumulator::held(accumulator::row_of(before, scope), kind);
            let now = accumulator::held(accumulator::row_of(after, scope), kind);
            let counts = units::has_scope(units, scope) && units::has_kind(uses, kind);
            let measured = units::measured(
                units,
                readings.values@,
                clock,
                tally,
                scope,
                uses,
                kind,
                readings.enabled_nanos,
                readings.running_nanos,
            );
            &&& !counts ==> now == held
            &&& counts && held is None ==> now == Some(measured)
            &&& counts && held is Some ==> {
                &&& now is Some
                &&& now->0.value == held->0.value + measured.value
                &&& now->0.ticks == held->0.ticks + measured.ticks
                &&& now->0.running_nanos == held->0.running_nanos + measured.running_nanos
                &&& now->0.enabled_nanos == held->0.enabled_nanos
            }
        }),
{
    let now = units::cell(after, scope, kind);
}

/// The processors that are named are those that freeze a unit; every such processor is named, and
/// no two neighbours are the same.
pub proof fn processors_are_those_of_the_units<S>(units: Seq<Unit<S>>)
    ensures
        forall|k: int|
            0 <= k < units::processors(units).len() ==> freezes_a_unit(
                units,
                #[trigger] units::processors(units)[k],
            ),
        forall|i: int|
            0 <= i < units.len() ==> ((#[trigger] units[i]).control matches Register::Msr {
                cpu,
                ..
            } ==> units::processors(units).contains(cpu)),
        forall|k: int|
            0 < k < units::processors(units).len() ==> units::processors(units)[k - 1]
                != #[trigger] units::processors(units)[k],
    decreases units.len(),
{
    if units.len() > 0 {
        let front = units.drop_last();
        let before = units::processors(front);
        let all = units::processors(units);
        processors_are_those_of_the_units(front);
        assert forall|k: int| 0 <= k < all.len() implies freezes_a_unit(
            units,
            #[trigger] all[k],
        ) by {
            if k < before.len() {
                assert(freezes_a_unit(front, before[k]));
                let i = choose|i: int|
                    0 <= i < front.len() && ((#[trigger] front[i]).control matches Register::Msr {
                        cpu,
                        ..
                    } && cpu == before[k]);
                assert(front[i] == units[i]);
            } else {
                assert(units[units.len() - 1].control is Msr);
            }
        }
        assert forall|i: int| 0 <= i < units.len() implies ((
        #[trigger] units[i]).control matches Register::Msr { cpu, .. } ==> all.contains(cpu)) by {
            if let Register::Msr { address, cpu } = units[i].control {
                if i < units.len() - 1 {
                    assert(front[i] == units[i]);
                    let k = choose|k: int| 0 <= k < before.len() && before[k] == cpu;
                    assert(all[k] == cpu);
                } else {
                    assert(all[all.len() - 1] == cpu);
                }
            }
        }
    }
}

/// Whether a register of a processor freezes some unit.
pub open spec fn freezes_a_unit<S>(units: Seq<Unit<S>>, processor: u32) -> bool {
    exists|i: int|
        0 <= i < units.len() && ((#[trigger] units[i]).control matches Register::Msr { cpu, .. }
            && cpu == processor)
}

} // verus!
