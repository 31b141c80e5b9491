//! What the collectors have written to and read from the registers of their units.
use crate::laws::counting;
use crate::laws::layout;
use crate::laws::lists;
use crate::metrics::imc::hsx as imc_hsx;
use crate::metrics::imc::icx as imc_icx;
use crate::metrics::imc::skx as imc_skx;
use crate::metrics::imc::snb as imc_snb;
use crate::metrics::imc::spr as imc_spr;
use crate::metrics::interconnect::qpi_common::{self, QpiArchitecture};
use crate::metrics::interconnect::upi_common::{self, UpiArchitecture};
use crate::metrics::irp::hsx as irp_hsx;
use crate::metrics::irp::icx as irp_icx;
use crate::metrics::irp::skx as irp_skx;
use crate::metrics::irp::snb as irp_snb;
use crate::metrics::irp::spr as irp_spr;
use crate::metrics::pcu::hsx as pcu_hsx;
use crate::metrics::pcu::icx as pcu_icx;
use crate::metrics::pcu::skx as pcu_skx;
use crate::metrics::pcu::snb as pcu_snb;
use crate::metrics::pcu::spr as pcu_spr;
use crate::registers::{Register, RegisterRead, RegisterWrite, Width};
use crate::seqs;
use crate::topology::HsxUncoreScope;
use crate::units::{self, Unit};
use vstd::prelude::*;

verus! {

/// The write of a word to the control register of a unit.
pub open spec fn told<S>(unit: Unit<S>, word: u64) -> RegisterWrite {
    RegisterWrite { register: unit.control, value: word, width: unit.width }
}

/// Whether every unit is told one word, in order, and nothing else is written.
pub open spec fn tells_each<S>(
    writes: Seq<RegisterWrite>,
    units: Seq<Unit<S>>,
    word: u64,
) -> bool {
    &&& writes.len() == units.len()
    &&& forall|i: int| 0 <= i < units.len() ==> (#[trigger] writes[i]) == told(units[i], word)
}

proof fn lemma_tells<S>(units: Seq<Unit<S>>, word: u64)
    ensures
        tells_each(units::all_control_writes(units, seq![word]), units, word),
{
    let words = seq![word];
    let writes = units::all_control_writes(units, words);
    assert(words.len() == 1 && words[0] == word);
    if units.len() > 0 {
        counting::every_unit_is_told_every_word(units, words, 0, 0);
    } else {
        assert(writes.len() == 0);
    }
    assert forall|i: int| 0 <= i < units.len() implies (#[trigger] writes[i]) == told(
        units[i],
        word,
    ) by {
        counting::every_unit_is_told_every_word(units, words, i, 0);
        assert(i * 1 + 0 == i);
    }
}

/// Whether a value is written to a register, not before write `from`.
pub open spec fn is_written_from(
    writes: Seq<RegisterWrite>,
    from: int,
    register: Register,
    value: u64,
    width: Width,
) -> bool {
    exists|k: int|
        from <= k < writes.len() && (#[trigger] writes[k]) == (RegisterWrite {
            register,
            value,
            width,
        })
}

/// Whether the writes first tell every unit the words of the reset, one unit after the other, and
/// then select the event of counter `c` of unit `i`, clear its filter and start its clock counter.
pub open spec fn resets_then_selects<S>(
    writes: Seq<RegisterWrite>,
    units: Seq<Unit<S>>,
    reset: Seq<u64>,
    words: Seq<Option<u64>>,
    fixed: u64,
    i: int,
    c: int,
) -> bool {
    let unit = units[i];
    let start = units.len() * reset.len();
    &&& writes.len() >= start
    &&& forall|k: int|
        0 <= k < reset.len() ==> writes[i * reset.len() + k] == told(unit, #[trigger] reset[k])
    &&& words[c] is Some ==> is_written_from(
        writes,
        start as int,
        unit.controls@[c],
        words[c]->0,
        unit.width,
    )
    &&& unit.filter is Some ==> is_written_from(
        writes,
        start as int,
        unit.filter->0,
        0,
        unit.width,
    )
    &&& unit.fixed_control is Some ==> is_written_from(
        writes,
        start as int,
        unit.fixed_control->0,
        fixed,
        unit.width,
    )
}

proof fn lemma_later(
    first: Seq<RegisterWrite>,
    second: Seq<RegisterWrite>,
    register: Register,
    value: u64,
    width: Width,
)
    requires
        counting::is_written(second, register, value, width),
    ensures
        is_written_from(first + second, first.len() as int, register, value, width),
{
    let k = choose|k: int|
        {
            &&& 0 <= k < second.len()
            &&& (#[trigger] second[k]).register == register
            &&& second[k].value == value
            &&& second[k].width == width
        };
    assert((first + second)[first.len() + k] == second[k]);
}

proof fn lemma_resets<S>(
    units: Seq<Unit<S>>,
    reset: Seq<u64>,
    words: Seq<Option<u64>>,
    fixed: u64,
    i: int,
    c: int,
)
    requires
        0 <= i < units.len(),
        0 <= c < words.len(),
        reset.len() > 0,
    ensures
        resets_then_selects(
            units::all_control_writes(units, reset) + units::all_program_writes(
                units,
                words,
                fixed,
            ),
            units,
            reset,
            words,
            fixed,
            i,
            c,
        ),
{
    let first = units::all_control_writes(units, reset);
    let second = units::all_program_writes(units, words, fixed);
    let unit = units[i];
    counting::every_unit_is_told_every_word(units, reset, i, 0);
    counting::every_counter_is_told_its_event(units, words, fixed, i, c);
    assert forall|k: int| 0 <= k < reset.len() implies (first + second)[i * reset.len() + k]
        == told(unit, #[trigger] reset[k]) by {
        counting::every_unit_is_told_every_word(units, reset, i, k);
    }
    if words[c] is Some {
        lemma_later(first, second, unit.controls@[c], words[c]->0, unit.width);
    }
    if unit.filter is Some {
        lemma_later(first, second, unit.filter->0, 0, unit.width);
    }
    if unit.fixed_control is Some {
        lemma_later(first, second, unit.fixed_control->0, fixed, unit.width);
    }
}

/// Whether a write that comes after the resets programs one of the units.
pub open spec fn programs_one<S>(
    write: RegisterWrite,
    units: Seq<Unit<S>>,
    words: Seq<Option<u64>>,
    fixed: u64,
) -> bool {
    exists|i: int|
        0 <= i < units.len() && counting::programs(write, #[trigger] units[i], words, fixed)
}

proof fn lemma_nothing_else<S>(
    units: Seq<Unit<S>>,
    reset: Seq<u64>,
    words: Seq<Option<u64>>,
    fixed: u64,
    k: int,
)
    requires
        units.len() * reset.len() <= k < (units::all_control_writes(units, reset)
            + units::all_program_writes(units, words, fixed)).len(),
    ensures
        programs_one(
            (units::all_control_writes(units, reset) + units::all_program_writes(
                units,
                words,
                fixed,
            ))[k],
            units,
            words,
            fixed,
        ),
{
    let first = units::all_control_writes(units, reset);
    let f = |unit: Unit<S>| units::control_writes(unit, reset);
    seqs::lemma_flat_map_len(units, f, reset.len() as int);
    assert(first.len() == units.len() * reset.len());
    let i = counting::nothing_else_is_programmed(units, words, fixed, k - first.len());
}

/// Whether the used counters of unit `i`, one after the other, are read at the places that the unit
/// has among the reads, and its clock counter after them where it has one.
pub open spec fn reads_unit<S>(
    reads: Seq<RegisterRead>,
    units: Seq<Unit<S>>,
    used: Seq<bool>,
    clock: bool,
    i: int,
    j: int,
) -> bool {
    let places = counting::used_places(used, used.len());
    let each = places.len() + if clock {
        1int
    } else {
        0int
    };
    &&& reads.len() == units.len() * each
    &&& j < places.len() ==> reads[i * each + j] == (RegisterRead {
        register: units[i].counters@[places[j]],
        width: Width::Bits64,
    })
    &&& clock && j == places.len() ==> reads[i * each + j] == (RegisterRead {
        register: units[i].fixed_counter->0,
        width: Width::Bits64,
    })
}

/// Whether all units have a clock counter, or none.
pub open spec fn has_clock<S>(units: Seq<Unit<S>>, clock: bool) -> bool {
    forall|i: int| 0 <= i < units.len() ==> (#[trigger] units[i]).fixed_counter is Some == clock
}

proof fn lemma_places<S>(unit: Unit<S>, used: Seq<bool>, n: nat)
    requires
        n <= used.len(),
    ensures
        units::counter_reads(unit, used, n).len() == counting::used_places(used, n).len(),
    decreases n,
{
    if n > 0 {
        lemma_places(unit, used, (n - 1) as nat);
    }
}

proof fn lemma_reads<S>(units: Seq<Unit<S>>, used: Seq<bool>, clock: bool, i: int, j: int)
    requires
        has_clock(units, clock),
        0 <= i < units.len(),
        0 <= j < counting::used_places(used, used.len()).len() + if clock {
            1int
        } else {
            0int
        },
    ensures
        reads_unit(units::all_reads(units, used), units, used, clock, i, j),
{
    let f = |unit: Unit<S>| units::unit_reads(unit, used);
    let places = counting::used_places(used, used.len());
    let each = places.len() + if clock {
        1int
    } else {
        0int
    };
    assert forall|k: int| 0 <= k < units.len() implies f(#[trigger] units[k]).len() == each by {
        lemma_places(units[k], used, used.len());
    }
    seqs::lemma_flat_map_index(units, f, each, i, j);
    lemma_places(units[i], used, used.len());
    if j < places.len() {
        counting::used_counters_are_read_in_order(units[i], used, used.len(), j);
    }
}

proof fn lemma_every_place(counters: nat, n: nat)
    requires
        n <= counters,
    ensures
        counting::used_places(units::every_counter(counters), n).len() == n,
        forall|j: int|
            0 <= j < n ==> #[trigger] counting::used_places(
                units::every_counter(counters),
                n,
            )[j] == j,
    decreases n,
{
    if n > 0 {
        lemma_every_place(counters, (n - 1) as nat);
    }
}

/// Whether every counter of a unit is read, one after the other, and its clock counter after them.
pub open spec fn reads_every_counter<S>(
    reads: Seq<RegisterRead>,
    units: Seq<Unit<S>>,
    counters: int,
    clock: bool,
    i: int,
    j: int,
) -> bool {
    let each = counters + if clock {
        1int
    } else {
        0int
    };
    &&& reads.len() == units.len() * each
    &&& reads[i * each + j].width == Width::Bits64
    &&& j < counters ==> reads[i * each + j].register == units[i].counters@[j]
    &&& j == counters ==> reads[i * each + j].register == units[i].fixed_counter->0
}

proof fn lemma_reads_every<S>(units: Seq<Unit<S>>, counters: nat, clock: bool, i: int, j: int)
    requires
        has_clock(units, clock),
        0 <= i < units.len(),
        0 <= j < counters + if clock {
            1int
        } else {
            0int
        },
    ensures
        reads_every_counter(
            units::all_reads(units, units::every_counter(counters)),
            units,
            counters as int,
            clock,
            i,
            j,
        ),
{
    lemma_every_place(counters, counters);
    lemma_reads(units, units::every_counter(counters), clock, i, j);
}

/// What the links of a processor with QuickPath Interconnect are told to freeze, to be reset and to
/// go on.
pub open spec fn qpi_words(architecture: QpiArchitecture) -> (u64, u64, u64) {
    if architecture is Ivb {
        (0x100, 0x103, 0)
    } else {
        (0x1_0100, 0x1_0103, 0x1_0000)
    }
}

/// What the links of a processor with Ultra Path Interconnect are told to freeze, to be reset and
/// to go on.
pub open spec fn upi_words(architecture: UpiArchitecture) -> (u64, u64, u64) {
    if architecture is Emr || architecture is Spr {
        (1, 0x301, 0)
    } else {
        (0x100, 0x103, 0)
    }
}

/// Whether unit `i` is told the words of the reset, the event of counter `c` is selected and the
/// filter is cleared.
pub open spec fn resets_and_selects<S>(
    writes: Seq<RegisterWrite>,
    units: Seq<Unit<S>>,
    reset: Seq<u64>,
    words: Seq<Option<u64>>,
    i: int,
    c: int,
) -> bool {
    let unit = units[i];
    &&& forall|k: int|
        0 <= k < reset.len() ==> counting::is_written(
            writes,
            unit.control,
            #[trigger] reset[k],
            unit.width,
        )
    &&& words[c] is Some ==> counting::is_written(
        writes,
        unit.controls@[c],
        words[c]->0,
        unit.width,
    )
    &&& unit.filter is Some ==> counting::is_written(writes, unit.filter->0, 0, unit.width)
}

proof fn lemma_resets_and_selects<S>(
    units: Seq<Unit<S>>,
    reset: Seq<u64>,
    words: Seq<Option<u64>>,
    i: int,
    c: int,
)
    requires
        0 <= i < units.len(),
        0 <= c < words.len(),
    ensures
        resets_and_selects(
            units::all_resets_and_programs(units, reset, words),
            units,
            reset,
            words,
            i,
            c,
        ),
{
    counting::every_unit_is_reset_and_programmed(units, reset, words, i, c);
}

/// Whether a write is part of the reset of a unit or programs one.
pub open spec fn resets_or_programs_one<S>(
    write: RegisterWrite,
    units: Seq<Unit<S>>,
    reset: Seq<u64>,
    words: Seq<Option<u64>>,
) -> bool {
    exists|i: int|
        0 <= i < units.len() && (counting::programs(write, #[trigger] units[i], words, 0) || (
        write.register == units[i].control && reset.contains(write.value)))
}

proof fn lemma_resets_or_programs<S>(
    units: Seq<Unit<S>>,
    reset: Seq<u64>,
    words: Seq<Option<u64>>,
    k: int,
)
    requires
        0 <= k < units::all_resets_and_programs(units, reset, words).len(),
    ensures
        resets_or_programs_one(
            units::all_resets_and_programs(units, reset, words)[k],
            units,
            reset,
            words,
        ),
{
    let f = |unit: Unit<S>| units::reset_and_program(unit, reset, words);
    let place = lists::every_element_comes_of_an_item(units, f, k);
    let unit = units[place.0];
    counting::reset_comes_before_programming(unit, reset, words, place.1);
    if place.1 < reset.len() {
        assert(reset.contains(reset[place.1]));
    }
}

/// Freezing tells every memory channel of Ice Lake to freeze, and releasing tells it to go on;
/// nothing else is written.
pub proof fn icx_memory_is_frozen_and_released(
    collector: imc_icx::IcxImcCollector,
    frozen: Vec<RegisterWrite>,
    released: Vec<RegisterWrite>,
)
    requires
        call_ensures(imc_icx::IcxImcCollector::freeze_writes, (&collector,), frozen),
        call_ensures(imc_icx::IcxImcCollector::unfreeze_writes, (&collector,), released),
    ensures
        tells_each(frozen@, collector.units(), 0x1_0100u64),
        tells_each(released@, collector.units(), 0x1_0000u64),
{
    lemma_tells(collector.units(), 0x1_0100u64);
    lemma_tells(collector.units(), 0x1_0000u64);
}

/// Programming resets every memory channel of Ice Lake first and then selects the events of its
/// counters; nothing else is written.
pub proof fn icx_memory_is_reset_and_programmed(
    collector: imc_icx::IcxImcCollector,
    group: imc_icx::IcxImcEventGroup,
    writes: Vec<RegisterWrite>,
    i: int,
    c: int,
    k: int,
)
    requires
        call_ensures(imc_icx::IcxImcCollector::program_writes, (&collector, group), writes),
        0 <= i < collector.units().len(),
        0 <= c < 4,
        collector.units().len() * 1 <= k < writes@.len(),
    ensures
        resets_then_selects(
            writes@,
            collector.units(),
            seq![0x1_0103u64],
            imc_icx::control_words(group),
            0x48_0000u64,
            i,
            c,
        ),
        programs_one(writes@[k], collector.units(), imc_icx::control_words(group), 0x48_0000u64),
{
    let reset = seq![0x1_0103u64];
    assert(imc_icx::control_words(group).len() == 4);
    lemma_resets(collector.units(), reset, imc_icx::control_words(group), 0x48_0000u64, i, c);
    lemma_nothing_else(collector.units(), reset, imc_icx::control_words(group), 0x48_0000u64, k);
}

/// Every counter of every memory channel of Ice Lake is read, in order, and its clock counter after
/// them.
pub proof fn icx_memory_counters_are_read(
    collector: imc_icx::IcxImcCollector,
    reads: Vec<RegisterRead>,
    i: int,
    j: int,
)
    requires
        call_ensures(imc_icx::IcxImcCollector::reads, (&collector,), reads),
        has_clock(collector.units(), true),
        0 <= i < collector.units().len(),
        0 <= j < 5,
    ensures
        reads_every_counter(
            reads@,
            collector.units(),
            4,
            true,
            i,
            j,
        ),
{
    lemma_reads_every(collector.units(), 4, true, i, j);
}

/// Freezing tells every memory channel of Skylake to freeze, and releasing tells it to go on;
/// nothing else is written.
pub proof fn skx_memory_is_frozen_and_released(
    collector: imc_skx::SkxImcCollector,
    frozen: Vec<RegisterWrite>,
    released: Vec<RegisterWrite>,
)
    requires
        call_ensures(imc_skx::SkxImcCollector::freeze_writes, (&collector,), frozen),
        call_ensures(imc_skx::SkxImcCollector::unfreeze_writes, (&collector,), released),
    ensures
        tells_each(frozen@, collector.units(), collector.words().freeze),
        tells_each(released@, collector.units(), collector.words().unfreeze),
{
    lemma_tells(collector.units(), collector.words().freeze);
    lemma_tells(collector.units(), collector.words().unfreeze);
}

/// Programming resets every memory channel of Skylake first and then selects the events of its
/// counters; nothing else is written.
pub proof fn skx_memory_is_reset_and_programmed(
    collector: imc_skx::SkxImcCollector,
    group: imc_skx::ImcEventGroup,
    writes: Vec<RegisterWrite>,
    i: int,
    c: int,
    k: int,
)
    requires
        call_ensures(imc_skx::SkxImcCollector::program_writes, (&collector, group), writes),
        0 <= i < collector.units().len(),
        0 <= c < 4,
        collector.units().len() * 1 <= k < writes@.len(),
    ensures
        resets_then_selects(
            writes@,
            collector.units(),
            seq![collector.words().freeze_and_reset],
            imc_skx::control_words(group),
            0x48_0000u64,
            i,
            c,
        ),
        programs_one(writes@[k], collector.units(), imc_skx::control_words(group), 0x48_0000u64),
{
    let reset = seq![collector.words().freeze_and_reset];
    assert(imc_skx::control_words(group).len() == 4);
    lemma_resets(collector.units(), reset, imc_skx::control_words(group), 0x48_0000u64, i, c);
    lemma_nothing_else(collector.units(), reset, imc_skx::control_words(group), 0x48_0000u64, k);
}

/// Every counter of every memory channel of Skylake is read, in order, and its clock counter after
/// them.
pub proof fn skx_memory_counters_are_read(
    collector: imc_skx::SkxImcCollector,
    reads: Vec<RegisterRead>,
    i: int,
    j: int,
)
    requires
        call_ensures(imc_skx::SkxImcCollector::reads, (&collector,), reads),
        has_clock(collector.units(), true),
        0 <= i < collector.units().len(),
        0 <= j < 5,
    ensures
        reads_every_counter(
            reads@,
            collector.units(),
            4,
            true,
            i,
            j,
        ),
{
    lemma_reads_every(collector.units(), 4, true, i, j);
}

/// Freezing tells every memory channel of Sandy and Ivy Bridge to freeze, and releasing tells it to
/// go on; nothing else is written.
pub proof fn snb_memory_is_frozen_and_released(
    collector: imc_snb::SnbImcCollector,
    frozen: Vec<RegisterWrite>,
    released: Vec<RegisterWrite>,
)
    requires
        call_ensures(imc_snb::SnbImcCollector::freeze_writes, (&collector,), frozen),
        call_ensures(imc_snb::SnbImcCollector::unfreeze_writes, (&collector,), released),
    ensures
        tells_each(frozen@, collector.units(), layout::ep_words(collector.architecture()).0),
        tells_each(released@, collector.units(), layout::ep_words(collector.architecture()).2),
{
    lemma_tells(collector.units(), layout::ep_words(collector.architecture()).0);
    lemma_tells(collector.units(), layout::ep_words(collector.architecture()).2);
}

/// Programming resets every memory channel of Sandy and Ivy Bridge first and then selects the
/// events of its counters; nothing else is written.
pub proof fn snb_memory_is_reset_and_programmed(
    collector: imc_snb::SnbImcCollector,
    group: imc_snb::SnbImcEventGroup,
    writes: Vec<RegisterWrite>,
    i: int,
    c: int,
    k: int,
)
    requires
        call_ensures(imc_snb::SnbImcCollector::program_writes, (&collector, group), writes),
        0 <= i < collector.units().len(),
        0 <= c < 4,
        collector.units().len() * 1 <= k < writes@.len(),
    ensures
        resets_then_selects(
            writes@,
            collector.units(),
            seq![layout::ep_words(collector.architecture()).1],
            imc_snb::control_words(group),
            0x48_0000u64,
            i,
            c,
        ),
        programs_one(writes@[k], collector.units(), imc_snb::control_words(group), 0x48_0000u64),
{
    let reset = seq![layout::ep_words(collector.architecture()).1];
    assert(imc_snb::control_words(group).len() == 4);
    lemma_resets(collector.units(), reset, imc_snb::control_words(group), 0x48_0000u64, i, c);
    lemma_nothing_else(collector.units(), reset, imc_snb::control_words(group), 0x48_0000u64, k);
}

/// Every counter of every memory channel of Sandy and Ivy Bridge is read, in order, and its clock
/// counter after them.
pub proof fn snb_memory_counters_are_read(
    collector: imc_snb::SnbImcCollector,
    reads: Vec<RegisterRead>,
    i: int,
    j: int,
)
    requires
        call_ensures(imc_snb::SnbImcCollector::reads, (&collector,), reads),
        has_clock(collector.units(), true),
        0 <= i < collector.units().len(),
        0 <= j < 5,
    ensures
        reads_every_counter(
            reads@,
            collector.units(),
            4,
            true,
            i,
            j,
        ),
{
    lemma_reads_every(collector.units(), 4, true, i, j);
}

/// Freezing tells every memory channel of Sapphire Rapids to freeze, and releasing tells it to go
/// on; nothing else is written.
pub proof fn spr_memory_is_frozen_and_released(
    collector: imc_spr::SprImcCollector,
    frozen: Vec<RegisterWrite>,
    released: Vec<RegisterWrite>,
)
    requires
        call_ensures(imc_spr::SprImcCollector::freeze_writes, (&collector,), frozen),
        call_ensures(imc_spr::SprImcCollector::unfreeze_writes, (&collector,), released),
    ensures
        tells_each(frozen@, collector.units(), 1u64),
        tells_each(released@, collector.units(), 0u64),
{
    lemma_tells(collector.units(), 1u64);
    lemma_tells(collector.units(), 0u64);
}

/// Programming resets every memory channel of Sapphire Rapids first and then selects the events of
/// its counters; nothing else is written.
pub proof fn spr_memory_is_reset_and_programmed(
    collector: imc_spr::SprImcCollector,
    group: imc_spr::SprImcEventGroup,
    writes: Vec<RegisterWrite>,
    i: int,
    c: int,
    k: int,
)
    requires
        call_ensures(imc_spr::SprImcCollector::program_writes, (&collector, group), writes),
        0 <= i < collector.units().len(),
        0 <= c < 4,
        collector.units().len() * 3 <= k < writes@.len(),
    ensures
        resets_then_selects(
            writes@,
            collector.units(),
            seq![1u64, 0x101u64, 0x201u64],
            imc_spr::control_words(group),
            0x48_0000u64,
            i,
            c,
        ),
        programs_one(writes@[k], collector.units(), imc_spr::control_words(group), 0x48_0000u64),
{
    let reset = seq![1u64, 0x101u64, 0x201u64];
    assert(imc_spr::control_words(group).len() == 4);
    lemma_resets(collector.units(), reset, imc_spr::control_words(group), 0x48_0000u64, i, c);
    lemma_nothing_else(collector.units(), reset, imc_spr::control_words(group), 0x48_0000u64, k);
}

/// Every counter of every memory channel of Sapphire Rapids is read, in order, and its clock
/// counter after them.
pub proof fn spr_memory_counters_are_read(
    collector: imc_spr::SprImcCollector,
    reads: Vec<RegisterRead>,
    i: int,
    j: int,
)
    requires
        call_ensures(imc_spr::SprImcCollector::reads, (&collector,), reads),
        has_clock(collector.units(), true),
        0 <= i < collector.units().len(),
        0 <= j < 5,
    ensures
        reads_every_counter(
            reads@,
            collector.units(),
            4,
            true,
            i,
            j,
        ),
{
    lemma_reads_every(collector.units(), 4, true, i, j);
}

/// Freezing tells every inbound unit of Haswell and Broadwell to freeze, and releasing tells it to
/// go on; nothing else is written.
pub proof fn hsx_inbound_is_frozen_and_released(
    collector: irp_hsx::HsxIrpCollector,
    frozen: Vec<RegisterWrite>,
    released: Vec<RegisterWrite>,
)
    requires
        call_ensures(irp_hsx::HsxIrpCollector::freeze_writes, (&collector,), frozen),
        call_ensures(irp_hsx::HsxIrpCollector::unfreeze_writes, (&collector,), released),
    ensures
        tells_each(frozen@, collector.units(), collector.words().freeze),
        tells_each(released@, collector.units(), collector.words().unfreeze),
{
    lemma_tells(collector.units(), collector.words().freeze);
    lemma_tells(collector.units(), collector.words().unfreeze);
}

/// Programming resets every inbound unit of Haswell and Broadwell first and then selects the events
/// of its counters; nothing else is written.
pub proof fn hsx_inbound_is_reset_and_programmed(
    collector: irp_hsx::HsxIrpCollector,
    group: irp_hsx::HsxIrpEventGroup,
    writes: Vec<RegisterWrite>,
    i: int,
    c: int,
    k: int,
)
    requires
        call_ensures(irp_hsx::HsxIrpCollector::program_writes, (&collector, group), writes),
        0 <= i < collector.units().len(),
        0 <= c < 4,
        collector.units().len() * 1 <= k < writes@.len(),
    ensures
        resets_then_selects(
            writes@,
            collector.units(),
            seq![collector.words().freeze_and_reset],
            irp_hsx::control_words(group),
            0u64,
            i,
            c,
        ),
        programs_one(writes@[k], collector.units(), irp_hsx::control_words(group), 0u64),
{
    let reset = seq![collector.words().freeze_and_reset];
    assert(irp_hsx::control_words(group).len() == 4);
    lemma_resets(collector.units(), reset, irp_hsx::control_words(group), 0u64, i, c);
    lemma_nothing_else(collector.units(), reset, irp_hsx::control_words(group), 0u64, k);
}

/// Every counter of every inbound unit of Haswell and Broadwell is read, in order.
pub proof fn hsx_inbound_counters_are_read(
    collector: irp_hsx::HsxIrpCollector,
    reads: Vec<RegisterRead>,
    i: int,
    j: int,
)
    requires
        call_ensures(irp_hsx::HsxIrpCollector::reads, (&collector,), reads),
        has_clock(collector.units(), false),
        0 <= i < collector.units().len(),
        0 <= j < 4,
    ensures
        reads_every_counter(
            reads@,
            collector.units(),
            4,
            false,
            i,
            j,
        ),
{
    lemma_reads_every(collector.units(), 4, false, i, j);
}

/// Every inbound unit of Haswell and Broadwell is tried out by freezing it.
pub proof fn hsx_inbound_is_probed_by_freezing(
    collector: irp_hsx::HsxIrpCollector,
    writes: Vec<RegisterWrite>,
)
    requires
        call_ensures(irp_hsx::HsxIrpCollector::probe_writes, (&collector,), writes),
    ensures
        tells_each(writes@, collector.units(), collector.words().freeze),
{
    lemma_tells(collector.units(), collector.words().freeze);
}

/// Freezing tells every inbound unit of Ice Lake to freeze, and releasing tells it to go on;
/// nothing else is written.
pub proof fn icx_inbound_is_frozen_and_released(
    collector: irp_icx::IcxIrpCollector,
    frozen: Vec<RegisterWrite>,
    released: Vec<RegisterWrite>,
)
    requires
        call_ensures(irp_icx::IcxIrpCollector::freeze_writes, (&collector,), frozen),
        call_ensures(irp_icx::IcxIrpCollector::unfreeze_writes, (&collector,), released),
    ensures
        tells_each(frozen@, collector.units(), 0x3_0100u64),
        tells_each(released@, collector.units(), 0x3_0000u64),
{
    lemma_tells(collector.units(), 0x3_0100u64);
    lemma_tells(collector.units(), 0x3_0000u64);
}

/// Programming resets every inbound unit of Ice Lake first and then selects the events of its
/// counters; nothing else is written.
pub proof fn icx_inbound_is_reset_and_programmed(
    collector: irp_icx::IcxIrpCollector,
    group: irp_icx::IcxIrpEventGroup,
    writes: Vec<RegisterWrite>,
    i: int,
    c: int,
    k: int,
)
    requires
        call_ensures(irp_icx::IcxIrpCollector::program_writes, (&collector, group), writes),
        0 <= i < collector.units().len(),
        0 <= c < 2,
        collector.units().len() * 1 <= k < writes@.len(),
    ensures
        resets_then_selects(
            writes@,
            collector.units(),
            seq![0x3_0103u64],
            irp_icx::control_words(group),
            0u64,
            i,
            c,
        ),
        programs_one(writes@[k], collector.units(), irp_icx::control_words(group), 0u64),
{
    let reset = seq![0x3_0103u64];
    assert(irp_icx::control_words(group).len() == 2);
    lemma_resets(collector.units(), reset, irp_icx::control_words(group), 0u64, i, c);
    lemma_nothing_else(collector.units(), reset, irp_icx::control_words(group), 0u64, k);
}

/// Every counter of every inbound unit of Ice Lake is read, in order.
pub proof fn icx_inbound_counters_are_read(
    collector: irp_icx::IcxIrpCollector,
    reads: Vec<RegisterRead>,
    i: int,
    j: int,
)
    requires
        call_ensures(irp_icx::IcxIrpCollector::reads, (&collector,), reads),
        has_clock(collector.units(), false),
        0 <= i < collector.units().len(),
        0 <= j < 2,
    ensures
        reads_every_counter(
            reads@,
            collector.units(),
            2,
            false,
            i,
            j,
        ),
{
    lemma_reads_every(collector.units(), 2, false, i, j);
}

/// Freezing tells every inbound unit of Skylake to freeze, and releasing tells it to go on; nothing
/// else is written.
pub proof fn skx_inbound_is_frozen_and_released(
    collector: irp_skx::IrpCollector,
    frozen: Vec<RegisterWrite>,
    released: Vec<RegisterWrite>,
)
    requires
        call_ensures(irp_skx::IrpCollector::freeze_writes, (&collector,), frozen),
        call_ensures(irp_skx::IrpCollector::unfreeze_writes, (&collector,), released),
    ensures
        tells_each(frozen@, collector.units(), collector.words().freeze),
        tells_each(released@, collector.units(), collector.words().unfreeze),
{
    lemma_tells(collector.units(), collector.words().freeze);
    lemma_tells(collector.units(), collector.words().unfreeze);
}

/// Programming resets every inbound unit of Skylake first and then selects the events of its
/// counters; nothing else is written.
pub proof fn skx_inbound_is_reset_and_programmed(
    collector: irp_skx::IrpCollector,
    group: irp_skx::IrpEventGroup,
    writes: Vec<RegisterWrite>,
    i: int,
    c: int,
    k: int,
)
    requires
        call_ensures(irp_skx::IrpCollector::program_writes, (&collector, group), writes),
        0 <= i < collector.units().len(),
        0 <= c < 2,
        collector.units().len() * 1 <= k < writes@.len(),
    ensures
        resets_then_selects(
            writes@,
            collector.units(),
            seq![collector.words().freeze_and_reset],
            irp_skx::control_words(group),
            0u64,
            i,
            c,
        ),
        programs_one(writes@[k], collector.units(), irp_skx::control_words(group), 0u64),
{
    let reset = seq![collector.words().freeze_and_reset];
    assert(irp_skx::control_words(group).len() == 2);
    lemma_resets(collector.units(), reset, irp_skx::control_words(group), 0u64, i, c);
    lemma_nothing_else(collector.units(), reset, irp_skx::control_words(group), 0u64, k);
}

/// Every counter of every inbound unit of Skylake is read, in order.
pub proof fn skx_inbound_counters_are_read(
    collector: irp_skx::IrpCollector,
    reads: Vec<RegisterRead>,
    i: int,
    j: int,
)
    requires
        call_ensures(irp_skx::IrpCollector::reads, (&collector,), reads),
        has_clock(collector.units(), false),
        0 <= i < collector.units().len(),
        0 <= j < 2,
    ensures
        reads_every_counter(
            reads@,
            collector.units(),
            2,
            false,
            i,
            j,
        ),
{
    lemma_reads_every(collector.units(), 2, false, i, j);
}

/// Freezing tells every inbound unit of Sandy and Ivy Bridge to freeze, and releasing tells it to
/// go on; nothing else is written.
pub proof fn snb_inbound_is_frozen_and_released(
    collector: irp_snb::SnbIrpCollector,
    frozen: Vec<RegisterWrite>,
    released: Vec<RegisterWrite>,
)
    requires
        call_ensures(irp_snb::SnbIrpCollector::freeze_writes, (&collector,), frozen),
        call_ensures(irp_snb::SnbIrpCollector::unfreeze_writes, (&collector,), released),
    ensures
        tells_each(frozen@, collector.units(), layout::ep_words(collector.architecture()).0),
        tells_each(released@, collector.units(), layout::ep_words(collector.architecture()).2),
{
    lemma_tells(collector.units(), layout::ep_words(collector.architecture()).0);
    lemma_tells(collector.units(), layout::ep_words(collector.architecture()).2);
}

/// Programming resets every inbound unit of Sandy and Ivy Bridge first and then selects the events
/// of its counters; nothing else is written.
pub proof fn snb_inbound_is_reset_and_programmed(
    collector: irp_snb::SnbIrpCollector,
    group: irp_snb::SnbIrpEventGroup,
    writes: Vec<RegisterWrite>,
    i: int,
    c: int,
    k: int,
)
    requires
        call_ensures(irp_snb::SnbIrpCollector::program_writes, (&collector, group), writes),
        0 <= i < collector.units().len(),
        0 <= c < 4,
        collector.units().len() * 1 <= k < writes@.len(),
    ensures
        resets_then_selects(
            writes@,
            collector.units(),
            seq![layout::ep_words(collector.architecture()).1],
            irp_snb::control_words(group),
            0u64,
            i,
            c,
        ),
        programs_one(writes@[k], collector.units(), irp_snb::control_words(group), 0u64),
{
    let reset = seq![layout::ep_words(collector.architecture()).1];
    assert(irp_snb::control_words(group).len() == 4);
    lemma_resets(collector.units(), reset, irp_snb::control_words(group), 0u64, i, c);
    lemma_nothing_else(collector.units(), reset, irp_snb::control_words(group), 0u64, k);
}

/// Every counter of every inbound unit of Sandy and Ivy Bridge is read, in order.
pub proof fn snb_inbound_counters_are_read(
    collector: irp_snb::SnbIrpCollector,
    reads: Vec<RegisterRead>,
    i: int,
    j: int,
)
    requires
        call_ensures(irp_snb::SnbIrpCollector::reads, (&collector,), reads),
        has_clock(collector.units(), false),
        0 <= i < collector.units().len(),
        0 <= j < 4,
    ensures
        reads_every_counter(
            reads@,
            collector.units(),
            4,
            false,
            i,
            j,
        ),
{
    lemma_reads_every(collector.units(), 4, false, i, j);
}

/// Every inbound unit of Sandy and Ivy Bridge is tried out by freezing it.
pub proof fn snb_inbound_is_probed_by_freezing(
    collector: irp_snb::SnbIrpCollector,
    writes: Vec<RegisterWrite>,
)
    requires
        call_ensures(irp_snb::SnbIrpCollector::probe_writes, (&collector,), writes),
    ensures
        tells_each(writes@, collector.units(), layout::ep_words(collector.architecture()).0),
{
    lemma_tells(collector.units(), layout::ep_words(collector.architecture()).0);
}

/// Freezing tells every inbound unit of Sapphire Rapids to freeze, and releasing tells it to go on;
/// nothing else is written.
pub proof fn spr_inbound_is_frozen_and_released(
    collector: irp_spr::SprIrpCollector,
    frozen: Vec<RegisterWrite>,
    released: Vec<RegisterWrite>,
)
    requires
        call_ensures(irp_spr::SprIrpCollector::freeze_writes, (&collector,), frozen),
        call_ensures(irp_spr::SprIrpCollector::unfreeze_writes, (&collector,), released),
    ensures
        tells_each(frozen@, collector.units(), 1u64),
        tells_each(released@, collector.units(), 0u64),
{
    lemma_tells(collector.units(), 1u64);
    lemma_tells(collector.units(), 0u64);
}

/// Programming resets every inbound unit of Sapphire Rapids first and then selects the events of
/// its counters; nothing else is written.
pub proof fn spr_inbound_is_reset_and_programmed(
    collector: irp_spr::SprIrpCollector,
    group: irp_spr::SprIrpEventGroup,
    writes: Vec<RegisterWrite>,
    i: int,
    c: int,
    k: int,
)
    requires
        call_ensures(irp_spr::SprIrpCollector::program_writes, (&collector, group), writes),
        0 <= i < collector.units().len(),
        0 <= c < 2,
        collector.units().len() * 3 <= k < writes@.len(),
    ensures
        resets_then_selects(
            writes@,
            collector.units(),
            seq![1u64, 0x101u64, 0x201u64],
            irp_spr::control_words(group),
            0u64,
            i,
            c,
        ),
        programs_one(writes@[k], collector.units(), irp_spr::control_words(group), 0u64),
{
    let reset = seq![1u64, 0x101u64, 0x201u64];
    assert(irp_spr::control_words(group).len() == 2);
    lemma_resets(collector.units(), reset, irp_spr::control_words(group), 0u64, i, c);
    lemma_nothing_else(collector.units(), reset, irp_spr::control_words(group), 0u64, k);
}

/// Every counter of every inbound unit of Sapphire Rapids is read, in order.
pub proof fn spr_inbound_counters_are_read(
    collector: irp_spr::SprIrpCollector,
    reads: Vec<RegisterRead>,
    i: int,
    j: int,
)
    requires
        call_ensures(irp_spr::SprIrpCollector::reads, (&collector,), reads),
        has_clock(collector.units(), false),
        0 <= i < collector.units().len(),
        0 <= j < 2,
    ensures
        reads_every_counter(
            reads@,
            collector.units(),
            2,
            false,
            i,
            j,
        ),
{
    lemma_reads_every(collector.units(), 2, false, i, j);
}

/// Freezing tells every QuickPath link to freeze, and releasing tells it to go on; nothing else is
/// written.
pub proof fn qpi_is_frozen_and_released(
    collector: qpi_common::QpiCollector,
    frozen: Vec<RegisterWrite>,
    released: Vec<RegisterWrite>,
)
    requires
        call_ensures(qpi_common::QpiCollector::freeze_writes, (&collector,), frozen),
        call_ensures(qpi_common::QpiCollector::unfreeze_writes, (&collector,), released),
    ensures
        tells_each(frozen@, collector.units(), qpi_words(collector.architecture()).0),
        tells_each(released@, collector.units(), qpi_words(collector.architecture()).2),
{
    lemma_tells(collector.units(), qpi_words(collector.architecture()).0);
    lemma_tells(collector.units(), qpi_words(collector.architecture()).2);
}

/// Programming resets every QuickPath link first and then selects the events of its counters;
/// nothing else is written.
pub proof fn qpi_is_reset_and_programmed(
    collector: qpi_common::QpiCollector,
    group: qpi_common::QpiEventGroup,
    writes: Vec<RegisterWrite>,
    i: int,
    c: int,
    k: int,
)
    requires
        call_ensures(qpi_common::QpiCollector::program_writes, (&collector, group), writes),
        0 <= i < collector.units().len(),
        0 <= c < 4,
        collector.units().len() * 1 <= k < writes@.len(),
    ensures
        resets_then_selects(
            writes@,
            collector.units(),
            seq![qpi_words(collector.architecture()).1],
            qpi_common::control_words(group),
            0u64,
            i,
            c,
        ),
        programs_one(writes@[k], collector.units(), qpi_common::control_words(group), 0u64),
{
    let reset = seq![qpi_words(collector.architecture()).1];
    assert(qpi_common::control_words(group).len() == 4);
    lemma_resets(collector.units(), reset, qpi_common::control_words(group), 0u64, i, c);
    lemma_nothing_else(collector.units(), reset, qpi_common::control_words(group), 0u64, k);
}

/// Every counter of every QuickPath link is read, in order.
pub proof fn qpi_counters_are_read(
    collector: qpi_common::QpiCollector,
    reads: Vec<RegisterRead>,
    i: int,
    j: int,
)
    requires
        call_ensures(qpi_common::QpiCollector::reads, (&collector,), reads),
        has_clock(collector.units(), false),
        0 <= i < collector.units().len(),
        0 <= j < 4,
    ensures
        reads_every_counter(
            reads@,
            collector.units(),
            4,
            false,
            i,
            j,
        ),
{
    lemma_reads_every(collector.units(), 4, false, i, j);
}

/// Every QuickPath link is tried out by freezing it.
pub proof fn qpi_is_probed_by_freezing(
    collector: qpi_common::QpiCollector,
    writes: Vec<RegisterWrite>,
)
    requires
        call_ensures(qpi_common::QpiCollector::probe_writes, (&collector,), writes),
    ensures
        tells_each(writes@, collector.units(), qpi_words(collector.architecture()).0),
{
    lemma_tells(collector.units(), qpi_words(collector.architecture()).0);
}

/// Freezing tells every Ultra Path link to freeze, and releasing tells it to go on; nothing else is
/// written.
pub proof fn upi_is_frozen_and_released(
    collector: upi_common::UpiCollector,
    frozen: Vec<RegisterWrite>,
    released: Vec<RegisterWrite>,
)
    requires
        call_ensures(upi_common::UpiCollector::freeze_writes, (&collector,), frozen),
        call_ensures(upi_common::UpiCollector::unfreeze_writes, (&collector,), released),
    ensures
        tells_each(frozen@, collector.units(), upi_words(collector.architecture()).0),
        tells_each(released@, collector.units(), upi_words(collector.architecture()).2),
{
    lemma_tells(collector.units(), upi_words(collector.architecture()).0);
    lemma_tells(collector.units(), upi_words(collector.architecture()).2);
}

/// Programming resets every Ultra Path link first and then selects the events of its counters;
/// nothing else is written.
pub proof fn upi_is_reset_and_programmed(
    collector: upi_common::UpiCollector,
    group: upi_common::UpiEventGroup,
    writes: Vec<RegisterWrite>,
    i: int,
    c: int,
    k: int,
)
    requires
        call_ensures(upi_common::UpiCollector::program_writes, (&collector, group), writes),
        0 <= i < collector.units().len(),
        0 <= c < 4,
        collector.units().len() * 1 <= k < writes@.len(),
    ensures
        resets_then_selects(
            writes@,
            collector.units(),
            seq![upi_words(collector.architecture()).1],
            upi_common::control_words(collector.architecture(), group),
            0u64,
            i,
            c,
        ),
        programs_one(
            writes@[k],
            collector.units(),
            upi_common::control_words(collector.architecture(), group),
            0u64,
        ),
{
    let reset = seq![upi_words(collector.architecture()).1];
    assert(upi_common::control_words(collector.architecture(), group).len() == 4);
    lemma_resets(
        collector.units(),
        reset,
        upi_common::control_words(collector.architecture(), group),
        0u64,
        i,
        c,
    );
    lemma_nothing_else(
        collector.units(),
        reset,
        upi_common::control_words(collector.architecture(), group),
        0u64,
        k,
    );
}

/// Every counter of every Ultra Path link is read, in order.
pub proof fn upi_counters_are_read(
    collector: upi_common::UpiCollector,
    reads: Vec<RegisterRead>,
    i: int,
    j: int,
)
    requires
        call_ensures(upi_common::UpiCollector::reads, (&collector,), reads),
        has_clock(collector.units(), false),
        0 <= i < collector.units().len(),
        0 <= j < 4,
    ensures
        reads_every_counter(
            reads@,
            collector.units(),
            4,
            false,
            i,
            j,
        ),
{
    lemma_reads_every(collector.units(), 4, false, i, j);
}

/// Every Ultra Path link is tried out by freezing it.
pub proof fn upi_is_probed_by_freezing(
    collector: upi_common::UpiCollector,
    writes: Vec<RegisterWrite>,
)
    requires
        call_ensures(upi_common::UpiCollector::probe_writes, (&collector,), writes),
    ensures
        tells_each(writes@, collector.units(), upi_words(collector.architecture()).0),
{
    lemma_tells(collector.units(), upi_words(collector.architecture()).0);
}

/// Freezing tells every power control unit of Haswell and Broadwell to freeze, and releasing tells
/// it to go on; nothing else is written.
pub proof fn hsx_power_is_frozen_and_released(
    collector: pcu_hsx::HsxPcuCollector,
    frozen: Vec<RegisterWrite>,
    released: Vec<RegisterWrite>,
)
    requires
        call_ensures(pcu_hsx::HsxPcuCollector::freeze_writes, (&collector,), frozen),
        call_ensures(pcu_hsx::HsxPcuCollector::unfreeze_writes, (&collector,), released),
    ensures
        tells_each(frozen@, collector.units(), 0x1_0100u64),
        tells_each(released@, collector.units(), 0x1_0000u64),
{
    lemma_tells(collector.units(), 0x1_0100u64);
    lemma_tells(collector.units(), 0x1_0000u64);
}

/// Programming resets every power control unit of Haswell and Broadwell and selects the events of
/// its counters; nothing else is written.
pub proof fn hsx_power_is_reset_and_programmed(
    collector: pcu_hsx::HsxPcuCollector,
    group: pcu_hsx::HsxPcuEventGroup,
    writes: Vec<RegisterWrite>,
    i: int,
    c: int,
    k: int,
)
    requires
        call_ensures(pcu_hsx::HsxPcuCollector::program_writes, (&collector, group), writes),
        0 <= i < collector.units().len(),
        0 <= c < 4,
        0 <= k < writes@.len(),
    ensures
        resets_and_selects(
            writes@,
            collector.units(),
            seq![0x1_0103u64],
            pcu_hsx::control_words(group),
            i,
            c,
        ),
        resets_or_programs_one(
            writes@[k],
            collector.units(),
            seq![0x1_0103u64],
            pcu_hsx::control_words(group),
        ),
{
    let reset = seq![0x1_0103u64];
    assert(pcu_hsx::control_words(group).len() == 4);
    lemma_resets_and_selects(collector.units(), reset, pcu_hsx::control_words(group), i, c);
    lemma_resets_or_programs(collector.units(), reset, pcu_hsx::control_words(group), k);
}

/// The counters of every power control unit of Haswell and Broadwell that count an event are read,
/// in order, and no others.
pub proof fn hsx_power_counters_are_read(
    collector: pcu_hsx::HsxPcuCollector,
    group: pcu_hsx::HsxPcuEventGroup,
    reads: Vec<RegisterRead>,
    i: int,
    j: int,
)
    requires
        call_ensures(pcu_hsx::HsxPcuCollector::reads, (&collector, group), reads),
        has_clock(collector.units(), false),
        0 <= i < collector.units().len(),
        0 <= j < counting::used_places(pcu_hsx::used_counters(group), 4).len(),
    ensures
        reads_unit(
            reads@,
            collector.units(),
            pcu_hsx::used_counters(group),
            false,
            i,
            j,
        ),
{
    assert(pcu_hsx::used_counters(group).len() == 4);
    lemma_reads(collector.units(), pcu_hsx::used_counters(group), false, i, j);
}

/// Every power control unit of Haswell and Broadwell is tried out by freezing it and turning its
/// first counter off.
pub proof fn hsx_power_is_probed_by_freezing(
    collector: pcu_hsx::HsxPcuCollector,
    writes: Vec<RegisterWrite>,
    i: int,
)
    requires
        call_ensures(pcu_hsx::HsxPcuCollector::probe_writes, (&collector,), writes),
        0 <= i < collector.units().len(),
    ensures
        ({
            let unit = collector.units()[i];
            &&& counting::is_written(writes@, unit.control, 0x1_0100u64, unit.width)
            &&& counting::is_written(writes@, unit.controls@[0], 0, unit.width)
            &&& unit.filter is Some ==> counting::is_written(
                writes@,
                unit.filter->0,
                0,
                unit.width,
            )
        }),
{
    counting::every_unit_is_probed(collector.units(), 0x1_0100u64, i);
}

/// Freezing tells every power control unit of Skylake to freeze, and releasing tells it to go on;
/// nothing else is written.
pub proof fn skx_power_is_frozen_and_released(
    collector: pcu_skx::SkxPcuCollector,
    frozen: Vec<RegisterWrite>,
    released: Vec<RegisterWrite>,
)
    requires
        call_ensures(pcu_skx::SkxPcuCollector::freeze_writes, (&collector,), frozen),
        call_ensures(pcu_skx::SkxPcuCollector::unfreeze_writes, (&collector,), released),
    ensures
        tells_each(frozen@, collector.units(), 0x100u64),
        tells_each(released@, collector.units(), 0u64),
{
    lemma_tells(collector.units(), 0x100u64);
    lemma_tells(collector.units(), 0u64);
}

/// Programming resets every power control unit of Skylake and selects the events of its counters;
/// nothing else is written.
pub proof fn skx_power_is_reset_and_programmed(
    collector: pcu_skx::SkxPcuCollector,
    group: pcu_skx::SkxPcuEventGroup,
    writes: Vec<RegisterWrite>,
    i: int,
    c: int,
    k: int,
)
    requires
        call_ensures(pcu_skx::SkxPcuCollector::program_writes, (&collector, group), writes),
        0 <= i < collector.units().len(),
        0 <= c < 4,
        0 <= k < writes@.len(),
    ensures
        resets_and_selects(
            writes@,
            collector.units(),
            seq![0x103u64],
            pcu_skx::control_words(group),
            i,
            c,
        ),
        resets_or_programs_one(
            writes@[k],
            collector.units(),
            seq![0x103u64],
            pcu_skx::control_words(group),
        ),
{
    let reset = seq![0x103u64];
    assert(pcu_skx::control_words(group).len() == 4);
    lemma_resets_and_selects(collector.units(), reset, pcu_skx::control_words(group), i, c);
    lemma_resets_or_programs(collector.units(), reset, pcu_skx::control_words(group), k);
}

/// The counters of every power control unit of Skylake that count an event are read, in order, and
/// no others.
pub proof fn skx_power_counters_are_read(
    collector: pcu_skx::SkxPcuCollector,
    group: pcu_skx::SkxPcuEventGroup,
    reads: Vec<RegisterRead>,
    i: int,
    j: int,
)
    requires
        call_ensures(pcu_skx::SkxPcuCollector::reads, (&collector, group), reads),
        has_clock(collector.units(), false),
        0 <= i < collector.units().len(),
        0 <= j < counting::used_places(pcu_skx::used_counters(group), 4).len(),
    ensures
        reads_unit(
            reads@,
            collector.units(),
            pcu_skx::used_counters(group),
            false,
            i,
            j,
        ),
{
    assert(pcu_skx::used_counters(group).len() == 4);
    lemma_reads(collector.units(), pcu_skx::used_counters(group), false, i, j);
}

/// Every power control unit of Skylake is tried out by freezing it and turning its first counter
/// off.
pub proof fn skx_power_is_probed_by_freezing(
    collector: pcu_skx::SkxPcuCollector,
    writes: Vec<RegisterWrite>,
    i: int,
)
    requires
        call_ensures(pcu_skx::SkxPcuCollector::probe_writes, (&collector,), writes),
        0 <= i < collector.units().len(),
    ensures
        ({
            let unit = collector.units()[i];
            &&& counting::is_written(writes@, unit.control, 0x100u64, unit.width)
            &&& counting::is_written(writes@, unit.controls@[0], 0, unit.width)
            &&& unit.filter is Some ==> counting::is_written(
                writes@,
                unit.filter->0,
                0,
                unit.width,
            )
        }),
{
    counting::every_unit_is_probed(collector.units(), 0x100u64, i);
}

/// Freezing tells every power control unit of Sandy and Ivy Bridge to freeze, and releasing tells
/// it to go on; nothing else is written.
pub proof fn snb_power_is_frozen_and_released(
    collector: pcu_snb::SnbPcuCollector,
    frozen: Vec<RegisterWrite>,
    released: Vec<RegisterWrite>,
)
    requires
        call_ensures(pcu_snb::SnbPcuCollector::freeze_writes, (&collector,), frozen),
        call_ensures(pcu_snb::SnbPcuCollector::unfreeze_writes, (&collector,), released),
    ensures
        tells_each(frozen@, collector.units(), layout::ep_words(collector.architecture()).0),
        tells_each(released@, collector.units(), layout::ep_words(collector.architecture()).2),
{
    lemma_tells(collector.units(), layout::ep_words(collector.architecture()).0);
    lemma_tells(collector.units(), layout::ep_words(collector.architecture()).2);
}

/// Programming resets every power control unit of Sandy and Ivy Bridge and selects the events of
/// its counters; nothing else is written.
pub proof fn snb_power_is_reset_and_programmed(
    collector: pcu_snb::SnbPcuCollector,
    group: pcu_snb::SnbPcuEventGroup,
    writes: Vec<RegisterWrite>,
    i: int,
    c: int,
    k: int,
)
    requires
        call_ensures(pcu_snb::SnbPcuCollector::program_writes, (&collector, group), writes),
        0 <= i < collector.units().len(),
        0 <= c < 4,
        0 <= k < writes@.len(),
    ensures
        resets_and_selects(
            writes@,
            collector.units(),
            seq![layout::ep_words(collector.architecture()).1],
            pcu_snb::control_words(group),
            i,
            c,
        ),
        resets_or_programs_one(
            writes@[k],
            collector.units(),
            seq![layout::ep_words(collector.architecture()).1],
            pcu_snb::control_words(group),
        ),
{
    let reset = seq![layout::ep_words(collector.architecture()).1];
    assert(pcu_snb::control_words(group).len() == 4);
    lemma_resets_and_selects(collector.units(), reset, pcu_snb::control_words(group), i, c);
    lemma_resets_or_programs(collector.units(), reset, pcu_snb::control_words(group), k);
}

/// The counters of every power control unit of Sandy and Ivy Bridge that count an event are read,
/// in order, and no others.
pub proof fn snb_power_counters_are_read(
    collector: pcu_snb::SnbPcuCollector,
    group: pcu_snb::SnbPcuEventGroup,
    reads: Vec<RegisterRead>,
    i: int,
    j: int,
)
    requires
        call_ensures(pcu_snb::SnbPcuCollector::reads, (&collector, group), reads),
        has_clock(collector.units(), false),
        0 <= i < collector.units().len(),
        0 <= j < counting::used_places(pcu_snb::used_counters(group), 4).len(),
    ensures
        reads_unit(
            reads@,
            collector.units(),
            pcu_snb::used_counters(group),
            false,
            i,
            j,
        ),
{
    assert(pcu_snb::used_counters(group).len() == 4);
    lemma_reads(collector.units(), pcu_snb::used_counters(group), false, i, j);
}

/// Every power control unit of Sandy and Ivy Bridge is tried out by freezing it and turning its
/// first counter off.
pub proof fn snb_power_is_probed_by_freezing(
    collector: pcu_snb::SnbPcuCollector,
    writes: Vec<RegisterWrite>,
    i: int,
)
    requires
        call_ensures(pcu_snb::SnbPcuCollector::probe_writes, (&collector,), writes),
        0 <= i < collector.units().len(),
    ensures
        ({
            let unit = collector.units()[i];
            &&& counting::is_written(
                writes@,
                unit.control,
                layout::ep_words(collector.architecture()).0,
                unit.width,
            )
            &&& counting::is_written(writes@, unit.controls@[0], 0, unit.width)
            &&& unit.filter is Some ==> counting::is_written(
                writes@,
                unit.filter->0,
                0,
                unit.width,
            )
        }),
{
    counting::every_unit_is_probed(
        collector.units(),
        layout::ep_words(collector.architecture()).0,
        i,
    );
}

/// Freezing tells every power control unit of Ice Lake to freeze, and releasing tells it to go on;
/// nothing else is written.
pub proof fn icx_power_is_frozen_and_released(
    collector: pcu_icx::IcxPcuCollector,
    frozen: Vec<RegisterWrite>,
    released: Vec<RegisterWrite>,
)
    requires
        call_ensures(pcu_icx::IcxPcuCollector::freeze_writes, (&collector,), frozen),
        call_ensures(pcu_icx::IcxPcuCollector::unfreeze_writes, (&collector,), released),
    ensures
        tells_each(frozen@, collector.units(), 0x100u64),
        tells_each(released@, collector.units(), 0u64),
{
    lemma_tells(collector.units(), 0x100u64);
    lemma_tells(collector.units(), 0u64);
}

/// Programming resets every power control unit of Ice Lake and selects the events of its counters;
/// nothing else is written.
pub proof fn icx_power_is_reset_and_programmed(
    collector: pcu_icx::IcxPcuCollector,
    writes: Vec<RegisterWrite>,
    i: int,
    c: int,
    k: int,
)
    requires
        call_ensures(pcu_icx::IcxPcuCollector::program_writes, (&collector,), writes),
        0 <= i < collector.units().len(),
        0 <= c < 1,
        0 <= k < writes@.len(),
    ensures
        resets_and_selects(
            writes@,
            collector.units(),
            seq![0x103u64],
            seq![Some(pcu_icx::control_word(0x00))],
            i,
            c,
        ),
        resets_or_programs_one(
            writes@[k],
            collector.units(),
            seq![0x103u64],
            seq![Some(pcu_icx::control_word(0x00))],
        ),
{
    let reset = seq![0x103u64];
    assert(seq![Some(pcu_icx::control_word(0x00))].len() == 1);
    lemma_resets_and_selects(
        collector.units(),
        reset,
        seq![Some(pcu_icx::control_word(0x00))],
        i,
        c,
    );
    lemma_resets_or_programs(collector.units(), reset, seq![Some(pcu_icx::control_word(0x00))], k);
}

/// Every counter of every power control unit of Ice Lake is read, in order.
pub proof fn icx_power_counters_are_read(
    collector: pcu_icx::IcxPcuCollector,
    reads: Vec<RegisterRead>,
    i: int,
    j: int,
)
    requires
        call_ensures(pcu_icx::IcxPcuCollector::reads, (&collector,), reads),
        has_clock(collector.units(), false),
        0 <= i < collector.units().len(),
        0 <= j < 1,
    ensures
        reads_every_counter(
            reads@,
            collector.units(),
            1,
            false,
            i,
            j,
        ),
{
    lemma_reads_every(collector.units(), 1, false, i, j);
}

/// Every power control unit of Ice Lake is tried out by freezing it and turning its first counter
/// off.
pub proof fn icx_power_is_probed_by_freezing(
    collector: pcu_icx::IcxPcuCollector,
    writes: Vec<RegisterWrite>,
    i: int,
)
    requires
        call_ensures(pcu_icx::IcxPcuCollector::probe_writes, (&collector,), writes),
        0 <= i < collector.units().len(),
    ensures
        ({
            let unit = collector.units()[i];
            &&& counting::is_written(writes@, unit.control, 0x100u64, unit.width)
            &&& counting::is_written(writes@, unit.controls@[0], 0, unit.width)
            &&& unit.filter is Some ==> counting::is_written(
                writes@,
                unit.filter->0,
                0,
                unit.width,
            )
        }),
{
    counting::every_unit_is_probed(collector.units(), 0x100u64, i);
}

/// Freezing tells every power control unit of Sapphire Rapids to freeze, and releasing tells it to
/// go on; nothing else is written.
pub proof fn spr_power_is_frozen_and_released(
    collector: pcu_spr::SprPcuCollector,
    frozen: Vec<RegisterWrite>,
    released: Vec<RegisterWrite>,
)
    requires
        call_ensures(pcu_spr::SprPcuCollector::freeze_writes, (&collector,), frozen),
        call_ensures(pcu_spr::SprPcuCollector::unfreeze_writes, (&collector,), released),
    ensures
        tells_each(frozen@, collector.units(), 1u64),
        tells_each(released@, collector.units(), 0u64),
{
    lemma_tells(collector.units(), 1u64);
    lemma_tells(collector.units(), 0u64);
}

/// Programming resets every power control unit of Sapphire Rapids and selects the events of its
/// counters; nothing else is written.
pub proof fn spr_power_is_reset_and_programmed(
    collector: pcu_spr::SprPcuCollector,
    writes: Vec<RegisterWrite>,
    i: int,
    c: int,
    k: int,
)
    requires
        call_ensures(pcu_spr::SprPcuCollector::program_writes, (&collector,), writes),
        0 <= i < collector.units().len(),
        0 <= c < 4,
        0 <= k < writes@.len(),
    ensures
        resets_and_selects(
            writes@,
            collector.units(),
            seq![0x101u64, 0x201u64],
            pcu_spr::control_words(),
            i,
            c,
        ),
        resets_or_programs_one(
            writes@[k],
            collector.units(),
            seq![0x101u64, 0x201u64],
            pcu_spr::control_words(),
        ),
{
    let reset = seq![0x101u64, 0x201u64];
    assert(pcu_spr::control_words().len() == 4);
    lemma_resets_and_selects(collector.units(), reset, pcu_spr::control_words(), i, c);
    lemma_resets_or_programs(collector.units(), reset, pcu_spr::control_words(), k);
}

/// The counters of every power control unit of Sapphire Rapids that count an event are read, in
/// order, and no others.
pub proof fn spr_power_counters_are_read(
    collector: pcu_spr::SprPcuCollector,
    reads: Vec<RegisterRead>,
    i: int,
    j: int,
)
    requires
        call_ensures(pcu_spr::SprPcuCollector::reads, (&collector,), reads),
        has_clock(collector.units(), false),
        0 <= i < collector.units().len(),
        0 <= j < counting::used_places(pcu_spr::used_counters(), 4).len(),
    ensures
        reads_unit(
            reads@,
            collector.units(),
            pcu_spr::used_counters(),
            false,
            i,
            j,
        ),
{
    assert(pcu_spr::used_counters().len() == 4);
    lemma_reads(collector.units(), pcu_spr::used_counters(), false, i, j);
}

/// Every power control unit of Sapphire Rapids is tried out by resetting it twice and releasing it.
pub proof fn spr_power_is_probed_by_resetting(
    collector: pcu_spr::SprPcuCollector,
    writes: Vec<RegisterWrite>,
    i: int,
)
    requires
        call_ensures(pcu_spr::SprPcuCollector::probe_writes, (&collector,), writes),
        0 <= i < collector.units().len(),
    ensures
        writes@.len() == collector.units().len() * 3,
        writes@[i * 3] == told(collector.units()[i], 0x101),
        writes@[i * 3 + 1] == told(collector.units()[i], 0x201),
        writes@[i * 3 + 2] == told(collector.units()[i], 0),
{
    let words = seq![0x101u64, 0x201u64, 0u64];
    counting::every_unit_is_told_every_word(collector.units(), words, i, 0);
    counting::every_unit_is_told_every_word(collector.units(), words, i, 1);
    counting::every_unit_is_told_every_word(collector.units(), words, i, 2);
}

/// The units of Haswell and Broadwell that count the events of a group: the home agents or the
/// memory channels.
pub open spec fn hsx_units(
    collector: imc_hsx::HsxImcCollector,
    group: imc_hsx::HsxMeasurementGroup,
) -> Seq<Unit<HsxUncoreScope>> {
    if group is Ha {
        collector.ha_units()
    } else {
        collector.channels()
    }
}

/// The words that select the events of a group.
pub open spec fn hsx_words(group: imc_hsx::HsxMeasurementGroup) -> Seq<Option<u64>> {
    match group {
        imc_hsx::HsxMeasurementGroup::Ha(group) => imc_hsx::ha_words(group),
        imc_hsx::HsxMeasurementGroup::Imc(group) => imc_hsx::imc_words(group),
    }
}

/// Freezing tells every unit of Haswell and Broadwell that counts the events of a group to freeze,
/// and releasing tells it to go on; nothing else is written.
pub proof fn hsx_memory_is_frozen_and_released(
    collector: imc_hsx::HsxImcCollector,
    group: imc_hsx::HsxMeasurementGroup,
    frozen: Vec<RegisterWrite>,
    released: Vec<RegisterWrite>,
)
    requires
        call_ensures(imc_hsx::HsxImcCollector::freeze_writes, (&collector, group), frozen),
        call_ensures(imc_hsx::HsxImcCollector::unfreeze_writes, (&collector, group), released),
    ensures
        tells_each(frozen@, hsx_units(collector, group), collector.words().freeze),
        tells_each(released@, hsx_units(collector, group), collector.words().unfreeze),
{
    lemma_tells(hsx_units(collector, group), collector.words().freeze);
    lemma_tells(hsx_units(collector, group), collector.words().unfreeze);
}

/// Programming resets every unit of Haswell and Broadwell that counts the events of a group first
/// and then selects them; nothing else is written.
pub proof fn hsx_memory_is_reset_and_programmed(
    collector: imc_hsx::HsxImcCollector,
    group: imc_hsx::HsxMeasurementGroup,
    writes: Vec<RegisterWrite>,
    i: int,
    c: int,
    k: int,
)
    requires
        call_ensures(imc_hsx::HsxImcCollector::program_writes, (&collector, group), writes),
        0 <= i < hsx_units(collector, group).len(),
        0 <= c < 4,
        hsx_units(collector, group).len() * 1 <= k < writes@.len(),
    ensures
        resets_then_selects(
            writes@,
            hsx_units(collector, group),
            seq![collector.words().freeze_and_reset],
            hsx_words(group),
            0x48_0000u64,
            i,
            c,
        ),
        programs_one(writes@[k], hsx_units(collector, group), hsx_words(group), 0x48_0000u64),
{
    let reset = seq![collector.words().freeze_and_reset];
    let units = hsx_units(collector, group);
    assert(hsx_words(group).len() == 4);
    lemma_resets(units, reset, hsx_words(group), 0x48_0000u64, i, c);
    lemma_nothing_else(units, reset, hsx_words(group), 0x48_0000u64, k);
}

/// Every counter of every unit of Haswell and Broadwell that counts the events of a group is read,
/// in order, and the clock counter of a channel after them; home agents have none.
pub proof fn hsx_memory_counters_are_read(
    collector: imc_hsx::HsxImcCollector,
    group: imc_hsx::HsxMeasurementGroup,
    reads: Vec<RegisterRead>,
    clock: bool,
    i: int,
    j: int,
)
    requires
        call_ensures(imc_hsx::HsxImcCollector::reads, (&collector, group), reads),
        has_clock(hsx_units(collector, group), clock),
        0 <= i < hsx_units(collector, group).len(),
        0 <= j < 4 + if clock {
            1int
        } else {
            0int
        },
    ensures
        reads_every_counter(reads@, hsx_units(collector, group), 4, clock, i, j),
{
    lemma_reads_every(hsx_units(collector, group), 4, clock, i, j);
}

} // verus!
