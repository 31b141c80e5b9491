//! When the groups of events have their turns.
use crate::error::CollectorError;
use crate::laws::machine;
use crate::metrics::imc::hsx as imc_hsx;
use crate::metrics::imc::icx as imc_icx;
use crate::metrics::imc::skx as imc_skx;
use crate::metrics::imc::snb as imc_snb;
use crate::metrics::imc::spr as imc_spr;
use crate::metrics::interconnect::qpi_common;
use crate::metrics::interconnect::upi_common;
use crate::metrics::irp::hsx as irp_hsx;
use crate::metrics::irp::icx as irp_icx;
use crate::metrics::irp::skx as irp_skx;
use crate::metrics::irp::snb as irp_snb;
use crate::metrics::irp::spr as irp_spr;
use crate::metrics::pcu::common;
use crate::metrics::pcu::hsx as pcu_hsx;
use crate::metrics::pcu::icx as pcu_icx;
use crate::metrics::pcu::skx as pcu_skx;
use crate::metrics::pcu::snb as pcu_snb;
use crate::metrics::pcu::spr as pcu_spr;
use crate::sampling::{self, SampleCursor, SampleStep};
use crate::schedule::{self, Slice};
use vstd::arithmetic::div_mod::{
    lemma_add_mod_noop, lemma_mod_bound, lemma_mod_self_0, lemma_small_mod,
};
use vstd::prelude::*;

verus! {

/// Whether the interval is dealt out over slices: whole rounds of the groups, from the group whose
/// turn it is, each slice with the same share. No slice is longer than a tenth of a second, and
/// there are no more rounds than that takes.
pub open spec fn is_dealt<G>(
    slices: Seq<Slice<G>>,
    groups: Seq<G>,
    next_group: int,
    interval_nanos: u128,
) -> bool {
    &&& slices.len() >= groups.len()
    &&& slices[0].group == groups[next_group]
    &&& interval_nanos <= slices.len() * 100_000_000 || slices.len() >= usize::MAX
        || interval_nanos > usize::MAX * 100_000_000
    &&& slices.len() == groups.len() || interval_nanos > (slices.len() - groups.len())
        * 100_000_000
}

/// Whether slice `i` has its even share of the interval and is followed by the group after its own.
pub open spec fn is_turn<G>(
    slices: Seq<Slice<G>>,
    groups: Seq<G>,
    interval_nanos: u128,
    i: int,
) -> bool {
    &&& slices[i].share.interval_nanos == interval_nanos
    &&& slices[i].share.slice_count == slices.len()
    &&& i + 1 < slices.len() ==> exists|g: int|
        {
            &&& 0 <= g < groups.len()
            &&& slices[i].group == #[trigger] groups[g]
            &&& slices[i + 1].group == groups[if g + 1 == groups.len() {
                0
            } else {
                g + 1
            }]
        }
}

proof fn lemma_turn<G>(
    slices: Seq<Slice<G>>,
    groups: Seq<G>,
    next_group: int,
    interval_nanos: u128,
    rounds: nat,
    i: int,
)
    requires
        schedule::is_schedule(slices, groups, next_group, interval_nanos, rounds),
        0 <= next_group < groups.len(),
        0 <= i < slices.len() <= usize::MAX,
    ensures
        is_turn(slices, groups, interval_nanos, i),
        slices[0].group == groups[next_group],
{
    machine::schedule_deals_turns_in_order(slices, groups, next_group, interval_nanos, rounds, i);
    if i + 1 < slices.len() {
        let g = schedule::group_at(next_group, groups.len() as int, i);
        assert(slices[i].group == groups[g]);
        assert(slices[i + 1].group == groups[schedule::group_at(
            next_group,
            groups.len() as int,
            i + 1,
        )]);
    }
}

proof fn lemma_bounded<G>(
    slices: Seq<Slice<G>>,
    groups: Seq<G>,
    next_group: int,
    interval_nanos: u128,
)
    requires
        ({
            let rounds = schedule::saturated(
                schedule::bounded_rounds(interval_nanos as nat, groups.len()),
            );
            schedule::is_schedule(slices, groups, next_group, interval_nanos, rounds)
        }),
        0 <= next_group < groups.len(),
        slices.len() <= usize::MAX,
    ensures
        is_dealt(slices, groups, next_group, interval_nanos),
        slices.len() > 0,
{
    let n = groups.len();
    let all = schedule::bounded_rounds(interval_nanos as nat, n);
    let rounds = schedule::saturated(all);
    schedule::rounds_are_positive(interval_nanos as nat, n);
    schedule::bounded_rounds_bound_slices(interval_nanos as nat, n);
    schedule::bounded_rounds_are_fewest(interval_nanos as nat, n);
    assert(n * rounds >= n && n * rounds >= rounds) by (nonlinear_arith)
        requires
            n > 0,
            rounds > 0,
    ;
    assert(rounds * n * 100_000_000 == (n * rounds) * 100_000_000) by (nonlinear_arith);
    assert((rounds - 1) * n * 100_000_000 == (n * rounds - n) * 100_000_000) by (nonlinear_arith);
    assert(rounds == 1 ==> n * rounds == n) by (nonlinear_arith);
    lemma_turn(slices, groups, next_group, interval_nanos, rounds, 0);
}

proof fn lemma_dealt<G>(
    slices: Seq<Slice<G>>,
    groups: Seq<G>,
    next_group: int,
    interval_nanos: u128,
)
    requires
        ({
            let rounds = schedule::dealt_rounds(interval_nanos as nat, groups.len());
            schedule::is_schedule(slices, groups, next_group, interval_nanos, rounds)
        }),
        0 <= next_group < groups.len(),
        slices.len() <= usize::MAX,
    ensures
        is_dealt(slices, groups, next_group, interval_nanos),
        slices.len() > 0,
{
    let n = groups.len();
    let rounds = schedule::dealt_rounds(interval_nanos as nat, n);
    schedule::rounds_are_positive(interval_nanos as nat, n);
    schedule::dealt_rounds_are_fewest(interval_nanos as nat, n);
    if interval_nanos <= usize::MAX * 100_000_000 {
        schedule::dealt_rounds_bound_slices(interval_nanos as nat, n);
    }
    assert(n * rounds >= n && n * rounds >= rounds) by (nonlinear_arith)
        requires
            n > 0,
            rounds > 0,
    ;
    assert(rounds * n * 100_000_000 == (n * rounds) * 100_000_000) by (nonlinear_arith);
    assert((rounds - 1) * n * 100_000_000 == (n * rounds - n) * 100_000_000) by (nonlinear_arith);
    assert(rounds == 1 ==> n * rounds == n) by (nonlinear_arith);
    lemma_turn(slices, groups, next_group, interval_nanos, rounds, 0);
}

/// A sample of the memory of Haswell and Broadwell deals the interval out over slices; an empty
/// interval is refused.
pub proof fn hsx_memory_sample_is_dealt(
    collector: imc_hsx::HsxImcCollector,
    interval_nanos: u128,
    result: Result<Vec<Slice<imc_hsx::HsxMeasurementGroup>>, CollectorError>,
    i: int,
)
    requires
        collector.wf(),
        call_ensures(imc_hsx::HsxImcCollector::begin_sample, (&collector, interval_nanos), result),
    ensures
        interval_nanos == 0
            ==> result == Err::<Vec<Slice<imc_hsx::HsxMeasurementGroup>>, CollectorError>(
            CollectorError::ZeroInterval { unit: "HSX IMC" },
        ),
        result matches Ok(slices) ==> is_dealt(
            slices@,
            imc_hsx::groups(),
            collector.next_group() as int,
            interval_nanos,
        ) && (0 <= i < slices@.len() ==> is_turn(slices@, imc_hsx::groups(), interval_nanos, i)),
        interval_nanos > 0 && result is Err ==> result->Err_0 == CollectorError::Overflow,
{
    if result is Ok {
        let slices = result->Ok_0@;
        let groups = imc_hsx::groups();
        let next_group = collector.next_group() as int;
        assert(result->Ok_0.len() == slices.len());
        lemma_bounded(slices, groups, next_group, interval_nanos);
        let rounds = imc_hsx::HsxImcCollector::rounds(interval_nanos);
        if 0 <= i < slices.len() {
            lemma_turn(slices, groups, next_group, interval_nanos, rounds, i);
        }
    }
}

/// A sample of the memory of Ice Lake deals the interval out over slices; an empty interval
/// is refused.
pub proof fn icx_memory_sample_is_dealt(
    collector: imc_icx::IcxImcCollector,
    interval_nanos: u128,
    result: Result<Vec<Slice<imc_icx::IcxImcEventGroup>>, CollectorError>,
    i: int,
)
    requires
        collector.wf(),
        call_ensures(imc_icx::IcxImcCollector::begin_sample, (&collector, interval_nanos), result),
    ensures
        interval_nanos == 0
            ==> result == Err::<Vec<Slice<imc_icx::IcxImcEventGroup>>, CollectorError>(
            CollectorError::ZeroInterval { unit: "Ice Lake-SP IMC" },
        ),
        result matches Ok(slices) ==> is_dealt(
            slices@,
            imc_icx::groups(),
            collector.next_group() as int,
            interval_nanos,
        ) && (0 <= i < slices@.len() ==> is_turn(slices@, imc_icx::groups(), interval_nanos, i)),
        interval_nanos > 0 && result is Err ==> result->Err_0 == CollectorError::Overflow,
{
    if result is Ok {
        let slices = result->Ok_0@;
        let groups = imc_icx::groups();
        let next_group = collector.next_group() as int;
        assert(result->Ok_0.len() == slices.len());
        lemma_bounded(slices, groups, next_group, interval_nanos);
        let rounds = imc_icx::IcxImcCollector::rounds(interval_nanos);
        if 0 <= i < slices.len() {
            lemma_turn(slices, groups, next_group, interval_nanos, rounds, i);
        }
    }
}

/// A sample of the memory of Skylake deals the interval out over slices; an empty interval
/// is refused.
pub proof fn skx_memory_sample_is_dealt(
    collector: imc_skx::SkxImcCollector,
    interval_nanos: u128,
    result: Result<Vec<Slice<imc_skx::ImcEventGroup>>, CollectorError>,
    i: int,
)
    requires
        collector.wf(),
        call_ensures(imc_skx::SkxImcCollector::begin_sample, (&collector, interval_nanos), result),
    ensures
        interval_nanos == 0 ==> result == Err::<Vec<Slice<imc_skx::ImcEventGroup>>, CollectorError>(
            CollectorError::ZeroInterval { unit: "IMC" },
        ),
        result matches Ok(slices) ==> is_dealt(
            slices@,
            imc_skx::groups(),
            collector.next_group() as int,
            interval_nanos,
        ) && (0 <= i < slices@.len() ==> is_turn(slices@, imc_skx::groups(), interval_nanos, i)),
        interval_nanos > 0 && result is Err ==> result->Err_0 == CollectorError::Overflow,
{
    if result is Ok {
        let slices = result->Ok_0@;
        let groups = imc_skx::groups();
        let next_group = collector.next_group() as int;
        assert(result->Ok_0.len() == slices.len());
        lemma_bounded(slices, groups, next_group, interval_nanos);
        let rounds = imc_skx::SkxImcCollector::rounds(interval_nanos);
        if 0 <= i < slices.len() {
            lemma_turn(slices, groups, next_group, interval_nanos, rounds, i);
        }
    }
}

/// A sample of the memory of Sandy and Ivy Bridge deals the interval out over slices; an empty
/// interval is refused.
pub proof fn snb_memory_sample_is_dealt(
    collector: imc_snb::SnbImcCollector,
    interval_nanos: u128,
    result: Result<Vec<Slice<imc_snb::SnbImcEventGroup>>, CollectorError>,
    i: int,
)
    requires
        collector.wf(),
        call_ensures(imc_snb::SnbImcCollector::begin_sample, (&collector, interval_nanos), result),
    ensures
        interval_nanos == 0
            ==> result == Err::<Vec<Slice<imc_snb::SnbImcEventGroup>>, CollectorError>(
            CollectorError::ZeroInterval {
                unit: if collector.architecture() is Ivb { "Ivy Bridge-EP IMC" } else { "Sandy Bridge-EP IMC" },
            },
        ),
        result matches Ok(slices) ==> is_dealt(
            slices@,
            imc_snb::groups(collector.architecture()),
            collector.next_group() as int,
            interval_nanos,
        ) && (
            0 <= i < slices@.len() ==> is_turn(
                slices@,
                imc_snb::groups(collector.architecture()),
                interval_nanos,
                i,
            )
        ),
        interval_nanos > 0 && result is Err ==> result->Err_0 == CollectorError::Overflow,
{
    if result is Ok {
        let slices = result->Ok_0@;
        let groups = imc_snb::groups(collector.architecture());
        let next_group = collector.next_group() as int;
        assert(result->Ok_0.len() == slices.len());
        lemma_bounded(slices, groups, next_group, interval_nanos);
        let rounds = imc_snb::SnbImcCollector::rounds(collector, interval_nanos);
        if 0 <= i < slices.len() {
            lemma_turn(slices, groups, next_group, interval_nanos, rounds, i);
        }
    }
}

/// A sample of the memory of Sapphire Rapids deals the interval out over slices; an empty interval
/// is refused.
pub proof fn spr_memory_sample_is_dealt(
    collector: imc_spr::SprImcCollector,
    interval_nanos: u128,
    result: Result<Vec<Slice<imc_spr::SprImcEventGroup>>, CollectorError>,
    i: int,
)
    requires
        collector.wf(),
        call_ensures(imc_spr::SprImcCollector::begin_sample, (&collector, interval_nanos), result),
    ensures
        interval_nanos == 0
            ==> result == Err::<Vec<Slice<imc_spr::SprImcEventGroup>>, CollectorError>(
            CollectorError::ZeroInterval { unit: "Sapphire Rapids IMC" },
        ),
        result matches Ok(slices) ==> is_dealt(
            slices@,
            imc_spr::groups(),
            collector.next_group() as int,
            interval_nanos,
        ) && (0 <= i < slices@.len() ==> is_turn(slices@, imc_spr::groups(), interval_nanos, i)),
        interval_nanos > 0 && result is Err ==> result->Err_0 == CollectorError::Overflow,
{
    if result is Ok {
        let slices = result->Ok_0@;
        let groups = imc_spr::groups();
        let next_group = collector.next_group() as int;
        assert(result->Ok_0.len() == slices.len());
        lemma_bounded(slices, groups, next_group, interval_nanos);
        let rounds = imc_spr::SprImcCollector::rounds(interval_nanos);
        if 0 <= i < slices.len() {
            lemma_turn(slices, groups, next_group, interval_nanos, rounds, i);
        }
    }
}

/// A sample of the inbound traffic of Haswell and Broadwell deals the interval out over slices; an
/// empty interval is refused.
pub proof fn hsx_inbound_sample_is_dealt(
    collector: irp_hsx::HsxIrpCollector,
    interval_nanos: u128,
    result: Result<Vec<Slice<irp_hsx::HsxIrpEventGroup>>, CollectorError>,
    i: int,
)
    requires
        collector.wf(),
        call_ensures(irp_hsx::HsxIrpCollector::begin_sample, (&collector, interval_nanos), result),
    ensures
        interval_nanos == 0
            ==> result == Err::<Vec<Slice<irp_hsx::HsxIrpEventGroup>>, CollectorError>(
            CollectorError::ZeroInterval { unit: "Haswell/Broadwell IRP" },
        ),
        result matches Ok(slices) ==> is_dealt(
            slices@,
            irp_hsx::groups(),
            collector.next_group() as int,
            interval_nanos,
        ) && (0 <= i < slices@.len() ==> is_turn(slices@, irp_hsx::groups(), interval_nanos, i)),
        interval_nanos > 0 && result is Err ==> result->Err_0 == CollectorError::Overflow,
{
    if result is Ok {
        let slices = result->Ok_0@;
        let groups = irp_hsx::groups();
        let next_group = collector.next_group() as int;
        assert(result->Ok_0.len() == slices.len());
        lemma_dealt(slices, groups, next_group, interval_nanos);
        let rounds = irp_hsx::HsxIrpCollector::rounds(interval_nanos);
        if 0 <= i < slices.len() {
            lemma_turn(slices, groups, next_group, interval_nanos, rounds, i);
        }
    }
}

/// A sample of the inbound traffic of Ice Lake deals the interval out over slices; an empty
/// interval is refused.
pub proof fn icx_inbound_sample_is_dealt(
    collector: irp_icx::IcxIrpCollector,
    interval_nanos: u128,
    result: Result<Vec<Slice<irp_icx::IcxIrpEventGroup>>, CollectorError>,
    i: int,
)
    requires
        collector.wf(),
        call_ensures(irp_icx::IcxIrpCollector::begin_sample, (&collector, interval_nanos), result),
    ensures
        interval_nanos == 0
            ==> result == Err::<Vec<Slice<irp_icx::IcxIrpEventGroup>>, CollectorError>(
            CollectorError::ZeroInterval { unit: "Ice Lake IRP" },
        ),
        result matches Ok(slices) ==> is_dealt(
            slices@,
            irp_icx::groups(),
            collector.next_group() as int,
            interval_nanos,
        ) && (0 <= i < slices@.len() ==> is_turn(slices@, irp_icx::groups(), interval_nanos, i)),
        interval_nanos > 0 && result is Err ==> result->Err_0 == CollectorError::Overflow,
{
    if result is Ok {
        let slices = result->Ok_0@;
        let groups = irp_icx::groups();
        let next_group = collector.next_group() as int;
        assert(result->Ok_0.len() == slices.len());
        lemma_bounded(slices, groups, next_group, interval_nanos);
        let rounds = irp_icx::IcxIrpCollector::rounds(interval_nanos);
        if 0 <= i < slices.len() {
            lemma_turn(slices, groups, next_group, interval_nanos, rounds, i);
        }
    }
}

/// A sample of the inbound traffic of Skylake deals the interval out over slices; an empty interval
/// is refused.
pub proof fn skx_inbound_sample_is_dealt(
    collector: irp_skx::IrpCollector,
    interval_nanos: u128,
    result: Result<Vec<Slice<irp_skx::IrpEventGroup>>, CollectorError>,
    i: int,
)
    requires
        collector.wf(),
        call_ensures(irp_skx::IrpCollector::begin_sample, (&collector, interval_nanos), result),
    ensures
        interval_nanos == 0 ==> result == Err::<Vec<Slice<irp_skx::IrpEventGroup>>, CollectorError>(
            CollectorError::ZeroInterval { unit: "IRP" },
        ),
        result matches Ok(slices) ==> is_dealt(
            slices@,
            irp_skx::groups(),
            collector.next_group() as int,
            interval_nanos,
        ) && (0 <= i < slices@.len() ==> is_turn(slices@, irp_skx::groups(), interval_nanos, i)),
        interval_nanos > 0 && result is Err ==> result->Err_0 == CollectorError::Overflow,
{
    if result is Ok {
        let slices = result->Ok_0@;
        let groups = irp_skx::groups();
        let next_group = collector.next_group() as int;
        assert(result->Ok_0.len() == slices.len());
        lemma_bounded(slices, groups, next_group, interval_nanos);
        let rounds = irp_skx::IrpCollector::rounds(interval_nanos);
        if 0 <= i < slices.len() {
            lemma_turn(slices, groups, next_group, interval_nanos, rounds, i);
        }
    }
}

/// A sample of the inbound traffic of Sandy and Ivy Bridge deals the interval out over slices; an
/// empty interval is refused.
pub proof fn snb_inbound_sample_is_dealt(
    collector: irp_snb::SnbIrpCollector,
    interval_nanos: u128,
    result: Result<Vec<Slice<irp_snb::SnbIrpEventGroup>>, CollectorError>,
    i: int,
)
    requires
        collector.wf(),
        call_ensures(irp_snb::SnbIrpCollector::begin_sample, (&collector, interval_nanos), result),
    ensures
        interval_nanos == 0
            ==> result == Err::<Vec<Slice<irp_snb::SnbIrpEventGroup>>, CollectorError>(
            CollectorError::ZeroInterval {
                unit: if collector.architecture() is Ivb { "Ivy Bridge-EP IRP" } else { "Sandy Bridge-EP IRP" },
            },
        ),
        result matches Ok(slices) ==> is_dealt(
            slices@,
            irp_snb::groups(),
            collector.next_group() as int,
            interval_nanos,
        ) && (0 <= i < slices@.len() ==> is_turn(slices@, irp_snb::groups(), interval_nanos, i)),
        interval_nanos > 0 && result is Err ==> result->Err_0 == CollectorError::Overflow,
{
    if result is Ok {
        let slices = result->Ok_0@;
        let groups = irp_snb::groups();
        let next_group = collector.next_group() as int;
        assert(result->Ok_0.len() == slices.len());
        lemma_dealt(slices, groups, next_group, interval_nanos);
        let rounds = irp_snb::SnbIrpCollector::rounds(interval_nanos);
        if 0 <= i < slices.len() {
            lemma_turn(slices, groups, next_group, interval_nanos, rounds, i);
        }
    }
}

/// A sample of the inbound traffic of Sapphire Rapids deals the interval out over slices; an empty
/// interval is refused.
pub proof fn spr_inbound_sample_is_dealt(
    collector: irp_spr::SprIrpCollector,
    interval_nanos: u128,
    result: Result<Vec<Slice<irp_spr::SprIrpEventGroup>>, CollectorError>,
    i: int,
)
    requires
        collector.wf(),
        call_ensures(irp_spr::SprIrpCollector::begin_sample, (&collector, interval_nanos), result),
    ensures
        interval_nanos == 0
            ==> result == Err::<Vec<Slice<irp_spr::SprIrpEventGroup>>, CollectorError>(
            CollectorError::ZeroInterval { unit: "SPR/EMR IRP" },
        ),
        result matches Ok(slices) ==> is_dealt(
            slices@,
            irp_spr::groups(),
            collector.next_group() as int,
            interval_nanos,
        ) && (0 <= i < slices@.len() ==> is_turn(slices@, irp_spr::groups(), interval_nanos, i)),
        interval_nanos > 0 && result is Err ==> result->Err_0 == CollectorError::Overflow,
{
    if result is Ok {
        let slices = result->Ok_0@;
        let groups = irp_spr::groups();
        let next_group = collector.next_group() as int;
        assert(result->Ok_0.len() == slices.len());
        lemma_bounded(slices, groups, next_group, interval_nanos);
        let rounds = irp_spr::SprIrpCollector::rounds(interval_nanos);
        if 0 <= i < slices.len() {
            lemma_turn(slices, groups, next_group, interval_nanos, rounds, i);
        }
    }
}

/// A sample of the QPI links gives every group one slice, from the group whose turn it is; an empty
/// interval is refused.
pub proof fn qpi_sample_is_dealt(
    collector: qpi_common::QpiCollector,
    interval_nanos: u128,
    result: Result<Vec<Slice<qpi_common::QpiEventGroup>>, CollectorError>,
    i: int,
)
    requires
        collector.wf(),
        call_ensures(qpi_common::QpiCollector::begin_sample, (&collector, interval_nanos), result),
    ensures
        interval_nanos == 0
            ==> result == Err::<Vec<Slice<qpi_common::QpiEventGroup>>, CollectorError>(
            CollectorError::ZeroInterval {
                unit: match collector.architecture() {
                    qpi_common::QpiArchitecture::Bdx => "Broadwell Xeon QPI",
                    qpi_common::QpiArchitecture::Hsx => "Haswell Xeon QPI",
                    qpi_common::QpiArchitecture::Ivb => "Ivy Bridge-EP QPI",
                    qpi_common::QpiArchitecture::Snb => "Sandy Bridge-EP QPI",
                },
            },
        ),
        interval_nanos > 0 ==> result is Ok,
        result matches Ok(slices) ==> {
            let groups = qpi_common::groups(collector.architecture());
            &&& slices@.len() == groups.len()
            &&& slices@[0].group == groups[collector.next_group() as int]
            &&& 0 <= i < slices@.len() ==> is_turn(slices@, groups, interval_nanos, i)
        },
{
    if result is Ok {
        let slices = result->Ok_0@;
        let groups = qpi_common::groups(collector.architecture());
        let next_group = collector.next_group() as int;
        assert(result->Ok_0.len() == slices.len());
        assert(groups.len() * 1 == groups.len());
        lemma_turn(slices, groups, next_group, interval_nanos, 1, 0);
        if 0 <= i < slices.len() {
            lemma_turn(slices, groups, next_group, interval_nanos, 1, i);
        }
    }
}

/// A sample of the UPI links gives every group one slice, from the group whose turn it is; an empty
/// interval is refused.
pub proof fn upi_sample_is_dealt(
    collector: upi_common::UpiCollector,
    interval_nanos: u128,
    result: Result<Vec<Slice<upi_common::UpiEventGroup>>, CollectorError>,
    i: int,
)
    requires
        collector.wf(),
        call_ensures(upi_common::UpiCollector::begin_sample, (&collector, interval_nanos), result),
    ensures
        interval_nanos == 0
            ==> result == Err::<Vec<Slice<upi_common::UpiEventGroup>>, CollectorError>(
            CollectorError::ZeroInterval {
                unit: match collector.architecture() {
                    upi_common::UpiArchitecture::Emr => "Emerald Rapids UPI",
                    upi_common::UpiArchitecture::Icx => "Ice Lake Xeon UPI",
                    upi_common::UpiArchitecture::Skx => "Skylake/Cascade Lake UPI",
                    upi_common::UpiArchitecture::Spr => "Sapphire Rapids UPI",
                },
            },
        ),
        interval_nanos > 0 ==> result is Ok,
        result matches Ok(slices) ==> {
            let groups = upi_common::groups(collector.architecture());
            &&& slices@.len() == groups.len()
            &&& slices@[0].group == groups[collector.next_group() as int]
            &&& 0 <= i < slices@.len() ==> is_turn(slices@, groups, interval_nanos, i)
        },
{
    if result is Ok {
        let slices = result->Ok_0@;
        let groups = upi_common::groups(collector.architecture());
        let next_group = collector.next_group() as int;
        assert(result->Ok_0.len() == slices.len());
        assert(groups.len() * 1 == groups.len());
        lemma_turn(slices, groups, next_group, interval_nanos, 1, 0);
        if 0 <= i < slices.len() {
            lemma_turn(slices, groups, next_group, interval_nanos, 1, i);
        }
    }
}

/// Whether a sample of power control units counts the clock first and then gives every other group
/// a slice, from the one whose turn it is, all with the same share of the interval.
pub open spec fn is_planned<G>(
    slices: Seq<Slice<G>>,
    groups: Seq<G>,
    next_group: int,
    interval_nanos: u128,
) -> bool {
    &&& slices.len() == groups.len()
    &&& slices[0].group == groups[0]
    &&& slices[1].group == groups[1 + next_group]
    &&& forall|i: int|
        0 <= i < slices.len() ==> (#[trigger] slices[i]).share.interval_nanos == interval_nanos
            && slices[i].share.slice_count == slices.len()
}

/// Whether the group after that of slice `i` comes next, the first one after the clock following
/// the last.
pub open spec fn is_next<G>(slices: Seq<Slice<G>>, groups: Seq<G>, i: int) -> bool {
    exists|g: int|
        {
            &&& 1 <= g < groups.len()
            &&& slices[i].group == #[trigger] groups[g]
            &&& slices[i + 1].group == groups[if g + 1 == groups.len() {
                1
            } else {
                g + 1
            }]
        }
}

proof fn lemma_planned<G>(
    slices: Seq<Slice<G>>,
    groups: Seq<G>,
    next_group: int,
    interval_nanos: u128,
    i: int,
)
    requires
        common::is_plan(slices, groups, next_group, interval_nanos),
        1 < groups.len() <= usize::MAX,
        0 <= next_group < groups.len() - 1,
    ensures
        is_planned(slices, groups, next_group, interval_nanos),
        1 <= i < slices.len() - 1 ==> is_next(slices, groups, i),
{
    let n = groups.len() - 1;
    lemma_small_mod(next_group as nat, n as nat);
    assert(slices[1].group == groups[1 + (next_group + 1 - 1) % n]);
    if 1 <= i < slices.len() - 1 {
        let t = next_group + i - 1;
        let g = 1 + t % n;
        lemma_mod_bound(t, n);
        lemma_add_mod_noop(t, 1, n);
        lemma_mod_bound(t + 1, n);
        if n == 1 {
            assert((t + 1) % n == 0);
        } else {
            lemma_small_mod(1, n as nat);
            if t % n + 1 == n {
                lemma_mod_self_0(n);
            } else {
                lemma_small_mod((t % n + 1) as nat, n as nat);
            }
        }
        assert(slices[i].group == groups[g]);
        assert(slices[i + 1].group == groups[1 + (next_group + (i + 1) - 1) % n]);
    }
}

/// A sample of the power control units of Haswell and Broadwell counts the clock first and then
/// gives every other group its turn; an empty interval is refused.
pub proof fn hsx_power_sample_is_planned(
    collector: pcu_hsx::HsxPcuCollector,
    interval_nanos: u128,
    result: Result<Vec<Slice<pcu_hsx::HsxPcuEventGroup>>, CollectorError>,
    i: int,
)
    requires
        collector.wf(),
        call_ensures(pcu_hsx::HsxPcuCollector::begin_sample, (&collector, interval_nanos), result),
    ensures
        interval_nanos == 0
            ==> result == Err::<Vec<Slice<pcu_hsx::HsxPcuEventGroup>>, CollectorError>(
            CollectorError::ZeroInterval {
                unit: match collector.architecture() {
                    pcu_hsx::HsxPcuArchitecture::Bdx => "Broadwell PCU",
                    pcu_hsx::HsxPcuArchitecture::BdxDe => "Broadwell-DE PCU",
                    pcu_hsx::HsxPcuArchitecture::Hsx => "Haswell PCU",
                },
            },
        ),
        interval_nanos > 0 ==> result is Ok,
        result matches Ok(slices) ==> {
            let groups = pcu_hsx::groups();
            &&& is_planned(slices@, groups, collector.next_group() as int, interval_nanos)
            &&& 1 <= i < slices@.len() - 1 ==> is_next(slices@, groups, i)
        },
{
    if result is Ok {
        let groups = pcu_hsx::groups();
        let next_group = collector.next_group() as int;
        assert(result->Ok_0.len() == groups.len());
        lemma_planned(result->Ok_0@, groups, next_group, interval_nanos, i);
    }
}

/// A sample of the power control units of Skylake counts the clock first and then gives every
/// other group its turn; an empty interval is refused.
pub proof fn skx_power_sample_is_planned(
    collector: pcu_skx::SkxPcuCollector,
    interval_nanos: u128,
    result: Result<Vec<Slice<pcu_skx::SkxPcuEventGroup>>, CollectorError>,
    i: int,
)
    requires
        collector.wf(),
        call_ensures(pcu_skx::SkxPcuCollector::begin_sample, (&collector, interval_nanos), result),
    ensures
        interval_nanos == 0
            ==> result == Err::<Vec<Slice<pcu_skx::SkxPcuEventGroup>>, CollectorError>(
            CollectorError::ZeroInterval {
                unit: "Skylake/Cascade Lake PCU",
            },
        ),
        interval_nanos > 0 ==> result is Ok,
        result matches Ok(slices) ==> {
            let groups = pcu_skx::groups();
            &&& is_planned(slices@, groups, collector.next_group() as int, interval_nanos)
            &&& 1 <= i < slices@.len() - 1 ==> is_next(slices@, groups, i)
        },
{
    if result is Ok {
        let groups = pcu_skx::groups();
        let next_group = collector.next_group() as int;
        assert(result->Ok_0.len() == groups.len());
        lemma_planned(result->Ok_0@, groups, next_group, interval_nanos, i);
    }
}

/// A sample of the power control units of Sandy and Ivy Bridge counts the clock first and then
/// gives every other group its turn; an empty interval is refused.
pub proof fn snb_power_sample_is_planned(
    collector: pcu_snb::SnbPcuCollector,
    interval_nanos: u128,
    result: Result<Vec<Slice<pcu_snb::SnbPcuEventGroup>>, CollectorError>,
    i: int,
)
    requires
        collector.wf(),
        call_ensures(pcu_snb::SnbPcuCollector::begin_sample, (&collector, interval_nanos), result),
    ensures
        interval_nanos == 0
            ==> result == Err::<Vec<Slice<pcu_snb::SnbPcuEventGroup>>, CollectorError>(
            CollectorError::ZeroInterval {
                unit: if collector.architecture() is Ivb { "Ivy Bridge-EP PCU" } else { "Sandy Bridge-EP PCU" },
            },
        ),
        interval_nanos > 0 ==> result is Ok,
        result matches Ok(slices) ==> {
            let groups = pcu_snb::groups(collector.architecture());
            &&& is_planned(slices@, groups, collector.next_group() as int, interval_nanos)
            &&& 1 <= i < slices@.len() - 1 ==> is_next(slices@, groups, i)
        },
{
    if result is Ok {
        let groups = pcu_snb::groups(collector.architecture());
        let next_group = collector.next_group() as int;
        assert(result->Ok_0.len() == groups.len());
        lemma_planned(result->Ok_0@, groups, next_group, interval_nanos, i);
    }
}

/// A sample of the power control units of Ice Lake runs over the whole interval; an empty one
/// is refused.
pub proof fn icx_power_sample_runs_over_the_interval(
    collector: pcu_icx::IcxPcuCollector,
    interval_nanos: u128,
    result: Result<u128, CollectorError>,
)
    requires
        call_ensures(pcu_icx::IcxPcuCollector::begin_sample, (&collector, interval_nanos), result),
    ensures
        interval_nanos == 0 ==> result == Err::<u128, CollectorError>(
            CollectorError::ZeroInterval { unit: "Ice Lake PCU" },
        ),
        interval_nanos > 0 ==> result == Ok::<u128, CollectorError>(interval_nanos),
{
}

/// A sample of the power control units of Sapphire Rapids runs over the whole interval; an empty
/// one is refused.
pub proof fn spr_power_sample_runs_over_the_interval(
    collector: pcu_spr::SprPcuCollector,
    interval_nanos: u128,
    result: Result<u128, CollectorError>,
)
    requires
        call_ensures(pcu_spr::SprPcuCollector::begin_sample, (&collector, interval_nanos), result),
    ensures
        interval_nanos == 0 ==> result == Err::<u128, CollectorError>(
            CollectorError::ZeroInterval { unit: "SPR/EMR PCU" },
        ),
        interval_nanos > 0 ==> result == Ok::<u128, CollectorError>(interval_nanos),
{
}

/// A slice is programmed, released, waited for, frozen and read, in this order; then the next slice
/// is programmed. The sample ends when the last slice was read.
pub proof fn steps_follow_each_other(
    cursor: SampleCursor,
    slice_count: usize,
    next: Option<SampleCursor>,
)
    requires
        cursor.slice < slice_count,
        call_ensures(SampleCursor::next, (cursor, slice_count), next),
    ensures
        match cursor.step {
            SampleStep::Program => next == Some(
                SampleCursor { slice: cursor.slice, step: SampleStep::Unfreeze },
            ),
            SampleStep::Unfreeze => next == Some(
                SampleCursor { slice: cursor.slice, step: SampleStep::Wait },
            ),
            SampleStep::Wait => next == Some(
                SampleCursor { slice: cursor.slice, step: SampleStep::Freeze },
            ),
            SampleStep::Freeze => next == Some(
                SampleCursor { slice: cursor.slice, step: SampleStep::Read },
            ),
            SampleStep::Read => if cursor.slice + 1 < slice_count {
                next == Some(
                    SampleCursor {
                        slice: (cursor.slice + 1) as usize,
                        step: SampleStep::Program,
                    },
                )
            } else {
                next is None
            },
        },
{
    let step = match cursor.step {
        SampleStep::Program => SampleStep::Unfreeze,
        SampleStep::Unfreeze => SampleStep::Wait,
        SampleStep::Wait => SampleStep::Freeze,
        SampleStep::Freeze => SampleStep::Read,
        SampleStep::Read => SampleStep::Program,
    };
    if next is Some {
        let slice = if cursor.step is Read {
            (cursor.slice + 1) as usize
        } else {
            cursor.slice
        };
        sampling::ordinal_determines_step(next->0, SampleCursor { slice, step });
    }
}

/// A sample starts with programming its first slice.
pub proof fn sample_starts_with_programming(slice_count: usize, first: Option<SampleCursor>)
    requires
        call_ensures(SampleCursor::start, (slice_count,), first),
    ensures
        slice_count == 0 ==> first is None,
        slice_count > 0 ==> first == Some(SampleCursor { slice: 0, step: SampleStep::Program }),
{
    if first is Some {
        sampling::ordinal_determines_step(
            first->0,
            SampleCursor { slice: 0, step: SampleStep::Program },
        );
    }
}

} // verus!
