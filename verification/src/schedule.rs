//! How a measurement interval is divided between the event groups of a unit.
//!
//! A unit has fewer counters than there are events to count, so the events are split into groups
//! that take turns. An interval is cut into rounds, every round runs each group once, and the
//! group that goes first moves on by one from one sample to the next.
use vstd::arithmetic::div_mod::*;
use vstd::arithmetic::mul::*;
use vstd::prelude::*;

verus! {

/// The longest time that one group counts without a break, in nanoseconds.
pub const MAX_SLICE_NANOS: u128 = 100_000_000;

/// The largest time span in nanoseconds: whole seconds in 64 bits and a fraction below a second.
pub const MAX_SPAN_NANOS: u128 = 18_446_744_073_709_551_615_999_999_999;

/// The share of an interval that one slice gets: `interval_nanos / slice_count`.
#[derive(Clone, Copy, Debug, PartialEq, Eq, Structural)]
pub struct SliceShare {
    pub interval_nanos: u128,
    pub slice_count: usize,
}

/// One turn of an event group.
#[derive(Clone, Copy, Debug, PartialEq, Eq)]
pub struct Slice<G> {
    pub share: SliceShare,
    pub group: G,
}

/// The quotient rounded up.
pub open spec fn ceil_quotient(dividend: nat, divisor: nat) -> nat
    recommends
        divisor > 0,
{
    ((dividend + divisor - 1) as nat / divisor) as nat
}

/// The larger of two numbers.
pub open spec fn larger(a: nat, b: nat) -> nat {
    if a < b {
        b
    } else {
        a
    }
}

/// The number of rounds that keeps every slice within `MAX_SLICE_NANOS`; at least one.
pub open spec fn bounded_rounds(interval_nanos: nat, group_count: nat) -> nat {
    larger(1, ceil_quotient(interval_nanos, (MAX_SLICE_NANOS as nat) * group_count))
}

/// The number of rounds when the interval is first cut into slices and the slices are then dealt
/// out to the groups; at least one.
pub open spec fn dealt_rounds(interval_nanos: nat, group_count: nat) -> nat {
    ceil_quotient(
        larger(1, saturated(ceil_quotient(interval_nanos, MAX_SLICE_NANOS as nat))),
        group_count,
    )
}

/// `n`, or the largest `usize` where `n` is larger.
pub open spec fn saturated(n: nat) -> nat {
    if n <= usize::MAX {
        n
    } else {
        usize::MAX as nat
    }
}

/// The group that is run at position `i` of a schedule that starts at `next_group`.
pub open spec fn group_at(next_group: int, group_count: int, i: int) -> int {
    (next_group + i % group_count) % group_count
}

fn ceil_div(dividend: u128, divisor: u128) -> (quotient: u128)
    requires
        divisor > 0,
    ensures
        quotient == ceil_quotient(dividend as nat, divisor as nat),
{
    let quotient: u128 = dividend / divisor;
    let remainder: u128 = dividend % divisor;
    proof {
        let (a, d, q, r) = (dividend as int, divisor as int, quotient as int, remainder as int);
        lemma_fundamental_div_mod(a, d);
        assert(a == d * q + r);
        if r == 0 {
            lemma_fundamental_div_mod_converse(a + d - 1, d, q, d - 1);
        } else {
            assert(d * (q + 1) == d * q + d) by (nonlinear_arith);
            lemma_fundamental_div_mod_converse(a + d - 1, d, q + 1, r - 1);
            assert(d * q + r <= u128::MAX);
            if d == 1 {
                assert(r == 0);
            }
            assert(q + 1 <= u128::MAX) by (nonlinear_arith)
                requires
                    d >= 2,
                    d * q + r <= u128::MAX,
                    r >= 0,
                    q >= 0,
            ;
        }
    }
    if remainder == 0 {
        quotient
    } else {
        quotient + 1
    }
}

fn saturate(n: u128) -> (result: usize)
    ensures
        result == saturated(n as nat),
{
    if n <= usize::MAX as u128 {
        n as usize
    } else {
        usize::MAX
    }
}

/// The number of rounds into which an interval is cut so that no slice is longer than
/// `MAX_SLICE_NANOS`.
pub fn bounded_round_count(interval_nanos: u128, group_count: usize) -> (rounds: usize)
    requires
        group_count > 0,
    ensures
        rounds == saturated(bounded_rounds(interval_nanos as nat, group_count as nat)),
{
    assert(MAX_SLICE_NANOS * group_count <= u128::MAX) by (nonlinear_arith)
        requires
            group_count <= u64::MAX,
    ;
    assert(MAX_SLICE_NANOS * group_count > 0) by (nonlinear_arith)
        requires
            group_count > 0,
    ;
    let max_round_nanos: u128 = MAX_SLICE_NANOS * group_count as u128;
    let rounds: u128 = ceil_div(interval_nanos, max_round_nanos);
    if rounds < 1 {
        saturate(1)
    } else {
        saturate(rounds)
    }
}

/// The number of rounds that gives each group its turns when the slices are cut first.
pub fn dealt_round_count(interval_nanos: u128, group_count: usize) -> (rounds: usize)
    requires
        group_count > 0,
    ensures
        rounds == dealt_rounds(interval_nanos as nat, group_count as nat),
{
    let slices: usize = saturate(ceil_div(interval_nanos, MAX_SLICE_NANOS));
    let slices: usize = if slices < 1 {
        1
    } else {
        slices
    };
    let rounds: u128 = ceil_div(slices as u128, group_count as u128);
    proof {
        let (n, d) = (slices as int, group_count as int);
        lemma_fundamental_div_mod(n + d - 1, d);
        lemma_mod_bound(n + d - 1, d);
        let q = (n + d - 1) / d;
        assert(q <= n) by (nonlinear_arith)
            requires
                n + d - 1 >= d * q,
                n >= 1,
                d >= 1,
        ;
    }
    rounds as usize
}

/// The group that goes first in the sample after one that started at `next_group`.
pub fn rotate(next_group: usize, group_count: usize) -> (next: usize)
    requires
        next_group < group_count,
    ensures
        next == (next_group + 1) % group_count as int,
        next < group_count,
{
    (next_group + 1) % group_count
}

/// Whether `slices` gives the groups their turns over `rounds` rounds: every round runs all groups
/// in cyclic order from `next_group`, and every slice gets the same share of the interval.
pub open spec fn is_schedule<G>(
    slices: Seq<Slice<G>>,
    groups: Seq<G>,
    next_group: int,
    interval_nanos: u128,
    rounds: nat,
) -> bool {
    &&& slices.len() == groups.len() * rounds
    &&& forall|i: int|
        0 <= i < slices.len() ==> (#[trigger] slices[i]).group == groups[group_at(
            next_group,
            groups.len() as int,
            i,
        )]
    &&& forall|i: int|
        0 <= i < slices.len() ==> (#[trigger] slices[i]).share == (SliceShare {
            interval_nanos,
            slice_count: (groups.len() * rounds) as usize,
        })
}

/// Gives the groups their turns over `round_count` rounds.
pub fn schedule_rounds<G: Copy>(
    groups: &Vec<G>,
    next_group: usize,
    interval_nanos: u128,
    round_count: usize,
) -> (slices: Vec<Slice<G>>)
    requires
        next_group < groups@.len(),
        groups@.len() * round_count <= usize::MAX,
    ensures
        is_schedule(slices@, groups@, next_group as int, interval_nanos, round_count as nat),
{
    let group_count: usize = groups.len();
    let slice_count: usize = group_count * round_count;
    let share = SliceShare { interval_nanos, slice_count };
    let mut slices: Vec<Slice<G>> = Vec::new();
    let mut position: usize = 0;
    while position < slice_count
        invariant
            group_count == groups@.len(),
            next_group < group_count,
            position <= slice_count,
            slices@.len() == position,
            share == (SliceShare { interval_nanos, slice_count }),
            forall|i: int|
                0 <= i < position ==> (#[trigger] slices@[i]).group == groups@[group_at(
                    next_group as int,
                    group_count as int,
                    i,
                )],
            forall|i: int| 0 <= i < position ==> (#[trigger] slices@[i]).share == share,
        decreases slice_count - position,
    {
        let turn: usize = position % group_count;
        let room: usize = group_count - next_group;
        let index: usize = if turn < room {
            next_group + turn
        } else {
            turn - room
        };
        proof {
            let n = group_count as int;
            if turn < room {
                lemma_small_mod((next_group + turn) as nat, n as nat);
            } else {
                lemma_mod_add_multiples_vanish(turn - room, n);
                lemma_small_mod((turn - room) as nat, n as nat);
            }
        }
        slices.push(Slice { share, group: groups[index] });
        position += 1;
    }
    slices
}

/// A schedule has at least one round, however short the interval is.
pub proof fn rounds_are_positive(interval_nanos: nat, group_count: nat)
    requires
        group_count > 0,
    ensures
        bounded_rounds(interval_nanos, group_count) > 0,
        saturated(bounded_rounds(interval_nanos, group_count)) > 0,
        dealt_rounds(interval_nanos, group_count) > 0,
{
    let slices = larger(1, saturated(ceil_quotient(interval_nanos, MAX_SLICE_NANOS as nat)));
    assert((slices + group_count - 1) as nat / group_count >= 1) by (nonlinear_arith)
        requires
            slices >= 1,
            group_count > 0,
    ;
}

/// The group that goes first after `times` rotations.
pub open spec fn rotated(next_group: nat, group_count: nat, times: nat) -> nat
    decreases times,
{
    if times == 0 {
        next_group
    } else {
        (rotated(next_group, group_count, (times - 1) as nat) + 1) % group_count
    }
}

/// Rotating `times` times moves the first group by `times` in cyclic order.
pub proof fn lemma_rotated(next_group: nat, group_count: nat, times: nat)
    requires
        next_group < group_count,
    ensures
        rotated(next_group, group_count, times) == (next_group + times) % group_count,
    decreases times,
{
    if times == 0 {
        lemma_small_mod(next_group, group_count);
    } else {
        lemma_rotated(next_group, group_count, (times - 1) as nat);
        lemma_add_mod_noop(
            (next_group + (times - 1) as nat) as int,
            1,
            group_count as int,
        );
        if group_count > 1 {
            lemma_small_mod(1, group_count);
        }
    }
}

/// The groups take turns at going first: `group_count` rotations lead back to the start.
pub proof fn rotation_is_cyclic(next_group: nat, group_count: nat)
    requires
        next_group < group_count,
    ensures
        rotated(next_group, group_count, group_count) == next_group,
{
    lemma_rotated(next_group, group_count, group_count);
    lemma_mod_add_multiples_vanish(next_group as int, group_count as int);
    lemma_small_mod(next_group, group_count);
}

/// Every round of a schedule runs every group exactly once: in the round that starts at slice
/// `round * group_count`, group `g` is run at one position and at no other.
pub proof fn round_runs_every_group_once(
    next_group: int,
    group_count: int,
    round: int,
    group: int,
) -> (turn: int)
    requires
        0 <= next_group < group_count,
        0 <= group < group_count,
        0 <= round,
    ensures
        0 <= turn < group_count,
        group_at(next_group, group_count, round * group_count + turn) == group,
        forall|other: int|
            0 <= other < group_count && #[trigger] group_at(
                next_group,
                group_count,
                round * group_count + other,
            ) == group ==> other == turn,
{
    let turn = if group >= next_group {
        group - next_group
    } else {
        group - next_group + group_count
    };
    assert forall|t: int| 0 <= t < group_count implies #[trigger] group_at(
        next_group,
        group_count,
        round * group_count + t,
    ) == (if next_group + t < group_count {
        next_group + t
    } else {
        next_group + t - group_count
    }) by {
        lemma_mod_multiples_vanish(round, t, group_count);
        assert((group_count * round + t) % group_count == t % group_count);
        assert(group_count * round == round * group_count) by (nonlinear_arith);
        lemma_small_mod(t as nat, group_count as nat);
        if next_group + t < group_count {
            lemma_small_mod((next_group + t) as nat, group_count as nat);
        } else {
            lemma_mod_add_multiples_vanish(next_group + t - group_count, group_count);
            lemma_small_mod((next_group + t - group_count) as nat, group_count as nat);
        }
    }
    assert(group_at(next_group, group_count, round * group_count + turn) == group);
    turn
}

/// No slice of a schedule with the bounded number of rounds gets more than `MAX_SLICE_NANOS` of
/// the interval, as long as the number of rounds fits in a `usize`.
pub proof fn bounded_rounds_bound_slices(interval_nanos: nat, group_count: nat)
    requires
        group_count > 0,
    ensures
        interval_nanos <= bounded_rounds(interval_nanos, group_count) * group_count
            * MAX_SLICE_NANOS,
{
    let round = (MAX_SLICE_NANOS as nat) * group_count;
    let n = interval_nanos as int;
    let d = round as int;
    assert(d > 0) by (nonlinear_arith)
        requires
            d == MAX_SLICE_NANOS * group_count,
            group_count > 0,
    ;
    let q = ceil_quotient(interval_nanos, round) as int;
    lemma_fundamental_div_mod(n + d - 1, d);
    lemma_mod_bound(n + d - 1, d);
    assert(n <= d * q);
    let rounds = bounded_rounds(interval_nanos, group_count) as int;
    assert(d * q <= d * rounds) by (nonlinear_arith)
        requires
            q <= rounds,
            d > 0,
    ;
    assert(d * rounds == rounds * group_count * MAX_SLICE_NANOS) by (nonlinear_arith)
        requires
            d == MAX_SLICE_NANOS * group_count,
    ;
}

proof fn lemma_ceil_quotient_is_fewest(dividend: nat, divisor: nat)
    requires
        divisor > 0,
        ceil_quotient(dividend, divisor) > 0,
    ensures
        dividend > (ceil_quotient(dividend, divisor) - 1) * divisor,
{
    let (n, d) = (dividend as int, divisor as int);
    let q = ceil_quotient(dividend, divisor) as int;
    lemma_fundamental_div_mod(n + d - 1, d);
    lemma_mod_bound(n + d - 1, d);
    assert((q - 1) * d == d * q - d) by (nonlinear_arith);
}

/// The bounded number of rounds is the fewest: with one round less, slices would get more than
/// `MAX_SLICE_NANOS` of the interval.
pub proof fn bounded_rounds_are_fewest(interval_nanos: nat, group_count: nat)
    requires
        group_count > 0,
    ensures
        ({
            let rounds = bounded_rounds(interval_nanos, group_count);
            rounds == 1 || interval_nanos > (rounds - 1) * group_count * MAX_SLICE_NANOS
        }),
        ({
            let rounds = saturated(bounded_rounds(interval_nanos, group_count));
            rounds == 1 || interval_nanos > (rounds - 1) * group_count * MAX_SLICE_NANOS
        }),
{
    let round = (MAX_SLICE_NANOS as nat) * group_count;
    let rounds = bounded_rounds(interval_nanos, group_count) as int;
    let kept = saturated(bounded_rounds(interval_nanos, group_count)) as int;
    assert(round > 0) by (nonlinear_arith)
        requires
            round == MAX_SLICE_NANOS * group_count,
            group_count > 0,
    ;
    if rounds > 1 {
        lemma_ceil_quotient_is_fewest(interval_nanos, round);
        assert((rounds - 1) * round == (rounds - 1) * group_count * MAX_SLICE_NANOS)
            by (nonlinear_arith)
            requires
                round == MAX_SLICE_NANOS * group_count,
        ;
        assert((kept - 1) * group_count * MAX_SLICE_NANOS <= (rounds - 1) * group_count
            * MAX_SLICE_NANOS) by (nonlinear_arith)
            requires
                kept <= rounds,
                group_count > 0,
        ;
    }
}

/// Dealing the slices out to the groups takes the fewest rounds too.
pub proof fn dealt_rounds_are_fewest(interval_nanos: nat, group_count: nat)
    requires
        group_count > 0,
    ensures
        ({
            let rounds = dealt_rounds(interval_nanos, group_count);
            rounds == 1 || interval_nanos > (rounds - 1) * group_count * MAX_SLICE_NANOS
        }),
{
    let m = MAX_SLICE_NANOS as nat;
    let needed = ceil_quotient(interval_nanos, m);
    let slices = larger(1, saturated(needed));
    let rounds = dealt_rounds(interval_nanos, group_count) as int;
    rounds_are_positive(interval_nanos, group_count);
    if rounds > 1 {
        let g = group_count as int;
        lemma_ceil_quotient_is_fewest(slices, group_count);
        assert((rounds - 1) * g >= g) by (nonlinear_arith)
            requires
                rounds > 1,
                g > 0,
        ;
        lemma_ceil_quotient_is_fewest(interval_nanos, m);
        assert((rounds - 1) * g * m <= (needed - 1) * m) by (nonlinear_arith)
            requires
                (rounds - 1) * g <= needed - 1,
                m > 0,
        ;
    }
}

/// Dealing the slices out to the groups also keeps every slice within `MAX_SLICE_NANOS`, as long
/// as the number of slices fits in a `usize`.
pub proof fn dealt_rounds_bound_slices(interval_nanos: nat, group_count: nat)
    requires
        group_count > 0,
        interval_nanos <= usize::MAX * MAX_SLICE_NANOS,
    ensures
        interval_nanos <= dealt_rounds(interval_nanos, group_count) * group_count
            * MAX_SLICE_NANOS,
{
    let n = interval_nanos as int;
    let m = MAX_SLICE_NANOS as int;
    let g = group_count as int;
    lemma_fundamental_div_mod(n + m - 1, m);
    lemma_mod_bound(n + m - 1, m);
    assert(ceil_quotient(interval_nanos, MAX_SLICE_NANOS as nat) <= usize::MAX) by {
        let q = ceil_quotient(interval_nanos, MAX_SLICE_NANOS as nat) as int;
        assert(q <= usize::MAX) by (nonlinear_arith)
            requires
                n + m - 1 >= m * q,
                n <= usize::MAX * m,
                m > 0,
        ;
    }
    let slices = larger(1, ceil_quotient(interval_nanos, MAX_SLICE_NANOS as nat)) as int;
    assert(n <= m * slices) by (nonlinear_arith)
        requires
            n <= m * ceil_quotient(interval_nanos, MAX_SLICE_NANOS as nat),
            ceil_quotient(interval_nanos, MAX_SLICE_NANOS as nat) <= slices,
            m > 0,
    ;
    lemma_fundamental_div_mod(slices + g - 1, g);
    lemma_mod_bound(slices + g - 1, g);
    let rounds = dealt_rounds(interval_nanos, group_count) as int;
    assert(slices <= g * rounds);
    assert(m * slices <= rounds * g * m) by (nonlinear_arith)
        requires
            slices <= g * rounds,
            m > 0,
    ;
}

} // verus!
