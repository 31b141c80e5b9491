//! Arithmetic on hardware counters: widths, wrap-around, sums and averages.
use vstd::arithmetic::div_mod::*;
use vstd::arithmetic::power2::*;
use vstd::bits::*;
use vstd::prelude::*;

verus! {

/// The width of the fixed-width performance counters, in bits.
pub const COUNTER_WIDTH: u32 = 48;

/// The bits of a register that belong to a counter of `width` bits, as a number.
pub open spec fn low_bits(value: nat, width: nat) -> nat {
    if width >= 64 {
        value
    } else {
        value % pow2(width)
    }
}

/// How far a counter of `width` bits has moved from `previous` to `current`, wrap-around
/// included.
pub open spec fn distance(previous: int, current: int, width: nat) -> int {
    (current - previous) % (pow2(if width >= 64 {
        64
    } else {
        width
    }) as int)
}

/// The sum of `values`.
pub open spec fn total(values: Seq<u64>) -> nat
    decreases values.len(),
{
    if values.len() == 0 {
        0
    } else {
        total(values.drop_last()) + values.last() as nat
    }
}

/// The average of `values` rounded down; zero where there are none.
pub open spec fn mean(values: Seq<u64>) -> nat {
    if values.len() == 0 {
        0
    } else {
        total(values) / values.len()
    }
}

/// Keeps the low `width` bits of a register.
pub fn mask_width(counter: u64, width: u32) -> (value: u64)
    ensures
        value == low_bits(counter as nat, width as nat),
{
    if width >= 64 {
        counter
    } else {
        proof {
            lemma_u64_low_bits_mask_is_mod(counter, width as nat);
            lemma_low_bits_mask_values();
            lemma_u64_pow2_no_overflow(width as nat);
            lemma_u64_shl_is_mul(1, width as u64);
            lemma_pow2_pos(width as nat);
            assert(1u64 << (width as u64) == 1u64 << width);
        }
        counter & ((1u64 << width) - 1)
    }
}

/// Keeps the 48 bits of a counter register that the counter occupies.
pub fn mask_counter(counter: u64) -> (value: u64)
    ensures
        value == counter % 0x1_0000_0000_0000,
        value == low_bits(counter as nat, COUNTER_WIDTH as nat),
{
    proof {
        lemma2_to64_rest();
    }
    mask_width(counter, COUNTER_WIDTH)
}

/// How far a counter has moved between two readings, modulo its width.
pub fn counter_delta(previous: u64, current: u64, width: u32) -> (delta: u64)
    ensures
        delta == distance(previous as int, current as int, width as nat),
{
    let difference: u64 = current.wrapping_sub(previous);
    proof {
        lemma2_to64_rest();
        let d = current as int - previous as int;
        let m64 = pow2(64) as int;
        if d < 0 {
            lemma_mod_add_multiples_vanish(d, m64);
            lemma_small_mod((d + m64) as nat, m64 as nat);
        } else {
            lemma_small_mod(d as nat, m64 as nat);
        }
        assert(difference == d % m64);
        if width < 64 {
            lemma_pow2_pos(width as nat);
            lemma_pow2_adds(width as nat, (64 - width) as nat);
            lemma_pow2_pos((64 - width) as nat);
            lemma_mod_mod(d, pow2(width as nat) as int, pow2((64 - width) as nat) as int);
        }
    }
    mask_width(difference, width)
}

/// The distance of a counter from zero.
pub fn count_since_reset(current: u64, width: u32) -> (delta: u64)
    ensures
        delta == low_bits(current as nat, width as nat),
{
    proof {
        lemma2_to64_rest();
        if width >= 64 {
            lemma_small_mod(current as nat, pow2(64));
        }
    }
    counter_delta(0, current, width)
}

/// Moving on from an earlier reading by the distance leads to the later one, so no count is lost
/// when a counter wraps around once.
pub proof fn distance_leads_to_current(previous: int, current: int, width: nat)
    requires
        width < 64,
        0 <= previous < pow2(width),
        0 <= current < pow2(width),
    ensures
        (previous + distance(previous, current, width)) % (pow2(width) as int) == current,
{
    lemma_pow2_pos(width);
    let m = pow2(width) as int;
    lemma_add_mod_noop(previous, current - previous, m);
    lemma_small_mod(previous as nat, m as nat);
    lemma_small_mod(current as nat, m as nat);
    lemma_add_mod_noop(previous, (current - previous) % m, m);
    lemma_mod_twice(current - previous, m);
}

/// Masking twice is masking once.
pub proof fn low_bits_idempotent(value: nat, width: nat)
    ensures
        low_bits(low_bits(value, width), width) == low_bits(value, width),
{
    if width < 64 {
        lemma_pow2_pos(width);
        lemma_mod_twice(value as int, pow2(width) as int);
    }
}

/// A later element never makes the sum of the elements before it larger than the whole.
pub proof fn lemma_total_of_prefix(values: Seq<u64>, n: int)
    requires
        0 <= n <= values.len(),
    ensures
        total(values.take(n)) <= total(values),
    decreases values.len() - n,
{
    if n == values.len() {
        assert(values.take(n) =~= values);
    } else {
        lemma_total_of_prefix(values, n + 1);
        assert(values.take(n + 1).drop_last() =~= values.take(n));
    }
}

/// The sum of `values`, if it fits in 64 bits.
pub fn sum(values: &Vec<u64>) -> (result: Option<u64>)
    ensures
        match result {
            Some(sum) => sum == total(values@),
            None => total(values@) > u64::MAX,
        },
{
    let mut sum: u64 = 0;
    let mut i: usize = 0;
    assert(values@.take(0) =~= Seq::<u64>::empty());
    while i < values.len()
        invariant
            i <= values@.len(),
            sum == total(values@.take(i as int)),
        decreases values@.len() - i,
    {
        proof {
            assert(values@.take(i + 1).drop_last() =~= values@.take(i as int));
            lemma_total_of_prefix(values@, i + 1);
        }
        match sum.checked_add(values[i]) {
            Some(next) => {
                sum = next;
            },
            None => {
                return None;
            },
        }
        i += 1;
    }
    assert(values@.take(i as int) =~= values@);
    Some(sum)
}

/// The average of `values` rounded down, zero where there are none; if their sum fits in 64
/// bits.
pub fn average(values: &Vec<u64>) -> (result: Option<u64>)
    ensures
        match result {
            Some(average) => average == mean(values@) && total(values@) <= u64::MAX,
            None => total(values@) > u64::MAX,
        },
{
    match sum(values) {
        Some(sum) => {
            if values.len() == 0 {
                Some(0)
            } else {
                Some(sum / values.len() as u64)
            }
        },
        None => None,
    }
}

/// How the counters of several units of one scope become one value.
#[derive(Clone, Copy, Debug, PartialEq, Eq, Structural)]
pub enum Aggregate {
    Average,
    Disabled,
    Sum,
}

/// What the counters of several units of one scope amount to.
pub open spec fn aggregated(aggregate: Aggregate, values: Seq<u64>) -> nat {
    match aggregate {
        Aggregate::Average => mean(values),
        Aggregate::Disabled => 0,
        Aggregate::Sum => total(values),
    }
}

impl Aggregate {
    /// Combines the counters of several units; nothing where their sum does not fit in 64 bits.
    pub fn aggregate(self, values: &Vec<u64>) -> (result: Option<u64>)
        ensures
            match result {
                Some(value) => value == aggregated(self, values@) && (self is Disabled || total(
                    values@,
                ) <= u64::MAX),
                None => self !is Disabled && total(values@) > u64::MAX,
            },
    {
        match self {
            Aggregate::Average => average(values),
            Aggregate::Disabled => Some(0),
            Aggregate::Sum => sum(values),
        }
    }
}

} // verus!
