//! The number that a quantity stands for, as a fraction of whole numbers, and what it has to be
//! for each kind of report.
use crate::accumulator::EventMeasurement;
use crate::quantity::{self, EnergyUnit, Quantity, ScaledCount};
use vstd::arithmetic::power2::pow2;
use vstd::prelude::*;

verus! {

/// The nanoseconds in a second.
pub const NANOS: u64 = 1_000_000_000;

/// A count over part of an interval, scaled up to the whole of it.
pub open spec fn extrapolated(value: nat, enabled_nanos: nat, running_nanos: nat) -> nat {
    if running_nanos == 0 {
        0
    } else {
        value * enabled_nanos / running_nanos
    }
}

/// What a scaled count stands for.
pub open spec fn whole(count: ScaledCount) -> nat {
    extrapolated(count.value as nat, count.enabled_nanos as nat, count.running_nanos as nat)
}

/// How often an event came during the interval of its measurement.
pub open spec fn times(measured: EventMeasurement) -> nat {
    extrapolated(
        measured.value as nat,
        measured.enabled_nanos as nat,
        measured.running_nanos as nat,
    )
}

/// How often an event came, none where it was not measured.
pub open spec fn times_if_any(measured: Option<EventMeasurement>) -> nat {
    match measured {
        Some(measured) => times(measured),
        None => 0,
    }
}

/// The number zero.
pub open spec fn zero() -> (nat, nat) {
    (0, 1)
}

/// A fraction, zero where it would divide by zero.
pub open spec fn fraction(top: nat, bottom: nat) -> (nat, nat) {
    if bottom == 0 {
        zero()
    } else {
        (top, bottom)
    }
}

/// The joules of some steps of an energy counter.
pub open spec fn joules(raw: nat, unit: EnergyUnit) -> (nat, nat) {
    match unit {
        EnergyUnit::Fraction { exponent } => (raw, pow2(exponent as nat)),
        EnergyUnit::ServerDram => (raw * 153, 10_000_000),
    }
}

/// The number that a quantity stands for: what is divided, and by what.
pub open spec fn value(quantity: Quantity) -> (nat, nat) {
    match quantity {
        Quantity::Zero => zero(),
        Quantity::EventRate { count, per_nanos } => fraction(
            whole(count) * NANOS as nat,
            per_nanos as nat,
        ),
        Quantity::ByteRate { count, per_nanos, bytes, events } => fraction(
            whole(count) * bytes as nat * NANOS as nat,
            per_nanos as nat * events as nat,
        ),
        Quantity::Energy { raw, unit } => joules(raw as nat, unit),
        Quantity::Power { raw, unit, elapsed_nanos } => {
            let energy = joules(raw as nat, unit);
            fraction(energy.0 * NANOS as nat, energy.1 * elapsed_nanos as nat)
        },
        Quantity::Frequency { ticks, running_nanos } => fraction(
            ticks as nat * NANOS as nat,
            running_nanos as nat,
        ),
        Quantity::Ratio { numerator, denominator } => fraction(
            numerator as nat,
            denominator as nat,
        ),
        Quantity::ScaledRatio { numerator, denominator } => fraction(
            whole(numerator),
            whole(denominator),
        ),
        Quantity::ScaledShare { part, rest } => fraction(whole(part), whole(part) + whole(rest)),
        Quantity::TickResidency { running_nanos, ticks, occupancy, inserts } => fraction(
            running_nanos as nat * occupancy as nat,
            ticks as nat * inserts as nat * NANOS as nat,
        ),
        Quantity::OccupancyOverRate { occupancy, ticks, inserts, running_nanos } => fraction(
            running_nanos as nat * occupancy as nat,
            ticks as nat * inserts as nat * NANOS as nat,
        ),
        Quantity::ScaledResidency { occupancy, excluded, inserts, clockticks, enabled_nanos } =>
            fraction(
            enabled_nanos as nat * left_over(whole(occupancy), whole(excluded)),
            whole(clockticks) * whole(inserts) * NANOS as nat,
        ),
        Quantity::LinkLatency { occupancy, inserts, clockticks, enabled_nanos } => fraction(
            enabled_nanos as nat * whole(occupancy),
            whole(clockticks) * whole(inserts) * NANOS as nat,
        ),
    }
}

/// What is left of one number after another one.
pub open spec fn left_over(all: nat, excluded: nat) -> nat {
    if all >= excluded {
        (all - excluded) as nat
    } else {
        0
    }
}

/// Whether a quantity is how often an event came per second.
pub open spec fn is_rate(quantity: Quantity, measured: EventMeasurement) -> bool {
    value(quantity) == fraction(times(measured) * NANOS as nat, measured.enabled_nanos as nat)
}

/// Whether a quantity is how often an event came per second, zero where it was not measured.
pub open spec fn is_rate_if_any(quantity: Quantity, measured: Option<EventMeasurement>) -> bool {
    match measured {
        Some(measured) => is_rate(quantity, measured),
        None => value(quantity) == zero(),
    }
}

/// Whether a quantity is the bytes per second that events move, `bytes` for `events` of them.
pub open spec fn is_byte_rate(
    quantity: Quantity,
    measured: EventMeasurement,
    bytes: nat,
    events: nat,
) -> bool {
    value(quantity) == fraction(
        times(measured) * bytes * NANOS as nat,
        measured.enabled_nanos as nat * events,
    )
}

/// Whether a quantity is the bytes per second of an event that moves a line of 64 bytes.
pub open spec fn is_line_rate(quantity: Quantity, measured: EventMeasurement) -> bool {
    is_byte_rate(quantity, measured, 64, 1)
}

/// Whether a quantity is the bytes per second of an event that moves a line, zero where it was
/// not measured.
pub open spec fn is_line_rate_if_any(
    quantity: Quantity,
    measured: Option<EventMeasurement>,
) -> bool {
    match measured {
        Some(measured) => is_line_rate(quantity, measured),
        None => value(quantity) == zero(),
    }
}

/// Whether a quantity is one number over another.
pub open spec fn is_quotient(quantity: Quantity, top: nat, bottom: nat) -> bool {
    value(quantity) == fraction(top, bottom)
}

/// Whether a quantity is how often one event came for each time that another one did.
pub open spec fn is_ratio(
    quantity: Quantity,
    top: EventMeasurement,
    bottom: EventMeasurement,
) -> bool {
    is_quotient(quantity, times(top), times(bottom))
}

/// Whether a quantity is how often one event came for each time that another one did, zero where
/// the first was not measured.
pub open spec fn is_ratio_if_any(
    quantity: Quantity,
    top: Option<EventMeasurement>,
    bottom: EventMeasurement,
) -> bool {
    match top {
        Some(top) => is_ratio(quantity, top, bottom),
        None => value(quantity).0 == 0,
    }
}

/// Whether a quantity is the share of one event in both.
pub open spec fn is_share(
    quantity: Quantity,
    part: EventMeasurement,
    rest: EventMeasurement,
) -> bool {
    is_quotient(quantity, times(part), times(part) + times(rest))
}

/// Whether a quantity is what an event counted for each tick of its clock.
pub open spec fn is_per_tick(quantity: Quantity, measured: EventMeasurement) -> bool {
    is_quotient(quantity, measured.value as nat, measured.ticks as nat)
}

/// Whether a quantity is how often the clock ticked per second while an event was counted.
pub open spec fn is_clock(quantity: Quantity, measured: EventMeasurement) -> bool {
    is_quotient(
        quantity,
        measured.ticks as nat * NANOS as nat,
        measured.running_nanos as nat,
    )
}

/// Whether a quantity is how often an event was counted per second while it was counted.
pub open spec fn is_frequency(quantity: Quantity, measured: EventMeasurement) -> bool {
    is_quotient(
        quantity,
        measured.value as nat * NANOS as nat,
        measured.running_nanos as nat,
    )
}

/// Whether a quantity is the seconds for which an entry stays in a queue: the time of a tick while
/// inserts are counted, times what was occupied for each insert.
pub open spec fn is_tick_residency(
    quantity: Quantity,
    occupancy: EventMeasurement,
    inserts: EventMeasurement,
) -> bool {
    is_quotient(
        quantity,
        inserts.running_nanos as nat * occupancy.value as nat,
        inserts.ticks as nat * inserts.value as nat * NANOS as nat,
    )
}

/// Whether a quantity is the seconds for which an entry stays in a queue: the average occupancy
/// over the rate of inserts; zero where no time went by.
pub open spec fn is_rate_residency(
    quantity: Quantity,
    occupancy: EventMeasurement,
    inserts: EventMeasurement,
) -> bool {
    if inserts.running_nanos == 0 {
        value(quantity) == zero()
    } else {
        is_quotient(
            quantity,
            inserts.running_nanos as nat * occupancy.value as nat,
            occupancy.ticks as nat * inserts.value as nat * NANOS as nat,
        )
    }
}

/// Whether a quantity is the seconds for which a write stays: the time of a tick, times the
/// occupancy that is not excluded for each insert.
pub open spec fn is_write_residency(
    quantity: Quantity,
    occupancy: EventMeasurement,
    excluded: Option<EventMeasurement>,
    inserts: EventMeasurement,
    clockticks: EventMeasurement,
) -> bool {
    is_quotient(
        quantity,
        inserts.enabled_nanos as nat * left_over(times(occupancy), times_if_any(excluded)),
        times(clockticks) * times(inserts) * NANOS as nat,
    )
}

/// Whether a quantity is the seconds for which a flit stays in a queue.
pub open spec fn is_latency(
    quantity: Quantity,
    occupancy: EventMeasurement,
    inserts: EventMeasurement,
    clockticks: EventMeasurement,
) -> bool {
    is_quotient(
        quantity,
        inserts.enabled_nanos as nat * times(occupancy),
        times(clockticks) * times(inserts) * NANOS as nat,
    )
}

/// What stands for a rate of events, bytes or cache lines is that rate.
pub proof fn rates_are_counts_over_time(
    measured: EventMeasurement,
    count: ScaledCount,
    per_nanos: u128,
    bytes: u64,
    events: u64,
)
    ensures
        value(quantity::rate_of(count, per_nanos)) == fraction(
            whole(count) * NANOS as nat,
            per_nanos as nat,
        ),
        value(quantity::byte_rate_of(count, per_nanos, bytes, events)) == fraction(
            whole(count) * bytes as nat * NANOS as nat,
            per_nanos as nat * events as nat,
        ),
        whole(quantity::scaled(measured)) == times(measured),
        is_rate(quantity::event_rate_of(measured), measured),
        is_line_rate(quantity::line_rate_of(measured), measured),
{
    assert(0 * events as nat == 0) by (nonlinear_arith);
    assert(measured.enabled_nanos as nat * 1 == measured.enabled_nanos) by (nonlinear_arith);
    assert(0nat * 1 == 0);
}

/// What stands for the rate of an event that may not have been measured is that rate, and zero
/// where it was not.
pub proof fn unmeasured_events_have_no_rate(measured: Option<EventMeasurement>)
    ensures
        is_rate_if_any(quantity::optional_event_rate_of(measured), measured),
        is_line_rate_if_any(quantity::optional_line_rate_of(measured), measured),
        whole(quantity::scaled_or_none(measured)) == times_if_any(measured),
{
    if let Some(measured) = measured {
        rates_are_counts_over_time(measured, quantity::scaled(measured), 0, 0, 0);
    }
}

/// What stands for a ratio, a share or a frequency is that number.
pub proof fn ratios_divide_the_first_by_the_second(
    a: EventMeasurement,
    b: EventMeasurement,
    n: u64,
    d: u64,
    nanos: u128,
)
    ensures
        is_quotient(quantity::ratio_of(n, d), n as nat, d as nat),
        is_quotient(quantity::frequency_of(n, nanos), n as nat * NANOS as nat, nanos as nat),
        is_ratio(quantity::scaled_ratio_of(a, b), a, b),
        is_ratio_if_any(quantity::optional_ratio_of(Some(a), b), Some(a), b),
        is_ratio_if_any(quantity::optional_ratio_of(None, b), None, b),
        is_ratio_if_any(quantity::optional_occupancy_of(Some(a), b), Some(a), b),
        is_ratio_if_any(quantity::optional_occupancy_of(None, b), None, b),
        is_share(quantity::share_of(a, b), a, b),
        is_per_tick(quantity::per_tick_of(a), a),
        is_clock(quantity::clock_of(a), a),
        is_frequency(quantity::count_frequency_of(a), a),
{
}

/// What stands for the time in a queue is that time.
pub proof fn residencies_are_occupancy_over_inserts(
    occupancy: EventMeasurement,
    excluded: Option<EventMeasurement>,
    inserts: EventMeasurement,
    clockticks: EventMeasurement,
)
    ensures
        is_tick_residency(quantity::tick_residency_of(occupancy, inserts), occupancy, inserts),
        is_rate_residency(
            quantity::occupancy_over_rate_of(occupancy, inserts),
            occupancy,
            inserts,
        ),
        is_write_residency(
            quantity::write_residency_of(occupancy, excluded, inserts, clockticks),
            occupancy,
            excluded,
            inserts,
            clockticks,
        ),
        is_latency(
            quantity::link_latency_of(occupancy, inserts, clockticks),
            occupancy,
            inserts,
            clockticks,
        ),
{
    lemma_no_product(inserts.ticks as nat, inserts.value as nat);
    lemma_no_product(occupancy.ticks as nat, inserts.value as nat);
}

proof fn lemma_no_product(a: nat, b: nat)
    ensures
        a == 0 || b == 0 ==> a * b * NANOS as nat == 0,
{
    assert(a == 0 || b == 0 ==> a * b == 0) by (nonlinear_arith);
}

} // verus!
