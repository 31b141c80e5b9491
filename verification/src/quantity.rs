//! What a reported number is computed from.
//!
//! The numbers that are reported are floating point. A `Quantity` holds the integers that enter
//! such a number and says how they are combined; the caller evaluates it. Whatever makes a number
//! zero can be told from the integers and is decided here: at once where they are counts, and by
//! the functions on parts once the caller has scaled them.
use crate::accumulator::{EventMeasurement, Overflow};
use vstd::prelude::*;

verus! {

/// A count over `running_nanos`, scaled up to what it would have been over `enabled_nanos`, cut
/// off to a whole number; zero where the counter did not run.
#[derive(Clone, Copy, Debug, PartialEq, Eq, Structural)]
pub struct ScaledCount {
    pub value: u64,
    pub enabled_nanos: u128,
    pub running_nanos: u128,
}

/// The energy that one step of an energy counter stands for.
#[derive(Clone, Copy, Debug, PartialEq, Eq, Structural)]
pub enum EnergyUnit {
    /// `1 / 2^exponent` joules.
    Fraction { exponent: u32 },
    /// The unit that the memory of some server processors has whatever their registers say:
    /// 15.3 microjoules.
    ServerDram,
}

/// A reported number.
#[derive(Clone, Copy, Debug, PartialEq, Eq, Structural)]
pub enum Quantity {
    /// Zero.
    Zero,
    /// `count` events per second over `per_nanos`.
    EventRate { count: ScaledCount, per_nanos: u128 },
    /// `bytes / events` bytes for each of `count` events, per second over `per_nanos`.
    ByteRate { count: ScaledCount, per_nanos: u128, bytes: u64, events: u64 },
    /// The energy of `raw` steps.
    Energy { raw: u128, unit: EnergyUnit },
    /// The energy of `raw` steps over `elapsed_nanos`, in watts.
    Power { raw: u64, unit: EnergyUnit, elapsed_nanos: u128 },
    /// `ticks` per second over `running_nanos`.
    Frequency { ticks: u64, running_nanos: u128 },
    /// `numerator / denominator`.
    Ratio { numerator: u64, denominator: u64 },
    /// The ratio of two scaled counts, zero where the lower one is zero.
    ScaledRatio { numerator: ScaledCount, denominator: ScaledCount },
    /// The share of `part` in the sum of `part` and `rest`, zero where both are zero.
    ScaledShare { part: ScaledCount, rest: ScaledCount },
    /// The time of a tick, `running_nanos / ticks`, times `occupancy / inserts`.
    TickResidency { running_nanos: u128, ticks: u64, occupancy: u64, inserts: u64 },
    /// The average occupancy, `occupancy / ticks`, over the rate of inserts, `inserts` per
    /// second over `running_nanos`.
    OccupancyOverRate { occupancy: u64, ticks: u64, inserts: u64, running_nanos: u128 },
    /// The time of a tick, `enabled_nanos / clockticks`, times the occupancy that is left after
    /// `excluded` (not below zero), over `inserts`; zero where no tick or no insert was counted.
    ScaledResidency {
        occupancy: ScaledCount,
        excluded: ScaledCount,
        inserts: ScaledCount,
        clockticks: ScaledCount,
        enabled_nanos: u128,
    },
    /// `occupancy / inserts` times `enabled_nanos`, over `clockticks`; zero where no tick or no
    /// insert was counted.
    LinkLatency {
        occupancy: ScaledCount,
        inserts: ScaledCount,
        clockticks: ScaledCount,
        enabled_nanos: u128,
    },
}

/// The bytes in a cache line, which is what a memory command moves.
pub const BYTES_PER_CACHE_LINE: u64 = 64;

/// A count that is zero.
pub open spec fn no_count() -> ScaledCount {
    ScaledCount { value: 0, enabled_nanos: 0, running_nanos: 0 }
}

/// A measurement scaled to its interval.
pub open spec fn scaled(measurement: EventMeasurement) -> ScaledCount {
    ScaledCount {
        value: measurement.value,
        enabled_nanos: measurement.enabled_nanos,
        running_nanos: measurement.running_nanos,
    }
}

/// Events per second; zero over no time.
pub open spec fn rate_of(count: ScaledCount, per_nanos: u128) -> Quantity {
    if per_nanos == 0 {
        Quantity::Zero
    } else {
        Quantity::EventRate { count, per_nanos }
    }
}

/// Bytes per second, each event moving `bytes / events` bytes; zero over no time.
pub open spec fn byte_rate_of(
    count: ScaledCount,
    per_nanos: u128,
    bytes: u64,
    events: u64,
) -> Quantity {
    if per_nanos == 0 {
        Quantity::Zero
    } else {
        Quantity::ByteRate { count, per_nanos, bytes, events }
    }
}

/// Ticks per second; zero over no time.
pub open spec fn frequency_of(ticks: u64, running_nanos: u128) -> Quantity {
    if running_nanos == 0 {
        Quantity::Zero
    } else {
        Quantity::Frequency { ticks, running_nanos }
    }
}

/// A ratio; zero where the denominator is zero.
pub open spec fn ratio_of(numerator: u64, denominator: u64) -> Quantity {
    if denominator == 0 {
        Quantity::Zero
    } else {
        Quantity::Ratio { numerator, denominator }
    }
}

/// The rate of the events of a measurement over its interval.
pub open spec fn event_rate_of(measurement: EventMeasurement) -> Quantity {
    rate_of(scaled(measurement), measurement.enabled_nanos)
}

/// The bytes per second of a measurement that counts cache lines.
pub open spec fn line_rate_of(measurement: EventMeasurement) -> Quantity {
    byte_rate_of(scaled(measurement), measurement.enabled_nanos, BYTES_PER_CACHE_LINE, 1)
}

/// The frequency of the clock that ticked during a measurement.
pub open spec fn clock_of(measurement: EventMeasurement) -> Quantity {
    frequency_of(measurement.ticks, measurement.running_nanos)
}

/// The count of a measurement for each tick.
pub open spec fn per_tick_of(measurement: EventMeasurement) -> Quantity {
    ratio_of(measurement.value, measurement.ticks)
}

/// How long an entry stays in a queue, by the ticks that went by while inserts were counted;
/// zero without ticks or inserts.
pub open spec fn tick_residency_of(
    occupancy: EventMeasurement,
    insert: EventMeasurement,
) -> Quantity {
    if insert.ticks == 0 || insert.value == 0 {
        Quantity::Zero
    } else {
        Quantity::TickResidency {
            running_nanos: insert.running_nanos,
            ticks: insert.ticks,
            occupancy: occupancy.value,
            inserts: insert.value,
        }
    }
}

/// How long an entry stays in a queue, by average occupancy over the rate of inserts; zero
/// without ticks, inserts or time.
pub open spec fn occupancy_over_rate_of(
    occupancy: EventMeasurement,
    insert: EventMeasurement,
) -> Quantity {
    if occupancy.ticks == 0 || insert.value == 0 || insert.running_nanos == 0 {
        Quantity::Zero
    } else {
        Quantity::OccupancyOverRate {
            occupancy: occupancy.value,
            ticks: occupancy.ticks,
            inserts: insert.value,
            running_nanos: insert.running_nanos,
        }
    }
}

/// The share of one measurement in the sum of two.
pub open spec fn share_of(part: EventMeasurement, rest: EventMeasurement) -> Quantity {
    Quantity::ScaledShare { part: scaled(part), rest: scaled(rest) }
}

/// The ratio of two measurements, each scaled to its interval.
pub open spec fn scaled_ratio_of(
    numerator: EventMeasurement,
    denominator: EventMeasurement,
) -> Quantity {
    Quantity::ScaledRatio { numerator: scaled(numerator), denominator: scaled(denominator) }
}

/// The frequency of a clock whose ticks are the count of a measurement.
pub open spec fn count_frequency_of(measurement: EventMeasurement) -> Quantity {
    frequency_of(measurement.value, measurement.running_nanos)
}

/// A measurement scaled to its interval; zero where there is none.
pub open spec fn scaled_or_none(measurement: Option<EventMeasurement>) -> ScaledCount {
    match measurement {
        Some(measurement) => scaled(measurement),
        None => no_count(),
    }
}

/// The rate of the events of a measurement; zero where there is none.
pub open spec fn optional_event_rate_of(measurement: Option<EventMeasurement>) -> Quantity {
    match measurement {
        Some(measurement) => event_rate_of(measurement),
        None => Quantity::Zero,
    }
}

/// The bytes per second of a measurement that counts cache lines; zero where there is none.
pub open spec fn optional_line_rate_of(measurement: Option<EventMeasurement>) -> Quantity {
    match measurement {
        Some(measurement) => line_rate_of(measurement),
        None => Quantity::Zero,
    }
}

/// The ratio of a measurement, counted as zero where there is none, to another one.
pub open spec fn optional_ratio_of(
    numerator: Option<EventMeasurement>,
    denominator: EventMeasurement,
) -> Quantity {
    Quantity::ScaledRatio {
        numerator: scaled_or_none(numerator),
        denominator: scaled(denominator),
    }
}

/// The average occupancy of a queue; zero where it was not measured.
pub open spec fn optional_occupancy_of(
    occupancy: Option<EventMeasurement>,
    clockticks: EventMeasurement,
) -> Quantity {
    match occupancy {
        Some(occupancy) => scaled_ratio_of(occupancy, clockticks),
        None => Quantity::Zero,
    }
}

/// How long an inbound write stays, by the part of the occupancy that is not excluded.
pub open spec fn write_residency_of(
    occupancy: EventMeasurement,
    excluded: Option<EventMeasurement>,
    inserts: EventMeasurement,
    clockticks: EventMeasurement,
) -> Quantity {
    Quantity::ScaledResidency {
        occupancy: scaled(occupancy),
        excluded: scaled_or_none(excluded),
        inserts: scaled(inserts),
        clockticks: scaled(clockticks),
        enabled_nanos: inserts.enabled_nanos,
    }
}

/// How long a flit stays in a queue of a link.
pub open spec fn link_latency_of(
    occupancy: EventMeasurement,
    inserts: EventMeasurement,
    clockticks: EventMeasurement,
) -> Quantity {
    Quantity::LinkLatency {
        occupancy: scaled(occupancy),
        inserts: scaled(inserts),
        clockticks: scaled(clockticks),
        enabled_nanos: inserts.enabled_nanos,
    }
}

impl ScaledCount {
    /// A count that is zero.
    pub fn none() -> (count: Self)
        ensures
            count == no_count(),
    {
        ScaledCount { value: 0, enabled_nanos: 0, running_nanos: 0 }
    }

    /// A measurement scaled to its interval.
    pub fn of(measurement: EventMeasurement) -> (count: Self)
        ensures
            count == scaled(measurement),
    {
        ScaledCount {
            value: measurement.value,
            enabled_nanos: measurement.enabled_nanos,
            running_nanos: measurement.running_nanos,
        }
    }
}

/// What is divided by what for a ratio of scaled counts; nothing where that is zero.
pub fn ratio_parts(numerator: u64, denominator: u64) -> (parts: Option<(u64, u64)>)
    ensures
        parts == if denominator == 0 {
            None
        } else {
            Some((numerator, denominator))
        },
{
    if denominator == 0 {
        None
    } else {
        Some((numerator, denominator))
    }
}

/// What is divided by what for the share of a scaled count in the sum of two; nothing where that
/// is zero. It is an error where the sum does not fit.
pub fn share_parts(part: u64, rest: u64) -> (result: Result<Option<(u64, u64)>, Overflow>)
    ensures
        match result {
            Ok(parts) => part + rest <= u64::MAX && parts == if part == 0 && rest == 0 {
                None
            } else {
                Some((part, (part + rest) as u64))
            },
            Err(_) => part + rest > u64::MAX,
        },
{
    match part.checked_add(rest) {
        Some(sum) => Ok(ratio_parts(part, sum)),
        None => Err(Overflow),
    }
}

/// What the time in a queue is computed from, given scaled counts: the occupancy that is left
/// after `excluded`, the inserts and the ticks. Nothing where no insert or no tick was counted.
pub fn residency_parts(occupancy: u64, excluded: u64, inserts: u64, clockticks: u64) -> (parts:
    Option<(u64, u64, u64)>)
    ensures
        parts is None <==> inserts == 0 || clockticks == 0,
        parts matches Some((left, divisor, ticks)) ==> {
            &&& left == if occupancy >= excluded {
                occupancy - excluded
            } else {
                0
            }
            &&& divisor == inserts
            &&& ticks == clockticks
        },
{
    if inserts == 0 || clockticks == 0 {
        None
    } else {
        let left: u64 = if occupancy >= excluded {
            occupancy - excluded
        } else {
            0
        };
        Some((left, inserts, clockticks))
    }
}

/// Events per second.
pub fn rate(count: ScaledCount, per_nanos: u128) -> (quantity: Quantity)
    ensures
        quantity == rate_of(count, per_nanos),
{
    if per_nanos == 0 {
        Quantity::Zero
    } else {
        Quantity::EventRate { count, per_nanos }
    }
}

/// Bytes per second.
pub fn byte_rate(count: ScaledCount, per_nanos: u128, bytes: u64, events: u64) -> (quantity:
    Quantity)
    ensures
        quantity == byte_rate_of(count, per_nanos, bytes, events),
{
    if per_nanos == 0 {
        Quantity::Zero
    } else {
        Quantity::ByteRate { count, per_nanos, bytes, events }
    }
}

/// Ticks per second.
pub fn frequency(ticks: u64, running_nanos: u128) -> (quantity: Quantity)
    ensures
        quantity == frequency_of(ticks, running_nanos),
{
    if running_nanos == 0 {
        Quantity::Zero
    } else {
        Quantity::Frequency { ticks, running_nanos }
    }
}

/// A ratio.
pub fn ratio(numerator: u64, denominator: u64) -> (quantity: Quantity)
    ensures
        quantity == ratio_of(numerator, denominator),
{
    if denominator == 0 {
        Quantity::Zero
    } else {
        Quantity::Ratio { numerator, denominator }
    }
}

/// The rate of the events of a measurement over its interval.
pub fn event_rate(measurement: EventMeasurement) -> (quantity: Quantity)
    ensures
        quantity == event_rate_of(measurement),
{
    rate(ScaledCount::of(measurement), measurement.enabled_nanos)
}

/// The bytes per second of a measurement that counts cache lines.
pub fn line_rate(measurement: EventMeasurement) -> (quantity: Quantity)
    ensures
        quantity == line_rate_of(measurement),
{
    byte_rate(ScaledCount::of(measurement), measurement.enabled_nanos, BYTES_PER_CACHE_LINE, 1)
}

/// The frequency of the clock that ticked during a measurement.
pub fn clock(measurement: EventMeasurement) -> (quantity: Quantity)
    ensures
        quantity == clock_of(measurement),
{
    frequency(measurement.ticks, measurement.running_nanos)
}

/// The count of a measurement for each tick.
pub fn per_tick(measurement: EventMeasurement) -> (quantity: Quantity)
    ensures
        quantity == per_tick_of(measurement),
{
    ratio(measurement.value, measurement.ticks)
}

/// How long an entry stays in a queue, by ticks.
pub fn tick_residency(occupancy: EventMeasurement, insert: EventMeasurement) -> (quantity:
    Quantity)
    ensures
        quantity == tick_residency_of(occupancy, insert),
{
    if insert.ticks == 0 || insert.value == 0 {
        Quantity::Zero
    } else {
        Quantity::TickResidency {
            running_nanos: insert.running_nanos,
            ticks: insert.ticks,
            occupancy: occupancy.value,
            inserts: insert.value,
        }
    }
}

/// How long an entry stays in a queue, by average occupancy over the rate of inserts.
pub fn occupancy_over_rate(occupancy: EventMeasurement, insert: EventMeasurement) -> (quantity:
    Quantity)
    ensures
        quantity == occupancy_over_rate_of(occupancy, insert),
{
    if occupancy.ticks == 0 || insert.value == 0 || insert.running_nanos == 0 {
        Quantity::Zero
    } else {
        Quantity::OccupancyOverRate {
            occupancy: occupancy.value,
            ticks: occupancy.ticks,
            inserts: insert.value,
            running_nanos: insert.running_nanos,
        }
    }
}

/// The share of one measurement in the sum of two.
pub fn share(part: EventMeasurement, rest: EventMeasurement) -> (quantity: Quantity)
    ensures
        quantity == share_of(part, rest),
{
    Quantity::ScaledShare { part: ScaledCount::of(part), rest: ScaledCount::of(rest) }
}

/// The ratio of two measurements, each scaled to its interval.
pub fn scaled_ratio(numerator: EventMeasurement, denominator: EventMeasurement) -> (quantity:
    Quantity)
    ensures
        quantity == scaled_ratio_of(numerator, denominator),
{
    Quantity::ScaledRatio {
        numerator: ScaledCount::of(numerator),
        denominator: ScaledCount::of(denominator),
    }
}

/// The frequency of a clock whose ticks are the count of a measurement.
pub fn count_frequency(measurement: EventMeasurement) -> (quantity: Quantity)
    ensures
        quantity == count_frequency_of(measurement),
{
    frequency(measurement.value, measurement.running_nanos)
}

impl ScaledCount {
    /// A measurement scaled to its interval; zero where there is none.
    pub fn of_optional(measurement: Option<EventMeasurement>) -> (count: Self)
        ensures
            count == scaled_or_none(measurement),
    {
        match measurement {
            Some(measurement) => ScaledCount::of(measurement),
            None => ScaledCount::none(),
        }
    }
}

/// The rate of the events of a measurement; zero where there is none.
pub fn optional_event_rate(measurement: Option<EventMeasurement>) -> (quantity: Quantity)
    ensures
        quantity == optional_event_rate_of(measurement),
{
    match measurement {
        Some(measurement) => event_rate(measurement),
        None => Quantity::Zero,
    }
}

/// The bytes per second of a measurement that counts cache lines; zero where there is none.
pub fn optional_line_rate(measurement: Option<EventMeasurement>) -> (quantity: Quantity)
    ensures
        quantity == optional_line_rate_of(measurement),
{
    match measurement {
        Some(measurement) => line_rate(measurement),
        None => Quantity::Zero,
    }
}

/// The ratio of a measurement, counted as zero where there is none, to another one.
pub fn optional_ratio(numerator: Option<EventMeasurement>, denominator: EventMeasurement) -> (
    quantity: Quantity)
    ensures
        quantity == optional_ratio_of(numerator, denominator),
{
    Quantity::ScaledRatio {
        numerator: ScaledCount::of_optional(numerator),
        denominator: ScaledCount::of(denominator),
    }
}

/// The average occupancy of a queue; zero where it was not measured.
pub fn optional_occupancy(occupancy: Option<EventMeasurement>, clockticks: EventMeasurement) -> (
    quantity: Quantity)
    ensures
        quantity == optional_occupancy_of(occupancy, clockticks),
{
    match occupancy {
        Some(occupancy) => scaled_ratio(occupancy, clockticks),
        None => Quantity::Zero,
    }
}

/// How long an inbound write stays, by the part of the occupancy that is not excluded.
pub fn write_residency(
    occupancy: EventMeasurement,
    excluded: Option<EventMeasurement>,
    inserts: EventMeasurement,
    clockticks: EventMeasurement,
) -> (quantity: Quantity)
    ensures
        quantity == write_residency_of(occupancy, excluded, inserts, clockticks),
{
    Quantity::ScaledResidency {
        occupancy: ScaledCount::of(occupancy),
        excluded: ScaledCount::of_optional(excluded),
        inserts: ScaledCount::of(inserts),
        clockticks: ScaledCount::of(clockticks),
        enabled_nanos: inserts.enabled_nanos,
    }
}

/// How long a flit stays in a queue of a link.
pub fn link_latency(
    occupancy: EventMeasurement,
    inserts: EventMeasurement,
    clockticks: EventMeasurement,
) -> (quantity: Quantity)
    ensures
        quantity == link_latency_of(occupancy, inserts, clockticks),
{
    Quantity::LinkLatency {
        occupancy: ScaledCount::of(occupancy),
        inserts: ScaledCount::of(inserts),
        clockticks: ScaledCount::of(clockticks),
        enabled_nanos: inserts.enabled_nanos,
    }
}

} // verus!
