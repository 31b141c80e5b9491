//! What is said of the links between processors.
use crate::accumulator::{self, EventMeasurement};
use crate::error::CollectorError;
use crate::export::{GaugeUpdate, Labels};
use crate::laws::labels;
use crate::laws::lists;
use crate::laws::value;
use crate::metrics::interconnect::qpi_common::{
    self, QpiEventKind, QpiMeasurementAccumulator, QpiMetrics, QpiRow,
};
use crate::metrics::interconnect::upi_common::{
    self, UpiEventKind, UpiMeasurementAccumulator, UpiMetrics, UpiRow,
};
use crate::metrics::interconnect::{
    self, InterconnectDirection, InterconnectLinkMetrics, InterconnectMetrics,
    InterconnectPowerState, InterconnectPowerStateMetrics, InterconnectQueueMetrics,
    InterconnectScope, InterconnectTrafficClass, InterconnectTrafficMetrics,
};
use crate::quantity;
use crate::seqs;
use vstd::prelude::*;

verus! {

/// What a link counted of an event.
pub open spec fn upi_counted(row: UpiRow, kind: UpiEventKind) -> EventMeasurement {
    EventMeasurement {
        enabled_nanos: row.1[kind].enabled_nanos,
        running_nanos: row.1[kind].running_nanos,
        ticks: 0,
        value: row.1[kind].value,
    }
}

/// The event that counts the flits of a direction and a class.
pub open spec fn upi_flits(
    direction: InterconnectDirection,
    traffic: InterconnectTrafficClass,
) -> UpiEventKind {
    match (direction, traffic) {
        (InterconnectDirection::Tx, InterconnectTrafficClass::Data) => UpiEventKind::TxDataFlits,
        (InterconnectDirection::Tx, InterconnectTrafficClass::NonData) => UpiEventKind::TxNonDataFlits,
        (InterconnectDirection::Rx, InterconnectTrafficClass::Data) => UpiEventKind::RxDataFlits,
        (InterconnectDirection::Rx, InterconnectTrafficClass::NonData) => UpiEventKind::RxNonDataFlits,
    }
}

/// Whether traffic is that of a link: the flits of its own direction and class per second, and for
/// data the bytes in them, 64 for every nine flits.
pub open spec fn is_upi_traffic(traffic: InterconnectTrafficMetrics, row: UpiRow) -> bool {
    let kind = upi_flits(traffic.direction, traffic.traffic);
    let counted = upi_counted(row, kind);
    &&& traffic.scope == row.0
    &&& row.1.contains_key(kind)
    &&& value::is_rate(traffic.flits_per_second, counted)
    &&& match traffic.traffic {
        InterconnectTrafficClass::Data => traffic.bytes_per_second matches Some(bytes)
            && value::is_byte_rate(bytes, counted, 64, 9),
        InterconnectTrafficClass::NonData => traffic.bytes_per_second is None,
    }
}

/// Whether traffic is that of some link.
pub open spec fn is_upi_traffic_of(traffic: InterconnectTrafficMetrics, rows: Seq<UpiRow>) -> bool {
    exists|i: int| 0 <= i < rows.len() && is_upi_traffic(traffic, #[trigger] rows[i])
}

/// Whether the traffic of a link in a direction and a class is reported.
pub open spec fn has_upi_traffic(
    list: Seq<InterconnectTrafficMetrics>,
    row: UpiRow,
    direction: InterconnectDirection,
    traffic: InterconnectTrafficClass,
) -> bool {
    exists|k: int|
        {
            &&& 0 <= k < list.len()
            &&& (#[trigger] list[k]).direction == direction
            &&& list[k].traffic == traffic
            &&& is_upi_traffic(list[k], row)
        }
}

/// Whether a power state is that of a link: the cycles in the state for each cycle of the clock.
/// The half power state has a direction, the low power state of the whole link has none.
pub open spec fn is_upi_power(power: InterconnectPowerStateMetrics, row: UpiRow) -> bool {
    let ticks = upi_counted(row, UpiEventKind::Clockticks);
    &&& power.scope == row.0
    &&& match (power.state, power.direction) {
        (InterconnectPowerState::L1, None) => value::is_ratio(
            power.ratio,
            upi_counted(row, UpiEventKind::L1PowerCycles),
            ticks,
        ),
        (InterconnectPowerState::L0p, Some(InterconnectDirection::Rx)) => row.1.contains_key(
            UpiEventKind::RxL0pPowerCycles,
        ) && value::is_ratio(power.ratio, upi_counted(row, UpiEventKind::RxL0pPowerCycles), ticks),
        (InterconnectPowerState::L0p, Some(InterconnectDirection::Tx)) => row.1.contains_key(
            UpiEventKind::TxL0pPowerCycles,
        ) && value::is_ratio(power.ratio, upi_counted(row, UpiEventKind::TxL0pPowerCycles), ticks),
        _ => false,
    }
}

/// Whether a power state is that of some link.
pub open spec fn is_upi_power_of(power: InterconnectPowerStateMetrics, rows: Seq<UpiRow>) -> bool {
    exists|i: int| 0 <= i < rows.len() && is_upi_power(power, #[trigger] rows[i])
}

/// Whether a power state of a link is reported.
pub open spec fn has_upi_power(
    list: Seq<InterconnectPowerStateMetrics>,
    row: UpiRow,
    state: InterconnectPowerState,
    direction: Option<InterconnectDirection>,
) -> bool {
    exists|k: int|
        {
            &&& 0 <= k < list.len()
            &&& (#[trigger] list[k]).state == state
            &&& list[k].direction == direction
            &&& is_upi_power(list[k], row)
        }
}

/// Whether the clocks of the links are how often they ticked per second.
pub open spec fn are_upi_clocks(links: Seq<InterconnectLinkMetrics>, rows: Seq<UpiRow>) -> bool {
    &&& links.len() == rows.len()
    &&& forall|i: int|
        0 <= i < rows.len() ==> (#[trigger] links[i]).scope == rows[i].0 && value::is_frequency(
            links[i].frequency_hz,
            upi_counted(rows[i], UpiEventKind::Clockticks),
        )
}

proof fn lemma_upi_rates(row: UpiRow, kind: UpiEventKind)
    ensures
        value::is_rate(
            quantity::event_rate_of(upi_common::counted_of(row, kind)),
            upi_counted(row, kind),
        ),
        value::is_byte_rate(
            interconnect::data_rate_of(
                quantity::scaled(upi_common::counted_of(row, kind)),
                (64, 9),
                upi_common::counted_of(row, kind).enabled_nanos,
            ),
            upi_counted(row, kind),
            64,
            9,
        ),
{
    value::rates_are_counts_over_time(
        upi_common::counted_of(row, kind),
        quantity::scaled(upi_common::counted_of(row, kind)),
        upi_common::counted_of(row, kind).enabled_nanos,
        64,
        9,
    );
}

proof fn lemma_upi_row(rows: Seq<UpiRow>, i: int)
    requires
        accumulator::first_gap(rows, upi_common::required_events()) is None,
        0 <= i < rows.len(),
    ensures
        forall|j: int|
            0 <= j < 4 ==> is_upi_traffic(#[trigger] upi_common::row_traffic(rows[i])[j], rows[i]),
        forall|j: int|
            0 <= j < upi_common::row_power_states(rows[i]).len() ==> is_upi_power(
                #[trigger] upi_common::row_power_states(rows[i])[j],
                rows[i],
            ),
{
    let row = rows[i];
    accumulator::lemma_no_gap(rows, upi_common::required_events(), i, 1);
    accumulator::lemma_no_gap(rows, upi_common::required_events(), i, 2);
    accumulator::lemma_no_gap(rows, upi_common::required_events(), i, 3);
    accumulator::lemma_no_gap(rows, upi_common::required_events(), i, 4);
    lemma_upi_rates(row, UpiEventKind::TxDataFlits);
    lemma_upi_rates(row, UpiEventKind::TxNonDataFlits);
    lemma_upi_rates(row, UpiEventKind::RxDataFlits);
    lemma_upi_rates(row, UpiEventKind::RxNonDataFlits);
}

/// Of a report on UPI links, every clock, every row of traffic and every power state is made of
/// the events of its own link: what is sent is made of what the link counted as sent, and what is
/// received of what it counted as received, for data and for the rest.
pub proof fn upi_report_is_made_of_its_events(
    measurements: UpiMeasurementAccumulator,
    metrics: UpiMetrics,
)
    requires
        call_ensures(
            UpiMetrics::from_measurements,
            (&measurements,),
            Ok::<UpiMetrics, CollectorError>(metrics),
        ),
    ensures
        are_upi_clocks(metrics.links@, measurements.rows()),
        forall|k: int|
            0 <= k < metrics.traffic@.len() ==> is_upi_traffic_of(
                #[trigger] metrics.traffic@[k],
                measurements.rows(),
            ),
        forall|k: int|
            0 <= k < metrics.power_states@.len() ==> is_upi_power_of(
                #[trigger] metrics.power_states@[k],
                measurements.rows(),
            ),
{
    let rows = measurements.rows();
    let f = |row: UpiRow| upi_common::row_traffic(row);
    let g = |row: UpiRow| upi_common::row_power_states(row);
    assert forall|k: int| 0 <= k < metrics.traffic@.len() implies is_upi_traffic_of(
        #[trigger] metrics.traffic@[k],
        rows,
    ) by {
        let place = lists::every_element_comes_of_an_item(rows, f, k);
        lemma_upi_row(rows, place.0);
        assert(is_upi_traffic(upi_common::row_traffic(rows[place.0])[place.1], rows[place.0]));
    }
    assert forall|k: int| 0 <= k < metrics.power_states@.len() implies is_upi_power_of(
        #[trigger] metrics.power_states@[k],
        rows,
    ) by {
        let place = lists::every_element_comes_of_an_item(rows, g, k);
        lemma_upi_row(rows, place.0);
        assert(is_upi_power(upi_common::row_power_states(rows[place.0])[place.1], rows[place.0]));
    }
}

/// A report on UPI links has of every link the traffic of both directions and both classes, and
/// its power states as far as they were counted; it has four rows of traffic for each link.
pub proof fn upi_report_leaves_nothing_out(
    measurements: UpiMeasurementAccumulator,
    metrics: UpiMetrics,
    i: int,
    direction: InterconnectDirection,
    traffic: InterconnectTrafficClass,
)
    requires
        call_ensures(
            UpiMetrics::from_measurements,
            (&measurements,),
            Ok::<UpiMetrics, CollectorError>(metrics),
        ),
        0 <= i < measurements.rows().len(),
    ensures
        metrics.traffic@.len() == measurements.rows().len() * 4,
        has_upi_traffic(metrics.traffic@, measurements.rows()[i], direction, traffic),
        has_upi_power(
            metrics.power_states@,
            measurements.rows()[i],
            InterconnectPowerState::L1,
            None,
        ),
        measurements.rows()[i].1.contains_key(UpiEventKind::RxL0pPowerCycles) ==> has_upi_power(
            metrics.power_states@,
            measurements.rows()[i],
            InterconnectPowerState::L0p,
            Some(InterconnectDirection::Rx),
        ),
        measurements.rows()[i].1.contains_key(UpiEventKind::TxL0pPowerCycles) ==> has_upi_power(
            metrics.power_states@,
            measurements.rows()[i],
            InterconnectPowerState::L0p,
            Some(InterconnectDirection::Tx),
        ),
{
    let rows = measurements.rows();
    let f = |row: UpiRow| upi_common::row_traffic(row);
    let g = |row: UpiRow| upi_common::row_power_states(row);
    lemma_upi_row(rows, i);
    seqs::lemma_flat_map_len(rows, f, 4);
    let j: int = match (direction, traffic) {
        (InterconnectDirection::Tx, InterconnectTrafficClass::Data) => 0,
        (InterconnectDirection::Tx, InterconnectTrafficClass::NonData) => 1,
        (InterconnectDirection::Rx, InterconnectTrafficClass::Data) => 2,
        (InterconnectDirection::Rx, InterconnectTrafficClass::NonData) => 3,
    };
    let k = lists::every_item_is_flattened(rows, f, i, j);
    assert(is_upi_traffic(upi_common::row_traffic(rows[i])[j], rows[i]));
    assert(metrics.traffic@[k].direction == direction);
    let states = upi_common::row_power_states(rows[i]);
    let rx = upi_common::row_l0p(
        rows[i],
        InterconnectDirection::Rx,
        UpiEventKind::RxL0pPowerCycles,
    );
    let p = lists::every_item_is_flattened(rows, g, i, 0);
    assert(is_upi_power(states[0], rows[i]));
    assert(metrics.power_states@[p].state == InterconnectPowerState::L1);
    if rows[i].1.contains_key(UpiEventKind::RxL0pPowerCycles) {
        let q = lists::every_item_is_flattened(rows, g, i, 1);
        assert(states[1] == rx[0]);
        assert(is_upi_power(states[1], rows[i]));
        assert(metrics.power_states@[q].state == InterconnectPowerState::L0p);
    }
    if rows[i].1.contains_key(UpiEventKind::TxL0pPowerCycles) {
        let last = 1 + rx.len();
        let q = lists::every_item_is_flattened(rows, g, i, last as int);
        assert(is_upi_power(states[last as int], rows[i]));
        assert(metrics.power_states@[q].state == InterconnectPowerState::L0p);
    }
}

/// What a link counted of an event.
pub open spec fn qpi_counted(row: QpiRow, kind: QpiEventKind) -> EventMeasurement {
    EventMeasurement {
        enabled_nanos: row.1[kind].enabled_nanos,
        running_nanos: row.1[kind].running_nanos,
        ticks: 0,
        value: row.1[kind].value,
    }
}

/// The event that counts the flits of a direction and a class.
pub open spec fn qpi_flits(
    direction: InterconnectDirection,
    traffic: InterconnectTrafficClass,
) -> QpiEventKind {
    match (direction, traffic) {
        (InterconnectDirection::Tx, InterconnectTrafficClass::Data) => QpiEventKind::TxDataFlits,
        (InterconnectDirection::Tx, InterconnectTrafficClass::NonData) => QpiEventKind::TxNonDataFlits,
        (InterconnectDirection::Rx, InterconnectTrafficClass::Data) => QpiEventKind::RxDataFlits,
        (InterconnectDirection::Rx, InterconnectTrafficClass::NonData) => QpiEventKind::RxNonDataFlits,
    }
}

/// Whether traffic is that of a link: the flits of its own direction and class per second, and for
/// data the bytes in them, 8 for every flit.
pub open spec fn is_qpi_traffic(traffic: InterconnectTrafficMetrics, row: QpiRow) -> bool {
    let kind = qpi_flits(traffic.direction, traffic.traffic);
    let counted = qpi_counted(row, kind);
    &&& traffic.scope == row.0
    &&& row.1.contains_key(kind)
    &&& value::is_rate(traffic.flits_per_second, counted)
    &&& match traffic.traffic {
        InterconnectTrafficClass::Data => traffic.bytes_per_second matches Some(bytes)
            && value::is_byte_rate(bytes, counted, 8, 1),
        InterconnectTrafficClass::NonData => traffic.bytes_per_second is None,
    }
}

/// Whether traffic is that of some link.
pub open spec fn is_qpi_traffic_of(traffic: InterconnectTrafficMetrics, rows: Seq<QpiRow>) -> bool {
    exists|i: int| 0 <= i < rows.len() && is_qpi_traffic(traffic, #[trigger] rows[i])
}

/// Whether the traffic of a link in a direction and a class is reported.
pub open spec fn has_qpi_traffic(
    list: Seq<InterconnectTrafficMetrics>,
    row: QpiRow,
    direction: InterconnectDirection,
    traffic: InterconnectTrafficClass,
) -> bool {
    exists|k: int|
        {
            &&& 0 <= k < list.len()
            &&& (#[trigger] list[k]).direction == direction
            &&& list[k].traffic == traffic
            &&& is_qpi_traffic(list[k], row)
        }
}

/// Whether a power state is that of a link: the cycles in the state for each cycle of the clock.
/// The half power state has a direction, the low power state of the whole link has none.
pub open spec fn is_qpi_power(power: InterconnectPowerStateMetrics, row: QpiRow) -> bool {
    let ticks = qpi_counted(row, QpiEventKind::Clockticks);
    &&& power.scope == row.0
    &&& match (power.state, power.direction) {
        (InterconnectPowerState::L1, None) => value::is_ratio(
            power.ratio,
            qpi_counted(row, QpiEventKind::L1PowerCycles),
            ticks,
        ),
        (InterconnectPowerState::L0p, Some(InterconnectDirection::Rx)) => row.1.contains_key(
            QpiEventKind::RxL0pPowerCycles,
        ) && value::is_ratio(power.ratio, qpi_counted(row, QpiEventKind::RxL0pPowerCycles), ticks),
        (InterconnectPowerState::L0p, Some(InterconnectDirection::Tx)) => row.1.contains_key(
            QpiEventKind::TxL0pPowerCycles,
        ) && value::is_ratio(power.ratio, qpi_counted(row, QpiEventKind::TxL0pPowerCycles), ticks),
        _ => false,
    }
}

/// Whether a power state is that of some link.
pub open spec fn is_qpi_power_of(power: InterconnectPowerStateMetrics, rows: Seq<QpiRow>) -> bool {
    exists|i: int| 0 <= i < rows.len() && is_qpi_power(power, #[trigger] rows[i])
}

/// Whether a power state of a link is reported.
pub open spec fn has_qpi_power(
    list: Seq<InterconnectPowerStateMetrics>,
    row: QpiRow,
    state: InterconnectPowerState,
    direction: Option<InterconnectDirection>,
) -> bool {
    exists|k: int|
        {
            &&& 0 <= k < list.len()
            &&& (#[trigger] list[k]).state == state
            &&& list[k].direction == direction
            &&& is_qpi_power(list[k], row)
        }
}

/// Whether the clocks of the links are how often they ticked per second.
pub open spec fn are_qpi_clocks(links: Seq<InterconnectLinkMetrics>, rows: Seq<QpiRow>) -> bool {
    &&& links.len() == rows.len()
    &&& forall|i: int|
        0 <= i < rows.len() ==> (#[trigger] links[i]).scope == rows[i].0 && value::is_frequency(
            links[i].frequency_hz,
            qpi_counted(rows[i], QpiEventKind::Clockticks),
        )
}

proof fn lemma_qpi_rates(row: QpiRow, kind: QpiEventKind)
    ensures
        value::is_rate(
            quantity::event_rate_of(qpi_common::counted_of(row, kind)),
            qpi_counted(row, kind),
        ),
        value::is_byte_rate(
            interconnect::data_rate_of(
                quantity::scaled(qpi_common::counted_of(row, kind)),
                (8, 1),
                qpi_common::counted_of(row, kind).enabled_nanos,
            ),
            qpi_counted(row, kind),
            8,
            1,
        ),
{
    value::rates_are_counts_over_time(
        qpi_common::counted_of(row, kind),
        quantity::scaled(qpi_common::counted_of(row, kind)),
        qpi_common::counted_of(row, kind).enabled_nanos,
        8,
        1,
    );
}

/// Whether a queue is that of a link: what entered it, how long it stayed and how full it was, each
/// counted in its own direction.
pub open spec fn is_qpi_queue(queue: InterconnectQueueMetrics, row: QpiRow) -> bool {
    let ticks = qpi_counted(row, QpiEventKind::Clockticks);
    let inserts = qpi_counted(
        row,
        match queue.direction {
            InterconnectDirection::Rx => QpiEventKind::RxQueueInserts,
            InterconnectDirection::Tx => QpiEventKind::TxQueueInserts,
        },
    );
    let occupancy = qpi_counted(
        row,
        match queue.direction {
            InterconnectDirection::Rx => QpiEventKind::RxQueueOccupancy,
            InterconnectDirection::Tx => QpiEventKind::TxQueueOccupancy,
        },
    );
    &&& queue.scope == row.0
    &&& value::is_rate(queue.inserts_per_second, inserts)
    &&& value::is_latency(queue.latency_seconds, occupancy, inserts, ticks)
    &&& value::is_ratio(queue.occupancy_flits, occupancy, ticks)
}

/// Whether a queue is that of some link.
pub open spec fn is_qpi_queue_of(queue: InterconnectQueueMetrics, rows: Seq<QpiRow>) -> bool {
    exists|i: int| 0 <= i < rows.len() && is_qpi_queue(queue, #[trigger] rows[i])
}

/// Whether the queue of a link in a direction is reported.
pub open spec fn has_qpi_queue(
    list: Seq<InterconnectQueueMetrics>,
    row: QpiRow,
    direction: InterconnectDirection,
) -> bool {
    exists|k: int|
        0 <= k < list.len() && (#[trigger] list[k]).direction == direction && is_qpi_queue(
            list[k],
            row,
        )
}

proof fn lemma_qpi_traffic(row: QpiRow, j: int)
    requires
        0 <= j < qpi_common::row_traffic(row).len(),
    ensures
        is_qpi_traffic(qpi_common::row_traffic(row)[j], row),
{
    lemma_qpi_rates(row, QpiEventKind::TxDataFlits);
    lemma_qpi_rates(row, QpiEventKind::TxNonDataFlits);
    lemma_qpi_rates(row, QpiEventKind::RxDataFlits);
    lemma_qpi_rates(row, QpiEventKind::RxNonDataFlits);
}

proof fn lemma_qpi_held(
    row: QpiRow,
    direction: InterconnectDirection,
    traffic: InterconnectTrafficClass,
) -> (j: int)
    requires
        row.1.contains_key(qpi_flits(direction, traffic)),
    ensures
        0 <= j < qpi_common::row_traffic(row).len(),
        qpi_common::row_traffic(row)[j].direction == direction,
        qpi_common::row_traffic(row)[j].traffic == traffic,
{
    let payload = Some((8u64, 1u64));
    let a = qpi_common::row_flits(
        row,
        QpiEventKind::TxDataFlits,
        InterconnectDirection::Tx,
        InterconnectTrafficClass::Data,
        payload,
    );
    let b = qpi_common::row_flits(
        row,
        QpiEventKind::TxNonDataFlits,
        InterconnectDirection::Tx,
        InterconnectTrafficClass::NonData,
        None,
    );
    let c = qpi_common::row_flits(
        row,
        QpiEventKind::RxDataFlits,
        InterconnectDirection::Rx,
        InterconnectTrafficClass::Data,
        payload,
    );
    match (direction, traffic) {
        (InterconnectDirection::Tx, InterconnectTrafficClass::Data) => 0,
        (InterconnectDirection::Tx, InterconnectTrafficClass::NonData) => a.len() as int,
        (InterconnectDirection::Rx, InterconnectTrafficClass::Data) => (a.len() + b.len()) as int,
        (InterconnectDirection::Rx, InterconnectTrafficClass::NonData) => (a.len() + b.len()
            + c.len()) as int,
    }
}

proof fn lemma_qpi_row(rows: Seq<QpiRow>, i: int)
    requires
        accumulator::first_gap(rows, qpi_common::required_events()) is None,
        0 <= i < rows.len(),
    ensures
        forall|j: int|
            0 <= j < 3 ==> is_qpi_power(
                #[trigger] qpi_common::row_power_states(rows[i])[j],
                rows[i],
            ),
        forall|j: int|
            0 <= j < 2 ==> is_qpi_queue(#[trigger] qpi_common::row_queues(rows[i])[j], rows[i]),
{
    let row = rows[i];
    accumulator::lemma_no_gap(rows, qpi_common::required_events(), i, 2);
    accumulator::lemma_no_gap(rows, qpi_common::required_events(), i, 3);
    lemma_qpi_rates(row, QpiEventKind::RxQueueInserts);
    lemma_qpi_rates(row, QpiEventKind::TxQueueInserts);
}

/// Of a report on QPI links, every clock, every row of traffic, every power state and every queue
/// is made of the events of its own link, in its own direction.
pub proof fn qpi_report_is_made_of_its_events(
    measurements: QpiMeasurementAccumulator,
    metrics: QpiMetrics,
)
    requires
        call_ensures(
            QpiMetrics::from_measurements,
            (&measurements,),
            Ok::<QpiMetrics, CollectorError>(metrics),
        ),
    ensures
        are_qpi_clocks(metrics.links@, measurements.rows()),
        forall|k: int|
            0 <= k < metrics.traffic@.len() ==> is_qpi_traffic_of(
                #[trigger] metrics.traffic@[k],
                measurements.rows(),
            ),
        forall|k: int|
            0 <= k < metrics.power_states@.len() ==> is_qpi_power_of(
                #[trigger] metrics.power_states@[k],
                measurements.rows(),
            ),
        forall|k: int|
            0 <= k < metrics.queues@.len() ==> is_qpi_queue_of(
                #[trigger] metrics.queues@[k],
                measurements.rows(),
            ),
{
    let rows = measurements.rows();
    let f = |row: QpiRow| qpi_common::row_traffic(row);
    let g = |row: QpiRow| qpi_common::row_power_states(row);
    let h = |row: QpiRow| qpi_common::row_queues(row);
    assert forall|k: int| 0 <= k < metrics.traffic@.len() implies is_qpi_traffic_of(
        #[trigger] metrics.traffic@[k],
        rows,
    ) by {
        let place = lists::every_element_comes_of_an_item(rows, f, k);
        lemma_qpi_traffic(rows[place.0], place.1);
    }
    assert forall|k: int| 0 <= k < metrics.power_states@.len() implies is_qpi_power_of(
        #[trigger] metrics.power_states@[k],
        rows,
    ) by {
        let place = lists::every_element_comes_of_an_item(rows, g, k);
        lemma_qpi_row(rows, place.0);
        assert(is_qpi_power(qpi_common::row_power_states(rows[place.0])[place.1], rows[place.0]));
    }
    assert forall|k: int| 0 <= k < metrics.queues@.len() implies is_qpi_queue_of(
        #[trigger] metrics.queues@[k],
        rows,
    ) by {
        let place = lists::every_element_comes_of_an_item(rows, h, k);
        lemma_qpi_row(rows, place.0);
        assert(is_qpi_queue(qpi_common::row_queues(rows[place.0])[place.1], rows[place.0]));
    }
}

/// A report on QPI links has of every link the traffic that was counted, its three power states
/// and its two queues.
pub proof fn qpi_report_leaves_nothing_out(
    measurements: QpiMeasurementAccumulator,
    metrics: QpiMetrics,
    i: int,
    direction: InterconnectDirection,
    traffic: InterconnectTrafficClass,
)
    requires
        call_ensures(
            QpiMetrics::from_measurements,
            (&measurements,),
            Ok::<QpiMetrics, CollectorError>(metrics),
        ),
        0 <= i < measurements.rows().len(),
    ensures
        metrics.power_states@.len() == measurements.rows().len() * 3,
        metrics.queues@.len() == measurements.rows().len() * 2,
        measurements.rows()[i].1.contains_key(qpi_flits(direction, traffic)) ==> has_qpi_traffic(
            metrics.traffic@,
            measurements.rows()[i],
            direction,
            traffic,
        ),
        has_qpi_power(
            metrics.power_states@,
            measurements.rows()[i],
            InterconnectPowerState::L1,
            None,
        ),
        has_qpi_power(
            metrics.power_states@,
            measurements.rows()[i],
            InterconnectPowerState::L0p,
            Some(direction),
        ),
        has_qpi_queue(metrics.queues@, measurements.rows()[i], direction),
{
    let rows = measurements.rows();
    let f = |row: QpiRow| qpi_common::row_traffic(row);
    let g = |row: QpiRow| qpi_common::row_power_states(row);
    let h = |row: QpiRow| qpi_common::row_queues(row);
    lemma_qpi_row(rows, i);
    seqs::lemma_flat_map_len(rows, g, 3);
    seqs::lemma_flat_map_len(rows, h, 2);
    if rows[i].1.contains_key(qpi_flits(direction, traffic)) {
        let j = lemma_qpi_held(rows[i], direction, traffic);
        lemma_qpi_traffic(rows[i], j);
        let k = lists::every_item_is_flattened(rows, f, i, j);
        assert(metrics.traffic@[k].direction == direction);
    }
    let p = lists::every_item_is_flattened(rows, g, i, 0);
    assert(is_qpi_power(qpi_common::row_power_states(rows[i])[0], rows[i]));
    assert(metrics.power_states@[p].state == InterconnectPowerState::L1);
    let s: int = if direction == InterconnectDirection::Rx {
        1
    } else {
        2
    };
    let q = lists::every_item_is_flattened(rows, g, i, s);
    assert(is_qpi_power(qpi_common::row_power_states(rows[i])[s], rows[i]));
    assert(metrics.power_states@[q].state == InterconnectPowerState::L0p);
    let r = lists::every_item_is_flattened(rows, h, i, s - 1);
    assert(is_qpi_queue(qpi_common::row_queues(rows[i])[s - 1], rows[i]));
    assert(metrics.queues@[r].direction == direction);
}

/// What a direction is called.
pub open spec fn direction_name(direction: InterconnectDirection) -> &'static str {
    match direction {
        InterconnectDirection::Rx => "rx",
        InterconnectDirection::Tx => "tx",
    }
}

/// What a class of traffic is called.
pub open spec fn class_name(traffic: InterconnectTrafficClass) -> &'static str {
    match traffic {
        InterconnectTrafficClass::Data => "data",
        InterconnectTrafficClass::NonData => "non_data",
    }
}

/// What a power state is called.
pub open spec fn power_name(state: InterconnectPowerState) -> &'static str {
    match state {
        InterconnectPowerState::L0p => "l0p",
        InterconnectPowerState::L1 => "l1",
    }
}

/// The labels of a link: those of its die, and its number.
pub open spec fn link_only(scope: InterconnectScope) -> Labels {
    Labels {
        link: Some(scope.link_id),
        ..labels::die_only(scope.die_group_id, scope.die_id, scope.package_id)
    }
}

/// The labels of a direction of a link.
pub open spec fn link_direction(scope: InterconnectScope, direction: &'static str) -> Labels {
    Labels { direction: Some(direction), ..link_only(scope) }
}

/// Whether every number of these lists is handed out under its own name, with the labels of its
/// link, its direction and what else it is about.
pub open spec fn hands_out_links(
    updates: Seq<GaugeUpdate>,
    links: Seq<InterconnectLinkMetrics>,
    traffic: Seq<InterconnectTrafficMetrics>,
    power_states: Seq<InterconnectPowerStateMetrics>,
    queues: Seq<InterconnectQueueMetrics>,
) -> bool {
    &&& forall|k: int|
        0 <= k < links.len() ==> labels::hands_out(
            updates,
            "ocellus_interconnect_frequency_hz",
            link_only((#[trigger] links[k]).scope),
            links[k].frequency_hz,
        )
    &&& forall|k: int|
        0 <= k < traffic.len() ==> labels::hands_out(
            updates,
            "ocellus_interconnect_flits_per_second",
            (Labels {
                traffic: Some(class_name((#[trigger] traffic[k]).traffic)),
                ..link_direction(traffic[k].scope, direction_name(traffic[k].direction))
            }),
            traffic[k].flits_per_second,
        )
    &&& forall|k: int|
        0 <= k < traffic.len() && (#[trigger] traffic[k]).bytes_per_second is Some ==>
            labels::hands_out(
            updates,
            "ocellus_interconnect_data_bytes_per_second",
            link_direction(traffic[k].scope, direction_name(traffic[k].direction)),
            traffic[k].bytes_per_second->0,
        )
    &&& forall|k: int|
        0 <= k < power_states.len() ==> labels::hands_out(
            updates,
            "ocellus_interconnect_power_state_ratio",
            (Labels {
                state: Some(power_name((#[trigger] power_states[k]).state)),
                ..link_direction(
                    power_states[k].scope,
                    match power_states[k].direction {
                        Some(direction) => direction_name(direction),
                        None => "link",
                    },
                )
            }),
            power_states[k].ratio,
        )
    &&& forall|k: int|
        0 <= k < queues.len() ==> {
            let place = link_direction(
                (#[trigger] queues[k]).scope,
                direction_name(queues[k].direction),
            );
            &&& labels::hands_out(
                updates,
                "ocellus_interconnect_queue_inserts_per_second",
                place,
                queues[k].inserts_per_second,
            )
            &&& labels::hands_out(
                updates,
                "ocellus_interconnect_queue_latency_seconds",
                place,
                queues[k].latency_seconds,
            )
            &&& labels::hands_out(
                updates,
                "ocellus_interconnect_queue_occupancy_flits",
                place,
                queues[k].occupancy_flits,
            )
        }
}

proof fn lemma_handed_out_at<A>(
    before: Seq<GaugeUpdate>,
    items: Seq<A>,
    f: spec_fn(A) -> Seq<GaugeUpdate>,
    after: Seq<GaugeUpdate>,
    i: int,
    j: int,
)
    requires
        0 <= i < items.len(),
        0 <= j < f(items[i]).len(),
    ensures
        labels::hands_out(
            before + seqs::flat_map(items, f) + after,
            f(items[i])[j].family,
            f(items[i])[j].labels,
            f(items[i])[j].value,
        ),
{
    let all = before + seqs::flat_map(items, f) + after;
    let k = lists::every_item_is_flattened(items, f, i, j);
    assert(all[before.len() + k] == seqs::flat_map(items, f)[k]);
}

/// Every number of the lists of a report is handed out under its own name and labels.
pub proof fn lists_are_handed_out(
    links: Seq<InterconnectLinkMetrics>,
    traffic: Seq<InterconnectTrafficMetrics>,
    power_states: Seq<InterconnectPowerStateMetrics>,
    queues: Seq<InterconnectQueueMetrics>,
)
    ensures
        hands_out_links(
            interconnect::list_updates(links, traffic, power_states, queues),
            links,
            traffic,
            power_states,
            queues,
        ),
{
    let a = |link: InterconnectLinkMetrics| interconnect::link_updates(link);
    let b = |traffic: InterconnectTrafficMetrics| interconnect::traffic_updates(traffic);
    let c = |power_state: InterconnectPowerStateMetrics|
        interconnect::power_state_updates(power_state);
    let d = |queue: InterconnectQueueMetrics| interconnect::queue_updates(queue);
    let la = seqs::flat_map(links, a);
    let lb = seqs::flat_map(traffic, b);
    let lc = seqs::flat_map(power_states, c);
    let ld = seqs::flat_map(queues, d);
    let updates = interconnect::list_updates(links, traffic, power_states, queues);
    assert(updates =~= Seq::empty() + la + (lb + lc + ld));
    assert(updates =~= la + lb + (lc + ld));
    assert(updates =~= (la + lb) + lc + ld);
    assert(updates =~= (la + lb + lc) + ld + Seq::empty());
    assert forall|k: int| 0 <= k < links.len() implies labels::hands_out(
        updates,
        "ocellus_interconnect_frequency_hz",
        link_only((#[trigger] links[k]).scope),
        links[k].frequency_hz,
    ) by {
        lemma_handed_out_at(Seq::empty(), links, a, lb + lc + ld, k, 0);
    }
    assert forall|k: int| 0 <= k < traffic.len() implies labels::hands_out(
        updates,
        "ocellus_interconnect_flits_per_second",
        (Labels {
            traffic: Some(class_name((#[trigger] traffic[k]).traffic)),
            ..link_direction(traffic[k].scope, direction_name(traffic[k].direction))
        }),
        traffic[k].flits_per_second,
    ) by {
        let j: int = if traffic[k].bytes_per_second is Some {
            1
        } else {
            0
        };
        lemma_handed_out_at(la, traffic, b, lc + ld, k, j);
    }
    assert forall|k: int|
        0 <= k < traffic.len() && (#[trigger] traffic[k]).bytes_per_second is Some implies
        labels::hands_out(
        updates,
        "ocellus_interconnect_data_bytes_per_second",
        link_direction(traffic[k].scope, direction_name(traffic[k].direction)),
        traffic[k].bytes_per_second->0,
    ) by {
        lemma_handed_out_at(la, traffic, b, lc + ld, k, 0);
    }
    assert forall|k: int| 0 <= k < power_states.len() implies labels::hands_out(
        updates,
        "ocellus_interconnect_power_state_ratio",
        (Labels {
            state: Some(power_name((#[trigger] power_states[k]).state)),
            ..link_direction(
                power_states[k].scope,
                match power_states[k].direction {
                    Some(direction) => direction_name(direction),
                    None => "link",
                },
            )
        }),
        power_states[k].ratio,
    ) by {
        lemma_handed_out_at(la + lb, power_states, c, ld, k, 0);
    }
    assert forall|k: int| 0 <= k < queues.len() implies {
        let place = link_direction(
            (#[trigger] queues[k]).scope,
            direction_name(queues[k].direction),
        );
        &&& labels::hands_out(
            updates,
            "ocellus_interconnect_queue_inserts_per_second",
            place,
            queues[k].inserts_per_second,
        )
        &&& labels::hands_out(
            updates,
            "ocellus_interconnect_queue_latency_seconds",
            place,
            queues[k].latency_seconds,
        )
        &&& labels::hands_out(
            updates,
            "ocellus_interconnect_queue_occupancy_flits",
            place,
            queues[k].occupancy_flits,
        )
    } by {
        lemma_handed_out_at(la + lb + lc, queues, d, Seq::empty(), k, 0);
        lemma_handed_out_at(la + lb + lc, queues, d, Seq::empty(), k, 1);
        lemma_handed_out_at(la + lb + lc, queues, d, Seq::empty(), k, 2);
    }
}

/// Whatever the processor, its whole report is handed out: with its queues where the links are
/// QPI ones; UPI links have none.
pub proof fn reports_are_handed_out(metrics: InterconnectMetrics)
    ensures
        match metrics {
            InterconnectMetrics::Bdx(report) => hands_out_links(
                interconnect::report_updates(metrics),
                report.links@,
                report.traffic@,
                report.power_states@,
                report.queues@,
            ),
            InterconnectMetrics::Hsx(report) => hands_out_links(
                interconnect::report_updates(metrics),
                report.links@,
                report.traffic@,
                report.power_states@,
                report.queues@,
            ),
            InterconnectMetrics::Ivb(report) => hands_out_links(
                interconnect::report_updates(metrics),
                report.links@,
                report.traffic@,
                report.power_states@,
                report.queues@,
            ),
            InterconnectMetrics::Snb(report) => hands_out_links(
                interconnect::report_updates(metrics),
                report.links@,
                report.traffic@,
                report.power_states@,
                report.queues@,
            ),
            InterconnectMetrics::Emr(report) => hands_out_links(
                interconnect::report_updates(metrics),
                report.links@,
                report.traffic@,
                report.power_states@,
                Seq::empty(),
            ),
            InterconnectMetrics::Icx(report) => hands_out_links(
                interconnect::report_updates(metrics),
                report.links@,
                report.traffic@,
                report.power_states@,
                Seq::empty(),
            ),
            InterconnectMetrics::Skx(report) => hands_out_links(
                interconnect::report_updates(metrics),
                report.links@,
                report.traffic@,
                report.power_states@,
                Seq::empty(),
            ),
            InterconnectMetrics::Spr(report) => hands_out_links(
                interconnect::report_updates(metrics),
                report.links@,
                report.traffic@,
                report.power_states@,
                Seq::empty(),
            ),
        },
{
    match metrics {
        InterconnectMetrics::Bdx(report) => lists_are_handed_out(
            report.links@,
            report.traffic@,
            report.power_states@,
            report.queues@,
        ),
        InterconnectMetrics::Hsx(report) => lists_are_handed_out(
            report.links@,
            report.traffic@,
            report.power_states@,
            report.queues@,
        ),
        InterconnectMetrics::Ivb(report) => lists_are_handed_out(
            report.links@,
            report.traffic@,
            report.power_states@,
            report.queues@,
        ),
        InterconnectMetrics::Snb(report) => lists_are_handed_out(
            report.links@,
            report.traffic@,
            report.power_states@,
            report.queues@,
        ),
        InterconnectMetrics::Emr(report) => lists_are_handed_out(
            report.links@,
            report.traffic@,
            report.power_states@,
            Seq::empty(),
        ),
        InterconnectMetrics::Icx(report) => lists_are_handed_out(
            report.links@,
            report.traffic@,
            report.power_states@,
            Seq::empty(),
        ),
        InterconnectMetrics::Skx(report) => lists_are_handed_out(
            report.links@,
            report.traffic@,
            report.power_states@,
            Seq::empty(),
        ),
        InterconnectMetrics::Spr(report) => lists_are_handed_out(
            report.links@,
            report.traffic@,
            report.power_states@,
            Seq::empty(),
        ),
    }
}

} // verus!
