use crate::instant::UtcInstant;
use crate::tiker::{
    decodes_to, tiker_of_record, tiker_of_wire, BinanceTiker, DecodeError, ExchangeId, Tiker,
    WireTiker, wire_valid,
};
use vstd::prelude::*;

verus! {

/// Error item of a market stream.
pub enum DataError {
    /// A wire message that did not decode.
    Decode(DecodeError),
    /// A payload that does not match the wire schema (a field missing or of the wrong type).
    Malformed(String),
    /// The transport of one source failed and could not recover.
    Transport(String),
}

/// Normalised market event of an instrument, with exchange and timing identity.
pub struct MarketEvent<I> {
    /// Time reported by the exchange; orders events across exchanges.
    pub exchange_time: UtcInstant,
    /// Local arrival time; for latency measurement only.
    pub received_time: UtcInstant,
    pub exchange: ExchangeId,
    pub instrument: I,
    pub kind: Tiker,
}

/// The event that a decoded ticker record converts to.
pub open spec fn event_of<I>(
    exchange: ExchangeId,
    instrument: I,
    tiker: BinanceTiker,
    received: UtcInstant,
) -> MarketEvent<I> {
    MarketEvent {
        exchange_time: tiker.close_time,
        received_time: received,
        exchange,
        instrument,
        kind: tiker_of_record(tiker),
    }
}

/// The events that one wire record expands into.
pub struct MarketIter<I> {
    pub events: Vec<Result<MarketEvent<I>, DataError>>,
}

impl<I> MarketEvent<I> {
    /// The event of a decoded ticker record received at `received`, stamped with the
    /// record's window close time.
    pub fn from_tiker(exchange: ExchangeId, instrument: I, tiker: BinanceTiker, received: UtcInstant) -> (r: MarketEvent<I>)
        ensures
            r == event_of(exchange, instrument, tiker, received),
    {
        MarketEvent {
            exchange_time: tiker.close_time,
            received_time: received,
            exchange,
            instrument,
            kind: Tiker {
                price_change: tiker.price_change,
                price_change_percent: tiker.price_change_percent,
                weighted_avg_price: tiker.weighted_avg_price,
                last_qty: tiker.last_qty,
                open: tiker.open_price,
                high: tiker.high_price,
                low: tiker.low_price,
                last_price: tiker.last_price,
                volume: tiker.volume,
                quote_volume: tiker.quote_volume,
                open_time: tiker.open_time,
                close_time: tiker.close_time,
                first_id: tiker.first_id,
                last_id: tiker.last_id,
                count: tiker.count,
            },
        }
    }
}

impl<I> MarketIter<I> {
    /// Convert a decoded ticker record received at `received`: exactly one event,
    /// stamped with the record's window close time.
    pub fn from_at(exchange: ExchangeId, instrument: I, tiker: BinanceTiker, received: UtcInstant) -> (r: MarketIter<I>)
        ensures
            r.events@ == seq![Ok::<MarketEvent<I>, DataError>(event_of(exchange, instrument, tiker, received))],
    {
        let event = MarketEvent::from_tiker(exchange, instrument, tiker, received);
        let mut events = Vec::new();
        events.push(Ok(event));
        MarketIter { events }
    }

    /// Convert a decoded ticker record, stamping the local clock's reading as arrival time.
    pub fn from(exchange: ExchangeId, instrument: I, tiker: BinanceTiker) -> (r: MarketIter<I>)
        ensures
            r.events@.len() == 1,
            r.events@[0] matches Ok(e) && e == event_of(exchange, instrument, tiker, e.received_time),
    {
        MarketIter::from_at(exchange, instrument, tiker, UtcInstant::now())
    }
}

/// Decoding then converting follows the field mapping: the event's payload is the
/// mapping of the wire message, its exchange time the window close time, and it
/// carries the given exchange and instrument.
pub proof fn lemma_decode_then_convert<I>(
    w: WireTiker,
    t: BinanceTiker,
    exchange: ExchangeId,
    instrument: I,
    received: UtcInstant,
)
    requires
        wire_valid(w),
        decodes_to(w, t),
    ensures
        event_of(exchange, instrument, t, received).kind == tiker_of_wire(w),
        event_of(exchange, instrument, t, received).exchange_time.epoch_ms == w.close_time,
        event_of(exchange, instrument, t, received).exchange == exchange,
        event_of(exchange, instrument, t, received).instrument == instrument,
{
}

} // verus!
