use crate::decimal::{decimal_of, is_numeric_text, parse_decimal, Decimal};
use crate::instant::UtcInstant;
use crate::subscription::{de_tiker_subscription_id, subscription_text, SubscriptionId, TICKERS_CHANNEL};
use vstd::prelude::*;

verus! {

/// Exchanges whose ticker streams this library normalises.
#[derive(Clone, Copy, Debug, PartialEq, Eq, Structural)]
pub enum ExchangeId {
    BinanceSpot,
    BinanceFuturesUsd,
}

impl ExchangeId {
    pub fn as_str(&self) -> (r: &'static str)
        ensures
            r@ == match self {
                ExchangeId::BinanceSpot => "binance_spot"@,
                ExchangeId::BinanceFuturesUsd => "binance_futures_usd"@,
            },
    {
        match self {
            ExchangeId::BinanceSpot => "binance_spot",
            ExchangeId::BinanceFuturesUsd => "binance_futures_usd",
        }
    }
}

/// The numeric and time fields of a ticker wire message, in schema order.
#[derive(Clone, Copy, Debug, PartialEq, Eq, Structural)]
pub enum TikerField {
    PriceChange,
    PriceChangePercent,
    WeightedAvgPrice,
    LastPrice,
    LastQty,
    OpenPrice,
    HighPrice,
    LowPrice,
    Volume,
    QuoteVolume,
    OpenTime,
    CloseTime,
}

/// Why a ticker wire message was rejected.
#[derive(Clone, Copy, Debug, PartialEq, Eq, Structural)]
pub enum DecodeError {
    /// A numeric field holds text that is not a number.
    NotNumeric(TikerField),
    /// An epoch-millisecond field lies past the last representable instant.
    TimeOutOfRange(TikerField),
}

/// A ticker message as it arrives: the symbol (`s`), the string-encoded numbers
/// (`p`, `P`, `w`, `c`, `Q`, `o`, `h`, `l`, `v`, `q`), the window bounds in epoch
/// milliseconds (`O`, `C`) and the trade ids and count (`F`, `L`, `n`).
pub struct WireTiker {
    pub symbol: String,
    pub price_change: String,
    pub price_change_percent: String,
    pub weighted_avg_price: String,
    pub last_price: String,
    pub last_qty: String,
    pub open_price: String,
    pub high_price: String,
    pub low_price: String,
    pub volume: String,
    pub quote_volume: String,
    pub open_time: u64,
    pub close_time: u64,
    pub first_id: u64,
    pub last_id: u64,
    pub count: u64,
}

/// Text of a string-encoded numeric field of a wire message.
pub open spec fn wire_text(w: WireTiker, f: TikerField) -> Seq<char> {
    match f {
        TikerField::PriceChange => w.price_change@,
        TikerField::PriceChangePercent => w.price_change_percent@,
        TikerField::WeightedAvgPrice => w.weighted_avg_price@,
        TikerField::LastPrice => w.last_price@,
        TikerField::LastQty => w.last_qty@,
        TikerField::OpenPrice => w.open_price@,
        TikerField::HighPrice => w.high_price@,
        TikerField::LowPrice => w.low_price@,
        TikerField::Volume => w.volume@,
        TikerField::QuoteVolume => w.quote_volume@,
        TikerField::OpenTime => Seq::empty(),
        TikerField::CloseTime => Seq::empty(),
    }
}

pub open spec fn is_time_field(f: TikerField) -> bool {
    f == TikerField::OpenTime || f == TikerField::CloseTime
}

/// Position of a field in schema order.
pub open spec fn field_rank(f: TikerField) -> int {
    match f {
        TikerField::PriceChange => 0,
        TikerField::PriceChangePercent => 1,
        TikerField::WeightedAvgPrice => 2,
        TikerField::LastPrice => 3,
        TikerField::LastQty => 4,
        TikerField::OpenPrice => 5,
        TikerField::HighPrice => 6,
        TikerField::LowPrice => 7,
        TikerField::Volume => 8,
        TikerField::QuoteVolume => 9,
        TikerField::OpenTime => 10,
        TikerField::CloseTime => 11,
    }
}

/// Field `f` of `w` decodes on its own.
pub open spec fn field_ok(w: WireTiker, f: TikerField) -> bool {
    match f {
        TikerField::OpenTime => w.open_time <= i64::MAX,
        TikerField::CloseTime => w.close_time <= i64::MAX,
        _ => is_numeric_text(wire_text(w, f)),
    }
}

/// The field that an error names.
pub open spec fn error_field(e: DecodeError) -> TikerField {
    match e {
        DecodeError::NotNumeric(f) => f,
        DecodeError::TimeOutOfRange(f) => f,
    }
}

/// A wire message that decodes: every numeric text is a number and both window
/// bounds are representable instants.
pub open spec fn wire_valid(w: WireTiker) -> bool {
    is_numeric_text(w.price_change@) && is_numeric_text(w.price_change_percent@)
        && is_numeric_text(w.weighted_avg_price@) && is_numeric_text(w.last_price@)
        && is_numeric_text(w.last_qty@) && is_numeric_text(w.open_price@) && is_numeric_text(
        w.high_price@,
    ) && is_numeric_text(w.low_price@) && is_numeric_text(w.volume@) && is_numeric_text(
        w.quote_volume@,
    ) && w.open_time <= i64::MAX && w.close_time <= i64::MAX
}

/// Binance futures ticker record, decoded from a wire message.
pub struct BinanceTiker {
    pub subscription_id: SubscriptionId,
    pub price_change: Decimal,
    pub price_change_percent: Decimal,
    pub weighted_avg_price: Decimal,
    pub last_price: Decimal,
    pub last_qty: Decimal,
    pub open_price: Decimal,
    pub high_price: Decimal,
    pub low_price: Decimal,
    pub volume: Decimal,
    pub quote_volume: Decimal,
    pub open_time: UtcInstant,
    pub close_time: UtcInstant,
    pub first_id: u64,
    pub last_id: u64,
    pub count: u64,
}

/// Normalised ticker (rolling window statistics) model.
///
/// Best bid and ask (price and quantity) and the previous close price are left
/// out: the wire messages read here do not carry them into this model.
#[derive(Clone, Copy, Debug, PartialEq, Eq, Structural)]
pub struct Tiker {
    pub price_change: Decimal,
    pub price_change_percent: Decimal,
    pub weighted_avg_price: Decimal,
    pub last_qty: Decimal,
    pub open: Decimal,
    pub high: Decimal,
    pub low: Decimal,
    pub last_price: Decimal,
    pub volume: Decimal,
    pub quote_volume: Decimal,
    pub open_time: UtcInstant,
    pub close_time: UtcInstant,
    pub first_id: u64,
    pub last_id: u64,
    pub count: u64,
}

/// The canonical ticker that the field mapping gives straight from a valid wire message.
pub open spec fn tiker_of_wire(w: WireTiker) -> Tiker {
    Tiker {
        price_change: decimal_of(w.price_change@),
        price_change_percent: decimal_of(w.price_change_percent@),
        weighted_avg_price: decimal_of(w.weighted_avg_price@),
        last_qty: decimal_of(w.last_qty@),
        open: decimal_of(w.open_price@),
        high: decimal_of(w.high_price@),
        low: decimal_of(w.low_price@),
        last_price: decimal_of(w.last_price@),
        volume: decimal_of(w.volume@),
        quote_volume: decimal_of(w.quote_volume@),
        open_time: UtcInstant { epoch_ms: w.open_time as i64 },
        close_time: UtcInstant { epoch_ms: w.close_time as i64 },
        first_id: w.first_id,
        last_id: w.last_id,
        count: w.count,
    }
}

/// The canonical ticker carried by a decoded record.
pub open spec fn tiker_of_record(t: BinanceTiker) -> Tiker {
    Tiker {
        price_change: t.price_change,
        price_change_percent: t.price_change_percent,
        weighted_avg_price: t.weighted_avg_price,
        last_qty: t.last_qty,
        open: t.open_price,
        high: t.high_price,
        low: t.low_price,
        last_price: t.last_price,
        volume: t.volume,
        quote_volume: t.quote_volume,
        open_time: t.open_time,
        close_time: t.close_time,
        first_id: t.first_id,
        last_id: t.last_id,
        count: t.count,
    }
}

/// `t` is the record that wire message `w` decodes to.
pub open spec fn decodes_to(w: WireTiker, t: BinanceTiker) -> bool {
    t.subscription_id.text@ == subscription_text(TICKERS_CHANNEL@, w.symbol@) && tiker_of_record(t)
        == tiker_of_wire(w)
}

fn numeric_field(text: &String, field: TikerField) -> (r: Result<Decimal, DecodeError>)
    ensures
        match r {
            Ok(d) => is_numeric_text(text@) && d == decimal_of(text@),
            Err(e) => !is_numeric_text(text@) && e == DecodeError::NotNumeric(field),
        },
{
    match parse_decimal(text.as_str()) {
        Some(d) => Ok(d),
        None => Err(DecodeError::NotNumeric(field)),
    }
}

fn time_field(ms: u64, field: TikerField) -> (r: Result<UtcInstant, DecodeError>)
    ensures
        match r {
            Ok(t) => ms <= i64::MAX && t.epoch_ms == ms,
            Err(e) => ms > i64::MAX && e == DecodeError::TimeOutOfRange(field),
        },
{
    if ms > i64::MAX as u64 {
        Err(DecodeError::TimeOutOfRange(field))
    } else {
        Ok(UtcInstant::from_epoch_ms(ms as i64))
    }
}

impl BinanceTiker {
    /// Decode a wire message; the whole message is rejected when any field is.
    pub fn decode(w: &WireTiker) -> (r: Result<BinanceTiker, DecodeError>)
        ensures
            r is Ok <==> wire_valid(*w),
            r matches Ok(t) ==> decodes_to(*w, t),
            r matches Err(e) ==> !field_ok(*w, error_field(e)) && forall|g: TikerField|
                field_rank(g) < field_rank(error_field(e)) ==> #[trigger] field_ok(*w, g),
            r matches Err(DecodeError::NotNumeric(f)) ==> !is_time_field(f),
            r matches Err(DecodeError::TimeOutOfRange(f)) ==> is_time_field(f),
    {
        let price_change = numeric_field(&w.price_change, TikerField::PriceChange)?;
        let price_change_percent = numeric_field(
            &w.price_change_percent,
            TikerField::PriceChangePercent,
        )?;
        let weighted_avg_price = numeric_field(&w.weighted_avg_price, TikerField::WeightedAvgPrice)?;
        let last_price = numeric_field(&w.last_price, TikerField::LastPrice)?;
        let last_qty = numeric_field(&w.last_qty, TikerField::LastQty)?;
        let open_price = numeric_field(&w.open_price, TikerField::OpenPrice)?;
        let high_price = numeric_field(&w.high_price, TikerField::HighPrice)?;
        let low_price = numeric_field(&w.low_price, TikerField::LowPrice)?;
        let volume = numeric_field(&w.volume, TikerField::Volume)?;
        let quote_volume = numeric_field(&w.quote_volume, TikerField::QuoteVolume)?;
        let open_time = time_field(w.open_time, TikerField::OpenTime)?;
        let close_time = time_field(w.close_time, TikerField::CloseTime)?;
        Ok(BinanceTiker {
            subscription_id: de_tiker_subscription_id(w.symbol.as_str()),
            price_change,
            price_change_percent,
            weighted_avg_price,
            last_price,
            last_qty,
            open_price,
            high_price,
            low_price,
            volume,
            quote_volume,
            open_time,
            close_time,
            first_id: w.first_id,
            last_id: w.last_id,
            count: w.count,
        })
    }

    /// The subscription key that routes this record.
    pub fn id(&self) -> (r: Option<SubscriptionId>)
        ensures
            r matches Some(i) && i.text@ == self.subscription_id.text@,
    {
        Some(self.subscription_id.duplicate())
    }
}

} // verus!
