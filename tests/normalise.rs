use barter_data::decimal::{parse_decimal, Decimal};
use barter_data::event::{DataError, MarketIter};
use barter_data::instant::{CivilTime, UtcInstant};
use barter_data::streams::{
    Inbound, InstrumentKind, MergeAction, SelectAll, SourceItem, StreamBuilder, Subscription,
};
use barter_data::subscription::{de_tiker_subscription_id, SubscriptionId, Tikers, TICKERS_CHANNEL};
use barter_data::tiker::{BinanceTiker, DecodeError, ExchangeId, TikerField, WireTiker};

fn wire(symbol: &str) -> WireTiker {
    WireTiker {
        symbol: symbol.to_string(),
        price_change: "10000.19".to_string(),
        price_change_percent: "0.5".to_string(),
        weighted_avg_price: "9990.01".to_string(),
        last_price: "10001.5".to_string(),
        last_qty: "0.239000".to_string(),
        open_price: "9000".to_string(),
        high_price: "10100.25".to_string(),
        low_price: "8999.75".to_string(),
        volume: "1234.5".to_string(),
        quote_volume: "12345678.9".to_string(),
        open_time: 1649324825173,
        close_time: 1749354825200,
        first_id: 1,
        last_id: 2,
        count: 3,
    }
}

fn dec(negative: bool, mantissa: u128, scale: u32) -> Decimal {
    Decimal { negative, mantissa, scale }
}

#[test]
fn decode_maps_every_field() {
    let t = BinanceTiker::decode(&wire("ETHUSDT")).unwrap();
    assert_eq!(t.subscription_id.as_str(), "@tiker|ETHUSDT");
    assert_eq!(t.price_change, dec(false, 1000019, 2));
    assert_eq!(t.price_change_percent, dec(false, 5, 1));
    assert_eq!(t.weighted_avg_price, dec(false, 999001, 2));
    assert_eq!(t.last_price, dec(false, 100015, 1));
    assert_eq!(t.last_qty, dec(false, 239000, 6));
    assert_eq!(t.open_price, dec(false, 9000, 0));
    assert_eq!(t.high_price, dec(false, 1010025, 2));
    assert_eq!(t.low_price, dec(false, 899975, 2));
    assert_eq!(t.volume, dec(false, 12345, 1));
    assert_eq!(t.quote_volume, dec(false, 123456789, 1));
    assert_eq!(t.open_time.epoch_ms, 1649324825173);
    assert_eq!(t.close_time.epoch_ms, 1749354825200);
    assert_eq!((t.first_id, t.last_id, t.count), (1, 2, 3));
    assert_eq!(t.id().unwrap().as_str(), "@tiker|ETHUSDT");
}

#[test]
fn decode_then_convert_yields_one_event() {
    let t = BinanceTiker::decode(&wire("ETHUSDT")).unwrap();
    let received = UtcInstant::from_epoch_ms(1749354825999);
    let it = MarketIter::from_at(ExchangeId::BinanceFuturesUsd, 7u32, t, received);
    assert_eq!(it.events.len(), 1);
    let e = it.events[0].as_ref().ok().unwrap();
    assert_eq!(e.exchange_time.epoch_ms, 1749354825200);
    assert_eq!(e.received_time, received);
    assert_eq!(e.exchange, ExchangeId::BinanceFuturesUsd);
    assert_eq!(e.instrument, 7u32);
    assert_eq!(e.kind.price_change, dec(false, 1000019, 2));
    assert_eq!(e.kind.open, dec(false, 9000, 0));
    assert_eq!(e.kind.close_time.epoch_ms, 1749354825200);
    assert_eq!(e.kind.count, 3);
}

#[test]
fn convert_with_clock_stamps_arrival() {
    let t = BinanceTiker::decode(&wire("BTCUSDT")).unwrap();
    let it = MarketIter::from(ExchangeId::BinanceSpot, (), t);
    assert_eq!(it.events.len(), 1);
    let e = it.events[0].as_ref().ok().unwrap();
    assert_eq!(e.exchange_time.epoch_ms, 1749354825200);
    assert!(e.received_time.epoch_ms > 1749354825200);
}

#[test]
fn subscription_id_ignores_case() {
    let a = SubscriptionId::derive(TICKERS_CHANNEL, "ETHUSDT");
    let b = SubscriptionId::derive(TICKERS_CHANNEL, "ethusdt");
    let c = SubscriptionId::derive(TICKERS_CHANNEL, "ethusdt");
    assert_eq!(a.as_str(), "@tiker|ETHUSDT");
    assert!(a.same_as(&b));
    assert!(b.same_as(&c));
    assert_eq!(de_tiker_subscription_id("EthUsdt").as_str(), "@tiker|ETHUSDT");
    assert!(!a.same_as(&SubscriptionId::derive("@trade", "ETHUSDT")));
}

#[test]
fn decode_rejects_non_numeric_text() {
    let mut w = wire("ETHUSDT");
    w.price_change = "not-a-number".to_string();
    assert!(matches!(
        BinanceTiker::decode(&w),
        Err(DecodeError::NotNumeric(TikerField::PriceChange))
    ));
    let mut w = wire("ETHUSDT");
    w.quote_volume = "".to_string();
    assert!(matches!(
        BinanceTiker::decode(&w),
        Err(DecodeError::NotNumeric(TikerField::QuoteVolume))
    ));
}

#[test]
fn decode_rejects_time_out_of_range() {
    let mut w = wire("ETHUSDT");
    w.close_time = u64::MAX;
    assert!(matches!(
        BinanceTiker::decode(&w),
        Err(DecodeError::TimeOutOfRange(TikerField::CloseTime))
    ));
}

#[test]
fn epoch_ms_converts_exactly() {
    let t = UtcInstant::from_epoch_ms(1749354825200);
    assert_eq!(t.epoch_ms, 1749354825200);
    let c = t.civil().unwrap();
    assert_eq!(
        c,
        CivilTime { year: 2025, month: 6, day: 8, hour: 3, minute: 53, second: 45, millisecond: 200 }
    );
    let epoch = UtcInstant::from_epoch_ms(0).civil().unwrap();
    assert_eq!(
        epoch,
        CivilTime { year: 1970, month: 1, day: 1, hour: 0, minute: 0, second: 0, millisecond: 0 }
    );
    let leap = UtcInstant::from_epoch_ms(951782400000).civil().unwrap();
    assert_eq!((leap.year, leap.month, leap.day), (2000, 2, 29));
    assert!(UtcInstant::from_epoch_ms(253402300799999).civil().is_some());
}

#[test]
fn decimal_text_forms() {
    assert_eq!(parse_decimal("-0.5"), Some(dec(true, 5, 1)));
    assert_eq!(parse_decimal("+3"), Some(dec(false, 3, 0)));
    assert_eq!(parse_decimal("5."), Some(dec(false, 5, 0)));
    assert_eq!(parse_decimal(".25"), Some(dec(false, 25, 2)));
    assert_eq!(parse_decimal("007"), Some(dec(false, 7, 0)));
    assert_eq!(parse_decimal("."), None);
    assert_eq!(parse_decimal(""), None);
    assert_eq!(parse_decimal("-"), None);
    assert_eq!(parse_decimal("1.2.3"), None);
    assert_eq!(parse_decimal("1e5"), None);
    assert_eq!(parse_decimal(" 1"), None);
}

#[test]
fn decimal_length_limit() {
    let max = "9".repeat(38);
    assert_eq!(parse_decimal(&max), Some(dec(false, 99999999999999999999999999999999999999, 0)));
    assert_eq!(parse_decimal(&format!("-{}", max)).map(|d| d.negative), Some(true));
    assert_eq!(parse_decimal(&"9".repeat(39)), None);
}

#[test]
fn merge_continues_after_source_error() {
    let mut merge = SelectAll::new(3);
    let mut handled = 0;
    let mut emitted = Vec::new();
    let items: Vec<(usize, SourceItem<u32, DataError>)> = vec![
        (0, SourceItem::Item(1)),
        (1, SourceItem::Item(2)),
        (2, SourceItem::Error(DataError::Transport("reset".to_string()))),
        (0, SourceItem::Item(3)),
        (1, SourceItem::Item(4)),
        (2, SourceItem::Ended),
        (0, SourceItem::Item(5)),
        (0, SourceItem::Ended),
        (1, SourceItem::Ended),
    ];
    let mut finished = false;
    for (source, item) in items {
        assert!(!finished);
        match merge.step(source, item) {
            MergeAction::Emit(x) => emitted.push(x),
            MergeAction::Report(_) => handled += 1,
            MergeAction::Pending => {}
            MergeAction::Finished => finished = true,
        }
    }
    assert_eq!(handled, 1);
    assert_eq!(emitted, vec![1, 2, 3, 4, 5]);
    assert!(finished);
    assert!(merge.is_finished());
}

#[test]
fn ended_source_is_ignored() {
    let mut merge = SelectAll::new(2);
    assert!(matches!(merge.step::<u32, ()>(0, SourceItem::Ended), MergeAction::Pending));
    assert!(matches!(merge.step::<u32, ()>(0, SourceItem::Item(9)), MergeAction::Pending));
    assert!(!merge.is_finished());
    assert!(matches!(merge.step::<u32, ()>(1, SourceItem::Ended), MergeAction::Finished));
}

fn sub(base: &str) -> Subscription {
    Subscription::new(ExchangeId::BinanceFuturesUsd, base, "usdt", InstrumentKind::Perpetual, Tikers)
}

#[test]
fn one_call_one_connection() {
    let mut together = StreamBuilder::new();
    together.subscribe(vec![sub("btc"), sub("eth")]);
    assert_eq!(together.connection_count(), 1);
    assert_eq!(together.init().len(), 1);

    let mut apart = StreamBuilder::new();
    apart.subscribe(vec![sub("btc")]);
    apart.subscribe(vec![sub("eth")]);
    assert_eq!(apart.connection_count(), 2);
    let conns = apart.init();
    assert_eq!(conns.len(), 2);
    assert_eq!(conns[0].keys[0].as_str(), "@tiker|BTCUSDT");
    assert_eq!(conns[1].keys[0].as_str(), "@tiker|ETHUSDT");
}

#[test]
fn end_to_end_two_instruments_one_source() {
    let mut builder = StreamBuilder::new();
    builder.subscribe(vec![sub("btc"), sub("eth")]);
    let conns = builder.init();
    assert_eq!(conns.len(), 1);
    let conn = &conns[0];
    let received = UtcInstant::from_epoch_ms(1749354826000);
    for (symbol, base) in [("BTCUSDT", "btc"), ("ETHUSDT", "eth")] {
        match conn.handle(&wire(symbol), received) {
            Inbound::Event(e) => {
                assert_eq!(e.instrument.base, base);
                assert_eq!(e.instrument.quote, "usdt");
                assert_eq!(e.instrument.kind, InstrumentKind::Perpetual);
                assert_eq!(e.exchange, ExchangeId::BinanceFuturesUsd);
                assert_eq!(e.exchange_time.epoch_ms, 1749354825200);
                assert_eq!(e.kind.close_time.epoch_ms, 1749354825200);
            }
            _ => panic!("expected an event for {}", symbol),
        }
    }
}

#[test]
fn unrouted_and_rejected_messages_are_dropped() {
    let mut builder = StreamBuilder::new();
    builder.subscribe(vec![sub("btc")]);
    let conns = builder.init();
    let received = UtcInstant::from_epoch_ms(0);
    match conns[0].handle(&wire("SOLUSDT"), received) {
        Inbound::Unrouted(k) => assert_eq!(k.as_str(), "@tiker|SOLUSDT"),
        _ => panic!("expected an unrouted message"),
    }
    let mut bad = wire("BTCUSDT");
    bad.volume = "x".to_string();
    assert!(matches!(
        conns[0].handle(&bad, received),
        Inbound::Rejected(DecodeError::NotNumeric(TikerField::Volume))
    ));
    assert_eq!(conns[0].route(&SubscriptionId::derive(TICKERS_CHANNEL, "btcusdt")), Some(0));
}

#[test]
fn names_are_stable() {
    assert_eq!(Tikers.as_str(), "tikers");
    assert_eq!(ExchangeId::BinanceFuturesUsd.as_str(), "binance_futures_usd");
    assert_eq!(ExchangeId::BinanceSpot.as_str(), "binance_spot");
}

#[test]
fn decode_reports_first_bad_field() {
    let mut w = wire("ETHUSDT");
    w.low_price = "low".to_string();
    w.last_qty = "qty".to_string();
    w.open_time = u64::MAX;
    assert!(matches!(
        BinanceTiker::decode(&w),
        Err(DecodeError::NotNumeric(TikerField::LastQty))
    ));
    let mut w = wire("ETHUSDT");
    w.open_time = u64::MAX;
    w.close_time = u64::MAX;
    assert!(matches!(
        BinanceTiker::decode(&w),
        Err(DecodeError::TimeOutOfRange(TikerField::OpenTime))
    ));
}
