use ccxt_rust::dec::Dec;
use ccxt_rust::luno::{Luno, LunoBalance, LunoOrder, LunoTicker, LunoTrade};
use ccxt_rust::types::{
    CcxtError, ExchangeConfig, ExchangeId, OrderSide, OrderStatus, TakerOrMaker, Timeframe,
};

fn d(s: &str) -> Dec {
    Dec::parse(s).unwrap()
}

#[test]
fn luno_test_symbol_conversion() {
    let config = ExchangeConfig::new();
    let luno = Luno::new(config).unwrap();

    assert_eq!(luno.to_market_id("BTC/ZAR"), "BTCZAR");
    assert_eq!(luno.to_market_id("XBT/ZAR"), "XBTZAR");
}

#[test]
fn luno_test_exchange_info() {
    let config = ExchangeConfig::new();
    let luno = Luno::new(config).unwrap();

    assert_eq!(luno.id(), ExchangeId::Luno);
    assert_eq!(luno.name(), "Luno");
    assert!(luno.has().spot);
    assert!(!luno.has().margin);
    assert!(!luno.has().swap);
}

#[test]
fn luno_parse_ticker_reads_prices() {
    let luno = Luno::new(ExchangeConfig::new()).unwrap();
    let t = LunoTicker {
        pair: "XBTZAR".to_string(),
        timestamp: 1609459200000,
        bid: "42000".to_string(),
        ask: "42001".to_string(),
        last_trade: "42000.5".to_string(),
        rolling_24_hour_volume: "12.5".to_string(),
        status: "ACTIVE".to_string(),
    };
    let r = luno.parse_ticker(&t, "BTC/ZAR");
    assert_eq!(r.symbol, "BTC/ZAR");
    assert_eq!(r.bid, Some(d("42000")));
    assert_eq!(r.ask, Some(d("42001")));
    assert_eq!(r.last, Some(d("42000.5")));
    assert_eq!(r.base_volume, Some(d("12.5")));
    assert_eq!(r.datetime.as_deref(), Some("2021-01-01T00:00:00+00:00"));
}

fn order(state: &str, typ: &str) -> LunoOrder {
    LunoOrder {
        order_id: "BXMC2CJ7HNB88U4".to_string(),
        creation_timestamp: 1367849297609,
        completed_timestamp: Some(1367849297700),
        expiration_timestamp: None,
        order_type: typ.to_string(),
        state: state.to_string(),
        limit_price: Some("1000.00".to_string()),
        limit_volume: Some("0.80".to_string()),
        base: Some("0.30".to_string()),
        counter: Some("300.00".to_string()),
        fee_base: Some("0.01".to_string()),
        fee_counter: None,
        pair: "XBTZAR".to_string(),
    }
}

#[test]
fn luno_parse_order_remaining_and_status() {
    let luno = Luno::new(ExchangeConfig::new()).unwrap();
    let o = luno.parse_order(&order("PENDING", "BID"), "BTC/ZAR");
    assert_eq!(o.status, OrderStatus::Open);
    assert_eq!(o.side, OrderSide::Buy);
    assert_eq!(o.amount, d("0.80"));
    assert_eq!(o.filled, d("0.30"));
    assert_eq!(o.remaining, Some(d("0.50")));
    assert_eq!(o.fee.unwrap().cost, Some(d("0.01")));
    let c = luno.parse_order(&order("COMPLETE", "ASK"), "BTC/ZAR");
    assert_eq!(c.status, OrderStatus::Closed);
    assert_eq!(c.side, OrderSide::Sell);
}

#[test]
fn luno_parse_balance_sums() {
    let luno = Luno::new(ExchangeConfig::new()).unwrap();
    let b = vec![LunoBalance {
        asset: "XBT".to_string(),
        balance: "1.5".to_string(),
        reserved: "0.25".to_string(),
        unconfirmed: "0.5".to_string(),
    }];
    let r = luno.parse_balance(&b);
    let x = r.get("XBT").unwrap();
    assert_eq!(x.total, Some(d("2.0")));
    assert_eq!(x.used, Some(d("0.75")));
    assert_eq!(x.free, Some(d("1.25")));
    assert!(r.get("ZAR").is_none());
}

#[test]
fn luno_parse_trade_maker_flag() {
    let luno = Luno::new(ExchangeConfig::new()).unwrap();
    let t = LunoTrade {
        sequence: Some(7),
        timestamp: 1609459200000,
        price: "100".to_string(),
        volume: None,
        is_buy: Some(true),
        pair: None,
        order_id: Some("o1".to_string()),
        order_type: Some("ASK".to_string()),
        base: Some("2".to_string()),
        counter: Some("200".to_string()),
        fee_base: Some("0".to_string()),
        fee_counter: Some("1".to_string()),
    };
    let r = luno.parse_trade(&t, "BTC/ZAR");
    assert_eq!(r.id, "7");
    assert_eq!(r.side.as_deref(), Some("sell"));
    assert_eq!(r.taker_or_maker, Some(TakerOrMaker::Maker));
    assert_eq!(r.amount, d("2"));
    assert!(r.fee.is_none());
}

#[test]
fn luno_sign_private_basic_auth() {
    let cfg = ExchangeConfig::new()
        .with_api_key("key".to_string())
        .with_api_secret("secret".to_string());
    let luno = Luno::new(cfg).unwrap();
    let params = vec![("pair".to_string(), "XBT ZAR".to_string())];
    let r = luno.sign("/1/balance", "private", "GET", &params);
    assert_eq!(r.url, "https://api.luno.com/api/1/balance?pair=XBT%20ZAR");
    assert_eq!(r.headers[0].1, "Basic a2V5OnNlY3JldA==");
}

#[test]
fn luno_unsupported_timeframe_names_it() {
    let luno = Luno::new(ExchangeConfig::new()).unwrap();
    match luno.ohlcv_params("BTC/ZAR", Timeframe::Hour2, None, 1_700_000_000_000) {
        Err(CcxtError::BadRequest { message }) => {
            assert_eq!(message, "Unsupported timeframe: Hour2")
        }
        other => panic!("unexpected {:?}", other),
    }
    let p = luno.ohlcv_params("BTC/ZAR", Timeframe::Hour1, Some(1000), 0).unwrap();
    assert_eq!(p[1], ("duration".to_string(), "3600".to_string()));
}
