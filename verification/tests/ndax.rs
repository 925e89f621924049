use ccxt_rust::dec::Dec;
use ccxt_rust::json::Json;
use ccxt_rust::ndax::{Ndax, NdaxBalance, NdaxMarket, NdaxOrder, NdaxTrade};
use ccxt_rust::types::{
    CcxtError, ExchangeConfig, ExchangeId, OrderSide, OrderStatus, OrderType, Timeframe,
};

fn d(s: &str) -> Dec {
    Dec::parse(s).unwrap()
}

fn num(s: &str) -> Json {
    Json::Num(s.to_string())
}

#[test]
fn ndax_test_exchange_info() {
    let config = ExchangeConfig::new();
    let ndax = Ndax::new(config).unwrap();

    assert_eq!(ndax.id(), ExchangeId::Ndax);
    assert_eq!(ndax.name(), "NDAX");
    assert!(ndax.has().spot);
    assert!(!ndax.has().margin);
    assert!(!ndax.has().swap);
}

fn market() -> NdaxMarket {
    NdaxMarket {
        oms_id: 1,
        instrument_id: 74,
        symbol: "BTCCAD".to_string(),
        product1: 1,
        product1_symbol: "BTC".to_string(),
        product2: 6,
        product2_symbol: "CAD".to_string(),
        session_status: "Running".to_string(),
        is_disable: false,
        quantity_increment: Some(d("0.0001")),
        price_increment: Some(d("0.01")),
        minimum_quantity: Some(d("0.0001")),
        minimum_price: None,
    }
}

#[test]
fn ndax_market_precision_from_increments() {
    let m = Ndax::parse_market(&market());
    assert_eq!(m.id, "74");
    assert_eq!(m.symbol, "BTC/CAD");
    assert_eq!(m.base_id, "1");
    assert!(m.active);
    assert_eq!(m.precision.amount, Some(4));
    assert_eq!(m.precision.price, Some(2));
    assert_eq!(m.taker, Some(d("0.0025")));
    let mut halted = market();
    halted.session_status = "Paused".to_string();
    assert!(!Ndax::parse_market(&halted).active);
}

#[test]
fn ndax_order_status_words() {
    assert_eq!(Ndax::parse_status("Working"), OrderStatus::Open);
    assert_eq!(Ndax::parse_status("FullyExecuted"), OrderStatus::Closed);
    assert_eq!(Ndax::parse_status("Cancelled"), OrderStatus::Canceled);
    assert_eq!(Ndax::parse_status("Rejected"), OrderStatus::Rejected);
    assert_eq!(Ndax::parse_status("Expired"), OrderStatus::Expired);
    assert_eq!(Ndax::parse_status("Whatever"), OrderStatus::Open);
    let o = Ndax::parse_order(
        &NdaxOrder { status: "Accepted".to_string(), order_id: Some(9), client_order_id: Some(3) },
        Some("BTC/CAD"),
    );
    assert_eq!(o.id, "9");
    assert_eq!(o.client_order_id.as_deref(), Some("3"));
    assert_eq!(o.symbol, "BTC/CAD");
}

#[test]
fn ndax_trade_cost_and_side() {
    let t = NdaxTrade {
        trade_id: 5,
        price: "100.5".to_string(),
        quantity: "2".to_string(),
        side: 1,
        time_stamp: 1609459200000,
    };
    let r = Ndax::parse_trade(&t, "BTC/CAD");
    assert_eq!(r.side.as_deref(), Some("sell"));
    assert_eq!(r.cost, Some(d("201.0")));
    let bad = NdaxTrade { price: "x".to_string(), side: 0, ..t };
    let r = Ndax::parse_trade(&bad, "BTC/CAD");
    assert_eq!(r.price, Dec::zero());
    assert_eq!(r.side.as_deref(), Some("buy"));
}

#[test]
fn ndax_balance_skips_unnamed_and_subtracts() {
    let b = vec![
        NdaxBalance { product_symbol: Some("BTC".to_string()), amount: Some(d("1")), total: Some(d("1.5")) },
        NdaxBalance { product_symbol: None, amount: Some(d("9")), total: Some(d("9")) },
        NdaxBalance { product_symbol: Some("CAD".to_string()), amount: None, total: Some(d("10")) },
    ];
    let r = Ndax::parse_balance(&b);
    assert_eq!(r.currencies.len(), 2);
    assert_eq!(r.get("BTC").unwrap().used, Some(d("0.5")));
    assert_eq!(r.get("CAD").unwrap().used, Some(d("10")));
}

fn l2(seq: &str, ts: &str, price: &str, amount: &str, side: &str) -> Vec<Json> {
    vec![
        num(seq), num("0"), num(ts), num("0"), num("0"), num("0"),
        num(price), num("74"), num(amount), num(side),
    ]
}

#[test]
fn ndax_order_book_sorted_sides() {
    let levels = vec![
        l2("10", "1000", "100", "1", "0"),
        l2("12", "3000", "102", "2", "0"),
        l2("11", "2000", "105", "1", "1"),
        vec![num("99")],
        l2("9", "1500", "104", "3", "1"),
    ];
    let b = Ndax::parse_order_book(&levels, "BTC/CAD");
    assert_eq!(b.timestamp, Some(3000));
    assert_eq!(b.nonce, Some(12));
    assert_eq!(b.bids.len(), 2);
    assert_eq!(b.bids[0].price, d("102"));
    assert_eq!(b.asks[0].price, d("104"));
    assert_eq!(b.asks[1].price, d("105"));
}

#[test]
fn ndax_candles_skip_short_rows() {
    let rows = vec![
        vec![num("1000"), num("5"), num("1"), num("2"), num("4"), num("10")],
        vec![num("2000"), num("5")],
    ];
    let c = Ndax::parse_candles(&rows);
    assert_eq!(c.len(), 1);
    assert_eq!(c[0].open, d("2"));
    assert_eq!(c[0].high, d("5"));
    assert_eq!(c[0].low, d("1"));
}

#[test]
fn ndax_requests_need_known_market() {
    let mut ndax = Ndax::new(ExchangeConfig::new()).unwrap();
    let r = ndax.ohlcv_request("BTC/CAD", Timeframe::Hour1, None, None, 0);
    assert!(matches!(r, Err(CcxtError::BadSymbol { .. })));
    let markets = Ndax::parse_markets(&vec![market()]);
    ndax.store_markets(&markets);
    let r = ndax.ohlcv_request("BTC/CAD", Timeframe::Minute3, None, None, 0);
    assert!(matches!(r, Err(CcxtError::BadRequest { .. })));
    let p = ndax.ohlcv_request("BTC/CAD", Timeframe::Hour1, Some(0), Some(24), 0).unwrap();
    assert_eq!(p[1].1, "74");
    assert_eq!(p[2].1, "3600");
    assert_eq!(p[3].1, "1970-01-01T00:00:00");
    assert_eq!(p[4].1, "1970-01-02T00:00:00");
    let o = ndax
        .create_order_params("BTC/CAD", OrderType::Limit, OrderSide::Sell, d("0.5"), Some(d("50000")))
        .unwrap();
    assert_eq!(o.len(), 8);
    assert!(matches!(&o[1].1, Json::Num(t) if t == "74"));
    assert!(matches!(&o[4].1, Json::Num(t) if t == "1"));
    assert!(matches!(&o[6].1, Json::Num(t) if t == "2"));
    let e = ndax.create_order_params("BTC/CAD", OrderType::StopLimit, OrderSide::Sell, d("1"), None);
    assert!(matches!(e, Err(CcxtError::NotSupported { ref feature }) if feature == "Order type: StopLimit"));
    assert!(ndax.private_headers().is_err());
    ndax.session_token = Some("tok".to_string());
    assert_eq!(ndax.private_headers().unwrap()[1].1, "Bearer tok");
    let req = ndax.sign("/GetLevel1", "GET", &vec![("InstrumentId".to_string(), "74".to_string())]);
    assert_eq!(req.url, "https://api.ndax.io:8443/AP/GetLevel1?InstrumentId=74");
}
