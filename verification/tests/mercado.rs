use ccxt_rust::dec::Dec;
use ccxt_rust::mercado::{
    Mercado, MercadoBalanceInfo, MercadoOrderDetail, MercadoTrade, MERCADO_BASE_URL,
};
use ccxt_rust::types::{
    CcxtError, ExchangeConfig, ExchangeId, OrderSide, OrderStatus, OrderType, Timeframe,
};

fn d(s: &str) -> Dec {
    Dec::parse(s).unwrap()
}

#[test]
fn mercado_test_exchange_info() {
    let config = ExchangeConfig::new();
    let exchange = Mercado::new(config).unwrap();
    assert_eq!(exchange.id(), ExchangeId::Mercado);
    assert_eq!(exchange.name(), "Mercado Bitcoin");
    assert!(exchange.has().spot);
    assert!(exchange.has().fetch_ohlcv);
}

#[test]
fn mercado_test_symbol_conversion() {
    let config = ExchangeConfig::new();
    let exchange = Mercado::new(config).unwrap();
    assert_eq!(exchange.convert_to_market_id("BTC/BRL"), "BTC");
    assert_eq!(exchange.convert_to_market_id("ETH/BRL"), "ETH");
}

#[test]
fn mercado_market_id_is_upper_case_base() {
    let exchange = Mercado::new(ExchangeConfig::new()).unwrap();
    assert_eq!(exchange.convert_to_market_id("doge/brl"), "DOGE");
    assert_eq!(exchange.convert_to_market_id("SOL"), "SOL");
}

#[test]
fn mercado_markets_are_brl_pairs() {
    let mut exchange = Mercado::new(ExchangeConfig::new()).unwrap();
    let markets = exchange.fetch_markets();
    assert_eq!(markets.len(), 15);
    assert_eq!(markets[0].symbol, "BTC/BRL");
    assert_eq!(markets[14].id, "DOGE");
    assert_eq!(markets[0].taker, Some(d("0.007")));
    exchange.store_markets(&markets);
    assert_eq!(exchange.market_id("ETH/BRL").as_deref(), Some("ETH"));
    assert_eq!(exchange.symbol("LTC").as_deref(), Some("LTC/BRL"));
    assert!(exchange.symbol("XYZ").is_none());
}

#[test]
fn mercado_levels_skip_short_rows_and_limit() {
    let rows = vec![vec![d("1"), d("2")], vec![d("3")], vec![d("4"), d("5")], vec![d("6"), d("7")]];
    let all = Mercado::parse_levels(&rows, None);
    assert_eq!(all.len(), 3);
    assert_eq!(all[1].price, d("4"));
    let two = Mercado::parse_levels(&rows, Some(2));
    assert_eq!(two.len(), 2);
    assert_eq!(two[1].amount, d("5"));
}

#[test]
fn mercado_trades_in_milliseconds_and_limited() {
    let t = |tid: i64| MercadoTrade {
        tid,
        date: 1609459200,
        price: d("100.5"),
        amount: d("0.1"),
        trade_type: "buy".to_string(),
    };
    let rows: Vec<MercadoTrade> = (0..5).map(t).collect();
    let r = Mercado::parse_trades(&rows, "BTC/BRL", Some(3));
    assert_eq!(r.len(), 3);
    assert_eq!(r[2].id, "2");
    assert_eq!(r[0].timestamp, Some(1609459200000));
    assert_eq!(r[0].datetime.as_deref(), Some("2021-01-01T00:00:00+00:00"));
    assert_eq!(r[0].side.as_deref(), Some("buy"));
    assert_eq!(Mercado::parse_trades(&rows, "BTC/BRL", None).len(), 5);
}

#[test]
fn mercado_balance_used_is_total_minus_free() {
    let entries = vec![
        ("btc".to_string(), MercadoBalanceInfo { available: Some(d("1.5")), total: Some(d("2")) }),
        ("brl".to_string(), MercadoBalanceInfo { available: None, total: Some(d("10")) }),
    ];
    let b = Mercado::parse_balance(&entries, 1609459200000);
    let btc = b.get("BTC").unwrap();
    assert_eq!(btc.free, Some(d("1.5")));
    assert_eq!(btc.used, Some(d("0.5")));
    assert_eq!(btc.total, Some(d("2")));
    let brl = b.get("BRL").unwrap();
    assert_eq!(brl.used, Some(d("10")));
    assert!(b.get("btc").is_none());
    assert_eq!(b.timestamp, Some(1609459200000));
}

#[test]
fn mercado_order_requests() {
    let exchange = Mercado::new(ExchangeConfig::new()).unwrap();
    let r = exchange.create_order_request("BTC/BRL", OrderType::Market, OrderSide::Buy, d("1"), None);
    assert!(matches!(r, Err(CcxtError::NotSupported { .. })));
    let r = exchange.create_order_request("BTC/BRL", OrderType::Limit, OrderSide::Buy, d("1"), None);
    assert!(matches!(r, Err(CcxtError::ArgumentsRequired { .. })));
    let (method, p) = exchange
        .create_order_request("ETH/BRL", OrderType::Limit, OrderSide::Sell, d("0.5"), Some(d("12000.10")))
        .unwrap();
    assert_eq!(method, "place_sell_order");
    assert_eq!(p[0], ("coin_pair".to_string(), "BRLETH".to_string()));
    assert_eq!(p[1], ("quantity".to_string(), "0.5".to_string()));
    assert_eq!(p[2], ("limit_price".to_string(), "12000.10".to_string()));
}

#[test]
fn mercado_order_detail_status_and_remaining() {
    let o = MercadoOrderDetail {
        order_id: Some(42),
        created_timestamp: Some(1609459200000),
        order_type: Some(2),
        limit_price: Some(d("100")),
        quantity: Some(d("3")),
        executed_quantity: Some(d("1")),
        status: Some(3),
    };
    let r = Mercado::parse_order_detail(&o, Some("42"), None, "BTC/BRL", 0);
    assert_eq!(r.status, OrderStatus::Canceled);
    assert_eq!(r.side, OrderSide::Sell);
    assert_eq!(r.remaining, Some(d("2")));
    assert_eq!(r.id, "42");
    let list = Mercado::parse_open_orders(&vec![o], None, 0);
    assert_eq!(list[0].symbol, "BTC/BRL");
    assert_eq!(list[0].status, OrderStatus::Open);
    assert_eq!(Mercado::parse_status(Some(4)), OrderStatus::Closed);
    assert_eq!(Mercado::parse_status(None), OrderStatus::Open);
}

#[test]
fn mercado_candle_request_needs_known_timeframe() {
    let exchange = Mercado::new(ExchangeConfig::new()).unwrap();
    match exchange.ohlcv_request("BTC/BRL", Timeframe::Week1, None) {
        Err(CcxtError::NotSupported { feature }) => assert_eq!(feature, "Timeframe Week1"),
        other => panic!("unexpected {:?}", other),
    }
    let (path, p) = exchange.ohlcv_request("BTC/BRL", Timeframe::Hour4, Some(50)).unwrap();
    assert_eq!(path, "/BTC/candles");
    assert_eq!(p[0].1, "4h");
    assert_eq!(p[1], ("limit".to_string(), "50".to_string()));
}

#[test]
fn mercado_tapi_request_signature() {
    let none = Mercado::new(ExchangeConfig::new()).unwrap();
    assert!(none.tapi_request("get_account_info", &vec![], 1).is_err());
    let cfg = ExchangeConfig::new()
        .with_api_key("id".to_string())
        .with_api_secret("secret".to_string());
    let ex = Mercado::new(cfg).unwrap();
    let req = ex.tapi_request("get_account_info", &vec![], 1700000000000).unwrap();
    assert_eq!(req.url, format!("{}/tapi/v3/", MERCADO_BASE_URL));
    assert_eq!(req.body.as_deref(), Some("tapi_method=get_account_info&tapi_nonce=1700000000000"));
    assert_eq!(req.headers[0], ("TAPI-ID".to_string(), "id".to_string()));
    assert_eq!(req.headers[1].1.len(), 128);
    assert_ne!(req.headers[1].1, "tapi_method=get_account_info&tapi_nonce=1700000000000");
}
