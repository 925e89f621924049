use ccxt_rust::dec::Dec;
use ccxt_rust::oxfun::{Oxfun, OxfunBalance, OxfunCandle, OxfunMarket, OxfunOrder, OxfunTicker, OxfunTrade};
use ccxt_rust::types::{
    CcxtError, ExchangeConfig, ExchangeId, MarketType, OrderSide, OrderStatus, OrderType, TakerOrMaker, Timeframe,
};

fn d(s: &str) -> Dec {
    Dec::parse(s).unwrap()
}

fn create_test_exchange() -> Oxfun {
    let config = ExchangeConfig::default()
        .with_api_key("test_key".to_string())
        .with_api_secret("test_secret".to_string());
    Oxfun::new(config).unwrap()
}

#[test]
fn test_oxfun_creation() {
    let exchange = create_test_exchange();
    assert_eq!(exchange.id(), ExchangeId::Oxfun);
    assert_eq!(exchange.name(), "OX.FUN");
}

#[test]
fn test_has() {
    let exchange = create_test_exchange();
    let features = exchange.has();
    assert!(features.fetch_ticker);
    assert!(features.fetch_order_book);
    assert!(features.fetch_trades);
    assert!(features.fetch_ohlcv);
    assert!(features.fetch_balance);
    assert!(features.create_order);
    assert!(features.cancel_order);
}

#[test]
fn test_urls() {
    let exchange = create_test_exchange();
    let urls = exchange.urls();
    assert!(urls.api.iter().any(|(k, _)| k == "public"));
    assert!(urls.api.iter().any(|(k, _)| k == "private"));
    assert_eq!(
        urls.api.iter().find(|(k, _)| k == "public").map(|(_, v)| v),
        Some(&"https://api.ox.fun".to_string())
    );
}

#[test]
fn test_timeframes() {
    let exchange = create_test_exchange();
    let timeframes = exchange.timeframes();
    let get = |tf: Timeframe| timeframes.iter().find(|(t, _)| *t == tf).map(|(_, s)| s.to_string());
    assert!(get(Timeframe::Minute1).is_some());
    assert!(get(Timeframe::Hour1).is_some());
    assert!(get(Timeframe::Day1).is_some());
    assert_eq!(get(Timeframe::Minute1), Some("60".to_string()));
    assert_eq!(get(Timeframe::Hour1), Some("3600".to_string()));
}

#[test]
fn oxfun_test_exchange_info() {
    let exchange = create_test_exchange();
    assert_eq!(exchange.name(), "OX.FUN");
    assert!(exchange.urls().doc.contains(&"https://docs.ox.fun/".to_string()));
}

#[test]
fn oxfun_test_parse_order_status() {
    let exchange = create_test_exchange();

    let open_order = OxfunOrder {
        order_id: Some("123".to_string()),
        client_order_id: None,
        market_code: Some("BTC-USD".to_string()),
        side: Some("BUY".to_string()),
        order_type: Some("LIMIT".to_string()),
        quantity: Some("1.0".to_string()),
        price: Some("50000".to_string()),
        stop_price: None,
        filled: Some("0".to_string()),
        remaining: Some("1.0".to_string()),
        status: Some("OPEN".to_string()),
        created_at: Some(1700000000000),
        time_in_force: Some("GTC".to_string()),
    };

    let order = exchange.parse_order(&open_order);
    assert_eq!(order.status, OrderStatus::Open);
    assert_eq!(order.side, OrderSide::Buy);
    assert_eq!(order.order_type, OrderType::Limit);
}

#[test]
fn test_safe_market_id() {
    let exchange = create_test_exchange();

    // Without cached markets, should just replace / with -
    assert_eq!(exchange.safe_market_id("BTC/USD"), "BTC-USD");
    assert_eq!(exchange.safe_market_id("ETH/USDT"), "ETH-USDT");
}

#[test]
fn test_safe_symbol() {
    let exchange = create_test_exchange();

    assert_eq!(exchange.safe_symbol("BTC-USD"), "BTC/USD");
    assert_eq!(exchange.safe_symbol("BTC-USD-SWAP-LIN"), "BTC/USD");
    assert_eq!(exchange.safe_symbol("ETH-USDT"), "ETH/USDT");
}

fn market(code: &str) -> OxfunMarket {
    OxfunMarket {
        market_code: code.to_string(),
        name: None,
        reference_pair: None,
        base: None,
        counter: None,
        market_type: None,
        tick_size: Some("0.5".to_string()),
        qty_increment: None,
        min_size: Some("0.001".to_string()),
        max_size: None,
        margin_currency: Some("OX".to_string()),
        contract_val_currency: None,
        listing_date: Some(1),
        status: Some("HALTED".to_string()),
    }
}

#[test]
fn oxfun_market_kinds_and_precision() {
    let swap = Oxfun::parse_market(&market("BTC-USD-SWAP-LIN"));
    assert_eq!(swap.symbol, "BTC/USD");
    assert_eq!(swap.market_type, MarketType::Swap);
    assert!(swap.contract && !swap.spot);
    assert_eq!(swap.linear, Some(true));
    assert_eq!(swap.inverse, Some(false));
    assert_eq!(swap.precision.price, Some(1));
    assert_eq!(swap.precision.amount, Some(8));
    assert!(!swap.active);
    let spot = Oxfun::parse_market(&OxfunMarket { status: None, ..market("ETH-USDT") });
    assert_eq!(spot.market_type, MarketType::Spot);
    assert_eq!(spot.inverse, Some(false));
    assert!(spot.active);
    assert_eq!(Oxfun::decimal_places(&d("12")), 0);
    assert_eq!(Oxfun::decimal_places(&d("0.0025")), 4);
}

#[test]
fn oxfun_ticker_trade_candle_balance() {
    let ex = create_test_exchange();
    let t = OxfunTicker {
        market_code: "BTC-USD-SWAP-LIN".to_string(),
        last_price: Some("110".to_string()),
        mark_price: None,
        high_24h: None,
        low_24h: None,
        volume_24h: Some("5".to_string()),
        base_volume_24h: None,
        open_24h: Some("100".to_string()),
        open_interest: None,
    };
    let r = ex.parse_ticker(&t, 42);
    assert_eq!(r.symbol, "BTC/USD");
    assert_eq!(r.timestamp, Some(42));
    assert_eq!(r.change, Some(d("10")));
    assert_eq!(r.quote_volume, Some(d("5")));
    let keyed = ex.parse_tickers(&vec![t.clone()], Some(&vec!["ETH/USD".to_string()]), 0);
    assert!(keyed.is_empty());
    let tr = Oxfun::parse_trade(
        &OxfunTrade {
            id: Some("m1".to_string()),
            timestamp: None,
            price: Some("3".to_string()),
            amount: Some("2".to_string()),
            side: Some("SELL".to_string()),
            match_type: Some("MAKER".to_string()),
        },
        "BTC/USD",
    );
    assert_eq!(tr.side.as_deref(), Some("sell"));
    assert_eq!(tr.taker_or_maker, Some(TakerOrMaker::Maker));
    assert_eq!(tr.cost, Some(d("6")));
    let c = Oxfun::parse_candles(&vec![
        OxfunCandle {
            timestamp: Some(1),
            open: Some("1".to_string()),
            high: Some("2".to_string()),
            low: Some("0.5".to_string()),
            close: Some("1.5".to_string()),
            volume: None,
            base_volume: Some("7".to_string()),
        },
        OxfunCandle { timestamp: None, open: None, high: None, low: None, close: None, volume: None, base_volume: None },
    ]);
    assert_eq!(c.len(), 1);
    assert_eq!(c[0].volume, d("7"));
    let b = Oxfun::parse_balance(
        &vec![
            OxfunBalance { currency: Some("OX".to_string()), total: Some("3".to_string()), available: None, reserved: Some("1".to_string()), updated_at: None },
            OxfunBalance { currency: None, total: None, available: None, reserved: None, updated_at: None },
        ],
        5,
    );
    assert_eq!(b.currencies.len(), 1);
    assert_eq!(b.get("OX").unwrap().free, Some(Dec::zero()));
}

#[test]
fn oxfun_requests_and_signing() {
    let ex = create_test_exchange();
    assert_eq!(ex.order_status_path("7", "BTC/USD"), "/v3/orders/status?marketCode=BTC-USD&orderId=7");
    assert_eq!(ex.open_orders_path(None), "/v3/orders/working");
    assert_eq!(ex.my_trades_path(Some("BTC/USD"), Some(5), Some(10)), "/v3/trades?marketCode=BTC-USD&startTime=5&limit=10");
    assert_eq!(ex.my_trades_path(None, None, None), "/v3/trades");
    let f = ex.order_fields("BTC/USD", OrderType::StopMarket, OrderSide::Sell, d("1"), None);
    assert_eq!(f[2].1, "LIMIT");
    let h = ex.auth_headers("GET", "/v3/balances", None, 0).unwrap();
    assert_eq!(h[2].1, "1970-01-01T00:00:00");
    assert_eq!(h[4].1, "0");
    assert_eq!(h[3].1.len(), 44);
    let none = Oxfun::new(ExchangeConfig::new()).unwrap();
    assert!(matches!(none.auth_headers("GET", "/", None, 0), Err(CcxtError::AuthenticationError { .. })));
    assert_eq!(none.generate_signature("a", "b", "c", "d", "e"), "");
    assert_eq!(Oxfun::check_method("post").unwrap(), "POST");
    assert!(Oxfun::check_method("PATCH").is_err());
    let s = ex.sign("/v3/orders/place", "POST", Some(vec![("X".to_string(), "1".to_string())]), Some("{}"), 0);
    assert_eq!(s.headers.len(), 6);
    assert_eq!(s.headers[0].0, "X");
}

#[test]
fn oxfun_candle_request_params() {
    let ex = create_test_exchange();
    let p = ex.ohlcv_params("BTC/USD", Timeframe::Hour1, Some(1_000), Some(50)).unwrap();
    assert_eq!(p[0], ("marketCode".to_string(), "BTC-USD".to_string()));
    assert_eq!(p[1].0, "timeframe");
    assert_eq!(p[2], ("startTime".to_string(), "1000".to_string()));
    assert_eq!(p[3], ("limit".to_string(), "50".to_string()));
    assert_eq!(ex.ohlcv_params("BTC/USD", Timeframe::Hour1, None, None).unwrap().len(), 2);
    match ex.ohlcv_params("BTC/USD", Timeframe::Minute3, None, None) {
        Err(CcxtError::NotSupported { feature }) => assert_eq!(feature, "Timeframe Minute3"),
        other => panic!("unexpected {:?}", other),
    }
}
