use ccxt_rust::dec::Dec;
use ccxt_rust::novadax::{Novadax, NovadaxFill, NovadaxKline, NovadaxMarket, NovadaxOrder, NovadaxTicker};
use ccxt_rust::types::{
    CcxtError, ExchangeConfig, ExchangeId, OrderSide, OrderStatus, OrderType, TakerOrMaker, Timeframe,
};

fn d(s: &str) -> Dec {
    Dec::parse(s).unwrap()
}

fn value(x: Option<Dec>) -> Option<rust_decimal::Decimal> {
    x.map(|v| rust_decimal::Decimal::from_i128_with_scale(v.mantissa, v.scale))
}

fn ticker(id: &str, last: &str, open: &str) -> NovadaxTicker {
    NovadaxTicker {
        symbol: id.to_string(),
        last_price: Some(last.to_string()),
        bid: Some("99".to_string()),
        ask: None,
        high_24h: None,
        low_24h: None,
        open_24h: Some(open.to_string()),
        base_volume_24h: None,
        quote_volume_24h: None,
        timestamp: Some(1609459200000),
    }
}

#[test]
fn novadax_exchange_info_and_units() {
    let ex = Novadax::new(ExchangeConfig::new()).unwrap();
    assert_eq!(ex.id(), ExchangeId::Novadax);
    assert_eq!(ex.name(), "NovaDAX");
    assert!(ex.has().spot);
    assert_eq!(ex.get_timeframe_unit(Timeframe::Minute30), "HALF_HOU");
    assert_eq!(ex.get_timeframe_unit(Timeframe::Hour4), "ONE_MIN");
}

#[test]
fn novadax_order_status_words() {
    let ex = Novadax::new(ExchangeConfig::new()).unwrap();
    assert_eq!(ex.parse_order_status("PARTIAL_FILLED"), OrderStatus::Open);
    assert_eq!(ex.parse_order_status("FILLED"), OrderStatus::Closed);
    assert_eq!(ex.parse_order_status("CANCELED"), OrderStatus::Canceled);
    assert_eq!(ex.parse_order_status("REJECTED"), OrderStatus::Rejected);
}

#[test]
fn novadax_response_codes() {
    assert!(Novadax::handle_response(Some("A10000"), None).is_ok());
    assert!(matches!(Novadax::handle_response(Some("A10003"), Some("bad key")), Err(CcxtError::AuthenticationError { .. })));
    assert!(matches!(Novadax::handle_response(Some("A30001"), None), Err(CcxtError::OrderNotFound { .. })));
    match Novadax::handle_response(Some("B1"), Some("odd")) {
        Err(CcxtError::ExchangeError { message }) => assert_eq!(message, "B1: odd"),
        _ => panic!("expected exchange error"),
    }
    match Novadax::handle_response(None, None) {
        Err(CcxtError::ExchangeError { message }) => assert_eq!(message, ": Unknown error"),
        _ => panic!("expected exchange error"),
    }
}

#[test]
fn novadax_ticker_change_and_percentage() {
    let t = Novadax::parse_ticker(&ticker("BTC_BRL", "110", "100"), "BTC/BRL");
    assert_eq!(value(t.change), value(Some(d("10"))));
    assert_eq!(value(t.percentage), value(Some(d("10"))));
    assert_eq!(t.close, Some(d("110")));
    let z = Novadax::parse_ticker(&ticker("BTC_BRL", "110", "0"), "BTC/BRL");
    assert_eq!(z.change, None);
    assert_eq!(z.percentage, None);
}

#[test]
fn novadax_tickers_keyed_and_filtered() {
    let rows = vec![ticker("BTC_BRL", "1", "1"), ticker("ETH_BRL", "2", "1"), ticker("BTC_BRL", "3", "1")];
    let all = Novadax::parse_tickers(&rows, None);
    assert_eq!(all.len(), 2);
    assert_eq!(all[0].0, "BTC/BRL");
    assert_eq!(all[0].1.last, Some(d("3")));
    let only = vec!["ETH/BRL".to_string()];
    let some = Novadax::parse_tickers(&rows, Some(&only));
    assert_eq!(some.len(), 1);
    assert_eq!(some[0].0, "ETH/BRL");
    assert_eq!(Novadax::symbol_of_id("BTC_BRL"), "BTC/BRL");
    assert_eq!(Novadax::symbol_of_id("ODD"), "ODD");
}

#[test]
fn novadax_order_and_fill() {
    let ex = Novadax::new(ExchangeConfig::new()).unwrap();
    let o = NovadaxOrder {
        id: Some("o1".to_string()),
        symbol: Some("BTC_BRL".to_string()),
        order_type: Some("MARKET".to_string()),
        side: Some("buy".to_string()),
        price: None,
        average_price: Some("100".to_string()),
        amount: Some("2".to_string()),
        filled_amount: Some("0.5".to_string()),
        value: None,
        filled_value: Some("50".to_string()),
        filled_fee: Some("0.1".to_string()),
        status: Some("PROCESSING".to_string()),
        timestamp: Some(1609459200000),
        stop_price: None,
    };
    let r = ex.parse_orders(&vec![o]);
    assert_eq!(r[0].symbol, "BTC/BRL");
    assert_eq!(r[0].order_type, OrderType::Market);
    assert_eq!(r[0].side, OrderSide::Buy);
    assert_eq!(r[0].remaining, Some(d("1.5")));
    assert_eq!(r[0].fee.as_ref().unwrap().cost, Some(d("0.1")));
    let f = NovadaxFill {
        id: None,
        order_id: Some("o1".to_string()),
        symbol: None,
        side: Some("SELL".to_string()),
        amount: Some("2".to_string()),
        price: Some("3".to_string()),
        fee: None,
        fee_amount: Some("0.01".to_string()),
        fee_currency: Some("BRL".to_string()),
        role: Some("MAKER".to_string()),
        timestamp: Some(42),
    };
    let t = Novadax::parse_fill(&f, "ETH/BRL");
    assert_eq!(t.id, "42");
    assert_eq!(t.symbol, "ETH/BRL");
    assert_eq!(t.taker_or_maker, Some(TakerOrMaker::Maker));
    assert_eq!(value(t.cost), value(Some(d("6"))));
    assert_eq!(t.fee.unwrap().currency.as_deref(), Some("BRL"));
}

#[test]
fn novadax_private_get_sorts_query() {
    let cfg = ExchangeConfig::new()
        .with_api_key("k".to_string())
        .with_api_secret("s".to_string());
    let ex = Novadax::new(cfg).unwrap();
    let params = vec![("symbol".to_string(), "BTC_BRL".to_string()), ("limit".to_string(), "10".to_string())];
    let r = ex.sign("orders/list", "private", "GET", &params, None, 1700000000000);
    assert_eq!(r.url, "https://api.novadax.com/v1/orders/list?limit=10&symbol=BTC_BRL");
    assert_eq!(r.headers[1].1, "1700000000000");
    assert_eq!(r.headers[2].1.len(), 64);
    let p = ex.sign("orders/create", "private", "POST", &vec![], Some("{\"a\":1}"), 1);
    assert_eq!(p.body.as_deref(), Some("{\"a\":1}"));
    assert_eq!(p.headers[3].0, "X-Nova-Signature");
    let public = ex.sign("market/tickers", "public", "GET", &vec![], None, 1);
    assert_eq!(public.url, "https://api.novadax.com/v1/market/tickers");
}

#[test]
fn novadax_order_params() {
    let mut ex = Novadax::new(ExchangeConfig::new()).unwrap();
    assert!(matches!(
        ex.create_order_params("BTC/BRL", OrderType::Limit, OrderSide::Buy, d("1"), None),
        Err(CcxtError::BadSymbol { .. })
    ));
    let m = Novadax::parse_markets(&vec![ccxt_rust::novadax::NovadaxMarket {
        symbol: "BTC_BRL".to_string(),
        base_currency: "BTC".to_string(),
        quote_currency: "BRL".to_string(),
        amount_precision: None,
        price_precision: Some(2),
        min_order_amount: Some("0.001".to_string()),
        min_order_value: None,
        status: Some("ONLINE".to_string()),
    }]);
    assert_eq!(m[0].precision.amount, Some(8));
    ex.store_markets(&m);
    let p = ex.create_order_params("BTC/BRL", OrderType::Market, OrderSide::Buy, d("2"), Some(d("3"))).unwrap();
    assert_eq!(p[2], ("value".to_string(), "6".to_string()));
    assert_eq!(p[3], ("type".to_string(), "MARKET".to_string()));
    assert!(matches!(
        ex.create_order_params("BTC/BRL", OrderType::Limit, OrderSide::Buy, d("1"), None),
        Err(CcxtError::BadRequest { .. })
    ));
    assert!(matches!(
        ex.create_order_params("BTC/BRL", OrderType::StopLoss, OrderSide::Buy, d("1"), None),
        Err(CcxtError::NotSupported { ref feature }) if feature == "Order type StopLoss"
    ));
    let w = ex.ohlcv_params("BTC/BRL", Timeframe::Hour1, Some(3_600_000), Some(2), 0).unwrap();
    assert_eq!(w[2].1, "3600");
    assert_eq!(w[3].1, "10800");
    let l = ex.list_params(Some("FILLED"), Some("BTC/BRL"), None, Some(5)).unwrap();
    assert_eq!(l.len(), 3);
    assert_eq!(l[1].1, "BTC_BRL");
}

#[test]
fn novadax_timeframe_table() {
    let n = Novadax::new(ExchangeConfig::default()).unwrap();
    let t = n.timeframes();
    let keys: Vec<Timeframe> = t.iter().map(|(k, _)| *k).collect();
    assert_eq!(
        keys,
        vec![
            Timeframe::Minute1,
            Timeframe::Minute5,
            Timeframe::Minute15,
            Timeframe::Minute30,
            Timeframe::Hour1,
            Timeframe::Day1,
            Timeframe::Week1,
            Timeframe::Month1,
        ]
    );
    for (k, v) in t.iter() {
        assert_eq!(*v, n.get_timeframe_unit(*k));
    }
}

#[test]
fn novadax_market_list_keeps_base_and_quote() {
    let rows = vec![NovadaxMarket {
        symbol: "BTC_BRL".to_string(),
        base_currency: "BTC".to_string(),
        quote_currency: "BRL".to_string(),
        amount_precision: Some(4),
        price_precision: None,
        min_order_amount: Some("0.001".to_string()),
        min_order_value: Some("5".to_string()),
        status: Some("ONLINE".to_string()),
    }];
    let m = &Novadax::parse_markets(&rows)[0];
    assert_eq!(m.base, "BTC");
    assert_eq!(m.quote, "BRL");
    assert_eq!(m.symbol, "BTC/BRL");
    assert_eq!(m.precision.amount, Some(4));
    assert_eq!(m.precision.price, Some(8));
    assert_eq!(m.limits.amount.min, Some(d("0.001")));
    assert!(m.active);
}

#[test]
fn novadax_repeated_symbol_keeps_last_market() {
    let row = |id: &str| NovadaxMarket {
        symbol: id.to_string(),
        base_currency: "BTC".to_string(),
        quote_currency: "BRL".to_string(),
        amount_precision: None,
        price_precision: None,
        min_order_amount: None,
        min_order_value: None,
        status: Some("ONLINE".to_string()),
    };
    let mut n = Novadax::new(ExchangeConfig::default()).unwrap();
    let markets = Novadax::parse_markets(&vec![row("BTC_BRL"), row("BTCBRL")]);
    n.store_markets(&markets);
    assert_eq!(n.market_id("BTC/BRL"), Some("BTCBRL".to_string()));
    assert_eq!(n.symbol("BTC_BRL"), Some("BTC/BRL".to_string()));
}

#[test]
fn novadax_urls() {
    let n = Novadax::new(ExchangeConfig::default()).unwrap();
    let u = n.urls();
    assert_eq!(u.www, Some("https://www.novadax.com.br".to_string()));
    assert_eq!(u.api[0], ("public".to_string(), "https://api.novadax.com".to_string()));
    assert_eq!(u.doc, vec!["https://doc.novadax.com/pt-BR/".to_string()]);
}

#[test]
fn novadax_kline_seconds_become_millis() {
    let k = NovadaxKline {
        open_price: Some(d("1")),
        high_price: Some(d("2")),
        low_price: None,
        close_price: Some(d("1.5")),
        amount: Some(d("10")),
        vol: None,
        score: Some(1_700_000_000),
    };
    assert!(Novadax::kline_fits(&k));
    let c = Novadax::parse_kline(&k);
    assert_eq!(c.timestamp, 1_700_000_000_000);
    assert_eq!(c.low, Dec::zero());
    assert_eq!(c.volume, d("10"));
    let far = NovadaxKline { score: Some(i64::MAX / 10), ..k };
    assert!(!Novadax::kline_fits(&far));
}
