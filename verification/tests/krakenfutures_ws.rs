use ccxt_rust::dec::Dec;
use ccxt_rust::krakenfutures_ws::{
    KfChallengeStep, KfFeed, KfWsBalance, KfWsBalanceItem, KfWsFill, KfWsFillItem, KfWsOrder,
    KfWsOrderBook, KfWsOrderBookEntry, KfWsPosition, KfWsPositionItem, KfWsTicker, KfWsTrade,
    KfWsTradeSnapshot, KrakenFuturesWs,
};
use ccxt_rust::types::{ExchangeConfig, OrderSide, OrderStatus, OrderType, PositionSide};

fn d(s: &str) -> Dec {
    Dec::parse(s).unwrap()
}

fn sd(s: &str) -> Option<Dec> {
    Some(d(s))
}

#[test]
fn test_to_market_id() {
    assert_eq!(KrakenFuturesWs::to_market_id("BTC/USD:USD"), "pi_xbtusd");
    assert_eq!(KrakenFuturesWs::to_market_id("ETH/USD:USD"), "pi_ethusd");
    assert_eq!(KrakenFuturesWs::to_market_id("BTC/USD:USD-240329"), "fi_xbtusd_240329");
}

#[test]
fn krakenfutures_ws_test_to_unified_symbol() {
    assert_eq!(KrakenFuturesWs::to_unified_symbol("PI_XBTUSD"), "BTC/USD:USD");
    assert_eq!(KrakenFuturesWs::to_unified_symbol("PI_ETHUSD"), "ETH/USD:USD");
    assert_eq!(KrakenFuturesWs::to_unified_symbol("FI_XBTUSD_240329"), "BTC/USD:USD-240329");
    assert_eq!(KrakenFuturesWs::to_unified_symbol("PF_XBTUSD"), "BTC/USD:USD");
}

#[test]
fn krakenfutures_ws_test_parse_ticker() {
    let ticker_data = KfWsTicker {
        feed: Some("ticker".to_string()),
        product_id: Some("PI_XBTUSD".to_string()),
        bid: sd("42000"),
        ask: sd("42001"),
        bid_size: sd("10"),
        ask_size: sd("5"),
        volume: sd("1000"),
        index: sd("42000.5"),
        last: sd("42000.5"),
        time: Some(1609459200000),
        change: sd("1.5"),
        mark_price: sd("42000"),
        volume_quote: None,
    };
    let event = KrakenFuturesWs::parse_ticker(&ticker_data, 0).unwrap();
    assert_eq!(event.symbol, "BTC/USD:USD");
    assert_eq!(event.ticker.bid, sd("42000"));
    assert_eq!(event.ticker.ask, sd("42001"));
}

#[test]
fn krakenfutures_ws_test_parse_trade() {
    let trade_data = KfWsTrade {
        feed: Some("trade".to_string()),
        product_id: Some("PI_XBTUSD".to_string()),
        uid: Some("abc123".to_string()),
        side: Some("buy".to_string()),
        trade_type: Some("fill".to_string()),
        seq: Some(12345),
        time: Some(1609459200000),
        qty: sd("1.5"),
        price: sd("42000"),
    };
    let trade = KrakenFuturesWs::parse_trade(&trade_data, 0).unwrap();
    assert_eq!(trade.symbol, "BTC/USD:USD");
    assert_eq!(trade.id, "abc123");
    assert_eq!(trade.side, Some("buy".to_string()));
    assert_eq!(trade.price, d("42000"));
}

#[test]
fn krakenfutures_ws_test_clone() {
    let config = ExchangeConfig::default()
        .with_api_key("test_key".to_string())
        .with_api_secret("dGVzdF9zZWNyZXQ=".to_string());
    let ws = KrakenFuturesWs::new(config);
    let cloned = ws.clone();
    assert!(cloned.subscriptions.is_empty());
    assert_eq!(cloned.config.api_key(), Some("test_key"));
}

#[test]
fn test_with_config() {
    let config = ExchangeConfig::default()
        .with_api_key("my_key".to_string())
        .with_api_secret("dGVzdF9zZWNyZXQ=".to_string());
    let ws = KrakenFuturesWs::with_config(config.clone());
    assert_eq!(ws.config.api_key(), Some("my_key"));
}

#[test]
fn krakenfutures_ws_test_parse_order_update() {
    let order_data = KfWsOrder {
        order_id: Some("order123".to_string()),
        cli_ord_id: Some("client123".to_string()),
        symbol: Some("PI_XBTUSD".to_string()),
        side: Some("buy".to_string()),
        order_type: Some("lmt".to_string()),
        limit_price: sd("42000"),
        stop_price: None,
        quantity: sd("1"),
        filled: sd("0.5"),
        reduce_only: Some(false),
        timestamp: Some(1609459200000),
        last_update_timestamp: Some(1609459201000),
        status: Some("open".to_string()),
        reason: None,
    };
    let event = KrakenFuturesWs::parse_order_update(&order_data, 0).unwrap();
    assert_eq!(event.order.symbol, "BTC/USD:USD");
    assert_eq!(event.order.id, "order123");
    assert_eq!(event.order.client_order_id, Some("client123".to_string()));
    assert_eq!(event.order.side, OrderSide::Buy);
    assert_eq!(event.order.order_type, OrderType::Limit);
    assert_eq!(event.order.status, OrderStatus::Open);
    assert_eq!(event.order.price, sd("42000"));
    assert_eq!(event.order.timestamp, Some(1609459201000));
    assert_eq!(event.order.remaining, sd("0.5"));
}

#[test]
fn krakenfutures_ws_test_parse_balance_update() {
    let balance_data = KfWsBalance {
        account: Some("test_account".to_string()),
        seq: Some(1),
        timestamp: Some(1609459200000),
        balances: Some(vec![
            ("USD".to_string(), KfWsBalanceItem { balance: sd("10000"), available: sd("8000") }),
            ("BTC".to_string(), KfWsBalanceItem { balance: sd("1.5"), available: sd("1.0") }),
        ]),
    };
    let event = KrakenFuturesWs::parse_balance_update(&balance_data, 0).unwrap();
    assert!(event.balances.timestamp.is_some());
    let usd = event.balances.get("USD").unwrap();
    assert_eq!(usd.free, sd("8000"));
    assert_eq!(usd.used, sd("2000"));
    assert_eq!(usd.total, sd("10000"));
}

#[test]
fn test_parse_position_update() {
    let position_data = KfWsPosition {
        account: Some("test_account".to_string()),
        positions: Some(vec![KfWsPositionItem {
            instrument: Some("PI_XBTUSD".to_string()),
            balance: sd("1.5"),
            entry_price: sd("40000"),
            mark_price: sd("42000"),
            index_price: sd("42050"),
            pnl: sd("3000"),
            effective_leverage: sd("10"),
        }]),
        seq: Some(1),
        timestamp: Some(1609459200000),
    };
    let event = KrakenFuturesWs::parse_position_update(&position_data, 0).unwrap();
    assert_eq!(event.positions.len(), 1);
    let pos = &event.positions[0];
    assert_eq!(pos.symbol, "BTC/USD:USD");
    assert_eq!(pos.contracts, sd("1.5"));
    assert_eq!(pos.entry_price, sd("40000"));
    assert_eq!(pos.mark_price, sd("42000"));
    assert_eq!(pos.side, Some(PositionSide::Long));
}

#[test]
fn test_parse_fill_update() {
    let fill_data = KfWsFill {
        account: Some("test_account".to_string()),
        fills: Some(vec![KfWsFillItem {
            instrument: Some("PI_XBTUSD".to_string()),
            time: Some(1609459200000),
            price: sd("42000"),
            qty: sd("0.5"),
            side: Some("buy".to_string()),
            order_id: Some("order123".to_string()),
            cli_ord_id: Some("client123".to_string()),
            fill_id: Some("fill123".to_string()),
            fill_type: Some("taker".to_string()),
            fee_paid: sd("1.5"),
            fee_currency: Some("USD".to_string()),
        }]),
        seq: Some(1),
        timestamp: Some(1609459200000),
    };
    let event = KrakenFuturesWs::parse_fill_update(&fill_data, 0).unwrap();
    assert_eq!(event.symbol, "BTC/USD:USD");
    assert_eq!(event.trades.len(), 1);
    let trade = &event.trades[0];
    assert_eq!(trade.id, "fill123");
    assert_eq!(trade.order, Some("order123".to_string()));
    assert_eq!(trade.side, Some("buy".to_string()));
    assert_eq!(trade.price, d("42000"));
    assert!(trade.fee.is_some());
}

#[test]
fn test_sign_challenge() {
    let config = ExchangeConfig::default()
        .with_api_key("test_key".to_string())
        .with_api_secret("dGVzdF9zZWNyZXRfa2V5X2hlcmU=".to_string());
    let ws = KrakenFuturesWs::new(config);
    let signature = ws.sign_challenge("test_challenge_string");
    assert!(signature.is_some());
}

#[test]
fn krakenfutures_ws_feeds_books_and_challenge() {
    assert_eq!(KrakenFuturesWs::message_feed(r#"{"feed":"open_orders_verbose"}"#), Some(KfFeed::Orders));
    assert_eq!(KrakenFuturesWs::message_feed(r#"{"feed":"fills_snapshot"}"#), Some(KfFeed::Fills));
    assert_eq!(KrakenFuturesWs::message_feed(r#"{"feed":"heartbeat"}"#), Some(KfFeed::Other));
    assert_eq!(KrakenFuturesWs::message_feed(r#"{"event":"info"}"#), None);
    let book = KfWsOrderBook {
        feed: Some("book_snapshot".to_string()),
        product_id: Some("PF_ETHUSD".to_string()),
        timestamp: None,
        seq: Some(7),
        bids: Some(vec![
            KfWsOrderBookEntry { price: sd("10"), qty: sd("1") },
            KfWsOrderBookEntry { price: None, qty: sd("2") },
        ]),
        asks: None,
    };
    let e = KrakenFuturesWs::parse_order_book(&book, true, 99).unwrap();
    assert_eq!(e.symbol, "ETH/USD:USD");
    assert_eq!(e.order_book.bids.len(), 1);
    assert_eq!(e.order_book.timestamp, Some(99));
    assert_eq!(e.order_book.nonce, Some(7));
    let snap = KfWsTradeSnapshot {
        feed: None,
        product_id: Some("PI_XBTUSD".to_string()),
        trades: Some(vec![KfWsTrade {
            feed: None,
            product_id: None,
            uid: None,
            side: None,
            trade_type: None,
            seq: None,
            time: None,
            qty: sd("1"),
            price: sd("1"),
        }]),
    };
    assert!(KrakenFuturesWs::parse_trade_snapshot(&snap, 0).unwrap().trades.is_empty());
    assert_eq!(KrakenFuturesWs::to_unified_symbol("pi_dogeusd"), "PI_DOGEUSD");
    let ws = KrakenFuturesWs::new(ExchangeConfig::default().with_api_secret("c2VjcmV0".to_string()));
    let sig = ws.sign_challenge("abc").unwrap();
    match KrakenFuturesWs::challenge_step("c2VjcmV0", r#"{"event":"challenge","message":"abc"}"#) {
        KfChallengeStep::Answered { authenticated, signature } => {
            assert!(authenticated);
            assert_eq!(signature, Some(sig));
        },
        _ => panic!("Expected an answer"),
    }
    match KrakenFuturesWs::challenge_step("not base64!", r#"{"event":"challenge","message":"abc"}"#) {
        KfChallengeStep::Answered { authenticated, .. } => assert!(!authenticated),
        _ => panic!("Expected an answer"),
    }
    assert!(matches!(KrakenFuturesWs::challenge_step("c2VjcmV0", r#"{"feed":"book"}"#), KfChallengeStep::Pass));
    assert_eq!(KrakenFuturesWs::subscription_key("book", &vec!["pi_xbtusd".to_string(), "pi_ethusd".to_string()]), "book:pi_xbtusd,pi_ethusd");
    let sell = KfWsOrder {
        order_id: None, cli_ord_id: None, symbol: Some("PI_XBTUSD".to_string()), side: Some("sell".to_string()),
        order_type: Some("stp".to_string()), limit_price: None, stop_price: sd("5"), quantity: None, filled: None,
        reduce_only: None, timestamp: None, last_update_timestamp: None, status: Some("cancelled".to_string()), reason: None,
    };
    let o = KrakenFuturesWs::parse_order_update(&sell, 42).unwrap().order;
    assert_eq!(o.side, OrderSide::Sell);
    assert_eq!(o.order_type, OrderType::StopLossLimit);
    assert_eq!(o.status, OrderStatus::Canceled);
    assert_eq!(o.timestamp, Some(42));
    assert_eq!(o.trigger_price, sd("5"));
    assert_eq!(o.id, "");
}
