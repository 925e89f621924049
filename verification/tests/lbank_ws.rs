use ccxt_rust::dec::Dec;
use ccxt_rust::json::Json;
use ccxt_rust::lbank_ws::{LbankAction, LbankOrderUpdateData, LbankWs};
use ccxt_rust::types::{CcxtError, OrderSide, OrderStatus, OrderType, Timeframe};
use ccxt_rust::ws::WsMessage;

fn d(s: &str) -> Dec {
    Dec::parse(s).unwrap()
}

fn order(no: &str, typ: &str, exec: &str, status: &str) -> LbankOrderUpdateData {
    LbankOrderUpdateData {
        order_no: Some(no.to_string()),
        customer_id: None,
        symbol: Some("btc_usdt".to_string()),
        order_type: Some(typ.to_string()),
        price: Some("50000".to_string()),
        orig_qty: Some("1".to_string()),
        executed_qty: Some(exec.to_string()),
        status: Some(status.to_string()),
        create_time: None,
        update_time: None,
    }
}

#[test]
fn test_lbank_ws_creation() {
    let _ws = LbankWs::new();
}

#[test]
fn lbank_ws_test_format_symbol() {
    let ws = LbankWs::new();
    assert_eq!(ws.format_symbol("BTC/USDT"), "btc_usdt");
    assert_eq!(ws.format_symbol("ETH/BTC"), "eth_btc");
}

#[test]
fn lbank_ws_test_parse_symbol() {
    let ws = LbankWs::new();
    assert_eq!(ws.parse_symbol("btc_usdt"), "BTC/USDT");
    assert_eq!(ws.parse_symbol("eth_btc"), "ETH/BTC");
}

#[test]
fn test_format_timeframe() {
    let ws = LbankWs::new();
    assert_eq!(ws.format_timeframe(Timeframe::Minute1), "1min");
    assert_eq!(ws.format_timeframe(Timeframe::Hour1), "1hr");
    assert_eq!(ws.format_timeframe(Timeframe::Day1), "day");
}

#[test]
fn lbank_ws_test_with_credentials() {
    let _ws = LbankWs::with_credentials("api_key".to_string(), "api_secret".to_string());
}

#[test]
fn lbank_ws_test_set_credentials() {
    let mut ws = LbankWs::new();
    ws.set_credentials("api_key".to_string(), "api_secret".to_string());
}

#[test]
fn lbank_ws_test_sign() {
    let ws = LbankWs::with_credentials("api_key".to_string(), "test_secret".to_string());
    let result = ws.sign("api_key=api_key&timestamp=1234567890");
    assert!(result.is_ok());
    let signature = result.unwrap();
    assert_eq!(signature.len(), 32);
    assert!(signature.chars().all(|c| c.is_ascii_hexdigit()));
}

#[test]
fn test_parse_order() {
    let ws = LbankWs::new();
    let order_data = LbankOrderUpdateData {
        order_no: Some("order123".to_string()),
        customer_id: Some("client456".to_string()),
        symbol: Some("btc_usdt".to_string()),
        order_type: Some("buy".to_string()),
        price: Some("50000.00".to_string()),
        orig_qty: Some("1.5".to_string()),
        executed_qty: Some("0.5".to_string()),
        status: Some("1".to_string()),
        create_time: Some(1704067200000),
        update_time: Some(1704067300000),
    };
    let result = ws.parse_order(&order_data);
    assert!(result.is_some());
    if let Some(WsMessage::Order(event)) = result {
        assert_eq!(event.order.id, "order123".to_string());
        assert_eq!(event.order.client_order_id, Some("client456".to_string()));
        assert_eq!(event.order.symbol, "BTC/USDT");
        assert_eq!(event.order.side, OrderSide::Buy);
        assert_eq!(event.order.price, Some(d("50000.00")));
        assert_eq!(event.order.amount, d("1.5"));
        assert_eq!(event.order.filled, d("0.5"));
        assert_eq!(event.order.remaining, Some(d("1.0")));
        assert_eq!(event.order.status, OrderStatus::Open);
    } else {
        panic!("Expected Order event");
    }
}

#[test]
fn test_parse_balance() {
    let ws = LbankWs::new();
    let balances_arr = vec![Json::parse(r#"{"asset":"BTC","free":"1.5","locked":"0.5"}"#).unwrap()];
    let parsed = Json::parse("{}").unwrap();
    let result = ws.parse_balance(&balances_arr, &parsed, 1);
    assert!(result.is_some());
    if let Some(WsMessage::Balance(event)) = result {
        assert!(event.balances.contains_key("BTC"));
        let btc_balance = event.balances.get("BTC").unwrap();
        assert_eq!(btc_balance.free, Some(d("1.5")));
        assert_eq!(btc_balance.used, Some(d("0.5")));
        assert_eq!(btc_balance.total, Some(d("2.0")));
    } else {
        panic!("Expected Balance event");
    }
}

#[test]
fn lbank_ws_test_parse_order_status() {
    let ws = LbankWs::new();
    if let Some(WsMessage::Order(event)) = ws.parse_order(&order("order1", "buy", "0", "0")) {
        assert_eq!(event.order.status, OrderStatus::Open);
    } else {
        panic!("Expected Order event");
    }
    if let Some(WsMessage::Order(event)) = ws.parse_order(&order("order2", "sell", "1", "2")) {
        assert_eq!(event.order.status, OrderStatus::Closed);
    } else {
        panic!("Expected Order event");
    }
    if let Some(WsMessage::Order(event)) = ws.parse_order(&order("order3", "buy", "0", "-1")) {
        assert_eq!(event.order.status, OrderStatus::Canceled);
    } else {
        panic!("Expected Order event");
    }
}

#[test]
fn test_next_id() {
    let mut ws = LbankWs::new();
    let id1 = ws.next_id();
    let id2 = ws.next_id();
    let id3 = ws.next_id();
    assert_eq!(id2, id1 + 1);
    assert_eq!(id3, id2 + 1);
}

#[test]
fn lbank_ws_sign_matches_md5_of_secret_suffix() {
    let ws = LbankWs::with_credentials("k".to_string(), "s".to_string());
    // MD5 of "a&secret_key=s", upper case.
    let sig = ws.sign("a").unwrap();
    assert_eq!(sig, format!("{:X}", md5::compute(b"a&secret_key=s")));
    assert!(matches!(LbankWs::new().sign("a"), Err(CcxtError::AuthenticationError { .. })));
    let (key, ts, s2) = ws.auth_fields(1234567890).unwrap();
    assert_eq!(key, "k");
    assert_eq!(ts, 1234567890);
    assert_eq!(s2, ws.sign("api_key=k&timestamp=1234567890").unwrap());
}

#[test]
fn lbank_ws_side_type_and_order_stream() {
    let ws = LbankWs::new();
    if let Some(WsMessage::Order(event)) = ws.parse_order(&order("o", "sell_maker", "0.25", "filled")) {
        assert_eq!(event.order.side, OrderSide::Sell);
        assert_eq!(event.order.order_type, OrderType::Limit);
        assert_eq!(event.order.cost, Some(d("12500.00")));
        assert_eq!(event.order.status, OrderStatus::Closed);
    } else {
        panic!("Expected Order event");
    }
    let mut no_id = order("x", "buy", "0", "0");
    no_id.order_no = None;
    assert!(ws.parse_order(&no_id).is_none());
    let text = r#"{"type":"orderUpdate","data":{"symbol":"eth_btc","type":"buy_market","status":"canceled"}}"#;
    match LbankWs::decode_order_stream(text) {
        Some(WsMessage::Order(event)) => {
            assert_eq!(event.order.id, "");
            assert_eq!(event.order.symbol, "ETH/BTC");
            assert_eq!(event.order.order_type, OrderType::Market);
            assert_eq!(event.order.status, OrderStatus::Canceled);
        },
        _ => panic!("Expected Order event"),
    }
    assert!(LbankWs::decode_order_stream(r#"{"type":"orderUpdate","data":{"type":"buy"}}"#).is_none());
    assert!(ws.process_private_message(r#"{"type":"orderUpdate","data":{"symbol":"eth_btc"}}"#, 1).is_none());
}

#[test]
fn lbank_ws_balance_stream_last_entry_wins() {
    let ws = LbankWs::new();
    let text = r#"{"type":"balance","timestamp":77,"data":[{"asset":"btc","free":"1","locked":"2"},{"free":"9"},{"asset":"BTC","free":"3","locked":"x"}]}"#;
    match ws.decode_balance_stream(text, 5) {
        Some(WsMessage::Balance(event)) => {
            assert_eq!(event.balances.timestamp, Some(77));
            assert_eq!(event.balances.currencies.len(), 1);
            let b = event.balances.get("BTC").unwrap();
            assert_eq!(b.free, Some(d("3")));
            assert_eq!(b.used, Some(d("0")));
        },
        _ => panic!("Expected Balance event"),
    }
    assert!(ws.decode_balance_stream(r#"{"type":"balance","data":{}}"#, 5).is_none());
    match ws.process_private_message(r#"{"type":"balanceUpdate","data":[]}"#, 5) {
        Some(WsMessage::Balance(event)) => assert_eq!(event.balances.timestamp, Some(5)),
        _ => panic!("Expected Balance event"),
    }
}

#[test]
fn lbank_ws_public_messages() {
    let mut ws = LbankWs::new();
    match ws.handle_message(&Json::parse(r#"{"action":"ping","ping":"abc"}"#).unwrap()) {
        LbankAction::Pong(id) => assert_eq!(id, "abc"),
        _ => panic!("Expected pong"),
    }
    let tick = r#"{"type":"tick","pair":"btc_usdt","tick":{"high":"10","low":"1","latest":"5","vol":"100"}}"#;
    match ws.handle_message(&Json::parse(tick).unwrap()) {
        LbankAction::Deliver(v) => {
            assert_eq!(v.len(), 1);
            assert_eq!(v[0].0, "ticker:BTC/USDT");
            match &v[0].1 {
                WsMessage::Ticker(e) => {
                    assert_eq!(e.ticker.last, Some(d("5")));
                    assert_eq!(e.ticker.base_volume, Some(d("100")));
                },
                _ => panic!("Expected ticker"),
            }
        },
        _ => panic!("Expected delivery"),
    }
    let trade = r#"{"type":"trade","pair":"eth_btc","trade":{"price":"2","volume":"3","direction":"buy_market","TS":"2024-01-01T00:00:00.500Z"}}"#;
    match ws.handle_message(&Json::parse(trade).unwrap()) {
        LbankAction::Deliver(v) => {
            assert_eq!(v[0].0, "trades:ETH/BTC");
            match &v[0].1 {
                WsMessage::Trade(e) => {
                    assert_eq!(e.trades[0].side.as_deref(), Some("buy"));
                    assert_eq!(e.trades[0].cost, Some(d("6")));
                    assert_eq!(e.trades[0].timestamp, Some(1704067200500));
                },
                _ => panic!("Expected trade"),
            }
        },
        _ => panic!("Expected delivery"),
    }
    let depth = r#"{"type":"depth","pair":"btc_usdt","depth":{"bids":[["100","1"],["99"]],"asks":[[101,"2"]]}}"#;
    match ws.handle_message(&Json::parse(depth).unwrap()) {
        LbankAction::Deliver(v) => match &v[0].1 {
            WsMessage::OrderBook(e) => {
                assert!(e.is_snapshot);
                assert_eq!(e.order_book.bids.len(), 1);
                assert_eq!(e.order_book.asks[0].price, d("101"));
            },
            _ => panic!("Expected book"),
        },
        _ => panic!("Expected delivery"),
    }
    assert_eq!(ws.orderbook_cache.len(), 1);
    let records = r#"{"type":"kbar","pair":"btc_usdt","records":[[1700000000,"1","3","0.5","2","10"],"x"]}"#;
    match ws.handle_message(&Json::parse(records).unwrap()) {
        LbankAction::Deliver(v) => {
            assert_eq!(v.len(), 1);
            assert_eq!(v[0].0, "ohlcv:BTC/USDT:1min");
            match &v[0].1 {
                WsMessage::Ohlcv(e) => {
                    assert_eq!(e.ohlcv.timestamp, 1_700_000_000_000);
                    assert_eq!(e.ohlcv.high, d("3"));
                },
                _ => panic!("Expected candle"),
            }
        },
        _ => panic!("Expected delivery"),
    }
    let kbar = r#"{"type":"kbar","pair":"btc_usdt","kbar":{"slot":"1hr","t":"2024-01-01T00:00:00Z","o":"1","h":"2","l":"0.5","c":"1.5","v":"7"}}"#;
    match ws.handle_message(&Json::parse(kbar).unwrap()) {
        LbankAction::Deliver(v) => {
            assert_eq!(v[0].0, "ohlcv:BTC/USDT:1hr");
            match &v[0].1 {
                WsMessage::Ohlcv(e) => {
                    assert_eq!(e.timeframe, Timeframe::Hour1);
                    assert_eq!(e.ohlcv.timestamp, 1704067200000);
                    assert_eq!(e.ohlcv.close, d("1.5"));
                },
                _ => panic!("Expected candle"),
            }
        },
        _ => panic!("Expected delivery"),
    }
}
