use ccxt_rust::dec::Dec;
use ccxt_rust::json::Json;
use ccxt_rust::luno_ws::LunoWs;
use ccxt_rust::types::OrderBookEntry;
use ccxt_rust::ws::WsMessage;

fn d(s: &str) -> Dec {
    Dec::parse(s).unwrap()
}

fn level(p: &str, a: &str) -> OrderBookEntry {
    OrderBookEntry { price: d(p), amount: d(a) }
}

#[test]
fn test_luno_ws_creation() {
    let _ws = LunoWs::new();
}

#[test]
fn test_luno_ws_with_credentials() {
    let _ws = LunoWs::with_credentials("test_key".to_string(), "test_secret".to_string());
}

#[test]
fn luno_ws_test_format_symbol() {
    let ws = LunoWs::new();
    assert_eq!(ws.format_symbol("BTC/ZAR"), "XBTZAR");
    assert_eq!(ws.format_symbol("ETH/ZAR"), "ETHZAR");
    assert_eq!(ws.format_symbol("BTC/EUR"), "XBTEUR");
}

#[test]
fn luno_ws_test_parse_symbol() {
    assert_eq!(LunoWs::parse_symbol("XBTZAR"), "BTC/ZAR");
    assert_eq!(LunoWs::parse_symbol("ETHZAR"), "ETH/ZAR");
    assert_eq!(LunoWs::parse_symbol("XBTEUR"), "BTC/EUR");
}

#[test]
fn luno_ws_parse_symbol_fallbacks() {
    assert_eq!(LunoWs::parse_symbol("XBTGBP"), "BTC/GBP");
    assert_eq!(LunoWs::parse_symbol("LTCZAR"), "LTC/ZAR");
    assert_eq!(LunoWs::parse_symbol("ABC"), "ABC");
    assert_eq!(LunoWs::market_url("XBTZAR"), "wss://ws.luno.com/api/1/stream/XBTZAR");
}

#[test]
fn luno_ws_update_side_replaces_adds_removes_and_sorts() {
    let mut bids = vec![level("100", "1"), level("99", "2")];
    LunoWs::update_orderbook_side(&mut bids, level("100.0", "5"), true);
    assert_eq!(bids, vec![level("100", "5"), level("99", "2")]);
    LunoWs::update_orderbook_side(&mut bids, level("101", "1"), true);
    assert_eq!(bids[0], level("101", "1"));
    LunoWs::update_orderbook_side(&mut bids, level("99", "0"), true);
    assert_eq!(bids.len(), 2);
    assert_eq!(bids, vec![level("101", "1"), level("100", "5")]);
    let mut asks = vec![level("5", "1")];
    LunoWs::update_orderbook_side(&mut asks, level("4", "1"), false);
    assert_eq!(asks, vec![level("4", "1"), level("5", "1")]);
    LunoWs::delete_price(&mut asks, d("4.00"), false);
    assert_eq!(asks, vec![level("5", "1")]);
}

#[test]
fn luno_ws_messages_snapshot_update_and_trades() {
    let mut ws = LunoWs::new();
    let snap = Json::parse(r#"{"sequence":"1","asks":[{"id":"a","price":"102","volume":"1"},{"id":"b","price":"101","volume":"2"}],"bids":[{"id":"c","price":"99","volume":"1"},{"id":"d","price":"100","volume":"3"},{"id":"e","price":"x","volume":"3"}],"timestamp":1700}"#).unwrap();
    assert!(ws.handle_message(&snap).is_empty());
    ws.set_current_market("XBTZAR".to_string());
    let out = ws.handle_message(&snap);
    assert_eq!(out.len(), 1);
    assert_eq!(out[0].0, "orderbook:BTC/ZAR");
    match &out[0].1 {
        WsMessage::OrderBook(e) => {
            assert!(e.is_snapshot);
            assert_eq!(e.order_book.bids, vec![level("100", "3"), level("99", "1")]);
            assert_eq!(e.order_book.asks, vec![level("101", "2"), level("102", "1")]);
            assert_eq!(e.order_book.timestamp, Some(1700));
        },
        _ => panic!("Expected book"),
    }
    let direct = Json::parse(r#"{"create_update":{"order_id":"z","price":"98","volume":"4","type":"BID"}}"#).unwrap();
    let event = ws.handle_orderbook(&direct, "BTC/ZAR").unwrap();
    assert!(!event.is_snapshot);
    assert_eq!(event.order_book.bids.len(), 3);
    assert_eq!(event.order_book.bids[2], level("98", "4"));
    let del = Json::parse(r#"{"delete_update":{"order_id":"z","price":"101"}}"#).unwrap();
    let event = ws.handle_orderbook(&del, "BTC/ZAR").unwrap();
    assert_eq!(event.order_book.asks, vec![level("102", "1")]);
    assert!(ws.handle_orderbook(&del, "ETH/ZAR").is_none());
    let trades = Json::parse(r#"{"sequence":"2","trade_updates":[{"base":"2","counter":"10","order_id":"t1","timestamp":5},{"base":"0","counter":"3"}]}"#).unwrap();
    let out = ws.handle_message(&trades);
    assert_eq!(out.len(), 1);
    assert_eq!(out[0].0, "trades:BTC/ZAR");
    match &out[0].1 {
        WsMessage::Trade(e) => {
            assert_eq!(e.trades.len(), 2);
            assert_eq!(e.trades[0].price, d("5"));
            assert_eq!(e.trades[0].amount, d("2"));
            assert_eq!(e.trades[0].id, "t1");
            assert_eq!(e.trades[0].timestamp, Some(5));
            assert_eq!(e.trades[1].price, d("0"));
        },
        _ => panic!("Expected trades"),
    }
    assert!(!ws.needs_connection("XBTZAR"));
    assert!(ws.needs_connection("ETHZAR"));
}

#[test]
fn luno_ws_parse_symbol_splits_at_the_third_byte() {
    // "Ñ" takes two bytes and "A" one: the first three bytes end after them.
    assert!(LunoWs::id_readable("ÑAUSDT"));
    assert_eq!(LunoWs::parse_symbol("ÑAUSDT"), "ÑA/USDT");
    // A character over the third byte cannot be split there.
    assert!(!LunoWs::id_readable("ÑÑAUSD"));
}
