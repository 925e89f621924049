use ccxt_rust::dec::Dec;
use ccxt_rust::oceanex_ws::{OceanexWs, OceanexWsOrderBook, OceanexWsTicker, OceanexWsTickerInfo, OceanexWsTrade};
use ccxt_rust::types::CcxtError;
use ccxt_rust::ws::WsMessage;

fn d(s: &str) -> Dec {
    Dec::parse(s).unwrap()
}

const NOW: i64 = 1_700_000_000_000;

#[test]
fn oceanex_ws_test_format_symbol() {
    assert_eq!(OceanexWs::format_symbol("BTC/USDT"), "btcusdt");
}

#[test]
fn oceanex_ws_test_to_unified_symbol() {
    assert_eq!(OceanexWs::to_unified_symbol("btcusdt"), "BTC/USDT");
}

#[test]
fn test_default() {
    let ws = OceanexWs::default();
    assert!(!ws.client_open);
}

#[test]
fn oceanex_ws_test_clone() {
    let ws = OceanexWs::new();
    assert!(!ws.clone().client_open);
}

#[test]
fn test_new() {
    let ws = OceanexWs::new();
    assert!(!ws.client_open);
}

#[test]
fn oceanex_ws_test_parse_ticker() {
    let ticker_info = OceanexWsTickerInfo {
        high: Some(Dec::from_i64(50000)),
        low: Some(Dec::from_i64(48000)),
        buy: Some(Dec::from_i64(49500)),
        sell: Some(Dec::from_i64(49600)),
        last: Some(Dec::from_i64(49550)),
        open: Some(Dec::from_i64(49000)),
        volume: Some(Dec::from_i64(100)),
    };
    let data = OceanexWsTicker { at: Some(1704067200), ticker: Some(ticker_info) };
    let ticker = OceanexWs::parse_ticker(&data, "BTC/USDT", NOW);
    assert_eq!(ticker.symbol, "BTC/USDT");
}

#[test]
fn test_parse_order_book() {
    let data = OceanexWsOrderBook {
        timestamp: Some(1704067200),
        bids: vec![vec!["49500".to_string(), "1.5".to_string()]],
        asks: vec![vec!["49600".to_string(), "1.0".to_string()]],
    };
    let ob = OceanexWs::parse_order_book(&data, "BTC/USDT", NOW);
    assert_eq!(ob.bids.len(), 1);
}

#[test]
fn oceanex_ws_test_parse_trade() {
    let data = OceanexWsTrade {
        id: Some(123),
        created_on: Some(1704067200),
        price: Some(Dec::from_i64(49550)),
        volume: Some(Dec::from_i64(1)),
        side: Some("bid".to_string()),
    };
    let trade = OceanexWs::parse_trade(&data, "BTC/USDT", NOW);
    assert_eq!(trade.id, "123");
    assert_eq!(trade.side, Some("buy".to_string()));
}

#[test]
fn test_process_message() {
    let msg = r#"{"event":"ticker","data":{"market":"btcusdt","at":1704067200,"ticker":{"last":"49550"}}}"#;
    assert!(OceanexWs::process_message(msg, NOW).is_ok());
}

#[test]
fn oceanex_ws_unified_symbol_quotes() {
    assert_eq!(OceanexWs::to_unified_symbol("ethbtc"), "ETH/BTC");
    assert_eq!(OceanexWs::to_unified_symbol("vetusdt"), "VET/USDT");
    assert_eq!(OceanexWs::to_unified_symbol("oceeth"), "OCE/ETH");
    assert_eq!(OceanexWs::to_unified_symbol("btcvet"), "BTC/VET");
    assert_eq!(OceanexWs::to_unified_symbol("abcxyz"), "ABCXYZ");
}

#[test]
fn oceanex_ws_ticker_times_and_prices() {
    let data = OceanexWsTicker {
        at: Some(1704067200),
        ticker: Some(OceanexWsTickerInfo {
            high: None,
            low: None,
            buy: Some(d("1")),
            sell: Some(d("2")),
            last: Some(d("1.5")),
            open: None,
            volume: Some(d("10")),
        }),
    };
    let t = OceanexWs::parse_ticker(&data, "BTC/USDT", NOW);
    assert_eq!(t.timestamp, Some(1704067200000));
    assert_eq!(t.datetime.as_deref(), Some("2024-01-01T00:00:00+00:00"));
    assert_eq!(t.bid, Some(d("1")));
    assert_eq!(t.ask, Some(d("2")));
    assert_eq!(t.close, Some(d("1.5")));
    assert_eq!(t.last, Some(d("1.5")));
    assert_eq!(t.base_volume, Some(d("10")));
    let none = OceanexWsTicker { at: None, ticker: None };
    let t2 = OceanexWs::parse_ticker(&none, "BTC/USDT", NOW);
    assert_eq!(t2.timestamp, Some(NOW));
    assert_eq!(t2.last, None);
}

#[test]
fn oceanex_ws_book_skips_bad_rows() {
    let data = OceanexWsOrderBook {
        timestamp: None,
        bids: vec![vec!["1".to_string()], vec!["x".to_string(), "1".to_string()], vec!["2".to_string(), "3".to_string()]],
        asks: vec![],
    };
    let ob = OceanexWs::parse_order_book(&data, "BTC/USDT", NOW);
    assert_eq!(ob.bids.len(), 1);
    assert_eq!(ob.bids[0].price, d("2"));
    assert_eq!(ob.bids[0].amount, d("3"));
    assert_eq!(ob.timestamp, Some(NOW));
}

#[test]
fn oceanex_ws_trade_defaults() {
    let data = OceanexWsTrade { id: None, created_on: None, price: Some(d("2.5")), volume: None, side: Some("ask".to_string()) };
    let t = OceanexWs::parse_trade(&data, "ETH/BTC", NOW);
    assert_eq!(t.id, "");
    assert_eq!(t.side.as_deref(), Some("sell"));
    assert_eq!(t.amount, Dec::zero());
    assert_eq!(t.timestamp, Some(NOW));
    let odd = OceanexWsTrade { id: Some(1), created_on: Some(1), price: Some(d("2")), volume: Some(d("3")), side: Some("x".to_string()) };
    let t2 = OceanexWs::parse_trade(&odd, "ETH/BTC", NOW);
    assert_eq!(t2.side, None);
    assert_eq!(t2.cost, Some(d("6")));
    assert_eq!(t2.timestamp, Some(1000));
}

#[test]
fn oceanex_ws_process_event_messages() {
    let out = OceanexWs::process_message(
        r#"{"event":"ticker","data":{"market":"btcusdt","at":1704067200,"ticker":{"last":"49550","high":50000}}}"#,
        NOW,
    )
    .unwrap();
    assert_eq!(out.len(), 1);
    match &out[0] {
        WsMessage::Ticker(e) => {
            assert_eq!(e.symbol, "BTC/USDT");
            assert_eq!(e.ticker.last, Some(d("49550")));
            assert_eq!(e.ticker.high, Some(d("50000")));
        },
        _ => panic!("expected a ticker"),
    }
    let out = OceanexWs::process_message(
        r#"{"event":"depth","data":{"market":"ethbtc","timestamp":1,"bids":[["0.05","2"]],"asks":[["0.06","1"],["0.07"]]}}"#,
        NOW,
    )
    .unwrap();
    match &out[0] {
        WsMessage::OrderBook(e) => {
            assert!(e.is_snapshot);
            assert_eq!(e.symbol, "ETH/BTC");
            assert_eq!(e.order_book.asks.len(), 1);
            assert_eq!(e.order_book.timestamp, Some(1000));
        },
        _ => panic!("expected a book"),
    }
    let single = OceanexWs::process_message(
        r#"{"event":"trade","data":{"market":"btcusdt","id":7,"price":"2","volume":"3","side":"bid"}}"#,
        NOW,
    )
    .unwrap();
    match &single[0] {
        WsMessage::Trade(e) => {
            assert_eq!(e.symbol, "BTC/USDT");
            assert_eq!(e.trades.len(), 1);
            assert_eq!(e.trades[0].id, "7");
        },
        _ => panic!("expected trades"),
    }
}

#[test]
fn oceanex_ws_process_channel_messages() {
    let out = OceanexWs::process_message(
        r#"{"channel":"trades.btcusdt","data":[{"id":1,"price":"1","volume":"1","side":"ask"},{"id":2,"price":"2","volume":"1"}]}"#,
        NOW,
    )
    .unwrap();
    assert_eq!(out.len(), 1);
    match &out[0] {
        WsMessage::Trade(e) => {
            assert_eq!(e.symbol, "BTC/USDT");
            assert_eq!(e.trades.len(), 2);
            assert_eq!(e.trades[1].side, None);
        },
        _ => panic!("expected trades"),
    }
    // a single trade object is not read on the channel form
    let none = OceanexWs::process_message(r#"{"channel":"trades.btcusdt","data":{"id":1}}"#, NOW).unwrap();
    assert!(none.is_empty());
    // both forms in one message deliver twice
    let both = OceanexWs::process_message(r#"{"event":"ticker","channel":"ticker.ethusdt","data":{"market":"btcusdt"}}"#, NOW).unwrap();
    assert_eq!(both.len(), 2);
    match (&both[0], &both[1]) {
        (WsMessage::Ticker(a), WsMessage::Ticker(b)) => {
            assert_eq!(a.symbol, "BTC/USDT");
            assert_eq!(b.symbol, "ETH/USDT");
        },
        _ => panic!("expected tickers"),
    }
}

#[test]
fn oceanex_ws_process_rejects_non_json() {
    match OceanexWs::process_message("not json", NOW) {
        Err(CcxtError::ParseError { .. }) => {},
        _ => panic!("expected a parse error"),
    }
    assert!(OceanexWs::process_message(r#"{"event":"ticker","data":{"ticker":"bad"}}"#, NOW).unwrap().is_empty());
}

#[test]
fn oceanex_ws_subscription_keys() {
    let mut ws = OceanexWs::new();
    ws.record_subscription("ticker", "btcusdt");
    assert_eq!(ws.subscriptions.len(), 1);
    assert_eq!(ws.subscriptions[0].0, "ticker:btcusdt");
    assert_eq!(OceanexWs::channel_name("ticker", "btcusdt"), "ticker.btcusdt");
    ws.clear_subscriptions();
    assert!(ws.subscriptions.is_empty());
}
