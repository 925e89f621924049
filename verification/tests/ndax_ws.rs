use ccxt_rust::dec::Dec;
use ccxt_rust::json::Json;
use ccxt_rust::ndax_ws::NdaxWs;
use ccxt_rust::ws::WsMessage;

fn d(s: &str) -> Dec {
    Dec::parse(s).unwrap()
}

fn frame(text: &str) -> Json {
    Json::parse(text).unwrap()
}

fn subscribed() -> NdaxWs {
    let mut ws = NdaxWs::new();
    ws.register_instrument("BTC/USDT".to_string(), 8);
    ws
}

#[test]
fn test_ndax_ws_creation() {
    let _ws = NdaxWs::new();
}

#[test]
fn ndax_ws_test_format_symbol() {
    let ws = NdaxWs::new();
    assert_eq!(ws.format_symbol("BTC/USDT"), "BTCUSDT");
    assert_eq!(ws.format_symbol("ETH/BTC"), "ETHBTC");
}

#[test]
fn ndax_ws_test_parse_symbol() {
    let ws = NdaxWs::new();
    assert_eq!(ws.parse_symbol("BTCUSDT"), "BTC/USDT");
    assert_eq!(ws.parse_symbol("ETHBTC"), "ETH/BTC");
    assert_eq!(ws.parse_symbol("BTCUSD"), "BTC/USD");
}

#[test]
fn test_request_id_increment() {
    let mut ws = NdaxWs::new();
    let id1 = ws.next_request_id();
    let id2 = ws.next_request_id();
    assert_eq!(id1 + 1, id2);
}

#[test]
fn ndax_ws_parse_symbol_unknown_quote() {
    assert_eq!(NdaxWs::parse_symbol_static("ETHCAD"), "ETHCAD");
    assert_eq!(NdaxWs::parse_symbol_static("USDT"), "/USDT");
}

#[test]
fn ndax_ws_request_id_wraps() {
    let mut ws = NdaxWs::new();
    ws.request_id = u64::MAX;
    assert_eq!(ws.next_request_id(), u64::MAX);
    assert_eq!(ws.next_request_id(), 0);
}

#[test]
fn ndax_ws_register_reads_back() {
    let mut ws = subscribed();
    assert_eq!(ws.get_instrument_id("BTC/USDT"), Some(8));
    assert_eq!(ws.get_symbol_for_instrument(8), Some("BTC/USDT".to_string()));
    assert_eq!(ws.get_instrument_id("ETH/USDT"), None);
    assert_eq!(ws.get_symbol_for_instrument(9), None);
    ws.register_instrument("ETH/USDT".to_string(), 8);
    assert_eq!(ws.get_symbol_for_instrument(8), Some("ETH/USDT".to_string()));
    assert_eq!(ws.get_instrument_id("BTC/USDT"), Some(8));
    assert_eq!(ws.instrument_to_symbol.len(), 1);
}

#[test]
fn ndax_ws_subscription_frames() {
    let mut ws = NdaxWs::new();
    assert_eq!(
        ws.subscribe_level2_message(8, 100),
        "{\"i\":1,\"m\":0,\"n\":\"SubscribeLevel2\",\"o\":\"{\\\"Depth\\\":100,\\\"InstrumentId\\\":8,\\\"OMSId\\\":1}\"}"
    );
    assert_eq!(
        ws.subscribe_level1_message(8),
        "{\"i\":2,\"m\":0,\"n\":\"SubscribeLevel1\",\"o\":\"{\\\"InstrumentId\\\":8,\\\"OMSId\\\":1}\"}"
    );
    assert_eq!(
        ws.subscribe_trades_message(8),
        "{\"i\":3,\"m\":0,\"n\":\"SubscribeTrades\",\"o\":\"{\\\"IncludeLastCount\\\":100,\\\"InstrumentId\\\":8,\\\"OMSId\\\":1}\"}"
    );
    let t = ws.subscribe_ticker_message(8);
    assert_eq!(
        t,
        "{\"i\":4,\"m\":0,\"n\":\"SubscribeTicker\",\"o\":\"{\\\"IncludeLastCount\\\":1,\\\"InstrumentId\\\":8,\\\"Interval\\\":60,\\\"OMSId\\\":1}\"}"
    );
    assert_eq!(ws.request_id, 5);
    // the frame is a JSON document whose payload is a JSON document too
    let parsed = Json::parse(&t).unwrap();
    let inner = Json::parse(parsed.get_str("o").unwrap().as_str()).unwrap();
    assert_eq!(inner.get_i64("Interval"), Some(60));
    assert_eq!(NdaxWs::channel_key("orderbook", "BTC/USDT"), "orderbook:BTC/USDT");
}

#[test]
fn ndax_ws_level2_builds_book() {
    let mut ws = subscribed();
    let f = frame(
        "{\"m\":3,\"i\":2,\"n\":\"Level2UpdateEvent\",\"o\":\"[[1,0,1700000000000,2,0,1,50000.5,8,1.5,0],[2,0,1700000000000,2,0,1,50100,8,2,0],[3,0,1700000000000,2,0,1,50200,8,0.5,1],[4,0,1,2,0,1,1,9,1,0],[5,1]]\"}",
    );
    let out = ws.handle_message(&f);
    assert_eq!(out.len(), 3);
    assert_eq!(out[0].0, "orderbook:BTC/USDT");
    match &out[1].1 {
        WsMessage::OrderBook(e) => {
            assert!(e.is_snapshot);
            assert_eq!(e.symbol, "BTC/USDT");
            assert_eq!(e.order_book.bids.len(), 2);
            assert_eq!(e.order_book.bids[0].price, d("50100"));
            assert_eq!(e.order_book.bids[1].price, d("50000.5"));
            assert_eq!(e.order_book.asks.len(), 0);
        },
        _ => panic!("expected a book"),
    }
    match &out[2].1 {
        WsMessage::OrderBook(e) => {
            assert_eq!(e.order_book.asks.len(), 1);
            assert_eq!(e.order_book.asks[0].amount, d("0.5"));
            assert_eq!(e.order_book.bids.len(), 2);
        },
        _ => panic!("expected a book"),
    }
    assert_eq!(ws.orderbook_cache.len(), 1);
}

#[test]
fn ndax_ws_level2_update_and_delete() {
    let mut ws = subscribed();
    ws.handle_message(&frame(
        "{\"m\":3,\"n\":\"Level2UpdateEvent\",\"o\":\"[[1,0,0,2,0,1,100,8,1,0],[2,0,0,2,0,1,101,8,1,0],[3,0,0,2,0,1,102,8,1,0]]\"}",
    ));
    // update the amount at 101, delete at 100, a zero quantity removes 102
    let out = ws.handle_message(&frame(
        "{\"m\":3,\"n\":\"Level2UpdateEvent\",\"o\":\"[[4,0,0,0,0,1,101.0,8,7,0],[5,0,0,1,0,1,100,8,0,0],[6,0,0,0,0,1,102,8,0,0]]\"}",
    ));
    assert_eq!(out.len(), 3);
    match &out[0].1 {
        WsMessage::OrderBook(e) => {
            assert!(!e.is_snapshot);
            assert_eq!(e.order_book.bids[1].price, d("101"));
            assert_eq!(e.order_book.bids[1].amount, d("7"));
        },
        _ => panic!("expected a book"),
    }
    match &out[2].1 {
        WsMessage::OrderBook(e) => {
            assert_eq!(e.order_book.bids.len(), 1);
            assert_eq!(e.order_book.bids[0].price, d("101"));
            assert_eq!(e.order_book.bids[0].amount, d("7"));
        },
        _ => panic!("expected a book"),
    }
}

#[test]
fn ndax_ws_trades() {
    let ws = subscribed();
    let f = frame(
        "{\"m\":3,\"n\":\"TradeDataUpdateEvent\",\"o\":\"[[123,8,0.25,50000,1,2,1700000000000,0,1,false,0],[124,9,1,1,1,2,1,0,0,false,0],[125,8,1]]\"}",
    );
    let out = ws.handle_trade_update(&f);
    assert_eq!(out.len(), 1);
    assert_eq!(out[0].0, "trades:BTC/USDT");
    match &out[0].1 {
        WsMessage::Trade(e) => {
            assert_eq!(e.trades.len(), 1);
            let t = &e.trades[0];
            assert_eq!(t.id, "123");
            assert_eq!(t.price, d("50000"));
            assert_eq!(t.amount, d("0.25"));
            assert_eq!(t.cost, Some(d("12500.00")));
            assert_eq!(t.side.as_deref(), Some("sell"));
            assert_eq!(t.timestamp, Some(1700000000000));
            assert_eq!(t.datetime.as_deref(), Some("2023-11-14T22:13:20+00:00"));
        },
        _ => panic!("expected trades"),
    }
}

#[test]
fn ndax_ws_ticker_rows() {
    let mut ws = subscribed();
    let f = frame(
        "{\"m\":3,\"n\":\"TickerDataUpdateEvent\",\"o\":\"[[1700000000000,8,51000,49000,49500,50500,12.5,0,0,0]]\"}",
    );
    let out = ws.handle_message(&f);
    assert_eq!(out.len(), 1);
    assert_eq!(out[0].0, "ticker:BTC/USDT");
    match &out[0].1 {
        WsMessage::Ticker(e) => {
            assert_eq!(e.ticker.high, Some(d("51000")));
            assert_eq!(e.ticker.low, Some(d("49000")));
            assert_eq!(e.ticker.open, Some(d("49500")));
            assert_eq!(e.ticker.close, Some(d("50500")));
            assert_eq!(e.ticker.last, Some(d("50500")));
            assert_eq!(e.ticker.base_volume, Some(d("12.5")));
            assert_eq!(e.ticker.timestamp, Some(1700000000000));
        },
        _ => panic!("expected a ticker"),
    }
}

#[test]
fn ndax_ws_level1() {
    let ws = subscribed();
    let f = frame(
        "{\"m\":3,\"n\":\"Level1UpdateEvent\",\"o\":\"{\\\"InstrumentId\\\":8,\\\"BestBid\\\":49990,\\\"BestOffer\\\":50010,\\\"LastTradedPx\\\":50000,\\\"Volume\\\":3.5,\\\"CurrentDayPxChangeTime\\\":1700000000000}\"}",
    );
    let out = ws.handle_level1_update(&f);
    assert_eq!(out.len(), 1);
    assert_eq!(out[0].0, "ticker:BTC/USDT");
    match &out[0].1 {
        WsMessage::Ticker(e) => {
            assert_eq!(e.ticker.bid, Some(d("49990")));
            assert_eq!(e.ticker.ask, Some(d("50010")));
            assert_eq!(e.ticker.last, Some(d("50000")));
            assert_eq!(e.ticker.base_volume, Some(d("3.5")));
            assert_eq!(e.ticker.high, None);
            assert_eq!(e.ticker.timestamp, Some(1700000000000));
        },
        _ => panic!("expected a ticker"),
    }
    let unknown = frame("{\"m\":3,\"n\":\"Level1UpdateEvent\",\"o\":\"{\\\"InstrumentId\\\":5}\"}");
    assert!(ws.handle_level1_update(&unknown).is_empty());
}

#[test]
fn ndax_ws_ignores_replies_and_bad_payloads() {
    let mut ws = subscribed();
    let reply = frame("{\"m\":1,\"n\":\"Level2UpdateEvent\",\"o\":\"[[1,0,0,2,0,1,100,8,1,0]]\"}");
    assert!(ws.handle_message(&reply).is_empty());
    assert!(ws.orderbook_cache.is_empty());
    let bad = frame("{\"m\":3,\"n\":\"Level2UpdateEvent\",\"o\":\"not json\"}");
    assert!(ws.handle_message(&bad).is_empty());
    let other = frame("{\"m\":3,\"n\":\"SomethingElse\",\"o\":\"[]\"}");
    assert!(ws.handle_message(&other).is_empty());
}
