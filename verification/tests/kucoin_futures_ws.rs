use base64::engine::general_purpose;
use base64::Engine;
use ccxt_rust::dec::Dec;
use ccxt_rust::json::Json;
use ccxt_rust::kucoin_futures_ws::{
    KucoinFuturesBalanceData, KucoinFuturesOrderBookData, KucoinFuturesOrderData, KucoinFuturesWs,
};
use ccxt_rust::types::{OrderSide, OrderStatus, OrderType, TakerOrMaker, TimeInForce, Timeframe};
use ccxt_rust::ws::WsMessage;

const NOW: i64 = 1_700_000_000_000;

fn d(s: &str) -> Dec {
    Dec::parse(s).unwrap()
}

fn order_data(json: &str) -> KucoinFuturesOrderData {
    KucoinFuturesWs::read_order_data(&Json::parse(json).unwrap()).unwrap()
}

fn balance_data(json: &str) -> KucoinFuturesBalanceData {
    KucoinFuturesWs::read_balance_data(&Json::parse(json).unwrap()).unwrap()
}

#[test]
fn kucoin_futures_ws_test_format_symbol() {
    assert_eq!(KucoinFuturesWs::format_symbol("BTC/USDT:USDT"), "BTCUSDTM");
    assert_eq!(KucoinFuturesWs::format_symbol("ETH/USDT"), "ETHUSDTM");
    assert_eq!(KucoinFuturesWs::format_symbol("XBTUSDTM"), "XBTUSDTM");
}

#[test]
fn kucoin_futures_ws_test_to_unified_symbol() {
    assert_eq!(KucoinFuturesWs::to_unified_symbol("XBTUSDTM"), "BTC/USDT:USDT");
    assert_eq!(KucoinFuturesWs::to_unified_symbol("ETHUSDTM"), "ETH/USDT:USDT");
    assert_eq!(KucoinFuturesWs::to_unified_symbol("BTCUSDM"), "BTC/USD:USD");
}

#[test]
fn kucoin_futures_ws_test_format_interval() {
    assert_eq!(KucoinFuturesWs::format_interval(Timeframe::Minute1), "1");
    assert_eq!(KucoinFuturesWs::format_interval(Timeframe::Hour1), "60");
    assert_eq!(KucoinFuturesWs::format_interval(Timeframe::Day1), "1440");
}

#[test]
fn kucoin_futures_ws_test_with_credentials() {
    let client = KucoinFuturesWs::with_credentials("test_key", "test_secret", "test_pass");
    assert_eq!(client.get_api_key(), Some("test_key"));
    assert!(client.api_secret.is_some());
    assert!(client.passphrase.is_some());
}

#[test]
fn kucoin_futures_ws_test_set_credentials() {
    let mut client = KucoinFuturesWs::new();
    assert!(client.get_api_key().is_none());
    client.set_credentials("api_key", "api_secret", "passphrase");
    assert_eq!(client.get_api_key(), Some("api_key"));
}

#[test]
fn kucoin_futures_ws_test_sign() {
    let signature = KucoinFuturesWs::sign("secret", "message");
    assert!(!signature.is_empty());
    assert!(general_purpose::STANDARD.decode(&signature).is_ok());
}

#[test]
fn kucoin_futures_ws_test_parse_order_update() {
    let json = r#"{"symbol":"XBTUSDTM","orderId":"5c52423054d74a0001a8d123","side":"buy","orderType":"limit","type":"open","price":"50000","size":"1","filledSize":"0","remainSize":"1","clientOid":"test123","ts":1609459200000000000,"status":"open","timeInForce":"GTC"}"#;
    let data = order_data(json);
    let event = KucoinFuturesWs::parse_order_update(&data, NOW);
    assert!(event.is_some());
    let order_event = event.unwrap();
    assert_eq!(order_event.order.symbol, "BTC/USDT:USDT");
    assert_eq!(order_event.order.side, OrderSide::Buy);
    assert_eq!(order_event.order.order_type, OrderType::Limit);
    assert_eq!(order_event.order.status, OrderStatus::Open);
}

#[test]
fn kucoin_futures_ws_test_parse_my_trade() {
    let json = r#"{"symbol":"XBTUSDTM","orderId":"5c52423054d74a0001a8d123","side":"buy","orderType":"limit","type":"match","price":"50000","size":"1","filledSize":"0.5","remainSize":"0.5","matchPrice":"50000","matchSize":"0.5","tradeId":"trade123","liquidity":"taker","fee":"0.0001","feeCurrency":"USDT","ts":1609459200000000000}"#;
    let data = order_data(json);
    let event = KucoinFuturesWs::parse_my_trade(&data, NOW);
    assert!(event.is_some());
    let trade_event = event.unwrap();
    assert_eq!(trade_event.symbol, "BTC/USDT:USDT");
    assert!(!trade_event.trades.is_empty());
    assert_eq!(trade_event.trades[0].amount, d("0.5"));
}

#[test]
fn kucoin_futures_ws_test_parse_balance_update() {
    let json = r#"{"currency":"USDT","accountEquity":"10000.00","availableBalance":"9000.00","frozenFunds":"1000.00","time":1609459200000}"#;
    let data = balance_data(json);
    let event = KucoinFuturesWs::parse_balance_update(&data, NOW);
    assert!(event.is_some());
    let balance_event = event.unwrap();
    let usdt_balance = balance_event.balances.get("USDT").unwrap();
    assert_eq!(usdt_balance.free, Some(d("9000.00")));
    assert_eq!(usdt_balance.total, Some(d("10000.00")));
}

#[test]
fn test_process_message_ticker() {
    let json = r#"{"type":"message","topic":"/contractMarket/tickerV2:XBTUSDTM","data":{"symbol":"XBTUSDTM","price":"50000","bestBidPrice":"49999","bestAskPrice":"50001","ts":1609459200000000000}}"#;
    let msg = KucoinFuturesWs::process_message(json, NOW);
    assert!(msg.is_some());
    if let Some(WsMessage::Ticker(event)) = msg {
        assert_eq!(event.symbol, "BTC/USDT:USDT");
    } else {
        panic!("Expected Ticker message");
    }
}

#[test]
fn test_process_message_order_update() {
    let json = r#"{"type":"message","topic":"/contractMarket/tradeOrders","data":{"symbol":"XBTUSDTM","orderId":"order123","side":"sell","orderType":"market","type":"open","status":"open","price":"50000","size":"1","ts":1609459200000000000}}"#;
    let msg = KucoinFuturesWs::process_message(json, NOW);
    assert!(msg.is_some());
    if let Some(WsMessage::Order(event)) = msg {
        assert_eq!(event.order.symbol, "BTC/USDT:USDT");
        assert_eq!(event.order.side, OrderSide::Sell);
    } else {
        panic!("Expected Order message");
    }
}

#[test]
fn test_process_message_balance_update() {
    let json = r#"{"type":"message","topic":"/contractAccount/wallet","data":{"currency":"USDT","accountEquity":"10000","availableBalance":"9000","time":1609459200000}}"#;
    let msg = KucoinFuturesWs::process_message(json, NOW);
    assert!(msg.is_some());
    if let Some(WsMessage::Balance(event)) = msg {
        assert!(event.balances.get("USDT").is_some());
    } else {
        panic!("Expected Balance message");
    }
}

#[test]
fn kucoin_futures_ws_ticker_fields_and_time() {
    let json = r#"{"type":"message","topic":"/contractMarket/tickerV2:XBTUSDTM","data":{"symbol":"XBTUSDTM","price":"50000","bestBidPrice":"49999","bestAskPrice":"50001","ts":1609459200123456789}}"#;
    match KucoinFuturesWs::process_message(json, NOW) {
        Some(WsMessage::Ticker(event)) => {
            assert_eq!(event.ticker.timestamp, Some(1609459200123));
            assert_eq!(event.ticker.bid, Some(d("49999")));
            assert_eq!(event.ticker.ask, Some(d("50001")));
            assert_eq!(event.ticker.last, Some(d("50000")));
            assert_eq!(event.ticker.close, Some(d("50000")));
            assert_eq!(event.ticker.datetime.as_deref(), Some("2021-01-01T00:00:00.123+00:00"));
        },
        _ => panic!("Expected Ticker message"),
    }
}

#[test]
fn kucoin_futures_ws_keepalive_and_ack() {
    assert!(KucoinFuturesWs::process_message(r#"{"id":"1","type":"pong"}"#, NOW).is_none());
    assert!(KucoinFuturesWs::process_message(r#"{"id":"1","type":"welcome"}"#, NOW).is_none());
    assert!(KucoinFuturesWs::process_message("not json", NOW).is_none());
    match KucoinFuturesWs::process_message(r#"{"id":"1","type":"ack"}"#, NOW) {
        Some(WsMessage::Subscribed { channel, symbol }) => {
            assert_eq!(channel, "subscription");
            assert!(symbol.is_none());
        },
        _ => panic!("Expected Subscribed message"),
    }
    assert!(KucoinFuturesWs::process_message(r#"{"type":"message","topic":"/contract/position:XBTUSDTM","data":{"a":1}}"#, NOW).is_none());
}

#[test]
fn kucoin_futures_ws_order_book_increment_and_snapshot() {
    let json = r#"{"type":"message","topic":"/contractMarket/level2:XBTUSDTM","data":{"sequence":18,"change":"5000.0,83,sell","timestamp":1551770400000}}"#;
    match KucoinFuturesWs::process_message(json, NOW) {
        Some(WsMessage::OrderBook(event)) => {
            assert_eq!(event.symbol, "BTC/USDT:USDT");
            assert!(!event.is_snapshot);
            assert_eq!(event.order_book.asks.len(), 1);
            assert_eq!(event.order_book.asks[0].price, d("5000.0"));
            assert_eq!(event.order_book.asks[0].amount, d("83"));
            assert!(event.order_book.bids.is_empty());
            assert_eq!(event.order_book.nonce, Some(18));
            assert_eq!(event.order_book.timestamp, Some(1551770400000));
        },
        _ => panic!("Expected OrderBook message"),
    }
    let json = r#"{"type":"message","topic":"/contractMarket/level2Depth5:ETHUSDTM","data":{"bids":[["3000","1"],["2999","2"]],"asks":[["3001","3"]],"timestamp":1}}"#;
    match KucoinFuturesWs::process_message(json, NOW) {
        Some(WsMessage::OrderBook(event)) => {
            assert_eq!(event.symbol, "ETH/USDT:USDT");
            assert!(event.is_snapshot);
            assert_eq!(event.order_book.bids.len(), 2);
            assert_eq!(event.order_book.bids[1].price, d("2999"));
            assert_eq!(event.order_book.asks[0].amount, d("3"));
        },
        _ => panic!("Expected OrderBook message"),
    }
    let data = KucoinFuturesOrderBookData { asks: None, bids: None, timestamp: None, sequence: None, change: Some("1,2,buy".to_string()) };
    let event = KucoinFuturesWs::parse_order_book(&data, "X/Y", false, NOW);
    assert_eq!(event.order_book.bids.len(), 1);
    assert_eq!(event.order_book.timestamp, Some(NOW));
}

#[test]
fn kucoin_futures_ws_trade_and_candle() {
    let json = r#"{"type":"message","topic":"/contractMarket/execution:XBTUSDTM","data":{"symbol":"XBTUSDTM","side":"buy","size":"2","price":"100.5","tradeId":"t1","ts":1545913818099033203}}"#;
    match KucoinFuturesWs::process_message(json, NOW) {
        Some(WsMessage::Trade(event)) => {
            assert_eq!(event.trades.len(), 1);
            let t = &event.trades[0];
            assert_eq!(t.id, "t1");
            assert_eq!(t.cost, Some(d("201.0")));
            assert_eq!(t.timestamp, Some(1545913818099));
            assert_eq!(t.taker_or_maker, Some(TakerOrMaker::Taker));
        },
        _ => panic!("Expected Trade message"),
    }
    let json = r#"{"type":"message","topic":"/contractMarket/candle:XBTUSDTM_60","data":{"symbol":"XBTUSDTM","candles":["1700000000","1","2","3","0.5","10","20"],"time":1}}"#;
    match KucoinFuturesWs::process_message(json, NOW) {
        Some(WsMessage::Ohlcv(event)) => {
            assert_eq!(event.timeframe, Timeframe::Hour1);
            assert_eq!(event.ohlcv.timestamp, 1_700_000_000_000);
            assert_eq!(event.ohlcv.open, d("1"));
            assert_eq!(event.ohlcv.close, d("2"));
            assert_eq!(event.ohlcv.high, d("3"));
            assert_eq!(event.ohlcv.low, d("0.5"));
            assert_eq!(event.ohlcv.volume, d("10"));
        },
        _ => panic!("Expected Ohlcv message"),
    }
    let short = r#"{"type":"message","topic":"/contractMarket/candle:XBTUSDTM_60","data":{"symbol":"XBTUSDTM","candles":["1","2"]}}"#;
    assert!(KucoinFuturesWs::process_message(short, NOW).is_none());
}

#[test]
fn kucoin_futures_ws_order_states_and_fills() {
    let done_canceled = order_data(r#"{"symbol":"XBTUSDTM","orderId":"o","side":"sell","status":"done","remainSize":"1","timeInForce":"GTX","orderType":"stop_market"}"#);
    let o = KucoinFuturesWs::parse_order_update(&done_canceled, NOW).unwrap().order;
    assert_eq!(o.status, OrderStatus::Canceled);
    assert_eq!(o.time_in_force, Some(TimeInForce::PO));
    assert_eq!(o.post_only, Some(true));
    assert_eq!(o.order_type, OrderType::StopMarket);
    assert_eq!(o.timestamp, Some(NOW));
    let done_filled = order_data(r#"{"symbol":"XBTUSDTM","orderId":"o","side":"buy","status":"done","remainSize":"0","size":"2","filledSize":"2","fillPrice":"10"}"#);
    let o = KucoinFuturesWs::parse_order_update(&done_filled, NOW).unwrap().order;
    assert_eq!(o.status, OrderStatus::Closed);
    assert_eq!(o.average, Some(d("10")));
    assert_eq!(o.cost, Some(d("20")));
    let zero_fill = order_data(r#"{"symbol":"XBTUSDTM","orderId":"o","side":"buy","type":"match","matchSize":"0","matchPrice":"10"}"#);
    assert!(KucoinFuturesWs::parse_my_trade(&zero_fill, NOW).is_none());
    let json = r#"{"type":"message","topic":"/contractMarket/tradeOrders:XBTUSDTM","data":{"symbol":"XBTUSDTM","orderId":"o","side":"BUY","type":"match","matchSize":"1","matchPrice":"10","liquidity":"maker"}}"#;
    match KucoinFuturesWs::process_message(json, NOW) {
        Some(WsMessage::MyTrade(event)) => {
            assert_eq!(event.trades[0].side.as_deref(), Some("buy"));
            assert_eq!(event.trades[0].taker_or_maker, Some(TakerOrMaker::Maker));
            assert_eq!(event.trades[0].order.as_deref(), Some("o"));
        },
        _ => panic!("Expected MyTrade message"),
    }
}

#[test]
fn kucoin_futures_ws_balance_used_and_topics() {
    let data = balance_data(r#"{"currency":"USDT","accountEquity":"10","availableBalance":"4"}"#);
    let b = KucoinFuturesWs::parse_balance_update(&data, NOW).unwrap();
    let usdt = b.balances.get("USDT").unwrap();
    assert_eq!(usdt.used, Some(d("6")));
    assert_eq!(b.balances.timestamp, Some(NOW));
    assert_eq!(KucoinFuturesWs::order_book_topic("BTC/USDT:USDT", Some(5)), "/contractMarket/level2Depth5:BTCUSDTM");
    assert_eq!(KucoinFuturesWs::order_book_topic("BTC/USDT:USDT", Some(20)), "/contractMarket/level2Depth50:BTCUSDTM");
    assert_eq!(KucoinFuturesWs::order_book_topic("BTC/USDT:USDT", None), "/contractMarket/level2:BTCUSDTM");
    assert_eq!(KucoinFuturesWs::ohlcv_topic("ETH/USDT", Timeframe::Hour4), "/contractMarket/candle:ETHUSDTM_240");
    assert_eq!(KucoinFuturesWs::orders_topic(None), "/contractMarket/tradeOrders");
    assert_eq!(KucoinFuturesWs::ping_interval_secs(None), 18);
    assert_eq!(KucoinFuturesWs::timeframe_of_interval("10080"), Timeframe::Week1);
    let client = KucoinFuturesWs::new();
    assert_eq!(client.connect_id.len(), 36);
    for (i, c) in client.connect_id.chars().enumerate() {
        if i == 8 || i == 13 || i == 18 || i == 23 {
            assert_eq!(c, '-');
        } else {
            assert!(c.is_ascii_digit() || ('a'..='f').contains(&c));
        }
    }
    assert_eq!(client.connect_id.as_bytes()[14], b'4');
    assert!(b"89ab".contains(&client.connect_id.as_bytes()[19]));
    assert_eq!(client.ws_url("wss://x", "tok"), format!("wss://x?token=tok&connectId={}", client.connect_id));
}

#[test]
fn kucoin_futures_ws_private_headers_and_subscriptions() {
    let mut client = KucoinFuturesWs::new();
    assert!(client.private_token_headers("1").is_err());
    assert!(client.ws_authenticate().is_err());
    client.set_credentials("k", "s", "p");
    let h = client.private_token_headers("1700000000000").unwrap();
    assert_eq!(h[0], ("KC-API-KEY".to_string(), "k".to_string()));
    assert_eq!(h[1].1, KucoinFuturesWs::sign("s", "1700000000000POST/api/v1/bullet-private"));
    assert_eq!(h[3].1, KucoinFuturesWs::sign("s", "p"));
    assert_eq!(h[4].1, "2");
    assert_ne!(KucoinFuturesWs::sign("s", "p"), "p");
    let key = KucoinFuturesWs::subscription_key("ticker", Some("BTC/USDT:USDT"));
    assert_eq!(key, "ticker:BTC/USDT:USDT");
    client.record_subscription(key.clone(), "ticker".to_string());
    client.record_subscription(key, "ticker2".to_string());
    assert_eq!(client.subscriptions.len(), 1);
    assert_eq!(client.subscriptions[0].1, "ticker2");
}
