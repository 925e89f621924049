use ccxt_rust::dec::Dec;
use ccxt_rust::json::Json;
use ccxt_rust::mexc_ws::{
    MexcBalanceItem, MexcBalanceUpdateData, MexcDepthData, MexcDepthEntry, MexcKlineData,
    MexcOrderUpdateData, MexcPrivateWsResponse, MexcTickerData, MexcTradeData, MexcTradeUpdateData, MexcWs,
};
use ccxt_rust::types::{OrderSide, OrderStatus, OrderType, TakerOrMaker, Timeframe};
use ccxt_rust::ws::WsMessage;

const NOW: i64 = 1_700_000_000_000;

fn s(x: &str) -> Option<String> {
    Some(x.to_string())
}

#[test]
fn mexc_ws_test_format_symbol() {
    assert_eq!(MexcWs::format_symbol("BTC/USDT"), "BTCUSDT");
    assert_eq!(MexcWs::format_symbol("ETH/BTC"), "ETHBTC");
}

#[test]
fn mexc_ws_test_to_unified_symbol() {
    assert_eq!(MexcWs::to_unified_symbol("BTCUSDT"), "BTC/USDT");
    assert_eq!(MexcWs::to_unified_symbol("ETHBTC"), "ETH/BTC");
}

#[test]
fn mexc_ws_test_format_interval() {
    assert_eq!(MexcWs::format_interval(Timeframe::Minute1), "Min1");
    assert_eq!(MexcWs::format_interval(Timeframe::Hour1), "Hour1");
    assert_eq!(MexcWs::format_interval(Timeframe::Day1), "Day1");
}

#[test]
fn test_credentials() {
    let client = MexcWs::with_credentials("test_key", "test_secret");
    assert_eq!(client.get_api_key(), Some("test_key"));
    assert!(!client.is_authenticated);
}

#[test]
fn mexc_ws_test_set_credentials() {
    let mut client = MexcWs::new();
    assert!(client.get_api_key().is_none());
    client.set_credentials("my_key", "my_secret");
    assert_eq!(client.get_api_key(), Some("my_key"));
}

#[test]
fn mexc_ws_test_parse_order_update() {
    let data = MexcOrderUpdateData {
        e: s("executionReport"),
        event_time: Some(1699123456789),
        s: s("BTCUSDT"),
        symbol: s("BTCUSDT"),
        c: s("client123"),
        client_order_id: s("client123"),
        side: s("BUY"),
        o: s("LIMIT"),
        order_type: s("LIMIT"),
        q: s("0.001"),
        quantity: s("0.001"),
        p: s("50000.00"),
        price: s("50000.00"),
        order_status: s("NEW"),
        i: Some(12345),
        order_id: Some(12345),
        z: s("0.0"),
        executed_qty: s("0.0"),
        cummulative_quote_qty: s("0.0"),
        time: Some(1699123456789),
    };
    let event = MexcWs::parse_order_update(&data, NOW);
    assert_eq!(event.order.symbol, "BTC/USDT");
    assert_eq!(event.order.id, "12345");
    assert_eq!(event.order.side, OrderSide::Buy);
    assert_eq!(event.order.order_type, OrderType::Limit);
    assert_eq!(event.order.status, OrderStatus::Open);
    assert_eq!(event.order.price, Some(Dec::new(5000000, 2)));
}

#[test]
fn test_parse_order_update_filled() {
    let data = MexcOrderUpdateData {
        symbol: s("ETHUSDT"),
        order_id: Some(67890),
        client_order_id: s("order_abc"),
        side: s("SELL"),
        order_type: s("MARKET"),
        quantity: s("1.0"),
        price: s("0"),
        order_status: s("FILLED"),
        executed_qty: s("1.0"),
        cummulative_quote_qty: s("2000.00"),
        time: Some(1699123456000),
        ..Default::default()
    };
    let event = MexcWs::parse_order_update(&data, NOW);
    assert_eq!(event.order.symbol, "ETH/USDT");
    assert_eq!(event.order.side, OrderSide::Sell);
    assert_eq!(event.order.order_type, OrderType::Market);
    assert_eq!(event.order.status, OrderStatus::Closed);
    assert_eq!(event.order.filled, Dec::new(10, 1));
}

#[test]
fn mexc_ws_test_parse_my_trade() {
    let data = MexcTradeUpdateData {
        e: s("executionReport"),
        event_time: Some(1699123456789),
        s: s("BTCUSDT"),
        symbol: s("BTCUSDT"),
        t: Some(1111),
        trade_id: Some(1111),
        p: s("50000.00"),
        price: s("50000.00"),
        q: s("0.001"),
        quantity: s("0.001"),
        n: s("0.025"),
        commission: s("0.025"),
        commission_asset: s("USDT"),
        trade_time: Some(1699123456789),
        m: Some(true),
        is_maker: Some(true),
        side: s("BUY"),
        i: Some(12345),
        order_id: Some(12345),
    };
    let event = MexcWs::parse_my_trade(&data, NOW);
    assert_eq!(event.symbol, "BTC/USDT");
    assert_eq!(event.trades.len(), 1);
    let trade = &event.trades[0];
    assert_eq!(trade.id, "1111");
    assert_eq!(trade.order, Some("12345".to_string()));
    assert_eq!(trade.price, Dec::new(5000000, 2));
    assert_eq!(trade.amount, Dec::new(1, 3));
    assert_eq!(trade.side, Some("buy".to_string()));
    assert_eq!(trade.taker_or_maker, Some(TakerOrMaker::Maker));
    assert!(trade.fee.is_some());
    let fee = trade.fee.as_ref().unwrap();
    assert_eq!(fee.cost, Some(Dec::new(25, 3)));
    assert_eq!(fee.currency, Some("USDT".to_string()));
}

#[test]
fn test_parse_order_update_canceled() {
    let data = MexcOrderUpdateData {
        symbol: s("BTCUSDT"),
        order_id: Some(99999),
        side: s("BUY"),
        order_type: s("LIMIT"),
        quantity: s("0.01"),
        price: s("45000.00"),
        order_status: s("CANCELED"),
        executed_qty: s("0.0"),
        cummulative_quote_qty: s("0.0"),
        time: Some(1699123456000),
        ..Default::default()
    };
    let event = MexcWs::parse_order_update(&data, NOW);
    assert_eq!(event.order.status, OrderStatus::Canceled);
}

#[test]
fn test_process_private_message_order() {
    let msg = r#"{"e":"executionReport","E":1699123456789,"s":"BTCUSDT","S":"BUY","o":"LIMIT","q":"0.001","p":"50000.00","X":"NEW","i":12345,"z":"0.0","Z":"0.0","T":1699123456789}"#;
    let result = MexcWs::process_private_message(msg, NOW);
    assert!(result.is_some());
    if let Some(WsMessage::Order(event)) = result {
        assert_eq!(event.order.symbol, "BTC/USDT");
    } else {
        panic!("Expected Order message");
    }
}

#[test]
fn test_process_private_message_trade() {
    let msg = r#"{"e":"executionReport","E":1699123456789,"s":"BTCUSDT","x":"TRADE","S":"BUY","p":"50000.00","q":"0.001","n":"0.025","N":"USDT","T":1699123456789,"m":true,"t":1111,"i":12345}"#;
    let result = MexcWs::process_private_message(msg, NOW);
    assert!(result.is_some());
    if let Some(WsMessage::MyTrade(event)) = result {
        assert_eq!(event.symbol, "BTC/USDT");
        assert_eq!(event.trades.len(), 1);
    } else {
        panic!("Expected MyTrade message");
    }
}

#[test]
fn test_process_private_message_unknown() {
    let msg = r#"{"e":"unknown_event","E":1699123456789}"#;
    let result = MexcWs::process_private_message(msg, NOW);
    assert!(result.is_none());
}

#[test]
fn test_order_side_parsing() {
    let data = MexcOrderUpdateData { side: s("BUY"), ..Default::default() };
    assert_eq!(MexcWs::parse_order_update(&data, NOW).order.side, OrderSide::Buy);
    let data = MexcOrderUpdateData { side: s("SELL"), ..Default::default() };
    assert_eq!(MexcWs::parse_order_update(&data, NOW).order.side, OrderSide::Sell);
}

#[test]
fn test_order_status_parsing() {
    let st = |x: &str| MexcWs::parse_order_update(&MexcOrderUpdateData { order_status: s(x), ..Default::default() }, NOW).order.status;
    assert_eq!(st("NEW"), OrderStatus::Open);
    assert_eq!(st("PARTIALLY_FILLED"), OrderStatus::Open);
    assert_eq!(st("FILLED"), OrderStatus::Closed);
    assert_eq!(st("CANCELED"), OrderStatus::Canceled);
    assert_eq!(st("REJECTED"), OrderStatus::Canceled);
    assert_eq!(st("EXPIRED"), OrderStatus::Canceled);
}

#[test]
fn test_trade_taker_maker() {
    let data = MexcTradeUpdateData { is_maker: Some(true), symbol: s("BTCUSDT"), ..Default::default() };
    assert_eq!(MexcWs::parse_my_trade(&data, NOW).trades[0].taker_or_maker, Some(TakerOrMaker::Maker));
    let data = MexcTradeUpdateData { is_maker: Some(false), symbol: s("BTCUSDT"), ..Default::default() };
    assert_eq!(MexcWs::parse_my_trade(&data, NOW).trades[0].taker_or_maker, Some(TakerOrMaker::Taker));
}

#[test]
fn mexc_ws_test_parse_balance_update() {
    let data = MexcBalanceUpdateData {
        e: s("outboundAccountPosition"),
        event_time: Some(1699123456789),
        u: Some(1699123456789),
        balances: vec![
            MexcBalanceItem { a: s("USDT"), f: s("10000.00"), l: s("500.00") },
            MexcBalanceItem { a: s("BTC"), f: s("1.5"), l: s("0.5") },
        ],
    };
    let event = MexcWs::parse_balance_update(&data, NOW);
    assert!(event.balances.get("USDT").is_some());
    assert!(event.balances.get("BTC").is_some());
    let usdt = event.balances.get("USDT").unwrap();
    assert_eq!(usdt.free, Some(Dec::new(1000000, 2)));
    assert_eq!(usdt.used, Some(Dec::new(50000, 2)));
    assert_eq!(usdt.total, Some(Dec::new(1050000, 2)));
    let btc = event.balances.get("BTC").unwrap();
    assert_eq!(btc.free, Some(Dec::new(15, 1)));
    assert_eq!(btc.used, Some(Dec::new(5, 1)));
    assert_eq!(btc.total, Some(Dec::new(20, 1)));
}

#[test]
fn test_parse_balance_update_empty() {
    let data = MexcBalanceUpdateData {
        e: s("outboundAccountPosition"),
        event_time: Some(1699123456789),
        u: None,
        balances: vec![],
    };
    let event = MexcWs::parse_balance_update(&data, NOW);
    assert!(event.balances.currencies.is_empty());
    assert_eq!(event.balances.timestamp, Some(1699123456789));
}

#[test]
fn test_process_private_message_balance() {
    let msg = r#"{"e":"outboundAccountPosition","E":1699123456789,"u":1699123456789,"B":[{"a":"USDT","f":"10000.00","l":"500.00"}]}"#;
    let result = MexcWs::process_private_message(msg, NOW);
    assert!(result.is_some());
    if let Some(WsMessage::Balance(event)) = result {
        assert!(event.balances.get("USDT").is_some());
    } else {
        panic!("Expected Balance message");
    }
}

#[test]
fn test_balance_data_types() {
    let json = r#"{"e":"outboundAccountPosition","E":1699123456789,"u":1699123456789,"B":[{"a":"ETH","f":"5.0","l":"1.0"}]}"#;
    let data = MexcWs::read_balance_data(&Json::parse(json).unwrap()).unwrap();
    assert_eq!(data.e, Some("outboundAccountPosition".to_string()));
    assert_eq!(data.balances.len(), 1);
    assert_eq!(data.balances[0].a, Some("ETH".to_string()));
}

#[test]
fn test_balance_update_event() {
    let msg = r#"{"e":"balanceUpdate","E":1699123456789,"B":[{"a":"BTC","f":"2.0","l":"0.5"}]}"#;
    let result = MexcWs::process_private_message(msg, NOW);
    assert!(result.is_some());
    if let Some(WsMessage::Balance(event)) = result {
        let btc = event.balances.get("BTC").unwrap();
        assert_eq!(btc.free, Some(Dec::new(20, 1)));
        assert_eq!(btc.used, Some(Dec::new(5, 1)));
    } else {
        panic!("Expected Balance message");
    }
}

#[test]
fn mexc_ws_public_messages() {
    match MexcWs::process_message(r#"{"id":0,"code":0,"msg":"spot@public.deals.v3.api@BTCUSDT","c":"spot@public.deals.v3.api@BTCUSDT"}"#, None, NOW) {
        Some(WsMessage::Subscribed { channel, symbol }) => {
            assert_eq!(channel, "spot@public.deals.v3.api@BTCUSDT");
            assert!(symbol.is_none());
        },
        _ => panic!("Expected Subscribed"),
    }
    assert!(MexcWs::process_message(r#"{"code":0,"msg":"PONG"}"#, None, NOW).is_none());
    let t = r#"{"c":"spot@public.ticker.v3.api@ETHUSDT","d":{"o":"1","c":"2","h":"3","l":"0.5","v":"10","q":"20","r":"0.1","b":"1.9","a":"2.1","t":5},"t":6}"#;
    match MexcWs::process_message(t, None, NOW) {
        Some(WsMessage::Ticker(e)) => {
            assert_eq!(e.symbol, "ETH/USDT");
            assert_eq!(e.ticker.timestamp, Some(5));
            assert_eq!(e.ticker.percentage, Dec::parse("0.1"));
        },
        _ => panic!("Expected Ticker"),
    }
    let dp = r#"{"c":"spot@public.limit.depth.v3.api@BTCUSDT@5","d":{"bids":[{"p":"1","v":"2"},{"p":"x","v":"2"}],"asks":[],"r":"3"}}"#;
    assert!(MexcWs::process_message(dp, None, NOW).is_none());
    let dp = r#"{"c":"spot@public.limit.depth.v3.api@BTCUSDT","d":{"bids":[{"p":"1","v":"2"},{"p":"x","v":"2"}],"asks":[],"r":3}}"#;
    match MexcWs::process_message(dp, None, NOW) {
        Some(WsMessage::OrderBook(e)) => {
            assert_eq!(e.symbol, "BTC/USDT");
            assert_eq!(e.order_book.bids.len(), 1);
            assert_eq!(e.order_book.nonce, Some(3));
            assert_eq!(e.order_book.timestamp, Some(NOW));
        },
        _ => panic!("Expected OrderBook"),
    }
    let dl = r#"{"c":"spot@public.deals.v3.api@BTCUSDT","d":{"deals":[{"p":"10","v":"2","S":2,"t":7}]}}"#;
    assert!(MexcWs::process_message(dl, None, NOW).is_none());
    let dl = r#"{"c":"spot@public.deals.v3.api@BTCUSDT","d":{"deals":[{"p":"10","v":"2","S":"2","t":7}]}}"#;
    match MexcWs::process_message(dl, None, NOW) {
        Some(WsMessage::Trade(e)) => {
            assert_eq!(e.trades[0].side.as_deref(), Some("sell"));
            assert_eq!(e.trades[0].id, "7");
            assert_eq!(e.trades[0].cost, Dec::parse("20"));
        },
        _ => panic!("Expected Trade"),
    }
    let kl = r#"{"c":"spot@public.kline.v3.api@BTCUSDT@Min5","d":{"k":{"t":9,"o":"1","c":"2","h":"3","l":"0.5","v":"4"}}}"#;
    match MexcWs::process_message(kl, Some(Timeframe::Minute5), NOW) {
        Some(WsMessage::Ohlcv(e)) => {
            assert_eq!(e.timeframe, Timeframe::Minute5);
            assert_eq!(e.ohlcv.timestamp, 9);
            assert_eq!(e.symbol, "MIN5");
        },
        _ => panic!("Expected Ohlcv"),
    }
}

#[test]
fn mexc_ws_direct_parsers_and_signing() {
    let t = MexcWs::parse_ticker(&MexcTickerData { c: s("5"), ..Default::default() }, "btcusdc", NOW);
    assert_eq!(t.symbol, "BTC/USDC");
    assert_eq!(t.ticker.timestamp, Some(NOW));
    let b = MexcWs::parse_order_book(&MexcDepthData { bids: vec![MexcDepthEntry { p: s("1"), v: None }], asks: vec![], r: None }, "XBUSD", NOW);
    assert!(b.order_book.bids.is_empty());
    assert_eq!(b.symbol, "X/BUSD");
    let tr = MexcWs::parse_trade(&MexcTradeData { p: s("1"), v: None, side: s("BUY"), t: None }, "A", NOW);
    assert_eq!(tr.trades[0].side.as_deref(), Some("buy"));
    assert!(tr.trades[0].cost.is_none());
    let k = MexcWs::parse_kline(&MexcKlineData::default(), "AB", Timeframe::Hour4, NOW);
    assert_eq!(k.ohlcv.timestamp, NOW);
    let ws = MexcWs::with_credentials("k", "s");
    let (key, url) = ws.listen_key_request(123).unwrap();
    assert_eq!(key, "k");
    let sig = ws.create_signature("timestamp=123&recvWindow=5000").unwrap();
    assert_eq!(url, format!("https://api.mexc.com/api/v3/userDataStream?timestamp=123&recvWindow=5000&signature={sig}"));
    assert_eq!(sig.len(), 64);
    assert!(MexcWs::new().listen_key_request(1).is_err());
    let filled = MexcOrderUpdateData { executed_qty: s("1.0"), cummulative_quote_qty: s("2000.00"), ..Default::default() };
    let o = MexcWs::parse_order_update(&filled, NOW).order;
    assert_eq!(o.average.map(|a| a.to_text()), Some("2000.0".to_string()));
    assert_eq!(o.timestamp, Some(NOW));
    assert_eq!(MexcWs::private_url("abc"), "wss://wbs.mexc.com/ws?listenKey=abc");
}

#[test]
fn test_private_data_types() {
    let json = r#"{"e":"executionReport","E":1699123456789,"s":"BTCUSDT","x":"NEW"}"#;
    let response: MexcPrivateWsResponse = MexcWs::read_private_head(&Json::parse(json).unwrap()).unwrap();
    assert_eq!(response.e, Some("executionReport".to_string()));
    assert_eq!(response.x, Some("NEW".to_string()));
    assert_eq!(response.event_time, Some(1699123456789));
    assert_eq!(response.s, Some("BTCUSDT".to_string()));
}
