use ccxt_rust::dec::Dec;
use ccxt_rust::json::Json;
use ccxt_rust::mexc::{
    Mexc, MexcBalance, MexcDepositAddress, MexcOrder, MexcPremiumIndex, MexcSymbol, MexcTicker, MexcTrade,
    MexcTransferRecord, MexcWithdrawal,
};
use ccxt_rust::types::{
    CcxtError, ExchangeConfig, MarginMode, MarginModificationType, OrderSide, OrderStatus, OrderType, Timeframe,
    TransactionStatus,
};

fn d(s: &str) -> Dec {
    Dec::parse(s).unwrap()
}

fn value(x: Option<Dec>) -> Option<rust_decimal::Decimal> {
    x.map(|v| rust_decimal::Decimal::from_i128_with_scale(v.mantissa, v.scale))
}

#[test]
fn mexc_test_exchange_info() {
    let config = ExchangeConfig::default();
    let exchange = Mexc::new(config).unwrap();

    assert_eq!(exchange.name(), "MEXC");
    assert!(exchange.has().spot);
    assert!(exchange.has().fetch_ticker);
}

#[test]
fn mexc_test_symbol_conversion() {
    let config = ExchangeConfig::default();
    let exchange = Mexc::new(config).unwrap();

    assert_eq!(exchange.to_market_id("BTC/USDT"), "BTCUSDT");
    assert_eq!(exchange.to_market_id("ETH/BTC"), "ETHBTC");
}

fn sym(id: &str, status: &str) -> MexcSymbol {
    MexcSymbol {
        symbol: id.to_string(),
        status: status.to_string(),
        base_asset: id[..3].to_string(),
        base_asset_precision: 8,
        quote_asset: id[3..].to_string(),
        quote_precision: 2,
        quote_amount_precision: Some("5".to_string()),
    }
}

#[test]
fn mexc_markets_enabled_only_and_symbols() {
    let mut ex = Mexc::new(ExchangeConfig::new()).unwrap();
    let m = Mexc::parse_markets(&vec![sym("BTCUSDT", "ENABLED"), sym("ETHUSDT", "DISABLED")]);
    assert_eq!(m.len(), 1);
    assert_eq!(m[0].symbol, "BTC/USDT");
    assert_eq!(m[0].limits.cost.min, Some(d("5")));
    assert_eq!(ex.to_symbol("BTCUSDT"), "BTCUSDT");
    ex.store_markets(&m);
    assert_eq!(ex.to_symbol("BTCUSDT"), "BTC/USDT");
    assert_eq!(ex.symbol("BTCUSDT").as_deref(), Some("BTC/USDT"));
    assert_eq!(ex.get_timeframe_string(Timeframe::Week1), Some("1W"));
    assert!(ex.get_timeframe_string(Timeframe::Hour2).is_none());
}

fn order(status: &str, executed: &str, cost: &str) -> MexcOrder {
    MexcOrder {
        symbol: "BTCUSDT".to_string(),
        order_id: 12345,
        client_order_id: Some("c1".to_string()),
        price: "50000".to_string(),
        orig_qty: "2".to_string(),
        executed_qty: executed.to_string(),
        cummulative_quote_qty: cost.to_string(),
        status: status.to_string(),
        order_type: "LIMIT".to_string(),
        side: "SELL".to_string(),
        time: 1609459200000,
        update_time: None,
    }
}

#[test]
fn mexc_order_average_and_status() {
    let ex = Mexc::new(ExchangeConfig::new()).unwrap();
    let o = ex.parse_order(&order("PARTIALLY_FILLED", "1", "50000"), "BTC/USDT");
    assert_eq!(o.status, OrderStatus::Open);
    assert_eq!(o.side, OrderSide::Sell);
    assert_eq!(o.order_type, OrderType::Limit);
    assert_eq!(value(o.average), value(Some(d("50000"))));
    assert_eq!(o.remaining, Some(d("1")));
    let none = ex.parse_order(&order("NEW", "0", "0"), "BTC/USDT");
    assert!(none.average.is_none());
    assert_eq!(Mexc::parse_status("EXPIRED"), OrderStatus::Canceled);
    let closed = ex.parse_closed_orders(&vec![order("NEW", "0", "0"), order("FILLED", "2", "1")], "BTC/USDT");
    assert_eq!(closed.len(), 1);
    assert_eq!(closed[0].status, OrderStatus::Closed);
}

#[test]
fn mexc_tickers_and_trades() {
    let ex = Mexc::new(ExchangeConfig::new()).unwrap();
    let t = MexcTicker {
        symbol: Some("BTCUSDT".to_string()),
        price_change: Some("10".to_string()),
        price_change_percent: None,
        weighted_avg_price: None,
        prev_close_price: None,
        last_price: Some("100".to_string()),
        bid_price: None,
        bid_qty: None,
        ask_price: None,
        ask_qty: None,
        open_price: None,
        high_price: None,
        low_price: None,
        volume: None,
        quote_volume: None,
        open_time: None,
        close_time: None,
    };
    let anon = MexcTicker { symbol: None, ..t.clone() };
    let r = ex.parse_tickers(&vec![t.clone(), anon], None, 7);
    assert_eq!(r.len(), 1);
    assert_eq!(r[0].0, "BTCUSDT");
    assert_eq!(r[0].1.timestamp, Some(7));
    assert_eq!(r[0].1.change, Some(d("10")));
    let trades = vec![
        MexcTrade { id: 1, price: "2".to_string(), qty: "3".to_string(), time: 10, is_buyer_maker: true },
        MexcTrade { id: 2, price: "2".to_string(), qty: "3".to_string(), time: 20, is_buyer_maker: false },
    ];
    let tr = Mexc::parse_trades(&trades, "BTC/USDT", Some(15));
    assert_eq!(tr.len(), 1);
    assert_eq!(tr[0].side.as_deref(), Some("buy"));
    assert_eq!(tr[0].cost, Some(d("6")));
    assert_eq!(Mexc::parse_trades(&trades, "BTC/USDT", None)[0].side.as_deref(), Some("sell"));
}

#[test]
fn mexc_book_balance_klines() {
    let bids = vec![vec!["100".to_string(), "1".to_string()], vec!["x".to_string(), "1".to_string()]];
    let b = Mexc::parse_order_book(Some(99), &bids, &vec![], "BTC/USDT", 0);
    assert_eq!(b.bids.len(), 1);
    assert_eq!(b.nonce, Some(99));
    let bal = Mexc::parse_balance(
        &vec![
            MexcBalance { asset: "BTC".to_string(), free: "1".to_string(), locked: "0.5".to_string() },
            MexcBalance { asset: "ETH".to_string(), free: "0".to_string(), locked: "0".to_string() },
        ],
        Some(5),
        0,
    );
    assert_eq!(bal.currencies.len(), 1);
    assert_eq!(bal.get("BTC").unwrap().total, Some(d("1.5")));
    let s = |x: &str| Json::Str(x.to_string());
    let rows = vec![vec![Json::Num("1000".to_string()), s("1"), s("2"), s("0.5"), s("1.5"), s("10")], vec![s("1")]];
    let k = Mexc::parse_klines(&rows);
    assert_eq!(k.len(), 1);
    assert_eq!(k[0].timestamp, 1000);
    assert_eq!(k[0].low, d("0.5"));
}

#[test]
fn mexc_requests() {
    let ex = Mexc::new(ExchangeConfig::new()).unwrap();
    assert!(matches!(ex.ohlcv_params("BTC/USDT", Timeframe::Hour2, None, None), Err(CcxtError::BadRequest { .. })));
    let p = ex.ohlcv_params("BTC/USDT", Timeframe::Hour1, Some(5), None).unwrap();
    assert_eq!(p[2].1, "500");
    assert_eq!(p[3], ("startTime".to_string(), "5".to_string()));
    assert!(ex.symbol_list_params(None, None, None).is_err());
    assert!(ex.cancel_all_params(None).is_err());
    let o = ex.create_order_params("BTC/USDT", OrderType::StopLimit, OrderSide::Buy, d("1"), None);
    assert_eq!(o[2].1, "LIMIT");
    assert!(ex.private_request("GET", "/api/v3/account", &vec![], 1).is_err());
    let cfg = ExchangeConfig::new().with_api_key("k".to_string()).with_api_secret("s".to_string());
    let ex = Mexc::new(cfg).unwrap();
    let r = ex.private_request("GET", "/api/v3/account", &vec![("a".to_string(), "1".to_string())], 1700).unwrap();
    assert!(r.url.starts_with("https://api.mexc.com/api/v3/account?a=1&timestamp=1700&recvWindow=5000&signature="));
    assert_eq!(r.headers[0].1, "k");
    let t = Mexc::transfer_params("USDT", d("1"), "spot", "futures");
    assert_eq!(t[3].1, "FUTURES");
    let w = Mexc::parse_withdrawal(&MexcWithdrawal {
        id: "w1".to_string(),
        coin: "BTC".to_string(),
        network: None,
        amount: "1".to_string(),
        address: "addr".to_string(),
        tx_id: None,
        status: "rejected".to_string(),
        transaction_fee: Some("0.0005".to_string()),
        apply_time: None,
        confirm_no: None,
    });
    assert_eq!(w.status, TransactionStatus::Canceled);
    assert_eq!(w.fee.unwrap().currency.as_deref(), Some("BTC"));
}

#[test]
fn mexc_transfer_records_become_entries() {
    let rows = vec![
        MexcTransferRecord {
            tran_id: 77,
            asset: "USDT".to_string(),
            amount: "12.5".to_string(),
            timestamp: Some(1_700_000_000_000),
            status: "SUCCESS".to_string(),
        },
        MexcTransferRecord {
            tran_id: 78,
            asset: "BTC".to_string(),
            amount: "n/a".to_string(),
            timestamp: None,
            status: String::new(),
        },
    ];
    let out = Mexc::parse_transfers(&Some(rows));
    assert_eq!(out.len(), 2);
    assert_eq!(out[0].id.as_deref(), Some("77"));
    assert_eq!(out[0].currency.as_deref(), Some("USDT"));
    assert_eq!(out[0].amount, Some(d("12.5")));
    assert_eq!(out[0].timestamp, Some(1_700_000_000_000));
    assert_eq!(out[0].status.as_deref(), Some("SUCCESS"));
    assert_eq!(out[1].amount, Some(Dec::zero()));
    assert_eq!(out[1].timestamp, Some(0));
    assert!(out[1].from_account.is_none());
    assert!(Mexc::parse_transfers(&None).is_empty());
    assert_eq!(
        Mexc::transfer_list_params(Some(5), Some(10)),
        vec![("startTime".to_string(), "5".to_string()), ("size".to_string(), "10".to_string())]
    );
    assert!(Mexc::transfer_list_params(None, None).is_empty());
}

#[test]
fn mexc_transfer_done_is_ok() {
    let t = Mexc::transfer_done("USDT", d("3"), "spot", "futures", 991, 1_234);
    assert_eq!(t.id.as_deref(), Some("991"));
    assert_eq!(t.from_account.as_deref(), Some("spot"));
    assert_eq!(t.to_account.as_deref(), Some("futures"));
    assert_eq!(t.amount, Some(d("3")));
    assert_eq!(t.timestamp, Some(1_234));
    assert_eq!(t.status.as_deref(), Some("ok"));
}

#[test]
fn mexc_deposit_address_first_or_error() {
    let rows = vec![
        MexcDepositAddress {
            address: "addr1".to_string(),
            tag: Some("memo".to_string()),
            network: "TRC20".to_string(),
            coin: "USDT".to_string(),
        },
        MexcDepositAddress { address: "addr2".to_string(), tag: None, network: "ERC20".to_string(), coin: "USDT".to_string() },
    ];
    let a = Mexc::parse_deposit_address("USDT", &rows).unwrap();
    assert_eq!(a.currency, "USDT");
    assert_eq!(a.address, "addr1");
    assert_eq!(a.tag.as_deref(), Some("memo"));
    assert_eq!(a.network.as_deref(), Some("TRC20"));
    match Mexc::parse_deposit_address("XRP", &Vec::new()) {
        Err(CcxtError::BadResponse { message }) => assert_eq!(message, "No deposit address found for XRP"),
        other => panic!("unexpected {:?}", other),
    }
}

#[test]
fn mexc_premium_index_tickers() {
    let data = MexcPremiumIndex {
        symbol: "BTC_USDT".to_string(),
        index_price: "43000.5".to_string(),
        mark_price: "43001".to_string(),
        last_funding_rate: "0.0001".to_string(),
    };
    let t = Mexc::parse_index_price(&data, "BTC/USDT:USDT", 1_000, "2024-01-01T00:00:00+00:00");
    assert_eq!(t.symbol, "BTC/USDT:USDT");
    assert_eq!(t.timestamp, Some(1_000));
    assert_eq!(t.datetime.as_deref(), Some("2024-01-01T00:00:00+00:00"));
    assert_eq!(t.last, Some(d("43000.5")));
    assert_eq!(t.index_price, Some(d("43000.5")));
    assert_eq!(t.mark_price, Some(d("43001")));
    assert!(t.bid.is_none() && t.close.is_none());
    let m = Mexc::parse_mark_price(&data, "BTC/USDT:USDT", 1_000, "now");
    assert_eq!(m.mark_price, Some(d("43001")));
    assert!(m.last.is_none() && m.index_price.is_none());
    let bad = MexcPremiumIndex { mark_price: "?".to_string(), ..data };
    assert_eq!(Mexc::parse_mark_price(&bad, "X", 0, "").mark_price, Some(Dec::zero()));
}

#[test]
fn mexc_leverage_and_margin_results() {
    let l = Mexc::default_leverage("BTC/USDT");
    assert_eq!(l.long_leverage, Dec::from_i64(20));
    assert_eq!(l.short_leverage, Dec::from_i64(20));
    assert_eq!(l.margin_mode, MarginMode::Cross);
    let s = Mexc::leverage_set(d("5"), "ETH/USDT");
    assert_eq!(s.symbol, "ETH/USDT");
    assert_eq!(s.long_leverage, d("5"));
    assert_eq!(s.short_leverage, d("5"));
    let m = Mexc::margin_mode_set(MarginMode::Isolated, "ETH/USDT");
    assert_eq!(m.margin_mode, MarginMode::Isolated);
    let add = Mexc::margin_modified("ETH/USDT", d("1.5"), true);
    assert_eq!(add.modification_type, Some(MarginModificationType::Add));
    assert_eq!(add.amount, Some(d("1.5")));
    let red = Mexc::margin_modified("ETH/USDT", d("2"), false);
    assert_eq!(red.modification_type, Some(MarginModificationType::Reduce));
    let f = Mexc::parse_funding_rate("BTC/USDT:USDT", "0.0001", 9);
    assert_eq!(f.funding_rate, Some(d("0.0001")));
    assert_eq!(f.timestamp, Some(9));
    let oi = Mexc::parse_open_interest("BTC/USDT:USDT", "bad", 9);
    assert_eq!(oi.amount, Some(Dec::zero()));
}

#[test]
fn mexc_edit_order_is_refused() {
    let ex = Mexc::new(ExchangeConfig::default()).unwrap();
    match ex.edit_order("12", "BTC/USDT", None, None, None, None) {
        Err(CcxtError::NotSupported { feature }) => {
            assert_eq!(feature, "Order editing is not supported. Order: 12, Symbol: BTC/USDT")
        }
        other => panic!("unexpected {:?}", other),
    }
}
