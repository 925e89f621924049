//! One Trading: spot exchange with bearer-token REST API.

use crate::common::{
    build_query, contains_text, copy_opt, keyed_insert, lemma_pair_keyed_empty, lemma_pair_keyed_step,
    opt_view, pair_keyed_by_last, param1, push_param, query_spec, texts_of, MarketIndex,
};
use crate::json::{json_text_object, json_text_object_of};
use crate::dec::{
    checked_op, dec_add, dec_mul, dec_sub, opt_parts, opt_text_dec, opt_text_dec_or_zero,
    parse_opt, parse_opt_or_zero, spec_dec_add, spec_dec_mul, spec_dec_parse, spec_dec_sub, spec_dec_to_string,
    Dec,
};
use crate::text::{
    concat2, concat3, copy_str, int_to_string, push_str, replace_all, replace_char,
    spec_int_to_string, str_eq,
};
use crate::time::{iso8601, opt_rfc3339_ms, parse_opt_rfc3339_ms, parse_rfc3339_ms, spec_iso8601, spec_rfc3339_ms};
use crate::types::{
    spec_timeframe_name,
    ExchangeUrls,
    keyed_by_last, lemma_keyed_empty, lemma_keyed_step, Balance, Balances, CcxtError,
    ExchangeConfig, ExchangeFeatures, ExchangeId, Fee, Market, MarketLimits, MarketPrecision,
    MarketType, MinMax, OHLCV, Order, OrderBook, OrderBookEntry, OrderSide, OrderStatus, OrderType, SignedRequest,
    TakerOrMaker, Ticker, TimeInForce, Timeframe, Trade, spec_order_type_name,
};
use vstd::prelude::*;

verus! {

/// REST base address.
pub const ONETRADING_BASE_URL: &'static str = "https://api.onetrading.com/fast";

/// Minimum spacing of requests, in milliseconds.
pub const ONETRADING_RATE_LIMIT_MS: u64 = 300;

/// Ticker as the exchange sends it.
#[derive(Clone, Debug, PartialEq)]
pub struct OnetradingTicker {
    pub instrument_code: String,
    pub time: String,
    pub last_price: Option<String>,
    pub best_bid: Option<String>,
    pub best_ask: Option<String>,
    pub price_change: Option<String>,
    pub price_change_percentage: Option<String>,
    pub high: Option<String>,
    pub low: Option<String>,
    pub base_volume: Option<String>,
    pub quote_volume: Option<String>,
}

/// Order as the exchange sends it.
#[derive(Clone, Debug, PartialEq)]
pub struct OnetradingOrder {
    pub order_id: Option<String>,
    pub client_id: Option<String>,
    pub instrument_code: Option<String>,
    pub time: Option<String>,
    pub time_last_updated: Option<String>,
    pub side: Option<String>,
    pub price: Option<String>,
    pub average_price: Option<String>,
    pub amount: Option<String>,
    pub filled_amount: Option<String>,
    pub order_type: Option<String>,
    pub status: Option<String>,
    pub time_in_force: Option<String>,
    pub is_post_only: Option<bool>,
    pub trigger_price: Option<String>,
}

/// Nested trade fields of a trade.
#[derive(Clone, Debug, PartialEq)]
pub struct OnetradingTradeData {
    pub trade_id: Option<String>,
    pub order_id: Option<String>,
    pub instrument_code: Option<String>,
    pub amount: Option<String>,
    pub side: Option<String>,
    pub price: Option<String>,
    pub time: Option<String>,
}

/// Fee of a trade as the exchange sends it.
#[derive(Clone, Debug, PartialEq)]
pub struct OnetradingFee {
    pub fee_amount: Option<String>,
    pub fee_currency: Option<String>,
    pub fee_percentage: Option<String>,
    pub fee_type: Option<String>,
}

/// Trade as the exchange sends it: nested trade data, or the same fields
/// flattened.
#[derive(Clone, Debug, PartialEq)]
pub struct OnetradingTrade {
    pub trade: Option<OnetradingTradeData>,
    pub fee: Option<OnetradingFee>,
    pub trade_id: Option<String>,
    pub order_id: Option<String>,
    pub instrument_code: Option<String>,
    pub amount: Option<String>,
    pub side: Option<String>,
    pub price: Option<String>,
    pub time: Option<String>,
}

/// One currency's holdings as the exchange sends them.
#[derive(Clone, Debug, PartialEq)]
pub struct OnetradingBalance {
    pub currency_code: String,
    pub available: Option<String>,
    pub locked: Option<String>,
}

/// Asset of an instrument.
#[derive(Clone, Debug, PartialEq)]
pub struct OnetradingAsset {
    pub code: Option<String>,
    pub precision: Option<i32>,
}

/// Instrument as the exchange sends it.
#[derive(Clone, Debug, PartialEq)]
pub struct OnetradingMarket {
    pub id: Option<String>,
    pub state: Option<String>,
    pub base: Option<OnetradingAsset>,
    pub quote: Option<OnetradingAsset>,
    pub amount_precision: Option<i32>,
    pub market_precision: Option<i32>,
    pub min_size: Option<String>,
}

/// Order-book level as the exchange sends it.
#[derive(Clone, Debug, PartialEq)]
pub struct OnetradingOrderBookEntry {
    pub price: Option<String>,
    pub amount: Option<String>,
}

/// Candle as the exchange sends it.
#[derive(Clone, Debug, PartialEq)]
pub struct OnetradingCandlestick {
    pub time: Option<String>,
    pub open: Option<String>,
    pub high: Option<String>,
    pub low: Option<String>,
    pub close: Option<String>,
    pub total_amount: Option<String>,
    pub volume: Option<String>,
}

/// The One Trading adapter.
pub struct Onetrading {
    pub config: ExchangeConfig,
    pub features: ExchangeFeatures,
    pub markets_by_id: MarketIndex,
}

/// What One Trading offers.
pub open spec fn spec_onetrading_features() -> ExchangeFeatures {
    ExchangeFeatures {
        spot: true,
        fetch_markets: true,
        fetch_currencies: true,
        fetch_ticker: true,
        fetch_tickers: true,
        fetch_order_book: true,
        fetch_ohlcv: true,
        fetch_balance: true,
        create_order: true,
        create_limit_order: true,
        create_market_order: true,
        cancel_order: true,
        cancel_all_orders: true,
        fetch_order: true,
        fetch_open_orders: true,
        fetch_closed_orders: true,
        fetch_my_trades: true,
        fetch_order_trades: true,
        fetch_trading_fees: true,
        ..ExchangeFeatures::spec_none()
    }
}

/// Period and unit of each supported timeframe.
pub open spec fn spec_onetrading_timeframe(tf: Timeframe) -> Option<Seq<char>> {
    match tf {
        Timeframe::Minute1 => Some("1/MINUTES"@),
        Timeframe::Minute5 => Some("5/MINUTES"@),
        Timeframe::Minute15 => Some("15/MINUTES"@),
        Timeframe::Minute30 => Some("30/MINUTES"@),
        Timeframe::Hour1 => Some("1/HOURS"@),
        Timeframe::Hour4 => Some("4/HOURS"@),
        Timeframe::Day1 => Some("1/DAYS"@),
        Timeframe::Week1 => Some("1/WEEKS"@),
        Timeframe::Month1 => Some("1/MONTHS"@),
        _ => None,
    }
}

/// Order status of a One Trading status.
pub open spec fn spec_onetrading_status(s: Option<Seq<char>>) -> OrderStatus {
    match s {
        Some(t) => if t == "OPEN"@ || t == "FILLED"@ || t == "STOP_TRIGGERED"@ {
            OrderStatus::Open
        } else if t == "FILLED_FULLY"@ || t == "DONE"@ {
            OrderStatus::Closed
        } else if t == "FILLED_CLOSED"@ || t == "CLOSED"@ {
            OrderStatus::Canceled
        } else if t == "FILLED_REJECTED"@ || t == "REJECTED"@ || t == "FAILED"@ {
            OrderStatus::Rejected
        } else {
            OrderStatus::Open
        },
        None => OrderStatus::Open,
    }
}

/// An order is closed exactly when its status is `FILLED_FULLY` or `DONE`,
/// canceled exactly when it is `FILLED_CLOSED` or `CLOSED`, and rejected
/// exactly when it is `FILLED_REJECTED`, `REJECTED` or `FAILED`.
pub proof fn law_status_words(s: Option<Seq<char>>)
    ensures
        spec_onetrading_status(s) == OrderStatus::Closed <==> (s == Some("FILLED_FULLY"@) || s == Some("DONE"@)),
        spec_onetrading_status(s) == OrderStatus::Canceled <==> (s == Some("FILLED_CLOSED"@) || s == Some("CLOSED"@)),
        spec_onetrading_status(s) == OrderStatus::Rejected <==> (s == Some("FILLED_REJECTED"@) || s == Some("REJECTED"@) || s == Some("FAILED"@)),
{
    reveal_strlit("FILLED_FULLY");
    reveal_strlit("DONE");
    reveal_strlit("FILLED_CLOSED");
    reveal_strlit("CLOSED");
    reveal_strlit("FILLED_REJECTED");
    reveal_strlit("REJECTED");
    reveal_strlit("FAILED");
    reveal_strlit("OPEN");
    reveal_strlit("FILLED");
    reveal_strlit("STOP_TRIGGERED");
    assert("OPEN"@.len() != "FILLED"@.len());
    assert("OPEN"@.len() != "STOP_TRIGGERED"@.len());
    assert("OPEN"@.len() != "FILLED_FULLY"@.len());
    assert("OPEN"@[0] != "DONE"@[0]);
    assert("OPEN"@.len() != "FILLED_CLOSED"@.len());
    assert("OPEN"@.len() != "CLOSED"@.len());
    assert("OPEN"@.len() != "FILLED_REJECTED"@.len());
    assert("OPEN"@.len() != "REJECTED"@.len());
    assert("OPEN"@.len() != "FAILED"@.len());
    assert("FILLED"@.len() != "STOP_TRIGGERED"@.len());
    assert("FILLED"@.len() != "FILLED_FULLY"@.len());
    assert("FILLED"@.len() != "DONE"@.len());
    assert("FILLED"@.len() != "FILLED_CLOSED"@.len());
    assert("FILLED"@[0] != "CLOSED"@[0]);
    assert("FILLED"@.len() != "FILLED_REJECTED"@.len());
    assert("FILLED"@.len() != "REJECTED"@.len());
    assert("FILLED"@[1] != "FAILED"@[1]);
    assert("STOP_TRIGGERED"@.len() != "FILLED_FULLY"@.len());
    assert("STOP_TRIGGERED"@.len() != "DONE"@.len());
    assert("STOP_TRIGGERED"@.len() != "FILLED_CLOSED"@.len());
    assert("STOP_TRIGGERED"@.len() != "CLOSED"@.len());
    assert("STOP_TRIGGERED"@.len() != "FILLED_REJECTED"@.len());
    assert("STOP_TRIGGERED"@.len() != "REJECTED"@.len());
    assert("STOP_TRIGGERED"@.len() != "FAILED"@.len());
    assert("FILLED_FULLY"@.len() != "DONE"@.len());
    assert("FILLED_FULLY"@.len() != "FILLED_CLOSED"@.len());
    assert("FILLED_FULLY"@.len() != "CLOSED"@.len());
    assert("FILLED_FULLY"@.len() != "FILLED_REJECTED"@.len());
    assert("FILLED_FULLY"@.len() != "REJECTED"@.len());
    assert("FILLED_FULLY"@.len() != "FAILED"@.len());
    assert("DONE"@.len() != "FILLED_CLOSED"@.len());
    assert("DONE"@.len() != "CLOSED"@.len());
    assert("DONE"@.len() != "FILLED_REJECTED"@.len());
    assert("DONE"@.len() != "REJECTED"@.len());
    assert("DONE"@.len() != "FAILED"@.len());
    assert("FILLED_CLOSED"@.len() != "CLOSED"@.len());
    assert("FILLED_CLOSED"@.len() != "FILLED_REJECTED"@.len());
    assert("FILLED_CLOSED"@.len() != "REJECTED"@.len());
    assert("FILLED_CLOSED"@.len() != "FAILED"@.len());
    assert("CLOSED"@.len() != "FILLED_REJECTED"@.len());
    assert("CLOSED"@.len() != "REJECTED"@.len());
    assert("CLOSED"@[0] != "FAILED"@[0]);
    assert("FILLED_REJECTED"@.len() != "REJECTED"@.len());
    assert("FILLED_REJECTED"@.len() != "FAILED"@.len());
    assert("REJECTED"@.len() != "FAILED"@.len());
}

/// Order type of a One Trading type.
pub open spec fn spec_onetrading_type(s: Option<Seq<char>>) -> OrderType {
    match s {
        Some(t) => if t == "MARKET"@ {
            OrderType::Market
        } else if t == "STOP"@ {
            OrderType::StopLossLimit
        } else {
            OrderType::Limit
        },
        None => OrderType::Limit,
    }
}

/// Order side of a One Trading side.
pub open spec fn spec_onetrading_side(s: Option<Seq<char>>) -> OrderSide {
    match s {
        Some(t) => if t == "SELL"@ {
            OrderSide::Sell
        } else {
            OrderSide::Buy
        },
        None => OrderSide::Buy,
    }
}

/// An order sells exactly when its side is `SELL`.
pub proof fn law_side_words(s: Option<Seq<char>>)
    ensures
        spec_onetrading_side(s) == OrderSide::Sell <==> (s == Some("SELL"@)),
{
    reveal_strlit("SELL");

}

/// Time in force of a One Trading policy name.
pub open spec fn spec_onetrading_tif(s: Option<Seq<char>>) -> Option<TimeInForce> {
    match s {
        Some(t) => if t == "GOOD_TILL_CANCELLED"@ {
            Some(TimeInForce::GTC)
        } else if t == "GOOD_TILL_TIME"@ {
            Some(TimeInForce::GTT)
        } else if t == "IMMEDIATE_OR_CANCELLED"@ {
            Some(TimeInForce::IOC)
        } else if t == "FILL_OR_KILL"@ {
            Some(TimeInForce::FOK)
        } else {
            None
        },
        None => None,
    }
}

/// Whether a status names an order that is no longer open.
pub open spec fn spec_onetrading_closed(s: Option<Seq<char>>) -> bool {
    match s {
        Some(t) => t == "FILLED_FULLY"@ || t == "FILLED_CLOSED"@ || t == "CLOSED"@ || t == "DONE"@,
        None => false,
    }
}

/// A field of a trade: from the nested data when it holds one, else the flat one.
pub open spec fn trade_field(
    nested: Option<OnetradingTradeData>,
    pick: spec_fn(OnetradingTradeData) -> Option<String>,
    flat: Option<String>,
) -> Option<Seq<char>> {
    match nested {
        Some(t) => match pick(t) {
            Some(v) => Some(v@),
            None => opt_view(flat),
        },
        None => opt_view(flat),
    }
}

/// The unified ticker of a One Trading ticker; the time falls back to `now`
/// when it is no RFC 3339 text.
pub open spec fn spec_onetrading_ticker_ok(d: OnetradingTicker, symbol: Seq<char>, now: i64, r: Ticker) -> bool {
    &&& r.symbol@ == symbol
    &&& r.timestamp == Some(match spec_rfc3339_ms(d.time@) {
        Some(t) => t as i64,
        None => now,
    })
    &&& opt_view(r.datetime) == Some(d.time@)
    &&& opt_parts(r.high) == opt_text_dec(d.high)
    &&& opt_parts(r.low) == opt_text_dec(d.low)
    &&& opt_parts(r.bid) == opt_text_dec(d.best_bid)
    &&& opt_parts(r.ask) == opt_text_dec(d.best_ask)
    &&& opt_parts(r.close) == opt_text_dec(d.last_price)
    &&& opt_parts(r.last) == opt_text_dec(d.last_price)
    &&& opt_parts(r.change) == opt_text_dec(d.price_change)
    &&& opt_parts(r.percentage) == opt_text_dec(d.price_change_percentage)
    &&& opt_parts(r.base_volume) == opt_text_dec(d.base_volume)
    &&& opt_parts(r.quote_volume) == opt_text_dec(d.quote_volume)
    &&& r.bid_volume is None && r.ask_volume is None && r.vwap is None && r.open is None
    &&& r.previous_close is None && r.average is None && r.index_price is None
    &&& r.mark_price is None
}

/// A ticker's bid is the exchange's best bid and its ask the exchange's
/// best ask, each read as a decimal (none when absent or unreadable); its
/// last price, high, low and base and quote volumes are the exchange's
/// fields of those names, read the same way.
pub proof fn law_ticker_bid_ask(d: OnetradingTicker, symbol: Seq<char>, now: i64, r: Ticker)
    requires
        spec_onetrading_ticker_ok(d, symbol, now, r),
    ensures
        opt_parts(r.bid) == (match d.best_bid {
            Some(t) => spec_dec_parse(t@),
            None => None,
        }),
        opt_parts(r.ask) == (match d.best_ask {
            Some(t) => spec_dec_parse(t@),
            None => None,
        }),
        opt_parts(r.last) == (match d.last_price {
            Some(t) => spec_dec_parse(t@),
            None => None,
        }),
        opt_parts(r.high) == (match d.high {
            Some(t) => spec_dec_parse(t@),
            None => None,
        }),
        opt_parts(r.low) == (match d.low {
            Some(t) => spec_dec_parse(t@),
            None => None,
        }),
        opt_parts(r.base_volume) == (match d.base_volume {
            Some(t) => spec_dec_parse(t@),
            None => None,
        }),
        opt_parts(r.quote_volume) == (match d.quote_volume {
            Some(t) => spec_dec_parse(t@),
            None => None,
        }),
{
}

/// The holdings of one currency: available is free, locked is used, and the
/// total is their sum when both are known.
pub open spec fn spec_onetrading_balance_ok(b: OnetradingBalance, r: Balance) -> bool {
    &&& opt_parts(r.free) == opt_text_dec(b.available)
    &&& opt_parts(r.used) == opt_text_dec(b.locked)
    &&& match (r.free, r.used) {
        (Some(f), Some(u)) => opt_parts(r.total) == checked_op(
            f,
            u,
            |x: (int, int), y: (int, int)| spec_dec_add(x, y),
        ),
        _ => r.total is None,
    }
}

/// A unified order read from a One Trading order, under a symbol.
pub open spec fn spec_onetrading_order_ok(data: OnetradingOrder, symbol: Seq<char>, r: Order) -> bool {
    &&& r.id@ == (match data.order_id {
        Some(s) => s@,
        None => Seq::<char>::empty(),
    })
    &&& opt_view(r.client_order_id) == opt_view(data.client_id)
    &&& r.timestamp == (match opt_rfc3339_ms(data.time) {
        Some(t) => Some(t as i64),
        None => None,
    })
    &&& opt_view(r.datetime) == opt_view(data.time)
    &&& r.last_trade_timestamp is None
    &&& r.last_update_timestamp == (match opt_rfc3339_ms(data.time_last_updated) {
        Some(t) => Some(t as i64),
        None => None,
    })
    &&& r.status == spec_onetrading_status(opt_view(data.status))
    &&& r.symbol@ == symbol
    &&& r.order_type == spec_onetrading_type(opt_view(data.order_type))
    &&& r.time_in_force == spec_onetrading_tif(opt_view(data.time_in_force))
    &&& r.side == spec_onetrading_side(opt_view(data.side))
    &&& opt_parts(r.price) == opt_text_dec(data.price)
    &&& opt_parts(r.average) == opt_text_dec(data.average_price)
    &&& r.amount.parts() == opt_text_dec_or_zero(data.amount)
    &&& r.filled.parts() == opt_text_dec_or_zero(data.filled_amount)
    &&& opt_parts(r.remaining) == checked_op(
        r.amount,
        r.filled,
        |x: (int, int), y: (int, int)| spec_dec_sub(x, y)
    )
    &&& opt_parts(r.stop_price) == opt_text_dec(data.trigger_price)
    &&& opt_parts(r.trigger_price) == opt_text_dec(data.trigger_price)
    &&& r.cost is None && r.fee is None && r.reduce_only is None
    &&& r.post_only == data.is_post_only
    &&& r.no_extras()
}

/// A unified trade read from a One Trading trade, under a symbol.
pub open spec fn spec_onetrading_trade_ok(data: OnetradingTrade, symbol: Seq<char>, r: Trade) -> bool {
    &&& r.id@ == (match trade_field(data.trade, |t: OnetradingTradeData| t.trade_id, data.trade_id) {
        Some(s) => s,
        None => Seq::<char>::empty(),
    })
    &&& opt_view(r.order) == trade_field(data.trade, |t: OnetradingTradeData| t.order_id, data.order_id)
    &&& opt_view(r.datetime) == trade_field(data.trade, |t: OnetradingTradeData| t.time, data.time)
    &&& r.timestamp == (match trade_field(data.trade, |t: OnetradingTradeData| t.time, data.time) {
        Some(s) => match spec_rfc3339_ms(s) {
            Some(t) => Some(t as i64),
            None => None,
        },
        None => None,
    })
    &&& r.symbol@ == symbol
    &&& r.trade_type is None
    &&& opt_view(r.side) == (match trade_field(data.trade, |t: OnetradingTradeData| t.side, data.side) {
        Some(s) => if s == "BUY"@ {
            Some("buy"@)
        } else if s == "SELL"@ {
            Some("sell"@)
        } else {
            None
        },
        None => None,
    })
    &&& r.price.parts() == (match trade_field(data.trade, |t: OnetradingTradeData| t.price, data.price) {
        Some(s) => crate::dec::text_dec_or_zero(s),
        None => (0, 0),
    })
    &&& r.amount.parts() == (match trade_field(data.trade, |t: OnetradingTradeData| t.amount, data.amount) {
        Some(s) => crate::dec::text_dec_or_zero(s),
        None => (0, 0),
    })
    &&& opt_parts(r.cost) == checked_op(
        r.price,
        r.amount,
        |x: (int, int), y: (int, int)| spec_dec_mul(x, y)
    )
    &&& r.taker_or_maker == (match data.fee {
        Some(f) => match f.fee_type {
            Some(t) => if t@ == "TAKER"@ {
                Some(TakerOrMaker::Taker)
            } else if t@ == "MAKER"@ {
                Some(TakerOrMaker::Maker)
            } else {
                None
            },
            None => None,
        },
        None => None,
    })
    &&& match data.fee {
        Some(f) => r.fee matches Some(rf) && opt_parts(rf.cost) == opt_text_dec(f.fee_amount)
            && opt_view(rf.currency) == opt_view(f.fee_currency) && opt_parts(rf.rate)
            == opt_text_dec(f.fee_percentage),
        None => r.fee is None,
    }
}

/// An order-book entry whose price and amount read.
pub open spec fn ot_entry_reads(e: OnetradingOrderBookEntry) -> bool {
    opt_text_dec(e.price) is Some && opt_text_dec(e.amount) is Some
}

/// Levels of the entries whose price and amount read, in order.
pub open spec fn ot_levels_ok(es: Seq<OnetradingOrderBookEntry>, out: Seq<OrderBookEntry>) -> bool {
    let rows = es.filter(|e: OnetradingOrderBookEntry| ot_entry_reads(e));
    &&& out.len() == rows.len()
    &&& forall|k: int| 0 <= k < out.len() ==> opt_text_dec(rows[k].price) == Some((#[trigger] out[k]).price.parts())
        && opt_text_dec(rows[k].amount) == Some(out[k].amount.parts())
}

/// A candlestick whose time and numbers all read.
pub open spec fn ot_candle_reads(c: OnetradingCandlestick) -> bool {
    &&& opt_rfc3339_ms(c.time) is Some
    &&& opt_text_dec(c.open) is Some && opt_text_dec(c.high) is Some && opt_text_dec(c.low) is Some
    &&& opt_text_dec(c.close) is Some && opt_text_dec(c.total_amount) is Some
}

/// A candle read from a candlestick; the volume is its total amount.
pub open spec fn ot_candle_ok(c: OnetradingCandlestick, x: OHLCV) -> bool {
    &&& opt_rfc3339_ms(c.time) == Some(x.timestamp as int)
    &&& opt_text_dec(c.open) == Some(x.open.parts()) && opt_text_dec(c.high) == Some(x.high.parts())
    &&& opt_text_dec(c.low) == Some(x.low.parts()) && opt_text_dec(c.close) == Some(x.close.parts())
    &&& opt_text_dec(c.total_amount) == Some(x.volume.parts())
}

/// The address of a path with parameters as query (none when empty).
pub open spec fn ot_url(path: Seq<char>, params: Seq<(String, String)>) -> Seq<char> {
    if params.len() == 0 {
        ONETRADING_BASE_URL@ + path
    } else {
        ONETRADING_BASE_URL@ + path + "?"@ + query_spec(params, true)
    }
}

/// The seconds a timeframe's candle spans, for the offered timeframes.
pub open spec fn ot_span_secs(tf: Timeframe) -> int {
    match tf {
        Timeframe::Minute1 => 60,
        Timeframe::Minute5 => 300,
        Timeframe::Minute15 => 900,
        Timeframe::Minute30 => 1800,
        Timeframe::Hour1 => 3600,
        Timeframe::Hour4 => 14400,
        Timeframe::Day1 => 86400,
        Timeframe::Week1 => 604800,
        _ => 2592000,
    }
}

/// Tickers whose instrument is a known market and, when a list is given,
/// whose symbol is requested.
pub open spec fn ot_ticker_kept(
    rows: Seq<OnetradingTicker>,
    index: MarketIndex,
    symbols: Option<Seq<Seq<char>>>,
) -> Seq<OnetradingTicker> {
    rows.filter(|t: OnetradingTicker| index.spec_get(t.instrument_code@) is Some && match symbols {
        Some(s) => s.contains(index.spec_get(t.instrument_code@)->0),
        None => true,
    })
}

/// The kept tickers of a prefix are the first kept tickers.
proof fn lemma_ot_kept_prefix(t: Seq<OnetradingTicker>, index: MarketIndex, req: Option<Seq<Seq<char>>>, i: int)
    requires
        0 <= i <= t.len(),
    ensures
        ot_ticker_kept(t.take(i), index, req).len() <= ot_ticker_kept(t, index, req).len(),
        forall|j: int|
            0 <= j < ot_ticker_kept(t.take(i), index, req).len() ==> #[trigger] ot_ticker_kept(t.take(i), index, req)[j]
                == ot_ticker_kept(t, index, req)[j],
{
    assert(t =~= t.take(i) + t.skip(i));
    Seq::filter_distributes_over_add(
        t.take(i),
        t.skip(i),
        |x: OnetradingTicker| index.spec_get(x.instrument_code@) is Some && match req {
            Some(s) => s.contains(index.spec_get(x.instrument_code@)->0),
            None => true,
        },
    );
}

/// The symbol an instrument code gives: the known market's, else the
/// requested symbol (empty when none).
pub open spec fn ot_symbol_for(index: MarketIndex, code: Option<String>, symbol: Option<Seq<char>>) -> Seq<char> {
    match code {
        Some(c) => match index.spec_get(c@) {
            Some(s) => s,
            None => match symbol {
                Some(x) => x,
                None => Seq::<char>::empty(),
            },
        },
        None => match symbol {
            Some(x) => x,
            None => Seq::<char>::empty(),
        },
    }
}

/// The instrument code of a history trade: its inner trade's, else its
/// own.
pub open spec fn ot_trade_code(t: OnetradingTrade) -> Option<String> {
    match t.trade {
        Some(d) => match d.instrument_code {
            Some(c) => Some(c),
            None => t.instrument_code,
        },
        None => t.instrument_code,
    }
}

/// An order that only names its id, symbol and status.
pub open spec fn ot_bare_order(id: Seq<char>, symbol: Seq<char>, status: OrderStatus, r: Order) -> bool {
    &&& r.id@ == id && r.symbol@ == symbol && r.status == status
    &&& r.order_type == OrderType::Limit && r.side == OrderSide::Buy
    &&& r.amount == (Dec { mantissa: 0, scale: 0 }) && r.filled == (Dec { mantissa: 0, scale: 0 })
    &&& r.timestamp is None && r.datetime is None && r.price is None && r.remaining is None
    &&& r.cost is None && r.fee is None && r.client_order_id is None && r.average is None
    &&& r.no_extras()
}

/// A unified market read from an instrument.
pub open spec fn spec_onetrading_market_ok(inst: OnetradingMarket, r: Market) -> bool {
    &&& ({
        let base = match inst.base {
            Some(a) => match a.code {
                Some(c) => c@,
                None => Seq::<char>::empty(),
            },
            None => Seq::<char>::empty(),
        };
        let quote = match inst.quote {
            Some(a) => match a.code {
                Some(c) => c@,
                None => Seq::<char>::empty(),
            },
            None => Seq::<char>::empty(),
        };
        &&& r.base@ == base && r.quote@ == quote
        &&& r.symbol@ == base + "/"@ + quote
        &&& r.id@ == (match inst.id {
            Some(i) => i@,
            None => base + "_"@ + quote,
        })
        &&& r.precision.amount == Some(match inst.amount_precision {
            Some(p) => p,
            None => 8i32,
        })
        &&& r.precision.price == Some(match inst.market_precision {
            Some(p) => p,
            None => 2i32,
        })
        &&& opt_parts(r.limits.cost.min) == opt_text_dec(inst.min_size)
        &&& r.active && r.spot && r.market_type == MarketType::Spot
        &&& r.taker == Some(Dec { mantissa: 15, scale: 4 })
        &&& r.maker == Some(Dec { mantissa: 10, scale: 4 })
    })
}

impl Onetrading {
    /// Creates the adapter; it holds the configuration and knows no market yet.
    pub fn new(config: ExchangeConfig) -> (r: Result<Onetrading, CcxtError>)
        ensures
            r matches Ok(x) && x.config == config && x.features == spec_onetrading_features()
                && x.markets_by_id.entries@.len() == 0,
    {
        let features = ExchangeFeatures {
            spot: true,
            fetch_markets: true,
            fetch_currencies: true,
            fetch_ticker: true,
            fetch_tickers: true,
            fetch_order_book: true,
            fetch_ohlcv: true,
            fetch_balance: true,
            create_order: true,
            create_limit_order: true,
            create_market_order: true,
            cancel_order: true,
            cancel_all_orders: true,
            fetch_order: true,
            fetch_open_orders: true,
            fetch_closed_orders: true,
            fetch_my_trades: true,
            fetch_order_trades: true,
            fetch_trading_fees: true,
            ..ExchangeFeatures::none()
        };
        Ok(Onetrading { config, features, markets_by_id: MarketIndex::new() })
    }

    /// The exchange's identity.
    pub fn id(&self) -> (r: ExchangeId)
        ensures
            r == ExchangeId::Onetrading,
    {
        ExchangeId::Onetrading
    }

    /// The exchange's display name.
    pub fn name(&self) -> (r: &'static str)
        ensures
            r@ == "One Trading"@,
    {
        "One Trading"
    }

    /// The API version.
    pub fn version(&self) -> (r: &'static str)
        ensures
            r@ == "v1"@,
    {
        "v1"
    }

    /// Countries the exchange serves.
    pub fn countries(&self) -> (r: Vec<&'static str>)
        ensures
            r@.len() == 1 && r@[0]@ == "AT"@,
    {
        let mut v = Vec::new();
        v.push("AT");
        v
    }

    /// Minimum spacing of requests, in milliseconds.
    pub fn rate_limit(&self) -> (r: u64)
        ensures
            r == ONETRADING_RATE_LIMIT_MS,
    {
        ONETRADING_RATE_LIMIT_MS
    }

    /// Addresses of the exchange: logo, API bases, site, documentation and
    /// fee schedule.
    pub fn urls(&self) -> (r: ExchangeUrls)
        ensures
            opt_view(r.logo) == Some("https://github.com/ccxt/ccxt/assets/43336371/bdbc26fd-02f2-4ca7-9f1e-17333690bb1c"@),
            r.api@.len() == 2,
            r.api@[0].0@ == "public"@ && r.api@[0].1@ == ONETRADING_BASE_URL@,
            r.api@[1].0@ == "private"@ && r.api@[1].1@ == ONETRADING_BASE_URL@,
            opt_view(r.www) == Some("https://onetrading.com/"@),
            r.doc@.len() == 1,
            r.doc@[0]@ == "https://docs.onetrading.com"@,
            opt_view(r.fees) == Some("https://onetrading.com/fees"@),
    {
        let mut api: Vec<(String, String)> = Vec::new();
        api.push((copy_str("public"), copy_str(ONETRADING_BASE_URL)));
        api.push((copy_str("private"), copy_str(ONETRADING_BASE_URL)));
        let mut doc: Vec<String> = Vec::new();
        doc.push(copy_str("https://docs.onetrading.com"));
        ExchangeUrls {
            logo: Some(copy_str("https://github.com/ccxt/ccxt/assets/43336371/bdbc26fd-02f2-4ca7-9f1e-17333690bb1c")),
            api,
            www: Some(copy_str("https://onetrading.com/")),
            doc,
            fees: Some(copy_str("https://onetrading.com/fees")),
        }
    }

    /// What the exchange offers.
    pub fn has(&self) -> (r: &ExchangeFeatures)
        ensures
            *r == self.features,
    {
        &self.features
    }

    /// Period and unit of a timeframe, when One Trading offers it.
    pub fn timeframe(tf: Timeframe) -> (r: Option<&'static str>)
        ensures
            match r {
                Some(s) => spec_onetrading_timeframe(tf) == Some(s@),
                None => spec_onetrading_timeframe(tf) is None,
            },
    {
        match tf {
            Timeframe::Minute1 => Some("1/MINUTES"),
            Timeframe::Minute5 => Some("5/MINUTES"),
            Timeframe::Minute15 => Some("15/MINUTES"),
            Timeframe::Minute30 => Some("30/MINUTES"),
            Timeframe::Hour1 => Some("1/HOURS"),
            Timeframe::Hour4 => Some("4/HOURS"),
            Timeframe::Day1 => Some("1/DAYS"),
            Timeframe::Week1 => Some("1/WEEKS"),
            Timeframe::Month1 => Some("1/MONTHS"),
            _ => None,
        }
    }

    /// Converts a unified symbol into an instrument code: `BTC/EUR` becomes `BTC_EUR`.
    pub fn to_market_id(&self, symbol: &str) -> (r: String)
        ensures
            r@ == replace_all(symbol@, '/', '_'),
    {
        replace_char(symbol, '/', '_')
    }

    /// The market id of a symbol.
    pub fn market_id(&self, symbol: &str) -> (r: Option<String>)
        ensures
            r matches Some(s) && s@ == replace_all(symbol@, '/', '_'),
    {
        Some(self.to_market_id(symbol))
    }

    /// The unified symbol of a market id, when the market is known.
    pub fn symbol(&self, market_id: &str) -> (r: Option<String>)
        ensures
            opt_view(r) == self.markets_by_id.spec_get(market_id@),
    {
        self.markets_by_id.get(market_id)
    }

    /// Unified ticker of a One Trading ticker.
    pub fn parse_ticker(&self, data: &OnetradingTicker, symbol: &str, now: i64) -> (r: Ticker)
        ensures
            spec_onetrading_ticker_ok(*data, symbol@, now, r),
    {
        let timestamp = match parse_rfc3339_ms(data.time.as_str()) {
            Some(t) => t,
            None => now,
        };
        Ticker {
            symbol: copy_str(symbol),
            timestamp: Some(timestamp),
            datetime: Some(copy_str(data.time.as_str())),
            high: parse_opt(&data.high),
            low: parse_opt(&data.low),
            bid: parse_opt(&data.best_bid),
            bid_volume: None,
            ask: parse_opt(&data.best_ask),
            ask_volume: None,
            vwap: None,
            open: None,
            close: parse_opt(&data.last_price),
            last: parse_opt(&data.last_price),
            previous_close: None,
            change: parse_opt(&data.price_change),
            percentage: parse_opt(&data.price_change_percentage),
            average: None,
            base_volume: parse_opt(&data.base_volume),
            quote_volume: parse_opt(&data.quote_volume),
            index_price: None,
            mark_price: None,
        }
    }

    /// Order status of a One Trading status.
    pub fn parse_status(s: &Option<String>) -> (r: OrderStatus)
        ensures
            r == spec_onetrading_status(opt_view(*s)),
    {
        match s {
            Some(t) => {
                let t = t.as_str();
                if str_eq(t, "OPEN") || str_eq(t, "FILLED") || str_eq(t, "STOP_TRIGGERED") {
                    OrderStatus::Open
                } else if str_eq(t, "FILLED_FULLY") || str_eq(t, "DONE") {
                    OrderStatus::Closed
                } else if str_eq(t, "FILLED_CLOSED") || str_eq(t, "CLOSED") {
                    OrderStatus::Canceled
                } else if str_eq(t, "FILLED_REJECTED") || str_eq(t, "REJECTED") || str_eq(t, "FAILED") {
                    OrderStatus::Rejected
                } else {
                    OrderStatus::Open
                }
            },
            None => OrderStatus::Open,
        }
    }

    /// Whether a status names an order that is no longer open.
    pub fn is_closed_status(s: &Option<String>) -> (r: bool)
        ensures
            r == spec_onetrading_closed(opt_view(*s)),
    {
        match s {
            Some(t) => {
                let t = t.as_str();
                str_eq(t, "FILLED_FULLY") || str_eq(t, "FILLED_CLOSED") || str_eq(t, "CLOSED")
                    || str_eq(t, "DONE")
            },
            None => false,
        }
    }

    /// Unified order of a One Trading order.
    pub fn parse_order(&self, data: &OnetradingOrder, symbol: &str) -> (r: Order)
        ensures
            spec_onetrading_order_ok(*data, symbol@, r),
    {
        let status = Self::parse_status(&data.status);
        let order_type = match &data.order_type {
            Some(t) => if str_eq(t.as_str(), "MARKET") {
                OrderType::Market
            } else if str_eq(t.as_str(), "STOP") {
                OrderType::StopLossLimit
            } else {
                OrderType::Limit
            },
            None => OrderType::Limit,
        };
        let side = match &data.side {
            Some(t) => if str_eq(t.as_str(), "SELL") {
                OrderSide::Sell
            } else {
                OrderSide::Buy
            },
            None => OrderSide::Buy,
        };
        let time_in_force = match &data.time_in_force {
            Some(t) => {
                let t = t.as_str();
                if str_eq(t, "GOOD_TILL_CANCELLED") {
                    Some(TimeInForce::GTC)
                } else if str_eq(t, "GOOD_TILL_TIME") {
                    Some(TimeInForce::GTT)
                } else if str_eq(t, "IMMEDIATE_OR_CANCELLED") {
                    Some(TimeInForce::IOC)
                } else if str_eq(t, "FILL_OR_KILL") {
                    Some(TimeInForce::FOK)
                } else {
                    None
                }
            },
            None => None,
        };
        let amount = parse_opt_or_zero(&data.amount);
        let filled = parse_opt_or_zero(&data.filled_amount);
        Order {
            id: match &data.order_id {
                Some(s) => copy_str(s.as_str()),
                None => String::new(),
            },
            client_order_id: copy_opt(&data.client_id),
            timestamp: parse_opt_rfc3339_ms(&data.time),
            datetime: copy_opt(&data.time),
            last_trade_timestamp: None,
            last_update_timestamp: parse_opt_rfc3339_ms(&data.time_last_updated),
            status,
            symbol: copy_str(symbol),
            order_type,
            time_in_force,
            side,
            price: parse_opt(&data.price),
            average: parse_opt(&data.average_price),
            amount,
            filled,
            remaining: dec_sub(amount, filled),
            stop_price: parse_opt(&data.trigger_price),
            trigger_price: parse_opt(&data.trigger_price),
            take_profit_price: None,
            stop_loss_price: None,
            trades: Vec::new(),
            cost: None,
            fee: None,
            reduce_only: None,
            post_only: data.is_post_only,
        }
    }

    /// A trade field: the nested value when present, else the flat one.
    fn pick(nested: &Option<String>, flat: &Option<String>) -> (r: Option<String>)
        ensures
            opt_view(r) == (match nested {
                Some(v) => Some(v@),
                None => opt_view(*flat),
            }),
    {
        match nested {
            Some(v) => Some(copy_str(v.as_str())),
            None => copy_opt(flat),
        }
    }

    /// Unified trade of a One Trading trade; nested trade data wins over
    /// flattened fields, field by field.
    pub fn parse_trade(&self, data: &OnetradingTrade, symbol: &str) -> (r: Trade)
        ensures
            spec_onetrading_trade_ok(*data, symbol@, r),
    {
        let (n_id, n_order, n_amount, n_side, n_price, n_time) = match &data.trade {
            Some(t) => (&t.trade_id, &t.order_id, &t.amount, &t.side, &t.price, &t.time),
            None => (&None, &None, &None, &None, &None, &None),
        };
        let trade_id = Self::pick(n_id, &data.trade_id);
        let order_id = Self::pick(n_order, &data.order_id);
        let amount_s = Self::pick(n_amount, &data.amount);
        let side_s = Self::pick(n_side, &data.side);
        let price_s = Self::pick(n_price, &data.price);
        let time = Self::pick(n_time, &data.time);
        let timestamp = parse_opt_rfc3339_ms(&time);
        let side = match &side_s {
            Some(s) => if str_eq(s.as_str(), "BUY") {
                Some(copy_str("buy"))
            } else if str_eq(s.as_str(), "SELL") {
                Some(copy_str("sell"))
            } else {
                None
            },
            None => None,
        };
        let price = parse_opt_or_zero(&price_s);
        let amount = parse_opt_or_zero(&amount_s);
        let fee = match &data.fee {
            Some(f) => Some(
                Fee {
                    cost: parse_opt(&f.fee_amount),
                    currency: copy_opt(&f.fee_currency),
                    rate: parse_opt(&f.fee_percentage),
                },
            ),
            None => None,
        };
        let taker_or_maker = match &data.fee {
            Some(f) => match &f.fee_type {
                Some(t) => if str_eq(t.as_str(), "TAKER") {
                    Some(TakerOrMaker::Taker)
                } else if str_eq(t.as_str(), "MAKER") {
                    Some(TakerOrMaker::Maker)
                } else {
                    None
                },
                None => None,
            },
            None => None,
        };
        Trade {
            id: match trade_id {
                Some(s) => s,
                None => String::new(),
            },
            order: order_id,
            timestamp,
            datetime: time,
            symbol: copy_str(symbol),
            trade_type: None,
            side,
            taker_or_maker,
            price,
            amount,
            cost: dec_mul(price, amount),
            fee,
        }
    }

    /// The holdings of one currency.
    pub fn parse_balance_entry(b: &OnetradingBalance) -> (r: Balance)
        ensures
            spec_onetrading_balance_ok(*b, r),
    {
        let free = parse_opt(&b.available);
        let used = parse_opt(&b.locked);
        let total = match (free, used) {
            (Some(f), Some(u)) => dec_add(f, u),
            _ => None,
        };
        Balance { free, used, total }
    }

    /// Unified balances; a later entry of a currency replaces an earlier one.
    pub fn parse_balance(&self, balances: &Vec<OnetradingBalance>) -> (r: Balances)
        ensures
            keyed_by_last(
                balances@.map_values(|b: OnetradingBalance| b.currency_code@),
                r.currencies@,
                |i: int, bal: Balance| spec_onetrading_balance_ok(balances@[i], bal),
            ),
    {
        let ghost ok = |i: int, bal: Balance| spec_onetrading_balance_ok(balances@[i], bal);
        let mut result = Balances::new();
        let n = balances.len();
        let mut k: usize = 0;
        proof {
            lemma_keyed_empty(ok);
            assert(balances@.map_values(|b: OnetradingBalance| b.currency_code@).take(0) =~= Seq::<
                Seq<char>,
            >::empty());
            assert(result.currencies@ =~= Seq::<(String, Balance)>::empty());
        }
        while k < n
            invariant
                n == balances@.len(),
                k <= n,
                ok == (|i: int, bal: Balance| spec_onetrading_balance_ok(balances@[i], bal)),
                keyed_by_last(
                    balances@.map_values(|b: OnetradingBalance| b.currency_code@).take(k as int),
                    result.currencies@,
                    ok,
                ),
            decreases n - k,
        {
            let bal = Self::parse_balance_entry(&balances[k]);
            let ghost before = result.currencies@;
            result.add(copy_str(balances[k].currency_code.as_str()), bal);
            proof {
                let codes = balances@.map_values(|b: OnetradingBalance| b.currency_code@);
                assert(codes.take(k as int).len() == k);
                lemma_keyed_step(codes.take(k as int), before, result.currencies@, codes[k as int], bal, ok);
                assert(codes.take(k as int).push(codes[k as int]) =~= codes.take(k + 1));
            }
            k = k + 1;
        }
        proof {
            let codes = balances@.map_values(|b: OnetradingBalance| b.currency_code@);
            assert(codes.take(n as int) =~= codes);
        }
        result
    }

    /// Unified market of an instrument: codes default to empty text, the id
    /// to `BASE_QUOTE`, precisions to 8 (amount) and 2 (price).
    pub fn parse_market(inst: &OnetradingMarket) -> (r: Market)
        ensures
            spec_onetrading_market_ok(*inst, r),
    {
        let base = match &inst.base {
            Some(a) => match &a.code {
                Some(c) => copy_str(c.as_str()),
                None => String::new(),
            },
            None => String::new(),
        };
        let quote = match &inst.quote {
            Some(a) => match &a.code {
                Some(c) => copy_str(c.as_str()),
                None => String::new(),
            },
            None => String::new(),
        };
        let id = match &inst.id {
            Some(i) => copy_str(i.as_str()),
            None => concat3(base.as_str(), "_", quote.as_str()),
        };
        let amount_precision = match inst.amount_precision {
            Some(p) => p,
            None => 8,
        };
        let price_precision = match inst.market_precision {
            Some(p) => p,
            None => 2,
        };
        let mut limits = MarketLimits::none();
        limits.cost = match parse_opt(&inst.min_size) {
            Some(m) => MinMax { min: Some(m), max: None },
            None => MinMax { min: None, max: None },
        };
        Market {
            lowercase_id: Some(crate::text::to_lowercase(id.as_str())),
            id,
            symbol: concat3(base.as_str(), "/", quote.as_str()),
            base_id: copy_str(base.as_str()),
            quote_id: copy_str(quote.as_str()),
            base,
            quote,
            settle: None,
            active: true,
            market_type: MarketType::Spot,
            spot: true,
            margin: false,
            swap: false,
            future: false,
            contract: false,
            linear: None,
            inverse: None,
            contract_size: None,
            created: None,
            taker: Some(Dec::new(15, 4)),
            maker: Some(Dec::new(10, 4)),
            precision: MarketPrecision {
                amount: Some(amount_precision),
                price: Some(price_precision),
                cost: None,
                base: Some(amount_precision),
                quote: Some(price_precision),
            },
            limits,
        }
    }

    /// Whether an instrument is active and becomes a market.
    pub fn is_active(inst: &OnetradingMarket) -> (r: bool)
        ensures
            r == (inst.state matches Some(s) && s@ == "ACTIVE"@),
    {
        match &inst.state {
            Some(s) => str_eq(s.as_str(), "ACTIVE"),
            None => false,
        }
    }

    /// Unified level of a book entry, when both numbers read.
    pub fn parse_book_entry(e: &OnetradingOrderBookEntry) -> (r: Option<OrderBookEntry>)
        ensures
            match r {
                Some(x) => opt_text_dec(e.price) == Some(x.price.parts()) && opt_text_dec(e.amount)
                    == Some(x.amount.parts()),
                None => opt_text_dec(e.price) is None || opt_text_dec(e.amount) is None,
            },
    {
        match (parse_opt(&e.price), parse_opt(&e.amount)) {
            (Some(p), Some(a)) => Some(OrderBookEntry { price: p, amount: a }),
            _ => None,
        }
    }

    /// Unified candle, when its time and all its numbers read; the volume is
    /// the candle's total amount.
    pub fn parse_candle(c: &OnetradingCandlestick) -> (r: Option<OHLCV>)
        ensures
            match r {
                Some(x) => opt_rfc3339_ms(c.time) == Some(x.timestamp as int) && opt_text_dec(c.open)
                    == Some(x.open.parts()) && opt_text_dec(c.high) == Some(x.high.parts())
                    && opt_text_dec(c.low) == Some(x.low.parts()) && opt_text_dec(c.close) == Some(
                    x.close.parts(),
                ) && opt_text_dec(c.total_amount) == Some(x.volume.parts()),
                None => opt_rfc3339_ms(c.time) is None || opt_text_dec(c.open) is None
                    || opt_text_dec(c.high) is None || opt_text_dec(c.low) is None || opt_text_dec(
                    c.close,
                ) is None || opt_text_dec(c.total_amount) is None,
            },
    {
        let t = parse_opt_rfc3339_ms(&c.time);
        match (t, parse_opt(&c.open), parse_opt(&c.high), parse_opt(&c.low), parse_opt(&c.close), parse_opt(&c.total_amount)) {
            (Some(t), Some(o), Some(h), Some(l), Some(cl), Some(v)) => Some(
                OHLCV { timestamp: t, open: o, high: h, low: l, close: cl, volume: v },
            ),
            _ => None,
        }
    }

    /// Parameters of an order request. Limit and stop orders need a price;
    /// other order types than limit, market and stop are refused.
    pub fn create_order_request(
        &self,
        symbol: &str,
        order_type: OrderType,
        side: OrderSide,
        amount: Dec,
        price: Option<Dec>,
    ) -> (r: Result<Vec<(String, String)>, CcxtError>)
        ensures
            (order_type != OrderType::Limit && order_type != OrderType::Market && order_type
                != OrderType::StopLossLimit) <==> r matches Err(CcxtError::NotSupported { .. }),
            r matches Err(CcxtError::NotSupported { feature }) ==> feature@ == "Order type: "@ + spec_order_type_name(order_type),
            ((order_type == OrderType::Limit || order_type == OrderType::StopLossLimit)
                && price is None) <==> r matches Err(CcxtError::ArgumentsRequired { .. }),
            r matches Ok(p) ==> p@[0].0@ == "instrument_code"@ && p@[0].1@ == replace_all(
                symbol@,
                '/',
                '_',
            ) && p@[1].0@ == "side"@ && p@[1].1@ == (if side == OrderSide::Buy {
                "BUY"@
            } else {
                "SELL"@
            }) && p@[2].0@ == "type"@ && p@[2].1@ == (if order_type == OrderType::Limit {
                "LIMIT"@
            } else if order_type == OrderType::Market {
                "MARKET"@
            } else {
                "STOP"@
            }) && p@[3].0@ == "amount"@ && (amount.wf() ==> p@[3].1@ == spec_dec_to_string(
                amount.parts(),
            )) && (if order_type == OrderType::Market {
                p@.len() == 4
            } else {
                p@.len() == 5 && p@[4].0@ == "price"@ && (price->0.wf() ==> p@[4].1@
                    == spec_dec_to_string(price->0.parts()))
            }),
    {
        let mut params = param1("instrument_code", self.to_market_id(symbol));
        let s = match side {
            OrderSide::Buy => "BUY",
            OrderSide::Sell => "SELL",
        };
        push_param(&mut params, "side", copy_str(s));
        let t = match order_type {
            OrderType::Limit => "LIMIT",
            OrderType::Market => "MARKET",
            OrderType::StopLossLimit => "STOP",
            _ => {
                return Err(CcxtError::NotSupported { feature: concat2("Order type: ", order_type.name()) });
            },
        };
        push_param(&mut params, "type", copy_str(t));
        push_param(&mut params, "amount", amount.to_text());
        if order_type == OrderType::Limit || order_type == OrderType::StopLossLimit {
            let p = match price {
                Some(p) => p,
                None => {
                    return Err(
                        CcxtError::ArgumentsRequired {
                            message: copy_str("Limit order requires price"),
                        },
                    );
                },
            };
            push_param(&mut params, "price", p.to_text());
        }
        Ok(params)
    }

    /// A request to `ONETRADING_BASE_URL` + `path`. Private requests carry
    /// `Accept` and the bearer key (empty when absent), and a `POST` also
    /// `Content-Type`; the parameters go into the query except on a private
    /// `POST`.
    pub fn sign(&self, path: &str, api: &str, method: &str, params: &Vec<(String, String)>) -> (r: SignedRequest)
        ensures
            r.method@ == method@,
            r.body is None,
            api@ == "private"@ ==> {
                &&& r.headers@.len() == (if method@ == "POST"@ { 3int } else { 2int })
                &&& r.headers@[0].0@ == "Accept"@ && r.headers@[0].1@ == "application/json"@
                &&& r.headers@[1].0@ == "Authorization"@ && r.headers@[1].1@ == "Bearer "@ + (match self.config.api_key {
                    Some(k) => k@,
                    None => Seq::<char>::empty(),
                })
                &&& method@ == "POST"@ ==> r.headers@[2].0@ == "Content-Type"@ && r.headers@[2].1@ == "application/json"@
                &&& r.url@ == (if method@ == "POST"@ { ONETRADING_BASE_URL@ + path@ } else { ot_url(path@, params@) })
            },
            api@ != "private"@ ==> r.headers@.len() == 0 && r.url@ == ot_url(path@, params@),
    {
        let mut headers: Vec<(String, String)> = Vec::new();
        let mut with_query = true;
        if str_eq(api, "private") {
            let key = match self.config.api_key() {
                Some(k) => copy_str(k),
                None => String::new(),
            };
            headers.push((copy_str("Accept"), copy_str("application/json")));
            headers.push((copy_str("Authorization"), concat2("Bearer ", key.as_str())));
            if str_eq(method, "POST") {
                headers.push((copy_str("Content-Type"), copy_str("application/json")));
                with_query = false;
            }
        }
        let url = if with_query && params.len() > 0 {
            let q = build_query(params, true);
            let mut u = concat3(ONETRADING_BASE_URL, path, "?");
            push_str(&mut u, q.as_str());
            u
        } else {
            concat2(ONETRADING_BASE_URL, path)
        };
        SignedRequest { url, method: copy_str(method), headers, body: None }
    }

    /// A private request: the key is required; `Accept` and the bearer key,
    /// and for a `POST` `Content-Type` with the parameters as a JSON object
    /// body; a `GET` or `DELETE` carries them as query; other methods are
    /// refused.
    pub fn private_request(&self, method: &str, path: &str, params: &Vec<(String, String)>) -> (r: Result<SignedRequest, CcxtError>)
        ensures
            self.config.api_key is None ==> r matches Err(CcxtError::AuthenticationError { .. }),
            self.config.api_key is Some && method@ != "GET"@ && method@ != "POST"@ && method@ != "DELETE"@
                ==> r matches Err(CcxtError::NotSupported { .. }),
            r matches Ok(q) ==> {
                &&& self.config.api_key matches Some(k)
                &&& q.method@ == method@
                &&& q.headers@[0].0@ == "Accept"@ && q.headers@[0].1@ == "application/json"@
                &&& q.headers@[1].0@ == "Authorization"@ && q.headers@[1].1@ == "Bearer "@ + k@
                &&& if method@ == "POST"@ {
                    &&& q.headers@.len() == 3
                    &&& q.headers@[2].0@ == "Content-Type"@ && q.headers@[2].1@ == "application/json"@
                    &&& q.url@ == ONETRADING_BASE_URL@ + path@
                    &&& q.body matches Some(b) && b@ == json_text_object(params@)
                } else {
                    &&& method@ == "GET"@ || method@ == "DELETE"@
                    &&& q.headers@.len() == 2
                    &&& q.url@ == ot_url(path@, params@)
                    &&& q.body is None
                }
            },
    {
        let key = match self.config.api_key() {
            Some(k) => k,
            None => {
                return Err(CcxtError::AuthenticationError { message: copy_str("API key required") });
            },
        };
        let mut headers: Vec<(String, String)> = Vec::new();
        headers.push((copy_str("Accept"), copy_str("application/json")));
        headers.push((copy_str("Authorization"), concat2("Bearer ", key)));
        if str_eq(method, "POST") {
            headers.push((copy_str("Content-Type"), copy_str("application/json")));
            let body = json_text_object_of(params);
            return Ok(SignedRequest { url: concat2(ONETRADING_BASE_URL, path), method: copy_str(method), headers, body: Some(body) });
        }
        if !str_eq(method, "GET") && !str_eq(method, "DELETE") {
            return Err(CcxtError::NotSupported { feature: concat2("HTTP method: ", method) });
        }
        let url = if params.len() > 0 {
            let q = build_query(params, true);
            let mut u = concat3(ONETRADING_BASE_URL, path, "?");
            push_str(&mut u, q.as_str());
            u
        } else {
            concat2(ONETRADING_BASE_URL, path)
        };
        Ok(SignedRequest { url, method: copy_str(method), headers, body: None })
    }

    /// The calendar text of an instant, or the error the exchange's time
    /// parameters give for one that cannot be written.
    fn time_param(ms: i64) -> (r: Result<String, CcxtError>)
        ensures
            match r {
                Ok(s) => spec_iso8601(ms as int) == Some(s@),
                Err(e) => spec_iso8601(ms as int) is None && e matches CcxtError::BadRequest { .. },
            },
    {
        match iso8601(ms) {
            Some(s) => Ok(s),
            None => Err(CcxtError::BadRequest { message: copy_str("Invalid timestamp") }),
        }
    }

    /// Path and parameters of a candle request: `period` and `unit` of the
    /// timeframe, `from` the start when given, and `to` the end of `limit`
    /// candles after it when both are given. An end that cannot be written
    /// as a time is refused (the service's own client fails there).
    pub fn ohlcv_request(&self, symbol: &str, timeframe: Timeframe, since: Option<i64>, limit: Option<u32>) -> (r: Result<(String, Vec<(String, String)>), CcxtError>)
        ensures
            spec_onetrading_timeframe(timeframe) is None ==> (r matches Err(CcxtError::BadRequest { message }) && message@ == "Unsupported timeframe: "@ + spec_timeframe_name(timeframe)),
            r matches Ok((path, p)) ==> {
                let tf = spec_onetrading_timeframe(timeframe)->0;
                &&& path@ == "/v1/candlesticks/"@ + replace_all(symbol@, '/', '_')
                &&& p@[0].0@ == "period"@ && p@[1].0@ == "unit"@
                &&& tf == p@[0].1@ + "/"@ + p@[1].1@
                &&& match since {
                    Some(s) => {
                        &&& spec_iso8601(s as int) == Some(p@[2].1@) && p@[2].0@ == "from"@
                        &&& match limit {
                            Some(l) => p@.len() == 4 && p@[3].0@ == "to"@
                                && spec_iso8601(s + ot_span_secs(timeframe) * l * 1000) == Some(p@[3].1@),
                            None => p@.len() == 3,
                        }
                    },
                    None => p@.len() == 2,
                }
            },
            r is Err ==> spec_onetrading_timeframe(timeframe) is None || (since matches Some(s) && (spec_iso8601(
                s as int,
            ) is None || (limit matches Some(l) && (ot_span_secs(timeframe) * l * 1000 > i64::MAX || !(i64::MIN <= s
                + ot_span_secs(timeframe) * l * 1000 <= i64::MAX) || spec_iso8601(s + ot_span_secs(timeframe) * l * 1000)
                is None)))),
    {
        let (period, unit, span): (&str, &str, i64) = match timeframe {
            Timeframe::Minute1 => ("1", "MINUTES", 60),
            Timeframe::Minute5 => ("5", "MINUTES", 300),
            Timeframe::Minute15 => ("15", "MINUTES", 900),
            Timeframe::Minute30 => ("30", "MINUTES", 1800),
            Timeframe::Hour1 => ("1", "HOURS", 3600),
            Timeframe::Hour4 => ("4", "HOURS", 14400),
            Timeframe::Day1 => ("1", "DAYS", 86400),
            Timeframe::Week1 => ("1", "WEEKS", 604800),
            Timeframe::Month1 => ("1", "MONTHS", 2592000),
            _ => {
                return Err(CcxtError::BadRequest { message: concat2("Unsupported timeframe: ", timeframe.name()) });
            },
        };
        proof {
            reveal_strlit("/");
            reveal_strlit("1");
            reveal_strlit("5");
            reveal_strlit("15");
            reveal_strlit("30");
            reveal_strlit("4");
            reveal_strlit("MINUTES");
            reveal_strlit("HOURS");
            reveal_strlit("DAYS");
            reveal_strlit("WEEKS");
            reveal_strlit("MONTHS");
            reveal_strlit("1/MINUTES");
            reveal_strlit("5/MINUTES");
            reveal_strlit("15/MINUTES");
            reveal_strlit("30/MINUTES");
            reveal_strlit("1/HOURS");
            reveal_strlit("4/HOURS");
            reveal_strlit("1/DAYS");
            reveal_strlit("1/WEEKS");
            reveal_strlit("1/MONTHS");
        }
        assert(spec_onetrading_timeframe(timeframe)->0 =~= period@ + "/"@ + unit@);
        let path = concat2("/v1/candlesticks/", self.to_market_id(symbol).as_str());
        let mut params = param1("period", copy_str(period));
        push_param(&mut params, "unit", copy_str(unit));
        if let Some(s) = since {
            let from = Self::time_param(s)?;
            push_param(&mut params, "from", from);
            if let Some(l) = limit {
                assert(0 <= span * l <= 2592000 * 4294967295) by (nonlinear_arith)
                    requires
                        0 <= span <= 2592000,
                        0 <= l <= 4294967295,
                ;
                let secs: i64 = span * (l as i64);
                assert(secs * 1000 == ot_span_secs(timeframe) * l * 1000) by (nonlinear_arith)
                    requires
                        secs == span * l,
                        span == ot_span_secs(timeframe),
                ;
                let to_ms = match secs.checked_mul(1000) {
                    Some(ms) => match s.checked_add(ms) {
                        Some(t) => t,
                        None => {
                            return Err(CcxtError::BadRequest { message: copy_str("Invalid timestamp") });
                        },
                    },
                    None => {
                        return Err(CcxtError::BadRequest { message: copy_str("Invalid timestamp") });
                    },
                };
                assert(to_ms == s + ot_span_secs(timeframe) * l * 1000) by (nonlinear_arith)
                    requires
                        secs == span * l,
                        to_ms == s + secs * 1000,
                        span == ot_span_secs(timeframe),
                ;
                let to = Self::time_param(to_ms)?;
                push_param(&mut params, "to", to);
            }
        }
        Ok((path, params))
    }

    /// Parameters of an order or trade history request: `with_cancelled_and_rejected`
    /// when `closed`, the instrument, the start as time and the page size.
    pub fn history_params(&self, symbol: Option<&str>, since: Option<i64>, limit: Option<u32>, closed: bool) -> (r: Result<Vec<(String, String)>, CcxtError>)
        ensures
            r is Err <==> (since matches Some(s) && spec_iso8601(s as int) is None),
            r matches Ok(p) ==> {
                let n0: int = if closed { 1 } else { 0 };
                let n1: int = n0 + if symbol is Some { 1int } else { 0int };
                let n2: int = n1 + if since is Some { 1int } else { 0int };
                &&& p@.len() == n2 + if limit is Some { 1int } else { 0int }
                &&& closed ==> p@[0].0@ == "with_cancelled_and_rejected"@ && p@[0].1@ == "true"@
                &&& symbol matches Some(s) ==> p@[n0].0@ == "instrument_code"@ && p@[n0].1@ == replace_all(s@, '/', '_')
                &&& since matches Some(s) ==> p@[n1].0@ == "from"@ && spec_iso8601(s as int) == Some(p@[n1].1@)
                &&& limit matches Some(l) ==> p@[n2].0@ == "max_page_size"@ && p@[n2].1@ == spec_int_to_string(l as int)
            },
    {
        let mut params: Vec<(String, String)> = Vec::new();
        if closed {
            push_param(&mut params, "with_cancelled_and_rejected", copy_str("true"));
        }
        if let Some(s) = symbol {
            push_param(&mut params, "instrument_code", self.to_market_id(s));
        }
        if let Some(s) = since {
            let from = Self::time_param(s)?;
            push_param(&mut params, "from", from);
        }
        if let Some(l) = limit {
            push_param(&mut params, "max_page_size", int_to_string(l as i128));
        }
        Ok(params)
    }

    /// Unified tickers keyed by symbol: tickers of unknown instruments are
    /// skipped, only requested symbols are kept when a list is given, and a
    /// later ticker of a symbol replaces an earlier one.
    pub fn parse_tickers(&self, tickers: &Vec<OnetradingTicker>, symbols: Option<&Vec<String>>, now: i64) -> (r: Vec<(String, Ticker)>)
        ensures
            ({
                let req = match symbols {
                    Some(v) => Some(texts_of(v@)),
                    None => None,
                };
                let kept = ot_ticker_kept(tickers@, self.markets_by_id, req);
                pair_keyed_by_last(
                    kept.map_values(|t: OnetradingTicker| self.markets_by_id.spec_get(t.instrument_code@)->0),
                    r@,
                    |i: int, x: Ticker| spec_onetrading_ticker_ok(kept[i], self.markets_by_id.spec_get(kept[i].instrument_code@)->0, now, x),
                )
            }),
    {
        let ghost req = match symbols {
            Some(v) => Some(texts_of(v@)),
            None => None,
        };
        let ghost idx = self.markets_by_id;
        let ghost kept = ot_ticker_kept(tickers@, idx, req);
        let ghost ok = |i: int, x: Ticker| spec_onetrading_ticker_ok(kept[i], idx.spec_get(kept[i].instrument_code@)->0, now, x);
        let mut result: Vec<(String, Ticker)> = Vec::new();
        let n = tickers.len();
        let mut k: usize = 0;
        proof {
            lemma_pair_keyed_empty(ok);
            assert(ot_ticker_kept(tickers@.take(0), idx, req) =~= Seq::<OnetradingTicker>::empty());
            assert(ot_ticker_kept(tickers@.take(0), idx, req).map_values(|t: OnetradingTicker| idx.spec_get(t.instrument_code@)->0) =~= Seq::<Seq<char>>::empty());
            assert(result@ =~= Seq::<(String, Ticker)>::empty());
        }
        while k < n
            invariant
                n == tickers@.len(),
                k <= n,
                idx == self.markets_by_id,
                req == (match symbols {
                    Some(v) => Some(texts_of(v@)),
                    None => None,
                }),
                kept == ot_ticker_kept(tickers@, idx, req),
                ok == (|i: int, x: Ticker| spec_onetrading_ticker_ok(kept[i], idx.spec_get(kept[i].instrument_code@)->0, now, x)),
                forall|j: int|
                    0 <= j < ot_ticker_kept(tickers@.take(k as int), idx, req).len() ==> #[trigger] ot_ticker_kept(
                        tickers@.take(k as int),
                        idx,
                        req,
                    )[j] == kept[j],
                ot_ticker_kept(tickers@.take(k as int), idx, req).len() <= kept.len(),
                pair_keyed_by_last(
                    ot_ticker_kept(tickers@.take(k as int), idx, req).map_values(
                        |t: OnetradingTicker| idx.spec_get(t.instrument_code@)->0,
                    ),
                    result@,
                    ok,
                ),
            decreases n - k,
        {
            let ghost pre = ot_ticker_kept(tickers@.take(k as int), idx, req);
            proof {
                assert(tickers@.take(k + 1).drop_last() =~= tickers@.take(k as int));
                assert(tickers@.take(k + 1).last() == tickers@[k as int]);
                reveal_with_fuel(Seq::<_>::filter, 1);
                lemma_ot_kept_prefix(tickers@, idx, req, k + 1);
            }
            match self.symbol(tickers[k].instrument_code.as_str()) {
                Some(sym) => {
                    let keep = match symbols {
                        Some(v) => contains_text(v, sym.as_str()),
                        None => true,
                    };
                    if keep {
                        let t = self.parse_ticker(&tickers[k], sym.as_str(), now);
                        let ghost before = result@;
                        let ghost key = sym@;
                        keyed_insert(&mut result, sym, t);
                        proof {
                            let codes = pre.map_values(|x: OnetradingTicker| idx.spec_get(x.instrument_code@)->0);
                            assert(ot_ticker_kept(tickers@.take(k + 1), idx, req) =~= pre.push(tickers@[k as int]));
                            assert(ot_ticker_kept(tickers@.take(k + 1), idx, req)[pre.len() as int] == tickers@[k as int]);
                            assert(kept[pre.len() as int] == tickers@[k as int]);
                            assert(ok(codes.len() as int, t));
                            lemma_pair_keyed_step(codes, before, result@, key, t, ok);
                            assert(codes.push(key) =~= ot_ticker_kept(tickers@.take(k + 1), idx, req).map_values(
                                |x: OnetradingTicker| idx.spec_get(x.instrument_code@)->0,
                            ));
                        }
                    } else {
                        proof {
                            assert(ot_ticker_kept(tickers@.take(k + 1), idx, req) =~= pre);
                        }
                    }
                },
                None => {
                    proof {
                        assert(ot_ticker_kept(tickers@.take(k + 1), idx, req) =~= pre);
                    }
                },
            }
            k = k + 1;
        }
        proof {
            assert(tickers@.take(n as int) =~= tickers@);
        }
        result
    }

    /// The symbol an instrument code gives (see [`ot_symbol_for`]).
    fn symbol_for(&self, code: &Option<String>, symbol: Option<&str>) -> (r: String)
        ensures
            r@ == ot_symbol_for(self.markets_by_id, *code, match symbol {
                Some(s) => Some(s@),
                None => None,
            }),
    {
        let found = match code {
            Some(c) => self.symbol(c.as_str()),
            None => None,
        };
        match found {
            Some(s) => s,
            None => match symbol {
                Some(s) => copy_str(s),
                None => String::new(),
            },
        }
    }

    /// Unified orders of an order history, each under its instrument's
    /// symbol (else the requested one); only closed ones when `closed_only`.
    pub fn parse_order_history(&self, orders: &Vec<OnetradingOrder>, symbol: Option<&str>, closed_only: bool) -> (r: Vec<Order>)
        ensures
            ({
                let req = match symbol {
                    Some(s) => Some(s@),
                    None => None,
                };
                let kept = if closed_only {
                    orders@.filter(|o: OnetradingOrder| spec_onetrading_closed(opt_view(o.status)))
                } else {
                    orders@
                };
                &&& r@.len() == kept.len()
                &&& forall|k: int| 0 <= k < r@.len() ==> spec_onetrading_order_ok(kept[k], ot_symbol_for(self.markets_by_id, kept[k].instrument_code, req), #[trigger] r@[k])
            }),
    {
        let ghost req = match symbol {
            Some(s) => Some(s@),
            None => None,
        };
        let ghost pred = |o: OnetradingOrder| spec_onetrading_closed(opt_view(o.status));
        let mut out: Vec<Order> = Vec::new();
        let n = orders.len();
        let mut i: usize = 0;
        while i < n
            invariant
                n == orders@.len(),
                i <= n,
                req == (match symbol {
                    Some(s) => Some(s@),
                    None => None,
                }),
                pred == (|o: OnetradingOrder| spec_onetrading_closed(opt_view(o.status))),
                ({
                    let kept = if closed_only { orders@.take(i as int).filter(pred) } else { orders@.take(i as int) };
                    &&& out@.len() == kept.len()
                    &&& forall|k: int| 0 <= k < out@.len() ==> spec_onetrading_order_ok(kept[k], ot_symbol_for(self.markets_by_id, kept[k].instrument_code, req), #[trigger] out@[k])
                }),
            decreases n - i,
        {
            proof {
                assert(orders@.take(i + 1).drop_last() =~= orders@.take(i as int));
                assert(orders@.take(i + 1).last() == orders@[i as int]);
                reveal_with_fuel(Seq::<_>::filter, 1);
            }
            let keep = !closed_only || Self::is_closed_status(&orders[i].status);
            if keep {
                let sym = self.symbol_for(&orders[i].instrument_code, symbol);
                out.push(self.parse_order(&orders[i], sym.as_str()));
            }
            i = i + 1;
        }
        assert(orders@.take(n as int) =~= orders@);
        out
    }

    /// Unified trades of a trade history, each under its instrument's
    /// symbol (else the requested one).
    pub fn parse_trade_history(&self, trades: &Vec<OnetradingTrade>, symbol: Option<&str>) -> (r: Vec<Trade>)
        ensures
            r@.len() == trades@.len(),
            forall|k: int| 0 <= k < r@.len() ==> spec_onetrading_trade_ok(trades@[k], ot_symbol_for(self.markets_by_id, ot_trade_code(trades@[k]), match symbol {
                Some(s) => Some(s@),
                None => None,
            }), #[trigger] r@[k]),
    {
        let mut out: Vec<Trade> = Vec::new();
        let n = trades.len();
        let mut i: usize = 0;
        while i < n
            invariant
                n == trades@.len(),
                i <= n,
                out@.len() == i,
                forall|k: int| 0 <= k < i ==> spec_onetrading_trade_ok(trades@[k], ot_symbol_for(self.markets_by_id, ot_trade_code(trades@[k]), match symbol {
                    Some(s) => Some(s@),
                    None => None,
                }), #[trigger] out@[k]),
            decreases n - i,
        {
            let code = match &trades[i].trade {
                Some(d) => match &d.instrument_code {
                    Some(c) => Some(copy_str(c.as_str())),
                    None => copy_opt(&trades[i].instrument_code),
                },
                None => copy_opt(&trades[i].instrument_code),
            };
            let sym = self.symbol_for(&code, symbol);
            out.push(self.parse_trade(&trades[i], sym.as_str()));
            i = i + 1;
        }
        out
    }

    /// An order that only names its id, symbol and status (see
    /// [`ot_bare_order`]).
    pub fn bare_order(id: &str, symbol: &str, status: OrderStatus) -> (r: Order)
        ensures
            ot_bare_order(id@, symbol@, status, r),
    {
        Order {
            id: copy_str(id),
            client_order_id: None,
            timestamp: None,
            datetime: None,
            last_trade_timestamp: None,
            last_update_timestamp: None,
            status,
            symbol: copy_str(symbol),
            order_type: OrderType::Limit,
            time_in_force: None,
            side: OrderSide::Buy,
            price: None,
            average: None,
            amount: Dec::zero(),
            filled: Dec::zero(),
            remaining: None,
            stop_price: None,
            trigger_price: None,
            take_profit_price: None,
            stop_loss_price: None,
            trades: Vec::new(),
            cost: None,
            fee: None,
            reduce_only: None,
            post_only: None,
        }
    }

    /// The orders a cancel-all answers with: one cancelled order per id,
    /// under the requested symbol (empty when none).
    pub fn cancelled_orders(ids: &Vec<String>, symbol: Option<&str>) -> (r: Vec<Order>)
        ensures
            r@.len() == ids@.len(),
            forall|k: int| 0 <= k < r@.len() ==> ot_bare_order(ids@[k]@, match symbol {
                Some(s) => s@,
                None => Seq::<char>::empty(),
            }, OrderStatus::Canceled, #[trigger] r@[k]),
    {
        let sym = match symbol {
            Some(s) => copy_str(s),
            None => String::new(),
        };
        let mut out: Vec<Order> = Vec::new();
        let n = ids.len();
        let mut i: usize = 0;
        while i < n
            invariant
                n == ids@.len(),
                i <= n,
                out@.len() == i,
                sym@ == (match symbol {
                    Some(s) => s@,
                    None => Seq::<char>::empty(),
                }),
                forall|k: int| 0 <= k < i ==> ot_bare_order(ids@[k]@, sym@, OrderStatus::Canceled, #[trigger] out@[k]),
            decreases n - i,
        {
            out.push(Self::bare_order(ids[i].as_str(), sym.as_str(), OrderStatus::Canceled));
            i = i + 1;
        }
        out
    }

    /// A book of an order-book answer: levels whose price and amount read,
    /// the answer's time as text and in milliseconds.
    pub fn parse_order_book(time: &Option<String>, bids: &Vec<OnetradingOrderBookEntry>, asks: &Vec<OnetradingOrderBookEntry>, symbol: &str) -> (r: OrderBook)
        ensures
            r.symbol@ == symbol@,
            opt_view(r.datetime) == opt_view(*time),
            r.timestamp == (match opt_rfc3339_ms(*time) {
                Some(t) => Some(t as i64),
                None => None,
            }),
            r.nonce is None,
            ot_levels_ok(bids@, r.bids@),
            ot_levels_ok(asks@, r.asks@),
    {
        OrderBook {
            symbol: copy_str(symbol),
            timestamp: parse_opt_rfc3339_ms(time),
            datetime: copy_opt(time),
            nonce: None,
            bids: Self::parse_book_entries(bids),
            asks: Self::parse_book_entries(asks),
        }
    }

    /// The levels of entries whose price and amount read, in order.
    fn parse_book_entries(es: &Vec<OnetradingOrderBookEntry>) -> (r: Vec<OrderBookEntry>)
        ensures
            ot_levels_ok(es@, r@),
    {
        let mut out: Vec<OrderBookEntry> = Vec::new();
        let n = es.len();
        let mut i: usize = 0;
        while i < n
            invariant
                n == es@.len(),
                i <= n,
                ot_levels_ok(es@.take(i as int), out@),
            decreases n - i,
        {
            proof {
                assert(es@.take(i + 1).drop_last() =~= es@.take(i as int));
                assert(es@.take(i + 1).last() == es@[i as int]);
                reveal_with_fuel(Seq::<_>::filter, 1);
            }
            match Self::parse_book_entry(&es[i]) {
                Some(x) => {
                    out.push(x);
                },
                None => {},
            }
            i = i + 1;
        }
        assert(es@.take(n as int) =~= es@);
        out
    }

    /// Candles of the candlesticks whose time and numbers all read, in order.
    pub fn parse_candles(cs: &Vec<OnetradingCandlestick>) -> (r: Vec<OHLCV>)
        ensures
            r@.len() == cs@.filter(|c: OnetradingCandlestick| ot_candle_reads(c)).len(),
            forall|k: int| 0 <= k < r@.len() ==> ot_candle_ok(cs@.filter(|c: OnetradingCandlestick| ot_candle_reads(c))[k], #[trigger] r@[k]),
    {
        let mut out: Vec<OHLCV> = Vec::new();
        let n = cs.len();
        let mut i: usize = 0;
        while i < n
            invariant
                n == cs@.len(),
                i <= n,
                out@.len() == cs@.take(i as int).filter(|c: OnetradingCandlestick| ot_candle_reads(c)).len(),
                forall|k: int| 0 <= k < out@.len() ==> ot_candle_ok(cs@.take(i as int).filter(|c: OnetradingCandlestick| ot_candle_reads(c))[k], #[trigger] out@[k]),
            decreases n - i,
        {
            proof {
                assert(cs@.take(i + 1).drop_last() =~= cs@.take(i as int));
                assert(cs@.take(i + 1).last() == cs@[i as int]);
                reveal_with_fuel(Seq::<_>::filter, 1);
            }
            match Self::parse_candle(&cs[i]) {
                Some(x) => {
                    out.push(x);
                },
                None => {},
            }
            i = i + 1;
        }
        assert(cs@.take(n as int) =~= cs@);
        out
    }

    /// Unified markets of the active instruments, in order.
    pub fn parse_markets(insts: &Vec<OnetradingMarket>) -> (r: Vec<Market>)
        ensures
            ({
                let kept = insts@.filter(|m: OnetradingMarket| m.state matches Some(s) && s@ == "ACTIVE"@);
                &&& r@.len() == kept.len()
                &&& forall|k: int| 0 <= k < r@.len() ==> spec_onetrading_market_ok(kept[k], #[trigger] r@[k])
            }),
    {
        let ghost pred = |m: OnetradingMarket| m.state matches Some(s) && s@ == "ACTIVE"@;
        let mut out: Vec<Market> = Vec::new();
        let n = insts.len();
        let mut i: usize = 0;
        while i < n
            invariant
                n == insts@.len(),
                i <= n,
                pred == (|m: OnetradingMarket| m.state matches Some(s) && s@ == "ACTIVE"@),
                out@.len() == insts@.take(i as int).filter(pred).len(),
                forall|k: int| 0 <= k < out@.len() ==> spec_onetrading_market_ok(insts@.take(i as int).filter(pred)[k], #[trigger] out@[k]),
            decreases n - i,
        {
            proof {
                assert(insts@.take(i + 1).drop_last() =~= insts@.take(i as int));
                assert(insts@.take(i + 1).last() == insts@[i as int]);
                reveal_with_fuel(Seq::<_>::filter, 1);
            }
            if Self::is_active(&insts[i]) {
                out.push(Self::parse_market(&insts[i]));
            }
            i = i + 1;
        }
        assert(insts@.take(n as int) =~= insts@);
        out
    }
}

} // verus!
