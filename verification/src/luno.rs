//! Luno: spot exchange with Basic-authenticated REST API.

use crate::common::{
    build_query, contains_text, copy_opt, keyed_insert, lemma_pair_keyed_empty, lemma_pair_keyed_step,
    opt_view, pair_keyed_by_last, param1, push_param, query_spec, texts_of, MarketIndex,
};
use crate::crypto::{base64_encode, spec_base64_encode};
use crate::dec::{
    checked_op, dec_add, dec_parse, dec_sub, opt_parts, opt_text_dec_or_zero, parse_opt, parse_or_zero,
    spec_dec_add, spec_dec_parse, spec_dec_sub, text_dec_or_zero, Dec,
};
use crate::text::{concat2, concat3, copy_str, int_to_string, remove_all, remove_char, str_eq, spec_int_to_string};
use crate::time::{iso8601_or_empty, iso8601_or_empty_spec};
use crate::types::{
    spec_timeframe_name,
    ExchangeUrls,
    Market, MarketLimits, MarketPrecision, MarketType, MinMax, OrderBook, OrderBookEntry, OHLCV,
    keyed_by_last, lemma_keyed_empty, lemma_keyed_step, Balance, Balances, CcxtError,
    ExchangeConfig, ExchangeFeatures, ExchangeId, Fee, Order, OrderSide, OrderStatus, OrderType,
    SignedRequest, TakerOrMaker, Ticker, Timeframe, Trade,
};
use vstd::prelude::*;

verus! {

/// REST base address.
pub const LUNO_BASE_URL: &'static str = "https://api.luno.com/api";

/// Minimum spacing of requests, in milliseconds.
pub const LUNO_RATE_LIMIT_MS: u64 = 200;

/// Ticker as the exchange sends it.
#[derive(Clone, Debug, PartialEq)]
pub struct LunoTicker {
    pub pair: String,
    pub timestamp: i64,
    pub bid: String,
    pub ask: String,
    pub last_trade: String,
    pub rolling_24_hour_volume: String,
    pub status: String,
}

/// Order as the exchange sends it.
#[derive(Clone, Debug, PartialEq)]
pub struct LunoOrder {
    pub order_id: String,
    pub creation_timestamp: i64,
    pub completed_timestamp: Option<i64>,
    pub expiration_timestamp: Option<i64>,
    pub order_type: String,
    pub state: String,
    pub limit_price: Option<String>,
    pub limit_volume: Option<String>,
    pub base: Option<String>,
    pub counter: Option<String>,
    pub fee_base: Option<String>,
    pub fee_counter: Option<String>,
    pub pair: String,
}

/// One asset's holdings as the exchange sends them.
#[derive(Clone, Debug, PartialEq)]
pub struct LunoBalance {
    pub asset: String,
    pub balance: String,
    pub reserved: String,
    pub unconfirmed: String,
}

/// Public or private trade as the exchange sends it.
#[derive(Clone, Debug, PartialEq)]
pub struct LunoTrade {
    pub sequence: Option<i64>,
    pub timestamp: i64,
    pub price: String,
    pub volume: Option<String>,
    pub is_buy: Option<bool>,
    pub pair: Option<String>,
    pub order_id: Option<String>,
    pub order_type: Option<String>,
    pub base: Option<String>,
    pub counter: Option<String>,
    pub fee_base: Option<String>,
    pub fee_counter: Option<String>,
}

/// Market description as the exchange sends it.
#[derive(Clone, Debug, PartialEq)]
pub struct LunoMarketInfo {
    pub market_id: String,
    pub trading_status: String,
    pub base_currency: String,
    pub counter_currency: String,
    pub min_volume: String,
    pub max_volume: String,
    pub volume_scale: i32,
    pub min_price: String,
    pub max_price: String,
    pub price_scale: i32,
    pub fee_scale: i32,
}

/// One order-book level as the exchange sends it.
#[derive(Clone, Debug, PartialEq)]
pub struct LunoOrderBookLevel {
    pub price: String,
    pub volume: String,
}

/// Order book as the exchange sends it.
#[derive(Clone, Debug, PartialEq)]
pub struct LunoOrderBook {
    pub timestamp: i64,
    pub bids: Vec<LunoOrderBookLevel>,
    pub asks: Vec<LunoOrderBookLevel>,
}

/// One candle as the exchange sends it.
#[derive(Clone, Debug, PartialEq)]
pub struct LunoCandle {
    pub timestamp: i64,
    pub open: String,
    pub close: String,
    pub high: String,
    pub low: String,
    pub volume: String,
}

/// The Luno adapter.
pub struct Luno {
    pub config: ExchangeConfig,
    pub features: ExchangeFeatures,
    pub markets_by_id: MarketIndex,
}

/// What Luno offers.
pub open spec fn spec_luno_features() -> ExchangeFeatures {
    ExchangeFeatures {
        cors: false,
        spot: true,
        margin: false,
        swap: false,
        future: false,
        option: false,
        fetch_markets: true,
        fetch_currencies: false,
        fetch_ticker: true,
        fetch_tickers: true,
        fetch_order_book: true,
        fetch_trades: true,
        fetch_ohlcv: true,
        fetch_balance: true,
        create_order: true,
        create_limit_order: true,
        create_market_order: true,
        cancel_order: true,
        fetch_order: true,
        fetch_orders: true,
        fetch_open_orders: true,
        fetch_closed_orders: true,
        fetch_my_trades: true,
        ..ExchangeFeatures::spec_none()
    }
}

/// Candle duration in seconds for each supported timeframe.
pub open spec fn spec_luno_timeframe_seconds(tf: Timeframe) -> Option<i32> {
    match tf {
        Timeframe::Minute1 => Some(60),
        Timeframe::Minute5 => Some(300),
        Timeframe::Minute15 => Some(900),
        Timeframe::Minute30 => Some(1800),
        Timeframe::Hour1 => Some(3600),
        Timeframe::Hour3 => Some(10800),
        Timeframe::Hour4 => Some(14400),
        Timeframe::Day1 => Some(86400),
        Timeframe::Day3 => Some(259200),
        Timeframe::Week1 => Some(604800),
        _ => None,
    }
}

/// The unified ticker of a Luno ticker under a symbol.
pub open spec fn spec_luno_ticker_ok(data: LunoTicker, symbol: Seq<char>, r: Ticker) -> bool {
    &&& r.symbol@ == symbol
    &&& r.timestamp == Some(data.timestamp)
    &&& opt_view(r.datetime) == Some(iso8601_or_empty_spec(data.timestamp as int))
    &&& opt_parts(r.bid) == spec_dec_parse(data.bid@)
    &&& opt_parts(r.ask) == spec_dec_parse(data.ask@)
    &&& opt_parts(r.close) == spec_dec_parse(data.last_trade@)
    &&& opt_parts(r.last) == spec_dec_parse(data.last_trade@)
    &&& opt_parts(r.base_volume) == spec_dec_parse(data.rolling_24_hour_volume@)
    &&& r.high is None && r.low is None && r.bid_volume is None && r.ask_volume is None
    &&& r.vwap is None && r.open is None && r.previous_close is None && r.change is None
    &&& r.percentage is None && r.average is None && r.quote_volume is None
    &&& r.index_price is None && r.mark_price is None
}

/// A ticker's bid and ask are the exchange's bid and ask, read as
/// decimals.
pub proof fn law_ticker_bid_ask(data: LunoTicker, symbol: Seq<char>, r: Ticker)
    requires
        spec_luno_ticker_ok(data, symbol, r),
    ensures
        opt_parts(r.bid) == spec_dec_parse(data.bid@),
        opt_parts(r.ask) == spec_dec_parse(data.ask@),
{
}

/// Side of a private Luno trade, from its order type.
pub open spec fn spec_luno_trade_side(t: Seq<char>) -> Option<OrderSide> {
    if t == "ASK"@ || t == "SELL"@ {
        Some(OrderSide::Sell)
    } else if t == "BID"@ || t == "BUY"@ {
        Some(OrderSide::Buy)
    } else {
        None
    }
}

/// The lower-case word of a side.
pub open spec fn side_word(s: OrderSide) -> Seq<char> {
    match s {
        OrderSide::Buy => "buy"@,
        OrderSide::Sell => "sell"@,
    }
}

/// The side text of a Luno trade: from the order type of a private trade,
/// from the buy flag of a public one.
pub open spec fn spec_luno_trade_side_text(d: LunoTrade) -> Option<Seq<char>> {
    match d.order_type {
        Some(t) => match spec_luno_trade_side(t@) {
            Some(s) => Some(side_word(s)),
            None => None,
        },
        None => match d.is_buy {
            Some(true) => Some("buy"@),
            Some(false) => Some("sell"@),
            None => None,
        },
    }
}

/// Taker or maker of a private Luno trade: maker when the buy flag
/// disagrees with the order side.
pub open spec fn spec_luno_taker_or_maker(d: LunoTrade) -> Option<TakerOrMaker> {
    match d.order_type {
        Some(t) => match d.is_buy {
            Some(b) => {
                let s = spec_luno_trade_side(t@);
                if (s == Some(OrderSide::Sell) && b) || (s == Some(OrderSide::Buy) && !b) {
                    Some(TakerOrMaker::Maker)
                } else {
                    Some(TakerOrMaker::Taker)
                }
            },
            None => None,
        },
        None => None,
    }
}

/// The traded amount: the volume when it reads as a number, else the base
/// amount, else zero.
pub open spec fn spec_luno_trade_amount(d: LunoTrade) -> (int, int) {
    let v = match d.volume {
        Some(s) => spec_dec_parse(s@),
        None => None,
    };
    match v {
        Some(p) => p,
        None => opt_text_dec_or_zero(d.base),
    }
}

/// A fee text read as a positive fee.
pub open spec fn spec_positive_fee_ok(s: Seq<char>, fee: Option<Fee>) -> bool {
    match spec_dec_parse(s) {
        Some(p) => if p.0 > 0 {
            fee matches Some(f) && f.cost matches Some(c) && c.parts() == p && f.currency is None
                && f.rate is None
        } else {
            fee is None
        },
        None => fee is None,
    }
}

/// The fee of a Luno trade: the base fee when given, else the counter fee;
/// only positive fees count.
pub open spec fn spec_luno_trade_fee_ok(d: LunoTrade, fee: Option<Fee>) -> bool {
    match d.fee_base {
        Some(s) => spec_positive_fee_ok(s@, fee),
        None => match d.fee_counter {
            Some(s) => spec_positive_fee_ok(s@, fee),
            None => fee is None,
        },
    }
}

/// The unified trade of a Luno trade under a symbol.
pub open spec fn spec_luno_trade_ok(d: LunoTrade, symbol: Seq<char>, r: Trade) -> bool {
    &&& r.id@ == (match d.sequence {
        Some(n) => spec_int_to_string(n as int),
        None => Seq::<char>::empty(),
    })
    &&& opt_view(r.order) == opt_view(d.order_id)
    &&& r.timestamp == Some(d.timestamp)
    &&& opt_view(r.datetime) == Some(iso8601_or_empty_spec(d.timestamp as int))
    &&& r.symbol@ == symbol
    &&& r.trade_type is None
    &&& opt_view(r.side) == spec_luno_trade_side_text(d)
    &&& r.taker_or_maker == spec_luno_taker_or_maker(d)
    &&& r.price.parts() == text_dec_or_zero(d.price@)
    &&& r.amount.parts() == spec_luno_trade_amount(d)
    &&& opt_parts(r.cost) == (match d.counter {
        Some(s) => spec_dec_parse(s@),
        None => None,
    })
    &&& spec_luno_trade_fee_ok(d, r.fee)
}

/// The side of a Luno trade. A public trade (no order type) is a buy when
/// its buy flag is set, a sell when it is clear, and has no side without
/// the flag. A private trade sells under order type `ASK` or `SELL`, buys
/// under `BID` or `BUY`, and has no side under another type.
pub proof fn law_trade_side(d: LunoTrade, symbol: Seq<char>, r: Trade)
    requires
        spec_luno_trade_ok(d, symbol, r),
    ensures
        d.order_type is None && d.is_buy == Some(true) ==> opt_view(r.side) == Some("buy"@),
        d.order_type is None && d.is_buy == Some(false) ==> opt_view(r.side) == Some("sell"@),
        d.order_type is None && d.is_buy is None ==> r.side is None,
        (d.order_type matches Some(t) && (t@ == "ASK"@ || t@ == "SELL"@)) ==> opt_view(r.side) == Some("sell"@),
        (d.order_type matches Some(t) && (t@ == "BID"@ || t@ == "BUY"@)) ==> opt_view(r.side) == Some("buy"@),
        (d.order_type matches Some(t) && !(t@ == "ASK"@ || t@ == "SELL"@ || t@ == "BID"@ || t@ == "BUY"@))
            ==> r.side is None,
{
    reveal_strlit("ASK");
    reveal_strlit("SELL");
    reveal_strlit("BID");
    reveal_strlit("BUY");
    assert("ASK"@[0] != "BID"@[0] && "ASK"@[0] != "BUY"@[0]);
    assert("SELL"@[0] != "BID"@[0] && "SELL"@[0] != "BUY"@[0]);
}

/// Whether a private Luno trade took or made liquidity: with the buy flag
/// given, it is the maker exactly when the flag disagrees with the order's
/// side (a set flag on a sell, a clear flag on a buy). A public trade has
/// neither.
pub proof fn law_trade_maker(d: LunoTrade, symbol: Seq<char>, r: Trade)
    requires
        spec_luno_trade_ok(d, symbol, r),
    ensures
        d.order_type is None ==> r.taker_or_maker is None,
        (d.order_type matches Some(t) && (t@ == "ASK"@ || t@ == "SELL"@) && d.is_buy == Some(true))
            ==> r.taker_or_maker == Some(TakerOrMaker::Maker),
        (d.order_type matches Some(t) && (t@ == "ASK"@ || t@ == "SELL"@) && d.is_buy == Some(false))
            ==> r.taker_or_maker == Some(TakerOrMaker::Taker),
        (d.order_type matches Some(t) && (t@ == "BID"@ || t@ == "BUY"@) && d.is_buy == Some(false))
            ==> r.taker_or_maker == Some(TakerOrMaker::Maker),
        (d.order_type matches Some(t) && (t@ == "BID"@ || t@ == "BUY"@) && d.is_buy == Some(true))
            ==> r.taker_or_maker == Some(TakerOrMaker::Taker),
{
    reveal_strlit("ASK");
    reveal_strlit("SELL");
    reveal_strlit("BID");
    reveal_strlit("BUY");
    assert("ASK"@[0] != "BID"@[0] && "ASK"@[0] != "BUY"@[0]);
    assert("SELL"@[0] != "BID"@[0] && "SELL"@[0] != "BUY"@[0]);
}

/// Order status of a Luno order state.
pub open spec fn spec_luno_status(state: Seq<char>) -> OrderStatus {
    if state == "PENDING"@ {
        OrderStatus::Open
    } else if state == "COMPLETE"@ {
        OrderStatus::Closed
    } else {
        OrderStatus::Open
    }
}

/// An order is closed exactly when its state is `COMPLETE`.
pub proof fn law_status_words(s: Seq<char>)
    ensures
        spec_luno_status(s) == OrderStatus::Closed <==> (s == "COMPLETE"@),
{
    reveal_strlit("COMPLETE");
    reveal_strlit("PENDING");
    assert("PENDING"@.len() != "COMPLETE"@.len());
}

/// Order side of a Luno order type.
pub open spec fn spec_luno_side(t: Seq<char>) -> OrderSide {
    if t == "ASK"@ || t == "SELL"@ {
        OrderSide::Sell
    } else {
        OrderSide::Buy
    }
}

/// An order sells exactly when its type is `ASK` or `SELL`.
pub proof fn law_side_words(s: Seq<char>)
    ensures
        spec_luno_side(s) == OrderSide::Sell <==> (s == "ASK"@ || s == "SELL"@),
{
    reveal_strlit("ASK");
    reveal_strlit("SELL");
    assert("ASK"@.len() != "SELL"@.len());
}

/// The fee of a Luno order: the counter fee when given, else the base fee.
pub open spec fn spec_luno_order_fee_ok(d: LunoOrder, fee: Option<Fee>) -> bool {
    let src = if d.fee_counter is Some {
        d.fee_counter
    } else {
        d.fee_base
    };
    match src {
        Some(s) => match fee {
            Some(f) => spec_dec_parse(s@) == Some(f.cost->0.parts()) && f.cost is Some
                && f.currency is None && f.rate is None,
            None => spec_dec_parse(s@) is None,
        },
        None => fee is None,
    }
}

/// The holdings that Luno reports for one asset: used is reserved plus
/// unconfirmed, total is balance plus unconfirmed, free is total minus used.
pub open spec fn spec_luno_balance_ok(b: LunoBalance, r: Balance) -> bool {
    let bal = text_dec_or_zero(b.balance@);
    let res = text_dec_or_zero(b.reserved@);
    let unc = text_dec_or_zero(b.unconfirmed@);
    &&& opt_parts(r.used) == spec_dec_add(res, unc)
    &&& opt_parts(r.total) == spec_dec_add(bal, unc)
    &&& match (r.total, r.used) {
        (Some(t), Some(u)) => opt_parts(r.free) == checked_op(t, u, |x: (int, int), y: (int, int)| spec_dec_sub(x, y)),
        _ => r.free is None,
    }
}

/// Tickers whose pair is a known market and, when a list is given, whose
/// symbol is requested.
pub open spec fn luno_ticker_kept(
    rows: Seq<LunoTicker>,
    index: MarketIndex,
    symbols: Option<Seq<Seq<char>>>,
) -> Seq<LunoTicker> {
    rows.filter(|t: LunoTicker| index.spec_get(t.pair@) is Some && match symbols {
        Some(s) => s.contains(index.spec_get(t.pair@)->0),
        None => true,
    })
}

/// The kept tickers of a prefix are the first kept tickers.
proof fn lemma_luno_kept_prefix(t: Seq<LunoTicker>, index: MarketIndex, req: Option<Seq<Seq<char>>>, i: int)
    requires
        0 <= i <= t.len(),
    ensures
        luno_ticker_kept(t.take(i), index, req).len() <= luno_ticker_kept(t, index, req).len(),
        forall|j: int|
            0 <= j < luno_ticker_kept(t.take(i), index, req).len() ==> #[trigger] luno_ticker_kept(t.take(i), index, req)[j]
                == luno_ticker_kept(t, index, req)[j],
{
    assert(t =~= t.take(i) + t.skip(i));
    Seq::filter_distributes_over_add(
        t.take(i),
        t.skip(i),
        |x: LunoTicker| index.spec_get(x.pair@) is Some && match req {
            Some(s) => s.contains(index.spec_get(x.pair@)->0),
            None => true,
        },
    );
}

/// A unified order read from a Luno order, under a symbol.
pub open spec fn spec_luno_order_ok(data: LunoOrder, symbol: Seq<char>, r: Order) -> bool {
    &&& r.id@ == data.order_id@
    &&& r.client_order_id is None
    &&& r.timestamp == Some(data.creation_timestamp)
    &&& opt_view(r.datetime) == Some(iso8601_or_empty_spec(data.creation_timestamp as int))
    &&& r.last_trade_timestamp == data.completed_timestamp
    &&& r.last_update_timestamp == data.completed_timestamp
    &&& r.status == spec_luno_status(data.state@)
    &&& r.symbol@ == symbol
    &&& r.order_type == OrderType::Limit
    &&& r.time_in_force is None
    &&& r.side == spec_luno_side(data.order_type@)
    &&& opt_parts(r.price) == (match data.limit_price {
        Some(s) => spec_dec_parse(s@),
        None => None,
    })
    &&& r.average is None
    &&& r.amount.parts() == opt_text_dec_or_zero(data.limit_volume)
    &&& r.filled.parts() == opt_text_dec_or_zero(data.base)
    &&& opt_parts(r.remaining) == checked_op(r.amount, r.filled, |x: (int, int), y: (int, int)| spec_dec_sub(x, y))
    &&& opt_parts(r.cost) == (match data.counter {
        Some(s) => spec_dec_parse(s@),
        None => None,
    })
    &&& spec_luno_order_fee_ok(data, r.fee)
    &&& r.stop_price is None && r.trigger_price is None
    &&& r.reduce_only is None && r.post_only is None
    &&& r.no_extras()
}

/// A Luno market description read into a unified spot market.
pub open spec fn spec_luno_market_ok(info: LunoMarketInfo, r: Market) -> bool {
    &&& r.id@ == info.market_id@
    &&& r.symbol@ == info.base_currency@ + "/"@ + info.counter_currency@
    &&& r.base@ == info.base_currency@
    &&& r.quote@ == info.counter_currency@
    &&& r.base_id@ == info.base_currency@
    &&& r.quote_id@ == info.counter_currency@
    &&& r.active == (info.trading_status@ == "ACTIVE"@)
    &&& r.market_type == MarketType::Spot && r.spot && !r.margin && !r.swap && !r.future
        && !r.contract
    &&& r.taker == Some(Dec { mantissa: 1, scale: 3 })
    &&& r.maker == Some(Dec { mantissa: 0, scale: 0 })
    &&& r.precision == (MarketPrecision {
        amount: Some(info.volume_scale),
        price: Some(info.price_scale),
        cost: None,
        base: Some(info.volume_scale),
        quote: Some(info.price_scale),
    })
    &&& opt_parts(r.limits.amount.min) == spec_dec_parse(info.min_volume@)
    &&& opt_parts(r.limits.amount.max) == spec_dec_parse(info.max_volume@)
    &&& opt_parts(r.limits.price.min) == spec_dec_parse(info.min_price@)
    &&& opt_parts(r.limits.price.max) == spec_dec_parse(info.max_price@)
    &&& r.limits.cost == (MinMax { min: None, max: None })
    &&& r.limits.leverage == (MinMax { min: None, max: None })
}

impl Luno {
    /// Creates the adapter; it holds the configuration and knows no market yet.
    pub fn new(config: ExchangeConfig) -> (r: Result<Luno, CcxtError>)
        ensures
            r matches Ok(l) && l.config == config && l.features == spec_luno_features()
                && l.markets_by_id.entries@.len() == 0,
    {
        let features = ExchangeFeatures {
            cors: false,
            spot: true,
            margin: false,
            swap: false,
            future: false,
            option: false,
            fetch_markets: true,
            fetch_currencies: false,
            fetch_ticker: true,
            fetch_tickers: true,
            fetch_order_book: true,
            fetch_trades: true,
            fetch_ohlcv: true,
            fetch_balance: true,
            create_order: true,
            create_limit_order: true,
            create_market_order: true,
            cancel_order: true,
            fetch_order: true,
            fetch_orders: true,
            fetch_open_orders: true,
            fetch_closed_orders: true,
            fetch_my_trades: true,
            ..ExchangeFeatures::none()
        };
        Ok(Luno { config, features, markets_by_id: MarketIndex::new() })
    }

    /// The exchange's identity.
    pub fn id(&self) -> (r: ExchangeId)
        ensures
            r == ExchangeId::Luno,
    {
        ExchangeId::Luno
    }

    /// The exchange's display name.
    pub fn name(&self) -> (r: &'static str)
        ensures
            r@ == "Luno"@,
    {
        "Luno"
    }

    /// The API version.
    pub fn version(&self) -> (r: &'static str)
        ensures
            r@ == "1"@,
    {
        "1"
    }

    /// Countries the exchange serves.
    pub fn countries(&self) -> (r: Vec<&'static str>)
        ensures
            r@.len() == 3,
            r@[0]@ == "GB"@,
            r@[1]@ == "SG"@,
            r@[2]@ == "ZA"@,
    {
        let mut v = Vec::new();
        v.push("GB");
        v.push("SG");
        v.push("ZA");
        v
    }

    /// Minimum spacing of requests, in milliseconds.
    pub fn rate_limit(&self) -> (r: u64)
        ensures
            r == LUNO_RATE_LIMIT_MS,
    {
        LUNO_RATE_LIMIT_MS
    }

    /// Addresses of the exchange: logo, API bases, site, documentation and
    /// fee schedule.
    pub fn urls(&self) -> (r: ExchangeUrls)
        ensures
            opt_view(r.logo) == Some("https://user-images.githubusercontent.com/1294454/27766607-8c1a69d8-5ede-11e7-930c-540b5eb9be24.jpg"@),
            r.api@.len() == 3,
            r.api@[0].0@ == "public"@ && r.api@[0].1@ == "https://api.luno.com/api"@,
            r.api@[1].0@ == "private"@ && r.api@[1].1@ == "https://api.luno.com/api"@,
            r.api@[2].0@ == "exchange"@ && r.api@[2].1@ == "https://api.luno.com/api/exchange"@,
            opt_view(r.www) == Some("https://www.luno.com"@),
            r.doc@.len() == 3,
            r.doc@[0]@ == "https://www.luno.com/en/api"@,
            r.doc@[1]@ == "https://npmjs.org/package/bitx"@,
            r.doc@[2]@ == "https://github.com/bausmeier/node-bitx"@,
            r.fees is None,
    {
        let mut api: Vec<(String, String)> = Vec::new();
        api.push((copy_str("public"), copy_str("https://api.luno.com/api")));
        api.push((copy_str("private"), copy_str("https://api.luno.com/api")));
        api.push((copy_str("exchange"), copy_str("https://api.luno.com/api/exchange")));
        let mut doc: Vec<String> = Vec::new();
        doc.push(copy_str("https://www.luno.com/en/api"));
        doc.push(copy_str("https://npmjs.org/package/bitx"));
        doc.push(copy_str("https://github.com/bausmeier/node-bitx"));
        ExchangeUrls {
            logo: Some(copy_str("https://user-images.githubusercontent.com/1294454/27766607-8c1a69d8-5ede-11e7-930c-540b5eb9be24.jpg")),
            api,
            www: Some(copy_str("https://www.luno.com")),
            doc,
            fees: None,
        }
    }

    /// What the exchange offers.
    pub fn has(&self) -> (r: &ExchangeFeatures)
        ensures
            *r == self.features,
    {
        &self.features
    }

    /// Candle duration in seconds of a timeframe, when Luno offers it.
    pub fn timeframe_seconds(tf: Timeframe) -> (r: Option<i32>)
        ensures
            r == spec_luno_timeframe_seconds(tf),
    {
        match tf {
            Timeframe::Minute1 => Some(60),
            Timeframe::Minute5 => Some(300),
            Timeframe::Minute15 => Some(900),
            Timeframe::Minute30 => Some(1800),
            Timeframe::Hour1 => Some(3600),
            Timeframe::Hour3 => Some(10800),
            Timeframe::Hour4 => Some(14400),
            Timeframe::Day1 => Some(86400),
            Timeframe::Day3 => Some(259200),
            Timeframe::Week1 => Some(604800),
            _ => None,
        }
    }

    /// Converts a unified symbol into a Luno pair: `BTC/ZAR` becomes `BTCZAR`.
    pub fn to_market_id(&self, symbol: &str) -> (r: String)
        ensures
            r@ == remove_all(symbol@, '/'),
    {
        remove_char(symbol, '/')
    }

    /// The market id of a symbol.
    pub fn market_id(&self, symbol: &str) -> (r: Option<String>)
        ensures
            r matches Some(s) && s@ == remove_all(symbol@, '/'),
    {
        Some(self.to_market_id(symbol))
    }

    /// The unified symbol of a market id, when the market is known.
    pub fn symbol(&self, market_id: &str) -> (r: Option<String>)
        ensures
            opt_view(r) == self.markets_by_id.spec_get(market_id@),
    {
        self.markets_by_id.get(market_id)
    }

    /// The unified symbol of a pair, or the pair itself when unknown.
    pub fn symbol_or_pair(&self, pair: &str) -> (r: String)
        ensures
            r@ == (match self.markets_by_id.spec_get(pair@) {
                Some(s) => s,
                None => pair@,
            }),
    {
        match self.markets_by_id.get(pair) {
            Some(s) => s,
            None => copy_str(pair),
        }
    }

    /// Unified ticker of a Luno ticker.
    pub fn parse_ticker(&self, data: &LunoTicker, symbol: &str) -> (r: Ticker)
        ensures
            spec_luno_ticker_ok(*data, symbol@, r),
    {
        let timestamp = data.timestamp;
        Ticker {
            symbol: copy_str(symbol),
            timestamp: Some(timestamp),
            datetime: Some(iso8601_or_empty(timestamp)),
            high: None,
            low: None,
            bid: dec_parse(data.bid.as_str()),
            bid_volume: None,
            ask: dec_parse(data.ask.as_str()),
            ask_volume: None,
            vwap: None,
            open: None,
            close: dec_parse(data.last_trade.as_str()),
            last: dec_parse(data.last_trade.as_str()),
            previous_close: None,
            change: None,
            percentage: None,
            average: None,
            base_volume: dec_parse(data.rolling_24_hour_volume.as_str()),
            quote_volume: None,
            index_price: None,
            mark_price: None,
        }
    }

    /// Unified tickers keyed by symbol: tickers of unknown pairs are
    /// skipped, only requested symbols are kept when a list is given, and a
    /// later ticker of a symbol replaces an earlier one.
    pub fn parse_tickers(&self, tickers: &Vec<LunoTicker>, symbols: Option<&Vec<String>>) -> (r: Vec<(String, Ticker)>)
        ensures
            ({
                let req = match symbols {
                    Some(v) => Some(texts_of(v@)),
                    None => None,
                };
                let kept = luno_ticker_kept(tickers@, self.markets_by_id, req);
                pair_keyed_by_last(
                    kept.map_values(|t: LunoTicker| self.markets_by_id.spec_get(t.pair@)->0),
                    r@,
                    |i: int, x: Ticker| spec_luno_ticker_ok(kept[i], self.markets_by_id.spec_get(kept[i].pair@)->0, x),
                )
            }),
    {
        let ghost req = match symbols {
            Some(v) => Some(texts_of(v@)),
            None => None,
        };
        let ghost idx = self.markets_by_id;
        let ghost kept = luno_ticker_kept(tickers@, idx, req);
        let ghost ok = |i: int, x: Ticker| spec_luno_ticker_ok(kept[i], idx.spec_get(kept[i].pair@)->0, x);
        let mut result: Vec<(String, Ticker)> = Vec::new();
        let n = tickers.len();
        let mut k: usize = 0;
        proof {
            lemma_pair_keyed_empty(ok);
            assert(luno_ticker_kept(tickers@.take(0), idx, req) =~= Seq::<LunoTicker>::empty());
            assert(luno_ticker_kept(tickers@.take(0), idx, req).map_values(|t: LunoTicker| idx.spec_get(t.pair@)->0) =~= Seq::<Seq<char>>::empty());
            assert(result@ =~= Seq::<(String, Ticker)>::empty());
        }
        while k < n
            invariant
                n == tickers@.len(),
                k <= n,
                idx == self.markets_by_id,
                req == (match symbols {
                    Some(v) => Some(texts_of(v@)),
                    None => None,
                }),
                kept == luno_ticker_kept(tickers@, idx, req),
                ok == (|i: int, x: Ticker| spec_luno_ticker_ok(kept[i], idx.spec_get(kept[i].pair@)->0, x)),
                forall|j: int|
                    0 <= j < luno_ticker_kept(tickers@.take(k as int), idx, req).len() ==> #[trigger] luno_ticker_kept(
                        tickers@.take(k as int),
                        idx,
                        req,
                    )[j] == kept[j],
                luno_ticker_kept(tickers@.take(k as int), idx, req).len() <= kept.len(),
                pair_keyed_by_last(
                    luno_ticker_kept(tickers@.take(k as int), idx, req).map_values(
                        |t: LunoTicker| idx.spec_get(t.pair@)->0,
                    ),
                    result@,
                    ok,
                ),
            decreases n - k,
        {
            let ghost pre = luno_ticker_kept(tickers@.take(k as int), idx, req);
            proof {
                assert(tickers@.take(k + 1).drop_last() =~= tickers@.take(k as int));
                assert(tickers@.take(k + 1).last() == tickers@[k as int]);
                reveal_with_fuel(Seq::<_>::filter, 1);
                lemma_luno_kept_prefix(tickers@, idx, req, k + 1);
            }
            match self.symbol(tickers[k].pair.as_str()) {
                Some(sym) => {
                    let keep = match symbols {
                        Some(v) => contains_text(v, sym.as_str()),
                        None => true,
                    };
                    if keep {
                        let t = self.parse_ticker(&tickers[k], sym.as_str());
                        let ghost before = result@;
                        let ghost key = sym@;
                        keyed_insert(&mut result, sym, t);
                        proof {
                            let codes = pre.map_values(|x: LunoTicker| idx.spec_get(x.pair@)->0);
                            assert(luno_ticker_kept(tickers@.take(k + 1), idx, req) =~= pre.push(tickers@[k as int]));
                            assert(luno_ticker_kept(tickers@.take(k + 1), idx, req)[pre.len() as int] == tickers@[k as int]);
                            assert(kept[pre.len() as int] == tickers@[k as int]);
                            assert(ok(codes.len() as int, t));
                            lemma_pair_keyed_step(codes, before, result@, key, t, ok);
                            assert(codes.push(key) =~= luno_ticker_kept(tickers@.take(k + 1), idx, req).map_values(
                                |x: LunoTicker| idx.spec_get(x.pair@)->0,
                            ));
                        }
                    } else {
                        proof {
                            assert(luno_ticker_kept(tickers@.take(k + 1), idx, req) =~= pre);
                        }
                    }
                },
                None => {
                    proof {
                        assert(luno_ticker_kept(tickers@.take(k + 1), idx, req) =~= pre);
                    }
                },
            }
            k = k + 1;
        }
        proof {
            assert(tickers@.take(n as int) =~= tickers@);
        }
        result
    }

    /// Order status of a Luno state.
    pub fn parse_status(state: &str) -> (r: OrderStatus)
        ensures
            r == spec_luno_status(state@),
    {
        if str_eq(state, "PENDING") {
            OrderStatus::Open
        } else if str_eq(state, "COMPLETE") {
            OrderStatus::Closed
        } else {
            OrderStatus::Open
        }
    }

    /// Order side of a Luno order type.
    pub fn parse_side(t: &str) -> (r: OrderSide)
        ensures
            r == spec_luno_side(t@),
    {
        if str_eq(t, "ASK") || str_eq(t, "SELL") {
            OrderSide::Sell
        } else {
            OrderSide::Buy
        }
    }

    /// Unified order of a Luno order.
    pub fn parse_order(&self, data: &LunoOrder, symbol: &str) -> (r: Order)
        ensures
            spec_luno_order_ok(*data, symbol@, r),
    {
        let status = Self::parse_status(data.state.as_str());
        let side = Self::parse_side(data.order_type.as_str());
        let price = parse_opt(&data.limit_price);
        let amount = match parse_opt(&data.limit_volume) {
            Some(d) => d,
            None => Dec::zero(),
        };
        let filled = match parse_opt(&data.base) {
            Some(d) => d,
            None => Dec::zero(),
        };
        let remaining = dec_sub(amount, filled);
        let cost = parse_opt(&data.counter);
        let fee_src = if data.fee_counter.is_some() {
            &data.fee_counter
        } else {
            &data.fee_base
        };
        let fee = match fee_src {
            Some(s) => match dec_parse(s.as_str()) {
                Some(c) => Some(Fee { cost: Some(c), currency: None, rate: None }),
                None => None,
            },
            None => None,
        };
        Order {
            id: copy_str(data.order_id.as_str()),
            client_order_id: None,
            timestamp: Some(data.creation_timestamp),
            datetime: Some(iso8601_or_empty(data.creation_timestamp)),
            last_trade_timestamp: data.completed_timestamp,
            last_update_timestamp: data.completed_timestamp,
            status,
            symbol: copy_str(symbol),
            order_type: OrderType::Limit,
            time_in_force: None,
            side,
            price,
            average: None,
            amount,
            filled,
            remaining,
            stop_price: None,
            trigger_price: None,
            take_profit_price: None,
            stop_loss_price: None,
            trades: Vec::new(),
            cost,
            fee,
            reduce_only: None,
            post_only: None,
        }
    }

    /// The holdings of one Luno asset.
    pub fn parse_balance_entry(b: &LunoBalance) -> (r: Balance)
        ensures
            spec_luno_balance_ok(*b, r),
    {
        let balance_val = parse_or_zero(b.balance.as_str());
        let reserved_val = parse_or_zero(b.reserved.as_str());
        let unconfirmed_val = parse_or_zero(b.unconfirmed.as_str());
        let used = dec_add(reserved_val, unconfirmed_val);
        let total = dec_add(balance_val, unconfirmed_val);
        let free = match (total, used) {
            (Some(t), Some(u)) => dec_sub(t, u),
            _ => None,
        };
        Balance { free, used, total }
    }

    /// Unified balances of Luno assets; a later entry of an asset replaces an
    /// earlier one.
    pub fn parse_balance(&self, balances: &Vec<LunoBalance>) -> (r: Balances)
        ensures
            keyed_by_last(
                balances@.map_values(|b: LunoBalance| b.asset@),
                r.currencies@,
                |i: int, bal: Balance| spec_luno_balance_ok(balances@[i], bal),
            ),
            r.timestamp is None,
            r.datetime is None,
    {
        let ghost ok = |i: int, bal: Balance| spec_luno_balance_ok(balances@[i], bal);
        let mut result = Balances::new();
        let n = balances.len();
        let mut k: usize = 0;
        proof {
            lemma_keyed_empty(ok);
            assert(balances@.map_values(|b: LunoBalance| b.asset@).take(0) =~= Seq::<Seq<char>>::empty());
            assert(result.currencies@ =~= Seq::<(String, Balance)>::empty());
        }
        while k < n
            invariant
                n == balances@.len(),
                k <= n,
                result.timestamp is None,
                result.datetime is None,
                ok == (|i: int, bal: Balance| spec_luno_balance_ok(balances@[i], bal)),
                keyed_by_last(
                    balances@.map_values(|b: LunoBalance| b.asset@).take(k as int),
                    result.currencies@,
                    ok,
                ),
            decreases n - k,
        {
            let bal = Self::parse_balance_entry(&balances[k]);
            let ghost before = result.currencies@;
            let code = copy_str(balances[k].asset.as_str());
            result.add(code, bal);
            proof {
                let codes = balances@.map_values(|b: LunoBalance| b.asset@);
                assert(codes.take(k as int).len() == k);
                lemma_keyed_step(codes.take(k as int), before, result.currencies@, codes[k as int], bal, ok);
                assert(codes.take(k as int).push(codes[k as int]) =~= codes.take(k + 1));
            }
            k = k + 1;
        }
        proof {
            let codes = balances@.map_values(|b: LunoBalance| b.asset@);
            assert(codes.take(n as int) =~= codes);
        }
        result
    }

    /// Unified trade of a Luno trade.
    pub fn parse_trade(&self, data: &LunoTrade, symbol: &str) -> (r: Trade)
        ensures
            spec_luno_trade_ok(*data, symbol@, r),
    {
        let private_side: Option<OrderSide> = match &data.order_type {
            Some(t) => {
                if str_eq(t.as_str(), "ASK") || str_eq(t.as_str(), "SELL") {
                    Some(OrderSide::Sell)
                } else if str_eq(t.as_str(), "BID") || str_eq(t.as_str(), "BUY") {
                    Some(OrderSide::Buy)
                } else {
                    None
                }
            },
            None => None,
        };
        let side: Option<String> = match &data.order_type {
            Some(_) => match private_side {
                Some(OrderSide::Buy) => Some(copy_str("buy")),
                Some(OrderSide::Sell) => Some(copy_str("sell")),
                None => None,
            },
            None => match data.is_buy {
                Some(true) => Some(copy_str("buy")),
                Some(false) => Some(copy_str("sell")),
                None => None,
            },
        };
        let taker_or_maker = match &data.order_type {
            Some(_) => match data.is_buy {
                Some(b) => {
                    let maker = match private_side {
                        Some(OrderSide::Sell) => b,
                        Some(OrderSide::Buy) => !b,
                        None => false,
                    };
                    if maker {
                        Some(TakerOrMaker::Maker)
                    } else {
                        Some(TakerOrMaker::Taker)
                    }
                },
                None => None,
            },
            None => None,
        };
        let price = parse_or_zero(data.price.as_str());
        let amount = match parse_opt(&data.volume) {
            Some(v) => v,
            None => match parse_opt(&data.base) {
                Some(b) => b,
                None => Dec::zero(),
            },
        };
        let fee_src = if data.fee_base.is_some() {
            &data.fee_base
        } else {
            &data.fee_counter
        };
        let fee = match fee_src {
            Some(t) => match dec_parse(t.as_str()) {
                Some(c) => if c.is_positive() {
                    Some(Fee { cost: Some(c), currency: None, rate: None })
                } else {
                    None
                },
                None => None,
            },
            None => None,
        };
        let id = match data.sequence {
            Some(n) => int_to_string(n as i128),
            None => String::new(),
        };
        Trade {
            id,
            order: copy_opt(&data.order_id),
            timestamp: Some(data.timestamp),
            datetime: Some(iso8601_or_empty(data.timestamp)),
            symbol: copy_str(symbol),
            trade_type: None,
            side,
            taker_or_maker,
            price,
            amount,
            cost: parse_opt(&data.counter),
            fee,
        }
    }

    /// Unified market of an active Luno market description.
    pub fn parse_market(info: &LunoMarketInfo) -> (r: Market)
        ensures
            spec_luno_market_ok(*info, r),
    {
        let mut limits = MarketLimits::none();
        limits.amount = MinMax {
            min: dec_parse(info.min_volume.as_str()),
            max: dec_parse(info.max_volume.as_str()),
        };
        limits.price = MinMax {
            min: dec_parse(info.min_price.as_str()),
            max: dec_parse(info.max_price.as_str()),
        };
        Market {
            id: copy_str(info.market_id.as_str()),
            lowercase_id: Some(crate::text::to_lowercase(info.market_id.as_str())),
            symbol: concat3(info.base_currency.as_str(), "/", info.counter_currency.as_str()),
            base: copy_str(info.base_currency.as_str()),
            quote: copy_str(info.counter_currency.as_str()),
            base_id: copy_str(info.base_currency.as_str()),
            quote_id: copy_str(info.counter_currency.as_str()),
            settle: None,
            active: str_eq(info.trading_status.as_str(), "ACTIVE"),
            market_type: MarketType::Spot,
            spot: true,
            margin: false,
            swap: false,
            future: false,
            contract: false,
            linear: None,
            inverse: None,
            contract_size: None,
            created: None,
            taker: Some(Dec::new(1, 3)),
            maker: Some(Dec::zero()),
            precision: MarketPrecision {
                amount: Some(info.volume_scale),
                price: Some(info.price_scale),
                cost: None,
                base: Some(info.volume_scale),
                quote: Some(info.price_scale),
            },
            limits,
        }
    }

    /// Unified markets of the markets that Luno reports as active, in order.
    pub fn parse_markets(infos: &Vec<LunoMarketInfo>) -> (r: Vec<Market>)
        ensures
            r@.len() == infos@.filter(|i: LunoMarketInfo| i.trading_status@ == "ACTIVE"@).len(),
            forall|k: int|
                0 <= k < r@.len() ==> spec_luno_market_ok(
                    infos@.filter(|i: LunoMarketInfo| i.trading_status@ == "ACTIVE"@)[k],
                    #[trigger] r@[k],
                ),
    {
        let n = infos.len();
        let mut out: Vec<Market> = Vec::new();
        let mut i: usize = 0;
        while i < n
            invariant
                n == infos@.len(),
                i <= n,
                out@.len() == infos@.take(i as int).filter(
                    |x: LunoMarketInfo| x.trading_status@ == "ACTIVE"@,
                ).len(),
                forall|k: int|
                    0 <= k < out@.len() ==> spec_luno_market_ok(
                        infos@.take(i as int).filter(|x: LunoMarketInfo| x.trading_status@ == "ACTIVE"@)[k],
                        #[trigger] out@[k],
                    ),
            decreases n - i,
        {
            proof {
                assert(infos@.take(i + 1).drop_last() =~= infos@.take(i as int));
                reveal_with_fuel(Seq::<_>::filter, 1);
            }
            if str_eq(infos[i].trading_status.as_str(), "ACTIVE") {
                let m = Self::parse_market(&infos[i]);
                out.push(m);
            }
            i = i + 1;
        }
        assert(infos@.take(n as int) =~= infos@);
        out
    }

    /// Records the markets by id and reports whether any is known.
    pub fn store_markets(&mut self, markets: &Vec<Market>)
        ensures
            final(self).markets_by_id.entries@.len() == markets@.len(),
            forall|k: int|
                0 <= k < markets@.len() ==> (#[trigger] final(self).markets_by_id.entries@[k]).0@
                    == markets@[k].id@ && final(self).markets_by_id.entries@[k].1@
                    == markets@[k].symbol@,
            final(self).config == old(self).config,
            final(self).features == old(self).features,
    {
        let mut entries: Vec<(String, String)> = Vec::new();
        let n = markets.len();
        let mut i: usize = 0;
        while i < n
            invariant
                n == markets@.len(),
                i <= n,
                entries@.len() == i,
                forall|k: int|
                    0 <= k < i ==> (#[trigger] entries@[k]).0@ == markets@[k].id@ && entries@[k].1@
                        == markets@[k].symbol@,
            decreases n - i,
        {
            entries.push(
                (copy_str(markets[i].id.as_str()), copy_str(markets[i].symbol.as_str())),
            );
            i = i + 1;
        }
        self.markets_by_id = MarketIndex { entries };
    }

    /// Whether markets must be fetched: on request, or when none is known.
    pub fn needs_market_fetch(&self, reload: bool) -> (r: bool)
        ensures
            r == (reload || self.markets_by_id.entries@.len() == 0),
    {
        reload || self.markets_by_id.is_empty()
    }

    /// Unified order-book level of a Luno level; unreadable numbers count as zero.
    pub fn parse_level(l: &LunoOrderBookLevel) -> (r: OrderBookEntry)
        ensures
            r.price.parts() == text_dec_or_zero(l.price@),
            r.amount.parts() == text_dec_or_zero(l.volume@),
    {
        OrderBookEntry {
            price: parse_or_zero(l.price.as_str()),
            amount: parse_or_zero(l.volume.as_str()),
        }
    }

    /// Unified levels of Luno levels, in order.
    pub fn parse_levels(ls: &Vec<LunoOrderBookLevel>) -> (r: Vec<OrderBookEntry>)
        ensures
            r@.len() == ls@.len(),
            forall|k: int|
                0 <= k < r@.len() ==> (#[trigger] r@[k]).price.parts() == text_dec_or_zero(ls@[k].price@)
                    && r@[k].amount.parts() == text_dec_or_zero(ls@[k].volume@),
    {
        let mut out: Vec<OrderBookEntry> = Vec::new();
        let n = ls.len();
        let mut i: usize = 0;
        while i < n
            invariant
                n == ls@.len(),
                i <= n,
                out@.len() == i,
                forall|k: int|
                    0 <= k < i ==> (#[trigger] out@[k]).price.parts() == text_dec_or_zero(ls@[k].price@)
                        && out@[k].amount.parts() == text_dec_or_zero(ls@[k].volume@),
            decreases n - i,
        {
            out.push(Self::parse_level(&ls[i]));
            i = i + 1;
        }
        out
    }

    /// The order-book endpoint: the top of the book for limits up to 100.
    pub fn order_book_path(limit: Option<u32>) -> (r: &'static str)
        ensures
            r@ == (if limit matches Some(l) && l <= 100 {
                "/1/orderbook_top"@
            } else {
                "/1/orderbook"@
            }),
    {
        match limit {
            Some(l) => if l <= 100 {
                "/1/orderbook_top"
            } else {
                "/1/orderbook"
            },
            None => "/1/orderbook",
        }
    }

    /// Unified order book of a Luno order book.
    pub fn parse_order_book(&self, data: &LunoOrderBook, symbol: &str) -> (r: OrderBook)
        ensures
            r.symbol@ == symbol@,
            r.timestamp == Some(data.timestamp),
            opt_view(r.datetime) == Some(iso8601_or_empty_spec(data.timestamp as int)),
            r.nonce is None,
            r.bids@.len() == data.bids@.len(),
            r.asks@.len() == data.asks@.len(),
            forall|k: int|
                0 <= k < r.bids@.len() ==> (#[trigger] r.bids@[k]).price.parts() == text_dec_or_zero(
                    data.bids@[k].price@,
                ) && r.bids@[k].amount.parts() == text_dec_or_zero(data.bids@[k].volume@),
            forall|k: int|
                0 <= k < r.asks@.len() ==> (#[trigger] r.asks@[k]).price.parts() == text_dec_or_zero(
                    data.asks@[k].price@,
                ) && r.asks@[k].amount.parts() == text_dec_or_zero(data.asks@[k].volume@),
    {
        OrderBook {
            symbol: copy_str(symbol),
            timestamp: Some(data.timestamp),
            datetime: Some(iso8601_or_empty(data.timestamp)),
            nonce: None,
            bids: Self::parse_levels(&data.bids),
            asks: Self::parse_levels(&data.asks),
        }
    }

    /// Unified candle of a Luno candle; unreadable numbers count as zero.
    pub fn parse_candle(c: &LunoCandle) -> (r: OHLCV)
        ensures
            r.timestamp == c.timestamp,
            r.open.parts() == text_dec_or_zero(c.open@),
            r.high.parts() == text_dec_or_zero(c.high@),
            r.low.parts() == text_dec_or_zero(c.low@),
            r.close.parts() == text_dec_or_zero(c.close@),
            r.volume.parts() == text_dec_or_zero(c.volume@),
    {
        OHLCV {
            timestamp: c.timestamp,
            open: parse_or_zero(c.open.as_str()),
            high: parse_or_zero(c.high.as_str()),
            low: parse_or_zero(c.low.as_str()),
            close: parse_or_zero(c.close.as_str()),
            volume: parse_or_zero(c.volume.as_str()),
        }
    }

    /// Parameters of a candle request: the pair, the duration in seconds, and
    /// the start, which defaults to one candle before `now`.
    pub fn ohlcv_params(&self, symbol: &str, timeframe: Timeframe, since: Option<i64>, now: i64) -> (r:
        Result<Vec<(String, String)>, CcxtError>)
        requires
            now >= i64::MIN + 604_800_000,
        ensures
            spec_luno_timeframe_seconds(timeframe) is None <==> r matches Err(CcxtError::BadRequest { .. }),
            r is Err ==> spec_luno_timeframe_seconds(timeframe) is None,
            r matches Err(CcxtError::BadRequest { message }) ==> message@ == "Unsupported timeframe: "@ + spec_timeframe_name(timeframe),
            r matches Ok(p) ==> p@.len() == 3 && p@[0].0@ == "pair"@ && p@[0].1@ == remove_all(
                symbol@,
                '/',
            ) && p@[1].0@ == "duration"@ && p@[1].1@ == spec_int_to_string(
                spec_luno_timeframe_seconds(timeframe)->0 as int,
            ) && p@[2].0@ == "since"@ && p@[2].1@ == spec_int_to_string(
                match since {
                    Some(s) => s as int,
                    None => now - spec_luno_timeframe_seconds(timeframe)->0 * 1000,
                },
            ),
    {
        let duration = match Self::timeframe_seconds(timeframe) {
            Some(d) => d,
            None => {
                return Err(
                    CcxtError::BadRequest { message: concat2("Unsupported timeframe: ", timeframe.name()) },
                );
            },
        };
        let mut params = param1("pair", self.to_market_id(symbol));
        push_param(&mut params, "duration", int_to_string(duration as i128));
        let since_val: i64 = match since {
            Some(s) => s,
            None => now - (duration as i64) * 1000,
        };
        push_param(&mut params, "since", int_to_string(since_val as i128));
        Ok(params)
    }

    /// Path and parameters of an order request. A market order names its
    /// side as `BUY`/`SELL` and spends quote (buy) or base (sell) volume; a
    /// limit order names its side as `BID`/`ASK` and needs a price.
    pub fn create_order_request(
        &self,
        symbol: &str,
        order_type: OrderType,
        side: OrderSide,
        amount: Dec,
        price: Option<Dec>,
    ) -> (r: Result<(String, Vec<(String, String)>), CcxtError>)
        ensures
            r is Err <==> (order_type != OrderType::Market && price is None),
            r is Err ==> r matches Err(CcxtError::ArgumentsRequired { .. }),
            r matches Ok((path, p)) ==> p@[0].0@ == "pair"@ && p@[0].1@
                == remove_all(symbol@, '/') && (if order_type == OrderType::Market {
                p@.len() == 3 && path@ == "/1/marketorder"@ && p@[1].0@ == "type"@ && p@[1].1@ == (if side
                    == OrderSide::Buy {
                    "BUY"@
                } else {
                    "SELL"@
                }) && p@[2].0@ == (if side == OrderSide::Buy {
                    "counter_volume"@
                } else {
                    "base_volume"@
                }) && (amount.wf() ==> p@[2].1@ == crate::dec::spec_dec_to_string(amount.parts()))
            } else {
                p@.len() == 4 && path@ == "/1/postorder"@ && p@[1].0@ == "volume"@ && (amount.wf()
                    ==> p@[1].1@ == crate::dec::spec_dec_to_string(amount.parts())) && p@[2].0@
                    == "price"@ && (price->0.wf() ==> p@[2].1@ == crate::dec::spec_dec_to_string(
                    price->0.parts(),
                )) && p@[3].0@ == "type"@ && p@[3].1@ == (if side == OrderSide::Buy {
                    "BID"@
                } else {
                    "ASK"@
                })
            }),
    {
        let mut params = param1("pair", self.to_market_id(symbol));
        if order_type == OrderType::Market {
            let t = match side {
                OrderSide::Buy => "BUY",
                OrderSide::Sell => "SELL",
            };
            push_param(&mut params, "type", copy_str(t));
            match side {
                OrderSide::Buy => push_param(&mut params, "counter_volume", amount.to_text()),
                OrderSide::Sell => push_param(&mut params, "base_volume", amount.to_text()),
            }
            Ok((copy_str("/1/marketorder"), params))
        } else {
            let p = match price {
                Some(p) => p,
                None => {
                    return Err(
                        CcxtError::ArgumentsRequired {
                            message: copy_str("Limit order requires price"),
                        },
                    );
                },
            };
            push_param(&mut params, "volume", amount.to_text());
            push_param(&mut params, "price", p.to_text());
            let t = match side {
                OrderSide::Buy => "BID",
                OrderSide::Sell => "ASK",
            };
            push_param(&mut params, "type", copy_str(t));
            Ok((copy_str("/1/postorder"), params))
        }
    }

    /// The `Authorization` header value: `Basic` and the base64 of `key:secret`.
    pub fn basic_auth(key: &str, secret: &str) -> (r: String)
        ensures
            r@ == "Basic "@ + spec_base64_encode(
                vstd::utf8::encode_utf8(key@ + ":"@ + secret@),
            ),
    {
        let creds = concat3(key, ":", secret);
        let enc = base64_encode(creds.as_str().as_bytes());
        concat2("Basic ", enc.as_str())
    }

    /// A request to `LUNO_BASE_URL` + `path` with the parameters as query;
    /// private requests carry Basic authentication from the configured key
    /// and secret (empty when absent).
    pub fn sign(&self, path: &str, api: &str, method: &str, params: &Vec<(String, String)>) -> (r:
        SignedRequest)
        ensures
            r.url@ == (if params@.len() == 0 {
                LUNO_BASE_URL@ + path@
            } else {
                LUNO_BASE_URL@ + path@ + "?"@ + query_spec(params@, true)
            }),
            r.method@ == method@,
            r.body is None,
            api@ == "private"@ ==> r.headers@.len() == 1 && r.headers@[0].0@ == "Authorization"@
                && r.headers@[0].1@ == "Basic "@ + spec_base64_encode(
                vstd::utf8::encode_utf8(
                    (match self.config.api_key {
                        Some(k) => k@,
                        None => Seq::<char>::empty(),
                    }) + ":"@ + (match self.config.secret {
                        Some(s) => s@,
                        None => Seq::<char>::empty(),
                    }),
                ),
            ),
            api@ != "private"@ ==> r.headers@.len() == 0,
    {
        let mut url = concat2(LUNO_BASE_URL, path);
        let mut headers: Vec<(String, String)> = Vec::new();
        if str_eq(api, "private") {
            let key = match self.config.api_key() {
                Some(k) => copy_str(k),
                None => String::new(),
            };
            let secret = match self.config.secret() {
                Some(s) => copy_str(s),
                None => String::new(),
            };
            headers.push(
                (copy_str("Authorization"), Self::basic_auth(key.as_str(), secret.as_str())),
            );
        }
        if params.len() > 0 {
            let q = build_query(params, true);
            url = concat3(url.as_str(), "?", q.as_str());
        }
        SignedRequest { url, method: copy_str(method), headers, body: None }
    }

    /// A private request to `LUNO_BASE_URL` + `path`, with Basic
    /// authentication from the configured key and secret (both required): a
    /// `GET` carries the parameters as query, a `POST` as a form body; other
    /// methods are refused.
    pub fn private_request(&self, method: &str, path: &str, params: &Vec<(String, String)>) -> (r: Result<
        SignedRequest,
        CcxtError,
    >)
        ensures
            self.config.api_key is None ==> r matches Err(CcxtError::AuthenticationError { .. }),
            self.config.api_key is Some && self.config.secret is None ==> r matches Err(
                CcxtError::AuthenticationError { .. },
            ),
            self.config.api_key is Some && self.config.secret is Some && method@ != "GET"@ && method@
                != "POST"@ ==> r matches Err(CcxtError::NotSupported { .. }),
            r matches Ok(q) ==> {
                &&& self.config.api_key matches Some(k)
                &&& self.config.secret matches Some(s)
                &&& q.method@ == method@
                &&& q.headers@.len() >= 1
                &&& q.headers@[0].0@ == "Authorization"@
                &&& q.headers@[0].1@ == "Basic "@ + spec_base64_encode(vstd::utf8::encode_utf8(k@ + ":"@ + s@))
                &&& if method@ == "GET"@ {
                    &&& q.headers@.len() == 1
                    &&& q.body is None
                    &&& q.url@ == (if params@.len() == 0 {
                        LUNO_BASE_URL@ + path@
                    } else {
                        LUNO_BASE_URL@ + path@ + "?"@ + query_spec(params@, true)
                    })
                } else {
                    &&& method@ == "POST"@
                    &&& q.headers@.len() == 2
                    &&& q.headers@[1].0@ == "Content-Type"@
                    &&& q.headers@[1].1@ == "application/x-www-form-urlencoded"@
                    &&& q.url@ == LUNO_BASE_URL@ + path@
                    &&& q.body matches Some(b) && b@ == query_spec(params@, true)
                }
            },
    {
        let key = match self.config.api_key() {
            Some(k) => k,
            None => {
                return Err(CcxtError::AuthenticationError { message: copy_str("API key required") });
            },
        };
        let secret = match self.config.secret() {
            Some(s) => s,
            None => {
                return Err(CcxtError::AuthenticationError { message: copy_str("Secret required") });
            },
        };
        let mut headers: Vec<(String, String)> = Vec::new();
        headers.push((copy_str("Authorization"), Self::basic_auth(key, secret)));
        if str_eq(method, "GET") {
            let url = if params.len() == 0 {
                concat2(LUNO_BASE_URL, path)
            } else {
                let q = build_query(params, true);
                let mut u = concat3(LUNO_BASE_URL, path, "?");
                crate::text::push_str(&mut u, q.as_str());
                u
            };
            Ok(SignedRequest { url, method: copy_str(method), headers, body: None })
        } else if str_eq(method, "POST") {
            headers.push((copy_str("Content-Type"), copy_str("application/x-www-form-urlencoded")));
            let body = build_query(params, true);
            Ok(SignedRequest { url: concat2(LUNO_BASE_URL, path), method: copy_str(method), headers, body: Some(body) })
        } else {
            Err(CcxtError::NotSupported { feature: concat2("HTTP method: ", method) })
        }
    }

    /// Unified orders of a listing, each under its pair's symbol (the pair
    /// itself when unknown); only completed ones when `completed_only`.
    pub fn parse_orders(&self, orders: &Vec<LunoOrder>, completed_only: bool) -> (r: Vec<Order>)
        ensures
            ({
                let kept = if completed_only {
                    orders@.filter(|o: LunoOrder| o.state@ == "COMPLETE"@)
                } else {
                    orders@
                };
                &&& r@.len() == kept.len()
                &&& forall|k: int| 0 <= k < r@.len() ==> spec_luno_order_ok(kept[k], match self.markets_by_id.spec_get(kept[k].pair@) {
                    Some(s) => s,
                    None => kept[k].pair@,
                }, #[trigger] r@[k])
            }),
    {
        let ghost pred = |o: LunoOrder| o.state@ == "COMPLETE"@;
        let ghost kept_all = if completed_only { orders@.filter(pred) } else { orders@ };
        let mut out: Vec<Order> = Vec::new();
        let n = orders.len();
        let mut i: usize = 0;
        while i < n
            invariant
                n == orders@.len(),
                i <= n,
                pred == (|o: LunoOrder| o.state@ == "COMPLETE"@),
                ({
                    let kept = if completed_only { orders@.take(i as int).filter(pred) } else { orders@.take(i as int) };
                    &&& out@.len() == kept.len()
                    &&& forall|k: int| 0 <= k < out@.len() ==> spec_luno_order_ok(kept[k], match self.markets_by_id.spec_get(kept[k].pair@) {
                        Some(s) => s,
                        None => kept[k].pair@,
                    }, #[trigger] out@[k])
                }),
            decreases n - i,
        {
            proof {
                assert(orders@.take(i + 1).drop_last() =~= orders@.take(i as int));
                assert(orders@.take(i + 1).last() == orders@[i as int]);
                reveal_with_fuel(Seq::<_>::filter, 1);
            }
            let keep = !completed_only || str_eq(orders[i].state.as_str(), "COMPLETE");
            if keep {
                let sym = self.symbol_or_pair(orders[i].pair.as_str());
                let o = self.parse_order(&orders[i], sym.as_str());
                out.push(o);
            }
            i = i + 1;
        }
        assert(orders@.take(n as int) =~= orders@);
        out
    }

    /// The order a cancellation answers with: only its id is known (open,
    /// limit, buy, nothing filled).
    pub fn cancelled_order(id: &str) -> (r: Order)
        ensures
            r.no_extras(),
            r.id@ == id@ && r.symbol@ == Seq::<char>::empty(),
            r.status == OrderStatus::Open && r.order_type == OrderType::Limit && r.side == OrderSide::Buy,
            r.amount == (Dec { mantissa: 0, scale: 0 }) && r.filled == (Dec { mantissa: 0, scale: 0 }),
            r.timestamp is None && r.datetime is None && r.price is None && r.remaining is None,
            r.cost is None && r.fee is None && r.client_order_id is None,
    {
        Order {
            id: copy_str(id),
            client_order_id: None,
            timestamp: None,
            datetime: None,
            last_trade_timestamp: None,
            last_update_timestamp: None,
            status: OrderStatus::Open,
            symbol: String::new(),
            order_type: OrderType::Limit,
            time_in_force: None,
            side: OrderSide::Buy,
            price: None,
            average: None,
            amount: Dec::zero(),
            filled: Dec::zero(),
            remaining: None,
            stop_price: None,
            trigger_price: None,
            take_profit_price: None,
            stop_loss_price: None,
            trades: Vec::new(),
            cost: None,
            fee: None,
            reduce_only: None,
            post_only: None,
        }
    }
}

} // verus!
