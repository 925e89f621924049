//! NovaDAX: Brazilian spot exchange.

use crate::common::{
    spec_change_pct, build_query, keyed_insert, lemma_pair_keyed_empty, lemma_pair_keyed_step,
    opt_view, pair_keyed_by_last, texts_of, query_spec, sort_by_key, keys_sorted, MarketIndex,
};
use crate::crypto::{hex_encode, hmac_sha256, md5_digest, spec_hex_lower, spec_hmac_sha256, spec_md5};
use crate::dec::{
    checked_op, dec_mul, dec_sub, opt_parts, opt_text_dec, opt_text_dec_or_zero, parse_opt,
    parse_opt_or_zero, spec_dec_mul, spec_dec_sub, spec_dec_to_string, Dec,
};
use crate::text::{
    concat2, concat3, copy_str, int_to_string, push_str, spec_int_to_string, spec_to_lowercase,
    split_char, split_spec, str_eq, to_lowercase,
};
use crate::time::{iso8601_or_empty, iso8601_or_empty_spec};
use crate::types::{
    ExchangeUrls,
    keyed_by_last, lemma_keyed_empty, lemma_keyed_step, Balance, Balances, CcxtError,
    ExchangeConfig, ExchangeFeatures, ExchangeId, Fee, Market, MarketLimits, MarketPrecision,
    MarketType, MinMax, OHLCV, Order, OrderBook, OrderBookEntry, OrderSide, OrderStatus,
    OrderType, SignedRequest, TakerOrMaker, Ticker, Timeframe, Trade, spec_timeframe_millis, spec_order_type_name,
};
use vstd::prelude::*;
use vstd::utf8::encode_utf8;

verus! {

/// API address.
pub const NOVADAX_API_URL: &'static str = "https://api.novadax.com";

/// Minimum spacing of requests, in milliseconds.
pub const NOVADAX_RATE_LIMIT_MS: u64 = 10;

/// Market as the exchange sends it.
#[derive(Clone, Debug, PartialEq)]
pub struct NovadaxMarket {
    pub symbol: String,
    pub base_currency: String,
    pub quote_currency: String,
    pub amount_precision: Option<i32>,
    pub price_precision: Option<i32>,
    pub min_order_amount: Option<String>,
    pub min_order_value: Option<String>,
    pub status: Option<String>,
}

/// Ticker as the exchange sends it.
#[derive(Clone, Debug, PartialEq)]
pub struct NovadaxTicker {
    pub symbol: String,
    pub last_price: Option<String>,
    pub bid: Option<String>,
    pub ask: Option<String>,
    pub high_24h: Option<String>,
    pub low_24h: Option<String>,
    pub open_24h: Option<String>,
    pub base_volume_24h: Option<String>,
    pub quote_volume_24h: Option<String>,
    pub timestamp: Option<i64>,
}

/// Public trade as the exchange sends it.
#[derive(Clone, Debug, PartialEq)]
pub struct NovadaxTrade {
    pub amount: Option<String>,
    pub price: Option<String>,
    pub side: Option<String>,
    pub timestamp: Option<i64>,
}

/// Holdings of one currency as the exchange sends them.
#[derive(Clone, Debug, PartialEq)]
pub struct NovadaxBalance {
    pub currency: String,
    pub available: Option<String>,
    pub balance: Option<String>,
    pub hold: Option<String>,
}

/// Order as the exchange sends it.
#[derive(Clone, Debug, PartialEq)]
pub struct NovadaxOrder {
    pub id: Option<String>,
    pub symbol: Option<String>,
    pub order_type: Option<String>,
    pub side: Option<String>,
    pub price: Option<String>,
    pub average_price: Option<String>,
    pub amount: Option<String>,
    pub filled_amount: Option<String>,
    pub value: Option<String>,
    pub filled_value: Option<String>,
    pub filled_fee: Option<String>,
    pub status: Option<String>,
    pub timestamp: Option<i64>,
    pub stop_price: Option<String>,
}

/// Fill of one of the account's orders as the exchange sends it.
#[derive(Clone, Debug, PartialEq)]
pub struct NovadaxFill {
    pub id: Option<String>,
    pub order_id: Option<String>,
    pub symbol: Option<String>,
    pub side: Option<String>,
    pub amount: Option<String>,
    pub price: Option<String>,
    pub fee: Option<String>,
    pub fee_amount: Option<String>,
    pub fee_currency: Option<String>,
    pub role: Option<String>,
    pub timestamp: Option<i64>,
}

/// Candle as the exchange sends it, its prices already read as decimals;
/// `score` is the time in seconds.
#[derive(Clone, Debug, PartialEq)]
pub struct NovadaxKline {
    pub open_price: Option<Dec>,
    pub high_price: Option<Dec>,
    pub low_price: Option<Dec>,
    pub close_price: Option<Dec>,
    pub amount: Option<Dec>,
    pub vol: Option<Dec>,
    pub score: Option<i64>,
}

/// The NovaDAX adapter.
pub struct Novadax {
    pub config: ExchangeConfig,
    pub features: ExchangeFeatures,
    pub markets_by_symbol: MarketIndex,
    pub markets_by_id: MarketIndex,
    /// The candle durations offered, each with its unit name.
    pub timeframes: Vec<(Timeframe, &'static str)>,
}

/// The candle durations NovaDAX offers, in the order they are listed.
pub open spec fn spec_novadax_timeframes() -> Seq<Timeframe> {
    seq![
        Timeframe::Minute1,
        Timeframe::Minute5,
        Timeframe::Minute15,
        Timeframe::Minute30,
        Timeframe::Hour1,
        Timeframe::Day1,
        Timeframe::Week1,
        Timeframe::Month1,
    ]
}

/// A table of durations lists exactly the offered ones, each with its unit.
pub open spec fn novadax_table_ok(t: Seq<(Timeframe, &'static str)>) -> bool {
    &&& t.len() == spec_novadax_timeframes().len()
    &&& forall|k: int| 0 <= k < t.len() ==> (#[trigger] t[k]).0 == spec_novadax_timeframes()[k]
        && t[k].1@ == spec_novadax_unit(t[k].0)
}

/// What NovaDAX offers.
pub open spec fn spec_novadax_features() -> ExchangeFeatures {
    ExchangeFeatures {
        spot: true,
        fetch_markets: true,
        fetch_ticker: true,
        fetch_tickers: true,
        fetch_order_book: true,
        fetch_trades: true,
        fetch_ohlcv: true,
        fetch_balance: true,
        create_order: true,
        create_limit_order: true,
        create_market_order: true,
        cancel_order: true,
        fetch_order: true,
        fetch_orders: true,
        fetch_open_orders: true,
        fetch_closed_orders: true,
        fetch_my_trades: true,
        ..ExchangeFeatures::spec_none()
    }
}

/// Candle unit of each timeframe; timeframes NovaDAX lacks use one minute.
pub open spec fn spec_novadax_unit(tf: Timeframe) -> Seq<char> {
    match tf {
        Timeframe::Minute1 => "ONE_MIN"@,
        Timeframe::Minute5 => "FIVE_MIN"@,
        Timeframe::Minute15 => "FIFTEEN_MIN"@,
        Timeframe::Minute30 => "HALF_HOU"@,
        Timeframe::Hour1 => "ONE_HOU"@,
        Timeframe::Day1 => "ONE_DAY"@,
        Timeframe::Week1 => "ONE_WEE"@,
        Timeframe::Month1 => "ONE_MON"@,
        _ => "ONE_MIN"@,
    }
}

/// Order status of a NovaDAX status word; unknown words are open.
pub open spec fn spec_novadax_status(s: Seq<char>) -> OrderStatus {
    if s == "FILLED"@ {
        OrderStatus::Closed
    } else if s == "CANCELED"@ {
        OrderStatus::Canceled
    } else if s == "REJECTED"@ {
        OrderStatus::Rejected
    } else {
        OrderStatus::Open
    }
}

/// An order is closed exactly when its status is `FILLED`, canceled exactly
/// when it is `CANCELED`, and rejected exactly when it is `REJECTED`.
pub proof fn law_status_words(s: Seq<char>)
    ensures
        spec_novadax_status(s) == OrderStatus::Closed <==> (s == "FILLED"@),
        spec_novadax_status(s) == OrderStatus::Canceled <==> (s == "CANCELED"@),
        spec_novadax_status(s) == OrderStatus::Rejected <==> (s == "REJECTED"@),
{
    reveal_strlit("FILLED");
    reveal_strlit("CANCELED");
    reveal_strlit("REJECTED");
    assert("FILLED"@.len() != "CANCELED"@.len());
    assert("FILLED"@.len() != "REJECTED"@.len());
    assert("CANCELED"@[0] != "REJECTED"@[0]);
}

/// Whether a side word names a buy.
pub open spec fn is_buy_word(s: Option<String>) -> bool {
    s matches Some(w) && (w@ == "BUY"@ || w@ == "buy"@)
}

/// Order type of a NovaDAX type word.
pub open spec fn spec_novadax_type(s: Option<String>) -> OrderType {
    match s {
        Some(w) => if w@ == "MARKET"@ || w@ == "STOP_MARKET"@ {
            OrderType::Market
        } else {
            OrderType::Limit
        },
        None => OrderType::Limit,
    }
}

/// The unified symbol of a market id: `BASE_QUOTE` becomes `BASE/QUOTE`;
/// an id without exactly one `_` stays as it is.
pub open spec fn spec_novadax_symbol(id: Seq<char>) -> Seq<char> {
    let parts = split_spec(id, '_');
    if parts.len() == 2 {
        parts[0] + "/"@ + parts[1]
    } else {
        id
    }
}

/// The error of a response code other than `A10000`.
pub open spec fn spec_novadax_error(code: Seq<char>, message: Seq<char>, e: CcxtError) -> bool {
    if code == "A10001"@ {
        e matches CcxtError::BadRequest { message: m } && m@ == message
    } else if code == "A10003"@ {
        e matches CcxtError::AuthenticationError { message: m } && m@ == message
    } else if code == "A10004"@ {
        e matches CcxtError::RateLimitExceeded { message: m, retry_after_ms: None } && m@ == message
    } else if code == "A10011"@ || code == "A10012"@ {
        e matches CcxtError::BadSymbol { symbol: m } && m@ == message
    } else if code == "A10013"@ {
        e matches CcxtError::OnMaintenance { message: m } && m@ == message
    } else if code == "A30001"@ {
        e matches CcxtError::OrderNotFound { order_id: m } && m@ == "unknown"@
    } else if code == "A30007"@ || code == "A40004"@ {
        e matches CcxtError::InsufficientFunds { available: m, .. } && m@ == message
    } else {
        e matches CcxtError::ExchangeError { message: m } && m@ == code + ": "@ + message
    }
}

/// A NovaDAX ticker read into a unified ticker under `symbol`.
pub open spec fn spec_novadax_ticker_ok(t: NovadaxTicker, symbol: Seq<char>, r: Ticker) -> bool {
    let (change, pct) = spec_change_pct(r.last, r.open);
    &&& r.symbol@ == symbol
    &&& r.timestamp == t.timestamp
    &&& opt_view(r.datetime) == (match t.timestamp {
        Some(ts) => Some(iso8601_or_empty_spec(ts as int)),
        None => None,
    })
    &&& opt_parts(r.last) == opt_text_dec(t.last_price)
    &&& r.close == r.last
    &&& opt_parts(r.open) == opt_text_dec(t.open_24h)
    &&& opt_parts(r.high) == opt_text_dec(t.high_24h)
    &&& opt_parts(r.low) == opt_text_dec(t.low_24h)
    &&& opt_parts(r.bid) == opt_text_dec(t.bid)
    &&& opt_parts(r.ask) == opt_text_dec(t.ask)
    &&& opt_parts(r.base_volume) == opt_text_dec(t.base_volume_24h)
    &&& opt_parts(r.quote_volume) == opt_text_dec(t.quote_volume_24h)
    &&& opt_parts(r.change) == change
    &&& opt_parts(r.percentage) == pct
    &&& r.bid_volume is None && r.ask_volume is None && r.vwap is None
    &&& r.previous_close is None && r.average is None && r.index_price is None
    &&& r.mark_price is None
}

/// A ticker's bid and ask are the exchange's bid and ask, read as
/// decimals.
pub proof fn law_ticker_bid_ask(t: NovadaxTicker, symbol: Seq<char>, r: Ticker)
    requires
        spec_novadax_ticker_ok(t, symbol, r),
    ensures
        opt_parts(r.bid) == opt_text_dec(t.bid),
        opt_parts(r.ask) == opt_text_dec(t.ask),
{
}

/// A NovaDAX order read into a unified order under `symbol`.
pub open spec fn spec_novadax_order_ok(o: NovadaxOrder, symbol: Seq<char>, r: Order) -> bool {
    &&& r.id@ == (match o.id {
        Some(i) => i@,
        None => Seq::<char>::empty(),
    })
    &&& r.symbol@ == symbol
    &&& r.timestamp == o.timestamp
    &&& opt_view(r.datetime) == (match o.timestamp {
        Some(ts) => Some(iso8601_or_empty_spec(ts as int)),
        None => None,
    })
    &&& r.status == (match o.status {
        Some(s) => spec_novadax_status(s@),
        None => OrderStatus::Open,
    })
    &&& r.side == (if is_buy_word(o.side) {
        OrderSide::Buy
    } else {
        OrderSide::Sell
    })
    &&& r.order_type == spec_novadax_type(o.order_type)
    &&& opt_parts(r.price) == opt_text_dec(o.price)
    &&& opt_parts(r.average) == opt_text_dec(o.average_price)
    &&& r.amount.parts() == opt_text_dec_or_zero(o.amount)
    &&& r.filled.parts() == opt_text_dec_or_zero(o.filled_amount)
    &&& opt_parts(r.remaining) == checked_op(r.amount, r.filled, |x: (int, int), y: (int, int)| spec_dec_sub(x, y))
    &&& opt_parts(r.cost) == opt_text_dec(o.filled_value)
    &&& opt_parts(r.trigger_price) == opt_text_dec(o.stop_price)
    &&& match opt_text_dec(o.filled_fee) {
        Some(c) => r.fee matches Some(f) && opt_parts(f.cost) == Some(c) && f.currency is None
            && f.rate is None,
        None => r.fee is None,
    }
    &&& r.client_order_id is None && r.stop_price is None && r.time_in_force is None
    &&& r.no_extras()
}

/// A NovaDAX public trade read into a unified trade.
pub open spec fn spec_novadax_trade_ok(t: NovadaxTrade, symbol: Seq<char>, r: Trade) -> bool {
    &&& r.id@ == spec_int_to_string(match t.timestamp {
        Some(ts) => ts as int,
        None => 0,
    })
    &&& r.timestamp == t.timestamp
    &&& opt_view(r.datetime) == (match t.timestamp {
        Some(ts) => Some(iso8601_or_empty_spec(ts as int)),
        None => None,
    })
    &&& r.symbol@ == symbol
    &&& r.price.parts() == opt_text_dec_or_zero(t.price)
    &&& r.amount.parts() == opt_text_dec_or_zero(t.amount)
    &&& opt_parts(r.cost) == checked_op(r.price, r.amount, |x: (int, int), y: (int, int)| spec_dec_mul(x, y))
    &&& opt_view(r.side) == Some(if is_buy_word(t.side) {
        "buy"@
    } else {
        "sell"@
    })
    &&& r.order is None && r.fee is None && r.taker_or_maker is None && r.trade_type is None
}

/// A NovaDAX balance read into a unified balance.
pub open spec fn spec_novadax_balance_ok(b: NovadaxBalance, r: Balance) -> bool {
    &&& opt_parts(r.free) == opt_text_dec(b.available)
    &&& opt_parts(r.total) == opt_text_dec(b.balance)
    &&& opt_parts(r.used) == opt_text_dec(b.hold)
}

/// Tickers kept for a symbol filter: all when there is none.
pub open spec fn novadax_kept(tickers: Seq<NovadaxTicker>, symbols: Option<Seq<Seq<char>>>) -> Seq<NovadaxTicker> {
    match symbols {
        Some(syms) => tickers.filter(|t: NovadaxTicker| syms.contains(spec_novadax_symbol(t.symbol@))),
        None => tickers,
    }
}

/// A NovaDAX market read into a unified market: active when `ONLINE`,
/// eight places where precision is absent, taker fee 0.005 and maker fee
/// 0.0025.
pub open spec fn spec_novadax_market_ok(m: NovadaxMarket, r: Market) -> bool {
    &&& r.id@ == m.symbol@
    &&& opt_view(r.lowercase_id) == Some(spec_to_lowercase(m.symbol@))
    &&& r.symbol@ == m.base_currency@ + "/"@ + m.quote_currency@
    &&& r.base@ == m.base_currency@ && r.quote@ == m.quote_currency@
    &&& r.base_id@ == m.base_currency@ && r.quote_id@ == m.quote_currency@
    &&& r.active == (m.status matches Some(st) && st@ == "ONLINE"@)
    &&& r.market_type == MarketType::Spot && r.spot && !r.margin && !r.swap && !r.future
        && !r.contract && r.settle is None
    &&& r.precision == (MarketPrecision {
        amount: Some(match m.amount_precision {
            Some(p) => p,
            None => 8,
        }),
        price: Some(match m.price_precision {
            Some(p) => p,
            None => 8,
        }),
        cost: None,
        base: None,
        quote: None,
    })
    &&& opt_parts(r.limits.amount.min) == opt_text_dec(m.min_order_amount)
    &&& r.limits.amount.max is None
    &&& opt_parts(r.limits.cost.min) == opt_text_dec(m.min_order_value)
    &&& r.limits.cost.max is None
    &&& r.limits.price == (MinMax { min: None, max: None })
    &&& r.limits.leverage == (MinMax { min: None, max: None })
    &&& r.taker == Some(Dec { mantissa: 5, scale: 3 })
    &&& r.maker == Some(Dec { mantissa: 25, scale: 4 })
}

impl Novadax {
    /// Creates the adapter; it holds the configuration and knows no market yet.
    pub fn new(config: ExchangeConfig) -> (r: Result<Novadax, CcxtError>)
        ensures
            r matches Ok(x) && x.config == config && x.features == spec_novadax_features()
                && x.markets_by_symbol.entries@.len() == 0 && x.markets_by_id.entries@.len() == 0
                && novadax_table_ok(x.timeframes@),
    {
        let features = ExchangeFeatures {
            spot: true,
            fetch_markets: true,
            fetch_ticker: true,
            fetch_tickers: true,
            fetch_order_book: true,
            fetch_trades: true,
            fetch_ohlcv: true,
            fetch_balance: true,
            create_order: true,
            create_limit_order: true,
            create_market_order: true,
            cancel_order: true,
            fetch_order: true,
            fetch_orders: true,
            fetch_open_orders: true,
            fetch_closed_orders: true,
            fetch_my_trades: true,
            ..ExchangeFeatures::none()
        };
        let mut timeframes: Vec<(Timeframe, &'static str)> = Vec::new();
        timeframes.push((Timeframe::Minute1, "ONE_MIN"));
        timeframes.push((Timeframe::Minute5, "FIVE_MIN"));
        timeframes.push((Timeframe::Minute15, "FIFTEEN_MIN"));
        timeframes.push((Timeframe::Minute30, "HALF_HOU"));
        timeframes.push((Timeframe::Hour1, "ONE_HOU"));
        timeframes.push((Timeframe::Day1, "ONE_DAY"));
        timeframes.push((Timeframe::Week1, "ONE_WEE"));
        timeframes.push((Timeframe::Month1, "ONE_MON"));
        Ok(
            Novadax {
                config,
                features,
                markets_by_symbol: MarketIndex::new(),
                markets_by_id: MarketIndex::new(),
                timeframes,
            },
        )
    }

    /// The candle durations offered, each with its unit name.
    pub fn timeframes(&self) -> (r: &Vec<(Timeframe, &'static str)>)
        ensures
            r == &self.timeframes,
    {
        &self.timeframes
    }

    /// The exchange's identity.
    pub fn id(&self) -> (r: ExchangeId)
        ensures
            r == ExchangeId::Novadax,
    {
        ExchangeId::Novadax
    }

    /// The exchange's display name.
    pub fn name(&self) -> (r: &'static str)
        ensures
            r@ == "NovaDAX"@,
    {
        "NovaDAX"
    }

    /// Addresses of the exchange: logo, API bases, site, documentation and
    /// fee schedule.
    pub fn urls(&self) -> (r: ExchangeUrls)
        ensures
            opt_view(r.logo) == Some("https://user-images.githubusercontent.com/1294454/92337550-2b085500-f0b3-11ea-98e7-5794fb07dd3b.jpg"@),
            r.api@.len() == 2,
            r.api@[0].0@ == "public"@ && r.api@[0].1@ == NOVADAX_API_URL@,
            r.api@[1].0@ == "private"@ && r.api@[1].1@ == NOVADAX_API_URL@,
            opt_view(r.www) == Some("https://www.novadax.com.br"@),
            r.doc@.len() == 1,
            r.doc@[0]@ == "https://doc.novadax.com/pt-BR/"@,
            opt_view(r.fees) == Some("https://www.novadax.com.br/fees-and-limits"@),
    {
        let mut api: Vec<(String, String)> = Vec::new();
        api.push((copy_str("public"), copy_str(NOVADAX_API_URL)));
        api.push((copy_str("private"), copy_str(NOVADAX_API_URL)));
        let mut doc: Vec<String> = Vec::new();
        doc.push(copy_str("https://doc.novadax.com/pt-BR/"));
        ExchangeUrls {
            logo: Some(copy_str("https://user-images.githubusercontent.com/1294454/92337550-2b085500-f0b3-11ea-98e7-5794fb07dd3b.jpg")),
            api,
            www: Some(copy_str("https://www.novadax.com.br")),
            doc,
            fees: Some(copy_str("https://www.novadax.com.br/fees-and-limits")),
        }
    }

    /// What the exchange offers.
    pub fn has(&self) -> (r: &ExchangeFeatures)
        ensures
            *r == self.features,
    {
        &self.features
    }

    /// Candle unit of a timeframe (one minute for those NovaDAX lacks).
    pub fn get_timeframe_unit(&self, timeframe: Timeframe) -> (r: &'static str)
        ensures
            r@ == spec_novadax_unit(timeframe),
    {
        match timeframe {
            Timeframe::Minute1 => "ONE_MIN",
            Timeframe::Minute5 => "FIVE_MIN",
            Timeframe::Minute15 => "FIFTEEN_MIN",
            Timeframe::Minute30 => "HALF_HOU",
            Timeframe::Hour1 => "ONE_HOU",
            Timeframe::Day1 => "ONE_DAY",
            Timeframe::Week1 => "ONE_WEE",
            Timeframe::Month1 => "ONE_MON",
            _ => "ONE_MIN",
        }
    }

    /// The market id of a symbol, when the market is loaded.
    pub fn market_id(&self, symbol: &str) -> (r: Option<String>)
        ensures
            opt_view(r) == self.markets_by_symbol.spec_get(symbol@),
    {
        self.markets_by_symbol.get(symbol)
    }

    /// The unified symbol of a market id, when the market is loaded.
    pub fn symbol(&self, market_id: &str) -> (r: Option<String>)
        ensures
            opt_view(r) == self.markets_by_id.spec_get(market_id@),
    {
        self.markets_by_id.get(market_id)
    }

    /// Checks the code of a response: `A10000` is success, other codes map to
    /// errors (see [`spec_novadax_error`]); an absent code or message reads
    /// as empty or `Unknown error`.
    pub fn handle_response(code: Option<&str>, message: Option<&str>) -> (r: Result<(), CcxtError>)
        ensures
            r is Ok <==> (code matches Some(c) && c@ == "A10000"@),
            r matches Err(e) ==> spec_novadax_error(
                match code {
                    Some(c) => c@,
                    None => Seq::<char>::empty(),
                },
                match message {
                    Some(m) => m@,
                    None => "Unknown error"@,
                },
                e,
            ),
    {
        let m = match message {
            Some(m) => m,
            None => "Unknown error",
        };
        let c = match code {
            Some(c) => c,
            None => {
                proof {
                    reveal_strlit("A10001");
                    reveal_strlit("A10003");
                    reveal_strlit("A10004");
                    reveal_strlit("A10011");
                    reveal_strlit("A10012");
                    reveal_strlit("A10013");
                    reveal_strlit("A30001");
                    reveal_strlit("A30007");
                    reveal_strlit("A40004");
                    reveal_strlit(": ");
                }
                let e = CcxtError::ExchangeError { message: concat2(": ", m) };
                proof {
                    assert(Seq::<char>::empty() + ": "@ + m@ =~= ": "@ + m@);
                }
                return Err(e);
            },
        };
        if str_eq(c, "A10000") {
            return Ok(());
        }
        if str_eq(c, "A10001") {
            Err(CcxtError::BadRequest { message: copy_str(m) })
        } else if str_eq(c, "A10003") {
            Err(CcxtError::AuthenticationError { message: copy_str(m) })
        } else if str_eq(c, "A10004") {
            Err(CcxtError::RateLimitExceeded { message: copy_str(m), retry_after_ms: None })
        } else if str_eq(c, "A10011") || str_eq(c, "A10012") {
            Err(CcxtError::BadSymbol { symbol: copy_str(m) })
        } else if str_eq(c, "A10013") {
            Err(CcxtError::OnMaintenance { message: copy_str(m) })
        } else if str_eq(c, "A30001") {
            Err(CcxtError::OrderNotFound { order_id: copy_str("unknown") })
        } else if str_eq(c, "A30007") || str_eq(c, "A40004") {
            Err(
                CcxtError::InsufficientFunds {
                    currency: String::new(),
                    required: String::new(),
                    available: copy_str(m),
                },
            )
        } else {
            Err(CcxtError::ExchangeError { message: concat3(c, ": ", m) })
        }
    }

    /// Order status of a status word: submitted, processing, partly filled,
    /// cancelling and unknown words are open.
    pub fn parse_order_status(&self, status: &str) -> (r: OrderStatus)
        ensures
            r == spec_novadax_status(status@),
    {
        if str_eq(status, "FILLED") {
            OrderStatus::Closed
        } else if str_eq(status, "CANCELED") {
            OrderStatus::Canceled
        } else if str_eq(status, "REJECTED") {
            OrderStatus::Rejected
        } else {
            OrderStatus::Open
        }
    }

    /// Whether a side word names a buy.
    pub fn is_buy(side: &Option<String>) -> (r: bool)
        ensures
            r == is_buy_word(*side),
    {
        match side {
            Some(w) => str_eq(w.as_str(), "BUY") || str_eq(w.as_str(), "buy"),
            None => false,
        }
    }

    /// The unified symbol of a market id (`BTC_BRL` becomes `BTC/BRL`).
    pub fn symbol_of_id(id: &str) -> (r: String)
        ensures
            r@ == spec_novadax_symbol(id@),
    {
        let parts = split_char(id, '_');
        if parts.len() == 2 {
            concat3(parts[0].as_str(), "/", parts[1].as_str())
        } else {
            copy_str(id)
        }
    }

    /// Unified order of a NovaDAX order under `symbol`.
    pub fn parse_order(&self, order: &NovadaxOrder, symbol: &str) -> (r: Order)
        ensures
            spec_novadax_order_ok(*order, symbol@, r),
    {
        let datetime = match order.timestamp {
            Some(ts) => Some(iso8601_or_empty(ts)),
            None => None,
        };
        let amount = parse_opt_or_zero(&order.amount);
        let filled = parse_opt_or_zero(&order.filled_amount);
        let status = match &order.status {
            Some(s) => self.parse_order_status(s.as_str()),
            None => OrderStatus::Open,
        };
        let side = if Self::is_buy(&order.side) {
            OrderSide::Buy
        } else {
            OrderSide::Sell
        };
        let order_type = match &order.order_type {
            Some(w) => if str_eq(w.as_str(), "MARKET") || str_eq(w.as_str(), "STOP_MARKET") {
                OrderType::Market
            } else {
                OrderType::Limit
            },
            None => OrderType::Limit,
        };
        let fee = match parse_opt(&order.filled_fee) {
            Some(c) => Some(Fee { cost: Some(c), currency: None, rate: None }),
            None => None,
        };
        let id = match &order.id {
            Some(i) => copy_str(i.as_str()),
            None => String::new(),
        };
        Order {
            id,
            client_order_id: None,
            timestamp: order.timestamp,
            datetime,
            last_trade_timestamp: None,
            last_update_timestamp: None,
            status,
            symbol: copy_str(symbol),
            order_type,
            time_in_force: None,
            side,
            price: parse_opt(&order.price),
            average: parse_opt(&order.average_price),
            amount,
            filled,
            remaining: dec_sub(amount, filled),
            stop_price: None,
            trigger_price: parse_opt(&order.stop_price),
            take_profit_price: None,
            stop_loss_price: None,
            trades: Vec::new(),
            cost: parse_opt(&order.filled_value),
            fee,
            reduce_only: None,
            post_only: None,
        }
    }

    /// Unified orders of a listing; each order's symbol comes from its market
    /// id, empty when it has none.
    pub fn parse_orders(&self, orders: &Vec<NovadaxOrder>) -> (r: Vec<Order>)
        ensures
            r@.len() == orders@.len(),
            forall|k: int|
                0 <= k < r@.len() ==> spec_novadax_order_ok(
                    orders@[k],
                    match orders@[k].symbol {
                        Some(s) => spec_novadax_symbol(s@),
                        None => Seq::<char>::empty(),
                    },
                    #[trigger] r@[k],
                ),
    {
        let mut out: Vec<Order> = Vec::new();
        let n = orders.len();
        let mut i: usize = 0;
        while i < n
            invariant
                n == orders@.len(),
                i <= n,
                out@.len() == i,
                forall|k: int|
                    0 <= k < i ==> spec_novadax_order_ok(
                        orders@[k],
                        match orders@[k].symbol {
                            Some(s) => spec_novadax_symbol(s@),
                            None => Seq::<char>::empty(),
                        },
                        #[trigger] out@[k],
                    ),
            decreases n - i,
        {
            let sym = match &orders[i].symbol {
                Some(s) => Self::symbol_of_id(s.as_str()),
                None => String::new(),
            };
            out.push(self.parse_order(&orders[i], sym.as_str()));
            i = i + 1;
        }
        out
    }

    /// Unified market of a NovaDAX market: active when `ONLINE`, eight places
    /// where precision is absent, taker fee 0.005 and maker fee 0.0025.
    pub fn parse_market(m: &NovadaxMarket) -> (r: Market)
        ensures
            spec_novadax_market_ok(*m, r),
    {
        let active = match &m.status {
            Some(st) => str_eq(st.as_str(), "ONLINE"),
            None => false,
        };
        Market {
            id: copy_str(m.symbol.as_str()),
            lowercase_id: Some(to_lowercase(m.symbol.as_str())),
            symbol: concat3(m.base_currency.as_str(), "/", m.quote_currency.as_str()),
            base: copy_str(m.base_currency.as_str()),
            quote: copy_str(m.quote_currency.as_str()),
            base_id: copy_str(m.base_currency.as_str()),
            quote_id: copy_str(m.quote_currency.as_str()),
            settle: None,
            active,
            market_type: MarketType::Spot,
            spot: true,
            margin: false,
            swap: false,
            future: false,
            contract: false,
            linear: None,
            inverse: None,
            contract_size: None,
            created: None,
            taker: Some(Dec::new(5, 3)),
            maker: Some(Dec::new(25, 4)),
            precision: MarketPrecision {
                amount: Some(
                    match m.amount_precision {
                        Some(p) => p,
                        None => 8,
                    },
                ),
                price: Some(
                    match m.price_precision {
                        Some(p) => p,
                        None => 8,
                    },
                ),
                cost: None,
                base: None,
                quote: None,
            },
            limits: MarketLimits {
                amount: MinMax { min: parse_opt(&m.min_order_amount), max: None },
                price: MinMax { min: None, max: None },
                cost: MinMax { min: parse_opt(&m.min_order_value), max: None },
                leverage: MinMax { min: None, max: None },
            },
        }
    }

    /// Unified markets of NovaDAX markets, in order.
    pub fn parse_markets(rows: &Vec<NovadaxMarket>) -> (r: Vec<Market>)
        ensures
            r@.len() == rows@.len(),
            forall|k: int| 0 <= k < r@.len() ==> spec_novadax_market_ok(rows@[k], #[trigger] r@[k]),
    {
        let mut out: Vec<Market> = Vec::new();
        let n = rows.len();
        let mut i: usize = 0;
        while i < n
            invariant
                n == rows@.len(),
                i <= n,
                out@.len() == i,
                forall|k: int| 0 <= k < i ==> spec_novadax_market_ok(rows@[k], #[trigger] out@[k]),
            decreases n - i,
        {
            out.push(Self::parse_market(&rows[i]));
            i = i + 1;
        }
        out
    }

    /// Records markets by symbol and by id, replacing what was known.
    pub fn store_markets(&mut self, markets: &Vec<Market>)
        ensures
            final(self).markets_by_symbol.entries@.len() == markets@.len(),
            final(self).markets_by_id.entries@.len() == markets@.len(),
            forall|k: int|
                0 <= k < markets@.len() ==> (#[trigger] final(self).markets_by_id.entries@[k]).0@
                    == markets@[k].id@ && final(self).markets_by_id.entries@[k].1@
                    == markets@[k].symbol@ && final(self).markets_by_symbol.entries@[k].0@
                    == markets@[k].symbol@ && final(self).markets_by_symbol.entries@[k].1@
                    == markets@[k].id@,
            final(self).config == old(self).config,
            final(self).features == old(self).features,
            final(self).timeframes@ == old(self).timeframes@,
    {
        self.markets_by_symbol = crate::common::index_markets(markets, false);
        self.markets_by_id = crate::common::index_markets(markets, true);
    }

    /// Unified ticker of a NovaDAX ticker under `symbol`.
    pub fn parse_ticker(t: &NovadaxTicker, symbol: &str) -> (r: Ticker)
        ensures
            spec_novadax_ticker_ok(*t, symbol@, r),
    {
        let datetime = match t.timestamp {
            Some(ts) => Some(iso8601_or_empty(ts)),
            None => None,
        };
        let last = parse_opt(&t.last_price);
        let open = parse_opt(&t.open_24h);
        let (change, percentage) = crate::common::change_and_percentage(last, open);
        Ticker {
            symbol: copy_str(symbol),
            timestamp: t.timestamp,
            datetime,
            high: parse_opt(&t.high_24h),
            low: parse_opt(&t.low_24h),
            bid: parse_opt(&t.bid),
            bid_volume: None,
            ask: parse_opt(&t.ask),
            ask_volume: None,
            vwap: None,
            open,
            close: last,
            last,
            previous_close: None,
            change,
            percentage,
            average: None,
            base_volume: parse_opt(&t.base_volume_24h),
            quote_volume: parse_opt(&t.quote_volume_24h),
            index_price: None,
            mark_price: None,
        }
    }

    /// Whether a symbol is among the requested ones.
    fn wanted(symbols: &Vec<String>, symbol: &str) -> (r: bool)
        ensures
            r == texts_of(symbols@).contains(symbol@),
    {
        let n = symbols.len();
        let mut i: usize = 0;
        while i < n
            invariant
                n == symbols@.len(),
                i <= n,
                forall|j: int| 0 <= j < i ==> symbols@[j]@ != symbol@,
            decreases n - i,
        {
            if str_eq(symbols[i].as_str(), symbol) {
                assert(texts_of(symbols@)[i as int] == symbol@);
                return true;
            }
            i = i + 1;
        }
        proof {
            if texts_of(symbols@).contains(symbol@) {
                let j = choose|j: int| 0 <= j < n && #[trigger] texts_of(symbols@)[j] == symbol@;
                assert(symbols@[j]@ == symbol@);
            }
        }
        false
    }

    /// Unified tickers keyed by symbol: each market id becomes a symbol, only
    /// requested symbols are kept when a list is given, and a later ticker of
    /// a symbol replaces an earlier one.
    pub fn parse_tickers(tickers: &Vec<NovadaxTicker>, symbols: Option<&Vec<String>>) -> (r: Vec<(String, Ticker)>)
        ensures
            ({
                let req = match symbols {
                    Some(v) => Some(texts_of(v@)),
                    None => None,
                };
                let kept = novadax_kept(tickers@, req);
                pair_keyed_by_last(
                    kept.map_values(|t: NovadaxTicker| spec_novadax_symbol(t.symbol@)),
                    r@,
                    |i: int, x: Ticker| spec_novadax_ticker_ok(kept[i], spec_novadax_symbol(kept[i].symbol@), x),
                )
            }),
    {
        let ghost req = match symbols {
            Some(v) => Some(texts_of(v@)),
            None => None,
        };
        let ghost kept = novadax_kept(tickers@, req);
        let ghost ok = |i: int, x: Ticker| spec_novadax_ticker_ok(kept[i], spec_novadax_symbol(kept[i].symbol@), x);
        let mut result: Vec<(String, Ticker)> = Vec::new();
        let n = tickers.len();
        let mut k: usize = 0;
        proof {
            lemma_pair_keyed_empty(ok);
            assert(novadax_kept(tickers@.take(0), req) =~= Seq::<NovadaxTicker>::empty());
            assert(novadax_kept(tickers@.take(0), req).map_values(|t: NovadaxTicker| spec_novadax_symbol(t.symbol@)) =~= Seq::<Seq<char>>::empty());
            assert(result@ =~= Seq::<(String, Ticker)>::empty());
        }
        while k < n
            invariant
                n == tickers@.len(),
                k <= n,
                req == (match symbols {
                    Some(v) => Some(texts_of(v@)),
                    None => None,
                }),
                kept == novadax_kept(tickers@, req),
                ok == (|i: int, x: Ticker| spec_novadax_ticker_ok(kept[i], spec_novadax_symbol(kept[i].symbol@), x)),
                novadax_kept(tickers@.take(k as int), req).len() <= kept.len(),
                forall|j: int|
                    0 <= j < novadax_kept(tickers@.take(k as int), req).len() ==> #[trigger] novadax_kept(
                        tickers@.take(k as int),
                        req,
                    )[j] == kept[j],
                pair_keyed_by_last(
                    novadax_kept(tickers@.take(k as int), req).map_values(
                        |t: NovadaxTicker| spec_novadax_symbol(t.symbol@),
                    ),
                    result@,
                    ok,
                ),
            decreases n - k,
        {
            let ghost pre = novadax_kept(tickers@.take(k as int), req);
            proof {
                assert(tickers@.take(k + 1).drop_last() =~= tickers@.take(k as int));
                assert(tickers@.take(k + 1).last() == tickers@[k as int]);
                reveal_with_fuel(Seq::<_>::filter, 1);
                lemma_kept_prefix(tickers@, req, k + 1);
            }
            let sym = Self::symbol_of_id(tickers[k].symbol.as_str());
            let keep = match symbols {
                Some(v) => Self::wanted(v, sym.as_str()),
                None => true,
            };
            if keep {
                let t = Self::parse_ticker(&tickers[k], sym.as_str());
                let ghost before = result@;
                let ghost key = sym@;
                keyed_insert(&mut result, sym, t);
                proof {
                    let codes = pre.map_values(|x: NovadaxTicker| spec_novadax_symbol(x.symbol@));
                    if req is None {
                        assert(novadax_kept(tickers@.take(k + 1), req) == tickers@.take(k + 1));
                        assert(pre == tickers@.take(k as int));
                    }
                    assert(novadax_kept(tickers@.take(k + 1), req) =~= pre.push(tickers@[k as int]));
                    assert(novadax_kept(tickers@.take(k + 1), req)[pre.len() as int] == tickers@[k as int]);
                    assert(kept[pre.len() as int] == tickers@[k as int]);
                    assert(ok(codes.len() as int, t));
                    lemma_pair_keyed_step(codes, before, result@, key, t, ok);
                    assert(codes.push(key) =~= novadax_kept(tickers@.take(k + 1), req).map_values(
                        |x: NovadaxTicker| spec_novadax_symbol(x.symbol@),
                    ));
                }
            } else {
                proof {
                    assert(novadax_kept(tickers@.take(k + 1), req) =~= pre);
                }
            }
            k = k + 1;
        }
        proof {
            assert(tickers@.take(n as int) =~= tickers@);
        }
        result
    }
}

/// Order-book levels of text rows: rows with fewer than two texts are
/// skipped, unreadable numbers count as zero.
pub open spec fn novadax_levels(rows: Seq<Vec<String>>) -> Seq<Vec<String>> {
    rows.filter(|r: Vec<String>| r@.len() >= 2)
}

/// The level of a text row.
pub open spec fn spec_novadax_level_ok(row: Vec<String>, e: OrderBookEntry) -> bool {
    &&& e.price.parts() == crate::dec::text_dec_or_zero(row@[0]@)
    &&& e.amount.parts() == crate::dec::text_dec_or_zero(row@[1]@)
}

/// The window of a candle request, in seconds: from `since` (milliseconds)
/// for `limit` candles, or the `limit` candles that end `now` (seconds);
/// 3000 candles when no limit is given.
pub open spec fn novadax_window(tf: Timeframe, since: Option<i64>, limit: Option<u32>, now_secs: int) -> (int, int) {
    let l: int = match limit {
        Some(x) => x as int,
        None => 3000,
    };
    let d = spec_timeframe_millis(tf) / 1000;
    match since {
        Some(s) => {
            let start = trunc_div_1000(s as int);
            (start, start + l * d)
        },
        None => (now_secs - l * d, now_secs),
    }
}

/// Division by 1000 rounding toward zero, as Rust's `/` does.
pub open spec fn trunc_div_1000(x: int) -> int {
    if x >= 0 {
        x / 1000
    } else {
        -((-x) / 1000)
    }
}

/// Whether the window of a candle request fits in 64 bits.
pub open spec fn novadax_window_fits(tf: Timeframe, since: Option<i64>, limit: Option<u32>, now_secs: i64) -> bool {
    let (from, to) = novadax_window(tf, since, limit, now_secs as int);
    i64::MIN <= from <= i64::MAX && i64::MIN <= to <= i64::MAX
}

/// A NovaDAX fill read into a unified trade; `symbol` is the symbol to use
/// when the fill names no market.
pub open spec fn spec_novadax_fill_ok(f: NovadaxFill, symbol: Seq<char>, r: Trade) -> bool {
    &&& r.id@ == (match f.id {
        Some(i) => i@,
        None => spec_int_to_string(match f.timestamp {
            Some(ts) => ts as int,
            None => 0,
        }),
    })
    &&& opt_view(r.order) == opt_view(f.order_id)
    &&& r.symbol@ == (match f.symbol {
        Some(s) => spec_novadax_symbol(s@),
        None => symbol,
    })
    &&& r.timestamp == f.timestamp
    &&& opt_view(r.datetime) == (match f.timestamp {
        Some(ts) => Some(iso8601_or_empty_spec(ts as int)),
        None => None,
    })
    &&& r.price.parts() == opt_text_dec_or_zero(f.price)
    &&& r.amount.parts() == opt_text_dec_or_zero(f.amount)
    &&& opt_parts(r.cost) == checked_op(r.price, r.amount, |x: (int, int), y: (int, int)| spec_dec_mul(x, y))
    &&& opt_view(r.side) == Some(if is_buy_word(f.side) {
        "buy"@
    } else {
        "sell"@
    })
    &&& r.taker_or_maker == (match f.role {
        Some(role) => if spec_to_lowercase(role@) == "taker"@ {
            Some(TakerOrMaker::Taker)
        } else if spec_to_lowercase(role@) == "maker"@ {
            Some(TakerOrMaker::Maker)
        } else {
            None
        },
        None => None,
    })
    &&& match opt_text_dec(f.fee_amount) {
        Some(c) => r.fee matches Some(fee) && opt_parts(fee.cost) == Some(c) && opt_view(fee.currency)
            == opt_view(f.fee_currency) && fee.rate is None,
        None => r.fee is None,
    }
}

/// The message a private request signs: method, path, query (or body digest)
/// and time, one per line.
pub open spec fn novadax_auth(method: Seq<char>, path: Seq<char>, q: Seq<char>, ts: Seq<char>) -> Seq<char> {
    method + "\n"@ + path + "\n"@ + q + "\n"@ + ts
}

/// The message a private request signs has four lines, in this order: the
/// method, the request path, the query (or body digest) and the time. Each
/// line stands at its place, each but the last ends in a newline, and the
/// message holds nothing else.
pub proof fn law_auth_lines(method: Seq<char>, path: Seq<char>, q: Seq<char>, ts: Seq<char>, r: Seq<char>)
    requires
        r == novadax_auth(method, path, q, ts),
    ensures
        r.len() == method.len() + path.len() + q.len() + ts.len() + 3,
        r.take(method.len() as int) == method,
        r[method.len() as int] == '\n',
        r.subrange(method.len() + 1int, method.len() + 1int + path.len()) == path,
        r[method.len() + 1int + path.len()] == '\n',
        r.subrange(method.len() + path.len() + 2int, method.len() + path.len() + 2int + q.len()) == q,
        r[method.len() + path.len() + 2int + q.len()] == '\n',
        r.skip(method.len() + path.len() + q.len() + 3int) == ts,
{
    reveal_strlit("\n");
    let m = method.len() as int;
    let p = path.len() as int;
    let k = q.len() as int;
    assert(r.take(m) =~= method);
    assert(r.subrange(m + 1, m + 1 + p) =~= path);
    assert(r.subrange(m + p + 2, m + p + 2 + k) =~= q);
    assert(r.skip(m + p + k + 3) =~= ts);
}

impl Novadax {
    /// Order-book levels of text rows (see [`novadax_levels`]).
    pub fn parse_levels(rows: &Vec<Vec<String>>) -> (r: Vec<OrderBookEntry>)
        ensures
            r@.len() == novadax_levels(rows@).len(),
            forall|k: int| 0 <= k < r@.len() ==> spec_novadax_level_ok(novadax_levels(rows@)[k], #[trigger] r@[k]),
    {
        let mut out: Vec<OrderBookEntry> = Vec::new();
        let n = rows.len();
        let mut i: usize = 0;
        while i < n
            invariant
                n == rows@.len(),
                i <= n,
                out@.len() == novadax_levels(rows@.take(i as int)).len(),
                forall|k: int|
                    0 <= k < out@.len() ==> spec_novadax_level_ok(
                        novadax_levels(rows@.take(i as int))[k],
                        #[trigger] out@[k],
                    ),
            decreases n - i,
        {
            let ghost pre = rows@.take(i as int);
            proof {
                assert(rows@.take(i + 1).drop_last() =~= pre);
                assert(rows@.take(i + 1).last() == rows@[i as int]);
                reveal_with_fuel(Seq::<_>::filter, 1);
            }
            if rows[i].len() >= 2 {
                let price = crate::dec::parse_or_zero(rows[i][0].as_str());
                let amount = crate::dec::parse_or_zero(rows[i][1].as_str());
                out.push(OrderBookEntry { price, amount });
                proof {
                    assert(novadax_levels(rows@.take(i + 1)) == novadax_levels(pre).push(rows@[i as int]));
                }
            } else {
                proof {
                    assert(novadax_levels(rows@.take(i + 1)) == novadax_levels(pre));
                }
            }
            i = i + 1;
        }
        proof {
            assert(rows@.take(n as int) =~= rows@);
        }
        out
    }

    /// Order book of a depth answer; absent sides are empty.
    pub fn parse_order_book(
        bids: &Option<Vec<Vec<String>>>,
        asks: &Option<Vec<Vec<String>>>,
        timestamp: Option<i64>,
        symbol: &str,
    ) -> (r: OrderBook)
        ensures
            r.symbol@ == symbol@,
            r.timestamp == timestamp,
            opt_view(r.datetime) == (match timestamp {
                Some(ts) => Some(iso8601_or_empty_spec(ts as int)),
                None => None,
            }),
            r.nonce is None,
            match bids {
                Some(rows) => r.bids@.len() == novadax_levels(rows@).len() && forall|k: int|
                    0 <= k < r.bids@.len() ==> spec_novadax_level_ok(novadax_levels(rows@)[k], #[trigger] r.bids@[k]),
                None => r.bids@.len() == 0,
            },
            match asks {
                Some(rows) => r.asks@.len() == novadax_levels(rows@).len() && forall|k: int|
                    0 <= k < r.asks@.len() ==> spec_novadax_level_ok(novadax_levels(rows@)[k], #[trigger] r.asks@[k]),
                None => r.asks@.len() == 0,
            },
    {
        let b = match bids {
            Some(rows) => Self::parse_levels(rows),
            None => Vec::new(),
        };
        let a = match asks {
            Some(rows) => Self::parse_levels(rows),
            None => Vec::new(),
        };
        let datetime = match timestamp {
            Some(ts) => Some(iso8601_or_empty(ts)),
            None => None,
        };
        OrderBook { symbol: copy_str(symbol), timestamp, datetime, nonce: None, bids: b, asks: a }
    }

    /// Unified trade of a NovaDAX public trade; its id is its time.
    pub fn parse_trade(t: &NovadaxTrade, symbol: &str) -> (r: Trade)
        ensures
            spec_novadax_trade_ok(*t, symbol@, r),
    {
        let datetime = match t.timestamp {
            Some(ts) => Some(iso8601_or_empty(ts)),
            None => None,
        };
        let price = parse_opt_or_zero(&t.price);
        let amount = parse_opt_or_zero(&t.amount);
        let side = if Self::is_buy(&t.side) {
            copy_str("buy")
        } else {
            copy_str("sell")
        };
        let id = match t.timestamp {
            Some(ts) => int_to_string(ts as i128),
            None => int_to_string(0),
        };
        Trade {
            id,
            order: None,
            timestamp: t.timestamp,
            datetime,
            symbol: copy_str(symbol),
            trade_type: None,
            side: Some(side),
            taker_or_maker: None,
            price,
            amount,
            cost: dec_mul(price, amount),
            fee: None,
        }
    }

    /// Unified trades of NovaDAX public trades, in order.
    pub fn parse_trades(rows: &Vec<NovadaxTrade>, symbol: &str) -> (r: Vec<Trade>)
        ensures
            r@.len() == rows@.len(),
            forall|k: int| 0 <= k < r@.len() ==> spec_novadax_trade_ok(rows@[k], symbol@, #[trigger] r@[k]),
    {
        let mut out: Vec<Trade> = Vec::new();
        let n = rows.len();
        let mut i: usize = 0;
        while i < n
            invariant
                n == rows@.len(),
                i <= n,
                out@.len() == i,
                forall|k: int| 0 <= k < i ==> spec_novadax_trade_ok(rows@[k], symbol@, #[trigger] out@[k]),
            decreases n - i,
        {
            out.push(Self::parse_trade(&rows[i], symbol));
            i = i + 1;
        }
        out
    }

    /// Whether the candle window of a request fits in 64-bit seconds (see
    /// [`novadax_window_fits`]); a request whose window does not fit cannot
    /// be made.
    pub fn window_fits(timeframe: Timeframe, since: Option<i64>, limit: Option<u32>, now_secs: i64) -> (r: bool)
        ensures
            r == novadax_window_fits(timeframe, since, limit, now_secs),
    {
        let l: i128 = match limit {
            Some(x) => x as i128,
            None => 3000,
        };
        let d: i128 = (timeframe.to_millis() / 1000) as i128;
        assert(0 < d <= 2_592_000);
        assert(0 <= l * d <= 0xFFFF_FFFFi128 * 2_592_000i128) by (nonlinear_arith)
            requires 0 <= l <= 0xFFFF_FFFF, 0 < d <= 2_592_000;
        let span: i128 = l * d;
        match since {
            Some(s) => {
                let start: i128 = if s >= 0 { (s / 1000) as i128 } else { -((-(s as i128)) / 1000) };
                start + span <= i64::MAX as i128
            },
            None => now_secs as i128 - span >= i64::MIN as i128,
        }
    }

    /// Query of a candle request: market id, unit and the window of
    /// [`novadax_window`]. An unknown market is refused.
    pub fn ohlcv_params(
        &self,
        symbol: &str,
        timeframe: Timeframe,
        since: Option<i64>,
        limit: Option<u32>,
        now_secs: i64,
    ) -> (r: Result<Vec<(String, String)>, CcxtError>)
        requires
            novadax_window_fits(timeframe, since, limit, now_secs),
        ensures
            r is Err <==> self.markets_by_symbol.spec_get(symbol@) is None,
            r is Err ==> r matches Err(CcxtError::BadSymbol { .. }),
            r matches Ok(p) ==> {
                let (from, to) = novadax_window(timeframe, since, limit, now_secs as int);
                &&& p@.len() == 4
                &&& p@[0].0@ == "symbol"@ && Some(p@[0].1@) == self.markets_by_symbol.spec_get(symbol@)
                &&& p@[1].0@ == "unit"@ && p@[1].1@ == spec_novadax_unit(timeframe)
                &&& p@[2].0@ == "from"@ && p@[2].1@ == spec_int_to_string(from)
                &&& p@[3].0@ == "to"@ && p@[3].1@ == spec_int_to_string(to)
            },
    {
        let id = match self.market_id(symbol) {
            Some(i) => i,
            None => {
                return Err(CcxtError::BadSymbol { symbol: copy_str(symbol) });
            },
        };
        let unit = self.get_timeframe_unit(timeframe);
        let l: i64 = match limit {
            Some(x) => x as i64,
            None => 3000,
        };
        let d: i64 = timeframe.to_millis() / 1000;
        let ghost w = novadax_window(timeframe, since, limit, now_secs as int);
        proof {
            assert(0 <= l <= 0xFFFF_FFFF);
            assert(0 < d <= 2_592_000);
            assert(0 <= l * d <= 0xFFFF_FFFF * 2_592_000) by (nonlinear_arith)
                requires 0 <= l <= 0xFFFF_FFFF, 0 < d <= 2_592_000;
        }
        let (from, to) = match since {
            Some(s) => {
                let start: i64 = if s >= 0 { s / 1000 } else { -((-(s as i128)) / 1000) as i64 };
                (start, start + l * d)
            },
            None => (now_secs - l * d, now_secs),
        };
        let mut p: Vec<(String, String)> = Vec::new();
        p.push((copy_str("symbol"), id));
        p.push((copy_str("unit"), copy_str(unit)));
        p.push((copy_str("from"), int_to_string(from as i128)));
        p.push((copy_str("to"), int_to_string(to as i128)));
        Ok(p)
    }

    /// Whether the time of a candle, in milliseconds, fits in an `i64`.
    pub fn kline_fits(k: &NovadaxKline) -> (r: bool)
        ensures
            r == (k.score matches Some(s) ==> crate::time::secs_fit_ms(s as int)),
    {
        match k.score {
            Some(s) => -9_223_372_036_854_775 <= s && s <= 9_223_372_036_854_775,
            None => true,
        }
    }

    /// Unified candle of a NovaDAX candle: the time in milliseconds, absent
    /// numbers as zero.
    pub fn parse_kline(k: &NovadaxKline) -> (r: OHLCV)
        requires
            k.score matches Some(s) ==> crate::time::secs_fit_ms(s as int),
        ensures
            r.timestamp == (match k.score {
                Some(s) => s * 1000,
                None => 0,
            }),
            r.open == (match k.open_price { Some(x) => x, None => Dec::zero() }),
            r.high == (match k.high_price { Some(x) => x, None => Dec::zero() }),
            r.low == (match k.low_price { Some(x) => x, None => Dec::zero() }),
            r.close == (match k.close_price { Some(x) => x, None => Dec::zero() }),
            r.volume == (match k.amount { Some(x) => x, None => Dec::zero() }),
    {
        let or_zero = |x: Option<Dec>| -> (r: Dec)
            ensures
                r == (match x { Some(v) => v, None => Dec::zero() }),
        {
            match x {
                Some(v) => v,
                None => Dec::zero(),
            }
        };
        OHLCV {
            timestamp: match k.score {
                Some(s) => s * 1000,
                None => 0,
            },
            open: or_zero(k.open_price),
            high: or_zero(k.high_price),
            low: or_zero(k.low_price),
            close: or_zero(k.close_price),
            volume: or_zero(k.amount),
        }
    }

    /// Holdings of one currency.
    pub fn parse_balance_entry(b: &NovadaxBalance) -> (r: Balance)
        ensures
            spec_novadax_balance_ok(*b, r),
    {
        Balance { free: parse_opt(&b.available), used: parse_opt(&b.hold), total: parse_opt(&b.balance) }
    }

    /// Unified balances keyed by currency; a later entry of a currency
    /// replaces an earlier one.
    pub fn parse_balance(balances: &Vec<NovadaxBalance>) -> (r: Balances)
        ensures
            keyed_by_last(
                balances@.map_values(|b: NovadaxBalance| b.currency@),
                r.currencies@,
                |i: int, bal: Balance| spec_novadax_balance_ok(balances@[i], bal),
            ),
            r.timestamp is None,
            r.datetime is None,
    {
        let ghost ok = |i: int, bal: Balance| spec_novadax_balance_ok(balances@[i], bal);
        let ghost codes = balances@.map_values(|b: NovadaxBalance| b.currency@);
        let mut result = Balances::new();
        let n = balances.len();
        let mut k: usize = 0;
        proof {
            lemma_keyed_empty(ok);
            assert(codes.take(0) =~= Seq::<Seq<char>>::empty());
            assert(result.currencies@ =~= Seq::<(String, Balance)>::empty());
        }
        while k < n
            invariant
                n == balances@.len(),
                k <= n,
                codes == balances@.map_values(|b: NovadaxBalance| b.currency@),
                result.timestamp is None,
                result.datetime is None,
                ok == (|i: int, bal: Balance| spec_novadax_balance_ok(balances@[i], bal)),
                keyed_by_last(codes.take(k as int), result.currencies@, ok),
            decreases n - k,
        {
            let bal = Self::parse_balance_entry(&balances[k]);
            let ghost before = result.currencies@;
            result.add(copy_str(balances[k].currency.as_str()), bal);
            proof {
                assert(codes.take(k as int).len() == k);
                lemma_keyed_step(codes.take(k as int), before, result.currencies@, codes[k as int], bal, ok);
                assert(codes.take(k as int).push(codes[k as int]) =~= codes.take(k + 1));
            }
            k = k + 1;
        }
        proof {
            assert(codes.take(n as int) =~= codes);
        }
        result
    }
}

impl Novadax {
    /// Body of an order: market id and side (`BUY`/`SELL`); a limit order
    /// needs a price and sends price and amount; a market sell sends the
    /// amount, a market buy sends the value to spend (amount times price
    /// when a price is given, else the amount); then the type. Other order
    /// types and unknown markets are refused.
    pub fn create_order_params(
        &self,
        symbol: &str,
        order_type: OrderType,
        side: OrderSide,
        amount: Dec,
        price: Option<Dec>,
    ) -> (r: Result<Vec<(String, String)>, CcxtError>)
        ensures
            self.markets_by_symbol.spec_get(symbol@) is None ==> r matches Err(CcxtError::BadSymbol { .. }),
            self.markets_by_symbol.spec_get(symbol@) is Some && order_type == OrderType::Limit
                && price is None ==> r matches Err(CcxtError::BadRequest { .. }),
            self.markets_by_symbol.spec_get(symbol@) is Some && order_type != OrderType::Limit
                && order_type != OrderType::Market ==> (r matches Err(CcxtError::NotSupported { feature })
                && feature@ == "Order type "@ + spec_order_type_name(order_type)),
            r is Ok <==> (self.markets_by_symbol.spec_get(symbol@) is Some && (order_type
                == OrderType::Market || (order_type == OrderType::Limit && price is Some))),
            r matches Ok(p) ==> {
                &&& p@.len() == (if order_type == OrderType::Limit { 5int } else { 4int })
                &&& p@[0].0@ == "symbol"@ && Some(p@[0].1@) == self.markets_by_symbol.spec_get(symbol@)
                &&& p@[1].0@ == "side"@ && p@[1].1@ == (if side == OrderSide::Buy { "BUY"@ } else { "SELL"@ })
                &&& p@.last().0@ == "type"@ && p@.last().1@ == (if order_type == OrderType::Limit { "LIMIT"@ } else { "MARKET"@ })
                &&& order_type == OrderType::Limit ==> p@[2].0@ == "price"@ && (price->0.wf() ==> p@[2].1@
                    == spec_dec_to_string(price->0.parts())) && p@[3].0@ == "amount"@ && (amount.wf() ==> p@[3].1@
                    == spec_dec_to_string(amount.parts()))
                &&& order_type == OrderType::Market && side == OrderSide::Sell ==> p@[2].0@ == "amount"@
                    && (amount.wf() ==> p@[2].1@ == spec_dec_to_string(amount.parts()))
                &&& order_type == OrderType::Market && side == OrderSide::Buy ==> p@[2].0@ == "value"@
                    && match price {
                    Some(x) => match checked_op(amount, x, |a: (int, int), b: (int, int)| spec_dec_mul(a, b)) {
                        Some(v) => p@[2].1@ == crate::dec::spec_dec_to_string(v),
                        None => true,
                    },
                    None => amount.wf() ==> p@[2].1@ == spec_dec_to_string(amount.parts()),
                }
            },
    {
        let id = match self.market_id(symbol) {
            Some(i) => i,
            None => {
                return Err(CcxtError::BadSymbol { symbol: copy_str(symbol) });
            },
        };
        let mut p: Vec<(String, String)> = Vec::new();
        p.push((copy_str("symbol"), id));
        let side_word = match side {
            OrderSide::Buy => "BUY",
            OrderSide::Sell => "SELL",
        };
        p.push((copy_str("side"), copy_str(side_word)));
        match order_type {
            OrderType::Limit => {
                let pr = match price {
                    Some(x) => x,
                    None => {
                        return Err(CcxtError::BadRequest { message: copy_str("Price required for limit order") });
                    },
                };
                p.push((copy_str("price"), pr.to_text()));
                p.push((copy_str("amount"), amount.to_text()));
                p.push((copy_str("type"), copy_str("LIMIT")));
            },
            OrderType::Market => {
                match side {
                    OrderSide::Sell => {
                        p.push((copy_str("amount"), amount.to_text()));
                    },
                    OrderSide::Buy => {
                        let value = match price {
                            Some(x) => match dec_mul(amount, x) {
                                Some(v) => v.to_text(),
                                None => amount.to_text(),
                            },
                            None => amount.to_text(),
                        };
                        p.push((copy_str("value"), value));
                    },
                }
                p.push((copy_str("type"), copy_str("MARKET")));
            },
            _ => {
                return Err(CcxtError::NotSupported { feature: concat2("Order type ", order_type.name()) });
            },
        }
        Ok(p)
    }

    /// Query of an order listing: the statuses asked for (when any), the
    /// market of the symbol (when given; an unknown one is refused), the
    /// limit and the start time.
    pub fn list_params(
        &self,
        status: Option<&str>,
        symbol: Option<&str>,
        since: Option<i64>,
        limit: Option<u32>,
    ) -> (r: Result<Vec<(String, String)>, CcxtError>)
        ensures
            r is Err <==> (symbol matches Some(s) && self.markets_by_symbol.spec_get(s@) is None),
            r is Err ==> r matches Err(CcxtError::BadSymbol { .. }),
            r matches Ok(p) ==> {
                let with_status = if status is Some { seq![("status"@, status->0@)] } else { Seq::empty() };
                let with_symbol = match symbol {
                    Some(s) => seq![("symbol"@, self.markets_by_symbol.spec_get(s@)->0)],
                    None => Seq::empty(),
                };
                let with_limit = match limit {
                    Some(l) => seq![("limit"@, spec_int_to_string(l as int))],
                    None => Seq::empty(),
                };
                let with_since = match since {
                    Some(t) => seq![("fromTimestamp"@, spec_int_to_string(t as int))],
                    None => Seq::empty(),
                };
                p@.map_values(|x: (String, String)| (x.0@, x.1@)) == with_status + with_symbol + with_limit + with_since
            },
    {
        let mut p: Vec<(String, String)> = Vec::new();
        let ghost mut want: Seq<(Seq<char>, Seq<char>)> = Seq::empty();
        if let Some(st) = status {
            p.push((copy_str("status"), copy_str(st)));
            proof { want = want.push(("status"@, st@)); }
        }
        if let Some(s) = symbol {
            let id = match self.market_id(s) {
                Some(i) => i,
                None => {
                    return Err(CcxtError::BadSymbol { symbol: copy_str(s) });
                },
            };
            proof { want = want.push(("symbol"@, id@)); }
            p.push((copy_str("symbol"), id));
        }
        if let Some(l) = limit {
            let t = int_to_string(l as i128);
            proof { want = want.push(("limit"@, t@)); }
            p.push((copy_str("limit"), t));
        }
        if let Some(since_ms) = since {
            let t = int_to_string(since_ms as i128);
            proof { want = want.push(("fromTimestamp"@, t@)); }
            p.push((copy_str("fromTimestamp"), t));
        }
        proof {
            assert(p@.map_values(|x: (String, String)| (x.0@, x.1@)) =~= want);
        }
        Ok(p)
    }

    /// Unified trade of a fill; `symbol` is used when the fill names no market.
    pub fn parse_fill(f: &NovadaxFill, symbol: &str) -> (r: Trade)
        ensures
            spec_novadax_fill_ok(*f, symbol@, r),
    {
        let sym = match &f.symbol {
            Some(s) => Self::symbol_of_id(s.as_str()),
            None => copy_str(symbol),
        };
        let datetime = match f.timestamp {
            Some(ts) => Some(iso8601_or_empty(ts)),
            None => None,
        };
        let price = parse_opt_or_zero(&f.price);
        let amount = parse_opt_or_zero(&f.amount);
        let side = if Self::is_buy(&f.side) {
            copy_str("buy")
        } else {
            copy_str("sell")
        };
        let taker_or_maker = match &f.role {
            Some(role) => {
                let lower = to_lowercase(role.as_str());
                if str_eq(lower.as_str(), "taker") {
                    Some(TakerOrMaker::Taker)
                } else if str_eq(lower.as_str(), "maker") {
                    Some(TakerOrMaker::Maker)
                } else {
                    None
                }
            },
            None => None,
        };
        let fee = match parse_opt(&f.fee_amount) {
            Some(c) => Some(Fee { cost: Some(c), currency: crate::common::copy_opt(&f.fee_currency), rate: None }),
            None => None,
        };
        let id = match &f.id {
            Some(i) => copy_str(i.as_str()),
            None => match f.timestamp {
                Some(ts) => int_to_string(ts as i128),
                None => int_to_string(0),
            },
        };
        Trade {
            id,
            order: crate::common::copy_opt(&f.order_id),
            timestamp: f.timestamp,
            datetime,
            symbol: sym,
            trade_type: None,
            side: Some(side),
            taker_or_maker,
            price,
            amount,
            cost: dec_mul(price, amount),
            fee,
        }
    }

    /// Unified trades of fills, in order.
    pub fn parse_fills(fills: &Vec<NovadaxFill>, symbol: &str) -> (r: Vec<Trade>)
        ensures
            r@.len() == fills@.len(),
            forall|k: int| 0 <= k < r@.len() ==> spec_novadax_fill_ok(fills@[k], symbol@, #[trigger] r@[k]),
    {
        let mut out: Vec<Trade> = Vec::new();
        let n = fills.len();
        let mut i: usize = 0;
        while i < n
            invariant
                n == fills@.len(),
                i <= n,
                out@.len() == i,
                forall|k: int| 0 <= k < i ==> spec_novadax_fill_ok(fills@[k], symbol@, #[trigger] out@[k]),
            decreases n - i,
        {
            out.push(Self::parse_fill(&fills[i], symbol));
            i = i + 1;
        }
        out
    }

    /// A request to `/v1/` + `path`. Public requests carry the parameters as
    /// an unencoded query. Private ones carry the key and the time (`ts`) and
    /// are signed with the hex HMAC-SHA256, under the secret, of
    /// [`novadax_auth`]: a POST signs the hex MD5 of its body (`{}` when none)
    /// and sends the body; other methods sign and send the query with keys in
    /// rising order. Absent credentials count as empty.
    pub fn sign(
        &self,
        path: &str,
        api: &str,
        method: &str,
        params: &Vec<(String, String)>,
        body: Option<&str>,
        ts: i64,
    ) -> (r: SignedRequest)
        ensures
            r.method@ == method@,
            api@ != "private"@ ==> {
                &&& r.url@ == (if params@.len() == 0 {
                    NOVADAX_API_URL@ + "/v1/"@ + path@
                } else {
                    NOVADAX_API_URL@ + "/v1/"@ + path@ + "?"@ + query_spec(params@, false)
                })
                &&& r.headers@.len() == 0
                &&& r.body is None
            },
            api@ == "private"@ ==> {
                let key = match self.config.api_key { Some(k) => k@, None => Seq::<char>::empty() };
                let secret = match self.config.secret { Some(k) => k@, None => Seq::<char>::empty() };
                let ts_text = spec_int_to_string(ts as int);
                let post = method@ == "POST"@;
                let content = match body { Some(b) => b@, None => "{}"@ };
                &&& r.headers@.len() == (if post { 4int } else { 3int })
                &&& r.headers@[0].0@ == "X-Nova-Access-Key"@ && r.headers@[0].1@ == key
                &&& r.headers@[1].0@ == "X-Nova-Timestamp"@ && r.headers@[1].1@ == ts_text
                &&& post ==> r.headers@[2].0@ == "Content-Type"@ && r.headers@[2].1@ == "application/json"@
                    && opt_view(r.body) == Some(content) && r.url@ == NOVADAX_API_URL@ + "/v1/"@ + path@
                    && r.headers@[3].0@ == "X-Nova-Signature"@ && r.headers@[3].1@ == spec_hex_lower(
                    spec_hmac_sha256(
                        encode_utf8(secret),
                        encode_utf8(novadax_auth(method@, "/v1/"@ + path@, spec_hex_lower(spec_md5(encode_utf8(content))), ts_text)),
                    ),
                )
                &&& !post ==> exists|sorted: Seq<(String, String)>| {
                    &&& keys_sorted(sorted)
                    &&& #[trigger] sorted.to_multiset() == params@.to_multiset()
                    &&& r.body is None
                    &&& r.url@ == (if sorted.len() == 0 {
                        NOVADAX_API_URL@ + "/v1/"@ + path@
                    } else {
                        NOVADAX_API_URL@ + "/v1/"@ + path@ + "?"@ + query_spec(sorted, false)
                    })
                    &&& r.headers@[2].0@ == "X-Nova-Signature"@
                    &&& r.headers@[2].1@ == spec_hex_lower(
                        spec_hmac_sha256(
                            encode_utf8(secret),
                            encode_utf8(novadax_auth(method@, "/v1/"@ + path@, query_spec(sorted, false), ts_text)),
                        ),
                    )
                }
            },
    {
        let base = concat3(NOVADAX_API_URL, "/v1/", path);
        if !str_eq(api, "private") {
            let url = if params.len() > 0 {
                let q = build_query(params, false);
                concat3(base.as_str(), "?", q.as_str())
            } else {
                base
            };
            return SignedRequest { url, method: copy_str(method), headers: Vec::new(), body: None };
        }
        let key = match self.config.api_key() {
            Some(k) => copy_str(k),
            None => String::new(),
        };
        let secret = match self.config.secret() {
            Some(s) => copy_str(s),
            None => String::new(),
        };
        let ts_text = int_to_string(ts as i128);
        let request_path = concat2("/v1/", path);
        let mut headers: Vec<(String, String)> = Vec::new();
        headers.push((copy_str("X-Nova-Access-Key"), key));
        headers.push((copy_str("X-Nova-Timestamp"), copy_str(ts_text.as_str())));
        if str_eq(method, "POST") {
            let content = match body {
                Some(b) => copy_str(b),
                None => copy_str("{}"),
            };
            let digest = md5_digest(content.as_str().as_bytes());
            let q = hex_encode(digest.as_slice());
            headers.push((copy_str("Content-Type"), copy_str("application/json")));
            let auth = Self::auth_text(method, request_path.as_str(), q.as_str(), ts_text.as_str());
            let mac = hmac_sha256(secret.as_str().as_bytes(), auth.as_str().as_bytes());
            headers.push((copy_str("X-Nova-Signature"), hex_encode(mac.as_slice())));
            SignedRequest { url: base, method: copy_str(method), headers, body: Some(content) }
        } else {
            let mut copy: Vec<(String, String)> = Vec::new();
            let n = params.len();
            let mut i: usize = 0;
            while i < n
                invariant
                    n == params@.len(),
                    i <= n,
                    copy@ == params@.take(i as int),
                decreases n - i,
            {
                let e = (params[i].0.clone(), params[i].1.clone());
                copy.push(e);
                proof {
                    assert(copy@ =~= params@.take(i + 1));
                }
                i = i + 1;
            }
            proof {
                assert(params@.take(n as int) =~= params@);
            }
            let sorted = sort_by_key(copy);
            let q = build_query(&sorted, false);
            let url = if sorted.len() > 0 {
                concat3(base.as_str(), "?", q.as_str())
            } else {
                base
            };
            let auth = Self::auth_text(method, request_path.as_str(), q.as_str(), ts_text.as_str());
            let mac = hmac_sha256(secret.as_str().as_bytes(), auth.as_str().as_bytes());
            headers.push((copy_str("X-Nova-Signature"), hex_encode(mac.as_slice())));
            proof {
                assert(sorted@.to_multiset() == params@.to_multiset());
            }
            SignedRequest { url, method: copy_str(method), headers, body: None }
        }
    }

    /// The message a private request signs.
    pub fn auth_text(method: &str, path: &str, q: &str, ts: &str) -> (r: String)
        ensures
            r@ == novadax_auth(method@, path@, q@, ts@),
    {
        let mut s = copy_str(method);
        push_str(&mut s, "\n");
        push_str(&mut s, path);
        push_str(&mut s, "\n");
        push_str(&mut s, q);
        push_str(&mut s, "\n");
        push_str(&mut s, ts);
        proof {
            assert(s@ =~= novadax_auth(method@, path@, q@, ts@));
        }
        s
    }

    /// The order a cancellation answers with: its id and the symbol asked
    /// about, cancelled, nothing filled and nothing left.
    pub fn cancelled_order(id: &str, symbol: &str) -> (r: Order)
        ensures
            r.no_extras(),
            r.id@ == id@ && r.symbol@ == symbol@,
            r.status == OrderStatus::Canceled && r.order_type == OrderType::Limit && r.side == OrderSide::Buy,
            r.amount == (Dec { mantissa: 0, scale: 0 }) && r.filled == (Dec { mantissa: 0, scale: 0 }),
            r.remaining == Some(Dec { mantissa: 0, scale: 0 }),
            r.timestamp is None && r.datetime is None && r.price is None && r.average is None,
            r.cost is None && r.fee is None && r.client_order_id is None,
    {
        Order {
            id: copy_str(id),
            client_order_id: None,
            timestamp: None,
            datetime: None,
            last_trade_timestamp: None,
            last_update_timestamp: None,
            status: OrderStatus::Canceled,
            symbol: copy_str(symbol),
            order_type: OrderType::Limit,
            time_in_force: None,
            side: OrderSide::Buy,
            price: None,
            average: None,
            amount: Dec::zero(),
            filled: Dec::zero(),
            remaining: Some(Dec::zero()),
            stop_price: None,
            trigger_price: None,
            take_profit_price: None,
            stop_loss_price: None,
            trades: Vec::new(),
            cost: None,
            fee: None,
            reduce_only: None,
            post_only: None,
        }
    }
}

/// The tickers kept from a prefix are a prefix of those kept from the whole.
proof fn lemma_kept_prefix(t: Seq<NovadaxTicker>, req: Option<Seq<Seq<char>>>, i: int)
    requires
        0 <= i <= t.len(),
    ensures
        novadax_kept(t.take(i), req).len() <= novadax_kept(t, req).len(),
        forall|j: int|
            0 <= j < novadax_kept(t.take(i), req).len() ==> #[trigger] novadax_kept(t.take(i), req)[j]
                == novadax_kept(t, req)[j],
{
    assert(t =~= t.take(i) + t.skip(i));
    if let Some(syms) = req {
        Seq::filter_distributes_over_add(
            t.take(i),
            t.skip(i),
            |x: NovadaxTicker| syms.contains(spec_novadax_symbol(x.symbol@)),
        );
    }
}

} // verus!
