//! OX.FUN: derivatives exchange.

use crate::book::{parse_text_levels, text_levels};
use crate::common::{
    change_and_percentage, copy_opt, keyed_insert, lemma_pair_keyed_empty, lemma_pair_keyed_step,
    opt_view, pair_keyed_by_last, param1, push_param, spec_change_pct, texts_of, MarketIndex,
    keys_sorted, sorted_text_object,
};
use crate::crypto::{base64_encode, hmac_sha256, spec_base64_encode, spec_hmac_sha256};
use crate::json::json_text_object;
use crate::dec::{
    checked_op, dec_mul, opt_parts, opt_text_dec, opt_text_dec_or_zero, parse_opt,
    parse_opt_or_zero, spec_dec_mul, spec_dec_parse, spec_dec_to_string, Dec,
};
use crate::text::{
    concat2, concat3, copy_str, find_char, has_sub, int_to_string, push_str, replace_all,
    replace_char, spec_int_to_string, spec_to_lowercase, spec_to_uppercase, split_char,
    split_spec, str_contains, str_eq, to_lowercase, to_uppercase,
};
use crate::time::{iso8601_or_empty, iso8601_or_empty_spec, ymdhms_or_empty, ymdhms_or_empty_spec};
use crate::types::{
    keyed_by_last, lemma_keyed_empty, lemma_keyed_step, Balance, Balances, CcxtError,
    ExchangeConfig, ExchangeFeatures, ExchangeId, ExchangeUrls, Fee, Market, MarketLimits,
    MarketPrecision, MarketType, MinMax, OHLCV, Order, OrderBook, OrderSide, OrderStatus,
    OrderType, SignedRequest, TakerOrMaker, Ticker, Timeframe, Trade, spec_timeframe_name,
};
use vstd::prelude::*;
use vstd::utf8::encode_utf8;

verus! {

/// API address.
pub const OXFUN_API_URL: &'static str = "https://api.ox.fun";

/// Host named in signed messages.
pub const OXFUN_HOST: &'static str = "api.ox.fun";

/// Minimum spacing of requests, in milliseconds.
pub const OXFUN_RATE_LIMIT_MS: u64 = 100;

/// Market as the exchange sends it.
#[derive(Clone, Debug, PartialEq)]
pub struct OxfunMarket {
    pub market_code: String,
    pub name: Option<String>,
    pub reference_pair: Option<String>,
    pub base: Option<String>,
    pub counter: Option<String>,
    pub market_type: Option<String>,
    pub tick_size: Option<String>,
    pub qty_increment: Option<String>,
    pub min_size: Option<String>,
    pub max_size: Option<String>,
    pub margin_currency: Option<String>,
    pub contract_val_currency: Option<String>,
    pub listing_date: Option<i64>,
    pub status: Option<String>,
}

/// Ticker as the exchange sends it.
#[derive(Clone, Debug, PartialEq)]
pub struct OxfunTicker {
    pub market_code: String,
    pub last_price: Option<String>,
    pub mark_price: Option<String>,
    pub high_24h: Option<String>,
    pub low_24h: Option<String>,
    pub volume_24h: Option<String>,
    pub base_volume_24h: Option<String>,
    pub open_24h: Option<String>,
    pub open_interest: Option<String>,
}

/// Public trade as the exchange sends it.
#[derive(Clone, Debug, PartialEq)]
pub struct OxfunTrade {
    pub id: Option<String>,
    pub timestamp: Option<i64>,
    pub price: Option<String>,
    pub amount: Option<String>,
    pub side: Option<String>,
    pub match_type: Option<String>,
}

/// Candle as the exchange sends it.
#[derive(Clone, Debug, PartialEq)]
pub struct OxfunCandle {
    pub timestamp: Option<i64>,
    pub open: Option<String>,
    pub high: Option<String>,
    pub low: Option<String>,
    pub close: Option<String>,
    pub volume: Option<String>,
    pub base_volume: Option<String>,
}

/// Holdings of one currency as the exchange sends them.
#[derive(Clone, Debug, PartialEq)]
pub struct OxfunBalance {
    pub currency: Option<String>,
    pub total: Option<String>,
    pub available: Option<String>,
    pub reserved: Option<String>,
    pub updated_at: Option<i64>,
}

/// Order as the exchange sends it.
#[derive(Clone, Debug, PartialEq)]
pub struct OxfunOrder {
    pub order_id: Option<String>,
    pub client_order_id: Option<String>,
    pub market_code: Option<String>,
    pub side: Option<String>,
    pub order_type: Option<String>,
    pub quantity: Option<String>,
    pub price: Option<String>,
    pub stop_price: Option<String>,
    pub filled: Option<String>,
    pub remaining: Option<String>,
    pub status: Option<String>,
    pub created_at: Option<i64>,
    pub time_in_force: Option<String>,
}

/// Fill of one of the account's orders as the exchange sends it.
#[derive(Clone, Debug, PartialEq)]
pub struct OxfunMyTrade {
    pub trade_id: Option<String>,
    pub order_id: Option<String>,
    pub timestamp: Option<i64>,
    pub market_code: Option<String>,
    pub side: Option<String>,
    pub price: Option<String>,
    pub amount: Option<String>,
    pub fees: Option<String>,
    pub fee_currency: Option<String>,
    pub match_type: Option<String>,
}

/// The OX.FUN adapter.
pub struct Oxfun {
    pub config: ExchangeConfig,
    pub features: ExchangeFeatures,
    pub markets_by_symbol: MarketIndex,
    pub markets_by_id: MarketIndex,
}

/// What OX.FUN offers.
pub open spec fn spec_oxfun_features() -> ExchangeFeatures {
    ExchangeFeatures {
        spot: true,
        swap: true,
        fetch_markets: true,
        fetch_ticker: true,
        fetch_tickers: true,
        fetch_order_book: true,
        fetch_trades: true,
        fetch_ohlcv: true,
        fetch_balance: true,
        create_order: true,
        cancel_order: true,
        fetch_order: true,
        fetch_orders: true,
        fetch_open_orders: true,
        fetch_closed_orders: true,
        fetch_my_trades: true,
        fetch_deposit_address: true,
        withdraw: true,
        fetch_positions: true,
        fetch_funding_rate: true,
        fetch_funding_rate_history: true,
        ..ExchangeFeatures::spec_none()
    }
}

/// Candle length, in seconds as text, of each supported timeframe.
pub open spec fn spec_oxfun_timeframe(tf: Timeframe) -> Option<Seq<char>> {
    match tf {
        Timeframe::Minute1 => Some("60"@),
        Timeframe::Minute5 => Some("300"@),
        Timeframe::Minute15 => Some("900"@),
        Timeframe::Minute30 => Some("1800"@),
        Timeframe::Hour1 => Some("3600"@),
        Timeframe::Hour2 => Some("7200"@),
        Timeframe::Hour4 => Some("14400"@),
        Timeframe::Hour6 => Some("21600"@),
        Timeframe::Hour12 => Some("43200"@),
        Timeframe::Day1 => Some("86400"@),
        _ => None,
    }
}

/// The symbol of a market code: the one recorded for it, else the first
/// two `-`-separated parts joined by `/` (`BTC-USD-SWAP-LIN` gives
/// `BTC/USD`), else the code itself.
pub open spec fn spec_oxfun_symbol(index: MarketIndex, code: Seq<char>) -> Seq<char> {
    match index.spec_get(code) {
        Some(s) => s,
        None => {
            let parts = split_spec(code, '-');
            if parts.len() >= 2 {
                parts[0] + "/"@ + parts[1]
            } else {
                code
            }
        },
    }
}

/// The market code of a symbol: the one recorded for it, else the symbol
/// with `/` replaced by `-`.
pub open spec fn spec_oxfun_market_id(index: MarketIndex, symbol: Seq<char>) -> Seq<char> {
    match index.spec_get(symbol) {
        Some(id) => id,
        None => replace_all(symbol, '/', '-'),
    }
}

/// The quantity step of a market as parts: its text read as a decimal, or
/// 0.00000001 when absent or unreadable.
pub open spec fn oxfun_step_parts(m: OxfunMarket) -> (int, int) {
    match opt_text_dec(m.qty_increment) {
        Some(p) => p,
        None => (1int, 8int),
    }
}

/// Number of digits after the decimal point of a decimal's text (zero when
/// there is none).
pub open spec fn spec_decimal_places(d: Dec) -> int {
    spec_places_of(d.parts())
}

/// The places after the point in the text of a decimal given by its parts.
pub open spec fn spec_places_of(p: (int, int)) -> int {
    let t = spec_dec_to_string(p);
    if t.contains('.') {
        t.len() - crate::text::first_index(t, '.')->0 - 1
    } else {
        0
    }
}

/// Order status of an OX.FUN status word; unknown or absent words are open.
pub open spec fn spec_oxfun_status(s: Option<String>) -> OrderStatus {
    match s {
        Some(w) => if w@ == "FILLED"@ || w@ == "COMPLETED"@ {
            OrderStatus::Closed
        } else if w@ == "CANCELED"@ || w@ == "CANCELLED"@ || w@ == "CANCELED_BY_USER"@ {
            OrderStatus::Canceled
        } else if w@ == "EXPIRED"@ {
            OrderStatus::Expired
        } else if w@ == "REJECTED"@ {
            OrderStatus::Rejected
        } else {
            OrderStatus::Open
        },
        None => OrderStatus::Open,
    }
}

/// An order is closed exactly when its status is `FILLED` or `COMPLETED`,
/// canceled exactly when it is `CANCELED`, `CANCELLED` or `CANCELED_BY_USER`,
/// expired exactly when it is `EXPIRED`, and rejected exactly when it is
/// `REJECTED`.
pub proof fn law_status_words(s: Option<String>)
    ensures
        spec_oxfun_status(s) == OrderStatus::Closed <==> (opt_view(s) == Some("FILLED"@) || opt_view(s) == Some("COMPLETED"@)),
        spec_oxfun_status(s) == OrderStatus::Canceled <==> (opt_view(s) == Some("CANCELED"@) || opt_view(s) == Some("CANCELLED"@) || opt_view(s) == Some("CANCELED_BY_USER"@)),
        spec_oxfun_status(s) == OrderStatus::Expired <==> (opt_view(s) == Some("EXPIRED"@)),
        spec_oxfun_status(s) == OrderStatus::Rejected <==> (opt_view(s) == Some("REJECTED"@)),
{
    reveal_strlit("FILLED");
    reveal_strlit("COMPLETED");
    reveal_strlit("CANCELED");
    reveal_strlit("CANCELLED");
    reveal_strlit("CANCELED_BY_USER");
    reveal_strlit("EXPIRED");
    reveal_strlit("REJECTED");
    assert("FILLED"@.len() != "COMPLETED"@.len());
    assert("FILLED"@.len() != "CANCELED"@.len());
    assert("FILLED"@.len() != "CANCELLED"@.len());
    assert("FILLED"@.len() != "CANCELED_BY_USER"@.len());
    assert("FILLED"@.len() != "EXPIRED"@.len());
    assert("FILLED"@.len() != "REJECTED"@.len());
    assert("COMPLETED"@.len() != "CANCELED"@.len());
    assert("COMPLETED"@[1] != "CANCELLED"@[1]);
    assert("COMPLETED"@.len() != "CANCELED_BY_USER"@.len());
    assert("COMPLETED"@.len() != "EXPIRED"@.len());
    assert("COMPLETED"@.len() != "REJECTED"@.len());
    assert("CANCELED"@.len() != "CANCELLED"@.len());
    assert("CANCELED"@.len() != "CANCELED_BY_USER"@.len());
    assert("CANCELED"@.len() != "EXPIRED"@.len());
    assert("CANCELED"@[0] != "REJECTED"@[0]);
    assert("CANCELLED"@.len() != "CANCELED_BY_USER"@.len());
    assert("CANCELLED"@.len() != "EXPIRED"@.len());
    assert("CANCELLED"@.len() != "REJECTED"@.len());
    assert("CANCELED_BY_USER"@.len() != "EXPIRED"@.len());
    assert("CANCELED_BY_USER"@.len() != "REJECTED"@.len());
    assert("EXPIRED"@.len() != "REJECTED"@.len());
}

/// Order type of an OX.FUN type word (stop orders count as their base type).
pub open spec fn spec_oxfun_type(s: Option<String>) -> OrderType {
    match s {
        Some(w) => if w@ == "MARKET"@ || w@ == "STOP_MARKET"@ {
            OrderType::Market
        } else {
            OrderType::Limit
        },
        None => OrderType::Limit,
    }
}

/// Liquidity role of an OX.FUN match type.
pub open spec fn spec_oxfun_role(s: Option<String>) -> Option<TakerOrMaker> {
    match s {
        Some(w) => if w@ == "TAKER"@ {
            Some(TakerOrMaker::Taker)
        } else if w@ == "MAKER"@ {
            Some(TakerOrMaker::Maker)
        } else {
            None
        },
        None => None,
    }
}

/// The message an authenticated request signs.
pub open spec fn oxfun_message(ts: Seq<char>, nonce: Seq<char>, method: Seq<char>, path: Seq<char>, body: Seq<char>) -> Seq<char> {
    ts + "\n"@ + nonce + "\n"@ + method + "\n"@ + OXFUN_HOST@ + "\n"@ + path + "\n"@ + body
}

/// The message an authenticated request signs has six lines, in this
/// order: the time, the nonce, the method, the API host, the path and the
/// body. Each line stands at its place and each but the last ends in a
/// newline.
pub proof fn law_message_lines(ts: Seq<char>, nonce: Seq<char>, method: Seq<char>, path: Seq<char>, body: Seq<char>, r: Seq<char>)
    requires
        r == oxfun_message(ts, nonce, method, path, body),
    ensures
        r.len() == ts.len() + nonce.len() + method.len() + OXFUN_HOST@.len() + path.len() + body.len() + 5,
        r.take(ts.len() as int) == ts,
        r[ts.len() as int] == '\n',
        r.subrange(ts.len() + 1int, ts.len() + 1int + nonce.len()) == nonce,
        r[ts.len() + 1int + nonce.len()] == '\n',
        r.subrange(ts.len() + nonce.len() + 2int, ts.len() + nonce.len() + 2int + method.len()) == method,
        r[ts.len() + nonce.len() + 2int + method.len()] == '\n',
        r.subrange(ts.len() + nonce.len() + method.len() + 3int, ts.len() + nonce.len() + method.len() + 3int
            + OXFUN_HOST@.len()) == OXFUN_HOST@,
        r[ts.len() + nonce.len() + method.len() + 3int + OXFUN_HOST@.len()] == '\n',
        r.subrange(ts.len() + nonce.len() + method.len() + OXFUN_HOST@.len() + 4int, ts.len() + nonce.len()
            + method.len() + OXFUN_HOST@.len() + 4int + path.len()) == path,
        r[ts.len() + nonce.len() + method.len() + OXFUN_HOST@.len() + 4int + path.len()] == '\n',
        r.skip(ts.len() + nonce.len() + method.len() + OXFUN_HOST@.len() + path.len() + 5int) == body,
{
    reveal_strlit("\n");
    let a = ts.len() as int;
    let b = nonce.len() as int;
    let c = method.len() as int;
    let h = OXFUN_HOST@.len() as int;
    let p = path.len() as int;
    assert(r.take(a) =~= ts);
    assert(r.subrange(a + 1, a + 1 + b) =~= nonce);
    assert(r.subrange(a + b + 2, a + b + 2 + c) =~= method);
    assert(r.subrange(a + b + c + 3, a + b + c + 3 + h) =~= OXFUN_HOST@);
    assert(r.subrange(a + b + c + h + 4, a + b + c + h + 4 + p) =~= path);
    assert(r.skip(a + b + c + h + p + 5) =~= body);
}

/// The signature of a message under a secret: base64 of its HMAC-SHA256.
pub open spec fn oxfun_signature(secret: Seq<char>, msg: Seq<char>) -> Seq<char> {
    spec_base64_encode(spec_hmac_sha256(encode_utf8(secret), encode_utf8(msg)))
}

/// An OX.FUN order read into a unified order.
pub open spec fn spec_oxfun_order_ok(index: MarketIndex, o: OxfunOrder, r: Order) -> bool {
    &&& r.id@ == (match o.order_id { Some(i) => i@, None => Seq::<char>::empty() })
    &&& opt_view(r.client_order_id) == opt_view(o.client_order_id)
    &&& r.symbol@ == spec_oxfun_symbol(index, match o.market_code { Some(c) => c@, None => Seq::<char>::empty() })
    &&& r.side == (if o.side matches Some(w) && w@ == "SELL"@ { OrderSide::Sell } else { OrderSide::Buy })
    &&& r.order_type == spec_oxfun_type(o.order_type)
    &&& r.status == spec_oxfun_status(o.status)
    &&& r.timestamp == o.created_at
    &&& opt_view(r.datetime) == (match o.created_at {
        Some(t) => Some(iso8601_or_empty_spec(t as int)),
        None => None,
    })
    &&& r.amount.parts() == opt_text_dec_or_zero(o.quantity)
    &&& opt_parts(r.price) == opt_text_dec(o.price)
    &&& r.filled.parts() == opt_text_dec_or_zero(o.filled)
    &&& opt_parts(r.remaining) == opt_text_dec(o.remaining)
    &&& opt_parts(r.stop_price) == opt_text_dec(o.stop_price)
    &&& match r.price {
        Some(p) => opt_parts(r.cost) == checked_op(r.filled, p, |x: (int, int), y: (int, int)| spec_dec_mul(x, y)),
        None => r.cost is None,
    }
    &&& r.average is None && r.fee is None && r.time_in_force is None && r.trigger_price is None
    &&& r.no_extras()
}

/// A public OX.FUN trade read into a unified trade.
pub open spec fn spec_oxfun_trade_ok(t: OxfunTrade, symbol: Seq<char>, r: Trade) -> bool {
    &&& r.id@ == (match t.id { Some(i) => i@, None => Seq::<char>::empty() })
    &&& r.timestamp == t.timestamp
    &&& opt_view(r.datetime) == (match t.timestamp {
        Some(ts) => Some(iso8601_or_empty_spec(ts as int)),
        None => None,
    })
    &&& r.symbol@ == symbol
    &&& opt_view(r.side) == (match t.side {
        Some(s) => if s@.len() == 0 { None } else { Some(spec_to_lowercase(s@)) },
        None => None,
    })
    &&& r.taker_or_maker == spec_oxfun_role(t.match_type)
    &&& r.price.parts() == opt_text_dec_or_zero(t.price)
    &&& r.amount.parts() == opt_text_dec_or_zero(t.amount)
    &&& opt_parts(r.cost) == checked_op(r.price, r.amount, |x: (int, int), y: (int, int)| spec_dec_mul(x, y))
    &&& r.order is None && r.fee is None
}

/// An OX.FUN ticker read into a unified ticker at time `now`.
pub open spec fn spec_oxfun_ticker_ok(index: MarketIndex, t: OxfunTicker, now: i64, r: Ticker) -> bool {
    let (change, pct) = spec_change_pct(r.last, r.open);
    &&& r.symbol@ == spec_oxfun_symbol(index, t.market_code@)
    &&& r.timestamp == Some(now)
    &&& opt_view(r.datetime) == Some(iso8601_or_empty_spec(now as int))
    &&& opt_parts(r.last) == opt_text_dec(t.last_price)
    &&& r.close == r.last
    &&& opt_parts(r.high) == opt_text_dec(t.high_24h)
    &&& opt_parts(r.low) == opt_text_dec(t.low_24h)
    &&& opt_parts(r.open) == opt_text_dec(t.open_24h)
    &&& opt_parts(r.quote_volume) == opt_text_dec(t.volume_24h)
    &&& opt_parts(r.base_volume) == opt_text_dec(t.base_volume_24h)
    &&& opt_parts(r.change) == change
    &&& opt_parts(r.percentage) == pct
    &&& r.bid is None && r.ask is None && r.bid_volume is None && r.ask_volume is None
    &&& r.vwap is None && r.previous_close is None && r.average is None
    &&& r.index_price is None && r.mark_price is None
}

/// Whether a candle reads: it has a time and readable prices, and a volume
/// (or, failing that, a base volume) that reads.
pub open spec fn oxfun_candle_reads(c: OxfunCandle) -> bool {
    &&& c.timestamp is Some
    &&& opt_text_dec(c.open) is Some
    &&& opt_text_dec(c.high) is Some
    &&& opt_text_dec(c.low) is Some
    &&& opt_text_dec(c.close) is Some
    &&& opt_text_dec(if c.volume is Some { c.volume } else { c.base_volume }) is Some
}

/// A readable candle read into a candle.
pub open spec fn spec_oxfun_candle_ok(c: OxfunCandle, r: OHLCV) -> bool {
    &&& c.timestamp == Some(r.timestamp)
    &&& opt_text_dec(c.open) == Some(r.open.parts())
    &&& opt_text_dec(c.high) == Some(r.high.parts())
    &&& opt_text_dec(c.low) == Some(r.low.parts())
    &&& opt_text_dec(c.close) == Some(r.close.parts())
    &&& opt_text_dec(if c.volume is Some { c.volume } else { c.base_volume }) == Some(r.volume.parts())
}

/// Candles that read.
pub open spec fn oxfun_candles(rows: Seq<OxfunCandle>) -> Seq<OxfunCandle> {
    rows.filter(|c: OxfunCandle| oxfun_candle_reads(c))
}

/// Balance entries that name their currency.
pub open spec fn oxfun_named(rows: Seq<OxfunBalance>) -> Seq<OxfunBalance> {
    rows.filter(|b: OxfunBalance| b.currency is Some)
}

/// An OX.FUN balance read into a unified balance (absent figures as zero).
pub open spec fn spec_oxfun_balance_ok(b: OxfunBalance, r: Balance) -> bool {
    &&& r.free matches Some(f) && f.parts() == opt_text_dec_or_zero(b.available)
    &&& r.used matches Some(u) && u.parts() == opt_text_dec_or_zero(b.reserved)
    &&& r.total matches Some(t) && t.parts() == opt_text_dec_or_zero(b.total)
}

/// Tickers whose symbol is requested (all when no list is given).
pub open spec fn oxfun_ticker_kept(index: MarketIndex, rows: Seq<OxfunTicker>, symbols: Option<Seq<Seq<char>>>) -> Seq<OxfunTicker> {
    match symbols {
        Some(s) => rows.filter(|t: OxfunTicker| s.contains(spec_oxfun_symbol(index, t.market_code@))),
        None => rows,
    }
}

impl Oxfun {
    /// Creates the adapter; it holds the configuration and knows no market yet.
    pub fn new(config: ExchangeConfig) -> (r: Result<Oxfun, CcxtError>)
        ensures
            r matches Ok(x) && x.config == config && x.features == spec_oxfun_features()
                && x.markets_by_symbol.entries@.len() == 0 && x.markets_by_id.entries@.len() == 0,
    {
        let features = ExchangeFeatures {
            spot: true,
            swap: true,
            fetch_markets: true,
            fetch_ticker: true,
            fetch_tickers: true,
            fetch_order_book: true,
            fetch_trades: true,
            fetch_ohlcv: true,
            fetch_balance: true,
            create_order: true,
            cancel_order: true,
            fetch_order: true,
            fetch_orders: true,
            fetch_open_orders: true,
            fetch_closed_orders: true,
            fetch_my_trades: true,
            fetch_deposit_address: true,
            withdraw: true,
            fetch_positions: true,
            fetch_funding_rate: true,
            fetch_funding_rate_history: true,
            ..ExchangeFeatures::none()
        };
        Ok(
            Oxfun {
                config,
                features,
                markets_by_symbol: MarketIndex::new(),
                markets_by_id: MarketIndex::new(),
            },
        )
    }

    /// The exchange's identity.
    pub fn id(&self) -> (r: ExchangeId)
        ensures
            r == ExchangeId::Oxfun,
    {
        ExchangeId::Oxfun
    }

    /// The exchange's display name.
    pub fn name(&self) -> (r: &'static str)
        ensures
            r@ == "OX.FUN"@,
    {
        "OX.FUN"
    }

    /// What the exchange offers.
    pub fn has(&self) -> (r: &ExchangeFeatures)
        ensures
            *r == self.features,
    {
        &self.features
    }

    /// Minimum spacing of requests, in milliseconds.
    pub fn rate_limit(&self) -> (r: u64)
        ensures
            r == OXFUN_RATE_LIMIT_MS,
    {
        OXFUN_RATE_LIMIT_MS
    }

    /// Web addresses of the exchange.
    pub fn urls(&self) -> (r: ExchangeUrls)
        ensures
            opt_view(r.logo) == Some("https://github.com/user-attachments/assets/oxfun-logo.png"@),
            r.api@.len() == 2,
            r.api@[0].0@ == "public"@ && r.api@[0].1@ == OXFUN_API_URL@,
            r.api@[1].0@ == "private"@ && r.api@[1].1@ == OXFUN_API_URL@,
            opt_view(r.www) == Some("https://ox.fun"@),
            r.doc@.len() == 1 && r.doc@[0]@ == "https://docs.ox.fun/"@,
            opt_view(r.fees) == Some("https://ox.fun/fees"@),
    {
        let mut api: Vec<(String, String)> = Vec::new();
        api.push((copy_str("public"), copy_str(OXFUN_API_URL)));
        api.push((copy_str("private"), copy_str(OXFUN_API_URL)));
        let mut doc: Vec<String> = Vec::new();
        doc.push(copy_str("https://docs.ox.fun/"));
        ExchangeUrls {
            logo: Some(copy_str("https://github.com/user-attachments/assets/oxfun-logo.png")),
            api,
            www: Some(copy_str("https://ox.fun")),
            doc,
            fees: Some(copy_str("https://ox.fun/fees")),
        }
    }

    /// Candle length text of a timeframe, when offered.
    pub fn timeframe(tf: Timeframe) -> (r: Option<&'static str>)
        ensures
            match r {
                Some(s) => spec_oxfun_timeframe(tf) == Some(s@),
                None => spec_oxfun_timeframe(tf) is None,
            },
    {
        match tf {
            Timeframe::Minute1 => Some("60"),
            Timeframe::Minute5 => Some("300"),
            Timeframe::Minute15 => Some("900"),
            Timeframe::Minute30 => Some("1800"),
            Timeframe::Hour1 => Some("3600"),
            Timeframe::Hour2 => Some("7200"),
            Timeframe::Hour4 => Some("14400"),
            Timeframe::Hour6 => Some("21600"),
            Timeframe::Hour12 => Some("43200"),
            Timeframe::Day1 => Some("86400"),
            _ => None,
        }
    }

    /// The supported timeframes with their candle length texts.
    pub fn timeframes(&self) -> (r: Vec<(Timeframe, &'static str)>)
        ensures
            forall|tf: Timeframe| spec_oxfun_timeframe(tf) is Some ==> exists|k: int| 0 <= k < r@.len() && (#[trigger] r@[k]).0 == tf && Some(r@[k].1@) == spec_oxfun_timeframe(tf),
            forall|k: int| 0 <= k < r@.len() ==> Some((#[trigger] r@[k]).1@) == spec_oxfun_timeframe(r@[k].0),
    {
        let all: Vec<Timeframe> = vec![
            Timeframe::Minute1,
            Timeframe::Minute5,
            Timeframe::Minute15,
            Timeframe::Minute30,
            Timeframe::Hour1,
            Timeframe::Hour2,
            Timeframe::Hour4,
            Timeframe::Hour6,
            Timeframe::Hour12,
            Timeframe::Day1,
        ];
        let mut out: Vec<(Timeframe, &'static str)> = Vec::new();
        let n = all.len();
        let mut i: usize = 0;
        while i < n
            invariant
                n == all@.len(),
                all@ == seq![
                    Timeframe::Minute1,
                    Timeframe::Minute5,
                    Timeframe::Minute15,
                    Timeframe::Minute30,
                    Timeframe::Hour1,
                    Timeframe::Hour2,
                    Timeframe::Hour4,
                    Timeframe::Hour6,
                    Timeframe::Hour12,
                    Timeframe::Day1,
                ],
                i <= n,
                out@.len() == i,
                forall|k: int| 0 <= k < i ==> (#[trigger] out@[k]).0 == all@[k] && Some(out@[k].1@) == spec_oxfun_timeframe(all@[k]),
            decreases n - i,
        {
            let tf = all[i];
            match Self::timeframe(tf) {
                Some(t) => {
                    out.push((tf, t));
                },
                None => {
                    proof {
                        assert(false);
                    }
                    out.push((tf, ""));
                },
            }
            i = i + 1;
        }
        proof {
            assert forall|tf: Timeframe| spec_oxfun_timeframe(tf) is Some implies exists|k: int| 0 <= k < out@.len() && (#[trigger] out@[k]).0 == tf && Some(out@[k].1@) == spec_oxfun_timeframe(tf) by {
                let k: int = match tf {
                    Timeframe::Minute1 => 0,
                    Timeframe::Minute5 => 1,
                    Timeframe::Minute15 => 2,
                    Timeframe::Minute30 => 3,
                    Timeframe::Hour1 => 4,
                    Timeframe::Hour2 => 5,
                    Timeframe::Hour4 => 6,
                    Timeframe::Hour6 => 7,
                    Timeframe::Hour12 => 8,
                    _ => 9,
                };
                assert(out@[k].0 == tf);
            }
        }
        out
    }

    /// The symbol of a market code (see [`spec_oxfun_symbol`]).
    pub fn safe_symbol(&self, market_id: &str) -> (r: String)
        ensures
            r@ == spec_oxfun_symbol(self.markets_by_id, market_id@),
    {
        match self.markets_by_id.get(market_id) {
            Some(s) => s,
            None => {
                let parts = split_char(market_id, '-');
                if parts.len() >= 2 {
                    concat3(parts[0].as_str(), "/", parts[1].as_str())
                } else {
                    copy_str(market_id)
                }
            },
        }
    }

    /// The market code of a symbol (see [`spec_oxfun_market_id`]).
    pub fn safe_market_id(&self, symbol: &str) -> (r: String)
        ensures
            r@ == spec_oxfun_market_id(self.markets_by_symbol, symbol@),
    {
        match self.markets_by_symbol.get(symbol) {
            Some(id) => id,
            None => replace_char(symbol, '/', '-'),
        }
    }

    /// Parameters of a candle request: the market code, the candle length,
    /// then the start and the limit when given. A timeframe OX.FUN lacks is
    /// refused.
    pub fn ohlcv_params(&self, symbol: &str, timeframe: Timeframe, since: Option<i64>, limit: Option<u32>) -> (r:
        Result<Vec<(String, String)>, CcxtError>)
        ensures
            r is Err <==> spec_oxfun_timeframe(timeframe) is None,
            r matches Err(e) ==> (e matches CcxtError::NotSupported { feature } && feature@ == "Timeframe "@
                + spec_timeframe_name(timeframe)),
            r matches Ok(p) ==> {
                &&& p@.len() == 2 + (if since is Some { 1int } else { 0int }) + (if limit is Some { 1int } else { 0int })
                &&& p@[0].0@ == "marketCode"@ && p@[0].1@ == spec_oxfun_market_id(self.markets_by_symbol, symbol@)
                &&& p@[1].0@ == "timeframe"@ && Some(p@[1].1@) == spec_oxfun_timeframe(timeframe)
                &&& since matches Some(t) ==> p@[2].0@ == "startTime"@ && p@[2].1@ == spec_int_to_string(t as int)
                &&& limit matches Some(l) ==> p@.last().0@ == "limit"@ && p@.last().1@ == spec_int_to_string(l as int)
            },
    {
        let tf = match Self::timeframe(timeframe) {
            Some(t) => t,
            None => {
                return Err(CcxtError::NotSupported { feature: concat2("Timeframe ", timeframe.name()) });
            },
        };
        let mut p = param1("marketCode", self.safe_market_id(symbol));
        push_param(&mut p, "timeframe", copy_str(tf));
        if let Some(t) = since {
            push_param(&mut p, "startTime", int_to_string(t as i128));
        }
        if let Some(l) = limit {
            push_param(&mut p, "limit", int_to_string(l as i128));
        }
        Ok(p)
    }

    /// The market code of a symbol, when the market is loaded.
    pub fn market_id(&self, symbol: &str) -> (r: Option<String>)
        ensures
            opt_view(r) == self.markets_by_symbol.spec_get(symbol@),
    {
        self.markets_by_symbol.get(symbol)
    }

    /// The symbol of a market code, when the market is loaded.
    pub fn symbol(&self, market_id: &str) -> (r: Option<String>)
        ensures
            opt_view(r) == self.markets_by_id.spec_get(market_id@),
    {
        self.markets_by_id.get(market_id)
    }

    /// Records markets by symbol and by id, replacing what was known.
    pub fn store_markets(&mut self, markets: &Vec<Market>)
        ensures
            final(self).markets_by_symbol.entries@.len() == markets@.len(),
            final(self).markets_by_id.entries@.len() == markets@.len(),
            forall|k: int|
                0 <= k < markets@.len() ==> (#[trigger] final(self).markets_by_id.entries@[k]).0@
                    == markets@[k].id@ && final(self).markets_by_id.entries@[k].1@
                    == markets@[k].symbol@ && final(self).markets_by_symbol.entries@[k].0@
                    == markets@[k].symbol@ && final(self).markets_by_symbol.entries@[k].1@
                    == markets@[k].id@,
            final(self).config == old(self).config,
            final(self).features == old(self).features,
    {
        self.markets_by_symbol = crate::common::index_markets(markets, false);
        self.markets_by_id = crate::common::index_markets(markets, true);
    }

    /// Digits after the decimal point of a number's text.
    pub fn decimal_places(value: &Dec) -> (r: i32)
        requires
            value.wf(),
        ensures
            spec_dec_to_string(value.parts()).len() <= 1000 ==> r == spec_decimal_places(*value),
    {
        let s = value.to_text();
        let n = s.as_str().unicode_len();
        match find_char(s.as_str(), '.') {
            Some(pos) => {
                proof {
                    let t = s@;
                    assert(t.contains('.'));
                    let fi = crate::text::first_index(t, '.');
                    assert(exists|i: int| 0 <= i < t.len() && t[i] == '.');
                    let c = choose|i: int| 0 <= i < t.len() && t[i] == '.' && forall|j: int| 0 <= j < i ==> t[j] != '.';
                    assert(0 <= pos < t.len() && t[pos as int] == '.' && forall|j: int| 0 <= j < pos ==> t[j] != '.');
                    assert(c == pos as int) by {
                        if c < pos {
                            assert(t[c] != '.');
                        } else if c > pos {
                            assert(t[pos as int] != '.');
                        }
                    }
                }
                if n <= 1000 {
                    (n - pos - 1) as i32
                } else {
                    0
                }
            },
            None => 0,
        }
    }
}

/// Whether an OX.FUN market is a perpetual swap: its code names `SWAP` or
/// its type is `FUTURE`.
pub open spec fn oxfun_is_swap(m: OxfunMarket) -> bool {
    has_sub(m.market_code@, "SWAP"@) || (m.market_type matches Some(t) && t@ == "FUTURE"@)
}

/// Whether an OX.FUN market is linear: its code names `LIN` or its type
/// names `LINEAR`.
pub open spec fn oxfun_is_linear(m: OxfunMarket) -> bool {
    has_sub(m.market_code@, "LIN"@) || (m.market_type matches Some(t) && has_sub(t@, "LINEAR"@))
}

/// An OX.FUN market read into a unified market: a swap when its code holds
/// `SWAP` or its type is `FUTURE`; base and quote from the market, else
/// from the first two parts of its code; tick size and quantity step
/// default to 0.00000001 and give the price and amount precision; a halted
/// market is inactive.
pub open spec fn spec_oxfun_market_ok(m: OxfunMarket, r: Market) -> bool {
    &&& ({
        let parts = split_spec(m.market_code@, '-');
        let base = match m.base { Some(b) => b@, None => parts[0] };
        let quote = match m.counter { Some(q) => q@, None => if parts.len() >= 2 { parts[1] } else { Seq::<char>::empty() } };
        let swap = oxfun_is_swap(m);
        let linear = oxfun_is_linear(m);
        &&& r.id@ == m.market_code@
        &&& opt_view(r.lowercase_id) == Some(spec_to_lowercase(m.market_code@))
        &&& r.symbol@ == base + "/"@ + quote
        &&& r.base@ == base && r.quote@ == quote && r.base_id@ == base && r.quote_id@ == quote
        &&& opt_view(r.settle) == opt_view(m.margin_currency)
        &&& r.active == !(m.status matches Some(s) && s@ == "HALTED"@)
        &&& r.market_type == (if swap { MarketType::Swap } else { MarketType::Spot })
        &&& r.spot == !swap && r.swap == swap && r.contract == swap && !r.margin && !r.future
        &&& r.linear == Some(linear) && r.inverse == Some(!linear && swap)
        &&& r.contract_size == (if swap { Some(Dec { mantissa: 1, scale: 0 }) } else { None })
        &&& r.created == m.listing_date
        &&& r.taker is None && r.maker is None
        &&& opt_parts(r.limits.amount.min) == opt_text_dec(m.min_size)
        &&& opt_parts(r.limits.amount.max) == opt_text_dec(m.max_size)
        &&& r.limits.price.min matches Some(t) && Some(t.parts()) == (match opt_text_dec(m.tick_size) {
            Some(p) => Some(p),
            None => Some((1int, 8int)),
        })
        &&& r.limits.price.max is None
        &&& (spec_dec_to_string(r.limits.price.min->0.parts()).len() <= 1000 ==> r.precision.price == Some(spec_decimal_places(r.limits.price.min->0) as i32))
        &&& r.precision.quote == r.precision.price && r.precision.base == r.precision.amount
        &&& (spec_dec_to_string(oxfun_step_parts(m)).len() <= 1000 ==> r.precision.amount
            == Some(spec_places_of(oxfun_step_parts(m)) as i32))
        &&& r.precision.cost is None
        &&& r.limits.cost == (MinMax { min: None, max: None })
        &&& r.limits.leverage == (MinMax { min: None, max: None })
    })
}

impl Oxfun {
    /// Unified market of an OX.FUN market. Base and quote come from the
    /// market, else from the first two parts of its code; tick size and
    /// quantity step default to 0.00000001 and give the price and amount
    /// precision; a halted market is inactive.
    pub fn parse_market(m: &OxfunMarket) -> (r: Market)
        ensures
            spec_oxfun_market_ok(*m, r),
    {
        let parts = split_char(m.market_code.as_str(), '-');
        proof {
            crate::text::lemma_split_nonempty(m.market_code@, '-');
        }
        let base = match &m.base {
            Some(b) => copy_str(b.as_str()),
            None => copy_str(parts[0].as_str()),
        };
        let quote = match &m.counter {
            Some(q) => copy_str(q.as_str()),
            None => if parts.len() >= 2 {
                copy_str(parts[1].as_str())
            } else {
                String::new()
            },
        };
        let is_swap = str_contains(m.market_code.as_str(), "SWAP") || match &m.market_type {
            Some(t) => str_eq(t.as_str(), "FUTURE"),
            None => false,
        };
        let is_linear = str_contains(m.market_code.as_str(), "LIN") || match &m.market_type {
            Some(t) => str_contains(t.as_str(), "LINEAR"),
            None => false,
        };
        let tick = match parse_opt(&m.tick_size) {
            Some(t) => t,
            None => Dec::new(1, 8),
        };
        let step = match parse_opt(&m.qty_increment) {
            Some(t) => t,
            None => Dec::new(1, 8),
        };
        let price_precision = Self::decimal_places(&tick);
        let amount_precision = Self::decimal_places(&step);
        let active = match &m.status {
            Some(st) => !str_eq(st.as_str(), "HALTED"),
            None => true,
        };
        Market {
            id: copy_str(m.market_code.as_str()),
            lowercase_id: Some(to_lowercase(m.market_code.as_str())),
            symbol: concat3(base.as_str(), "/", quote.as_str()),
            base: copy_str(base.as_str()),
            quote: copy_str(quote.as_str()),
            base_id: base,
            quote_id: quote,
            settle: copy_opt(&m.margin_currency),
            active,
            market_type: if is_swap {
                MarketType::Swap
            } else {
                MarketType::Spot
            },
            spot: !is_swap,
            margin: false,
            swap: is_swap,
            future: false,
            contract: is_swap,
            linear: Some(is_linear),
            inverse: Some(!is_linear && is_swap),
            contract_size: if is_swap {
                Some(Dec::from_i64(1))
            } else {
                None
            },
            created: m.listing_date,
            taker: None,
            maker: None,
            precision: MarketPrecision {
                amount: Some(amount_precision),
                price: Some(price_precision),
                cost: None,
                base: Some(amount_precision),
                quote: Some(price_precision),
            },
            limits: MarketLimits {
                amount: MinMax { min: parse_opt(&m.min_size), max: parse_opt(&m.max_size) },
                price: MinMax { min: Some(tick), max: None },
                cost: MinMax { min: None, max: None },
                leverage: MinMax { min: None, max: None },
            },
        }
    }

    /// Unified markets of OX.FUN markets, in order.
    pub fn parse_markets(rows: &Vec<OxfunMarket>) -> (r: Vec<Market>)
        ensures
            r@.len() == rows@.len(),
            forall|k: int| 0 <= k < r@.len() ==> spec_oxfun_market_ok(rows@[k], #[trigger] r@[k]),
    {
        let mut out: Vec<Market> = Vec::new();
        let n = rows.len();
        let mut i: usize = 0;
        while i < n
            invariant
                n == rows@.len(),
                i <= n,
                out@.len() == i,
                forall|k: int| 0 <= k < i ==> spec_oxfun_market_ok(rows@[k], #[trigger] out@[k]),
            decreases n - i,
        {
            out.push(Self::parse_market(&rows[i]));
            i = i + 1;
        }
        out
    }

    /// Unified ticker of an OX.FUN ticker, read at time `now`.
    pub fn parse_ticker(&self, t: &OxfunTicker, now: i64) -> (r: Ticker)
        ensures
            spec_oxfun_ticker_ok(self.markets_by_id, *t, now, r),
    {
        let last = parse_opt(&t.last_price);
        let open = parse_opt(&t.open_24h);
        let (change, percentage) = change_and_percentage(last, open);
        Ticker {
            symbol: self.safe_symbol(t.market_code.as_str()),
            timestamp: Some(now),
            datetime: Some(iso8601_or_empty(now)),
            high: parse_opt(&t.high_24h),
            low: parse_opt(&t.low_24h),
            bid: None,
            bid_volume: None,
            ask: None,
            ask_volume: None,
            vwap: None,
            open,
            close: last,
            last,
            previous_close: None,
            change,
            percentage,
            average: None,
            base_volume: parse_opt(&t.base_volume_24h),
            quote_volume: parse_opt(&t.volume_24h),
            index_price: None,
            mark_price: None,
        }
    }

    /// Whether a symbol is among the requested ones.
    fn wanted(symbols: &Vec<String>, symbol: &str) -> (r: bool)
        ensures
            r == texts_of(symbols@).contains(symbol@),
    {
        let n = symbols.len();
        let mut i: usize = 0;
        while i < n
            invariant
                n == symbols@.len(),
                i <= n,
                forall|j: int| 0 <= j < i ==> symbols@[j]@ != symbol@,
            decreases n - i,
        {
            if str_eq(symbols[i].as_str(), symbol) {
                assert(texts_of(symbols@)[i as int] == symbol@);
                return true;
            }
            i = i + 1;
        }
        proof {
            if texts_of(symbols@).contains(symbol@) {
                let j = choose|j: int| 0 <= j < n && #[trigger] texts_of(symbols@)[j] == symbol@;
                assert(symbols@[j]@ == symbol@);
            }
        }
        false
    }

    /// Unified tickers keyed by symbol; only requested symbols are kept when
    /// a list is given, and a later ticker of a symbol replaces an earlier one.
    pub fn parse_tickers(&self, tickers: &Vec<OxfunTicker>, symbols: Option<&Vec<String>>, now: i64) -> (r: Vec<(String, Ticker)>)
        ensures
            ({
                let req = match symbols {
                    Some(v) => Some(texts_of(v@)),
                    None => None,
                };
                let kept = oxfun_ticker_kept(self.markets_by_id, tickers@, req);
                pair_keyed_by_last(
                    kept.map_values(|t: OxfunTicker| spec_oxfun_symbol(self.markets_by_id, t.market_code@)),
                    r@,
                    |i: int, x: Ticker| spec_oxfun_ticker_ok(self.markets_by_id, kept[i], now, x),
                )
            }),
    {
        let ghost req = match symbols {
            Some(v) => Some(texts_of(v@)),
            None => None,
        };
        let ghost idx = self.markets_by_id;
        let ghost kept = oxfun_ticker_kept(idx, tickers@, req);
        let ghost ok = |i: int, x: Ticker| spec_oxfun_ticker_ok(idx, kept[i], now, x);
        let mut result: Vec<(String, Ticker)> = Vec::new();
        let n = tickers.len();
        let mut k: usize = 0;
        proof {
            lemma_pair_keyed_empty(ok);
            assert(oxfun_ticker_kept(idx, tickers@.take(0), req) =~= Seq::<OxfunTicker>::empty());
            assert(oxfun_ticker_kept(idx, tickers@.take(0), req).map_values(|t: OxfunTicker| spec_oxfun_symbol(idx, t.market_code@)) =~= Seq::<Seq<char>>::empty());
            assert(result@ =~= Seq::<(String, Ticker)>::empty());
        }
        while k < n
            invariant
                n == tickers@.len(),
                k <= n,
                idx == self.markets_by_id,
                req == (match symbols {
                    Some(v) => Some(texts_of(v@)),
                    None => None,
                }),
                kept == oxfun_ticker_kept(idx, tickers@, req),
                ok == (|i: int, x: Ticker| spec_oxfun_ticker_ok(idx, kept[i], now, x)),
                oxfun_ticker_kept(idx, tickers@.take(k as int), req).len() <= kept.len(),
                forall|j: int|
                    0 <= j < oxfun_ticker_kept(idx, tickers@.take(k as int), req).len() ==> #[trigger] oxfun_ticker_kept(
                        idx,
                        tickers@.take(k as int),
                        req,
                    )[j] == kept[j],
                pair_keyed_by_last(
                    oxfun_ticker_kept(idx, tickers@.take(k as int), req).map_values(
                        |t: OxfunTicker| spec_oxfun_symbol(idx, t.market_code@),
                    ),
                    result@,
                    ok,
                ),
            decreases n - k,
        {
            let ghost pre = oxfun_ticker_kept(idx, tickers@.take(k as int), req);
            proof {
                assert(tickers@.take(k + 1).drop_last() =~= tickers@.take(k as int));
                assert(tickers@.take(k + 1).last() == tickers@[k as int]);
                reveal_with_fuel(Seq::<_>::filter, 1);
                lemma_oxfun_kept_prefix(idx, tickers@, req, k + 1);
            }
            let sym = self.safe_symbol(tickers[k].market_code.as_str());
            let keep = match symbols {
                Some(v) => Self::wanted(v, sym.as_str()),
                None => true,
            };
            if keep {
                let t = self.parse_ticker(&tickers[k], now);
                let ghost before = result@;
                let ghost key = sym@;
                keyed_insert(&mut result, sym, t);
                proof {
                    let codes = pre.map_values(|x: OxfunTicker| spec_oxfun_symbol(idx, x.market_code@));
                    if req is None {
                        assert(oxfun_ticker_kept(idx, tickers@.take(k + 1), req) == tickers@.take(k + 1));
                        assert(pre == tickers@.take(k as int));
                    }
                    assert(oxfun_ticker_kept(idx, tickers@.take(k + 1), req) =~= pre.push(tickers@[k as int]));
                    assert(oxfun_ticker_kept(idx, tickers@.take(k + 1), req)[pre.len() as int] == tickers@[k as int]);
                    assert(kept[pre.len() as int] == tickers@[k as int]);
                    assert(ok(codes.len() as int, t));
                    lemma_pair_keyed_step(codes, before, result@, key, t, ok);
                    assert(codes.push(key) =~= oxfun_ticker_kept(idx, tickers@.take(k + 1), req).map_values(
                        |x: OxfunTicker| spec_oxfun_symbol(idx, x.market_code@),
                    ));
                }
            } else {
                proof {
                    assert(oxfun_ticker_kept(idx, tickers@.take(k + 1), req) =~= pre);
                }
            }
            k = k + 1;
        }
        proof {
            assert(tickers@.take(n as int) =~= tickers@);
        }
        result
    }

    /// Unified order of an OX.FUN order: its symbol comes from its market
    /// code, the cost is the filled amount times the price when there is one.
    pub fn parse_order(&self, o: &OxfunOrder) -> (r: Order)
        ensures
            spec_oxfun_order_ok(self.markets_by_id, *o, r),
    {
        let code = match &o.market_code {
            Some(c) => copy_str(c.as_str()),
            None => String::new(),
        };
        let symbol = self.safe_symbol(code.as_str());
        let side = match &o.side {
            Some(w) => if str_eq(w.as_str(), "SELL") {
                OrderSide::Sell
            } else {
                OrderSide::Buy
            },
            None => OrderSide::Buy,
        };
        let order_type = match &o.order_type {
            Some(w) => if str_eq(w.as_str(), "MARKET") || str_eq(w.as_str(), "STOP_MARKET") {
                OrderType::Market
            } else {
                OrderType::Limit
            },
            None => OrderType::Limit,
        };
        let status = match &o.status {
            Some(w) => {
                let w = w.as_str();
                if str_eq(w, "FILLED") || str_eq(w, "COMPLETED") {
                    OrderStatus::Closed
                } else if str_eq(w, "CANCELED") || str_eq(w, "CANCELLED") || str_eq(w, "CANCELED_BY_USER") {
                    OrderStatus::Canceled
                } else if str_eq(w, "EXPIRED") {
                    OrderStatus::Expired
                } else if str_eq(w, "REJECTED") {
                    OrderStatus::Rejected
                } else {
                    OrderStatus::Open
                }
            },
            None => OrderStatus::Open,
        };
        let amount = parse_opt_or_zero(&o.quantity);
        let price = parse_opt(&o.price);
        let filled = parse_opt_or_zero(&o.filled);
        let cost = match price {
            Some(p) => dec_mul(filled, p),
            None => None,
        };
        let datetime = match o.created_at {
            Some(t) => Some(iso8601_or_empty(t)),
            None => None,
        };
        let id = match &o.order_id {
            Some(i) => copy_str(i.as_str()),
            None => String::new(),
        };
        proof {
            reveal_strlit("");
        }
        Order {
            id,
            client_order_id: copy_opt(&o.client_order_id),
            timestamp: o.created_at,
            datetime,
            last_trade_timestamp: None,
            last_update_timestamp: None,
            status,
            symbol,
            order_type,
            time_in_force: None,
            side,
            price,
            average: None,
            amount,
            filled,
            remaining: parse_opt(&o.remaining),
            stop_price: parse_opt(&o.stop_price),
            trigger_price: None,
            take_profit_price: None,
            stop_loss_price: None,
            trades: Vec::new(),
            cost,
            fee: None,
            reduce_only: None,
            post_only: None,
        }
    }

    /// Unified orders of OX.FUN orders, in order.
    pub fn parse_orders(&self, orders: &Vec<OxfunOrder>) -> (r: Vec<Order>)
        ensures
            r@.len() == orders@.len(),
            forall|k: int| 0 <= k < r@.len() ==> spec_oxfun_order_ok(self.markets_by_id, orders@[k], #[trigger] r@[k]),
    {
        let mut out: Vec<Order> = Vec::new();
        let n = orders.len();
        let mut i: usize = 0;
        while i < n
            invariant
                n == orders@.len(),
                i <= n,
                out@.len() == i,
                forall|k: int| 0 <= k < i ==> spec_oxfun_order_ok(self.markets_by_id, orders@[k], #[trigger] out@[k]),
            decreases n - i,
        {
            out.push(self.parse_order(&orders[i]));
            i = i + 1;
        }
        out
    }
}

/// A fill of the account read into a unified trade.
pub open spec fn spec_oxfun_my_trade_ok(index: MarketIndex, t: OxfunMyTrade, r: Trade) -> bool {
    &&& r.id@ == (match t.trade_id { Some(i) => i@, None => Seq::<char>::empty() })
    &&& opt_view(r.order) == opt_view(t.order_id)
    &&& r.timestamp == t.timestamp
    &&& opt_view(r.datetime) == (match t.timestamp {
        Some(ts) => Some(iso8601_or_empty_spec(ts as int)),
        None => None,
    })
    &&& r.symbol@ == spec_oxfun_symbol(index, match t.market_code { Some(c) => c@, None => Seq::<char>::empty() })
    &&& opt_view(r.side) == (match t.side { Some(s) => Some(spec_to_lowercase(s@)), None => None })
    &&& r.taker_or_maker == spec_oxfun_role(t.match_type)
    &&& r.price.parts() == opt_text_dec_or_zero(t.price)
    &&& r.amount.parts() == opt_text_dec_or_zero(t.amount)
    &&& opt_parts(r.cost) == checked_op(r.price, r.amount, |x: (int, int), y: (int, int)| spec_dec_mul(x, y))
    &&& match opt_text_dec(t.fees) {
        Some(c) => r.fee matches Some(f) && opt_parts(f.cost) == Some(c) && opt_view(f.currency) == opt_view(t.fee_currency) && f.rate is None,
        None => r.fee is None,
    }
}

impl Oxfun {
    /// Unified trade of a public OX.FUN trade: an empty side is none, others
    /// are lower-cased.
    pub fn parse_trade(t: &OxfunTrade, symbol: &str) -> (r: Trade)
        ensures
            spec_oxfun_trade_ok(*t, symbol@, r),
    {
        let price = parse_opt_or_zero(&t.price);
        let amount = parse_opt_or_zero(&t.amount);
        let side = match &t.side {
            Some(s) => if s.as_str().unicode_len() == 0 {
                None
            } else {
                Some(to_lowercase(s.as_str()))
            },
            None => None,
        };
        let datetime = match t.timestamp {
            Some(ts) => Some(iso8601_or_empty(ts)),
            None => None,
        };
        Trade {
            id: match &t.id {
                Some(i) => copy_str(i.as_str()),
                None => String::new(),
            },
            order: None,
            timestamp: t.timestamp,
            datetime,
            symbol: copy_str(symbol),
            trade_type: None,
            side,
            taker_or_maker: Self::role(&t.match_type),
            price,
            amount,
            cost: dec_mul(price, amount),
            fee: None,
        }
    }

    /// Liquidity role of a match type.
    pub fn role(s: &Option<String>) -> (r: Option<TakerOrMaker>)
        ensures
            r == spec_oxfun_role(*s),
    {
        match s {
            Some(w) => if str_eq(w.as_str(), "TAKER") {
                Some(TakerOrMaker::Taker)
            } else if str_eq(w.as_str(), "MAKER") {
                Some(TakerOrMaker::Maker)
            } else {
                None
            },
            None => None,
        }
    }

    /// Unified trades of public OX.FUN trades, in order.
    pub fn parse_trades(rows: &Vec<OxfunTrade>, symbol: &str) -> (r: Vec<Trade>)
        ensures
            r@.len() == rows@.len(),
            forall|k: int| 0 <= k < r@.len() ==> spec_oxfun_trade_ok(rows@[k], symbol@, #[trigger] r@[k]),
    {
        let mut out: Vec<Trade> = Vec::new();
        let n = rows.len();
        let mut i: usize = 0;
        while i < n
            invariant
                n == rows@.len(),
                i <= n,
                out@.len() == i,
                forall|k: int| 0 <= k < i ==> spec_oxfun_trade_ok(rows@[k], symbol@, #[trigger] out@[k]),
            decreases n - i,
        {
            out.push(Self::parse_trade(&rows[i], symbol));
            i = i + 1;
        }
        out
    }

    /// Order book of a depth answer: rows whose price and amount both read.
    pub fn parse_order_book(bids: &Vec<Vec<String>>, asks: &Vec<Vec<String>>, last_updated_at: Option<i64>, symbol: &str) -> (r: OrderBook)
        ensures
            r.symbol@ == symbol@,
            r.timestamp == last_updated_at,
            opt_view(r.datetime) == (match last_updated_at {
                Some(t) => Some(iso8601_or_empty_spec(t as int)),
                None => None,
            }),
            r.nonce is None,
            r.bids@.len() == text_levels(bids@).len(),
            r.asks@.len() == text_levels(asks@).len(),
            forall|k: int|
                0 <= k < r.bids@.len() ==> Some((#[trigger] r.bids@[k]).price.parts()) == spec_dec_parse(
                    text_levels(bids@)[k]@[0]@,
                ) && Some(r.bids@[k].amount.parts()) == spec_dec_parse(text_levels(bids@)[k]@[1]@),
            forall|k: int|
                0 <= k < r.asks@.len() ==> Some((#[trigger] r.asks@[k]).price.parts()) == spec_dec_parse(
                    text_levels(asks@)[k]@[0]@,
                ) && Some(r.asks@[k].amount.parts()) == spec_dec_parse(text_levels(asks@)[k]@[1]@),
    {
        OrderBook {
            symbol: copy_str(symbol),
            timestamp: last_updated_at,
            datetime: match last_updated_at {
                Some(t) => Some(iso8601_or_empty(t)),
                None => None,
            },
            nonce: None,
            bids: parse_text_levels(bids),
            asks: parse_text_levels(asks),
        }
    }

    /// Candles of OX.FUN candles; candles that do not read are skipped.
    pub fn parse_candles(rows: &Vec<OxfunCandle>) -> (r: Vec<OHLCV>)
        ensures
            r@.len() == oxfun_candles(rows@).len(),
            forall|k: int| 0 <= k < r@.len() ==> spec_oxfun_candle_ok(oxfun_candles(rows@)[k], #[trigger] r@[k]),
    {
        let mut out: Vec<OHLCV> = Vec::new();
        let n = rows.len();
        let mut i: usize = 0;
        while i < n
            invariant
                n == rows@.len(),
                i <= n,
                out@.len() == oxfun_candles(rows@.take(i as int)).len(),
                forall|k: int| 0 <= k < out@.len() ==> spec_oxfun_candle_ok(oxfun_candles(rows@.take(i as int))[k], #[trigger] out@[k]),
            decreases n - i,
        {
            let ghost pre = rows@.take(i as int);
            proof {
                assert(rows@.take(i + 1).drop_last() =~= pre);
                assert(rows@.take(i + 1).last() == rows@[i as int]);
                reveal_with_fuel(Seq::<_>::filter, 1);
            }
            let c = &rows[i];
            let vol_text = if c.volume.is_some() { &c.volume } else { &c.base_volume };
            let read = match (c.timestamp, parse_opt(&c.open), parse_opt(&c.high), parse_opt(&c.low), parse_opt(&c.close), parse_opt(vol_text)) {
                (Some(t), Some(o), Some(h), Some(l), Some(cl), Some(v)) => Some(OHLCV { timestamp: t, open: o, high: h, low: l, close: cl, volume: v }),
                _ => None,
            };
            match read {
                Some(x) => {
                    out.push(x);
                    proof {
                        assert(oxfun_candle_reads(rows@[i as int]));
                        assert(oxfun_candles(rows@.take(i + 1)) == oxfun_candles(pre).push(rows@[i as int]));
                    }
                },
                None => {
                    proof {
                        assert(!oxfun_candle_reads(rows@[i as int]));
                        assert(oxfun_candles(rows@.take(i + 1)) == oxfun_candles(pre));
                    }
                },
            }
            i = i + 1;
        }
        proof {
            assert(rows@.take(n as int) =~= rows@);
        }
        out
    }

    /// Holdings of one currency.
    pub fn parse_balance_entry(b: &OxfunBalance) -> (r: Balance)
        ensures
            spec_oxfun_balance_ok(*b, r),
    {
        Balance {
            free: Some(parse_opt_or_zero(&b.available)),
            used: Some(parse_opt_or_zero(&b.reserved)),
            total: Some(parse_opt_or_zero(&b.total)),
        }
    }

    /// Unified balances of the entries that name their currency, read at
    /// time `now`; a later entry of a currency replaces an earlier one.
    pub fn parse_balance(balances: &Vec<OxfunBalance>, now: i64) -> (r: Balances)
        ensures
            keyed_by_last(
                oxfun_named(balances@).map_values(|b: OxfunBalance| b.currency->0@),
                r.currencies@,
                |i: int, bal: Balance| spec_oxfun_balance_ok(oxfun_named(balances@)[i], bal),
            ),
            r.timestamp == Some(now),
            opt_view(r.datetime) == Some(iso8601_or_empty_spec(now as int)),
    {
        let ghost named = oxfun_named(balances@);
        let ghost ok = |i: int, bal: Balance| spec_oxfun_balance_ok(named[i], bal);
        let mut result = Balances::new();
        result.timestamp = Some(now);
        result.datetime = Some(iso8601_or_empty(now));
        let n = balances.len();
        let mut k: usize = 0;
        proof {
            lemma_keyed_empty(ok);
            assert(oxfun_named(balances@.take(0)) =~= Seq::<OxfunBalance>::empty());
            assert(oxfun_named(balances@.take(0)).map_values(|b: OxfunBalance| b.currency->0@) =~= Seq::<Seq<char>>::empty());
            assert(result.currencies@ =~= Seq::<(String, Balance)>::empty());
        }
        while k < n
            invariant
                n == balances@.len(),
                k <= n,
                named == oxfun_named(balances@),
                result.timestamp == Some(now),
                opt_view(result.datetime) == Some(iso8601_or_empty_spec(now as int)),
                ok == (|i: int, bal: Balance| spec_oxfun_balance_ok(named[i], bal)),
                oxfun_named(balances@.take(k as int)).len() <= named.len(),
                forall|j: int|
                    0 <= j < oxfun_named(balances@.take(k as int)).len() ==> #[trigger] oxfun_named(balances@.take(k as int))[j] == named[j],
                keyed_by_last(
                    oxfun_named(balances@.take(k as int)).map_values(|b: OxfunBalance| b.currency->0@),
                    result.currencies@,
                    ok,
                ),
            decreases n - k,
        {
            let ghost pre = oxfun_named(balances@.take(k as int));
            proof {
                assert(balances@.take(k + 1).drop_last() =~= balances@.take(k as int));
                assert(balances@.take(k + 1).last() == balances@[k as int]);
                reveal_with_fuel(Seq::<_>::filter, 1);
                lemma_named_prefix(balances@, k + 1);
            }
            match &balances[k].currency {
                Some(code) => {
                    let bal = Self::parse_balance_entry(&balances[k]);
                    let ghost before = result.currencies@;
                    result.add(copy_str(code.as_str()), bal);
                    proof {
                        let codes = pre.map_values(|b: OxfunBalance| b.currency->0@);
                        assert(oxfun_named(balances@.take(k + 1)) == pre.push(balances@[k as int]));
                        assert(oxfun_named(balances@.take(k + 1))[pre.len() as int] == balances@[k as int]);
                        assert(named[pre.len() as int] == balances@[k as int]);
                        lemma_keyed_step(codes, before, result.currencies@, code@, bal, ok);
                        assert(codes.push(code@) =~= oxfun_named(balances@.take(k + 1)).map_values(|b: OxfunBalance| b.currency->0@));
                    }
                },
                None => {
                    proof {
                        assert(oxfun_named(balances@.take(k + 1)) == pre);
                    }
                },
            }
            k = k + 1;
        }
        proof {
            assert(balances@.take(n as int) =~= balances@);
        }
        result
    }

    /// Fields of an order to place: market code, side, type (anything but a
    /// market order is placed as a limit order), quantity, and the price when
    /// given.
    pub fn order_fields(&self, symbol: &str, order_type: OrderType, side: OrderSide, amount: Dec, price: Option<Dec>) -> (r: Vec<(String, String)>)
        ensures
            r@.len() == (if price is Some { 5int } else { 4int }),
            r@[0].0@ == "marketCode"@ && r@[0].1@ == spec_oxfun_market_id(self.markets_by_symbol, symbol@),
            r@[1].0@ == "side"@ && r@[1].1@ == (if side == OrderSide::Buy { "BUY"@ } else { "SELL"@ }),
            r@[2].0@ == "orderType"@ && r@[2].1@ == (if order_type == OrderType::Market { "MARKET"@ } else { "LIMIT"@ }),
            r@[3].0@ == "quantity"@ && (amount.wf() ==> r@[3].1@ == spec_dec_to_string(amount.parts())),
            price matches Some(p) ==> r@[4].0@ == "price"@ && (p.wf() ==> r@[4].1@ == spec_dec_to_string(p.parts())),
    {
        let mut p: Vec<(String, String)> = Vec::new();
        p.push((copy_str("marketCode"), self.safe_market_id(symbol)));
        p.push((copy_str("side"), copy_str(match side { OrderSide::Buy => "BUY", OrderSide::Sell => "SELL" })));
        p.push((copy_str("orderType"), copy_str(match order_type { OrderType::Market => "MARKET", _ => "LIMIT" })));
        p.push((copy_str("quantity"), amount.to_text()));
        if let Some(x) = price {
            p.push((copy_str("price"), x.to_text()));
        }
        p
    }

    /// Body of a request on orders: `{"orders":[...]}` holding one object of
    /// the fields, keys in rising order.
    pub fn orders_body(fields: &Vec<(String, String)>) -> (r: String)
        ensures
            exists|sorted: Seq<(String, String)>| {
                &&& keys_sorted(sorted)
                &&& #[trigger] sorted.to_multiset() == fields@.to_multiset()
                &&& r@ == "{\"orders\":["@ + json_text_object(sorted) + "]}"@
            },
    {
        let obj = sorted_text_object(fields);
        let r = concat3("{\"orders\":[", obj.as_str(), "]}");
        r
    }

    /// The verdict on an answer: one that failed is an exchange error with
    /// its message, or `fallback` when it carries none.
    pub fn check_answer(success: bool, message: Option<&str>, fallback: &str) -> (r: Result<(), CcxtError>)
        ensures
            success <==> r is Ok,
            r matches Err(e) ==> e matches CcxtError::ExchangeError { message: m } && m@ == (match message {
                Some(t) => t@,
                None => fallback@,
            }),
    {
        if success {
            Ok(())
        } else {
            let m = match message {
                Some(t) => copy_str(t),
                None => copy_str(fallback),
            };
            Err(CcxtError::ExchangeError { message: m })
        }
    }

    /// Fields naming an order to cancel.
    pub fn cancel_fields(&self, id: &str, symbol: &str) -> (r: Vec<(String, String)>)
        ensures
            r@.len() == 2,
            r@[0].0@ == "marketCode"@ && r@[0].1@ == spec_oxfun_market_id(self.markets_by_symbol, symbol@),
            r@[1].0@ == "orderId"@ && r@[1].1@ == id@,
    {
        let mut p: Vec<(String, String)> = Vec::new();
        p.push((copy_str("marketCode"), self.safe_market_id(symbol)));
        p.push((copy_str("orderId"), copy_str(id)));
        p
    }

    /// Path that asks for the status of one order.
    pub fn order_status_path(&self, id: &str, symbol: &str) -> (r: String)
        ensures
            r@ == "/v3/orders/status?marketCode="@ + spec_oxfun_market_id(self.markets_by_symbol, symbol@) + "&orderId="@ + id@,
    {
        let mid = self.safe_market_id(symbol);
        let mut p = concat2("/v3/orders/status?marketCode=", mid.as_str());
        push_str(&mut p, "&orderId=");
        push_str(&mut p, id);
        p
    }

    /// Path that lists working orders, of one market when a symbol is given.
    pub fn open_orders_path(&self, symbol: Option<&str>) -> (r: String)
        ensures
            r@ == (match symbol {
                Some(s) => "/v3/orders/working?marketCode="@ + spec_oxfun_market_id(self.markets_by_symbol, s@),
                None => "/v3/orders/working"@,
            }),
    {
        match symbol {
            Some(s) => {
                let mid = self.safe_market_id(s);
                concat2("/v3/orders/working?marketCode=", mid.as_str())
            },
            None => copy_str("/v3/orders/working"),
        }
    }

    /// Path that lists the account's fills, filtered by market, start time
    /// and count when given.
    pub fn my_trades_path(&self, symbol: Option<&str>, since: Option<i64>, limit: Option<u32>) -> (r: String)
        ensures
            ({
                let parts = (match symbol {
                    Some(s) => seq!["marketCode="@ + spec_oxfun_market_id(self.markets_by_symbol, s@)],
                    None => Seq::empty(),
                }) + (match since {
                    Some(t) => seq!["startTime="@ + spec_int_to_string(t as int)],
                    None => Seq::empty(),
                }) + (match limit {
                    Some(l) => seq!["limit="@ + spec_int_to_string(l as int)],
                    None => Seq::empty(),
                });
                r@ == (if parts.len() == 0 {
                    "/v3/trades"@
                } else {
                    "/v3/trades?"@ + join_amp(parts)
                })
            }),
    {
        let mut parts: Vec<String> = Vec::new();
        if let Some(s) = symbol {
            let mid = self.safe_market_id(s);
            parts.push(concat2("marketCode=", mid.as_str()));
        }
        if let Some(t) = since {
            let v = int_to_string(t as i128);
            parts.push(concat2("startTime=", v.as_str()));
        }
        if let Some(l) = limit {
            let v = int_to_string(l as i128);
            parts.push(concat2("limit=", v.as_str()));
        }
        let ghost want = (match symbol {
            Some(s) => seq!["marketCode="@ + spec_oxfun_market_id(self.markets_by_symbol, s@)],
            None => Seq::empty(),
        }) + (match since {
            Some(t) => seq!["startTime="@ + spec_int_to_string(t as int)],
            None => Seq::empty(),
        }) + (match limit {
            Some(l) => seq!["limit="@ + spec_int_to_string(l as int)],
            None => Seq::empty(),
        });
        proof {
            assert(texts_of(parts@) =~= want);
        }
        if parts.len() == 0 {
            copy_str("/v3/trades")
        } else {
            let j = join_with_amp(&parts);
            concat2("/v3/trades?", j.as_str())
        }
    }

    /// Unified trade of a fill of the account.
    pub fn parse_my_trade(&self, t: &OxfunMyTrade) -> (r: Trade)
        ensures
            spec_oxfun_my_trade_ok(self.markets_by_id, *t, r),
    {
        let code = match &t.market_code {
            Some(c) => copy_str(c.as_str()),
            None => String::new(),
        };
        let price = parse_opt_or_zero(&t.price);
        let amount = parse_opt_or_zero(&t.amount);
        let fee = match parse_opt(&t.fees) {
            Some(c) => Some(Fee { cost: Some(c), currency: copy_opt(&t.fee_currency), rate: None }),
            None => None,
        };
        Trade {
            id: match &t.trade_id {
                Some(i) => copy_str(i.as_str()),
                None => String::new(),
            },
            order: copy_opt(&t.order_id),
            timestamp: t.timestamp,
            datetime: match t.timestamp {
                Some(ts) => Some(iso8601_or_empty(ts)),
                None => None,
            },
            symbol: self.safe_symbol(code.as_str()),
            trade_type: None,
            side: match &t.side {
                Some(s) => Some(to_lowercase(s.as_str())),
                None => None,
            },
            taker_or_maker: Self::role(&t.match_type),
            price,
            amount,
            cost: dec_mul(price, amount),
            fee,
        }
    }

    /// Unified trades of the account's fills, in order.
    pub fn parse_my_trades(&self, rows: &Vec<OxfunMyTrade>) -> (r: Vec<Trade>)
        ensures
            r@.len() == rows@.len(),
            forall|k: int| 0 <= k < r@.len() ==> spec_oxfun_my_trade_ok(self.markets_by_id, rows@[k], #[trigger] r@[k]),
    {
        let mut out: Vec<Trade> = Vec::new();
        let n = rows.len();
        let mut i: usize = 0;
        while i < n
            invariant
                n == rows@.len(),
                i <= n,
                out@.len() == i,
                forall|k: int| 0 <= k < i ==> spec_oxfun_my_trade_ok(self.markets_by_id, rows@[k], #[trigger] out@[k]),
            decreases n - i,
        {
            out.push(self.parse_my_trade(&rows[i]));
            i = i + 1;
        }
        out
    }

    /// Signature of a request: base64 of the HMAC-SHA256, under the secret,
    /// of time, nonce, method, host, path and body, one per line; empty when
    /// no secret is configured.
    pub fn generate_signature(&self, timestamp: &str, nonce: &str, method: &str, path: &str, body: &str) -> (r: String)
        ensures
            r@ == (match self.config.secret {
                Some(s) => oxfun_signature(s@, oxfun_message(timestamp@, nonce@, method@, path@, body@)),
                None => Seq::<char>::empty(),
            }),
    {
        match self.config.secret() {
            Some(secret) => {
                let mut msg = copy_str(timestamp);
                push_str(&mut msg, "\n");
                push_str(&mut msg, nonce);
                push_str(&mut msg, "\n");
                push_str(&mut msg, method);
                push_str(&mut msg, "\n");
                push_str(&mut msg, OXFUN_HOST);
                push_str(&mut msg, "\n");
                push_str(&mut msg, path);
                push_str(&mut msg, "\n");
                push_str(&mut msg, body);
                proof {
                    assert(msg@ =~= oxfun_message(timestamp@, nonce@, method@, path@, body@));
                }
                let mac = hmac_sha256(secret.as_bytes(), msg.as_str().as_bytes());
                base64_encode(mac.as_slice())
            },
            None => String::new(),
        }
    }

    /// Headers of an authenticated request at time `now`: content type, key,
    /// time (`%Y-%m-%dT%H:%M:%S`), signature and nonce (the time in
    /// milliseconds). A missing key is refused.
    pub fn auth_headers(&self, method: &str, path: &str, body: Option<&str>, now: i64) -> (r: Result<Vec<(String, String)>, CcxtError>)
        ensures
            r is Err <==> self.config.api_key is None,
            r is Err ==> r matches Err(CcxtError::AuthenticationError { .. }),
            r matches Ok(h) ==> {
                let ts = ymdhms_or_empty_spec(now as int);
                let nonce = spec_int_to_string(now as int);
                let b = match body { Some(x) => x@, None => Seq::<char>::empty() };
                &&& h@.len() == 5
                &&& h@[0].0@ == "Content-Type"@ && h@[0].1@ == "application/json"@
                &&& h@[1].0@ == "AccessKey"@ && h@[1].1@ == self.config.api_key->0@
                &&& h@[2].0@ == "Timestamp"@ && h@[2].1@ == ts
                &&& h@[3].0@ == "Signature"@ && h@[3].1@ == (match self.config.secret {
                    Some(s) => oxfun_signature(s@, oxfun_message(ts, nonce, method@, path@, b)),
                    None => Seq::<char>::empty(),
                })
                &&& h@[4].0@ == "Nonce"@ && h@[4].1@ == nonce
            },
    {
        let key = match self.config.api_key() {
            Some(k) => k,
            None => {
                return Err(CcxtError::AuthenticationError { message: copy_str("API key required") });
            },
        };
        let ts = ymdhms_or_empty(now);
        let nonce = int_to_string(now as i128);
        let b = match body {
            Some(x) => x,
            None => "",
        };
        proof {
            reveal_strlit("");
        }
        let sig = self.generate_signature(ts.as_str(), nonce.as_str(), method, path, b);
        let mut h: Vec<(String, String)> = Vec::new();
        h.push((copy_str("Content-Type"), copy_str("application/json")));
        h.push((copy_str("AccessKey"), copy_str(key)));
        h.push((copy_str("Timestamp"), ts));
        h.push((copy_str("Signature"), sig));
        h.push((copy_str("Nonce"), nonce));
        Ok(h)
    }

    /// Whether a method is one OX.FUN's private API takes (`GET`, `POST` or
    /// `DELETE`, in any case); others are refused.
    pub fn check_method(method: &str) -> (r: Result<String, CcxtError>)
        ensures
            match r {
                Ok(m) => m@ == spec_to_uppercase(method@) && (m@ == "GET"@ || m@ == "POST"@ || m@ == "DELETE"@),
                Err(e) => e matches CcxtError::BadRequest { .. } && !(spec_to_uppercase(method@) == "GET"@
                    || spec_to_uppercase(method@) == "POST"@ || spec_to_uppercase(method@) == "DELETE"@),
            },
    {
        let m = to_uppercase(method);
        if str_eq(m.as_str(), "GET") || str_eq(m.as_str(), "POST") || str_eq(m.as_str(), "DELETE") {
            Ok(m)
        } else {
            Err(CcxtError::BadRequest { message: concat2("Unsupported HTTP method: ", method) })
        }
    }

    /// The request of the generic signing hook at time `now`: the given
    /// headers, followed by the authentication headers when a key is
    /// configured; path, method and body as given.
    pub fn sign(&self, path: &str, method: &str, headers: Option<Vec<(String, String)>>, body: Option<&str>, now: i64) -> (r: SignedRequest)
        ensures
            r.url@ == path@,
            r.method@ == method@,
            opt_view(r.body) == (match body { Some(b) => Some(b@), None => None }),
            ({
                let given = match headers { Some(h) => h@, None => Seq::empty() };
                &&& r.headers@.len() == given.len() + (if self.config.api_key is Some { 5int } else { 0int })
                &&& forall|k: int| 0 <= k < given.len() ==> #[trigger] r.headers@[k] == given[k]
                &&& self.config.api_key is Some ==> r.headers@[given.len() as int + 1].0@ == "AccessKey"@
                    && r.headers@[given.len() as int + 3].0@ == "Signature"@
                    && r.headers@[given.len() as int + 3].1@ == (match self.config.secret {
                        Some(s) => oxfun_signature(s@, oxfun_message(
                            ymdhms_or_empty_spec(now as int),
                            spec_int_to_string(now as int),
                            method@,
                            path@,
                            match body { Some(x) => x@, None => Seq::<char>::empty() },
                        )),
                        None => Seq::<char>::empty(),
                    })
            }),
    {
        let mut out: Vec<(String, String)> = match headers {
            Some(h) => h,
            None => Vec::new(),
        };
        let ghost given = out@;
        match self.auth_headers(method, path, body, now) {
            Ok(auth) => {
                let mut i: usize = 0;
                let n = auth.len();
                while i < n
                    invariant
                        n == auth@.len(),
                        n == 5,
                        i <= n,
                        out@.len() == given.len() + i,
                        forall|k: int| 0 <= k < given.len() ==> #[trigger] out@[k] == given[k],
                        forall|k: int| 0 <= k < i ==> out@[given.len() as int + k].0@ == auth@[k].0@ && out@[given.len() as int + k].1@ == auth@[k].1@,
                    decreases n - i,
                {
                    out.push((copy_str(auth[i].0.as_str()), copy_str(auth[i].1.as_str())));
                    i = i + 1;
                }
            },
            Err(_) => {},
        }
        SignedRequest {
            url: copy_str(path),
            method: copy_str(method),
            headers: out,
            body: match body {
                Some(b) => Some(copy_str(b)),
                None => None,
            },
        }
    }
}

/// Texts joined by `&`.
pub open spec fn join_amp(parts: Seq<Seq<char>>) -> Seq<char>
    decreases parts.len(),
{
    if parts.len() == 0 {
        Seq::empty()
    } else if parts.len() == 1 {
        parts[0]
    } else {
        join_amp(parts.drop_last()) + "&"@ + parts.last()
    }
}

/// Joins texts with `&`.
pub fn join_with_amp(parts: &Vec<String>) -> (r: String)
    ensures
        r@ == join_amp(texts_of(parts@)),
{
    let mut r = String::new();
    let n = parts.len();
    let mut i: usize = 0;
    while i < n
        invariant
            n == parts@.len(),
            i <= n,
            r@ == join_amp(texts_of(parts@.take(i as int))),
        decreases n - i,
    {
        let ghost t = texts_of(parts@.take(i + 1));
        assert(t.drop_last() =~= texts_of(parts@.take(i as int)));
        assert(t.last() == parts@[i as int]@);
        if i > 0 {
            push_str(&mut r, "&");
        }
        push_str(&mut r, parts[i].as_str());
        proof {
            if i == 0 {
                assert(r@ =~= t[0]);
            } else {
                assert(r@ =~= join_amp(t.drop_last()) + "&"@ + t.last());
            }
        }
        i = i + 1;
    }
    assert(parts@.take(n as int) =~= parts@);
    r
}

/// The named entries of a prefix are a prefix of the named entries.
proof fn lemma_named_prefix(b: Seq<OxfunBalance>, i: int)
    requires
        0 <= i <= b.len(),
    ensures
        oxfun_named(b.take(i)).len() <= oxfun_named(b).len(),
        forall|j: int|
            0 <= j < oxfun_named(b.take(i)).len() ==> #[trigger] oxfun_named(b.take(i))[j] == oxfun_named(b)[j],
{
    assert(b =~= b.take(i) + b.skip(i));
    Seq::filter_distributes_over_add(b.take(i), b.skip(i), |x: OxfunBalance| x.currency is Some);
}

/// The tickers kept from a prefix are a prefix of those kept from the whole.
proof fn lemma_oxfun_kept_prefix(index: MarketIndex, t: Seq<OxfunTicker>, req: Option<Seq<Seq<char>>>, i: int)
    requires
        0 <= i <= t.len(),
    ensures
        oxfun_ticker_kept(index, t.take(i), req).len() <= oxfun_ticker_kept(index, t, req).len(),
        forall|j: int|
            0 <= j < oxfun_ticker_kept(index, t.take(i), req).len() ==> #[trigger] oxfun_ticker_kept(index, t.take(i), req)[j]
                == oxfun_ticker_kept(index, t, req)[j],
{
    assert(t =~= t.take(i) + t.skip(i));
    if let Some(syms) = req {
        Seq::filter_distributes_over_add(
            t.take(i),
            t.skip(i),
            |x: OxfunTicker| syms.contains(spec_oxfun_symbol(index, x.market_code@)),
        );
    }
}

} // verus!
