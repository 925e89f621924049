//! MEXC streaming: symbols, channels, the signing of listen-key requests,
//! and the decoding of public and private stream messages.

use crate::common::{copy_opt, keyed_insert, opt_view, pair_lookup};
use crate::crypto::{hex_encode, hmac_sha256, spec_hex_lower, spec_hmac_sha256};
use crate::dec::{
    dec_add, dec_div, dec_mul, dec_sub, opt_parts, opt_text_dec, opt_text_dec_or_zero, parse_opt,
    parse_opt_or_zero, spec_dec_add, spec_dec_div, spec_dec_mul, spec_dec_sub,
};
use crate::json::{
    json_quoted, json_string, opt_int_is, opt_text_is, spec_get, spec_opt_bool_field,
    spec_opt_i32_field, spec_opt_i64_field, spec_opt_str_field, spec_opt_u64_field,
    spec_parse_json, Json,
};
use crate::text::{
    concat2, concat3, copy_str, ends_with, ends_with_str, has_sub, int_to_string, push_str,
    remove_all, remove_char, spec_int_to_string, spec_to_lowercase, split_char, split_spec,
    lemma_split_nonempty, str_contains, str_eq, substring, to_lowercase, to_uppercase, upper_text,
    ascii_upper, all_ascii, lemma_ascii_case, lemma_ascii_case_join, lemma_remove_separator,
};
use crate::time::{iso8601_or_empty, iso8601_or_empty_spec};
use crate::types::{
    keyed_by_last, lemma_keyed_empty, lemma_keyed_step, Balance, Balances, CcxtError, Fee, OHLCV,
    Order, OrderBook, OrderBookEntry, OrderSide, OrderStatus, OrderType, TakerOrMaker, Ticker,
    Timeframe, Trade,
};
use crate::ws::{
    WsBalanceEvent, WsMessage, WsMyTradeEvent, WsOhlcvEvent, WsOrderBookEvent, WsOrderEvent,
    WsTickerEvent, WsTradeEvent,
};
use vstd::prelude::*;
use vstd::utf8::encode_utf8;

verus! {

/// Stream address.
pub const MEXC_WS_URL: &'static str = "wss://wbs.mexc.com/ws";

/// REST address that hands out listen keys.
pub const MEXC_REST_URL: &'static str = "https://api.mexc.com";

/// Ticker data of a stream message.
#[derive(Clone, Debug, Default, PartialEq)]
pub struct MexcTickerData {
    pub o: Option<String>,
    pub c: Option<String>,
    pub h: Option<String>,
    pub l: Option<String>,
    pub v: Option<String>,
    pub q: Option<String>,
    pub r: Option<String>,
    pub b: Option<String>,
    pub a: Option<String>,
    pub t: Option<i64>,
}

/// One level of a depth message.
#[derive(Clone, Debug, Default, PartialEq)]
pub struct MexcDepthEntry {
    pub p: Option<String>,
    pub v: Option<String>,
}

/// Depth data of a stream message.
#[derive(Clone, Debug, Default, PartialEq)]
pub struct MexcDepthData {
    pub bids: Vec<MexcDepthEntry>,
    pub asks: Vec<MexcDepthEntry>,
    pub r: Option<u64>,
}

/// One deal of a deals message (`S`: 1 buy, 2 sell).
#[derive(Clone, Debug, Default, PartialEq)]
pub struct MexcTradeData {
    pub p: Option<String>,
    pub v: Option<String>,
    pub side: Option<String>,
    pub t: Option<i64>,
}

/// Candle data of a stream message.
#[derive(Clone, Debug, Default, PartialEq)]
pub struct MexcKlineData {
    pub t: Option<i64>,
    pub o: Option<String>,
    pub c: Option<String>,
    pub h: Option<String>,
    pub l: Option<String>,
    pub v: Option<String>,
    pub q: Option<String>,
}

/// The head of a private stream message: event type, event time, market
/// and execution type.
#[derive(Clone, Debug, Default, PartialEq)]
pub struct MexcPrivateWsResponse {
    pub e: Option<String>,
    pub event_time: Option<i64>,
    pub s: Option<String>,
    pub x: Option<String>,
}

/// An execution report: short keys as the stream writes them, long ones
/// as aliases that take precedence.
#[derive(Clone, Debug, Default, PartialEq)]
pub struct MexcOrderUpdateData {
    pub e: Option<String>,
    pub event_time: Option<i64>,
    pub s: Option<String>,
    pub c: Option<String>,
    pub side: Option<String>,
    pub o: Option<String>,
    pub q: Option<String>,
    pub p: Option<String>,
    pub order_status: Option<String>,
    pub i: Option<i64>,
    pub z: Option<String>,
    pub cummulative_quote_qty: Option<String>,
    pub time: Option<i64>,
    pub symbol: Option<String>,
    pub order_id: Option<i64>,
    pub client_order_id: Option<String>,
    pub order_type: Option<String>,
    pub price: Option<String>,
    pub quantity: Option<String>,
    pub executed_qty: Option<String>,
}

/// A fill report: short keys, with long aliases that take precedence.
#[derive(Clone, Debug, Default, PartialEq)]
pub struct MexcTradeUpdateData {
    pub e: Option<String>,
    pub event_time: Option<i64>,
    pub s: Option<String>,
    pub t: Option<i64>,
    pub p: Option<String>,
    pub q: Option<String>,
    pub n: Option<String>,
    pub commission_asset: Option<String>,
    pub trade_time: Option<i64>,
    pub m: Option<bool>,
    pub side: Option<String>,
    pub i: Option<i64>,
    pub symbol: Option<String>,
    pub order_id: Option<i64>,
    pub trade_id: Option<i64>,
    pub price: Option<String>,
    pub quantity: Option<String>,
    pub commission: Option<String>,
    pub is_maker: Option<bool>,
}

/// Holdings of one asset in an account message.
#[derive(Clone, Debug, Default, PartialEq)]
pub struct MexcBalanceItem {
    pub a: Option<String>,
    pub f: Option<String>,
    pub l: Option<String>,
}

/// An account message.
#[derive(Clone, Debug, Default, PartialEq)]
pub struct MexcBalanceUpdateData {
    pub e: Option<String>,
    pub event_time: Option<i64>,
    pub u: Option<i64>,
    pub balances: Vec<MexcBalanceItem>,
}

/// The MEXC stream client: credentials, the listen key of the private
/// stream, whether it is open, and the subscriptions made (key to channel
/// kind).
pub struct MexcWs {
    pub api_key: Option<String>,
    pub api_secret: Option<String>,
    pub listen_key: Option<String>,
    pub is_authenticated: bool,
    pub subscriptions: Vec<(String, String)>,
}

/// The exchange symbol of a unified symbol: without `/`, in upper case.
pub open spec fn spec_mw_format_symbol(s: Seq<char>) -> Seq<char> {
    upper_text(remove_all(s, '/'))
}

/// The quote currencies tried, in order.
pub open spec fn mw_quotes() -> Seq<Seq<char>> {
    seq!["USDT"@, "USDC"@, "BTC"@, "ETH"@, "BUSD"@, "TUSD"@]
}

/// The first quote (from index `i` on) that ends `u`.
pub open spec fn mw_first_quote(u: Seq<char>, i: int) -> Option<Seq<char>>
    decreases 6 - i,
{
    if i >= 6 || i < 0 {
        None
    } else if ends_with(u, mw_quotes()[i]) {
        Some(mw_quotes()[i])
    } else {
        mw_first_quote(u, i + 1)
    }
}

/// The unified symbol of an exchange symbol: in upper case, the first
/// matching quote split off after `/`; the upper-case symbol otherwise.
pub open spec fn spec_mw_unified(s: Seq<char>) -> Seq<char> {
    let u = upper_text(s);
    match mw_first_quote(u, 0) {
        Some(q) => u.subrange(0, u.len() - q.len()) + "/"@ + q,
        None => u,
    }
}

/// Interval name of a timeframe (one minute for those not offered).
pub open spec fn spec_mw_interval(tf: Timeframe) -> Seq<char> {
    match tf {
        Timeframe::Minute5 => "Min5"@,
        Timeframe::Minute15 => "Min15"@,
        Timeframe::Minute30 => "Min30"@,
        Timeframe::Hour1 => "Hour1"@,
        Timeframe::Hour4 => "Hour4"@,
        Timeframe::Hour8 => "Hour8"@,
        Timeframe::Day1 => "Day1"@,
        Timeframe::Week1 => "Week1"@,
        Timeframe::Month1 => "Month1"@,
        _ => "Min1"@,
    }
}

/// The signature of a listen-key request: hexadecimal HMAC-SHA256 of the
/// query under the secret.
pub open spec fn mw_signature(secret: Seq<char>, query: Seq<char>) -> Seq<char> {
    spec_hex_lower(spec_hmac_sha256(encode_utf8(secret), encode_utf8(query)))
}

impl MexcWs {
    /// A client without credentials.
    pub fn new() -> (r: MexcWs)
        ensures
            r.api_key is None,
            r.api_secret is None,
            r.listen_key is None,
            !r.is_authenticated,
            r.subscriptions@.len() == 0,
    {
        MexcWs { api_key: None, api_secret: None, listen_key: None, is_authenticated: false, subscriptions: Vec::new() }
    }

    /// A client with credentials.
    pub fn with_credentials(api_key: &str, api_secret: &str) -> (r: MexcWs)
        ensures
            opt_view(r.api_key) == Some(api_key@),
            opt_view(r.api_secret) == Some(api_secret@),
            r.listen_key is None,
            !r.is_authenticated,
            r.subscriptions@.len() == 0,
    {
        MexcWs {
            api_key: Some(copy_str(api_key)),
            api_secret: Some(copy_str(api_secret)),
            listen_key: None,
            is_authenticated: false,
            subscriptions: Vec::new(),
        }
    }

    /// Replaces the credentials; the rest stays.
    pub fn set_credentials(&mut self, api_key: &str, api_secret: &str)
        ensures
            opt_view(final(self).api_key) == Some(api_key@),
            opt_view(final(self).api_secret) == Some(api_secret@),
            final(self).listen_key == old(self).listen_key,
            final(self).is_authenticated == old(self).is_authenticated,
            final(self).subscriptions == old(self).subscriptions,
    {
        self.api_key = Some(copy_str(api_key));
        self.api_secret = Some(copy_str(api_secret));
    }

    /// The API key, if any.
    pub fn get_api_key(&self) -> (r: Option<&str>)
        ensures
            match r {
                Some(k) => opt_view(self.api_key) == Some(k@),
                None => self.api_key is None,
            },
    {
        match &self.api_key {
            Some(k) => Some(k.as_str()),
            None => None,
        }
    }

    /// Signs a listen-key query; a missing secret is refused.
    pub fn create_signature(&self, query: &str) -> (r: Result<String, CcxtError>)
        ensures
            r is Err <==> self.api_secret is None,
            r is Err ==> r matches Err(CcxtError::AuthenticationError { .. }),
            r matches Ok(s) ==> s@ == mw_signature(self.api_secret->0@, query@),
    {
        let secret = match &self.api_secret {
            Some(s) => s,
            None => {
                return Err(CcxtError::AuthenticationError { message: copy_str("API secret required") });
            },
        };
        let mac = hmac_sha256(secret.as_str().as_bytes(), query.as_bytes());
        Ok(hex_encode(mac.as_slice()))
    }

    /// The signed listen-key request at time `now`: the key and the address
    /// with `timestamp`, `recvWindow=5000` and the signature. A missing key,
    /// then a missing secret, is refused.
    pub fn listen_key_request(&self, now: i64) -> (r: Result<(String, String), CcxtError>)
        ensures
            r is Err <==> (self.api_key is None || self.api_secret is None),
            r is Err ==> r matches Err(CcxtError::AuthenticationError { .. }),
            r matches Ok((k, url)) ==> {
                let q = "timestamp="@ + spec_int_to_string(now as int) + "&recvWindow=5000"@;
                &&& Some(k@) == opt_view(self.api_key)
                &&& url@ == "https://api.mexc.com/api/v3/userDataStream?"@ + q + "&signature="@ + mw_signature(self.api_secret->0@, q)
            },
    {
        let key = match &self.api_key {
            Some(k) => copy_str(k.as_str()),
            None => {
                return Err(CcxtError::AuthenticationError { message: copy_str("API key required") });
            },
        };
        let ts = int_to_string(now as i128);
        let query = concat3("timestamp=", ts.as_str(), "&recvWindow=5000");
        let sig = match self.create_signature(query.as_str()) {
            Ok(s) => s,
            Err(e) => {
                return Err(e);
            },
        };
        let mut url = concat2("https://api.mexc.com/api/v3/userDataStream?", query.as_str());
        push_str(&mut url, "&signature=");
        push_str(&mut url, sig.as_str());
        Ok((key, url))
    }

    /// The private stream's address for a listen key.
    pub fn private_url(listen_key: &str) -> (r: String)
        ensures
            r@ == "wss://wbs.mexc.com/ws?listenKey="@ + listen_key@,
    {
        concat2("wss://wbs.mexc.com/ws?listenKey=", listen_key)
    }

    /// Records the opened private stream: its listen key and the
    /// subscription `private:` and the channel kind.
    pub fn record_private_stream(&mut self, listen_key: String, channel_type: &str)
        ensures
            final(self).listen_key == Some(listen_key),
            final(self).is_authenticated,
            pair_lookup(final(self).subscriptions@, "private:"@ + channel_type@) matches Some(c) && c@ == channel_type@,
            forall|k: Seq<char>| k != "private:"@ + channel_type@ ==> pair_lookup(final(self).subscriptions@, k) == pair_lookup(old(self).subscriptions@, k),
            final(self).api_key == old(self).api_key,
            final(self).api_secret == old(self).api_secret,
    {
        self.listen_key = Some(listen_key);
        self.is_authenticated = true;
        keyed_insert(&mut self.subscriptions, concat2("private:", channel_type), copy_str(channel_type));
    }

    /// Records a public subscription under its channel.
    pub fn record_subscription(&mut self, channel: &str, channel_type: &str)
        ensures
            pair_lookup(final(self).subscriptions@, channel@) matches Some(c) && c@ == channel_type@,
            forall|k: Seq<char>| k != channel@ ==> pair_lookup(final(self).subscriptions@, k) == pair_lookup(old(self).subscriptions@, k),
            final(self).api_key == old(self).api_key,
            final(self).api_secret == old(self).api_secret,
            final(self).listen_key == old(self).listen_key,
            final(self).is_authenticated == old(self).is_authenticated,
    {
        keyed_insert(&mut self.subscriptions, copy_str(channel), copy_str(channel_type));
    }

    /// The private channels need a key and a secret.
    pub fn ws_authenticate(&self) -> (r: Result<(), CcxtError>)
        ensures
            r is Ok <==> (self.api_key is Some && self.api_secret is Some),
            r is Err ==> r matches Err(CcxtError::AuthenticationError { .. }),
    {
        if self.api_key.is_none() || self.api_secret.is_none() {
            return Err(CcxtError::AuthenticationError { message: copy_str("API credentials required for private channels") });
        }
        Ok(())
    }

    /// The exchange symbol of a unified symbol (see [`spec_mw_format_symbol`]).
    pub fn format_symbol(symbol: &str) -> (r: String)
        ensures
            r@ == spec_mw_format_symbol(symbol@),
    {
        let t = remove_char(symbol, '/');
        to_uppercase(t.as_str())
    }

    /// The unified symbol of an exchange symbol (see [`spec_mw_unified`]).
    pub fn to_unified_symbol(s: &str) -> (r: String)
        ensures
            r@ == spec_mw_unified(s@),
    {
        let u = to_uppercase(s);
        let us = u.as_str();
        proof {
            reveal_strlit("USDT");
            reveal_strlit("USDC");
            reveal_strlit("BTC");
            reveal_strlit("ETH");
            reveal_strlit("BUSD");
            reveal_strlit("TUSD");
            reveal_with_fuel(mw_first_quote, 7);
        }
        let n = us.unicode_len();
        if ends_with_str(us, "USDT") {
            return concat3(substring(us, 0, n - 4).as_str(), "/", "USDT");
        }
        if ends_with_str(us, "USDC") {
            return concat3(substring(us, 0, n - 4).as_str(), "/", "USDC");
        }
        if ends_with_str(us, "BTC") {
            return concat3(substring(us, 0, n - 3).as_str(), "/", "BTC");
        }
        if ends_with_str(us, "ETH") {
            return concat3(substring(us, 0, n - 3).as_str(), "/", "ETH");
        }
        if ends_with_str(us, "BUSD") {
            return concat3(substring(us, 0, n - 4).as_str(), "/", "BUSD");
        }
        if ends_with_str(us, "TUSD") {
            return concat3(substring(us, 0, n - 4).as_str(), "/", "TUSD");
        }
        u
    }

    /// Interval name of a timeframe (see [`spec_mw_interval`]).
    pub fn format_interval(tf: Timeframe) -> (r: &'static str)
        ensures
            r@ == spec_mw_interval(tf),
    {
        match tf {
            Timeframe::Minute5 => "Min5",
            Timeframe::Minute15 => "Min15",
            Timeframe::Minute30 => "Min30",
            Timeframe::Hour1 => "Hour1",
            Timeframe::Hour4 => "Hour4",
            Timeframe::Hour8 => "Hour8",
            Timeframe::Day1 => "Day1",
            Timeframe::Week1 => "Week1",
            Timeframe::Month1 => "Month1",
            _ => "Min1",
        }
    }

    /// Channel of a market's 24-hour ticker.
    pub fn ticker_channel(symbol: &str) -> (r: String)
        ensures
            r@ == "spot@public.ticker.v3.api@"@ + spec_mw_format_symbol(symbol@),
    {
        let m = Self::format_symbol(symbol);
        concat2("spot@public.ticker.v3.api@", m.as_str())
    }

    /// Channel of a market's book, `limit` levels deep (5 when not given).
    pub fn depth_channel(symbol: &str, limit: Option<u32>) -> (r: String)
        ensures
            r@ == "spot@public.limit.depth.v3.api@"@ + spec_mw_format_symbol(symbol@) + "@"@
                + spec_int_to_string(match limit { Some(l) => l as int, None => 5 }),
    {
        let m = Self::format_symbol(symbol);
        let depth: u32 = match limit {
            Some(l) => l,
            None => 5,
        };
        let d = int_to_string(depth as i128);
        let mut r = concat3("spot@public.limit.depth.v3.api@", m.as_str(), "@");
        push_str(&mut r, d.as_str());
        r
    }

    /// Channel of a market's public trades.
    pub fn deals_channel(symbol: &str) -> (r: String)
        ensures
            r@ == "spot@public.deals.v3.api@"@ + spec_mw_format_symbol(symbol@),
    {
        let m = Self::format_symbol(symbol);
        concat2("spot@public.deals.v3.api@", m.as_str())
    }

    /// Channel of a market's candles of one timeframe.
    pub fn kline_channel(symbol: &str, tf: Timeframe) -> (r: String)
        ensures
            r@ == "spot@public.kline.v3.api@"@ + spec_mw_format_symbol(symbol@) + "@"@ + spec_mw_interval(tf),
    {
        let m = Self::format_symbol(symbol);
        let mut r = concat3("spot@public.kline.v3.api@", m.as_str(), "@");
        push_str(&mut r, Self::format_interval(tf));
        r
    }

    /// The request that subscribes to one channel:
    /// `{"method":"SUBSCRIPTION","params":[channel]}`.
    pub fn subscription_message(channel: &str) -> (r: String)
        ensures
            r@ == "{\"method\":\"SUBSCRIPTION\",\"params\":["@ + json_quoted(channel@) + "]}"@,
    {
        let q = json_string(channel);
        concat3("{\"method\":\"SUBSCRIPTION\",\"params\":[", q.as_str(), "]}")
    }

}


/// The first of two optional texts that is present.
pub open spec fn or_text(a: Option<String>, b: Option<String>) -> Option<String> {
    match a {
        Some(x) => Some(x),
        None => b,
    }
}

/// The first of two optional integers that is present.
pub open spec fn or_int(a: Option<i64>, b: Option<i64>) -> Option<i64> {
    match a {
        Some(x) => Some(x),
        None => b,
    }
}

/// The first of two optional flags that is present.
pub open spec fn or_bool(a: Option<bool>, b: Option<bool>) -> Option<bool> {
    match a {
        Some(x) => Some(x),
        None => b,
    }
}

/// An instant, or `now`.
pub open spec fn mw_ts(t: Option<i64>, now: i64) -> i64 {
    match t {
        Some(x) => x,
        None => now,
    }
}

/// The text of an optional id, empty when absent.
pub open spec fn id_text(o: Option<i64>) -> Seq<char> {
    match o {
        Some(n) => spec_int_to_string(n as int),
        None => Seq::<char>::empty(),
    }
}

/// Kind of an order: `MARKET`, else limit (also when absent).
pub open spec fn spec_mw_order_type(o: Option<String>) -> OrderType {
    match o {
        Some(t) => if t@ == "MARKET"@ { OrderType::Market } else { OrderType::Limit },
        None => OrderType::Limit,
    }
}

/// State of an order: `FILLED` is closed; `CANCELED`, `REJECTED`,
/// `EXPIRED` canceled; anything else (also absent) open.
pub open spec fn spec_mw_status(o: Option<String>) -> OrderStatus {
    match o {
        Some(t) => if t@ == "FILLED"@ {
            OrderStatus::Closed
        } else if t@ == "CANCELED"@ || t@ == "REJECTED"@ || t@ == "EXPIRED"@ {
            OrderStatus::Canceled
        } else {
            OrderStatus::Open
        },
        None => OrderStatus::Open,
    }
}

/// An order is closed exactly when its status is `FILLED`, and canceled
/// exactly when it is `CANCELED`, `REJECTED` or `EXPIRED`.
pub proof fn law_status_words(s: Option<String>)
    ensures
        spec_mw_status(s) == OrderStatus::Closed <==> (opt_view(s) == Some("FILLED"@)),
        spec_mw_status(s) == OrderStatus::Canceled <==> (opt_view(s) == Some("CANCELED"@) || opt_view(s) == Some("REJECTED"@) || opt_view(s) == Some("EXPIRED"@)),
{
    reveal_strlit("FILLED");
    reveal_strlit("CANCELED");
    reveal_strlit("REJECTED");
    reveal_strlit("EXPIRED");
    assert("FILLED"@.len() != "CANCELED"@.len());
    assert("FILLED"@.len() != "REJECTED"@.len());
    assert("FILLED"@.len() != "EXPIRED"@.len());
    assert("CANCELED"@[0] != "REJECTED"@[0]);
    assert("CANCELED"@.len() != "EXPIRED"@.len());
    assert("REJECTED"@.len() != "EXPIRED"@.len());
}

/// An order from an execution report at time `now`; the long keys take
/// precedence over the short ones; numbers are zero when unreadable.
pub open spec fn mw_order_ok(d: MexcOrderUpdateData, now: i64, o: Order) -> bool {
    let ts = mw_ts(d.time, now);
    let price = opt_text_dec_or_zero(or_text(d.price, d.p));
    let amount = opt_text_dec_or_zero(or_text(d.quantity, d.q));
    let filled = opt_text_dec_or_zero(or_text(d.executed_qty, d.z));
    let cost = opt_text_dec_or_zero(d.cummulative_quote_qty);
    &&& o.id@ == id_text(or_int(d.order_id, d.i))
    &&& opt_view(o.client_order_id) == opt_view(or_text(d.client_order_id, d.c))
    &&& o.timestamp == Some(ts)
    &&& opt_view(o.datetime) == Some(iso8601_or_empty_spec(ts as int))
    &&& o.last_trade_timestamp is None
    &&& o.last_update_timestamp == d.time
    &&& o.status == spec_mw_status(d.order_status)
    &&& o.symbol@ == spec_mw_unified(match or_text(d.symbol, d.s) {
        Some(x) => x@,
        None => Seq::<char>::empty(),
    })
    &&& o.order_type == spec_mw_order_type(or_text(d.order_type, d.o))
    &&& o.time_in_force is None
    &&& o.side == (if opt_view(d.side) == Some("SELL"@) { OrderSide::Sell } else { OrderSide::Buy })
    &&& opt_parts(o.price) == Some(price)
    &&& opt_parts(o.average) == (if filled.0 > 0 { spec_dec_div(cost, filled) } else { None })
    &&& o.amount.parts() == amount
    &&& o.filled.parts() == filled
    &&& opt_parts(o.remaining) == spec_dec_sub(amount, filled)
    &&& opt_parts(o.cost) == Some(cost)
    &&& o.stop_price is None && o.trigger_price is None && o.fee is None
    &&& o.reduce_only is None && o.post_only is None
    &&& o.no_extras()
}

/// An order update sells exactly when its side is `SELL`.
pub proof fn law_order_side(d: MexcOrderUpdateData, now: i64, o: Order)
    requires
        mw_order_ok(d, now, o),
    ensures
        o.side == OrderSide::Sell <==> opt_view(d.side) == Some("SELL"@),
{
}

/// A fill from a fill report at time `now`.
pub open spec fn mw_my_trade_ok(d: MexcTradeUpdateData, now: i64, e: WsMyTradeEvent) -> bool {
    let ts = mw_ts(d.trade_time, now);
    let price = opt_text_dec_or_zero(or_text(d.price, d.p));
    let amount = opt_text_dec_or_zero(or_text(d.quantity, d.q));
    let commission = opt_text_dec_or_zero(or_text(d.commission, d.n));
    let sym = spec_mw_unified(match or_text(d.symbol, d.s) {
        Some(x) => x@,
        None => Seq::<char>::empty(),
    });
    &&& e.symbol@ == sym
    &&& e.trades@.len() == 1
    &&& e.trades@[0].id@ == id_text(or_int(d.trade_id, d.t))
    &&& opt_view(e.trades@[0].order) == match or_int(d.order_id, d.i) {
        Some(n) => Some(spec_int_to_string(n as int)),
        None => None,
    }
    &&& e.trades@[0].timestamp == Some(ts)
    &&& opt_view(e.trades@[0].datetime) == Some(iso8601_or_empty_spec(ts as int))
    &&& e.trades@[0].symbol@ == sym
    &&& e.trades@[0].trade_type is None
    &&& opt_view(e.trades@[0].side) == match d.side {
        Some(x) => Some(if x@ == "SELL"@ { "sell"@ } else { "buy"@ }),
        None => None,
    }
    &&& e.trades@[0].taker_or_maker == match or_bool(d.is_maker, d.m) {
        Some(true) => Some(TakerOrMaker::Maker),
        Some(false) => Some(TakerOrMaker::Taker),
        None => None,
    }
    &&& e.trades@[0].price.parts() == price
    &&& e.trades@[0].amount.parts() == amount
    &&& opt_parts(e.trades@[0].cost) == spec_dec_mul(price, amount)
    &&& e.trades@[0].fee matches Some(f) && opt_parts(f.cost) == Some(commission)
        && opt_view(f.currency) == opt_view(d.commission_asset) && f.rate is None
}

/// An own fill of side `SELL` was a sell; one of any other given side a
/// buy; one without a side has none.
pub proof fn law_own_trade_side(d: MexcTradeUpdateData, now: i64, e: WsMyTradeEvent)
    requires
        mw_my_trade_ok(d, now, e),
    ensures
        opt_view(d.side) == Some("SELL"@) ==> opt_view(e.trades@[0].side) == Some("sell"@),
        (d.side is Some && opt_view(d.side) != Some("SELL"@)) ==> opt_view(e.trades@[0].side) == Some("buy"@),
        d.side is None ==> e.trades@[0].side is None,
{
}

/// The account items that name an asset.
pub open spec fn mw_named(items: Seq<MexcBalanceItem>) -> Seq<MexcBalanceItem> {
    items.filter(|b: MexcBalanceItem| b.a is Some)
}

/// A balance from an account item: free, locked as used, their sum.
pub open spec fn mw_balance_ok(b: MexcBalanceItem, r: Balance) -> bool {
    let free = opt_text_dec_or_zero(b.f);
    let locked = opt_text_dec_or_zero(b.l);
    &&& opt_parts(r.free) == Some(free)
    &&& opt_parts(r.used) == Some(locked)
    &&& opt_parts(r.total) == spec_dec_add(free, locked)
}

impl MexcWs {
    /// Kind of an order (see [`spec_mw_order_type`]).
    fn order_type_of(o: &Option<String>) -> (r: OrderType)
        ensures
            r == spec_mw_order_type(*o),
    {
        match o {
            Some(t) => if str_eq(t.as_str(), "MARKET") { OrderType::Market } else { OrderType::Limit },
            None => OrderType::Limit,
        }
    }

    /// State of an order (see [`spec_mw_status`]).
    fn status_of(o: &Option<String>) -> (r: OrderStatus)
        ensures
            r == spec_mw_status(*o),
    {
        match o {
            Some(t) => {
                let t = t.as_str();
                if str_eq(t, "FILLED") {
                    OrderStatus::Closed
                } else if str_eq(t, "CANCELED") || str_eq(t, "REJECTED") || str_eq(t, "EXPIRED") {
                    OrderStatus::Canceled
                } else {
                    OrderStatus::Open
                }
            },
            None => OrderStatus::Open,
        }
    }

    /// The first of two optional texts, copied.
    fn first_text(a: &Option<String>, b: &Option<String>) -> (r: Option<String>)
        ensures
            opt_view(r) == opt_view(or_text(*a, *b)),
    {
        match a {
            Some(x) => Some(copy_str(x.as_str())),
            None => copy_opt(b),
        }
    }

    /// The text of an optional id, empty when absent.
    fn id_of(o: Option<i64>) -> (r: String)
        ensures
            r@ == id_text(o),
    {
        match o {
            Some(n) => int_to_string(n as i128),
            None => String::new(),
        }
    }

    /// An order update from an execution report (see [`mw_order_ok`]).
    pub fn parse_order_update(data: &MexcOrderUpdateData, now: i64) -> (r: WsOrderEvent)
        ensures
            mw_order_ok(*data, now, r.order),
    {
        let ts: i64 = match data.time {
            Some(t) => t,
            None => now,
        };
        let price = parse_opt_or_zero(&Self::first_text(&data.price, &data.p));
        let amount = parse_opt_or_zero(&Self::first_text(&data.quantity, &data.q));
        let filled = parse_opt_or_zero(&Self::first_text(&data.executed_qty, &data.z));
        let cost = parse_opt_or_zero(&data.cummulative_quote_qty);
        let sym_text = match Self::first_text(&data.symbol, &data.s) {
            Some(x) => x,
            None => String::new(),
        };
        let is_sell = match &data.side {
            Some(x) => str_eq(x.as_str(), "SELL"),
            None => false,
        };
        let order_id = match data.order_id {
            Some(n) => Some(n),
            None => data.i,
        };
        let order = Order {
            id: Self::id_of(order_id),
            client_order_id: Self::first_text(&data.client_order_id, &data.c),
            timestamp: Some(ts),
            datetime: Some(iso8601_or_empty(ts)),
            last_trade_timestamp: None,
            last_update_timestamp: data.time,
            status: Self::status_of(&data.order_status),
            symbol: Self::to_unified_symbol(sym_text.as_str()),
            order_type: Self::order_type_of(&Self::first_text(&data.order_type, &data.o)),
            time_in_force: None,
            side: if is_sell { OrderSide::Sell } else { OrderSide::Buy },
            price: Some(price),
            average: if filled.is_positive() { dec_div(cost, filled) } else { None },
            amount,
            filled,
            remaining: dec_sub(amount, filled),
            stop_price: None,
            trigger_price: None,
            take_profit_price: None,
            stop_loss_price: None,
            trades: Vec::new(),
            cost: Some(cost),
            fee: None,
            reduce_only: None,
            post_only: None,
        };
        WsOrderEvent { order }
    }

    /// A fill from a fill report (see [`mw_my_trade_ok`]).
    pub fn parse_my_trade(data: &MexcTradeUpdateData, now: i64) -> (r: WsMyTradeEvent)
        ensures
            mw_my_trade_ok(*data, now, r),
    {
        let ts: i64 = match data.trade_time {
            Some(t) => t,
            None => now,
        };
        let price = parse_opt_or_zero(&Self::first_text(&data.price, &data.p));
        let amount = parse_opt_or_zero(&Self::first_text(&data.quantity, &data.q));
        let commission = parse_opt_or_zero(&Self::first_text(&data.commission, &data.n));
        let side = match &data.side {
            Some(x) => Some(if str_eq(x.as_str(), "SELL") { copy_str("sell") } else { copy_str("buy") }),
            None => None,
        };
        let maker = match data.is_maker {
            Some(b) => Some(b),
            None => data.m,
        };
        let sym_text = match Self::first_text(&data.symbol, &data.s) {
            Some(x) => x,
            None => String::new(),
        };
        let symbol = Self::to_unified_symbol(sym_text.as_str());
        let trade_id = match data.trade_id {
            Some(n) => Some(n),
            None => data.t,
        };
        let order_id = match data.order_id {
            Some(n) => Some(n),
            None => data.i,
        };
        let trade = Trade {
            id: Self::id_of(trade_id),
            order: match order_id {
                Some(n) => Some(int_to_string(n as i128)),
                None => None,
            },
            timestamp: Some(ts),
            datetime: Some(iso8601_or_empty(ts)),
            symbol: copy_str(symbol.as_str()),
            trade_type: None,
            side,
            taker_or_maker: match maker {
                Some(true) => Some(TakerOrMaker::Maker),
                Some(false) => Some(TakerOrMaker::Taker),
                None => None,
            },
            price,
            amount,
            cost: dec_mul(price, amount),
            fee: Some(Fee { cost: Some(commission), currency: copy_opt(&data.commission_asset), rate: None }),
        };
        let mut trades: Vec<Trade> = Vec::new();
        trades.push(trade);
        WsMyTradeEvent { symbol, trades }
    }

    /// Holdings of an account message at time `now`: one balance per named
    /// asset (a later item of an asset replacing an earlier one).
    pub fn parse_balance_update(data: &MexcBalanceUpdateData, now: i64) -> (r: WsBalanceEvent)
        ensures
            keyed_by_last(
                mw_named(data.balances@).map_values(|b: MexcBalanceItem| b.a->0@),
                r.balances.currencies@,
                |i: int, bal: Balance| mw_balance_ok(mw_named(data.balances@)[i], bal),
            ),
            r.balances.timestamp == Some(mw_ts(data.event_time, now)),
            opt_view(r.balances.datetime) == Some(iso8601_or_empty_spec(mw_ts(data.event_time, now) as int)),
    {
        let ts: i64 = match data.event_time {
            Some(t) => t,
            None => now,
        };
        let rows = &data.balances;
        let ghost named = mw_named(rows@);
        let ghost ok = |i: int, bal: Balance| mw_balance_ok(named[i], bal);
        let mut result = Balances::new();
        result.timestamp = Some(ts);
        result.datetime = Some(iso8601_or_empty(ts));
        let n = rows.len();
        let mut k: usize = 0;
        proof {
            lemma_keyed_empty(ok);
            assert(mw_named(rows@.take(0)) =~= Seq::<MexcBalanceItem>::empty());
            assert(mw_named(rows@.take(0)).map_values(|b: MexcBalanceItem| b.a->0@) =~= Seq::<Seq<char>>::empty());
            assert(result.currencies@ =~= Seq::<(String, Balance)>::empty());
        }
        while k < n
            invariant
                n == rows@.len(),
                k <= n,
                named == mw_named(rows@),
                result.timestamp == Some(ts),
                opt_view(result.datetime) == Some(iso8601_or_empty_spec(ts as int)),
                ok == (|i: int, bal: Balance| mw_balance_ok(named[i], bal)),
                mw_named(rows@.take(k as int)).len() <= named.len(),
                forall|j: int| 0 <= j < mw_named(rows@.take(k as int)).len() ==> #[trigger] mw_named(rows@.take(k as int))[j] == named[j],
                keyed_by_last(mw_named(rows@.take(k as int)).map_values(|b: MexcBalanceItem| b.a->0@), result.currencies@, ok),
            decreases n - k,
        {
            let ghost pre = mw_named(rows@.take(k as int));
            proof {
                assert(rows@.take(k + 1).drop_last() =~= rows@.take(k as int));
                assert(rows@.take(k + 1).last() == rows@[k as int]);
                reveal_with_fuel(Seq::<_>::filter, 1);
                assert(rows@ =~= rows@.take(k + 1) + rows@.skip(k + 1));
                Seq::filter_distributes_over_add(rows@.take(k + 1), rows@.skip(k + 1), |b: MexcBalanceItem| b.a is Some);
            }
            match &rows[k].a {
                Some(asset) => {
                    let free = parse_opt_or_zero(&rows[k].f);
                    let locked = parse_opt_or_zero(&rows[k].l);
                    let bal = Balance { free: Some(free), used: Some(locked), total: dec_add(free, locked) };
                    let ghost before = result.currencies@;
                    result.add(copy_str(asset.as_str()), bal);
                    proof {
                        let codes = pre.map_values(|b: MexcBalanceItem| b.a->0@);
                        assert(mw_named(rows@.take(k + 1)) == pre.push(rows@[k as int]));
                        assert(mw_named(rows@.take(k + 1))[pre.len() as int] == rows@[k as int]);
                        assert(named[pre.len() as int] == rows@[k as int]);
                        lemma_keyed_step(codes, before, result.currencies@, asset@, bal, ok);
                        assert(codes.push(asset@) =~= mw_named(rows@.take(k + 1)).map_values(|b: MexcBalanceItem| b.a->0@));
                    }
                },
                None => {
                    proof {
                        assert(mw_named(rows@.take(k + 1)) == pre);
                    }
                },
            }
            k = k + 1;
        }
        assert(rows@.take(n as int) =~= rows@);
        WsBalanceEvent { balances: result }
    }
}

/// MexcTickerData as a derived deserializer reads it from an object.
pub open spec fn mw_ticker_read(j: Json, d: MexcTickerData) -> bool {
    &&& j is Obj
    &&& opt_text_is(spec_opt_str_field(j, "o"@), d.o)
    &&& opt_text_is(spec_opt_str_field(j, "c"@), d.c)
    &&& opt_text_is(spec_opt_str_field(j, "h"@), d.h)
    &&& opt_text_is(spec_opt_str_field(j, "l"@), d.l)
    &&& opt_text_is(spec_opt_str_field(j, "v"@), d.v)
    &&& opt_text_is(spec_opt_str_field(j, "q"@), d.q)
    &&& opt_text_is(spec_opt_str_field(j, "r"@), d.r)
    &&& opt_text_is(spec_opt_str_field(j, "b"@), d.b)
    &&& opt_text_is(spec_opt_str_field(j, "a"@), d.a)
    &&& opt_int_is(spec_opt_i64_field(j, "t"@), d.t)
}

/// Whether MexcTickerData reads from a value.
pub open spec fn mw_ticker_reads(j: Json) -> bool {
    &&& j is Obj
    &&& spec_opt_str_field(j, "o"@) is Ok
    &&& spec_opt_str_field(j, "c"@) is Ok
    &&& spec_opt_str_field(j, "h"@) is Ok
    &&& spec_opt_str_field(j, "l"@) is Ok
    &&& spec_opt_str_field(j, "v"@) is Ok
    &&& spec_opt_str_field(j, "q"@) is Ok
    &&& spec_opt_str_field(j, "r"@) is Ok
    &&& spec_opt_str_field(j, "b"@) is Ok
    &&& spec_opt_str_field(j, "a"@) is Ok
    &&& spec_opt_i64_field(j, "t"@) is Ok
}

/// MexcDepthEntry as a derived deserializer reads it from an object.
pub open spec fn mw_entry_read(j: Json, d: MexcDepthEntry) -> bool {
    &&& j is Obj
    &&& opt_text_is(spec_opt_str_field(j, "p"@), d.p)
    &&& opt_text_is(spec_opt_str_field(j, "v"@), d.v)
}

/// Whether MexcDepthEntry reads from a value.
pub open spec fn mw_entry_reads(j: Json) -> bool {
    &&& j is Obj
    &&& spec_opt_str_field(j, "p"@) is Ok
    &&& spec_opt_str_field(j, "v"@) is Ok
}

/// MexcTradeData as a derived deserializer reads it from an object.
pub open spec fn mw_deal_read(j: Json, d: MexcTradeData) -> bool {
    &&& j is Obj
    &&& opt_text_is(spec_opt_str_field(j, "p"@), d.p)
    &&& opt_text_is(spec_opt_str_field(j, "v"@), d.v)
    &&& opt_text_is(spec_opt_str_field(j, "S"@), d.side)
    &&& opt_int_is(spec_opt_i64_field(j, "t"@), d.t)
}

/// Whether MexcTradeData reads from a value.
pub open spec fn mw_deal_reads(j: Json) -> bool {
    &&& j is Obj
    &&& spec_opt_str_field(j, "p"@) is Ok
    &&& spec_opt_str_field(j, "v"@) is Ok
    &&& spec_opt_str_field(j, "S"@) is Ok
    &&& spec_opt_i64_field(j, "t"@) is Ok
}

/// MexcKlineData as a derived deserializer reads it from an object.
pub open spec fn mw_kline_read(j: Json, d: MexcKlineData) -> bool {
    &&& j is Obj
    &&& opt_int_is(spec_opt_i64_field(j, "t"@), d.t)
    &&& opt_text_is(spec_opt_str_field(j, "o"@), d.o)
    &&& opt_text_is(spec_opt_str_field(j, "c"@), d.c)
    &&& opt_text_is(spec_opt_str_field(j, "h"@), d.h)
    &&& opt_text_is(spec_opt_str_field(j, "l"@), d.l)
    &&& opt_text_is(spec_opt_str_field(j, "v"@), d.v)
    &&& opt_text_is(spec_opt_str_field(j, "q"@), d.q)
}

/// Whether MexcKlineData reads from a value.
pub open spec fn mw_kline_reads(j: Json) -> bool {
    &&& j is Obj
    &&& spec_opt_i64_field(j, "t"@) is Ok
    &&& spec_opt_str_field(j, "o"@) is Ok
    &&& spec_opt_str_field(j, "c"@) is Ok
    &&& spec_opt_str_field(j, "h"@) is Ok
    &&& spec_opt_str_field(j, "l"@) is Ok
    &&& spec_opt_str_field(j, "v"@) is Ok
    &&& spec_opt_str_field(j, "q"@) is Ok
}

/// MexcOrderUpdateData as a derived deserializer reads it from an object.
pub open spec fn mw_order_read(j: Json, d: MexcOrderUpdateData) -> bool {
    &&& j is Obj
    &&& opt_text_is(spec_opt_str_field(j, "e"@), d.e)
    &&& opt_int_is(spec_opt_i64_field(j, "E"@), d.event_time)
    &&& opt_text_is(spec_opt_str_field(j, "s"@), d.s)
    &&& opt_text_is(spec_opt_str_field(j, "c"@), d.c)
    &&& opt_text_is(spec_opt_str_field(j, "S"@), d.side)
    &&& opt_text_is(spec_opt_str_field(j, "o"@), d.o)
    &&& opt_text_is(spec_opt_str_field(j, "q"@), d.q)
    &&& opt_text_is(spec_opt_str_field(j, "p"@), d.p)
    &&& opt_text_is(spec_opt_str_field(j, "X"@), d.order_status)
    &&& opt_int_is(spec_opt_i64_field(j, "i"@), d.i)
    &&& opt_text_is(spec_opt_str_field(j, "z"@), d.z)
    &&& opt_text_is(spec_opt_str_field(j, "Z"@), d.cummulative_quote_qty)
    &&& opt_int_is(spec_opt_i64_field(j, "T"@), d.time)
    &&& opt_text_is(spec_opt_str_field(j, "symbol"@), d.symbol)
    &&& opt_int_is(spec_opt_i64_field(j, "order_id"@), d.order_id)
    &&& opt_text_is(spec_opt_str_field(j, "client_order_id"@), d.client_order_id)
    &&& opt_text_is(spec_opt_str_field(j, "order_type"@), d.order_type)
    &&& opt_text_is(spec_opt_str_field(j, "price"@), d.price)
    &&& opt_text_is(spec_opt_str_field(j, "quantity"@), d.quantity)
    &&& opt_text_is(spec_opt_str_field(j, "executed_qty"@), d.executed_qty)
}

/// Whether MexcOrderUpdateData reads from a value.
pub open spec fn mw_order_reads(j: Json) -> bool {
    &&& j is Obj
    &&& spec_opt_str_field(j, "e"@) is Ok
    &&& spec_opt_i64_field(j, "E"@) is Ok
    &&& spec_opt_str_field(j, "s"@) is Ok
    &&& spec_opt_str_field(j, "c"@) is Ok
    &&& spec_opt_str_field(j, "S"@) is Ok
    &&& spec_opt_str_field(j, "o"@) is Ok
    &&& spec_opt_str_field(j, "q"@) is Ok
    &&& spec_opt_str_field(j, "p"@) is Ok
    &&& spec_opt_str_field(j, "X"@) is Ok
    &&& spec_opt_i64_field(j, "i"@) is Ok
    &&& spec_opt_str_field(j, "z"@) is Ok
    &&& spec_opt_str_field(j, "Z"@) is Ok
    &&& spec_opt_i64_field(j, "T"@) is Ok
    &&& spec_opt_str_field(j, "symbol"@) is Ok
    &&& spec_opt_i64_field(j, "order_id"@) is Ok
    &&& spec_opt_str_field(j, "client_order_id"@) is Ok
    &&& spec_opt_str_field(j, "order_type"@) is Ok
    &&& spec_opt_str_field(j, "price"@) is Ok
    &&& spec_opt_str_field(j, "quantity"@) is Ok
    &&& spec_opt_str_field(j, "executed_qty"@) is Ok
}

/// MexcTradeUpdateData as a derived deserializer reads it from an object.
pub open spec fn mw_fill_read(j: Json, d: MexcTradeUpdateData) -> bool {
    &&& j is Obj
    &&& opt_text_is(spec_opt_str_field(j, "e"@), d.e)
    &&& opt_int_is(spec_opt_i64_field(j, "E"@), d.event_time)
    &&& opt_text_is(spec_opt_str_field(j, "s"@), d.s)
    &&& opt_int_is(spec_opt_i64_field(j, "t"@), d.t)
    &&& opt_text_is(spec_opt_str_field(j, "p"@), d.p)
    &&& opt_text_is(spec_opt_str_field(j, "q"@), d.q)
    &&& opt_text_is(spec_opt_str_field(j, "n"@), d.n)
    &&& opt_text_is(spec_opt_str_field(j, "N"@), d.commission_asset)
    &&& opt_int_is(spec_opt_i64_field(j, "T"@), d.trade_time)
    &&& spec_opt_bool_field(j, "m"@) == Ok::<Option<bool>, ()>(d.m)
    &&& opt_text_is(spec_opt_str_field(j, "S"@), d.side)
    &&& opt_int_is(spec_opt_i64_field(j, "i"@), d.i)
    &&& opt_text_is(spec_opt_str_field(j, "symbol"@), d.symbol)
    &&& opt_int_is(spec_opt_i64_field(j, "order_id"@), d.order_id)
    &&& opt_int_is(spec_opt_i64_field(j, "trade_id"@), d.trade_id)
    &&& opt_text_is(spec_opt_str_field(j, "price"@), d.price)
    &&& opt_text_is(spec_opt_str_field(j, "quantity"@), d.quantity)
    &&& opt_text_is(spec_opt_str_field(j, "commission"@), d.commission)
    &&& spec_opt_bool_field(j, "is_maker"@) == Ok::<Option<bool>, ()>(d.is_maker)
}

/// Whether MexcTradeUpdateData reads from a value.
pub open spec fn mw_fill_reads(j: Json) -> bool {
    &&& j is Obj
    &&& spec_opt_str_field(j, "e"@) is Ok
    &&& spec_opt_i64_field(j, "E"@) is Ok
    &&& spec_opt_str_field(j, "s"@) is Ok
    &&& spec_opt_i64_field(j, "t"@) is Ok
    &&& spec_opt_str_field(j, "p"@) is Ok
    &&& spec_opt_str_field(j, "q"@) is Ok
    &&& spec_opt_str_field(j, "n"@) is Ok
    &&& spec_opt_str_field(j, "N"@) is Ok
    &&& spec_opt_i64_field(j, "T"@) is Ok
    &&& spec_opt_bool_field(j, "m"@) is Ok
    &&& spec_opt_str_field(j, "S"@) is Ok
    &&& spec_opt_i64_field(j, "i"@) is Ok
    &&& spec_opt_str_field(j, "symbol"@) is Ok
    &&& spec_opt_i64_field(j, "order_id"@) is Ok
    &&& spec_opt_i64_field(j, "trade_id"@) is Ok
    &&& spec_opt_str_field(j, "price"@) is Ok
    &&& spec_opt_str_field(j, "quantity"@) is Ok
    &&& spec_opt_str_field(j, "commission"@) is Ok
    &&& spec_opt_bool_field(j, "is_maker"@) is Ok
}

/// MexcBalanceItem as a derived deserializer reads it from an object.
pub open spec fn mw_item_read(j: Json, d: MexcBalanceItem) -> bool {
    &&& j is Obj
    &&& opt_text_is(spec_opt_str_field(j, "a"@), d.a)
    &&& opt_text_is(spec_opt_str_field(j, "f"@), d.f)
    &&& opt_text_is(spec_opt_str_field(j, "l"@), d.l)
}

/// Whether MexcBalanceItem reads from a value.
pub open spec fn mw_item_reads(j: Json) -> bool {
    &&& j is Obj
    &&& spec_opt_str_field(j, "a"@) is Ok
    &&& spec_opt_str_field(j, "f"@) is Ok
    &&& spec_opt_str_field(j, "l"@) is Ok
}

/// MexcBalanceUpdateData as a derived deserializer reads it from an object.
pub open spec fn mw_balance_read(j: Json, d: MexcBalanceUpdateData) -> bool {
    &&& j is Obj
    &&& opt_text_is(spec_opt_str_field(j, "e"@), d.e)
    &&& opt_int_is(spec_opt_i64_field(j, "E"@), d.event_time)
    &&& opt_int_is(spec_opt_i64_field(j, "u"@), d.u)
    &&& mw_items_read(j, "B"@, d.balances@)
}

/// Whether MexcBalanceUpdateData reads from a value.
pub open spec fn mw_balance_reads(j: Json) -> bool {
    &&& j is Obj
    &&& spec_opt_str_field(j, "e"@) is Ok
    &&& spec_opt_i64_field(j, "E"@) is Ok
    &&& spec_opt_i64_field(j, "u"@) is Ok
    &&& mw_items_reads(j, "B"@)
}

/// MexcDepthData as a derived deserializer reads it from an object.
pub open spec fn mw_depth_read(j: Json, d: MexcDepthData) -> bool {
    &&& j is Obj
    &&& spec_opt_u64_field(j, "r"@) == Ok::<Option<int>, ()>(match d.r { Some(n) => Some(n as int), None => None })
    &&& mw_entries_read(j, "bids"@, d.bids@)
    &&& mw_entries_read(j, "asks"@, d.asks@)
}

/// Whether MexcDepthData reads from a value.
pub open spec fn mw_depth_reads(j: Json) -> bool {
    &&& j is Obj
    &&& spec_opt_u64_field(j, "r"@) is Ok
    &&& mw_entries_reads(j, "bids"@)
    &&& mw_entries_reads(j, "asks"@)
}

/// A list member of MexcDepthEntry (absent: empty), read item by item.
pub open spec fn mw_entries_read(j: Json, key: Seq<char>, v: Seq<MexcDepthEntry>) -> bool {
    match spec_get(j, key) {
        None => v.len() == 0,
        Some(Json::Arr(items)) => v.len() == items@.len() && forall|k: int| 0 <= k < v.len() ==> #[trigger] mw_entry_read(items@[k], v[k]),
        _ => false,
    }
}

/// Whether a list member of MexcDepthEntry reads.
pub open spec fn mw_entries_reads(j: Json, key: Seq<char>) -> bool {
    match spec_get(j, key) {
        None => true,
        Some(Json::Arr(items)) => forall|k: int| 0 <= k < items@.len() ==> #[trigger] mw_entry_reads(items@[k]),
        _ => false,
    }
}

/// A list member of MexcTradeData (absent: empty), read item by item.
pub open spec fn mw_deals_list_read(j: Json, key: Seq<char>, v: Seq<MexcTradeData>) -> bool {
    match spec_get(j, key) {
        None => v.len() == 0,
        Some(Json::Arr(items)) => v.len() == items@.len() && forall|k: int| 0 <= k < v.len() ==> #[trigger] mw_deal_read(items@[k], v[k]),
        _ => false,
    }
}

/// Whether a list member of MexcTradeData reads.
pub open spec fn mw_deals_list_reads(j: Json, key: Seq<char>) -> bool {
    match spec_get(j, key) {
        None => true,
        Some(Json::Arr(items)) => forall|k: int| 0 <= k < items@.len() ==> #[trigger] mw_deal_reads(items@[k]),
        _ => false,
    }
}

/// A list member of MexcBalanceItem (absent: empty), read item by item.
pub open spec fn mw_items_read(j: Json, key: Seq<char>, v: Seq<MexcBalanceItem>) -> bool {
    match spec_get(j, key) {
        None => v.len() == 0,
        Some(Json::Arr(items)) => v.len() == items@.len() && forall|k: int| 0 <= k < v.len() ==> #[trigger] mw_item_read(items@[k], v[k]),
        _ => false,
    }
}

/// Whether a list member of MexcBalanceItem reads.
pub open spec fn mw_items_reads(j: Json, key: Seq<char>) -> bool {
    match spec_get(j, key) {
        None => true,
        Some(Json::Arr(items)) => forall|k: int| 0 <= k < items@.len() ==> #[trigger] mw_item_reads(items@[k]),
        _ => false,
    }
}

/// The deals of a deals message (absent: none).
pub open spec fn mw_deals_read(j: Json, v: Seq<MexcTradeData>) -> bool {
    j is Obj && mw_deals_list_read(j, "deals"@, v)
}

/// Whether the deals of a deals message read.
pub open spec fn mw_deals_reads(j: Json) -> bool {
    j is Obj && mw_deals_list_reads(j, "deals"@)
}

/// The candle of a candle message (absent: all empty).
pub open spec fn mw_kline_wrapper_read(j: Json, k: MexcKlineData) -> bool {
    j is Obj && match spec_get(j, "k"@) {
        None => k == MexcKlineData { t: None, o: None, c: None, h: None, l: None, v: None, q: None },
        Some(x) => mw_kline_read(x, k),
    }
}

/// Whether the candle of a candle message reads.
pub open spec fn mw_kline_wrapper_reads(j: Json) -> bool {
    j is Obj && match spec_get(j, "k"@) {
        None => true,
        Some(x) => mw_kline_reads(x),
    }
}

impl MexcWs {
    /// Reads MexcTickerData from a value.
    pub fn read_ticker_data(j: &Json) -> (r: Result<MexcTickerData, ()>)
        ensures
            r is Ok <==> mw_ticker_reads(*j),
            r matches Ok(d) ==> mw_ticker_read(*j, d),
    {
        match j {
            Json::Obj(_) => {},
            _ => {
                return Err(());
            },
        }
        let o = match j.opt_str_field("o") { Ok(v) => v, Err(_) => { return Err(()); } };
        let c = match j.opt_str_field("c") { Ok(v) => v, Err(_) => { return Err(()); } };
        let h = match j.opt_str_field("h") { Ok(v) => v, Err(_) => { return Err(()); } };
        let l = match j.opt_str_field("l") { Ok(v) => v, Err(_) => { return Err(()); } };
        let v = match j.opt_str_field("v") { Ok(v) => v, Err(_) => { return Err(()); } };
        let q = match j.opt_str_field("q") { Ok(v) => v, Err(_) => { return Err(()); } };
        let r = match j.opt_str_field("r") { Ok(v) => v, Err(_) => { return Err(()); } };
        let b = match j.opt_str_field("b") { Ok(v) => v, Err(_) => { return Err(()); } };
        let a = match j.opt_str_field("a") { Ok(v) => v, Err(_) => { return Err(()); } };
        let t = match j.opt_i64_field("t") { Ok(v) => v, Err(_) => { return Err(()); } };
        Ok(MexcTickerData { o, c, h, l, v, q, r, b, a, t })
    }
    /// Reads MexcDepthEntry from a value.
    pub fn read_depth_entry(j: &Json) -> (r: Result<MexcDepthEntry, ()>)
        ensures
            r is Ok <==> mw_entry_reads(*j),
            r matches Ok(d) ==> mw_entry_read(*j, d),
    {
        match j {
            Json::Obj(_) => {},
            _ => {
                return Err(());
            },
        }
        let p = match j.opt_str_field("p") { Ok(v) => v, Err(_) => { return Err(()); } };
        let v = match j.opt_str_field("v") { Ok(v) => v, Err(_) => { return Err(()); } };
        Ok(MexcDepthEntry { p, v })
    }
    /// Reads MexcTradeData from a value.
    pub fn read_deal(j: &Json) -> (r: Result<MexcTradeData, ()>)
        ensures
            r is Ok <==> mw_deal_reads(*j),
            r matches Ok(d) ==> mw_deal_read(*j, d),
    {
        match j {
            Json::Obj(_) => {},
            _ => {
                return Err(());
            },
        }
        let p = match j.opt_str_field("p") { Ok(v) => v, Err(_) => { return Err(()); } };
        let v = match j.opt_str_field("v") { Ok(v) => v, Err(_) => { return Err(()); } };
        let side = match j.opt_str_field("S") { Ok(v) => v, Err(_) => { return Err(()); } };
        let t = match j.opt_i64_field("t") { Ok(v) => v, Err(_) => { return Err(()); } };
        Ok(MexcTradeData { p, v, side, t })
    }
    /// Reads MexcKlineData from a value.
    pub fn read_kline_data(j: &Json) -> (r: Result<MexcKlineData, ()>)
        ensures
            r is Ok <==> mw_kline_reads(*j),
            r matches Ok(d) ==> mw_kline_read(*j, d),
    {
        match j {
            Json::Obj(_) => {},
            _ => {
                return Err(());
            },
        }
        let t = match j.opt_i64_field("t") { Ok(v) => v, Err(_) => { return Err(()); } };
        let o = match j.opt_str_field("o") { Ok(v) => v, Err(_) => { return Err(()); } };
        let c = match j.opt_str_field("c") { Ok(v) => v, Err(_) => { return Err(()); } };
        let h = match j.opt_str_field("h") { Ok(v) => v, Err(_) => { return Err(()); } };
        let l = match j.opt_str_field("l") { Ok(v) => v, Err(_) => { return Err(()); } };
        let v = match j.opt_str_field("v") { Ok(v) => v, Err(_) => { return Err(()); } };
        let q = match j.opt_str_field("q") { Ok(v) => v, Err(_) => { return Err(()); } };
        Ok(MexcKlineData { t, o, c, h, l, v, q })
    }
    /// Reads MexcOrderUpdateData from a value.
    pub fn read_order_data(j: &Json) -> (r: Result<MexcOrderUpdateData, ()>)
        ensures
            r is Ok <==> mw_order_reads(*j),
            r matches Ok(d) ==> mw_order_read(*j, d),
    {
        match j {
            Json::Obj(_) => {},
            _ => {
                return Err(());
            },
        }
        let e = match j.opt_str_field("e") { Ok(v) => v, Err(_) => { return Err(()); } };
        let event_time = match j.opt_i64_field("E") { Ok(v) => v, Err(_) => { return Err(()); } };
        let s = match j.opt_str_field("s") { Ok(v) => v, Err(_) => { return Err(()); } };
        let c = match j.opt_str_field("c") { Ok(v) => v, Err(_) => { return Err(()); } };
        let side = match j.opt_str_field("S") { Ok(v) => v, Err(_) => { return Err(()); } };
        let o = match j.opt_str_field("o") { Ok(v) => v, Err(_) => { return Err(()); } };
        let q = match j.opt_str_field("q") { Ok(v) => v, Err(_) => { return Err(()); } };
        let p = match j.opt_str_field("p") { Ok(v) => v, Err(_) => { return Err(()); } };
        let order_status = match j.opt_str_field("X") { Ok(v) => v, Err(_) => { return Err(()); } };
        let i = match j.opt_i64_field("i") { Ok(v) => v, Err(_) => { return Err(()); } };
        let z = match j.opt_str_field("z") { Ok(v) => v, Err(_) => { return Err(()); } };
        let cummulative_quote_qty = match j.opt_str_field("Z") { Ok(v) => v, Err(_) => { return Err(()); } };
        let time = match j.opt_i64_field("T") { Ok(v) => v, Err(_) => { return Err(()); } };
        let symbol = match j.opt_str_field("symbol") { Ok(v) => v, Err(_) => { return Err(()); } };
        let order_id = match j.opt_i64_field("order_id") { Ok(v) => v, Err(_) => { return Err(()); } };
        let client_order_id = match j.opt_str_field("client_order_id") { Ok(v) => v, Err(_) => { return Err(()); } };
        let order_type = match j.opt_str_field("order_type") { Ok(v) => v, Err(_) => { return Err(()); } };
        let price = match j.opt_str_field("price") { Ok(v) => v, Err(_) => { return Err(()); } };
        let quantity = match j.opt_str_field("quantity") { Ok(v) => v, Err(_) => { return Err(()); } };
        let executed_qty = match j.opt_str_field("executed_qty") { Ok(v) => v, Err(_) => { return Err(()); } };
        Ok(MexcOrderUpdateData { e, event_time, s, c, side, o, q, p, order_status, i, z, cummulative_quote_qty, time, symbol, order_id, client_order_id, order_type, price, quantity, executed_qty })
    }
    /// Reads MexcTradeUpdateData from a value.
    pub fn read_fill_data(j: &Json) -> (r: Result<MexcTradeUpdateData, ()>)
        ensures
            r is Ok <==> mw_fill_reads(*j),
            r matches Ok(d) ==> mw_fill_read(*j, d),
    {
        match j {
            Json::Obj(_) => {},
            _ => {
                return Err(());
            },
        }
        let e = match j.opt_str_field("e") { Ok(v) => v, Err(_) => { return Err(()); } };
        let event_time = match j.opt_i64_field("E") { Ok(v) => v, Err(_) => { return Err(()); } };
        let s = match j.opt_str_field("s") { Ok(v) => v, Err(_) => { return Err(()); } };
        let t = match j.opt_i64_field("t") { Ok(v) => v, Err(_) => { return Err(()); } };
        let p = match j.opt_str_field("p") { Ok(v) => v, Err(_) => { return Err(()); } };
        let q = match j.opt_str_field("q") { Ok(v) => v, Err(_) => { return Err(()); } };
        let n = match j.opt_str_field("n") { Ok(v) => v, Err(_) => { return Err(()); } };
        let commission_asset = match j.opt_str_field("N") { Ok(v) => v, Err(_) => { return Err(()); } };
        let trade_time = match j.opt_i64_field("T") { Ok(v) => v, Err(_) => { return Err(()); } };
        let m = match j.opt_bool_field("m") { Ok(v) => v, Err(_) => { return Err(()); } };
        let side = match j.opt_str_field("S") { Ok(v) => v, Err(_) => { return Err(()); } };
        let i = match j.opt_i64_field("i") { Ok(v) => v, Err(_) => { return Err(()); } };
        let symbol = match j.opt_str_field("symbol") { Ok(v) => v, Err(_) => { return Err(()); } };
        let order_id = match j.opt_i64_field("order_id") { Ok(v) => v, Err(_) => { return Err(()); } };
        let trade_id = match j.opt_i64_field("trade_id") { Ok(v) => v, Err(_) => { return Err(()); } };
        let price = match j.opt_str_field("price") { Ok(v) => v, Err(_) => { return Err(()); } };
        let quantity = match j.opt_str_field("quantity") { Ok(v) => v, Err(_) => { return Err(()); } };
        let commission = match j.opt_str_field("commission") { Ok(v) => v, Err(_) => { return Err(()); } };
        let is_maker = match j.opt_bool_field("is_maker") { Ok(v) => v, Err(_) => { return Err(()); } };
        Ok(MexcTradeUpdateData { e, event_time, s, t, p, q, n, commission_asset, trade_time, m, side, i, symbol, order_id, trade_id, price, quantity, commission, is_maker })
    }
    /// Reads MexcBalanceItem from a value.
    pub fn read_balance_item(j: &Json) -> (r: Result<MexcBalanceItem, ()>)
        ensures
            r is Ok <==> mw_item_reads(*j),
            r matches Ok(d) ==> mw_item_read(*j, d),
    {
        match j {
            Json::Obj(_) => {},
            _ => {
                return Err(());
            },
        }
        let a = match j.opt_str_field("a") { Ok(v) => v, Err(_) => { return Err(()); } };
        let f = match j.opt_str_field("f") { Ok(v) => v, Err(_) => { return Err(()); } };
        let l = match j.opt_str_field("l") { Ok(v) => v, Err(_) => { return Err(()); } };
        Ok(MexcBalanceItem { a, f, l })
    }

    /// Reads the depth levels of a list member.
    fn read_entries(j: &Json, key: &str) -> (r: Result<Vec<MexcDepthEntry>, ()>)
        ensures
            r is Ok <==> mw_entries_reads(*j, key@),
            r matches Ok(v) ==> mw_entries_read(*j, key@, v@),
    {
        let mut out: Vec<MexcDepthEntry> = Vec::new();
        let items = match j.get(key) {
            None => {
                return Ok(out);
            },
            Some(Json::Arr(items)) => items,
            Some(_) => {
                return Err(());
            },
        };
        let n = items.len();
        let mut i: usize = 0;
        while i < n
            invariant
                n == items@.len(),
                i <= n,
                out@.len() == i,
                spec_get(*j, key@) == Some(Json::Arr(*items)),
                forall|k: int| 0 <= k < i ==> mw_entry_read(#[trigger] items@[k], out@[k]),
            decreases n - i,
        {
            match Self::read_depth_entry(&items[i]) {
                Ok(e) => {
                    out.push(e);
                },
                Err(_) => {
                    assert(!mw_entry_reads(items@[i as int]));
                    assert(spec_get(*j, key@) == Some(Json::Arr(*items)));
                    assert(!(forall|k: int| 0 <= k < items@.len() ==> #[trigger] mw_entry_reads(items@[k])));
                    assert(spec_get(*j, key@) matches Some(Json::Arr(v)) && v@ == items@);
                    assert(!mw_entries_reads(*j, key@));
                    return Err(());
                },
            }
            i = i + 1;
        }
        Ok(out)
    }

    /// Reads depth data.
    pub fn read_depth_data(j: &Json) -> (r: Result<MexcDepthData, ()>)
        ensures
            r is Ok <==> mw_depth_reads(*j),
            r matches Ok(d) ==> mw_depth_read(*j, d),
    {
        match j {
            Json::Obj(_) => {},
            _ => {
                return Err(());
            },
        }
        let r = match j.opt_u64_field("r") { Ok(v) => v, Err(_) => { return Err(()); } };
        let bids = match Self::read_entries(j, "bids") { Ok(v) => v, Err(_) => { return Err(()); } };
        let asks = match Self::read_entries(j, "asks") { Ok(v) => v, Err(_) => { return Err(()); } };
        Ok(MexcDepthData { bids, asks, r })
    }

    /// Reads the deals of a deals message.
    pub fn read_deals(j: &Json) -> (r: Result<Vec<MexcTradeData>, ()>)
        ensures
            r is Ok <==> mw_deals_reads(*j),
            r matches Ok(v) ==> mw_deals_read(*j, v@),
    {
        let mut out: Vec<MexcTradeData> = Vec::new();
        match j {
            Json::Obj(_) => {},
            _ => {
                return Err(());
            },
        }
        let items = match j.get("deals") {
            None => {
                return Ok(out);
            },
            Some(Json::Arr(items)) => items,
            Some(_) => {
                return Err(());
            },
        };
        let n = items.len();
        let mut i: usize = 0;
        while i < n
            invariant
                n == items@.len(),
                i <= n,
                out@.len() == i,
                j is Obj,
                spec_get(*j, "deals"@) == Some(Json::Arr(*items)),
                forall|k: int| 0 <= k < i ==> mw_deal_read(#[trigger] items@[k], out@[k]),
            decreases n - i,
        {
            match Self::read_deal(&items[i]) {
                Ok(e) => {
                    out.push(e);
                },
                Err(_) => {
                    assert(!mw_deal_reads(items@[i as int]));
                    assert(spec_get(*j, "deals"@) == Some(Json::Arr(*items)));
                    assert(!(forall|k: int| 0 <= k < items@.len() ==> #[trigger] mw_deal_reads(items@[k])));
                    assert(spec_get(*j, "deals"@) matches Some(Json::Arr(v)) && v@ == items@);
                    assert(!mw_deals_list_reads(*j, "deals"@));
                    return Err(());
                },
            }
            i = i + 1;
        }
        Ok(out)
    }

    /// Reads the candle of a candle message.
    pub fn read_kline_wrapper(j: &Json) -> (r: Result<MexcKlineData, ()>)
        ensures
            r is Ok <==> mw_kline_wrapper_reads(*j),
            r matches Ok(k) ==> mw_kline_wrapper_read(*j, k),
    {
        match j {
            Json::Obj(_) => {},
            _ => {
                return Err(());
            },
        }
        match j.get("k") {
            None => Ok(MexcKlineData { t: None, o: None, c: None, h: None, l: None, v: None, q: None }),
            Some(x) => Self::read_kline_data(x),
        }
    }

    /// Reads an account message.
    pub fn read_balance_data(j: &Json) -> (r: Result<MexcBalanceUpdateData, ()>)
        ensures
            r is Ok <==> mw_balance_reads(*j),
            r matches Ok(d) ==> mw_balance_read(*j, d),
    {
        match j {
            Json::Obj(_) => {},
            _ => {
                return Err(());
            },
        }
        let e = match j.opt_str_field("e") { Ok(v) => v, Err(_) => { return Err(()); } };
        let event_time = match j.opt_i64_field("E") { Ok(v) => v, Err(_) => { return Err(()); } };
        let u = match j.opt_i64_field("u") { Ok(v) => v, Err(_) => { return Err(()); } };
        let mut balances: Vec<MexcBalanceItem> = Vec::new();
        match j.get("B") {
            None => {},
            Some(Json::Arr(items)) => {
                let n = items.len();
                let mut i: usize = 0;
                while i < n
                    invariant
                        n == items@.len(),
                        i <= n,
                        balances@.len() == i,
                        spec_get(*j, "B"@) == Some(Json::Arr(*items)),
                        forall|k: int| 0 <= k < i ==> mw_item_read(#[trigger] items@[k], balances@[k]),
                    decreases n - i,
                {
                    match Self::read_balance_item(&items[i]) {
                        Ok(x) => {
                            balances.push(x);
                        },
                        Err(_) => {
                            assert(!mw_item_reads(items@[i as int]));
                            assert(spec_get(*j, "B"@) == Some(Json::Arr(*items)));
                            assert(!(forall|k: int| 0 <= k < items@.len() ==> #[trigger] mw_item_reads(items@[k])));
                    assert(spec_get(*j, "B"@) matches Some(Json::Arr(v)) && v@ == items@);
                    assert(!mw_items_reads(*j, "B"@));
                            return Err(());
                        },
                    }
                    i = i + 1;
                }
                assert(balances@.map_values(|x: MexcBalanceItem| x) =~= balances@);
            },
            Some(_) => {
                return Err(());
            },
        }
        proof {
            assert(balances@.map_values(|x: MexcBalanceItem| x) =~= balances@);
        }
        Ok(MexcBalanceUpdateData { e, event_time, u, balances })
    }
}


/// A ticker event of a market from ticker data at time `now`.
pub open spec fn mw_ticker_ok(d: MexcTickerData, symbol: Seq<char>, now: i64, e: WsTickerEvent) -> bool {
    let ts = mw_ts(d.t, now);
    let t = e.ticker;
    &&& e.symbol@ == spec_mw_unified(symbol)
    &&& t.symbol@ == e.symbol@
    &&& t.timestamp == Some(ts)
    &&& opt_view(t.datetime) == Some(iso8601_or_empty_spec(ts as int))
    &&& opt_parts(t.high) == opt_text_dec(d.h) && opt_parts(t.low) == opt_text_dec(d.l)
    &&& opt_parts(t.bid) == opt_text_dec(d.b) && t.bid_volume is None
    &&& opt_parts(t.ask) == opt_text_dec(d.a) && t.ask_volume is None
    &&& t.vwap is None && opt_parts(t.open) == opt_text_dec(d.o)
    &&& opt_parts(t.close) == opt_text_dec(d.c) && opt_parts(t.last) == opt_text_dec(d.c)
    &&& t.previous_close is None && t.change is None
    &&& opt_parts(t.percentage) == opt_text_dec(d.r) && t.average is None
    &&& opt_parts(t.base_volume) == opt_text_dec(d.v) && opt_parts(t.quote_volume) == opt_text_dec(d.q)
    &&& t.index_price is None && t.mark_price is None
}

/// A ticker event's bid is the feed's `b` and its ask the feed's `a`, read
/// as decimals.
pub proof fn law_ticker_bid_ask(d: MexcTickerData, symbol: Seq<char>, now: i64, e: WsTickerEvent)
    requires
        mw_ticker_ok(d, symbol, now, e),
    ensures
        opt_parts(e.ticker.bid) == opt_text_dec(d.b),
        opt_parts(e.ticker.ask) == opt_text_dec(d.a),
{
}

/// The levels with both texts readable.
pub open spec fn mw_levels(v: Seq<MexcDepthEntry>) -> Seq<MexcDepthEntry> {
    v.filter(|x: MexcDepthEntry| opt_text_dec(x.p) is Some && opt_text_dec(x.v) is Some)
}

/// A side of the book: the readable levels, in order.
pub open spec fn mw_side_ok(v: Seq<MexcDepthEntry>, es: Seq<OrderBookEntry>) -> bool {
    let rows = mw_levels(v);
    &&& es.len() == rows.len()
    &&& forall|k: int| 0 <= k < es.len() ==> opt_text_dec(rows[k].p) == Some((#[trigger] es[k]).price.parts())
        && opt_text_dec(rows[k].v) == Some(es[k].amount.parts())
}

/// A book snapshot of a market from depth data at time `now`.
pub open spec fn mw_book_ok(d: MexcDepthData, symbol: Seq<char>, now: i64, e: WsOrderBookEvent) -> bool {
    &&& e.symbol@ == spec_mw_unified(symbol)
    &&& e.is_snapshot
    &&& e.order_book.symbol@ == e.symbol@
    &&& e.order_book.timestamp == Some(now)
    &&& opt_view(e.order_book.datetime) == Some(iso8601_or_empty_spec(now as int))
    &&& e.order_book.nonce == match d.r {
        Some(r) => Some(r as i64),
        None => None,
    }
    &&& mw_side_ok(d.bids@, e.order_book.bids@)
    &&& mw_side_ok(d.asks@, e.order_book.asks@)
}

/// Side of a deal: `1` buy, `2` sell, anything else in lower case.
pub open spec fn mw_deal_side(s: Seq<char>) -> Seq<char> {
    if s == "1"@ {
        "buy"@
    } else if s == "2"@ {
        "sell"@
    } else {
        spec_to_lowercase(s)
    }
}

/// A trade event of a market from a deal at time `now`.
pub open spec fn mw_trade_ok(d: MexcTradeData, symbol: Seq<char>, now: i64, e: WsTradeEvent) -> bool {
    let ts = mw_ts(d.t, now);
    &&& e.symbol@ == spec_mw_unified(symbol)
    &&& e.trades@.len() == 1
    &&& e.trades@[0].id@ == id_text(d.t)
    &&& e.trades@[0].order is None
    &&& e.trades@[0].timestamp == Some(ts)
    &&& opt_view(e.trades@[0].datetime) == Some(iso8601_or_empty_spec(ts as int))
    &&& e.trades@[0].symbol@ == e.symbol@
    &&& e.trades@[0].trade_type is None
    &&& opt_view(e.trades@[0].side) == match d.side {
        Some(x) => Some(mw_deal_side(x@)),
        None => None,
    }
    &&& e.trades@[0].taker_or_maker is None
    &&& e.trades@[0].price.parts() == opt_text_dec_or_zero(d.p)
    &&& e.trades@[0].amount.parts() == opt_text_dec_or_zero(d.v)
    &&& opt_parts(e.trades@[0].cost) == match (opt_text_dec(d.p), opt_text_dec(d.v)) {
        (Some(p), Some(v)) => spec_dec_mul(p, v),
        _ => None,
    }
    &&& e.trades@[0].fee is None
}

/// A candle event of a market from candle data at time `now`.
pub open spec fn mw_kline_ok(d: MexcKlineData, symbol: Seq<char>, tf: Timeframe, now: i64, e: WsOhlcvEvent) -> bool {
    &&& e.symbol@ == spec_mw_unified(symbol)
    &&& e.timeframe == tf
    &&& e.ohlcv.timestamp == mw_ts(d.t, now)
    &&& e.ohlcv.open.parts() == opt_text_dec_or_zero(d.o)
    &&& e.ohlcv.high.parts() == opt_text_dec_or_zero(d.h)
    &&& e.ohlcv.low.parts() == opt_text_dec_or_zero(d.l)
    &&& e.ohlcv.close.parts() == opt_text_dec_or_zero(d.c)
    &&& e.ohlcv.volume.parts() == opt_text_dec_or_zero(d.v)
}

/// The market of a channel: the piece after its last `@`.
pub open spec fn mw_channel_symbol(ch: Seq<char>) -> Seq<char> {
    split_spec(ch, '@').last()
}

/// The data member of a message, when present and not null.
pub open spec fn mw_data(j: Json) -> Option<Json> {
    match spec_get(j, "d"@) {
        None => None,
        Some(Json::Null) => None,
        Some(v) => Some(v),
    }
}

/// Whether the message envelope reads: an object whose `code`, `msg`, `c`
/// and `t` have the expected types.
pub open spec fn mw_envelope_reads(j: Json) -> bool {
    &&& j is Obj
    &&& spec_opt_i32_field(j, "code"@) is Ok
    &&& spec_opt_str_field(j, "msg"@) is Ok
    &&& spec_opt_str_field(j, "c"@) is Ok
    &&& spec_opt_i64_field(j, "t"@) is Ok
}

/// What a data message of a channel decodes to at time `now`.
pub open spec fn mw_channel_ok(ch: Seq<char>, data: Option<Json>, tf: Option<Timeframe>, now: i64, r: Option<WsMessage>) -> bool {
    let sym = mw_channel_symbol(ch);
    match data {
        None => r is None,
        Some(d) => if has_sub(ch, "ticker"@) {
            if mw_ticker_reads(d) {
                exists|t: MexcTickerData| #[trigger] mw_ticker_read(d, t) && (r matches Some(WsMessage::Ticker(e)) && mw_ticker_ok(t, sym, now, e))
            } else {
                r is None
            }
        } else if has_sub(ch, "limit.depth"@) || has_sub(ch, "depth"@) {
            if mw_depth_reads(d) {
                exists|b: MexcDepthData| #[trigger] mw_depth_read(d, b) && (r matches Some(WsMessage::OrderBook(e)) && mw_book_ok(b, sym, now, e))
            } else {
                r is None
            }
        } else if has_sub(ch, "deals"@) || has_sub(ch, "trade"@) {
            if mw_deals_reads(d) {
                exists|v: Seq<MexcTradeData>| #[trigger] mw_deals_read(d, v) && if v.len() > 0 {
                    r matches Some(WsMessage::Trade(e)) && mw_trade_ok(v[0], sym, now, e)
                } else {
                    r is None
                }
            } else {
                r is None
            }
        } else if has_sub(ch, "kline"@) {
            if mw_kline_wrapper_reads(d) {
                exists|k: MexcKlineData| #[trigger] mw_kline_wrapper_read(d, k) && (r matches Some(WsMessage::Ohlcv(e))
                    && mw_kline_ok(k, sym, match tf {
                        Some(x) => x,
                        None => Timeframe::Minute1,
                    }, now, e))
            } else {
                r is None
            }
        } else {
            r is None
        },
    }
}

impl MexcWs {
    /// A ticker event of a market (see [`mw_ticker_ok`]).
    pub fn parse_ticker(data: &MexcTickerData, symbol: &str, now: i64) -> (r: WsTickerEvent)
        ensures
            mw_ticker_ok(*data, symbol@, now, r),
    {
        let unified = Self::to_unified_symbol(symbol);
        let ts: i64 = match data.t {
            Some(t) => t,
            None => now,
        };
        let last = parse_opt(&data.c);
        let ticker = Ticker {
            symbol: copy_str(unified.as_str()),
            timestamp: Some(ts),
            datetime: Some(iso8601_or_empty(ts)),
            high: parse_opt(&data.h),
            low: parse_opt(&data.l),
            bid: parse_opt(&data.b),
            bid_volume: None,
            ask: parse_opt(&data.a),
            ask_volume: None,
            vwap: None,
            open: parse_opt(&data.o),
            close: last,
            last: last,
            previous_close: None,
            change: None,
            percentage: parse_opt(&data.r),
            average: None,
            base_volume: parse_opt(&data.v),
            quote_volume: parse_opt(&data.q),
            index_price: None,
            mark_price: None,
        };
        WsTickerEvent { symbol: unified, ticker }
    }

    /// The readable levels of a side, in order.
    fn side(v: &Vec<MexcDepthEntry>) -> (r: Vec<OrderBookEntry>)
        ensures
            mw_side_ok(v@, r@),
    {
        let mut out: Vec<OrderBookEntry> = Vec::new();
        let n = v.len();
        let mut i: usize = 0;
        while i < n
            invariant
                n == v@.len(),
                i <= n,
                mw_side_ok(v@.take(i as int), out@),
            decreases n - i,
        {
            proof {
                assert(v@.take(i + 1).drop_last() =~= v@.take(i as int));
                assert(v@.take(i + 1).last() == v@[i as int]);
                reveal_with_fuel(Seq::<_>::filter, 1);
            }
            match (parse_opt(&v[i].p), parse_opt(&v[i].v)) {
                (Some(p), Some(a)) => {
                    out.push(OrderBookEntry { price: p, amount: a });
                },
                _ => {},
            }
            i = i + 1;
        }
        assert(v@.take(n as int) =~= v@);
        out
    }

    /// A book snapshot of a market (see [`mw_book_ok`]).
    pub fn parse_order_book(data: &MexcDepthData, symbol: &str, now: i64) -> (r: WsOrderBookEvent)
        ensures
            mw_book_ok(*data, symbol@, now, r),
    {
        let unified = Self::to_unified_symbol(symbol);
        let order_book = OrderBook {
            symbol: copy_str(unified.as_str()),
            timestamp: Some(now),
            datetime: Some(iso8601_or_empty(now)),
            nonce: match data.r {
                Some(r) => Some(r as i64),
                None => None,
            },
            bids: Self::side(&data.bids),
            asks: Self::side(&data.asks),
        };
        WsOrderBookEvent { symbol: unified, order_book, is_snapshot: true }
    }

    /// A trade event of a market from a deal (see [`mw_trade_ok`]).
    pub fn parse_trade(data: &MexcTradeData, symbol: &str, now: i64) -> (r: WsTradeEvent)
        ensures
            mw_trade_ok(*data, symbol@, now, r),
    {
        let unified = Self::to_unified_symbol(symbol);
        let ts: i64 = match data.t {
            Some(t) => t,
            None => now,
        };
        let side = match &data.side {
            Some(x) => {
                let x = x.as_str();
                Some(if str_eq(x, "1") {
                    copy_str("buy")
                } else if str_eq(x, "2") {
                    copy_str("sell")
                } else {
                    to_lowercase(x)
                })
            },
            None => None,
        };
        let pp = parse_opt(&data.p);
        let vv = parse_opt(&data.v);
        let cost = match (pp, vv) {
            (Some(p), Some(v)) => dec_mul(p, v),
            _ => None,
        };
        let trade = Trade {
            id: Self::id_of(data.t),
            order: None,
            timestamp: Some(ts),
            datetime: Some(iso8601_or_empty(ts)),
            symbol: copy_str(unified.as_str()),
            trade_type: None,
            side,
            taker_or_maker: None,
            price: parse_opt_or_zero(&data.p),
            amount: parse_opt_or_zero(&data.v),
            cost,
            fee: None,
        };
        let mut trades: Vec<Trade> = Vec::new();
        trades.push(trade);
        WsTradeEvent { symbol: unified, trades }
    }

    /// A candle event of a market (see [`mw_kline_ok`]).
    pub fn parse_kline(data: &MexcKlineData, symbol: &str, tf: Timeframe, now: i64) -> (r: WsOhlcvEvent)
        ensures
            mw_kline_ok(*data, symbol@, tf, now, r),
    {
        let ts: i64 = match data.t {
            Some(t) => t,
            None => now,
        };
        WsOhlcvEvent {
            symbol: Self::to_unified_symbol(symbol),
            timeframe: tf,
            ohlcv: OHLCV {
                timestamp: ts,
                open: parse_opt_or_zero(&data.o),
                high: parse_opt_or_zero(&data.h),
                low: parse_opt_or_zero(&data.l),
                close: parse_opt_or_zero(&data.c),
                volume: parse_opt_or_zero(&data.v),
            },
        }
    }

    /// Decodes the data of a channel (see [`mw_channel_ok`]).
    fn decode_channel(ch: &str, data: Option<&Json>, tf: Option<Timeframe>, now: i64) -> (r: Option<WsMessage>)
        ensures
            mw_channel_ok(ch@, match data {
                Some(d) => Some(*d),
                None => None,
            }, tf, now, r),
    {
        let parts = split_char(ch, '@');
        proof {
            lemma_split_nonempty(ch@, '@');
        }
        let sym = copy_str(parts[parts.len() - 1].as_str());
        let d = match data {
            Some(d) => d,
            None => {
                return None;
            },
        };
        if str_contains(ch, "ticker") {
            match Self::read_ticker_data(d) {
                Ok(t) => {
                    let e = Self::parse_ticker(&t, sym.as_str(), now);
                    assert(mw_ticker_read(*d, t));
                    Some(WsMessage::Ticker(e))
                },
                Err(_) => None,
            }
        } else if str_contains(ch, "limit.depth") || str_contains(ch, "depth") {
            match Self::read_depth_data(d) {
                Ok(b) => {
                    let e = Self::parse_order_book(&b, sym.as_str(), now);
                    assert(mw_depth_read(*d, b));
                    Some(WsMessage::OrderBook(e))
                },
                Err(_) => None,
            }
        } else if str_contains(ch, "deals") || str_contains(ch, "trade") {
            match Self::read_deals(d) {
                Ok(v) => {
                    assert(mw_deals_read(*d, v@));
                    if v.len() > 0 {
                        Some(WsMessage::Trade(Self::parse_trade(&v[0], sym.as_str(), now)))
                    } else {
                        None
                    }
                },
                Err(_) => None,
            }
        } else if str_contains(ch, "kline") {
            match Self::read_kline_wrapper(d) {
                Ok(k) => {
                    let t = match tf {
                        Some(x) => x,
                        None => Timeframe::Minute1,
                    };
                    let e = Self::parse_kline(&k, sym.as_str(), t, now);
                    assert(mw_kline_wrapper_read(*d, k));
                    Some(WsMessage::Ohlcv(e))
                },
                Err(_) => None,
            }
        } else {
            None
        }
    }

    /// Decodes a public stream message at time `now`, candles under `tf`
    /// (one minute when none): an acknowledgement (a `code`) names its
    /// channel; data messages are decoded by channel; anything else,
    /// including text that holds no JSON or an envelope that does not read,
    /// gives nothing.
    pub fn process_message(msg: &str, tf: Option<Timeframe>, now: i64) -> (r: Option<WsMessage>)
        ensures
            match spec_parse_json(msg@) {
                Some(j) => if !mw_envelope_reads(j) {
                    r is None
                } else if spec_opt_i32_field(j, "code"@)->Ok_0 is Some {
                    match spec_opt_str_field(j, "c"@)->Ok_0 {
                        Some(ch) => r matches Some(WsMessage::Subscribed { channel, symbol }) && channel@ == ch && symbol is None,
                        None => r is None,
                    }
                } else {
                    match spec_opt_str_field(j, "c"@)->Ok_0 {
                        Some(ch) => mw_channel_ok(ch, mw_data(j), tf, now, r),
                        None => r is None,
                    }
                },
                None => r is None,
            },
    {
        let j = match Json::parse(msg) {
            Some(j) => j,
            None => {
                return None;
            },
        };
        match &j {
            Json::Obj(_) => {},
            _ => {
                return None;
            },
        }
        let code = match j.opt_i32_field("code") { Ok(v) => v, Err(_) => { return None; } };
        match j.opt_str_field("msg") { Ok(_) => {}, Err(_) => { return None; } }
        let c = match j.opt_str_field("c") { Ok(v) => v, Err(_) => { return None; } };
        match j.opt_i64_field("t") { Ok(_) => {}, Err(_) => { return None; } }
        if code.is_some() {
            return match c {
                Some(ch) => Some(WsMessage::Subscribed { channel: ch, symbol: None }),
                None => None,
            };
        }
        let ch = match c {
            Some(ch) => ch,
            None => {
                return None;
            },
        };
        let data = match j.get("d") {
            None => None,
            Some(Json::Null) => None,
            Some(d) => Some(d),
        };
        Self::decode_channel(ch.as_str(), data, tf, now)
    }

    /// The head of a private stream message: present when the message is an
    /// object whose `e`, `s` and `x` are texts (or absent) and `E` a 64-bit
    /// integer (or absent).
    pub fn read_private_head(j: &Json) -> (r: Option<MexcPrivateWsResponse>)
        ensures
            r is Some <==> (*j is Obj && spec_opt_str_field(*j, "e"@) is Ok && spec_opt_i64_field(*j, "E"@) is Ok
                && spec_opt_str_field(*j, "s"@) is Ok && spec_opt_str_field(*j, "x"@) is Ok),
            r matches Some(h) ==> opt_text_is(spec_opt_str_field(*j, "e"@), h.e) && opt_int_is(
                spec_opt_i64_field(*j, "E"@),
                h.event_time,
            ) && opt_text_is(spec_opt_str_field(*j, "s"@), h.s) && opt_text_is(spec_opt_str_field(*j, "x"@), h.x),
    {
        match j {
            Json::Obj(_) => {},
            _ => {
                return None;
            },
        }
        let e = match j.opt_str_field("e") { Ok(v) => v, Err(_) => { return None; } };
        let event_time = match j.opt_i64_field("E") { Ok(v) => v, Err(_) => { return None; } };
        let s = match j.opt_str_field("s") { Ok(v) => v, Err(_) => { return None; } };
        let x = match j.opt_str_field("x") { Ok(v) => v, Err(_) => { return None; } };
        Some(MexcPrivateWsResponse { e, event_time, s, x })
    }

    /// Decodes a private stream message at time `now`: a trade execution
    /// (`x` = `TRADE`) becomes a fill, other execution reports orders, and
    /// account messages holdings; anything else gives nothing.
    pub fn process_private_message(msg: &str, now: i64) -> (r: Option<WsMessage>)
        ensures
            match spec_parse_json(msg@) {
                Some(j) => if !(j is Obj && spec_opt_str_field(j, "e"@) is Ok && spec_opt_i64_field(j, "E"@) is Ok
                    && spec_opt_str_field(j, "s"@) is Ok && spec_opt_str_field(j, "x"@) is Ok) {
                    r is None
                } else if spec_opt_str_field(j, "x"@)->Ok_0 == Some("TRADE"@) && mw_fill_reads(j) {
                    exists|d: MexcTradeUpdateData| #[trigger] mw_fill_read(j, d) && (r matches Some(WsMessage::MyTrade(e)) && mw_my_trade_ok(d, now, e))
                } else {
                    let ev = spec_opt_str_field(j, "e"@)->Ok_0;
                    if ev == Some("executionReport"@) && mw_order_reads(j) {
                        exists|d: MexcOrderUpdateData| #[trigger] mw_order_read(j, d) && (r matches Some(WsMessage::Order(e)) && mw_order_ok(d, now, e.order))
                    } else if (ev == Some("outboundAccountPosition"@) || ev == Some("balanceUpdate"@)) && mw_balance_reads(j) {
                        exists|d: MexcBalanceUpdateData| #[trigger] mw_balance_read(j, d) && (r matches Some(WsMessage::Balance(e))
                            && keyed_by_last(
                                mw_named(d.balances@).map_values(|b: MexcBalanceItem| b.a->0@),
                                e.balances.currencies@,
                                |i: int, bal: Balance| mw_balance_ok(mw_named(d.balances@)[i], bal),
                            )
                            && e.balances.timestamp == Some(mw_ts(d.event_time, now)))
                    } else {
                        r is None
                    }
                },
                None => r is None,
            },
    {
        let j = match Json::parse(msg) {
            Some(j) => j,
            None => {
                return None;
            },
        };
        let head = match Self::read_private_head(&j) {
            Some(h) => h,
            None => {
                return None;
            },
        };
        let e = head.e;
        let x = head.x;
        let is_trade = match &x {
            Some(t) => str_eq(t.as_str(), "TRADE"),
            None => false,
        };
        if is_trade {
            match Self::read_fill_data(&j) {
                Ok(d) => {
                    let ev = Self::parse_my_trade(&d, now);
                    assert(mw_fill_read(j, d));
                    return Some(WsMessage::MyTrade(ev));
                },
                Err(_) => {},
            }
        }
        let (is_exec, is_account) = match &e {
            Some(t) => (str_eq(t.as_str(), "executionReport"), str_eq(t.as_str(), "outboundAccountPosition") || str_eq(t.as_str(), "balanceUpdate")),
            None => (false, false),
        };
        proof {
            reveal_strlit("executionReport");
            reveal_strlit("outboundAccountPosition");
            reveal_strlit("balanceUpdate");
            assert("executionReport"@[0] != "outboundAccountPosition"@[0]);
            assert("executionReport"@[0] != "balanceUpdate"@[0]);
        }
        if is_exec {
            match Self::read_order_data(&j) {
                Ok(d) => {
                    let ev = Self::parse_order_update(&d, now);
                    assert(mw_order_read(j, d));
                    Some(WsMessage::Order(ev))
                },
                Err(_) => None,
            }
        } else if is_account {
            match Self::read_balance_data(&j) {
                Ok(d) => {
                    let ev = Self::parse_balance_update(&d, now);
                    assert(mw_balance_read(j, d));
                    Some(WsMessage::Balance(ev))
                },
                Err(_) => None,
            }
        } else {
            None
        }
    }
}

/// The first quote that ends an upper-case symbol joined from a base and
/// one of the quotes is that quote.
proof fn lemma_mw_quote(base: Seq<char>, quote: Seq<char>)
    requires
        mw_quotes().contains(quote),
    ensures
        mw_first_quote(base + quote, 0) == Some(quote),
{
    reveal_strlit("USDT");
    reveal_strlit("USDC");
    reveal_strlit("BTC");
    reveal_strlit("ETH");
    reveal_strlit("BUSD");
    reveal_strlit("TUSD");
    let f = base + quote;
    let n = f.len();
    let ql = quote.len() as int;
    assert(f.subrange(n - ql, n as int) =~= quote);
    let qi = choose|i: int| 0 <= i < mw_quotes().len() && mw_quotes()[i] == quote;
    assert(f[n - 1] == quote[ql - 1]);
    assert(f[n - 2] == quote[ql - 2]);
    if ql == 4 {
        assert(f[n - 4] == quote[0]);
    }
    if qi >= 1 {
        assert(!ends_with(f, "USDT"@)) by {
            if ends_with(f, "USDT"@) {
                assert(f.subrange(n - 4, n as int)[3] == f[n - 1]);
            }
        }
    }
    if qi >= 2 {
        assert(!ends_with(f, "USDC"@)) by {
            if ends_with(f, "USDC"@) {
                assert(f.subrange(n - 4, n as int)[3] == f[n - 1]);
                assert(f.subrange(n - 4, n as int)[2] == f[n - 2]);
            }
        }
    }
    if qi >= 3 {
        assert(!ends_with(f, "BTC"@)) by {
            if ends_with(f, "BTC"@) {
                assert(f.subrange(n - 3, n as int)[2] == f[n - 1]);
            }
        }
    }
    if qi >= 4 {
        assert(!ends_with(f, "ETH"@)) by {
            if ends_with(f, "ETH"@) {
                assert(f.subrange(n - 3, n as int)[2] == f[n - 1]);
            }
        }
    }
    if qi >= 5 {
        assert(!ends_with(f, "BUSD"@)) by {
            if ends_with(f, "BUSD"@) {
                assert(f.subrange(n - 4, n as int)[0] == f[n - 4]);
            }
        }
    }
    reveal_with_fuel(mw_first_quote, 7);
}

/// A unified symbol with an ASCII base (without `/`) and one of the quotes
/// the stream reads back comes back, its base in upper case, from its
/// exchange symbol.
pub proof fn law_symbol_round_trip(base: Seq<char>, quote: Seq<char>)
    requires
        all_ascii(base),
        !base.contains('/'),
        mw_quotes().contains(quote),
    ensures
        spec_mw_unified(spec_mw_format_symbol(base + "/"@ + quote)) == ascii_upper(base) + "/"@ + quote,
{
    reveal_strlit("/");
    reveal_strlit("USDT");
    reveal_strlit("USDC");
    reveal_strlit("BTC");
    reveal_strlit("ETH");
    reveal_strlit("BUSD");
    reveal_strlit("TUSD");
    assert(!quote.contains('/') && all_ascii(quote) && ascii_upper(quote) == quote) by {
        if quote.contains('/') {
            let i = choose|i: int| 0 <= i < quote.len() && quote[i] == '/';
            assert(quote[i] != '/');
        }
        assert(ascii_upper(quote) =~= quote);
    }
    assert("/"@ =~= seq!['/']);
    assert(base + "/"@ + quote =~= base + seq!['/'] + quote);
    lemma_remove_separator(base, quote, '/');
    lemma_ascii_case_join(base, quote);
    lemma_ascii_case(base + quote);
    let f = ascii_upper(base) + quote;
    assert(spec_mw_format_symbol(base + "/"@ + quote) == f);
    assert(upper_text(f) == f);
    lemma_mw_quote(ascii_upper(base), quote);
    let n = f.len();
    assert(f.subrange(0, n - quote.len()) =~= ascii_upper(base));
}

} // verus!
