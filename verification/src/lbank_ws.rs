//! LBank streaming: pair names, the signing of private subscriptions, and
//! the decoding of public and private stream messages.

use crate::book::{book_same, copy_book};
use crate::common::{copy_opt, keyed_insert, opt_view, pair_lookup};
use crate::crypto::{lemma_hex_lower_ascii, md5_hex, spec_hex_lower, spec_md5};
use crate::dec::{
    dec_add, dec_mul, dec_parse, dec_sub, opt_parts, opt_text_dec, opt_text_dec_or_zero,
    parse_opt, parse_opt_or_zero, parse_or_zero, spec_dec_add, spec_dec_mul, spec_dec_parse,
    spec_dec_sub, text_dec_or_zero, Dec,
};
use crate::json::{
    get_str_spec, spec_as_i64, spec_as_str, spec_get, spec_opt_i64_field, spec_opt_str_field,
    spec_parse_json, Json,
};
use crate::text::{
    all_ascii, ascii_upper, concat2, concat3, copy_str, push_str, replace_all, replace_char,
    spec_int_to_string, spec_to_uppercase, split_char, split_spec, starts_with, str_eq,
    to_lowercase, to_uppercase, lower_text, upper_text, ascii_lower, lemma_ascii_case,
    lemma_ascii_case_join, lemma_split_first, lemma_split_absent,
};
use crate::time::{iso8601, iso8601_or_empty, iso8601_or_empty_spec, parse_rfc3339_ms, spec_iso8601, spec_rfc3339_ms};
use crate::types::{
    keyed_by_last, lemma_keyed_empty, lemma_keyed_step, Balance, Balances, CcxtError, OHLCV, Order,
    OrderBook, OrderBookEntry, OrderSide, OrderStatus, OrderType, Ticker, Timeframe, Trade,
};
use crate::ws::{WsBalanceEvent, WsMessage, WsOhlcvEvent, WsOrderBookEvent, WsOrderEvent, WsTickerEvent, WsTradeEvent};
use vstd::prelude::*;
use vstd::utf8::encode_utf8;

verus! {

/// Stream address.
pub const LBANK_WS_URL: &'static str = "wss://www.lbkex.net/ws/V2/";

/// Order data of a private stream message.
#[derive(Clone, Debug, PartialEq)]
pub struct LbankOrderUpdateData {
    pub order_no: Option<String>,
    pub customer_id: Option<String>,
    pub symbol: Option<String>,
    pub order_type: Option<String>,
    pub price: Option<String>,
    pub orig_qty: Option<String>,
    pub executed_qty: Option<String>,
    pub status: Option<String>,
    pub create_time: Option<i64>,
    pub update_time: Option<i64>,
}

/// Holdings of one asset in a private stream message.
#[derive(Clone, Debug, PartialEq)]
pub struct LbankBalanceUpdateData {
    pub asset: Option<String>,
    pub free: Option<String>,
    pub locked: Option<String>,
}

/// The LBank stream client: credentials for private channels, the next
/// request id, and the last order book seen per market.
pub struct LbankWs {
    pub api_key: Option<String>,
    pub api_secret: Option<String>,
    pub request_id: i64,
    pub orderbook_cache: Vec<(String, OrderBook)>,
}

/// The pair name of a unified symbol: `/` becomes `_`, then lower case.
pub open spec fn spec_lb_format_symbol(s: Seq<char>) -> Seq<char> {
    lower_text(replace_all(s, '/', '_'))
}

/// The unified symbol of a pair name: two pieces around `_` in upper case
/// joined by `/`; otherwise the whole name in upper case.
pub open spec fn spec_lb_parse_symbol(s: Seq<char>) -> Seq<char> {
    let p = split_spec(s, '_');
    if p.len() == 2 {
        upper_text(p[0]) + "/"@ + upper_text(p[1])
    } else {
        upper_text(s)
    }
}

/// Slot name of a timeframe (one minute for those not offered).
pub open spec fn spec_lb_timeframe(tf: Timeframe) -> Seq<char> {
    match tf {
        Timeframe::Minute5 => "5min"@,
        Timeframe::Minute15 => "15min"@,
        Timeframe::Minute30 => "30min"@,
        Timeframe::Hour1 => "1hr"@,
        Timeframe::Hour4 => "4hr"@,
        Timeframe::Day1 => "day"@,
        Timeframe::Week1 => "week"@,
        Timeframe::Month1 => "month"@,
        _ => "1min"@,
    }
}

/// Timeframe of a slot name (one minute for unknown names).
pub open spec fn spec_lb_parse_timeframe(t: Seq<char>) -> Timeframe {
    if t == "5min"@ {
        Timeframe::Minute5
    } else if t == "15min"@ {
        Timeframe::Minute15
    } else if t == "30min"@ {
        Timeframe::Minute30
    } else if t == "1hr"@ || t == "1hour"@ {
        Timeframe::Hour1
    } else if t == "4hr"@ || t == "4hour"@ {
        Timeframe::Hour4
    } else if t == "day"@ || t == "1day"@ {
        Timeframe::Day1
    } else if t == "week"@ || t == "1week"@ {
        Timeframe::Week1
    } else if t == "month"@ || t == "1month"@ {
        Timeframe::Month1
    } else {
        Timeframe::Minute1
    }
}

/// The text signed for a private request: the parameters and the secret.
pub open spec fn lb_sign_text(params: Seq<char>, secret: Seq<char>) -> Seq<char> {
    params + "&secret_key="@ + secret
}

/// The text a private request signs is the parameters, then
/// `&secret_key=`, then the secret.
pub proof fn law_sign_text_parts(params: Seq<char>, secret: Seq<char>, r: Seq<char>)
    requires
        r == lb_sign_text(params, secret),
    ensures
        r.take(params.len() as int) == params,
        r.subrange(params.len() as int, params.len() + 12int) == "&secret_key="@,
        r.skip(params.len() + 12int) == secret,
{
    reveal_strlit("&secret_key=");
    assert(r.take(params.len() as int) =~= params);
    assert(r.subrange(params.len() as int, params.len() + 12int) =~= "&secret_key="@);
    assert(r.skip(params.len() + 12int) =~= secret);
}

/// The signature: upper-case hexadecimal MD5 of the signed text.
pub open spec fn lb_signature(params: Seq<char>, secret: Seq<char>) -> Seq<char> {
    ascii_upper(spec_hex_lower(spec_md5(encode_utf8(lb_sign_text(params, secret)))))
}

/// State of an order: `0`/`open` and `1`/`partial` are open, `2`/`filled`
/// closed, `-1`/`canceled` canceled; anything else open.
pub open spec fn spec_lb_status(s: Option<String>) -> OrderStatus {
    match s {
        Some(t) => if t@ == "2"@ || t@ == "filled"@ {
            OrderStatus::Closed
        } else if t@ == "-1"@ || t@ == "canceled"@ {
            OrderStatus::Canceled
        } else {
            OrderStatus::Open
        },
        None => OrderStatus::Open,
    }
}

/// An order is closed exactly when its status is `2` or `filled`, and
/// canceled exactly when it is `-1` or `canceled`.
pub proof fn law_status_words(s: Option<String>)
    ensures
        spec_lb_status(s) == OrderStatus::Closed <==> (opt_view(s) == Some("2"@) || opt_view(s) == Some("filled"@)),
        spec_lb_status(s) == OrderStatus::Canceled <==> (opt_view(s) == Some("-1"@) || opt_view(s) == Some("canceled"@)),
{
    reveal_strlit("2");
    reveal_strlit("filled");
    reveal_strlit("-1");
    reveal_strlit("canceled");
    assert("2"@.len() != "filled"@.len());
    assert("2"@.len() != "-1"@.len());
    assert("2"@.len() != "canceled"@.len());
    assert("filled"@.len() != "-1"@.len());
    assert("filled"@.len() != "canceled"@.len());
    assert("-1"@.len() != "canceled"@.len());
}

/// Side and kind of an order: `buy`/`buy_market` and `sell`/`sell_market`
/// are market orders, `buy_maker`/`sell_maker` limit orders; anything else a
/// limit buy.
pub open spec fn spec_lb_side_type(t: Option<String>) -> (OrderSide, OrderType) {
    match t {
        Some(x) => if x@ == "buy"@ || x@ == "buy_market"@ {
            (OrderSide::Buy, OrderType::Market)
        } else if x@ == "sell"@ || x@ == "sell_market"@ {
            (OrderSide::Sell, OrderType::Market)
        } else if x@ == "sell_maker"@ {
            (OrderSide::Sell, OrderType::Limit)
        } else {
            (OrderSide::Buy, OrderType::Limit)
        },
        None => (OrderSide::Buy, OrderType::Limit),
    }
}

/// An order built from order data under the given id.
pub open spec fn lb_order_ok(d: LbankOrderUpdateData, id: Seq<char>, o: Order) -> bool {
    let price = opt_text_dec(d.price);
    let amount = opt_text_dec(d.orig_qty);
    let filled = opt_text_dec(d.executed_qty);
    &&& o.id@ == id
    &&& opt_view(o.client_order_id) == opt_view(d.customer_id)
    &&& o.timestamp == d.create_time
    &&& match d.create_time {
        Some(t) => opt_view(o.datetime) == Some(iso8601_or_empty_spec(t as int)),
        None => o.datetime is None,
    }
    &&& o.last_trade_timestamp is None
    &&& o.last_update_timestamp == d.update_time
    &&& o.status == spec_lb_status(d.status)
    &&& o.symbol@ == spec_lb_parse_symbol(d.symbol->0@)
    &&& (o.side, o.order_type) == spec_lb_side_type(d.order_type)
    &&& o.time_in_force is None
    &&& opt_parts(o.price) == price
    &&& o.average is None
    &&& o.amount.parts() == opt_text_dec_or_zero(d.orig_qty)
    &&& o.filled.parts() == opt_text_dec_or_zero(d.executed_qty)
    &&& opt_parts(o.remaining) == match (amount, filled) {
        (Some(a), Some(f)) => spec_dec_sub(a, f),
        _ => None,
    }
    &&& o.stop_price is None && o.trigger_price is None
    &&& opt_parts(o.cost) == match (price, filled) {
        (Some(p), Some(f)) => spec_dec_mul(p, f),
        _ => None,
    }
    &&& o.fee is None && o.reduce_only is None && o.post_only is None
    &&& o.no_extras()
}

/// Order data as a derived deserializer reads it from an object.
pub open spec fn lb_order_read(j: Json, d: LbankOrderUpdateData) -> bool {
    &&& j is Obj
    &&& spec_opt_str_field(j, "orderNo"@) == Ok::<Option<Seq<char>>, ()>(opt_view(d.order_no))
    &&& spec_opt_str_field(j, "customerID"@) == Ok::<Option<Seq<char>>, ()>(opt_view(d.customer_id))
    &&& spec_opt_str_field(j, "symbol"@) == Ok::<Option<Seq<char>>, ()>(opt_view(d.symbol))
    &&& spec_opt_str_field(j, "type"@) == Ok::<Option<Seq<char>>, ()>(opt_view(d.order_type))
    &&& spec_opt_str_field(j, "price"@) == Ok::<Option<Seq<char>>, ()>(opt_view(d.price))
    &&& spec_opt_str_field(j, "origQty"@) == Ok::<Option<Seq<char>>, ()>(opt_view(d.orig_qty))
    &&& spec_opt_str_field(j, "executedQty"@) == Ok::<Option<Seq<char>>, ()>(opt_view(d.executed_qty))
    &&& spec_opt_str_field(j, "status"@) == Ok::<Option<Seq<char>>, ()>(opt_view(d.status))
    &&& spec_opt_i64_field(j, "createTime"@) == Ok::<Option<int>, ()>(match d.create_time { Some(t) => Some(t as int), None => None })
    &&& spec_opt_i64_field(j, "updateTime"@) == Ok::<Option<int>, ()>(match d.update_time { Some(t) => Some(t as int), None => None })
}

/// Whether order data reads from a value.
pub open spec fn lb_order_reads(j: Json) -> bool {
    &&& j is Obj
    &&& spec_opt_str_field(j, "orderNo"@) is Ok
    &&& spec_opt_str_field(j, "customerID"@) is Ok
    &&& spec_opt_str_field(j, "symbol"@) is Ok
    &&& spec_opt_str_field(j, "type"@) is Ok
    &&& spec_opt_str_field(j, "price"@) is Ok
    &&& spec_opt_str_field(j, "origQty"@) is Ok
    &&& spec_opt_str_field(j, "executedQty"@) is Ok
    &&& spec_opt_str_field(j, "status"@) is Ok
    &&& spec_opt_i64_field(j, "createTime"@) is Ok
    &&& spec_opt_i64_field(j, "updateTime"@) is Ok
}

/// What one holdings entry gives: when it reads and names an asset, the
/// upper-case asset with free and locked amounts (zero when unreadable).
pub open spec fn lb_balance_entry(j: Json) -> Option<(Seq<char>, (int, int), (int, int))> {
    if j is Obj && spec_opt_str_field(j, "asset"@) is Ok && spec_opt_str_field(j, "free"@) is Ok
        && spec_opt_str_field(j, "locked"@) is Ok && spec_opt_str_field(j, "asset"@)->Ok_0 is Some {
        let free = match spec_opt_str_field(j, "free"@)->Ok_0 {
            Some(t) => text_dec_or_zero(t),
            None => (0int, 0int),
        };
        let locked = match spec_opt_str_field(j, "locked"@)->Ok_0 {
            Some(t) => text_dec_or_zero(t),
            None => (0int, 0int),
        };
        Some((spec_to_uppercase(spec_opt_str_field(j, "asset"@)->Ok_0->0), free, locked))
    } else {
        None
    }
}

/// The asset code of a holdings entry that gives a balance.
pub open spec fn lb_code(j: Json) -> Seq<char> {
    match lb_balance_entry(j) {
        Some((code, _, _)) => code,
        None => Seq::<char>::empty(),
    }
}

/// The holdings entries that give a balance.
pub open spec fn lb_kept(rows: Seq<Json>) -> Seq<Json> {
    rows.filter(|j: Json| lb_balance_entry(j) is Some)
}

/// A balance built from a holdings entry: free, locked as used, their sum
/// as total.
pub open spec fn lb_balance_ok(j: Json, b: Balance) -> bool {
    let e = lb_balance_entry(j)->0;
    &&& opt_parts(b.free) == Some(e.1)
    &&& opt_parts(b.used) == Some(e.2)
    &&& opt_parts(b.total) == spec_dec_add(e.1, e.2)
}

/// Holdings built from the entries of a message: one balance per asset
/// (a later entry replacing an earlier one), the message's integer
/// `timestamp` or `now`, no calendar text.
pub open spec fn lb_balances_ok(rows: Seq<Json>, msg: Json, now: i64, b: Balances) -> bool {
    &&& keyed_by_last(
        lb_kept(rows).map_values(|j: Json| lb_code(j)),
        b.currencies@,
        |i: int, bal: Balance| lb_balance_ok(lb_kept(rows)[i], bal),
    )
    &&& b.timestamp == Some(match spec_get(msg, "timestamp"@) {
        Some(v) => match spec_as_i64(v) {
            Some(t) => t,
            None => now as int,
        },
        None => now as int,
    } as i64)
    &&& b.datetime is None
}

/// The kept entries of a prefix are a prefix of the kept entries.
proof fn lemma_kept_prefix(b: Seq<Json>, i: int)
    requires
        0 <= i <= b.len(),
    ensures
        lb_kept(b.take(i)).len() <= lb_kept(b).len(),
        forall|j: int| 0 <= j < lb_kept(b.take(i)).len() ==> #[trigger] lb_kept(b.take(i))[j] == lb_kept(b)[j],
{
    assert(b =~= b.take(i) + b.skip(i));
    Seq::filter_distributes_over_add(b.take(i), b.skip(i), |j: Json| lb_balance_entry(j) is Some);
}

impl LbankWs {
    /// A client without credentials; request ids start at one.
    pub fn new() -> (r: LbankWs)
        ensures
            r.api_key is None,
            r.api_secret is None,
            r.request_id == 1,
            r.orderbook_cache@.len() == 0,
    {
        LbankWs { api_key: None, api_secret: None, request_id: 1, orderbook_cache: Vec::new() }
    }

    /// A client with credentials for the private channels.
    pub fn with_credentials(api_key: String, api_secret: String) -> (r: LbankWs)
        ensures
            r.api_key == Some(api_key),
            r.api_secret == Some(api_secret),
            r.request_id == 1,
            r.orderbook_cache@.len() == 0,
    {
        LbankWs { api_key: Some(api_key), api_secret: Some(api_secret), request_id: 1, orderbook_cache: Vec::new() }
    }

    /// Replaces the credentials; the rest stays.
    pub fn set_credentials(&mut self, api_key: String, api_secret: String)
        ensures
            final(self).api_key == Some(api_key),
            final(self).api_secret == Some(api_secret),
            final(self).request_id == old(self).request_id,
            final(self).orderbook_cache == old(self).orderbook_cache,
    {
        self.api_key = Some(api_key);
        self.api_secret = Some(api_secret);
    }

    /// The next request id: the current one, which then advances by one
    /// (wrapping, as an atomic add does).
    pub fn next_id(&mut self) -> (r: i64)
        ensures
            r == old(self).request_id,
            final(self).request_id == if old(self).request_id == i64::MAX {
                i64::MIN
            } else {
                (old(self).request_id + 1) as i64
            },
            final(self).api_key == old(self).api_key,
            final(self).api_secret == old(self).api_secret,
            final(self).orderbook_cache == old(self).orderbook_cache,
    {
        let id = self.request_id;
        self.request_id = if id == i64::MAX { i64::MIN } else { id + 1 };
        id
    }

    /// Signs request parameters: upper-case hexadecimal MD5 of the
    /// parameters followed by `&secret_key=` and the secret. A missing
    /// secret is refused.
    pub fn sign(&self, params: &str) -> (r: Result<String, CcxtError>)
        ensures
            r is Err <==> self.api_secret is None,
            r is Err ==> r matches Err(CcxtError::AuthenticationError { .. }),
            r matches Ok(s) ==> s@ == lb_signature(params@, self.api_secret->0@) && s@.len() == 32,
    {
        let secret = match &self.api_secret {
            Some(s) => s,
            None => {
                return Err(CcxtError::AuthenticationError { message: copy_str("API secret required for signing") });
            },
        };
        let text = concat3(params, "&secret_key=", secret.as_str());
        let hex = md5_hex(text.as_str().as_bytes());
        proof {
            lemma_hex_lower_ascii(spec_md5(encode_utf8(text@)));
        }
        let up = to_uppercase(hex.as_str());
        Ok(up)
    }
}


/// What a private stream message decodes to for `process_private_message`
/// at time `now`: order updates need a market and an order number, holdings
/// updates need a list.
pub open spec fn lb_private_ok(j: Json, now: i64, r: Option<WsMessage>) -> bool {
    match get_str_spec(j, "type"@) {
        Some(t) => if t == "orderUpdate"@ || t == "order"@ {
            match spec_get(j, "data"@) {
                Some(data) => if lb_order_reads(data) {
                    exists|d: LbankOrderUpdateData| #[trigger] lb_order_read(data, d) && if d.symbol is Some && d.order_no is Some {
                        r matches Some(WsMessage::Order(e)) && lb_order_ok(d, d.order_no->0@, e.order)
                    } else {
                        r is None
                    }
                } else {
                    r is None
                },
                None => r is None,
            }
        } else if t == "balanceUpdate"@ || t == "balance"@ {
            lb_balance_msg_ok(j, now, r)
        } else {
            r is None
        },
        None => r is None,
    }
}

/// A holdings message decodes to a holdings event when its data is a list.
pub open spec fn lb_balance_msg_ok(j: Json, now: i64, r: Option<WsMessage>) -> bool {
    match spec_get(j, "data"@) {
        Some(Json::Arr(items)) => r matches Some(WsMessage::Balance(e)) && lb_balances_ok(items@, j, now, e.balances),
        _ => r is None,
    }
}

/// Whether a message's `type` is one of two texts.
pub open spec fn type_is(j: Json, a: Seq<char>, b: Seq<char>) -> bool {
    get_str_spec(j, "type"@) == Some(a) || get_str_spec(j, "type"@) == Some(b)
}

/// A message of the order stream decoded: an order update (`type` is
/// `orderUpdate` or `order`) whose data reads as an order and names a market
/// becomes that order (the order number, or empty text, as id); anything
/// else gives nothing.
pub open spec fn lb_order_stream_ok(j: Json, r: Option<WsMessage>) -> bool {
    if type_is(j, "orderUpdate"@, "order"@) && spec_get(j, "data"@) is Some && lb_order_reads(spec_get(j, "data"@)->0) {
        exists|d: LbankOrderUpdateData| #[trigger] lb_order_read(spec_get(j, "data"@)->0, d) && if d.symbol is Some {
            r matches Some(WsMessage::Order(e)) && lb_order_ok(d, match d.order_no {
                Some(x) => x@,
                None => Seq::<char>::empty(),
            }, e.order)
        } else {
            r is None
        }
    } else {
        r is None
    }
}

impl LbankWs {
    /// The pair name of a unified symbol (see [`spec_lb_format_symbol`]).
    pub fn format_symbol(&self, symbol: &str) -> (r: String)
        ensures
            r@ == spec_lb_format_symbol(symbol@),
    {
        let t = replace_char(symbol, '/', '_');
        to_lowercase(t.as_str())
    }

    /// The unified symbol of a pair name (see [`spec_lb_parse_symbol`]).
    pub fn parse_symbol(&self, symbol: &str) -> (r: String)
        ensures
            r@ == spec_lb_parse_symbol(symbol@),
    {
        Self::parse_symbol_static(symbol)
    }

    /// The unified symbol of a pair name, without a client.
    pub fn parse_symbol_static(symbol: &str) -> (r: String)
        ensures
            r@ == spec_lb_parse_symbol(symbol@),
    {
        let parts = split_char(symbol, '_');
        if parts.len() == 2 {
            let a = to_uppercase(parts[0].as_str());
            let b = to_uppercase(parts[1].as_str());
            concat3(a.as_str(), "/", b.as_str())
        } else {
            to_uppercase(symbol)
        }
    }

    /// Slot name of a timeframe (see [`spec_lb_timeframe`]).
    pub fn format_timeframe(&self, tf: Timeframe) -> (r: &'static str)
        ensures
            r@ == spec_lb_timeframe(tf),
    {
        proof {
            reveal_strlit("1min");
            reveal_strlit("5min");
            reveal_strlit("15min");
            reveal_strlit("30min");
            reveal_strlit("1hr");
            reveal_strlit("4hr");
            reveal_strlit("day");
            reveal_strlit("week");
            reveal_strlit("month");
        }
        match tf {
            Timeframe::Minute5 => "5min",
            Timeframe::Minute15 => "15min",
            Timeframe::Minute30 => "30min",
            Timeframe::Hour1 => "1hr",
            Timeframe::Hour4 => "4hr",
            Timeframe::Day1 => "day",
            Timeframe::Week1 => "week",
            Timeframe::Month1 => "month",
            _ => "1min",
        }
    }

    /// Timeframe of a slot name (see [`spec_lb_parse_timeframe`]).
    pub fn parse_timeframe(t: &str) -> (r: Timeframe)
        ensures
            r == spec_lb_parse_timeframe(t@),
    {
        if str_eq(t, "5min") {
            Timeframe::Minute5
        } else if str_eq(t, "15min") {
            Timeframe::Minute15
        } else if str_eq(t, "30min") {
            Timeframe::Minute30
        } else if str_eq(t, "1hr") || str_eq(t, "1hour") {
            Timeframe::Hour1
        } else if str_eq(t, "4hr") || str_eq(t, "4hour") {
            Timeframe::Hour4
        } else if str_eq(t, "day") || str_eq(t, "1day") {
            Timeframe::Day1
        } else if str_eq(t, "week") || str_eq(t, "1week") {
            Timeframe::Week1
        } else if str_eq(t, "month") || str_eq(t, "1month") {
            Timeframe::Month1
        } else {
            Timeframe::Minute1
        }
    }

    /// Parameters signed for a private subscription.
    pub fn auth_params(api_key: &str, timestamp: i64) -> (r: String)
        ensures
            r@ == "api_key="@ + api_key@ + "&timestamp="@ + spec_int_to_string(timestamp as int),
    {
        let ts = crate::text::int_to_string(timestamp as i128);
        let mut r = concat2("api_key=", api_key);
        push_str(&mut r, "&timestamp=");
        push_str(&mut r, ts.as_str());
        r
    }

    /// The signed fields of a private subscription at time `now`: the key,
    /// the time and the signature of `api_key=..&timestamp=..`. A missing
    /// key, then a missing secret, is refused.
    pub fn auth_fields(&self, now: i64) -> (r: Result<(String, i64, String), CcxtError>)
        ensures
            r is Err <==> (self.api_key is None || self.api_secret is None),
            r is Err ==> r matches Err(CcxtError::AuthenticationError { .. }),
            r matches Ok((k, t, sig)) ==> {
                &&& Some(k@) == opt_view(self.api_key)
                &&& t == now
                &&& sig@ == lb_signature("api_key="@ + k@ + "&timestamp="@ + spec_int_to_string(now as int), self.api_secret->0@)
            },
    {
        let key = match &self.api_key {
            Some(k) => k,
            None => {
                return Err(CcxtError::AuthenticationError { message: copy_str("API key required for private channels") });
            },
        };
        let params = Self::auth_params(key.as_str(), now);
        match self.sign(params.as_str()) {
            Ok(sig) => Ok((copy_str(key.as_str()), now, sig)),
            Err(e) => Err(e),
        }
    }

    /// The private channels need a key and a secret.
    pub fn ws_authenticate(&self) -> (r: Result<(), CcxtError>)
        ensures
            r is Ok <==> (self.api_key is Some && self.api_secret is Some),
            r is Err ==> r matches Err(CcxtError::AuthenticationError { .. }),
    {
        if self.api_key.is_none() || self.api_secret.is_none() {
            return Err(CcxtError::AuthenticationError { message: copy_str("API credentials required for private channels") });
        }
        Ok(())
    }

    /// State of an order (see [`spec_lb_status`]).
    pub fn parse_status(s: &Option<String>) -> (r: OrderStatus)
        ensures
            r == spec_lb_status(*s),
    {
        match s {
            Some(t) => {
                let t = t.as_str();
                if str_eq(t, "2") || str_eq(t, "filled") {
                    OrderStatus::Closed
                } else if str_eq(t, "-1") || str_eq(t, "canceled") {
                    OrderStatus::Canceled
                } else {
                    OrderStatus::Open
                }
            },
            None => OrderStatus::Open,
        }
    }

    /// Side and kind of an order (see [`spec_lb_side_type`]).
    pub fn parse_side_type(t: &Option<String>) -> (r: (OrderSide, OrderType))
        ensures
            r == spec_lb_side_type(*t),
    {
        match t {
            Some(x) => {
                let x = x.as_str();
                if str_eq(x, "buy") || str_eq(x, "buy_market") {
                    (OrderSide::Buy, OrderType::Market)
                } else if str_eq(x, "sell") || str_eq(x, "sell_market") {
                    (OrderSide::Sell, OrderType::Market)
                } else if str_eq(x, "sell_maker") {
                    (OrderSide::Sell, OrderType::Limit)
                } else {
                    (OrderSide::Buy, OrderType::Limit)
                }
            },
            None => (OrderSide::Buy, OrderType::Limit),
        }
    }

    /// An order from order data under an id; the data names a market.
    fn build_order(data: &LbankOrderUpdateData, id: String) -> (r: Order)
        requires
            data.symbol is Some,
        ensures
            lb_order_ok(*data, id@, r),
    {
        let symbol = match &data.symbol {
            Some(s) => Self::parse_symbol_static(s.as_str()),
            None => String::new(),
        };
        let (side, order_type) = Self::parse_side_type(&data.order_type);
        let price = parse_opt(&data.price);
        let amount = parse_opt(&data.orig_qty);
        let filled = parse_opt(&data.executed_qty);
        let remaining = match (amount, filled) {
            (Some(a), Some(f)) => dec_sub(a, f),
            _ => None,
        };
        let cost = match (price, filled) {
            (Some(p), Some(f)) => dec_mul(p, f),
            _ => None,
        };
        Order {
            id,
            client_order_id: copy_opt(&data.customer_id),
            timestamp: data.create_time,
            datetime: match data.create_time {
                Some(t) => Some(iso8601_or_empty(t)),
                None => None,
            },
            last_trade_timestamp: None,
            last_update_timestamp: data.update_time,
            status: Self::parse_status(&data.status),
            symbol,
            order_type,
            time_in_force: None,
            side,
            price,
            average: None,
            amount: match amount {
                Some(a) => a,
                None => Dec::zero(),
            },
            filled: match filled {
                Some(f) => f,
                None => Dec::zero(),
            },
            remaining,
            stop_price: None,
            trigger_price: None,
            take_profit_price: None,
            stop_loss_price: None,
            trades: Vec::new(),
            cost,
            fee: None,
            reduce_only: None,
            post_only: None,
        }
    }

    /// An order update; `None` without a market or an order number.
    pub fn parse_order(&self, data: &LbankOrderUpdateData) -> (r: Option<WsMessage>)
        ensures
            r is Some <==> (data.symbol is Some && data.order_no is Some),
            r matches Some(m) ==> m matches WsMessage::Order(e) && lb_order_ok(*data, data.order_no->0@, e.order),
    {
        if data.symbol.is_none() {
            return None;
        }
        let id = match &data.order_no {
            Some(x) => copy_str(x.as_str()),
            None => {
                return None;
            },
        };
        let order = Self::build_order(data, id);
        Some(WsMessage::Order(WsOrderEvent { order }))
    }

    /// Reads order data from a private message's data.
    pub fn read_order_data(j: &Json) -> (r: Result<LbankOrderUpdateData, ()>)
        ensures
            r is Ok <==> lb_order_reads(*j),
            r matches Ok(d) ==> lb_order_read(*j, d),
    {
        match j {
            Json::Obj(_) => {},
            _ => {
                return Err(());
            },
        }
        let order_no = match j.opt_str_field("orderNo") { Ok(v) => v, Err(_) => { return Err(()); } };
        let customer_id = match j.opt_str_field("customerID") { Ok(v) => v, Err(_) => { return Err(()); } };
        let symbol = match j.opt_str_field("symbol") { Ok(v) => v, Err(_) => { return Err(()); } };
        let order_type = match j.opt_str_field("type") { Ok(v) => v, Err(_) => { return Err(()); } };
        let price = match j.opt_str_field("price") { Ok(v) => v, Err(_) => { return Err(()); } };
        let orig_qty = match j.opt_str_field("origQty") { Ok(v) => v, Err(_) => { return Err(()); } };
        let executed_qty = match j.opt_str_field("executedQty") { Ok(v) => v, Err(_) => { return Err(()); } };
        let status = match j.opt_str_field("status") { Ok(v) => v, Err(_) => { return Err(()); } };
        let create_time = match j.opt_i64_field("createTime") { Ok(v) => v, Err(_) => { return Err(()); } };
        let update_time = match j.opt_i64_field("updateTime") { Ok(v) => v, Err(_) => { return Err(()); } };
        Ok(LbankOrderUpdateData {
            order_no, customer_id, symbol, order_type, price, orig_qty, executed_qty, status,
            create_time, update_time,
        })
    }

    /// What one holdings entry gives (see [`lb_balance_entry`]).
    fn balance_entry(j: &Json) -> (r: Option<(String, Balance)>)
        ensures
            match r {
                Some((code, b)) => lb_balance_entry(*j) is Some && code@ == lb_code(*j) && lb_balance_ok(*j, b),
                None => lb_balance_entry(*j) is None,
            },
    {
        match j {
            Json::Obj(_) => {},
            _ => {
                return None;
            },
        }
        let asset = match j.opt_str_field("asset") { Ok(v) => v, Err(_) => { return None; } };
        let free = match j.opt_str_field("free") { Ok(v) => v, Err(_) => { return None; } };
        let locked = match j.opt_str_field("locked") { Ok(v) => v, Err(_) => { return None; } };
        match asset {
            Some(a) => {
                let f = parse_opt_or_zero(&free);
                let l = parse_opt_or_zero(&locked);
                let code = to_uppercase(a.as_str());
                Some((code, Balance { free: Some(f), used: Some(l), total: dec_add(f, l) }))
            },
            None => None,
        }
    }

    /// Holdings of a message's entries (see [`lb_balances_ok`]); always an
    /// event.
    pub fn parse_balance(&self, balances_arr: &Vec<Json>, parsed: &Json, now: i64) -> (r: Option<WsMessage>)
        ensures
            r matches Some(WsMessage::Balance(e)) && lb_balances_ok(balances_arr@, *parsed, now, e.balances),
    {
        let ghost kept = lb_kept(balances_arr@);
        let ghost ok = |i: int, bal: Balance| lb_balance_ok(kept[i], bal);
        let ts: i64 = match parsed.get("timestamp") {
            Some(v) => match v.as_i64() {
                Some(t) => t,
                None => now,
            },
            None => now,
        };
        let mut result = Balances::new();
        result.timestamp = Some(ts);
        let n = balances_arr.len();
        let mut k: usize = 0;
        proof {
            lemma_keyed_empty(ok);
            assert(lb_kept(balances_arr@.take(0)) =~= Seq::<Json>::empty());
            assert(lb_kept(balances_arr@.take(0)).map_values(|j: Json| lb_code(j)) =~= Seq::<Seq<char>>::empty());
            assert(result.currencies@ =~= Seq::<(String, Balance)>::empty());
        }
        while k < n
            invariant
                n == balances_arr@.len(),
                k <= n,
                kept == lb_kept(balances_arr@),
                result.timestamp == Some(ts),
                result.datetime is None,
                ok == (|i: int, bal: Balance| lb_balance_ok(kept[i], bal)),
                lb_kept(balances_arr@.take(k as int)).len() <= kept.len(),
                forall|j: int| 0 <= j < lb_kept(balances_arr@.take(k as int)).len() ==> #[trigger] lb_kept(balances_arr@.take(k as int))[j] == kept[j],
                keyed_by_last(lb_kept(balances_arr@.take(k as int)).map_values(|j: Json| lb_code(j)), result.currencies@, ok),
            decreases n - k,
        {
            let ghost pre = lb_kept(balances_arr@.take(k as int));
            proof {
                assert(balances_arr@.take(k + 1).drop_last() =~= balances_arr@.take(k as int));
                assert(balances_arr@.take(k + 1).last() == balances_arr@[k as int]);
                reveal_with_fuel(Seq::<_>::filter, 1);
                lemma_kept_prefix(balances_arr@, k + 1);
            }
            match Self::balance_entry(&balances_arr[k]) {
                Some((code, bal)) => {
                    let ghost before = result.currencies@;
                    let ghost c = code@;
                    result.add(code, bal);
                    proof {
                        let codes = pre.map_values(|j: Json| lb_code(j));
                        assert(lb_kept(balances_arr@.take(k + 1)) == pre.push(balances_arr@[k as int]));
                        assert(lb_kept(balances_arr@.take(k + 1))[pre.len() as int] == balances_arr@[k as int]);
                        assert(kept[pre.len() as int] == balances_arr@[k as int]);
                        lemma_keyed_step(codes, before, result.currencies@, c, bal, ok);
                        assert(codes.push(c) =~= lb_kept(balances_arr@.take(k + 1)).map_values(|j: Json| lb_code(j)));
                    }
                },
                None => {
                    proof {
                        assert(lb_kept(balances_arr@.take(k + 1)) == pre);
                    }
                },
            }
            k = k + 1;
        }
        proof {
            assert(balances_arr@.take(n as int) =~= balances_arr@);
        }
        Some(WsMessage::Balance(WsBalanceEvent { balances: result }))
    }

    /// Decodes a private stream message at time `now`: text that holds no
    /// JSON gives nothing, otherwise see [`lb_private_ok`].
    pub fn process_private_message(&self, msg: &str, now: i64) -> (r: Option<WsMessage>)
        ensures
            match spec_parse_json(msg@) {
                Some(j) => lb_private_ok(j, now, r),
                None => r is None,
            },
    {
        let parsed = match Json::parse(msg) {
            Some(j) => j,
            None => {
                return None;
            },
        };
        let t = match parsed.get("type") {
            Some(v) => match v.as_str() {
                Some(t) => t,
                None => {
                    return None;
                },
            },
            None => {
                return None;
            },
        };
        if str_eq(t, "orderUpdate") || str_eq(t, "order") {
            match parsed.get("data") {
                Some(data) => match Self::read_order_data(data) {
                    Ok(d) => {
                        assert(lb_order_read(*data, d));
                        self.parse_order(&d)
                    },
                    Err(_) => None,
                },
                None => None,
            }
        } else if str_eq(t, "balanceUpdate") || str_eq(t, "balance") {
            self.balance_message(&parsed, now)
        } else {
            None
        }
    }

    /// A holdings message (see [`lb_balance_msg_ok`]).
    fn balance_message(&self, parsed: &Json, now: i64) -> (r: Option<WsMessage>)
        ensures
            lb_balance_msg_ok(*parsed, now, r),
    {
        match parsed.get("data") {
            Some(data) => match data.as_array() {
                Some(arr) => self.parse_balance(arr, parsed, now),
                None => None,
            },
            None => None,
        }
    }

    /// Decodes a message of the order stream: order updates that name a
    /// market become orders (the order number, or empty text, as id);
    /// anything else gives nothing.
    pub fn decode_order_stream(msg: &str) -> (r: Option<WsMessage>)
        ensures
            match spec_parse_json(msg@) {
                Some(j) => lb_order_stream_ok(j, r),
                None => r is None,
            },
    {
        let parsed = match Json::parse(msg) {
            Some(j) => j,
            None => {
                return None;
            },
        };
        Self::decode_order_document(&parsed)
    }

    /// Decodes a message of the order stream already read as JSON (see
    /// [`lb_order_stream_ok`]).
    pub fn decode_order_document(parsed: &Json) -> (r: Option<WsMessage>)
        ensures
            lb_order_stream_ok(*parsed, r),
    {
        let is_order = match parsed.get("type") {
            Some(v) => match v.as_str() {
                Some(t) => str_eq(t, "orderUpdate") || str_eq(t, "order"),
                None => false,
            },
            None => false,
        };
        if !is_order {
            return None;
        }
        match parsed.get("data") {
            Some(data) => match Self::read_order_data(data) {
                Ok(d) => {
                    assert(lb_order_read(*data, d));
                    if d.symbol.is_none() {
                        return None;
                    }
                    let id = match &d.order_no {
                        Some(x) => copy_str(x.as_str()),
                        None => String::new(),
                    };
                    let order = Self::build_order(&d, id);
                    Some(WsMessage::Order(WsOrderEvent { order }))
                },
                Err(_) => None,
            },
            None => None,
        }
    }

    /// Decodes a message of the holdings stream at time `now`: holdings
    /// updates whose data is a list become holdings; anything else gives
    /// nothing.
    pub fn decode_balance_stream(&self, msg: &str, now: i64) -> (r: Option<WsMessage>)
        ensures
            match spec_parse_json(msg@) {
                Some(j) => if type_is(j, "balanceUpdate"@, "balance"@) {
                    lb_balance_msg_ok(j, now, r)
                } else {
                    r is None
                },
                None => r is None,
            },
    {
        let parsed = match Json::parse(msg) {
            Some(j) => j,
            None => {
                return None;
            },
        };
        let is_balance = match parsed.get("type") {
            Some(v) => match v.as_str() {
                Some(t) => str_eq(t, "balanceUpdate") || str_eq(t, "balance"),
                None => false,
            },
            None => false,
        };
        if !is_balance {
            return None;
        }
        self.balance_message(&parsed, now)
    }
}


/// What a public stream message asks of the client: answer a ping, or
/// hand events to the subscriptions named by their keys.
#[derive(Debug)]
pub enum LbankAction {
    Pong(String),
    Deliver(Vec<(String, WsMessage)>),
}

/// A member's text read as a decimal.
pub open spec fn lb_str_dec(j: Json, k: Seq<char>) -> Option<(int, int)> {
    match get_str_spec(j, k) {
        Some(t) => spec_dec_parse(t),
        None => None,
    }
}

/// A member's text read as a decimal, zero when it is none.
pub open spec fn lb_str_dec_or_zero(j: Json, k: Seq<char>) -> (int, int) {
    match lb_str_dec(j, k) {
        Some(p) => p,
        None => (0, 0),
    }
}

/// A member's RFC 3339 text read as milliseconds.
pub open spec fn lb_rfc(j: Json, k: Seq<char>) -> Option<int> {
    match get_str_spec(j, k) {
        Some(t) => spec_rfc3339_ms(t),
        None => None,
    }
}

/// A value read as a decimal: a string or a number by its text, zero when
/// it does not read.
pub open spec fn lb_num(j: Json) -> (int, int) {
    match j {
        Json::Str(t) => match spec_dec_parse(t@) {
            Some(p) => p,
            None => (0, 0),
        },
        Json::Num(t) => match spec_dec_parse(t@) {
            Some(p) => p,
            None => (0, 0),
        },
        _ => (0, 0),
    }
}

/// The calendar text of an optional instant, when there is one.
pub open spec fn lb_datetime(ts: Option<int>) -> Option<Seq<char>> {
    match ts {
        Some(t) => spec_iso8601(t),
        None => None,
    }
}

/// Side of a public trade: `buy` when the direction begins with `buy`.
pub open spec fn lb_side(direction: Seq<char>) -> Seq<char> {
    if 3 <= direction.len() && direction.subrange(0, 3) == "buy"@ {
        "buy"@
    } else {
        "sell"@
    }
}

/// A ticker event of a pair.
pub open spec fn lb_ticker_ok(pair: Seq<char>, tick: Json, e: WsTickerEvent) -> bool {
    let t = e.ticker;
    &&& e.symbol@ == spec_lb_parse_symbol(pair)
    &&& t.symbol@ == e.symbol@
    &&& opt_parts(t.high) == lb_str_dec(tick, "high"@)
    &&& opt_parts(t.low) == lb_str_dec(tick, "low"@)
    &&& opt_parts(t.last) == lb_str_dec(tick, "latest"@)
    &&& opt_parts(t.base_volume) == lb_str_dec(tick, "vol"@)
    &&& t.bid is None && t.bid_volume is None && t.ask is None && t.ask_volume is None
    &&& t.vwap is None && t.open is None && t.close is None && t.previous_close is None
    &&& t.change is None && t.percentage is None && t.average is None && t.quote_volume is None
    &&& t.index_price is None && t.mark_price is None
    &&& t.timestamp is None && t.datetime is None
}

/// A public trade from a trade object.
pub open spec fn lb_trade_ok(symbol: Seq<char>, j: Json, t: Trade) -> bool {
    let ts = lb_rfc(j, "TS"@);
    let dir = match get_str_spec(j, "direction"@) {
        Some(d) => d,
        None => Seq::<char>::empty(),
    };
    let price = lb_str_dec_or_zero(j, "price"@);
    let amount = lb_str_dec_or_zero(j, "volume"@);
    &&& t.id@ == Seq::<char>::empty()
    &&& t.order is None
    &&& match ts {
        Some(x) => t.timestamp matches Some(y) && y as int == x,
        None => t.timestamp is None,
    }
    &&& opt_view(t.datetime) == lb_datetime(ts)
    &&& t.symbol@ == symbol
    &&& t.trade_type is None
    &&& opt_view(t.side) == Some(lb_side(dir))
    &&& t.taker_or_maker is None
    &&& t.price.parts() == price
    &&& t.amount.parts() == amount
    &&& opt_parts(t.cost) == spec_dec_mul(price, amount)
    &&& t.fee is None
}

/// A public trade from a row `[time, price, volume, direction]`.
pub open spec fn lb_row_trade_ok(symbol: Seq<char>, row: Seq<Json>, t: Trade) -> bool {
    let ts = if row.len() >= 1 { spec_as_i64(row[0]) } else { None };
    let dir = if row.len() >= 4 {
        match spec_as_str(row[3]) {
            Some(d) => d,
            None => Seq::<char>::empty(),
        }
    } else {
        Seq::<char>::empty()
    };
    let price = if row.len() >= 2 {
        match spec_as_str(row[1]) {
            Some(x) => text_dec_or_zero(x),
            None => (0int, 0int),
        }
    } else {
        (0int, 0int)
    };
    let amount = if row.len() >= 3 {
        match spec_as_str(row[2]) {
            Some(x) => text_dec_or_zero(x),
            None => (0int, 0int),
        }
    } else {
        (0int, 0int)
    };
    &&& t.id@ == Seq::<char>::empty()
    &&& t.order is None
    &&& match ts {
        Some(x) => t.timestamp matches Some(y) && y as int == x,
        None => t.timestamp is None,
    }
    &&& opt_view(t.datetime) == lb_datetime(ts)
    &&& t.symbol@ == symbol
    &&& t.trade_type is None
    &&& opt_view(t.side) == Some(lb_side(dir))
    &&& t.taker_or_maker is None
    &&& t.price.parts() == price
    &&& t.amount.parts() == amount
    &&& opt_parts(t.cost) == spec_dec_mul(price, amount)
    &&& t.fee is None
}

/// The list members of an array value.
pub open spec fn lb_arrays(items: Seq<Json>) -> Seq<Json> {
    items.filter(|j: Json| j is Arr)
}

/// The rows of a side of the book: list members with at least two values.
pub open spec fn lb_level_rows(items: Seq<Json>) -> Seq<Json> {
    items.filter(|j: Json| j matches Json::Arr(v) && v@.len() >= 2)
}

/// One side of the book from an optional list of rows.
pub open spec fn lb_side_ok(o: Option<Json>, es: Seq<OrderBookEntry>) -> bool {
    match o {
        Some(Json::Arr(items)) => {
            let rows = lb_level_rows(items@);
            &&& es.len() == rows.len()
            &&& forall|k: int| 0 <= k < es.len() ==> (#[trigger] rows[k] matches Json::Arr(v)
                && es[k].price.parts() == lb_num(v@[0]) && es[k].amount.parts() == lb_num(v@[1]))
        },
        _ => es.len() == 0,
    }
}

/// A book snapshot of a pair from a depth message.
pub open spec fn lb_book_ok(pair: Seq<char>, data: Json, b: OrderBook) -> bool {
    let depth = match spec_get(data, "depth"@) {
        Some(d) => d,
        None => data,
    };
    let ts = lb_rfc(data, "TS"@);
    &&& b.symbol@ == spec_lb_parse_symbol(pair)
    &&& lb_side_ok(spec_get(depth, "bids"@), b.bids@)
    &&& lb_side_ok(spec_get(depth, "asks"@), b.asks@)
    &&& match ts {
        Some(x) => b.timestamp matches Some(y) && y as int == x,
        None => b.timestamp is None,
    }
    &&& opt_view(b.datetime) == lb_datetime(ts)
    &&& b.nonce is None
}

/// A candle from a candle object: RFC 3339 time (zero when none) and texts
/// of numbers (zero when unreadable).
pub open spec fn lb_kbar_ok(k: Json, c: OHLCV) -> bool {
    &&& c.timestamp as int == match lb_rfc(k, "t"@) {
        Some(x) => x,
        None => 0,
    }
    &&& c.open.parts() == lb_str_dec_or_zero(k, "o"@)
    &&& c.high.parts() == lb_str_dec_or_zero(k, "h"@)
    &&& c.low.parts() == lb_str_dec_or_zero(k, "l"@)
    &&& c.close.parts() == lb_str_dec_or_zero(k, "c"@)
    &&& c.volume.parts() == lb_str_dec_or_zero(k, "v"@)
}

/// The value at a position of a row, read as a decimal (zero past its end).
pub open spec fn lb_row_num(row: Seq<Json>, i: int) -> (int, int) {
    if i < row.len() {
        lb_num(row[i])
    } else {
        (0, 0)
    }
}

/// The time in seconds at the head of a candle row (zero when none).
pub open spec fn lb_row_secs(row: Seq<Json>) -> int {
    if row.len() >= 1 {
        match spec_as_i64(row[0]) {
            Some(t) => t,
            None => 0,
        }
    } else {
        0
    }
}

/// Candle rows whose time in milliseconds fits.
pub open spec fn lb_record_rows(items: Seq<Json>) -> Seq<Json> {
    items.filter(|j: Json| j matches Json::Arr(v) && i64::MIN <= lb_row_secs(v@) * 1000 <= i64::MAX)
}

/// A candle from a row `[time, open, high, low, close, volume, ..]`.
pub open spec fn lb_record_ok(row: Seq<Json>, c: OHLCV) -> bool {
    &&& c.timestamp as int == lb_row_secs(row) * 1000
    &&& c.open.parts() == lb_row_num(row, 1)
    &&& c.high.parts() == lb_row_num(row, 2)
    &&& c.low.parts() == lb_row_num(row, 3)
    &&& c.close.parts() == lb_row_num(row, 4)
    &&& c.volume.parts() == lb_row_num(row, 5)
}

/// A member's text, or a fallback.
pub open spec fn str_or(j: Json, k: Seq<char>, d: Seq<char>) -> Seq<char> {
    match get_str_spec(j, k) {
        Some(t) => t,
        None => d,
    }
}

impl LbankWs {
    /// A member read as a decimal from its text.
    fn str_dec(j: &Json, k: &str) -> (r: Option<Dec>)
        ensures
            opt_parts(r) == lb_str_dec(*j, k@),
            r matches Some(d) ==> d.wf(),
    {
        match j.get(k) {
            Some(v) => match v.as_str() {
                Some(t) => dec_parse(t),
                None => None,
            },
            None => None,
        }
    }

    /// A member read as a decimal, zero when it does not read.
    fn str_dec_or_zero(j: &Json, k: &str) -> (r: Dec)
        ensures
            r.parts() == lb_str_dec_or_zero(*j, k@),
            r.wf(),
    {
        match Self::str_dec(j, k) {
            Some(d) => d,
            None => Dec::zero(),
        }
    }

    /// A member's RFC 3339 text read as milliseconds.
    fn rfc(j: &Json, k: &str) -> (r: Option<i64>)
        ensures
            match r {
                Some(x) => lb_rfc(*j, k@) == Some(x as int),
                None => lb_rfc(*j, k@) is None,
            },
    {
        match j.get(k) {
            Some(v) => match v.as_str() {
                Some(t) => parse_rfc3339_ms(t),
                None => None,
            },
            None => None,
        }
    }

    /// A member's text, or a fallback.
    fn get_str_or(j: &Json, k: &str, d: &str) -> (r: String)
        ensures
            r@ == str_or(*j, k@, d@),
    {
        match j.get(k) {
            Some(v) => match v.as_str() {
                Some(t) => copy_str(t),
                None => copy_str(d),
            },
            None => copy_str(d),
        }
    }

    /// A value read as a decimal (see [`lb_num`]).
    fn num(j: &Json) -> (r: Dec)
        ensures
            r.parts() == lb_num(*j),
            r.wf(),
    {
        let o = match j {
            Json::Str(t) => dec_parse(t.as_str()),
            Json::Num(t) => dec_parse(t.as_str()),
            _ => None,
        };
        match o {
            Some(d) => d,
            None => Dec::zero(),
        }
    }

    /// Side of a public trade (see [`lb_side`]).
    fn side_of(direction: &str) -> (r: String)
        ensures
            r@ == lb_side(direction@),
    {
        proof {
            reveal_strlit("buy");
        }
        if starts_with(direction, "buy") {
            copy_str("buy")
        } else {
            copy_str("sell")
        }
    }

    /// The calendar text of an optional instant.
    fn datetime_of(ts: Option<i64>) -> (r: Option<String>)
        ensures
            opt_view(r) == lb_datetime(match ts {
                Some(t) => Some(t as int),
                None => None,
            }),
    {
        match ts {
            Some(t) => iso8601(t),
            None => None,
        }
    }

    /// A ticker event of a pair (key `ticker:` and the symbol).
    pub fn handle_ticker(pair: &str, tick: &Json) -> (r: (String, WsTickerEvent))
        ensures
            r.0@ == "ticker:"@ + spec_lb_parse_symbol(pair@),
            lb_ticker_ok(pair@, *tick, r.1),
    {
        let symbol = Self::parse_symbol_static(pair);
        let key = concat2("ticker:", symbol.as_str());
        let ticker = Ticker {
            symbol: copy_str(symbol.as_str()),
            timestamp: None,
            datetime: None,
            high: Self::str_dec(tick, "high"),
            low: Self::str_dec(tick, "low"),
            bid: None,
            bid_volume: None,
            ask: None,
            ask_volume: None,
            vwap: None,
            open: None,
            close: None,
            last: Self::str_dec(tick, "latest"),
            previous_close: None,
            change: None,
            percentage: None,
            average: None,
            base_volume: Self::str_dec(tick, "vol"),
            quote_volume: None,
            index_price: None,
            mark_price: None,
        };
        (key, WsTickerEvent { symbol, ticker })
    }

    /// A public trade from a trade object.
    pub fn parse_trade_object(symbol: &str, j: &Json) -> (r: Trade)
        ensures
            lb_trade_ok(symbol@, *j, r),
    {
        let ts = Self::rfc(j, "TS");
        proof {
            reveal_strlit("");
        }
        let dir = Self::get_str_or(j, "direction", "");
        let price = Self::str_dec_or_zero(j, "price");
        let amount = Self::str_dec_or_zero(j, "volume");
        Trade {
            id: String::new(),
            order: None,
            timestamp: ts,
            datetime: Self::datetime_of(ts),
            symbol: copy_str(symbol),
            trade_type: None,
            side: Some(Self::side_of(dir.as_str())),
            taker_or_maker: None,
            price,
            amount,
            cost: dec_mul(price, amount),
            fee: None,
        }
    }

    /// A public trade from a row `[time, price, volume, direction]`.
    pub fn parse_trade_row(symbol: &str, row: &Vec<Json>) -> (r: Trade)
        ensures
            lb_row_trade_ok(symbol@, row@, r),
    {
        let n = row.len();
        let ts = if n >= 1 { row[0].as_i64() } else { None };
        let dir = if n >= 4 {
            match row[3].as_str() {
                Some(d) => copy_str(d),
                None => String::new(),
            }
        } else {
            String::new()
        };
        let price = if n >= 2 {
            match row[1].as_str() {
                Some(x) => parse_or_zero(x),
                None => Dec::zero(),
            }
        } else {
            Dec::zero()
        };
        let amount = if n >= 3 {
            match row[2].as_str() {
                Some(x) => parse_or_zero(x),
                None => Dec::zero(),
            }
        } else {
            Dec::zero()
        };
        Trade {
            id: String::new(),
            order: None,
            timestamp: ts,
            datetime: Self::datetime_of(ts),
            symbol: copy_str(symbol),
            trade_type: None,
            side: Some(Self::side_of(dir.as_str())),
            taker_or_maker: None,
            price,
            amount,
            cost: dec_mul(price, amount),
            fee: None,
        }
    }

    /// Public trades of a list of rows: one per member that is a list.
    pub fn parse_trade_rows(symbol: &str, items: &Vec<Json>) -> (r: Vec<Trade>)
        ensures
            r@.len() == lb_arrays(items@).len(),
            forall|k: int| 0 <= k < r@.len() ==> (#[trigger] lb_arrays(items@)[k] matches Json::Arr(v) && lb_row_trade_ok(symbol@, v@, r@[k])),
    {
        let mut out: Vec<Trade> = Vec::new();
        let n = items.len();
        let mut i: usize = 0;
        while i < n
            invariant
                n == items@.len(),
                i <= n,
                out@.len() == lb_arrays(items@.take(i as int)).len(),
                forall|k: int| 0 <= k < out@.len() ==> (#[trigger] lb_arrays(items@.take(i as int))[k] matches Json::Arr(v) && lb_row_trade_ok(symbol@, v@, out@[k])),
            decreases n - i,
        {
            let ghost pre = items@.take(i as int);
            proof {
                assert(items@.take(i + 1).drop_last() =~= pre);
                assert(items@.take(i + 1).last() == items@[i as int]);
                reveal_with_fuel(Seq::<_>::filter, 1);
            }
            match &items[i] {
                Json::Arr(row) => {
                    let t = Self::parse_trade_row(symbol, row);
                    out.push(t);
                    proof {
                        assert(lb_arrays(items@.take(i + 1)) == lb_arrays(pre).push(items@[i as int]));
                    }
                },
                _ => {
                    proof {
                        assert(lb_arrays(items@.take(i + 1)) == lb_arrays(pre));
                    }
                },
            }
            i = i + 1;
        }
        proof {
            assert(items@.take(n as int) =~= items@);
        }
        out
    }

    /// One side of the book (see [`lb_side_ok`]).
    pub fn parse_orderbook_side(o: Option<&Json>) -> (r: Vec<OrderBookEntry>)
        ensures
            lb_side_ok(match o {
                Some(j) => Some(*j),
                None => None,
            }, r@),
    {
        let mut out: Vec<OrderBookEntry> = Vec::new();
        let items = match o {
            Some(Json::Arr(items)) => items,
            _ => {
                return out;
            },
        };
        let n = items.len();
        let mut i: usize = 0;
        while i < n
            invariant
                n == items@.len(),
                i <= n,
                out@.len() == lb_level_rows(items@.take(i as int)).len(),
                forall|k: int| 0 <= k < out@.len() ==> (#[trigger] lb_level_rows(items@.take(i as int))[k] matches Json::Arr(v)
                    && out@[k].price.parts() == lb_num(v@[0]) && out@[k].amount.parts() == lb_num(v@[1])),
            decreases n - i,
        {
            let ghost pre = items@.take(i as int);
            proof {
                assert(items@.take(i + 1).drop_last() =~= pre);
                assert(items@.take(i + 1).last() == items@[i as int]);
                reveal_with_fuel(Seq::<_>::filter, 1);
            }
            let mut pushed = false;
            match &items[i] {
                Json::Arr(row) => {
                    if row.len() >= 2 {
                        let e = OrderBookEntry { price: Self::num(&row[0]), amount: Self::num(&row[1]) };
                        out.push(e);
                        pushed = true;
                        proof {
                            assert(lb_level_rows(items@.take(i + 1)) == lb_level_rows(pre).push(items@[i as int]));
                        }
                    }
                },
                _ => {},
            }
            if !pushed {
                proof {
                    assert(lb_level_rows(items@.take(i + 1)) == lb_level_rows(pre));
                }
            }
            i = i + 1;
        }
        proof {
            assert(items@.take(n as int) =~= items@);
        }
        out
    }

    /// A book snapshot from a depth message; it replaces the cached book of
    /// its market (key `orderbook:` and the symbol).
    pub fn handle_orderbook(&mut self, pair: &str, data: &Json) -> (r: (String, WsOrderBookEvent))
        ensures
            r.0@ == "orderbook:"@ + spec_lb_parse_symbol(pair@),
            r.1.symbol@ == spec_lb_parse_symbol(pair@),
            r.1.is_snapshot,
            lb_book_ok(pair@, *data, r.1.order_book),
            pair_lookup(final(self).orderbook_cache@, spec_lb_parse_symbol(pair@)) matches Some(c) && book_same(c, r.1.order_book),
            forall|k: Seq<char>| k != spec_lb_parse_symbol(pair@) ==> pair_lookup(final(self).orderbook_cache@, k) == pair_lookup(old(self).orderbook_cache@, k),
            final(self).api_key == old(self).api_key,
            final(self).api_secret == old(self).api_secret,
            final(self).request_id == old(self).request_id,
    {
        let symbol = Self::parse_symbol_static(pair);
        let key = concat2("orderbook:", symbol.as_str());
        let depth = match data.get("depth") {
            Some(d) => d,
            None => data,
        };
        let bids = Self::parse_orderbook_side(depth.get("bids"));
        let asks = Self::parse_orderbook_side(depth.get("asks"));
        let ts = Self::rfc(data, "TS");
        let book = OrderBook {
            symbol: copy_str(symbol.as_str()),
            timestamp: ts,
            datetime: Self::datetime_of(ts),
            nonce: None,
            bids,
            asks,
        };
        let cached = copy_book(&book);
        keyed_insert(&mut self.orderbook_cache, copy_str(symbol.as_str()), cached);
        (key, WsOrderBookEvent { symbol, order_book: book, is_snapshot: true })
    }
}


/// Whether a message is a ping.
pub open spec fn lb_is_ping(data: Json) -> bool {
    get_str_spec(data, "action"@) == Some("ping"@)
}

/// Whether a message is a book snapshot (and not a ping).
pub open spec fn lb_is_depth(data: Json) -> bool {
    !lb_is_ping(data) && str_or(data, "type"@, Seq::<char>::empty()) == "depth"@
}

/// The events a public message hands out, each with the key of the
/// subscription that receives it.
pub open spec fn lb_deliveries_ok(data: Json, v: Seq<(String, WsMessage)>) -> bool {
    let ty = str_or(data, "type"@, Seq::<char>::empty());
    let pair = str_or(data, "pair"@, Seq::<char>::empty());
    let sym = spec_lb_parse_symbol(pair);
    if ty == "tick"@ {
        match spec_get(data, "tick"@) {
            Some(t) => v.len() == 1 && v[0].0@ == "ticker:"@ + sym && (v[0].1 matches WsMessage::Ticker(e) && lb_ticker_ok(pair, t, e)),
            None => v.len() == 0,
        }
    } else if ty == "trade"@ {
        match spec_get(data, "trade"@) {
            Some(t) => v.len() == 1 && v[0].0@ == "trades:"@ + sym && (v[0].1 matches WsMessage::Trade(e) && e.symbol@ == sym
                && e.trades@.len() == 1 && lb_trade_ok(sym, t, e.trades@[0])),
            None => match spec_get(data, "trades"@) {
                Some(Json::Arr(items)) => if lb_arrays(items@).len() > 0 {
                    &&& v.len() == 1
                    &&& v[0].0@ == "trades:"@ + sym
                    &&& v[0].1 matches WsMessage::Trade(e)
                    &&& e.symbol@ == sym
                    &&& e.trades@.len() == lb_arrays(items@).len()
                    &&& forall|k: int| 0 <= k < e.trades@.len() ==> (#[trigger] lb_arrays(items@)[k] matches Json::Arr(row)
                        && lb_row_trade_ok(sym, row@, e.trades@[k]))
                } else {
                    v.len() == 0
                },
                _ => v.len() == 0,
            },
        }
    } else if ty == "depth"@ {
        v.len() == 1 && v[0].0@ == "orderbook:"@ + sym && (v[0].1 matches WsMessage::OrderBook(e) && e.symbol@ == sym
            && e.is_snapshot && lb_book_ok(pair, data, e.order_book))
    } else if ty == "kbar"@ {
        match spec_get(data, "kbar"@) {
            Some(k) => {
                let tf = str_or(k, "slot"@, "1min"@);
                v.len() == 1 && v[0].0@ == "ohlcv:"@ + sym + ":"@ + tf && (v[0].1 matches WsMessage::Ohlcv(e)
                    && e.symbol@ == sym && e.timeframe == spec_lb_parse_timeframe(tf) && lb_kbar_ok(k, e.ohlcv))
            },
            None => match spec_get(data, "records"@) {
                Some(Json::Arr(items)) => {
                    let tf = str_or(data, "kbar"@, "1min"@);
                    let rows = lb_record_rows(items@);
                    &&& v.len() == rows.len()
                    &&& forall|k: int| 0 <= k < v.len() ==> {
                        &&& (#[trigger] v[k]).0@ == "ohlcv:"@ + sym + ":"@ + tf
                        &&& v[k].1 matches WsMessage::Ohlcv(e)
                        &&& e.symbol@ == sym
                        &&& e.timeframe == spec_lb_parse_timeframe(tf)
                        &&& rows[k] matches Json::Arr(row)
                        &&& lb_record_ok(row@, e.ohlcv)
                    }
                },
                _ => v.len() == 0,
            },
        }
    } else {
        v.len() == 0
    }
}

/// The cached books after a snapshot: the delivered book under its
/// market, every other market as before.
pub open spec fn lb_cache_ok(before: Seq<(String, OrderBook)>, after: Seq<(String, OrderBook)>, sym: Seq<char>, r: LbankAction) -> bool {
    &&& pair_lookup(after, sym) matches Some(c) && (r matches LbankAction::Deliver(v) && v@.len() == 1
        && (v@[0].1 matches WsMessage::OrderBook(e) && book_same(c, e.order_book)))
    &&& forall|k: Seq<char>| k != sym ==> pair_lookup(after, k) == pair_lookup(before, k)
}

impl LbankWs {
    /// A candle event from a candle object of a slot (key `ohlcv:`, the
    /// symbol, `:` and the slot).
    pub fn handle_ohlcv(pair: &str, tf: &str, k: &Json) -> (r: (String, WsOhlcvEvent))
        ensures
            r.0@ == "ohlcv:"@ + spec_lb_parse_symbol(pair@) + ":"@ + tf@,
            r.1.symbol@ == spec_lb_parse_symbol(pair@),
            r.1.timeframe == spec_lb_parse_timeframe(tf@),
            lb_kbar_ok(*k, r.1.ohlcv),
    {
        let symbol = Self::parse_symbol_static(pair);
        let mut key = concat3("ohlcv:", symbol.as_str(), ":");
        push_str(&mut key, tf);
        let ts: i64 = match Self::rfc(k, "t") {
            Some(t) => t,
            None => 0,
        };
        let ohlcv = OHLCV {
            timestamp: ts,
            open: Self::str_dec_or_zero(k, "o"),
            high: Self::str_dec_or_zero(k, "h"),
            low: Self::str_dec_or_zero(k, "l"),
            close: Self::str_dec_or_zero(k, "c"),
            volume: Self::str_dec_or_zero(k, "v"),
        };
        (key, WsOhlcvEvent { symbol, timeframe: Self::parse_timeframe(tf), ohlcv })
    }

    /// A candle from a row whose time fits (see [`lb_record_ok`]).
    fn record(row: &Vec<Json>) -> (r: Option<OHLCV>)
        ensures
            r is Some <==> i64::MIN <= lb_row_secs(row@) * 1000 <= i64::MAX,
            r matches Some(c) ==> lb_record_ok(row@, c),
    {
        let n = row.len();
        let secs: i64 = if n >= 1 {
            match row[0].as_i64() {
                Some(t) => t,
                None => 0,
            }
        } else {
            0
        };
        let ms = match secs.checked_mul(1000) {
            Some(m) => m,
            None => {
                return None;
            },
        };
        Some(OHLCV {
            timestamp: ms,
            open: if n > 1 { Self::num(&row[1]) } else { Dec::zero() },
            high: if n > 2 { Self::num(&row[2]) } else { Dec::zero() },
            low: if n > 3 { Self::num(&row[3]) } else { Dec::zero() },
            close: if n > 4 { Self::num(&row[4]) } else { Dec::zero() },
            volume: if n > 5 { Self::num(&row[5]) } else { Dec::zero() },
        })
    }

    /// Candle events of a list of rows, one per row whose time fits, each
    /// under the key `ohlcv:`, the symbol, `:` and the slot.
    pub fn handle_ohlcv_records(pair: &str, tf: &str, items: &Vec<Json>) -> (r: Vec<(String, WsMessage)>)
        ensures
            r@.len() == lb_record_rows(items@).len(),
            forall|k: int| 0 <= k < r@.len() ==> {
                &&& (#[trigger] r@[k]).0@ == "ohlcv:"@ + spec_lb_parse_symbol(pair@) + ":"@ + tf@
                &&& r@[k].1 matches WsMessage::Ohlcv(e)
                &&& e.symbol@ == spec_lb_parse_symbol(pair@)
                &&& e.timeframe == spec_lb_parse_timeframe(tf@)
                &&& lb_record_rows(items@)[k] matches Json::Arr(row)
                &&& lb_record_ok(row@, e.ohlcv)
            },
    {
        let symbol = Self::parse_symbol_static(pair);
        let timeframe = Self::parse_timeframe(tf);
        let mut out: Vec<(String, WsMessage)> = Vec::new();
        let n = items.len();
        let mut i: usize = 0;
        while i < n
            invariant
                n == items@.len(),
                i <= n,
                symbol@ == spec_lb_parse_symbol(pair@),
                timeframe == spec_lb_parse_timeframe(tf@),
                out@.len() == lb_record_rows(items@.take(i as int)).len(),
                forall|k: int| 0 <= k < out@.len() ==> {
                    &&& (#[trigger] out@[k]).0@ == "ohlcv:"@ + spec_lb_parse_symbol(pair@) + ":"@ + tf@
                    &&& out@[k].1 matches WsMessage::Ohlcv(e)
                    &&& e.symbol@ == spec_lb_parse_symbol(pair@)
                    &&& e.timeframe == spec_lb_parse_timeframe(tf@)
                    &&& lb_record_rows(items@.take(i as int))[k] matches Json::Arr(row)
                    &&& lb_record_ok(row@, e.ohlcv)
                },
            decreases n - i,
        {
            let ghost pre = items@.take(i as int);
            proof {
                assert(items@.take(i + 1).drop_last() =~= pre);
                assert(items@.take(i + 1).last() == items@[i as int]);
                reveal_with_fuel(Seq::<_>::filter, 1);
            }
            let mut pushed = false;
            match &items[i] {
                Json::Arr(row) => {
                    match Self::record(row) {
                        Some(c) => {
                            let mut key = concat3("ohlcv:", symbol.as_str(), ":");
                            push_str(&mut key, tf);
                            let e = WsOhlcvEvent { symbol: copy_str(symbol.as_str()), timeframe, ohlcv: c };
                            out.push((key, WsMessage::Ohlcv(e)));
                            pushed = true;
                            proof {
                                assert(lb_record_rows(items@.take(i + 1)) == lb_record_rows(pre).push(items@[i as int]));
                            }
                        },
                        None => {},
                    }
                },
                _ => {},
            }
            if !pushed {
                proof {
                    assert(lb_record_rows(items@.take(i + 1)) == lb_record_rows(pre));
                }
            }
            i = i + 1;
        }
        proof {
            assert(items@.take(n as int) =~= items@);
        }
        out
    }

    /// Handles a public stream message: a ping is answered with its id;
    /// tickers, trades, book snapshots and candles become events for the
    /// subscriptions keyed by channel and symbol; a book snapshot also
    /// replaces the cached book of its market.
    pub fn handle_message(&mut self, data: &Json) -> (r: LbankAction)
        ensures
            lb_is_ping(*data) ==> match get_str_spec(*data, "ping"@) {
                Some(id) => r matches LbankAction::Pong(p) && p@ == id,
                None => r matches LbankAction::Deliver(v) && v@.len() == 0,
            },
            !lb_is_ping(*data) ==> (r matches LbankAction::Deliver(v) && lb_deliveries_ok(*data, v@)),
            lb_is_depth(*data) ==> lb_cache_ok(
                old(self).orderbook_cache@,
                final(self).orderbook_cache@,
                spec_lb_parse_symbol(str_or(*data, "pair"@, Seq::<char>::empty())),
                r,
            ),
            !lb_is_depth(*data) ==> final(self).orderbook_cache == old(self).orderbook_cache,
            final(self).api_key == old(self).api_key,
            final(self).api_secret == old(self).api_secret,
            final(self).request_id == old(self).request_id,
    {
        proof {
            reveal_strlit("");
            reveal_strlit("1min");
            reveal_strlit("tick");
            reveal_strlit("trade");
            reveal_strlit("depth");
            reveal_strlit("kbar");
            assert("trade"@[0] != "depth"@[0]);
        }
        let is_ping = match data.get("action") {
            Some(a) => match a.as_str() {
                Some(t) => str_eq(t, "ping"),
                None => false,
            },
            None => false,
        };
        if is_ping {
            return match data.get("ping") {
                Some(p) => match p.as_str() {
                    Some(id) => LbankAction::Pong(copy_str(id)),
                    None => LbankAction::Deliver(Vec::new()),
                },
                None => LbankAction::Deliver(Vec::new()),
            };
        }
        let ty = Self::get_str_or(data, "type", "");
        let pair = Self::get_str_or(data, "pair", "");
        let ty = ty.as_str();
        let pair = pair.as_str();
        assert(ty@ == str_or(*data, "type"@, Seq::<char>::empty()));
        assert(pair@ == str_or(*data, "pair"@, Seq::<char>::empty()));
        let mut out: Vec<(String, WsMessage)> = Vec::new();
        if str_eq(ty, "tick") {
            match data.get("tick") {
                Some(t) => {
                    let (key, e) = Self::handle_ticker(pair, t);
                    out.push((key, WsMessage::Ticker(e)));
                },
                None => {},
            }
        } else if str_eq(ty, "trade") {
            match data.get("trade") {
                Some(t) => {
                    let symbol = Self::parse_symbol_static(pair);
                    let key = concat2("trades:", symbol.as_str());
                    let trade = Self::parse_trade_object(symbol.as_str(), t);
                    let mut trades: Vec<Trade> = Vec::new();
                    trades.push(trade);
                    out.push((key, WsMessage::Trade(WsTradeEvent { symbol, trades })));
                },
                None => match data.get("trades") {
                    Some(Json::Arr(items)) => {
                        let symbol = Self::parse_symbol_static(pair);
                        let trades = Self::parse_trade_rows(symbol.as_str(), items);
                        if trades.len() > 0 {
                            let key = concat2("trades:", symbol.as_str());
                            out.push((key, WsMessage::Trade(WsTradeEvent { symbol, trades })));
                        }
                    },
                    _ => {},
                },
            }
        } else if str_eq(ty, "depth") {
            let (key, e) = self.handle_orderbook(pair, data);
            out.push((key, WsMessage::OrderBook(e)));
            let r = LbankAction::Deliver(out);
            assert(lb_cache_ok(old(self).orderbook_cache@, self.orderbook_cache@, spec_lb_parse_symbol(pair@), r));
            return r;
        } else if str_eq(ty, "kbar") {
            match data.get("kbar") {
                Some(k) => {
                    let tf = Self::get_str_or(k, "slot", "1min");
                    let (key, e) = Self::handle_ohlcv(pair, tf.as_str(), k);
                    out.push((key, WsMessage::Ohlcv(e)));
                },
                None => match data.get("records") {
                    Some(Json::Arr(items)) => {
                        let tf = Self::get_str_or(data, "kbar", "1min");
                        out = Self::handle_ohlcv_records(pair, tf.as_str(), items);
                    },
                    _ => {},
                },
            }
        }
        LbankAction::Deliver(out)
    }
}

/// A unified symbol of two ASCII currencies (neither holding `/` or `_`)
/// comes back, in upper case, from its pair name.
pub proof fn law_symbol_round_trip(base: Seq<char>, quote: Seq<char>)
    requires
        all_ascii(base),
        all_ascii(quote),
        !base.contains('/') && !base.contains('_'),
        !quote.contains('/') && !quote.contains('_'),
    ensures
        spec_lb_parse_symbol(spec_lb_format_symbol(base + "/"@ + quote)) == ascii_upper(base) + "/"@ + ascii_upper(quote),
{
    reveal_strlit("/");
    let s = base + "/"@ + quote;
    assert(s =~= base + seq!['/'] + quote);
    let t = base + seq!['_'] + quote;
    assert(replace_all(s, '/', '_') =~= t) by {
        assert forall|i: int| 0 <= i < s.len() implies #[trigger] replace_all(s, '/', '_')[i] == t[i] by {
            if i < base.len() {
                assert(s[i] == base[i]);
                assert(base[i] != '/') by {
                    if base[i] == '/' {
                        assert(base.contains('/'));
                    }
                }
            } else if i > base.len() {
                assert(s[i] == quote[i - base.len() - 1]);
                assert(quote[i - base.len() - 1] != '/') by {
                    if quote[i - base.len() - 1] == '/' {
                        assert(quote.contains('/'));
                    }
                }
            }
        }
    }
    lemma_ascii_case_join(base, seq!['_']);
    lemma_ascii_case_join(base + seq!['_'], quote);
    assert(all_ascii(seq!['_']));
    assert(ascii_lower(seq!['_']) =~= seq!['_']);
    let lb = ascii_lower(base);
    let lq = ascii_lower(quote);
    assert(ascii_lower(t) == lb + seq!['_'] + lq);
    assert(!lb.contains('_')) by {
        if lb.contains('_') {
            let i = choose|i: int| 0 <= i < lb.len() && lb[i] == '_';
            assert(base[i] != '_') by {
                if base[i] == '_' {
                    assert(base.contains('_'));
                }
            }
        }
    }
    assert(!lq.contains('_')) by {
        if lq.contains('_') {
            let i = choose|i: int| 0 <= i < lq.len() && lq[i] == '_';
            assert(quote[i] != '_') by {
                if quote[i] == '_' {
                    assert(quote.contains('_'));
                }
            }
        }
    }
    lemma_split_first(lb, lq, '_');
    lemma_split_absent(lq, '_');
    assert(split_spec(lb + seq!['_'] + lq, '_') =~= seq![lb, lq]);
    lemma_ascii_case(base);
    lemma_ascii_case(quote);
}

} // verus!
