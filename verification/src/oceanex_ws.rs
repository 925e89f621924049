//! OceanEx streaming: market ids, and what the stream's ticker, book and
//! trade messages deliver.

use crate::book::{parse_text_levels, text_levels};
use crate::common::{keyed_insert, opt_view, pair_lookup};
use crate::dec::{dec_mul, opt_parts, spec_dec_mul, spec_dec_parse, Dec};
use crate::json::{
    get_str_spec, opt_dec_is, opt_int_is, opt_text_is, spec_get, spec_opt_dec_field,
    spec_opt_i64_field, spec_opt_str_field, spec_parse_json, spec_str_array_array, texts2, Json,
};
use crate::text::{
    concat2, concat3, copy_str, ends_with, int_to_string, remove_all, remove_char,
    lemma_ascii_case, lemma_ascii_case_join, lemma_remove_separator, lower_text, upper_text, ascii_upper,
    all_ascii, spec_int_to_string, split_char, split_spec, starts_with,
    str_eq, strip_suffix, to_lowercase, to_uppercase,
};
use crate::time::{iso8601_or_empty, iso8601_or_empty_spec};
use crate::types::{CcxtError, OrderBook, OrderBookEntry, Ticker, Trade};
use crate::ws::{WsMessage, WsOrderBookEvent, WsTickerEvent, WsTradeEvent};
use vstd::prelude::*;

verus! {

/// Stream address.
pub const OCEANEX_WS_URL: &'static str = "wss://ws.oceanex.pro/ws/v1/hs";

/// The OceanEx stream client: whether it holds an open stream client, and
/// the markets subscribed to, by `channel:market` key.
pub struct OceanexWs {
    pub client_open: bool,
    pub subscriptions: Vec<(String, String)>,
}

/// Prices of a ticker message.
#[derive(Debug)]
pub struct OceanexWsTickerInfo {
    pub buy: Option<Dec>,
    pub sell: Option<Dec>,
    pub low: Option<Dec>,
    pub high: Option<Dec>,
    pub last: Option<Dec>,
    pub open: Option<Dec>,
    pub volume: Option<Dec>,
}

/// A ticker message: its time in seconds and its prices.
#[derive(Debug)]
pub struct OceanexWsTicker {
    pub at: Option<i64>,
    pub ticker: Option<OceanexWsTickerInfo>,
}

/// A book message: its time in seconds and its levels as texts.
#[derive(Debug)]
pub struct OceanexWsOrderBook {
    pub timestamp: Option<i64>,
    pub bids: Vec<Vec<String>>,
    pub asks: Vec<Vec<String>>,
}

/// A trade of a trade message; `created_on` in seconds.
#[derive(Debug)]
pub struct OceanexWsTrade {
    pub id: Option<i64>,
    pub created_on: Option<i64>,
    pub price: Option<Dec>,
    pub volume: Option<Dec>,
    pub side: Option<String>,
}

/// The market id of a unified symbol: without its `/`, in lower case.
pub open spec fn spec_oc_format_symbol(s: Seq<char>) -> Seq<char> {
    lower_text(remove_all(s, '/'))
}

/// The unified symbol of an upper-case market id: the base, `/` and the
/// quote, for an id ending in `USDT`, `BTC`, `ETH` or `VET` (tried in that
/// order); the id itself otherwise.
pub open spec fn oc_split_quote(s: Seq<char>) -> Seq<char> {
    if ends_with(s, "USDT"@) {
        s.subrange(0, s.len() - 4) + "/USDT"@
    } else if ends_with(s, "BTC"@) {
        s.subrange(0, s.len() - 3) + "/BTC"@
    } else if ends_with(s, "ETH"@) {
        s.subrange(0, s.len() - 3) + "/ETH"@
    } else if ends_with(s, "VET"@) {
        s.subrange(0, s.len() - 3) + "/VET"@
    } else {
        s
    }
}

/// The unified symbol of a market id: the id in upper case, split at its
/// quote (see [`oc_split_quote`]).
pub open spec fn spec_oc_unified(m: Seq<char>) -> Seq<char> {
    oc_split_quote(upper_text(m))
}

/// An instant in seconds as milliseconds, when that fits in 64 bits.
pub open spec fn secs_fit(t: i64) -> bool {
    i64::MIN <= t * 1000 <= i64::MAX
}

/// The time of a message: its seconds as milliseconds, or `now` when it has
/// none.
pub open spec fn oc_time(t: Option<i64>, now: i64) -> int {
    match t {
        Some(s) => s * 1000,
        None => now as int,
    }
}

/// A ticker from a ticker message (the close is the last price).
pub open spec fn oc_ticker_ok(d: OceanexWsTicker, symbol: Seq<char>, now: i64, t: Ticker) -> bool {
    let ts = oc_time(d.at, now);
    &&& t.symbol@ == symbol
    &&& t.timestamp matches Some(x) && x as int == ts
    &&& opt_view(t.datetime) == Some(iso8601_or_empty_spec(ts))
    &&& match d.ticker {
        Some(i) => {
            &&& t.high == i.high && t.low == i.low && t.bid == i.buy && t.ask == i.sell
            &&& t.open == i.open && t.close == i.last && t.last == i.last && t.base_volume == i.volume
        },
        None => {
            &&& t.high is None && t.low is None && t.bid is None && t.ask is None
            &&& t.open is None && t.close is None && t.last is None && t.base_volume is None
        },
    }
    &&& t.bid_volume is None && t.ask_volume is None && t.vwap is None && t.previous_close is None
    &&& t.change is None && t.percentage is None && t.average is None && t.quote_volume is None
    &&& t.index_price is None && t.mark_price is None
}

/// Levels read from text rows: the rows of two readable numbers, in order.
pub open spec fn oc_side_ok(rows: Seq<Vec<String>>, es: Seq<OrderBookEntry>) -> bool {
    &&& es.len() == text_levels(rows).len()
    &&& forall|k: int| 0 <= k < es.len() ==> Some((#[trigger] es[k]).price.parts()) == spec_dec_parse(text_levels(rows)[k]@[0]@)
        && Some(es[k].amount.parts()) == spec_dec_parse(text_levels(rows)[k]@[1]@)
}

/// A book from a book message (levels as listed, not sorted).
pub open spec fn oc_book_ok(d: OceanexWsOrderBook, symbol: Seq<char>, now: i64, b: OrderBook) -> bool {
    let ts = oc_time(d.timestamp, now);
    &&& b.symbol@ == symbol
    &&& b.timestamp matches Some(x) && x as int == ts
    &&& opt_view(b.datetime) == Some(iso8601_or_empty_spec(ts))
    &&& b.nonce is None
    &&& oc_side_ok(d.bids@, b.bids@)
    &&& oc_side_ok(d.asks@, b.asks@)
}

/// A decimal, or zero when there is none.
pub open spec fn oc_or_zero(o: Option<Dec>) -> Dec {
    match o {
        Some(d) => d,
        None => Dec { mantissa: 0, scale: 0 },
    }
}

/// A trade message's trade can be built: its time fits in milliseconds,
/// its numbers are representable, and their product does not overflow.
pub open spec fn oc_trade_fits(d: OceanexWsTrade) -> bool {
    &&& d.created_on matches Some(t) ==> secs_fit(t)
    &&& oc_or_zero(d.price).wf()
    &&& oc_or_zero(d.volume).wf()
    &&& spec_dec_mul(oc_or_zero(d.price).parts(), oc_or_zero(d.volume).parts()) is Some
}

/// The side of a trade: `bid` is a buy, `ask` a sell, anything else none.
pub open spec fn oc_side(s: Option<String>) -> Option<Seq<char>> {
    match s {
        Some(x) => if x@ == "bid"@ {
            Some("buy"@)
        } else if x@ == "ask"@ {
            Some("sell"@)
        } else {
            None
        },
        None => None,
    }
}

/// A trade from a trade message: price and volume zero when absent, cost
/// their product.
pub open spec fn oc_trade_ok(d: OceanexWsTrade, symbol: Seq<char>, now: i64, t: Trade) -> bool {
    let ts = oc_time(d.created_on, now);
    let price = oc_or_zero(d.price);
    let amount = oc_or_zero(d.volume);
    &&& t.id@ == match d.id {
        Some(n) => spec_int_to_string(n as int),
        None => Seq::<char>::empty(),
    }
    &&& t.order is None
    &&& t.timestamp matches Some(x) && x as int == ts
    &&& opt_view(t.datetime) == Some(iso8601_or_empty_spec(ts))
    &&& t.symbol@ == symbol
    &&& t.trade_type is None
    &&& opt_view(t.side) == oc_side(d.side)
    &&& t.taker_or_maker is None
    &&& t.price == price
    &&& t.amount == amount
    &&& opt_parts(t.cost) == spec_dec_mul(price.parts(), amount.parts())
    &&& t.cost is Some
    &&& t.fee is None
}

impl OceanexWs {
    /// A client without a stream or subscriptions.
    pub fn new() -> (r: OceanexWs)
        ensures
            !r.client_open,
            r.subscriptions@.len() == 0,
    {
        OceanexWs { client_open: false, subscriptions: Vec::new() }
    }

    /// A client without a stream or subscriptions.
    pub fn default() -> (r: OceanexWs)
        ensures
            !r.client_open,
            r.subscriptions@.len() == 0,
    {
        Self::new()
    }

    /// A copy, which holds neither the stream nor the subscriptions.
    pub fn clone(&self) -> (r: OceanexWs)
        ensures
            !r.client_open,
            r.subscriptions@.len() == 0,
    {
        Self::new()
    }

    /// The market id of a unified symbol (`BTC/USDT` gives `btcusdt`).
    pub fn format_symbol(symbol: &str) -> (r: String)
        ensures
            r@ == spec_oc_format_symbol(symbol@),
    {
        let s = remove_char(symbol, '/');
        to_lowercase(s.as_str())
    }

    /// The unified symbol of a market id (see [`spec_oc_unified`]).
    pub fn to_unified_symbol(market_id: &str) -> (r: String)
        ensures
            r@ == spec_oc_unified(market_id@),
    {
        let s = to_uppercase(market_id);
        proof {
            reveal_strlit("USDT");
            reveal_strlit("BTC");
            reveal_strlit("ETH");
            reveal_strlit("VET");
        }
        if let Some(base) = strip_suffix(s.as_str(), "USDT") {
            concat2(base.as_str(), "/USDT")
        } else if let Some(base) = strip_suffix(s.as_str(), "BTC") {
            concat2(base.as_str(), "/BTC")
        } else if let Some(base) = strip_suffix(s.as_str(), "ETH") {
            concat2(base.as_str(), "/ETH")
        } else if let Some(base) = strip_suffix(s.as_str(), "VET") {
            concat2(base.as_str(), "/VET")
        } else {
            s
        }
    }

    /// The stream channel of a market: the channel, `.` and the market id.
    pub fn channel_name(channel: &str, market_id: &str) -> (r: String)
        ensures
            r@ == channel@ + "."@ + market_id@,
    {
        concat3(channel, ".", market_id)
    }

    /// Records a subscription under `channel:market`, naming the market.
    pub fn record_subscription(&mut self, channel: &str, market_id: &str)
        ensures
            final(self).client_open == old(self).client_open,
            pair_lookup(final(self).subscriptions@, channel@ + ":"@ + market_id@) matches Some(m) && m@ == market_id@,
            forall|k: Seq<char>| k != channel@ + ":"@ + market_id@ ==> pair_lookup(final(self).subscriptions@, k)
                == pair_lookup(old(self).subscriptions@, k),
    {
        keyed_insert(&mut self.subscriptions, concat3(channel, ":", market_id), copy_str(market_id));
    }

    /// Forgets every subscription (the stream ended).
    pub fn clear_subscriptions(&mut self)
        ensures
            final(self).client_open == old(self).client_open,
            final(self).subscriptions@.len() == 0,
    {
        self.subscriptions = Vec::new();
    }

    /// A ticker from a ticker message (see [`oc_ticker_ok`]); its seconds
    /// fit in milliseconds.
    pub fn parse_ticker(data: &OceanexWsTicker, symbol: &str, now: i64) -> (r: Ticker)
        requires
            data.at matches Some(t) ==> secs_fit(t),
        ensures
            oc_ticker_ok(*data, symbol@, now, r),
    {
        let timestamp: i64 = match data.at {
            Some(t) => t * 1000,
            None => now,
        };
        let (high, low, bid, ask, open, last, volume) = match &data.ticker {
            Some(i) => (i.high, i.low, i.buy, i.sell, i.open, i.last, i.volume),
            None => (None, None, None, None, None, None, None),
        };
        Ticker {
            symbol: copy_str(symbol),
            timestamp: Some(timestamp),
            datetime: Some(iso8601_or_empty(timestamp)),
            high,
            low,
            bid,
            bid_volume: None,
            ask,
            ask_volume: None,
            vwap: None,
            open,
            close: last,
            last,
            previous_close: None,
            change: None,
            percentage: None,
            average: None,
            base_volume: volume,
            quote_volume: None,
            index_price: None,
            mark_price: None,
        }
    }

    /// A book from a book message (see [`oc_book_ok`]); its seconds fit in
    /// milliseconds.
    pub fn parse_order_book(data: &OceanexWsOrderBook, symbol: &str, now: i64) -> (r: OrderBook)
        requires
            data.timestamp matches Some(t) ==> secs_fit(t),
        ensures
            oc_book_ok(*data, symbol@, now, r),
    {
        let timestamp: i64 = match data.timestamp {
            Some(t) => t * 1000,
            None => now,
        };
        OrderBook {
            symbol: copy_str(symbol),
            timestamp: Some(timestamp),
            datetime: Some(iso8601_or_empty(timestamp)),
            nonce: None,
            bids: parse_text_levels(&data.bids),
            asks: parse_text_levels(&data.asks),
        }
    }

    /// A trade from a trade message (see [`oc_trade_ok`]); it can be built
    /// (see [`oc_trade_fits`]).
    pub fn parse_trade(data: &OceanexWsTrade, symbol: &str, now: i64) -> (r: Trade)
        requires
            oc_trade_fits(*data),
        ensures
            oc_trade_ok(*data, symbol@, now, r),
    {
        let timestamp: i64 = match data.created_on {
            Some(t) => t * 1000,
            None => now,
        };
        let price = match data.price {
            Some(p) => p,
            None => Dec::zero(),
        };
        let amount = match data.volume {
            Some(v) => v,
            None => Dec::zero(),
        };
        proof {
            reveal_strlit("bid");
            reveal_strlit("ask");
        }
        let side = match &data.side {
            Some(s) => if str_eq(s.as_str(), "bid") {
                Some(copy_str("buy"))
            } else if str_eq(s.as_str(), "ask") {
                Some(copy_str("sell"))
            } else {
                None
            },
            None => None,
        };
        let id = match data.id {
            Some(n) => int_to_string(n as i128),
            None => String::new(),
        };
        Trade {
            id,
            order: None,
            timestamp: Some(timestamp),
            datetime: Some(iso8601_or_empty(timestamp)),
            symbol: copy_str(symbol),
            trade_type: None,
            side,
            taker_or_maker: None,
            price,
            amount,
            cost: dec_mul(price, amount),
            fee: None,
        }
    }
}

/// OceanexWsTickerInfo as a derived deserializer reads it from an object.
pub open spec fn oc_info_read(j: Json, d: OceanexWsTickerInfo) -> bool {
    &&& j is Obj
    &&& opt_dec_is(spec_opt_dec_field(j, "buy"@), d.buy)
    &&& opt_dec_is(spec_opt_dec_field(j, "sell"@), d.sell)
    &&& opt_dec_is(spec_opt_dec_field(j, "low"@), d.low)
    &&& opt_dec_is(spec_opt_dec_field(j, "high"@), d.high)
    &&& opt_dec_is(spec_opt_dec_field(j, "last"@), d.last)
    &&& opt_dec_is(spec_opt_dec_field(j, "open"@), d.open)
    &&& opt_dec_is(spec_opt_dec_field(j, "volume"@), d.volume)
}

/// Whether OceanexWsTickerInfo reads from a value.
pub open spec fn oc_info_reads(j: Json) -> bool {
    &&& j is Obj
    &&& spec_opt_dec_field(j, "buy"@) is Ok
    &&& spec_opt_dec_field(j, "sell"@) is Ok
    &&& spec_opt_dec_field(j, "low"@) is Ok
    &&& spec_opt_dec_field(j, "high"@) is Ok
    &&& spec_opt_dec_field(j, "last"@) is Ok
    &&& spec_opt_dec_field(j, "open"@) is Ok
    &&& spec_opt_dec_field(j, "volume"@) is Ok
}

/// OceanexWsTicker as a derived deserializer reads it from an object.
pub open spec fn oc_ticker_read(j: Json, d: OceanexWsTicker) -> bool {
    &&& j is Obj
    &&& opt_int_is(spec_opt_i64_field(j, "at"@), d.at)
    &&& match spec_get(j, "ticker"@) {
        None => d.ticker is None,
        Some(Json::Null) => d.ticker is None,
        Some(x) => d.ticker matches Some(i) && oc_info_read(x, i),
    }
}

/// Whether OceanexWsTicker reads from a value.
pub open spec fn oc_ticker_reads(j: Json) -> bool {
    &&& j is Obj
    &&& spec_opt_i64_field(j, "at"@) is Ok
    &&& match spec_get(j, "ticker"@) {
        None => true,
        Some(Json::Null) => true,
        Some(x) => oc_info_reads(x),
    }
}

/// A list of text rows (absent: none).
pub open spec fn oc_rows_read(j: Json, k: Seq<char>, v: Seq<Vec<String>>) -> bool {
    match spec_get(j, k) {
        None => v.len() == 0,
        Some(x) => spec_str_array_array(x) == Ok::<Seq<Seq<Seq<char>>>, ()>(texts2(v)),
    }
}

/// Whether a list of text rows reads.
pub open spec fn oc_rows_reads(j: Json, k: Seq<char>) -> bool {
    match spec_get(j, k) {
        None => true,
        Some(x) => spec_str_array_array(x) is Ok,
    }
}

/// OceanexWsOrderBook as a derived deserializer reads it from an object.
pub open spec fn oc_book_read(j: Json, d: OceanexWsOrderBook) -> bool {
    &&& j is Obj
    &&& opt_int_is(spec_opt_i64_field(j, "timestamp"@), d.timestamp)
    &&& oc_rows_read(j, "bids"@, d.bids@)
    &&& oc_rows_read(j, "asks"@, d.asks@)
}

/// Whether OceanexWsOrderBook reads from a value.
pub open spec fn oc_book_reads(j: Json) -> bool {
    &&& j is Obj
    &&& spec_opt_i64_field(j, "timestamp"@) is Ok
    &&& oc_rows_reads(j, "bids"@)
    &&& oc_rows_reads(j, "asks"@)
}

/// OceanexWsTrade as a derived deserializer reads it from an object.
pub open spec fn oc_trade_read(j: Json, d: OceanexWsTrade) -> bool {
    &&& j is Obj
    &&& opt_int_is(spec_opt_i64_field(j, "id"@), d.id)
    &&& opt_int_is(spec_opt_i64_field(j, "created_on"@), d.created_on)
    &&& opt_dec_is(spec_opt_dec_field(j, "price"@), d.price)
    &&& opt_dec_is(spec_opt_dec_field(j, "volume"@), d.volume)
    &&& opt_text_is(spec_opt_str_field(j, "side"@), d.side)
}

/// Whether OceanexWsTrade reads from a value.
pub open spec fn oc_trade_reads(j: Json) -> bool {
    &&& j is Obj
    &&& spec_opt_i64_field(j, "id"@) is Ok
    &&& spec_opt_i64_field(j, "created_on"@) is Ok
    &&& spec_opt_dec_field(j, "price"@) is Ok
    &&& spec_opt_dec_field(j, "volume"@) is Ok
    &&& spec_opt_str_field(j, "side"@) is Ok
}

/// A list of trades, read item by item.
pub open spec fn oc_trades_read(j: Json, v: Seq<OceanexWsTrade>) -> bool {
    j matches Json::Arr(items) && v.len() == items@.len() && forall|k: int| 0 <= k < v.len() ==> #[trigger] oc_trade_read(items@[k], v[k])
}

/// Whether a list of trades reads.
pub open spec fn oc_trades_reads(j: Json) -> bool {
    j matches Json::Arr(items) && forall|k: int| 0 <= k < items@.len() ==> #[trigger] oc_trade_reads(items@[k])
}

impl OceanexWs {
    /// Reads OceanexWsTickerInfo from a value.
    pub fn read_ticker_info(j: &Json) -> (r: Result<OceanexWsTickerInfo, ()>)
        ensures
            r is Ok <==> oc_info_reads(*j),
            r matches Ok(d) ==> oc_info_read(*j, d),
    {
        match j {
            Json::Obj(_) => {},
            _ => {
                return Err(());
            },
        }
        let buy = match j.opt_dec_field("buy") { Ok(v) => v, Err(_) => { return Err(()); } };
        let sell = match j.opt_dec_field("sell") { Ok(v) => v, Err(_) => { return Err(()); } };
        let low = match j.opt_dec_field("low") { Ok(v) => v, Err(_) => { return Err(()); } };
        let high = match j.opt_dec_field("high") { Ok(v) => v, Err(_) => { return Err(()); } };
        let last = match j.opt_dec_field("last") { Ok(v) => v, Err(_) => { return Err(()); } };
        let open = match j.opt_dec_field("open") { Ok(v) => v, Err(_) => { return Err(()); } };
        let volume = match j.opt_dec_field("volume") { Ok(v) => v, Err(_) => { return Err(()); } };
        Ok(OceanexWsTickerInfo { buy, sell, low, high, last, open, volume })
    }

    /// Reads OceanexWsTicker from a value.
    pub fn read_ticker(j: &Json) -> (r: Result<OceanexWsTicker, ()>)
        ensures
            r is Ok <==> oc_ticker_reads(*j),
            r matches Ok(d) ==> oc_ticker_read(*j, d),
    {
        match j {
            Json::Obj(_) => {},
            _ => {
                return Err(());
            },
        }
        let at = match j.opt_i64_field("at") { Ok(v) => v, Err(_) => { return Err(()); } };
        let ticker = match j.get("ticker") {
            None => None,
            Some(Json::Null) => None,
            Some(x) => match Self::read_ticker_info(x) {
                Ok(i) => Some(i),
                Err(_) => {
                    return Err(());
                },
            },
        };
        Ok(OceanexWsTicker { at, ticker })
    }

    /// Reads a list of text rows (absent: none).
    fn read_rows(j: &Json, k: &str) -> (r: Result<Vec<Vec<String>>, ()>)
        ensures
            r is Ok <==> oc_rows_reads(*j, k@),
            r matches Ok(v) ==> oc_rows_read(*j, k@, v@),
    {
        match j.get(k) {
            None => Ok(Vec::new()),
            Some(x) => x.str_array_array(),
        }
    }

    /// Reads OceanexWsOrderBook from a value.
    pub fn read_order_book(j: &Json) -> (r: Result<OceanexWsOrderBook, ()>)
        ensures
            r is Ok <==> oc_book_reads(*j),
            r matches Ok(d) ==> oc_book_read(*j, d),
    {
        match j {
            Json::Obj(_) => {},
            _ => {
                return Err(());
            },
        }
        let timestamp = match j.opt_i64_field("timestamp") { Ok(v) => v, Err(_) => { return Err(()); } };
        let bids = match Self::read_rows(j, "bids") { Ok(v) => v, Err(_) => { return Err(()); } };
        let asks = match Self::read_rows(j, "asks") { Ok(v) => v, Err(_) => { return Err(()); } };
        Ok(OceanexWsOrderBook { timestamp, bids, asks })
    }

    /// Reads OceanexWsTrade from a value.
    pub fn read_trade(j: &Json) -> (r: Result<OceanexWsTrade, ()>)
        ensures
            r is Ok <==> oc_trade_reads(*j),
            r matches Ok(d) ==> oc_trade_read(*j, d),
    {
        match j {
            Json::Obj(_) => {},
            _ => {
                return Err(());
            },
        }
        let id = match j.opt_i64_field("id") { Ok(v) => v, Err(_) => { return Err(()); } };
        let created_on = match j.opt_i64_field("created_on") { Ok(v) => v, Err(_) => { return Err(()); } };
        let price = match j.opt_dec_field("price") { Ok(v) => v, Err(_) => { return Err(()); } };
        let volume = match j.opt_dec_field("volume") { Ok(v) => v, Err(_) => { return Err(()); } };
        let side = match j.opt_str_field("side") { Ok(v) => v, Err(_) => { return Err(()); } };
        Ok(OceanexWsTrade { id, created_on, price, volume, side })
    }

    /// Reads a list of trades.
    pub fn read_trades(j: &Json) -> (r: Result<Vec<OceanexWsTrade>, ()>)
        ensures
            r is Ok <==> oc_trades_reads(*j),
            r matches Ok(v) ==> oc_trades_read(*j, v@),
    {
        let items = match j {
            Json::Arr(items) => items,
            _ => {
                return Err(());
            },
        };
        let mut out: Vec<OceanexWsTrade> = Vec::new();
        let n = items.len();
        let mut i: usize = 0;
        while i < n
            invariant
                n == items@.len(),
                i <= n,
                out@.len() == i,
                *j == Json::Arr(*items),
                forall|k: int| 0 <= k < i ==> #[trigger] oc_trade_read(items@[k], out@[k]),
                forall|k: int| 0 <= k < i ==> #[trigger] oc_trade_reads(items@[k]),
            decreases n - i,
        {
            match Self::read_trade(&items[i]) {
                Ok(t) => {
                    out.push(t);
                },
                Err(_) => {
                    assert(!oc_trade_reads(items@[i as int]));
                    assert(!(forall|k: int| 0 <= k < items@.len() ==> #[trigger] oc_trade_reads(items@[k])));
                    assert(*j matches Json::Arr(v) && v@ == items@);
                    return Err(());
                },
            }
            i = i + 1;
        }
        Ok(out)
    }
}

/// A message time that fits in milliseconds, or none.
pub open spec fn oc_fits(t: Option<i64>) -> bool {
    t matches Some(s) ==> secs_fit(s)
}

/// What a ticker message delivers: the ticker, when the data reads and its
/// time fits.
pub open spec fn oc_ticker_msg(d: Json, sym: Seq<char>, now: i64, o: Option<WsMessage>) -> bool {
    if oc_ticker_reads(d) {
        exists|td: OceanexWsTicker| #[trigger] oc_ticker_read(d, td) && if oc_fits(td.at) {
            o matches Some(WsMessage::Ticker(e)) && e.symbol@ == sym && oc_ticker_ok(td, sym, now, e.ticker)
        } else {
            o is None
        }
    } else {
        o is None
    }
}

/// What a book message delivers: the book, as a snapshot, when the data
/// reads and its time fits.
pub open spec fn oc_book_msg(d: Json, sym: Seq<char>, now: i64, o: Option<WsMessage>) -> bool {
    if oc_book_reads(d) {
        exists|bd: OceanexWsOrderBook| #[trigger] oc_book_read(d, bd) && if oc_fits(bd.timestamp) {
            o matches Some(WsMessage::OrderBook(e)) && e.symbol@ == sym && e.is_snapshot && oc_book_ok(bd, sym, now, e.order_book)
        } else {
            o is None
        }
    } else {
        o is None
    }
}

/// What a trade message delivers: the trades of a list that reads; when
/// `single`, else the one trade the data reads as; nothing when a trade
/// cannot be built.
pub open spec fn oc_trades_msg(d: Json, sym: Seq<char>, now: i64, o: Option<WsMessage>, single: bool) -> bool {
    if oc_trades_reads(d) {
        exists|ts: Seq<OceanexWsTrade>| #[trigger] oc_trades_read(d, ts) && if forall|k: int| 0 <= k < ts.len() ==> #[trigger] oc_trade_fits(ts[k]) {
            &&& o matches Some(WsMessage::Trade(e))
            &&& e.symbol@ == sym
            &&& e.trades@.len() == ts.len()
            &&& forall|k: int| 0 <= k < ts.len() ==> oc_trade_ok(ts[k], sym, now, #[trigger] e.trades@[k])
        } else {
            o is None
        }
    } else if single && oc_trade_reads(d) {
        exists|td: OceanexWsTrade| #[trigger] oc_trade_read(d, td) && if oc_trade_fits(td) {
            &&& o matches Some(WsMessage::Trade(e))
            &&& e.symbol@ == sym
            &&& e.trades@.len() == 1
            &&& oc_trade_ok(td, sym, now, e.trades@[0])
        } else {
            o is None
        }
    } else {
        o is None
    }
}

/// The market a data object names (empty when none).
pub open spec fn oc_market(d: Json) -> Seq<char> {
    match get_str_spec(d, "market"@) {
        Some(m) => m,
        None => Seq::<char>::empty(),
    }
}

/// What the `event` form of a message delivers: by the event, a ticker, a
/// book (`orderbook` or `depth`) or trades (`trades` or `trade`) of the
/// market that the data names.
pub open spec fn oc_event_ok(j: Json, now: i64, o: Option<WsMessage>) -> bool {
    match (get_str_spec(j, "event"@), spec_get(j, "data"@)) {
        (Some(ev), Some(d)) => {
            let sym = spec_oc_unified(oc_market(d));
            if ev == "ticker"@ {
                oc_ticker_msg(d, sym, now, o)
            } else if ev == "orderbook"@ || ev == "depth"@ {
                oc_book_msg(d, sym, now, o)
            } else if ev == "trades"@ || ev == "trade"@ {
                oc_trades_msg(d, sym, now, o, true)
            } else {
                o is None
            }
        },
        _ => o is None,
    }
}

/// Whether a text begins with a prefix.
pub open spec fn oc_starts(s: Seq<char>, p: Seq<char>) -> bool {
    p.len() <= s.len() && s.subrange(0, p.len() as int) == p
}

/// The market of a channel name: the piece after its first `.` (empty when
/// there is none).
pub open spec fn oc_channel_market(ch: Seq<char>) -> Seq<char> {
    let parts = split_spec(ch, '.');
    if parts.len() > 1 {
        parts[1]
    } else {
        Seq::<char>::empty()
    }
}

/// What the `channel` form of a message delivers: by the channel's prefix,
/// a ticker, a book (`orderbook` or `depth`) or a list of trades (`trades`
/// or `trade`) of the channel's market.
pub open spec fn oc_channel_ok(j: Json, now: i64, o: Option<WsMessage>) -> bool {
    match (get_str_spec(j, "channel"@), spec_get(j, "data"@)) {
        (Some(ch), Some(d)) => {
            let sym = spec_oc_unified(oc_channel_market(ch));
            if oc_starts(ch, "ticker"@) {
                oc_ticker_msg(d, sym, now, o)
            } else if oc_starts(ch, "orderbook"@) || oc_starts(ch, "depth"@) {
                oc_book_msg(d, sym, now, o)
            } else if oc_starts(ch, "trades"@) || oc_starts(ch, "trade"@) {
                oc_trades_msg(d, sym, now, o, false)
            } else {
                o is None
            }
        },
        _ => o is None,
    }
}

/// The messages an optional message stands for.
pub open spec fn opt_seq(o: Option<WsMessage>) -> Seq<WsMessage> {
    match o {
        Some(m) => seq![m],
        None => Seq::<WsMessage>::empty(),
    }
}

/// What a message delivers: what its `event` form delivers, then what its
/// `channel` form delivers.
pub open spec fn oc_message_ok(j: Json, now: i64, v: Seq<WsMessage>) -> bool {
    exists|a: Option<WsMessage>, b: Option<WsMessage>| #[trigger] oc_event_ok(j, now, a) && #[trigger] oc_channel_ok(j, now, b)
        && v == opt_seq(a) + opt_seq(b)
}

impl OceanexWs {
    /// Whether a message time fits in milliseconds.
    fn fits(t: Option<i64>) -> (r: bool)
        ensures
            r == oc_fits(t),
    {
        match t {
            Some(s) => s.checked_mul(1000).is_some(),
            None => true,
        }
    }

    /// Whether a trade can be built (see [`oc_trade_fits`]).
    fn trade_fits(d: &OceanexWsTrade) -> (r: bool)
        ensures
            r == oc_trade_fits(*d),
    {
        if !Self::fits(d.created_on) {
            return false;
        }
        let price = match d.price {
            Some(p) => p,
            None => Dec::zero(),
        };
        let amount = match d.volume {
            Some(v) => v,
            None => Dec::zero(),
        };
        if !price.is_wf() || !amount.is_wf() {
            return false;
        }
        dec_mul(price, amount).is_some()
    }

    /// What a ticker message delivers (see [`oc_ticker_msg`]).
    fn ticker_message(d: &Json, sym: &str, now: i64) -> (r: Option<WsMessage>)
        ensures
            oc_ticker_msg(*d, sym@, now, r),
    {
        match Self::read_ticker(d) {
            Ok(td) => {
                if Self::fits(td.at) {
                    let ticker = Self::parse_ticker(&td, sym, now);
                    Some(WsMessage::Ticker(WsTickerEvent { symbol: copy_str(sym), ticker }))
                } else {
                    None
                }
            },
            Err(_) => None,
        }
    }

    /// What a book message delivers (see [`oc_book_msg`]).
    fn book_message(d: &Json, sym: &str, now: i64) -> (r: Option<WsMessage>)
        ensures
            oc_book_msg(*d, sym@, now, r),
    {
        match Self::read_order_book(d) {
            Ok(bd) => {
                if Self::fits(bd.timestamp) {
                    let order_book = Self::parse_order_book(&bd, sym, now);
                    Some(WsMessage::OrderBook(WsOrderBookEvent { symbol: copy_str(sym), order_book, is_snapshot: true }))
                } else {
                    None
                }
            },
            Err(_) => None,
        }
    }

    /// Trades of read trade data, when each can be built.
    fn build_trades(ts: &Vec<OceanexWsTrade>, sym: &str, now: i64) -> (r: Option<Vec<Trade>>)
        ensures
            r is Some <==> forall|k: int| 0 <= k < ts@.len() ==> #[trigger] oc_trade_fits(ts@[k]),
            r matches Some(v) ==> v@.len() == ts@.len() && forall|k: int| 0 <= k < ts@.len() ==> oc_trade_ok(ts@[k], sym@, now, #[trigger] v@[k]),
    {
        let mut out: Vec<Trade> = Vec::new();
        let n = ts.len();
        let mut i: usize = 0;
        while i < n
            invariant
                n == ts@.len(),
                i <= n,
                out@.len() == i,
                forall|k: int| 0 <= k < i ==> #[trigger] oc_trade_fits(ts@[k]),
                forall|k: int| 0 <= k < i ==> oc_trade_ok(ts@[k], sym@, now, #[trigger] out@[k]),
            decreases n - i,
        {
            if !Self::trade_fits(&ts[i]) {
                return None;
            }
            out.push(Self::parse_trade(&ts[i], sym, now));
            i = i + 1;
        }
        Some(out)
    }

    /// What a trade message delivers (see [`oc_trades_msg`]).
    fn trades_message(d: &Json, sym: &str, now: i64, single: bool) -> (r: Option<WsMessage>)
        ensures
            oc_trades_msg(*d, sym@, now, r, single),
    {
        match Self::read_trades(d) {
            Ok(ts) => match Self::build_trades(&ts, sym, now) {
                Some(trades) => Some(WsMessage::Trade(WsTradeEvent { symbol: copy_str(sym), trades })),
                None => None,
            },
            Err(_) => {
                if !single {
                    return None;
                }
                match Self::read_trade(d) {
                    Ok(td) => {
                        if Self::trade_fits(&td) {
                            let t = Self::parse_trade(&td, sym, now);
                            let mut trades: Vec<Trade> = Vec::new();
                            trades.push(t);
                            Some(WsMessage::Trade(WsTradeEvent { symbol: copy_str(sym), trades }))
                        } else {
                            None
                        }
                    },
                    Err(_) => None,
                }
            },
        }
    }

    /// What the `event` form of a message delivers (see [`oc_event_ok`]).
    fn event_part(j: &Json, now: i64) -> (r: Option<WsMessage>)
        ensures
            oc_event_ok(*j, now, r),
    {
        let ev = match j.get_str("event") {
            Some(e) => e,
            None => {
                return None;
            },
        };
        let d = match j.get("data") {
            Some(d) => d,
            None => {
                return None;
            },
        };
        let market = match d.get_str("market") {
            Some(m) => m,
            None => String::new(),
        };
        let sym = Self::to_unified_symbol(market.as_str());
        if str_eq(ev.as_str(), "ticker") {
            Self::ticker_message(d, sym.as_str(), now)
        } else if str_eq(ev.as_str(), "orderbook") || str_eq(ev.as_str(), "depth") {
            Self::book_message(d, sym.as_str(), now)
        } else if str_eq(ev.as_str(), "trades") || str_eq(ev.as_str(), "trade") {
            Self::trades_message(d, sym.as_str(), now, true)
        } else {
            None
        }
    }

    /// What the `channel` form of a message delivers (see
    /// [`oc_channel_ok`]).
    fn channel_part(j: &Json, now: i64) -> (r: Option<WsMessage>)
        ensures
            oc_channel_ok(*j, now, r),
    {
        let ch = match j.get_str("channel") {
            Some(c) => c,
            None => {
                return None;
            },
        };
        let d = match j.get("data") {
            Some(d) => d,
            None => {
                return None;
            },
        };
        let parts = split_char(ch.as_str(), '.');
        let market = if parts.len() > 1 { copy_str(parts[1].as_str()) } else { String::new() };
        let sym = Self::to_unified_symbol(market.as_str());
        if starts_with(ch.as_str(), "ticker") {
            Self::ticker_message(d, sym.as_str(), now)
        } else if starts_with(ch.as_str(), "orderbook") || starts_with(ch.as_str(), "depth") {
            Self::book_message(d, sym.as_str(), now)
        } else if starts_with(ch.as_str(), "trades") || starts_with(ch.as_str(), "trade") {
            Self::trades_message(d, sym.as_str(), now, false)
        } else {
            None
        }
    }

    /// Handles a stream message at time `now` (milliseconds, used where the
    /// message has no time): what it delivers (see [`oc_message_ok`]), or a
    /// parse error when it is not JSON.
    pub fn process_message(msg: &str, now: i64) -> (r: Result<Vec<WsMessage>, CcxtError>)
        ensures
            spec_parse_json(msg@) is None ==> r matches Err(CcxtError::ParseError { .. }),
            spec_parse_json(msg@) matches Some(j) ==> r matches Ok(v) && oc_message_ok(j, now, v@),
    {
        let j = match Json::parse(msg) {
            Some(j) => j,
            None => {
                return Err(CcxtError::ParseError { data_type: copy_str("JSON"), message: copy_str("invalid JSON message") });
            },
        };
        let a = Self::event_part(&j, now);
        let b = Self::channel_part(&j, now);
        let mut out: Vec<WsMessage> = Vec::new();
        let ghost ga = a;
        let ghost gb = b;
        match a {
            Some(m) => {
                out.push(m);
            },
            None => {},
        }
        match b {
            Some(m) => {
                out.push(m);
            },
            None => {},
        }
        assert(out@ == opt_seq(ga) + opt_seq(gb));
        Ok(out)
    }
}

/// A unified symbol with an ASCII base (without `/`) and a quote the
/// stream knows (`USDT`, `BTC`, `ETH`, `VET`) comes back, its base in upper
/// case, from its market id.
pub proof fn law_symbol_round_trip(base: Seq<char>, quote: Seq<char>)
    requires
        all_ascii(base),
        !base.contains('/'),
        quote == "USDT"@ || quote == "BTC"@ || quote == "ETH"@ || quote == "VET"@,
    ensures
        spec_oc_unified(spec_oc_format_symbol(base + "/"@ + quote)) == ascii_upper(base) + "/"@ + quote,
{
    reveal_strlit("/");
    reveal_strlit("USDT");
    reveal_strlit("BTC");
    reveal_strlit("ETH");
    reveal_strlit("VET");
    reveal_strlit("/USDT");
    reveal_strlit("/BTC");
    reveal_strlit("/ETH");
    reveal_strlit("/VET");
    assert("/"@ + quote =~= if quote == "USDT"@ {
        "/USDT"@
    } else if quote == "BTC"@ {
        "/BTC"@
    } else if quote == "ETH"@ {
        "/ETH"@
    } else {
        "/VET"@
    });
    assert(ascii_upper(base) + "/"@ + quote =~= ascii_upper(base) + ("/"@ + quote));
    assert(!quote.contains('/') && all_ascii(quote) && ascii_upper(quote) == quote) by {
        if quote.contains('/') {
            let i = choose|i: int| 0 <= i < quote.len() && quote[i] == '/';
            assert(quote[i] != '/');
        }
        assert(ascii_upper(quote) =~= quote);
    }
    assert("/"@ =~= seq!['/']);
    assert(base + "/"@ + quote =~= base + seq!['/'] + quote);
    lemma_remove_separator(base, quote, '/');
    lemma_ascii_case_join(base, quote);
    lemma_ascii_case(base + quote);
    let f = ascii_upper(base) + quote;
    assert(upper_text(lower_text(base + quote)) == f);
    let n = f.len();
    let ql = quote.len() as int;
    assert(f.subrange(n - ql, n as int) =~= quote);
    assert(f.subrange(0, n - ql) =~= ascii_upper(base));
    assert(f[n - 1] == quote[ql - 1]);
    assert(f[n - 2] == quote[ql - 2]);
    if quote != "USDT"@ {
        assert(!ends_with(f, "USDT"@)) by {
            if ends_with(f, "USDT"@) {
                assert(f.subrange(n - 4, n as int)[3] == f[n - 1]);
                assert(f.subrange(n - 4, n as int)[2] == f[n - 2]);
            }
        }
    }
    if quote == "ETH"@ || quote == "VET"@ {
        assert(!ends_with(f, "BTC"@)) by {
            if ends_with(f, "BTC"@) {
                assert(f.subrange(n - 3, n as int)[2] == f[n - 1]);
            }
        }
    }
    if quote == "VET"@ {
        assert(!ends_with(f, "ETH"@)) by {
            if ends_with(f, "ETH"@) {
                assert(f.subrange(n - 3, n as int)[2] == f[n - 1]);
            }
        }
    }
}

} // verus!
