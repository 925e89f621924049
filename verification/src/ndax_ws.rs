//! NDAX streaming: market names, the instruments a client has subscribed to,
//! subscription requests, and what the gateway's events deliver.

use crate::book::{
    apply_level, book_same, cache_wf, copy_book, entry_wf, law_delete_removes_price, law_update_leaves_level,
    prices_wf, remove_price, side_delete_ok, side_update_ok, sort_levels, sorted_by_price, spec_dec_eq,
};
use crate::common::{keyed_insert, opt_view, pair_lookup};
use crate::dec::{dec_mul, opt_parts, spec_dec_mul, Dec};
use crate::json::{spec_as_i64, spec_as_str, spec_as_u64, spec_get, spec_num_dec, spec_parse_json, Json};
use crate::text::{
    concat2, concat3, copy_str, ends_with, int_to_string, lemma_remove_separator, push_str, remove_all, remove_char,
    spec_int_to_string, str_eq, strip_suffix,
};
use crate::time::{iso8601_or_empty, iso8601_or_empty_spec};
use crate::types::{OrderBook, OrderBookEntry, Ticker, Trade};
use crate::ws::{WsMessage, WsOrderBookEvent, WsTickerEvent, WsTradeEvent};
use vstd::prelude::*;

verus! {

/// Gateway address.
pub const NDAX_WS_URL: &'static str = "wss://api.ndax.io/WSGateway";

/// The order management system that every request names.
pub const NDAX_OMS_ID: u32 = 1;

/// The NDAX stream client: the id of the next request, the instruments
/// subscribed to (by symbol, and by instrument id), and the order book kept
/// per symbol.
pub struct NdaxWs {
    pub request_id: u64,
    pub symbol_to_instrument: Vec<(String, u32)>,
    pub instrument_to_symbol: Vec<(u32, String)>,
    pub orderbook_cache: Vec<(String, OrderBook)>,
}

/// The symbol recorded for an instrument id: that of the first entry
/// holding the id.
pub open spec fn symbol_of(entries: Seq<(u32, String)>, id: u32) -> Option<Seq<char>>
    decreases entries.len(),
{
    if entries.len() == 0 {
        None
    } else if entries[0].0 == id {
        Some(entries[0].1@)
    } else {
        symbol_of(entries.drop_first(), id)
    }
}

/// The market name of a unified symbol: the symbol without its `/`.
pub open spec fn spec_ndax_format_symbol(s: Seq<char>) -> Seq<char> {
    remove_all(s, '/')
}

/// The unified symbol of a market name: the base, `/` and the quote, for
/// a name ending in `USDT`, `USD` or `BTC` (tried in that order); the name
/// itself otherwise.
pub open spec fn spec_ndax_parse_symbol(s: Seq<char>) -> Seq<char> {
    if ends_with(s, "USDT"@) {
        s.subrange(0, s.len() - 4) + "/USDT"@
    } else if ends_with(s, "USD"@) {
        s.subrange(0, s.len() - 3) + "/USD"@
    } else if ends_with(s, "BTC"@) {
        s.subrange(0, s.len() - 3) + "/BTC"@
    } else {
        s
    }
}

/// The request id that follows another (wrapping, as an atomic add does).
pub open spec fn nd_next_id(id: u64) -> u64 {
    if id == u64::MAX {
        0
    } else {
        (id + 1) as u64
    }
}

/// A request frame: `i` the request id, `m` zero, `n` the endpoint and `o`
/// the payload written as a JSON string (`payload` is that string's body).
pub open spec fn nd_request(rid: u64, endpoint: Seq<char>, payload: Seq<char>) -> Seq<char> {
    "{\"i\":"@ + spec_int_to_string(rid as int) + ",\"m\":0,\"n\":\""@ + endpoint + "\",\"o\":\""@ + payload
        + "\"}"@
}

/// Body of the level-2 payload `{"Depth":..,"InstrumentId":..,"OMSId":1}`.
pub open spec fn nd_level2_payload(instrument_id: u32, depth: u32) -> Seq<char> {
    "{\\\"Depth\\\":"@ + spec_int_to_string(depth as int) + ",\\\"InstrumentId\\\":"@
        + spec_int_to_string(instrument_id as int) + ",\\\"OMSId\\\":1}"@
}

/// Body of the level-1 payload `{"InstrumentId":..,"OMSId":1}`.
pub open spec fn nd_level1_payload(instrument_id: u32) -> Seq<char> {
    "{\\\"InstrumentId\\\":"@ + spec_int_to_string(instrument_id as int) + ",\\\"OMSId\\\":1}"@
}

/// Body of the trades payload
/// `{"IncludeLastCount":100,"InstrumentId":..,"OMSId":1}`.
pub open spec fn nd_trades_payload(instrument_id: u32) -> Seq<char> {
    "{\\\"IncludeLastCount\\\":100,\\\"InstrumentId\\\":"@ + spec_int_to_string(instrument_id as int)
        + ",\\\"OMSId\\\":1}"@
}

/// Body of the ticker payload
/// `{"IncludeLastCount":1,"InstrumentId":..,"Interval":60,"OMSId":1}`.
pub open spec fn nd_ticker_payload(instrument_id: u32) -> Seq<char> {
    "{\\\"IncludeLastCount\\\":1,\\\"InstrumentId\\\":"@ + spec_int_to_string(instrument_id as int)
        + ",\\\"Interval\\\":60,\\\"OMSId\\\":1}"@
}

/// A client after a request id was used: the id advanced, all else kept.
pub open spec fn nd_id_used(before: NdaxWs, after: NdaxWs) -> bool {
    &&& after.request_id == nd_next_id(before.request_id)
    &&& after.symbol_to_instrument == before.symbol_to_instrument
    &&& after.instrument_to_symbol == before.instrument_to_symbol
    &&& after.orderbook_cache == before.orderbook_cache
}

/// A client after an instrument was recorded for a symbol: the symbol reads
/// the instrument, the instrument reads the symbol, every other symbol and
/// instrument reads as before, and nothing else changed.
pub open spec fn nd_registered(before: NdaxWs, after: NdaxWs, symbol: Seq<char>, instrument_id: u32) -> bool {
    &&& pair_lookup(after.symbol_to_instrument@, symbol) == Some(instrument_id)
    &&& forall|s: Seq<char>| s != symbol ==> pair_lookup(after.symbol_to_instrument@, s) == pair_lookup(
        before.symbol_to_instrument@,
        s,
    )
    &&& symbol_of(after.instrument_to_symbol@, instrument_id) == Some(symbol)
    &&& forall|i: u32| i != instrument_id ==> symbol_of(after.instrument_to_symbol@, i) == symbol_of(
        before.instrument_to_symbol@,
        i,
    )
    &&& after.request_id == before.request_id
    &&& after.orderbook_cache == before.orderbook_cache
}

/// Replacing the first entry under an id changes what that id reads and
/// nothing else.
proof fn lemma_id_set(s: Seq<(u32, String)>, i: int, k: (u32, String), c: u32)
    requires
        0 <= i < s.len(),
        s[i].0 == k.0,
        forall|j: int| 0 <= j < i ==> s[j].0 != k.0,
    ensures
        symbol_of(s.update(i, k), k.0) == Some(k.1@),
        c != k.0 ==> symbol_of(s.update(i, k), c) == symbol_of(s, c),
    decreases s.len(),
{
    if i > 0 {
        lemma_id_set(s.drop_first(), i - 1, k, c);
        assert(s.update(i, k).drop_first() =~= s.drop_first().update(i - 1, k));
    } else {
        assert(s.update(i, k).drop_first() =~= s.drop_first());
    }
}

/// Appending an entry under an id that no entry holds makes that id read
/// the new symbol and leaves every other id as it was.
proof fn lemma_id_push(s: Seq<(u32, String)>, k: (u32, String), c: u32)
    requires
        forall|j: int| 0 <= j < s.len() ==> s[j].0 != k.0,
    ensures
        symbol_of(s.push(k), k.0) == Some(k.1@),
        c != k.0 ==> symbol_of(s.push(k), c) == symbol_of(s, c),
    decreases s.len(),
{
    if s.len() > 0 {
        lemma_id_push(s.drop_first(), k, c);
        assert(s.push(k)[0] == s[0]);
        assert(s.push(k).drop_first() =~= s.drop_first().push(k));
    } else {
        let e = Seq::<(u32, String)>::empty();
        assert(s =~= e);
        assert(s.push(k)[0] == k);
        assert(s.push(k).drop_first() =~= e);
    }
}

/// Records a symbol under an instrument id, replacing the entry that holds
/// the id, or appending one.
fn id_insert(entries: &mut Vec<(u32, String)>, id: u32, symbol: String)
    ensures
        symbol_of(final(entries)@, id) == Some(symbol@),
        forall|c: u32| c != id ==> symbol_of(final(entries)@, c) == symbol_of(old(entries)@, c),
{
    let n = entries.len();
    let mut i: usize = 0;
    while i < n
        invariant
            n == entries@.len(),
            entries@ == old(entries)@,
            i <= n,
            forall|j: int| 0 <= j < i ==> entries@[j].0 != id,
        decreases n - i,
    {
        if entries[i].0 == id {
            let ghost before = entries@;
            let ghost k = (id, symbol);
            entries.set(i, (id, symbol));
            proof {
                lemma_id_set(before, i as int, k, k.0);
                assert forall|c: u32| c != k.0 implies symbol_of(entries@, c) == symbol_of(before, c) by {
                    lemma_id_set(before, i as int, k, c);
                }
            }
            return;
        }
        i = i + 1;
    }
    let ghost before = entries@;
    let ghost k = (id, symbol);
    entries.push((id, symbol));
    proof {
        lemma_id_push(before, k, k.0);
        assert forall|c: u32| c != k.0 implies symbol_of(entries@, c) == symbol_of(before, c) by {
            lemma_id_push(before, k, c);
        }
    }
}

/// The symbol recorded for an instrument id, copied out.
fn id_get(entries: &Vec<(u32, String)>, id: u32) -> (r: Option<String>)
    ensures
        opt_view(r) == symbol_of(entries@, id),
{
    let n = entries.len();
    let mut i: usize = 0;
    assert(entries@.subrange(0, n as int) =~= entries@);
    while i < n
        invariant
            n == entries@.len(),
            i <= n,
            symbol_of(entries@, id) == symbol_of(entries@.subrange(i as int, n as int), id),
        decreases n - i,
    {
        let ghost rest = entries@.subrange(i as int, n as int);
        assert(rest.drop_first() =~= entries@.subrange(i + 1, n as int));
        assert(rest[0] == entries@[i as int]);
        if entries[i].0 == id {
            return Some(copy_str(entries[i].1.as_str()));
        }
        i = i + 1;
    }
    None
}

impl NdaxWs {
    /// A client with no instruments and no books; the first request id is 1.
    pub fn new() -> (r: NdaxWs)
        ensures
            r.request_id == 1,
            r.symbol_to_instrument@.len() == 0,
            r.instrument_to_symbol@.len() == 0,
            r.orderbook_cache@.len() == 0,
            cache_wf(r.orderbook_cache@),
    {
        let r = NdaxWs {
            request_id: 1,
            symbol_to_instrument: Vec::new(),
            instrument_to_symbol: Vec::new(),
            orderbook_cache: Vec::new(),
        };
        assert forall|k: Seq<char>| #[trigger] entry_wf(r.orderbook_cache@, k) by {}
        r
    }

    /// The request id to use: the current one, which then advances by one.
    pub fn next_request_id(&mut self) -> (r: u64)
        ensures
            r == old(self).request_id,
            nd_id_used(*old(self), *final(self)),
    {
        let id = self.request_id;
        self.request_id = if id == u64::MAX { 0 } else { id + 1 };
        id
    }

    /// The market name of a unified symbol (`BTC/USDT` gives `BTCUSDT`).
    pub fn format_symbol(&self, symbol: &str) -> (r: String)
        ensures
            r@ == spec_ndax_format_symbol(symbol@),
    {
        remove_char(symbol, '/')
    }

    /// The unified symbol of a market name (see [`spec_ndax_parse_symbol`]).
    pub fn parse_symbol(&self, symbol: &str) -> (r: String)
        ensures
            r@ == spec_ndax_parse_symbol(symbol@),
    {
        Self::parse_symbol_static(symbol)
    }

    /// The unified symbol of a market name (see [`spec_ndax_parse_symbol`]).
    pub fn parse_symbol_static(symbol: &str) -> (r: String)
        ensures
            r@ == spec_ndax_parse_symbol(symbol@),
    {
        proof {
            reveal_strlit("USDT");
            reveal_strlit("USD");
            reveal_strlit("BTC");
        }
        if let Some(base) = strip_suffix(symbol, "USDT") {
            concat2(base.as_str(), "/USDT")
        } else if let Some(base) = strip_suffix(symbol, "USD") {
            concat2(base.as_str(), "/USD")
        } else if let Some(base) = strip_suffix(symbol, "BTC") {
            concat2(base.as_str(), "/BTC")
        } else {
            copy_str(symbol)
        }
    }

    /// The instrument recorded for a symbol.
    pub fn get_instrument_id(&self, symbol: &str) -> (r: Option<u32>)
        ensures
            r == pair_lookup(self.symbol_to_instrument@, symbol@),
    {
        let n = self.symbol_to_instrument.len();
        let mut i: usize = 0;
        assert(self.symbol_to_instrument@.subrange(0, n as int) =~= self.symbol_to_instrument@);
        while i < n
            invariant
                n == self.symbol_to_instrument@.len(),
                i <= n,
                pair_lookup(self.symbol_to_instrument@, symbol@) == pair_lookup(
                    self.symbol_to_instrument@.subrange(i as int, n as int),
                    symbol@,
                ),
            decreases n - i,
        {
            let ghost rest = self.symbol_to_instrument@.subrange(i as int, n as int);
            assert(rest.drop_first() =~= self.symbol_to_instrument@.subrange(i + 1, n as int));
            assert(rest[0] == self.symbol_to_instrument@[i as int]);
            if str_eq(self.symbol_to_instrument[i].0.as_str(), symbol) {
                return Some(self.symbol_to_instrument[i].1);
            }
            i = i + 1;
        }
        None
    }

    /// Records the instrument of a symbol, both ways (see [`nd_registered`]).
    pub fn register_instrument(&mut self, symbol: String, instrument_id: u32)
        ensures
            nd_registered(*old(self), *final(self), symbol@, instrument_id),
    {
        let copy = copy_str(symbol.as_str());
        keyed_insert(&mut self.symbol_to_instrument, copy, instrument_id);
        id_insert(&mut self.instrument_to_symbol, instrument_id, symbol);
    }

    /// The symbol recorded for an instrument.
    pub fn get_symbol_for_instrument(&self, instrument_id: u32) -> (r: Option<String>)
        ensures
            opt_view(r) == symbol_of(self.instrument_to_symbol@, instrument_id),
    {
        id_get(&self.instrument_to_symbol, instrument_id)
    }

    /// A request frame (see [`nd_request`]).
    fn request_frame(rid: u64, endpoint: &str, payload: &str) -> (r: String)
        ensures
            r@ == nd_request(rid, endpoint@, payload@),
    {
        let mut m = concat3("{\"i\":", int_to_string(rid as i128).as_str(), ",\"m\":0,\"n\":\"");
        push_str(&mut m, endpoint);
        push_str(&mut m, "\",\"o\":\"");
        push_str(&mut m, payload);
        push_str(&mut m, "\"}");
        m
    }

    /// The frame that subscribes to an instrument's level-2 book, under the
    /// next request id.
    pub fn subscribe_level2_message(&mut self, instrument_id: u32, depth: u32) -> (r: String)
        ensures
            r@ == nd_request(old(self).request_id, "SubscribeLevel2"@, nd_level2_payload(instrument_id, depth)),
            nd_id_used(*old(self), *final(self)),
    {
        let rid = self.next_request_id();
        let mut p = concat3("{\\\"Depth\\\":", int_to_string(depth as i128).as_str(), ",\\\"InstrumentId\\\":");
        push_str(&mut p, int_to_string(instrument_id as i128).as_str());
        push_str(&mut p, ",\\\"OMSId\\\":1}");
        Self::request_frame(rid, "SubscribeLevel2", p.as_str())
    }

    /// The frame that subscribes to an instrument's level-1 data, under the
    /// next request id.
    pub fn subscribe_level1_message(&mut self, instrument_id: u32) -> (r: String)
        ensures
            r@ == nd_request(old(self).request_id, "SubscribeLevel1"@, nd_level1_payload(instrument_id)),
            nd_id_used(*old(self), *final(self)),
    {
        let rid = self.next_request_id();
        let p = concat3("{\\\"InstrumentId\\\":", int_to_string(instrument_id as i128).as_str(), ",\\\"OMSId\\\":1}");
        Self::request_frame(rid, "SubscribeLevel1", p.as_str())
    }

    /// The frame that subscribes to an instrument's trades, under the next
    /// request id.
    pub fn subscribe_trades_message(&mut self, instrument_id: u32) -> (r: String)
        ensures
            r@ == nd_request(old(self).request_id, "SubscribeTrades"@, nd_trades_payload(instrument_id)),
            nd_id_used(*old(self), *final(self)),
    {
        let rid = self.next_request_id();
        let p = concat3(
            "{\\\"IncludeLastCount\\\":100,\\\"InstrumentId\\\":",
            int_to_string(instrument_id as i128).as_str(),
            ",\\\"OMSId\\\":1}",
        );
        Self::request_frame(rid, "SubscribeTrades", p.as_str())
    }

    /// The frame that subscribes to an instrument's ticker, under the next
    /// request id.
    pub fn subscribe_ticker_message(&mut self, instrument_id: u32) -> (r: String)
        ensures
            r@ == nd_request(old(self).request_id, "SubscribeTicker"@, nd_ticker_payload(instrument_id)),
            nd_id_used(*old(self), *final(self)),
    {
        let rid = self.next_request_id();
        let p = concat3(
            "{\\\"IncludeLastCount\\\":1,\\\"InstrumentId\\\":",
            int_to_string(instrument_id as i128).as_str(),
            ",\\\"Interval\\\":60,\\\"OMSId\\\":1}",
        );
        Self::request_frame(rid, "SubscribeTicker", p.as_str())
    }

    /// The key of a subscription: the channel, `:` and the symbol.
    pub fn channel_key(channel: &str, symbol: &str) -> (r: String)
        ensures
            r@ == channel@ + ":"@ + symbol@,
    {
        concat3(channel, ":", symbol)
    }
}

/// Recording an instrument for a symbol makes each read the other back, and
/// leaves what other symbols and instruments read as it was.
pub proof fn law_register_reads_back(before: NdaxWs, after: NdaxWs, symbol: Seq<char>, instrument_id: u32, other: Seq<char>, other_id: u32)
    requires
        nd_registered(before, after, symbol, instrument_id),
    ensures
        pair_lookup(after.symbol_to_instrument@, symbol) == Some(instrument_id),
        symbol_of(after.instrument_to_symbol@, instrument_id) == Some(symbol),
        other != symbol ==> pair_lookup(after.symbol_to_instrument@, other) == pair_lookup(before.symbol_to_instrument@, other),
        other_id != instrument_id ==> symbol_of(after.instrument_to_symbol@, other_id) == symbol_of(before.instrument_to_symbol@, other_id),
{
}

/// A number read as an unsigned integer; zero when it is not one.
pub open spec fn nd_u64_or_zero(j: Json) -> u64 {
    match spec_as_u64(j) {
        Some(n) => n as u64,
        None => 0u64,
    }
}

/// An instrument id: the number read as an unsigned integer (zero when it
/// is not one), cut to 32 bits.
pub open spec fn nd_instrument(j: Json) -> u32 {
    nd_u64_or_zero(j) as u32
}

/// A number read as a decimal; zero when it is not one.
pub open spec fn nd_dec_or_zero(j: Json) -> (int, int) {
    match spec_num_dec(j) {
        Some(p) => p,
        None => (0int, 0int),
    }
}

/// A member read as a decimal number, if it is one.
pub open spec fn nd_opt_num(j: Json, k: Seq<char>) -> Option<(int, int)> {
    match spec_get(j, k) {
        Some(v) => spec_num_dec(v),
        None => None,
    }
}

/// A member read as a signed integer, if it is one.
pub open spec fn nd_opt_i64(j: Json, k: Seq<char>) -> Option<int> {
    match spec_get(j, k) {
        Some(v) => spec_as_i64(v),
        None => None,
    }
}

/// An optional integer that holds the given value.
pub open spec fn opt_i64_is(o: Option<i64>, x: Option<int>) -> bool {
    match x {
        Some(n) => o matches Some(m) && m as int == n,
        None => o is None,
    }
}

/// The payload of an event: the member `o`, a string that holds a JSON
/// document.
pub open spec fn nd_payload(data: Json) -> Option<Json> {
    match spec_get(data, "o"@) {
        Some(v) => match spec_as_str(v) {
            Some(s) => spec_parse_json(s),
            None => None,
        },
        None => None,
    }
}

/// A level-1 event's ticker, read from its payload object.
pub open spec fn nd_level1_ticker(p: Json, sym: Seq<char>, t: Ticker) -> bool {
    &&& t.symbol@ == sym
    &&& opt_parts(t.last) == nd_opt_num(p, "LastTradedPx"@)
    &&& opt_parts(t.bid) == nd_opt_num(p, "BestBid"@)
    &&& opt_parts(t.ask) == nd_opt_num(p, "BestOffer"@)
    &&& opt_parts(t.high) == nd_opt_num(p, "High"@)
    &&& opt_parts(t.low) == nd_opt_num(p, "Low"@)
    &&& opt_parts(t.base_volume) == nd_opt_num(p, "Volume"@)
    &&& opt_i64_is(t.timestamp, nd_opt_i64(p, "CurrentDayPxChangeTime"@))
    &&& t.datetime is None && t.bid_volume is None && t.ask_volume is None && t.vwap is None
    &&& t.open is None && t.close is None && t.previous_close is None && t.change is None
    &&& t.percentage is None && t.average is None && t.quote_volume is None
    &&& t.index_price is None && t.mark_price is None
}

/// A level-one ticker's bid is the event's `BestBid` and its ask the
/// event's `BestOffer`, read as numbers.
pub proof fn law_level1_bid_ask(p: Json, sym: Seq<char>, t: Ticker)
    requires
        nd_level1_ticker(p, sym, t),
    ensures
        opt_parts(t.bid) == (match spec_get(p, "BestBid"@) {
            Some(v) => spec_num_dec(v),
            None => None,
        }),
        opt_parts(t.ask) == (match spec_get(p, "BestOffer"@) {
            Some(v) => spec_num_dec(v),
            None => None,
        }),
{
}

/// The instrument a level-1 payload names (zero when it names none).
pub open spec fn nd_level1_instrument(p: Json) -> u32 {
    match spec_get(p, "InstrumentId"@) {
        Some(v) => nd_instrument(v),
        None => 0u32,
    }
}

/// What a level-1 event delivers: the ticker of a subscribed instrument,
/// under `ticker:` and its symbol; nothing otherwise.
pub open spec fn nd_level1_ok(ids: Seq<(u32, String)>, data: Json, v: Seq<(String, WsMessage)>) -> bool {
    match nd_payload(data) {
        Some(p) => match symbol_of(ids, nd_level1_instrument(p)) {
            Some(sym) => v.len() == 1 && v[0].0@ == "ticker:"@ + sym && (v[0].1 matches WsMessage::Ticker(e)
                && e.symbol@ == sym && nd_level1_ticker(p, sym, e.ticker)),
            None => v.len() == 0,
        },
        None => v.len() == 0,
    }
}

/// A payload row that delivers: a list of at least `len` members whose
/// member `at` names a subscribed instrument.
pub open spec fn nd_row_yields(ids: Seq<(u32, String)>, row: Json, len: int, at: int) -> bool {
    row matches Json::Arr(u) && u@.len() >= len && symbol_of(ids, nd_instrument(u@[at])) is Some
}

/// The symbol of the instrument a row names.
pub open spec fn nd_row_symbol(ids: Seq<(u32, String)>, u: Seq<Json>, at: int) -> Seq<char> {
    match symbol_of(ids, nd_instrument(u[at])) {
        Some(s) => s,
        None => Seq::<char>::empty(),
    }
}

/// A trade from a row `[TradeId, Instrument, Quantity, Price, Order1,
/// Order2, TradeTime, Direction, TakerSide, ..]`: the taker side zero is a
/// buy, any other a sell.
pub open spec fn nd_trade_ok(sym: Seq<char>, u: Seq<Json>, t: Trade) -> bool {
    let price = nd_dec_or_zero(u[3]);
    let amount = nd_dec_or_zero(u[2]);
    &&& t.id@ == match spec_as_u64(u[0]) {
        Some(n) => spec_int_to_string(n),
        None => Seq::<char>::empty(),
    }
    &&& t.symbol@ == sym
    &&& t.price.parts() == price
    &&& t.amount.parts() == amount
    &&& opt_parts(t.cost) == spec_dec_mul(price, amount)
    &&& opt_view(t.side) == Some(if nd_u64_or_zero(u[8]) == 0 { "buy"@ } else { "sell"@ })
    &&& match spec_as_i64(u[6]) {
        Some(x) => t.timestamp matches Some(y) && y as int == x && opt_view(t.datetime) == Some(iso8601_or_empty_spec(x)),
        None => t.timestamp is None && t.datetime is None,
    }
    &&& t.order is None && t.taker_or_maker is None && t.trade_type is None && t.fee is None
}

/// The rows of a payload list that deliver.
pub open spec fn nd_rows(ids: Seq<(u32, String)>, rows: Seq<Json>, len: int, at: int) -> Seq<Json> {
    rows.filter(|r: Json| nd_row_yields(ids, r, len, at))
}

/// What a trade event delivers: for each row of at least eleven members
/// naming a subscribed instrument, its trade under `trades:` and the
/// symbol.
pub open spec fn nd_trades_ok(ids: Seq<(u32, String)>, data: Json, v: Seq<(String, WsMessage)>) -> bool {
    match nd_payload(data) {
        Some(Json::Arr(rows)) => {
            let ys = nd_rows(ids, rows@, 11, 1);
            &&& v.len() == ys.len()
            &&& forall|k: int| 0 <= k < v.len() ==> (#[trigger] ys[k] matches Json::Arr(u) && {
                let sym = nd_row_symbol(ids, u@, 1);
                &&& v[k].0@ == "trades:"@ + sym
                &&& v[k].1 matches WsMessage::Trade(e)
                &&& e.symbol@ == sym
                &&& e.trades@.len() == 1
                &&& nd_trade_ok(sym, u@, e.trades@[0])
            })
        },
        _ => v.len() == 0,
    }
}

/// A ticker from a row `[Time, Instrument, High, Low, Open, Close, Volume,
/// ..]`; the close is also the last price.
pub open spec fn nd_ticker_ok(sym: Seq<char>, u: Seq<Json>, t: Ticker) -> bool {
    &&& t.symbol@ == sym
    &&& opt_i64_is(t.timestamp, spec_as_i64(u[0]))
    &&& opt_parts(t.high) == spec_num_dec(u[2])
    &&& opt_parts(t.low) == spec_num_dec(u[3])
    &&& opt_parts(t.open) == spec_num_dec(u[4])
    &&& opt_parts(t.close) == spec_num_dec(u[5])
    &&& opt_parts(t.last) == spec_num_dec(u[5])
    &&& opt_parts(t.base_volume) == spec_num_dec(u[6])
    &&& t.datetime is None && t.bid is None && t.bid_volume is None && t.ask is None
    &&& t.ask_volume is None && t.vwap is None && t.previous_close is None && t.change is None
    &&& t.percentage is None && t.average is None && t.quote_volume is None
    &&& t.index_price is None && t.mark_price is None
}

/// What a ticker event delivers: for each row of at least ten members
/// naming a subscribed instrument, its ticker under `ticker:` and the
/// symbol.
pub open spec fn nd_tickers_ok(ids: Seq<(u32, String)>, data: Json, v: Seq<(String, WsMessage)>) -> bool {
    match nd_payload(data) {
        Some(Json::Arr(rows)) => {
            let ys = nd_rows(ids, rows@, 10, 1);
            &&& v.len() == ys.len()
            &&& forall|k: int| 0 <= k < v.len() ==> (#[trigger] ys[k] matches Json::Arr(u) && {
                let sym = nd_row_symbol(ids, u@, 1);
                &&& v[k].0@ == "ticker:"@ + sym
                &&& v[k].1 matches WsMessage::Ticker(e)
                &&& e.symbol@ == sym
                &&& nd_ticker_ok(sym, u@, e.ticker)
            })
        },
        _ => v.len() == 0,
    }
}

/// Which rows of a list deliver, one row further.
proof fn lemma_rows_step(ids: Seq<(u32, String)>, rows: Seq<Json>, i: int, len: int, at: int)
    requires
        0 <= i < rows.len(),
    ensures
        nd_rows(ids, rows.take(i + 1), len, at) == if nd_row_yields(ids, rows[i], len, at) {
            nd_rows(ids, rows.take(i), len, at).push(rows[i])
        } else {
            nd_rows(ids, rows.take(i), len, at)
        },
{
    assert(rows.take(i + 1).drop_last() =~= rows.take(i));
    assert(rows.take(i + 1).last() == rows[i]);
    reveal_with_fuel(Seq::<_>::filter, 1);
}

impl NdaxWs {
    /// The payload document of an event (see [`nd_payload`]).
    fn payload(data: &Json) -> (r: Option<Json>)
        ensures
            r == nd_payload(*data),
    {
        match data.get("o") {
            Some(v) => match v.as_str() {
                Some(s) => Json::parse(s),
                None => None,
            },
            None => None,
        }
    }

    /// A number read as an unsigned integer, or zero.
    fn u64_or_zero(j: &Json) -> (r: u64)
        ensures
            r == nd_u64_or_zero(*j),
    {
        match j.as_u64() {
            Some(n) => n,
            None => 0,
        }
    }

    /// A number read as a decimal, or zero.
    fn dec_or_zero(j: &Json) -> (r: Dec)
        ensures
            r.parts() == nd_dec_or_zero(*j),
            r.wf(),
    {
        match j.num_dec() {
            Some(d) => d,
            None => Dec::zero(),
        }
    }

    /// A member read as a decimal number.
    fn opt_num(j: &Json, k: &str) -> (r: Option<Dec>)
        ensures
            opt_parts(r) == nd_opt_num(*j, k@),
    {
        match j.get(k) {
            Some(v) => v.num_dec(),
            None => None,
        }
    }

    /// A member read as a signed integer.
    fn opt_i64(j: &Json, k: &str) -> (r: Option<i64>)
        ensures
            opt_i64_is(r, nd_opt_i64(*j, k@)),
    {
        match j.get(k) {
            Some(v) => v.as_i64(),
            None => None,
        }
    }

    /// What a level-1 event delivers (see [`nd_level1_ok`]).
    pub fn handle_level1_update(&self, data: &Json) -> (r: Vec<(String, WsMessage)>)
        ensures
            nd_level1_ok(self.instrument_to_symbol@, *data, r@),
    {
        let mut out: Vec<(String, WsMessage)> = Vec::new();
        let p = match Self::payload(data) {
            Some(p) => p,
            None => {
                return out;
            },
        };
        let id: u32 = match p.get("InstrumentId") {
            Some(v) => Self::u64_or_zero(v) as u32,
            None => 0,
        };
        let sym = match id_get(&self.instrument_to_symbol, id) {
            Some(s) => s,
            None => {
                return out;
            },
        };
        let ticker = Ticker {
            symbol: copy_str(sym.as_str()),
            timestamp: Self::opt_i64(&p, "CurrentDayPxChangeTime"),
            datetime: None,
            high: Self::opt_num(&p, "High"),
            low: Self::opt_num(&p, "Low"),
            bid: Self::opt_num(&p, "BestBid"),
            bid_volume: None,
            ask: Self::opt_num(&p, "BestOffer"),
            ask_volume: None,
            vwap: None,
            open: None,
            close: None,
            last: Self::opt_num(&p, "LastTradedPx"),
            previous_close: None,
            change: None,
            percentage: None,
            average: None,
            base_volume: Self::opt_num(&p, "Volume"),
            quote_volume: None,
            index_price: None,
            mark_price: None,
        };
        let key = concat2("ticker:", sym.as_str());
        out.push((key, WsMessage::Ticker(WsTickerEvent { symbol: sym, ticker })));
        out
    }

    /// The trade of a row (see [`nd_trade_ok`]); the row has at least eleven
    /// members.
    fn trade_of_row(sym: &str, u: &Vec<Json>) -> (r: Trade)
        requires
            u@.len() >= 11,
        ensures
            nd_trade_ok(sym@, u@, r),
    {
        let id = match u[0].as_u64() {
            Some(n) => int_to_string(n as i128),
            None => String::new(),
        };
        let amount = Self::dec_or_zero(&u[2]);
        let price = Self::dec_or_zero(&u[3]);
        let ts = u[6].as_i64();
        let side = if Self::u64_or_zero(&u[8]) == 0 { copy_str("buy") } else { copy_str("sell") };
        let datetime = match ts {
            Some(t) => Some(iso8601_or_empty(t)),
            None => None,
        };
        Trade {
            id,
            order: None,
            timestamp: ts,
            datetime,
            symbol: copy_str(sym),
            trade_type: None,
            side: Some(side),
            taker_or_maker: None,
            price,
            amount,
            cost: dec_mul(price, amount),
            fee: None,
        }
    }

    /// What a trade event delivers (see [`nd_trades_ok`]).
    pub fn handle_trade_update(&self, data: &Json) -> (r: Vec<(String, WsMessage)>)
        ensures
            nd_trades_ok(self.instrument_to_symbol@, *data, r@),
    {
        let mut out: Vec<(String, WsMessage)> = Vec::new();
        let p = match Self::payload(data) {
            Some(p) => p,
            None => {
                return out;
            },
        };
        let ghost ids = self.instrument_to_symbol@;
        match &p {
            Json::Arr(rows) => {
                let n = rows.len();
                let mut i: usize = 0;
                while i < n
                    invariant
                        n == rows@.len(),
                        i <= n,
                        ids == self.instrument_to_symbol@,
                        out@.len() == nd_rows(ids, rows@.take(i as int), 11, 1).len(),
                        forall|k: int| 0 <= k < out@.len() ==> (#[trigger] nd_rows(ids, rows@.take(i as int), 11, 1)[k] matches Json::Arr(u) && {
                            let sym = nd_row_symbol(ids, u@, 1);
                            &&& out@[k].0@ == "trades:"@ + sym
                            &&& out@[k].1 matches WsMessage::Trade(e)
                            &&& e.symbol@ == sym
                            &&& e.trades@.len() == 1
                            &&& nd_trade_ok(sym, u@, e.trades@[0])
                        }),
                    decreases n - i,
                {
                    proof {
                        lemma_rows_step(ids, rows@, i as int, 11, 1);
                    }
                    match &rows[i] {
                        Json::Arr(u) => {
                            if u.len() >= 11 {
                                let id = Self::u64_or_zero(&u[1]) as u32;
                                match id_get(&self.instrument_to_symbol, id) {
                                    Some(sym) => {
                                        let t = Self::trade_of_row(sym.as_str(), u);
                                        let mut trades: Vec<Trade> = Vec::new();
                                        trades.push(t);
                                        let key = concat2("trades:", sym.as_str());
                                        out.push((key, WsMessage::Trade(WsTradeEvent { symbol: sym, trades })));
                                    },
                                    None => {},
                                }
                            }
                        },
                        _ => {},
                    }
                    i = i + 1;
                }
                assert(rows@.take(n as int) =~= rows@);
            },
            _ => {},
        }
        out
    }

    /// The ticker of a row (see [`nd_ticker_ok`]); the row has at least ten
    /// members.
    fn ticker_of_row(sym: &str, u: &Vec<Json>) -> (r: Ticker)
        requires
            u@.len() >= 10,
        ensures
            nd_ticker_ok(sym@, u@, r),
    {
        Ticker {
            symbol: copy_str(sym),
            timestamp: u[0].as_i64(),
            datetime: None,
            high: u[2].num_dec(),
            low: u[3].num_dec(),
            bid: None,
            bid_volume: None,
            ask: None,
            ask_volume: None,
            vwap: None,
            open: u[4].num_dec(),
            close: u[5].num_dec(),
            last: u[5].num_dec(),
            previous_close: None,
            change: None,
            percentage: None,
            average: None,
            base_volume: u[6].num_dec(),
            quote_volume: None,
            index_price: None,
            mark_price: None,
        }
    }

    /// What a ticker event delivers (see [`nd_tickers_ok`]).
    pub fn handle_ticker_update(&self, data: &Json) -> (r: Vec<(String, WsMessage)>)
        ensures
            nd_tickers_ok(self.instrument_to_symbol@, *data, r@),
    {
        let mut out: Vec<(String, WsMessage)> = Vec::new();
        let p = match Self::payload(data) {
            Some(p) => p,
            None => {
                return out;
            },
        };
        let ghost ids = self.instrument_to_symbol@;
        match &p {
            Json::Arr(rows) => {
                let n = rows.len();
                let mut i: usize = 0;
                while i < n
                    invariant
                        n == rows@.len(),
                        i <= n,
                        ids == self.instrument_to_symbol@,
                        out@.len() == nd_rows(ids, rows@.take(i as int), 10, 1).len(),
                        forall|k: int| 0 <= k < out@.len() ==> (#[trigger] nd_rows(ids, rows@.take(i as int), 10, 1)[k] matches Json::Arr(u) && {
                            let sym = nd_row_symbol(ids, u@, 1);
                            &&& out@[k].0@ == "ticker:"@ + sym
                            &&& out@[k].1 matches WsMessage::Ticker(e)
                            &&& e.symbol@ == sym
                            &&& nd_ticker_ok(sym, u@, e.ticker)
                        }),
                    decreases n - i,
                {
                    proof {
                        lemma_rows_step(ids, rows@, i as int, 10, 1);
                    }
                    match &rows[i] {
                        Json::Arr(u) => {
                            if u.len() >= 10 {
                                let id = Self::u64_or_zero(&u[1]) as u32;
                                match id_get(&self.instrument_to_symbol, id) {
                                    Some(sym) => {
                                        let t = Self::ticker_of_row(sym.as_str(), u);
                                        let key = concat2("ticker:", sym.as_str());
                                        out.push((key, WsMessage::Ticker(WsTickerEvent { symbol: sym, ticker: t })));
                                    },
                                    None => {},
                                }
                            }
                        },
                        _ => {},
                    }
                    i = i + 1;
                }
                assert(rows@.take(n as int) =~= rows@);
            },
            _ => {},
        }
        out
    }
}

/// The book a row changes: the book cached for the symbol, or an empty
/// book of the symbol when none is.
pub open spec fn nd_start(cache: Seq<(String, OrderBook)>, sym: Seq<char>, b: OrderBook) -> bool {
    match pair_lookup(cache, sym) {
        Some(c) => book_same(c, b),
        None => {
            &&& b.symbol@ == sym
            &&& b.bids@.len() == 0 && b.asks@.len() == 0
            &&& b.timestamp is None && b.datetime is None && b.nonce is None
        },
    }
}

/// A level of the given price and quantity.
pub open spec fn nd_level(e: OrderBookEntry, price: (int, int), qty: (int, int)) -> bool {
    e.price.parts() == price && e.amount.parts() == qty && e.price.wf()
}

/// A side after a row's change, sorted again: action 0 (update) or 2 (new)
/// with a quantity other than zero sets the amount of the first level at
/// the price, or adds the level; action 0 or 2 with a zero quantity, and
/// action 1 (delete), remove every level at the price; other actions change
/// no level.
pub open spec fn nd_side_step(s: Seq<OrderBookEntry>, action: u64, price: (int, int), qty: (int, int), desc: bool, out: Seq<OrderBookEntry>) -> bool {
    exists|e: OrderBookEntry| #[trigger] nd_level(e, price, qty) && {
        if (action == 0 || action == 2) && qty.0 != 0 {
            side_update_ok(s, e, desc, out)
        } else if action == 0 || action == 1 || action == 2 {
            side_delete_ok(s, e.price, desc, out)
        } else {
            sorted_by_price(out, desc) && out.to_multiset() == s.to_multiset()
        }
    }
}

/// A book after a row `[MDUpdateId, Accounts, ActionTime, ActionType,
/// LastTradePrice, Orders, Price, Instrument, Quantity, Side, ..]`: side
/// zero changes the bids, any other the asks.
pub open spec fn nd_book_step(b0: OrderBook, u: Seq<Json>, b1: OrderBook) -> bool {
    let action = nd_u64_or_zero(u[3]);
    let price = nd_dec_or_zero(u[6]);
    let qty = nd_dec_or_zero(u[8]);
    &&& b1.symbol@ == b0.symbol@
    &&& b1.timestamp == b0.timestamp
    &&& opt_view(b1.datetime) == opt_view(b0.datetime)
    &&& b1.nonce == b0.nonce
    &&& if nd_u64_or_zero(u[9]) == 0 {
        b1.asks@ == b0.asks@ && nd_side_step(b0.bids@, action, price, qty, true, b1.bids@)
    } else {
        b1.bids@ == b0.bids@ && nd_side_step(b0.asks@, action, price, qty, false, b1.asks@)
    }
}

/// The side of a book that a row changes: the bids for side 0, the asks
/// otherwise.
pub open spec fn nd_changed_side(u: Seq<Json>, b: OrderBook) -> Seq<OrderBookEntry> {
    if nd_u64_or_zero(u[9]) == 0 {
        b.bids@
    } else {
        b.asks@
    }
}

/// The side a book row changes, and what it leaves there. Side 0 changes
/// the bids and leaves the asks; any other side changes the asks and leaves
/// the bids. With price `d` and quantity `q`, an update (action 0) or a new
/// level (action 2) of a quantity other than zero leaves a level at `d`
/// holding `q`; a delete (action 1), or a zero quantity, leaves no level at
/// `d`.
pub proof fn law_row_changes_side(b0: OrderBook, u: Seq<Json>, b1: OrderBook, d: Dec)
    requires
        nd_book_step(b0, u, b1),
        d.parts() == nd_dec_or_zero(u[6]),
    ensures
        nd_u64_or_zero(u[9]) == 0 ==> b1.asks@ == b0.asks@,
        nd_u64_or_zero(u[9]) != 0 ==> b1.bids@ == b0.bids@,
        (nd_u64_or_zero(u[3]) == 0 || nd_u64_or_zero(u[3]) == 2) && nd_dec_or_zero(u[8]).0 != 0 ==> exists|k: int|
            #![trigger nd_changed_side(u, b1)[k]]
            0 <= k < nd_changed_side(u, b1).len() && spec_dec_eq(nd_changed_side(u, b1)[k].price, d)
                && nd_changed_side(u, b1)[k].amount.parts() == nd_dec_or_zero(u[8]),
        (nd_u64_or_zero(u[3]) == 1 || ((nd_u64_or_zero(u[3]) == 0 || nd_u64_or_zero(u[3]) == 2) && nd_dec_or_zero(
            u[8],
        ).0 == 0)) ==> forall|k: int|
            0 <= k < nd_changed_side(u, b1).len() ==> !spec_dec_eq(#[trigger] nd_changed_side(u, b1)[k].price, d),
{
    let action = nd_u64_or_zero(u[3]);
    let price = nd_dec_or_zero(u[6]);
    let q = nd_dec_or_zero(u[8]);
    let desc = nd_u64_or_zero(u[9]) == 0;
    let s = if desc { b0.bids@ } else { b0.asks@ };
    let out = if desc { b1.bids@ } else { b1.asks@ };
    assert(nd_side_step(s, action, price, q, desc, out));
    let e = choose|e: OrderBookEntry| #[trigger] nd_level(e, price, q) && {
        if (action == 0 || action == 2) && q.0 != 0 {
            side_update_ok(s, e, desc, out)
        } else if action == 0 || action == 1 || action == 2 {
            side_delete_ok(s, e.price, desc, out)
        } else {
            sorted_by_price(out, desc) && out.to_multiset() == s.to_multiset()
        }
    };
    assert(e.price == d);
    if (action == 0 || action == 2) && q.0 != 0 {
        law_update_leaves_level(s, e, desc, out);
        let k = choose|k: int| #![trigger out[k]] 0 <= k < out.len() && spec_dec_eq(out[k].price, e.price) && out[k].amount == e.amount;
        assert(nd_changed_side(u, b1) == out);
        assert(0 <= k < out.len() && spec_dec_eq(nd_changed_side(u, b1)[k].price, d) && nd_changed_side(u, b1)[k].amount.parts() == q);
    } else if action == 0 || action == 1 || action == 2 {
        law_delete_removes_price(s, e.price, desc, out);
    }
}

/// The book a row starts from, and the book it leaves.
pub open spec fn nd_book_pair(cache: Seq<(String, OrderBook)>, sym: Seq<char>, u: Seq<Json>, b0: OrderBook, b1: OrderBook) -> bool {
    nd_start(cache, sym, b0) && nd_book_step(b0, u, b1)
}

/// The cache after recording a book under a symbol.
pub open spec fn nd_cached(before: Seq<(String, OrderBook)>, after: Seq<(String, OrderBook)>, sym: Seq<char>, b: OrderBook) -> bool {
    &&& pair_lookup(after, sym) matches Some(c) && book_same(c, b)
    &&& forall|k: Seq<char>| k != sym ==> pair_lookup(after, k) == pair_lookup(before, k)
}

/// A delivering row applied to the cache: the symbol's book changed and
/// cached, and delivered under `orderbook:` and the symbol (a snapshot
/// when the action is 2).
pub open spec fn nd_book_row_ok(ids: Seq<(u32, String)>, row: Json, c0: Seq<(String, OrderBook)>, c1: Seq<(String, OrderBook)>, d: (String, WsMessage)) -> bool {
    row matches Json::Arr(u) && {
        let sym = nd_row_symbol(ids, u@, 7);
        &&& exists|b0: OrderBook, b1: OrderBook| #[trigger] nd_book_pair(c0, sym, u@, b0, b1) && nd_cached(c0, c1, sym, b1)
            && d.0@ == "orderbook:"@ + sym && (d.1 matches WsMessage::OrderBook(e) && e.symbol@ == sym
            && book_same(e.order_book, b1) && e.is_snapshot == (nd_u64_or_zero(u@[3]) == 2))
    }
}

/// Caches `cs[0]`, .., `cs[n]` through which delivering rows `ys` take the
/// cache, with what each delivers.
pub open spec fn nd_chain(ids: Seq<(u32, String)>, ys: Seq<Json>, cs: Seq<Seq<(String, OrderBook)>>, v: Seq<(String, WsMessage)>) -> bool {
    &&& v.len() == ys.len()
    &&& cs.len() == ys.len() + 1
    &&& forall|k: int| 0 <= k < ys.len() ==> nd_book_row_ok(ids, #[trigger] ys[k], cs[k], cs[k + 1], v[k])
}

/// What a level-2 event does: each row of at least ten members naming a
/// subscribed instrument, in turn, changes and delivers its symbol's book;
/// other rows do nothing.
pub open spec fn nd_books_ok(ids: Seq<(u32, String)>, data: Json, c0: Seq<(String, OrderBook)>, c1: Seq<(String, OrderBook)>, v: Seq<(String, WsMessage)>) -> bool {
    match nd_payload(data) {
        Some(Json::Arr(rows)) => {
            let ys = nd_rows(ids, rows@, 10, 7);
            exists|cs: Seq<Seq<(String, OrderBook)>>| #[trigger] nd_chain(ids, ys, cs, v) && cs[0] == c0 && cs[ys.len() as int] == c1
        },
        _ => v.len() == 0 && c1 == c0,
    }
}

impl NdaxWs {
    /// Applies a row's change to a side (see [`nd_side_step`]).
    fn change_side(side: &mut Vec<OrderBookEntry>, action: u64, price: Dec, qty: Dec, desc: bool)
        requires
            prices_wf(old(side)@),
            price.wf(),
        ensures
            nd_side_step(old(side)@, action, price.parts(), qty.parts(), desc, final(side)@),
            prices_wf(final(side)@),
    {
        let e = OrderBookEntry { price, amount: qty };
        let ghost before = side@;
        if (action == 0 || action == 2) && qty.mantissa != 0 {
            apply_level(side, e, desc);
        } else if action == 0 || action == 1 || action == 2 {
            remove_price(side, price, desc);
        } else {
            let mut v: Vec<OrderBookEntry> = Vec::new();
            std::mem::swap(&mut v, side);
            *side = sort_levels(v, desc);
        }
        assert(nd_level(e, price.parts(), qty.parts()));
    }

    /// Applies a delivering row to the cache and returns its delivery.
    fn apply_book_row(&mut self, u: &Vec<Json>, sym: String) -> (r: (String, WsMessage))
        requires
            u@.len() >= 10,
            cache_wf(old(self).orderbook_cache@),
            symbol_of(old(self).instrument_to_symbol@, nd_instrument(u@[7])) == Some(sym@),
        ensures
            nd_book_row_ok(old(self).instrument_to_symbol@, Json::Arr(*u), old(self).orderbook_cache@, final(self).orderbook_cache@, r),
            cache_wf(final(self).orderbook_cache@),
            final(self).request_id == old(self).request_id,
            final(self).symbol_to_instrument == old(self).symbol_to_instrument,
            final(self).instrument_to_symbol == old(self).instrument_to_symbol,
    {
        let ghost c0 = self.orderbook_cache@;
        let action = Self::u64_or_zero(&u[3]);
        let price = Self::dec_or_zero(&u[6]);
        let qty = Self::dec_or_zero(&u[8]);
        let side = Self::u64_or_zero(&u[9]);
        let mut book = match crate::common::find_key(&self.orderbook_cache, sym.as_str()) {
            Some(i) => copy_book(&self.orderbook_cache[i].1),
            None => OrderBook {
                symbol: copy_str(sym.as_str()),
                timestamp: None,
                datetime: None,
                nonce: None,
                bids: Vec::new(),
                asks: Vec::new(),
            },
        };
        let ghost b0 = book;
        assert(entry_wf(c0, sym@));
        assert(nd_start(c0, sym@, b0));
        if side == 0 {
            Self::change_side(&mut book.bids, action, price, qty, true);
        } else {
            Self::change_side(&mut book.asks, action, price, qty, false);
        }
        let ghost b1 = book;
        let cached = copy_book(&book);
        keyed_insert(&mut self.orderbook_cache, copy_str(sym.as_str()), cached);
        proof {
            assert forall|k: Seq<char>| #[trigger] entry_wf(self.orderbook_cache@, k) by {
                if k != sym@ {
                    assert(entry_wf(c0, k));
                }
            }
        }
        let key = concat2("orderbook:", sym.as_str());
        let d = (key, WsMessage::OrderBook(WsOrderBookEvent { symbol: sym, order_book: book, is_snapshot: action == 2 }));
        proof {
            assert(nd_row_symbol(self.instrument_to_symbol@, u@, 7) == sym@);
            assert(nd_book_pair(c0, sym@, u@, b0, b1));
            assert(nd_cached(c0, self.orderbook_cache@, sym@, b1));
            assert(d.1 matches WsMessage::OrderBook(e) && e.symbol@ == sym@ && book_same(e.order_book, b1));
            let row = Json::Arr(*u);
            assert(row matches Json::Arr(w) && w@ == u@);
            assert(nd_book_row_ok(self.instrument_to_symbol@, row, c0, self.orderbook_cache@, d));
        }
        d
    }

    /// What a level-2 event does to the cached books and delivers (see
    /// [`nd_books_ok`]).
    pub fn handle_orderbook_update(&mut self, data: &Json) -> (r: Vec<(String, WsMessage)>)
        requires
            cache_wf(old(self).orderbook_cache@),
        ensures
            nd_books_ok(old(self).instrument_to_symbol@, *data, old(self).orderbook_cache@, final(self).orderbook_cache@, r@),
            cache_wf(final(self).orderbook_cache@),
            final(self).request_id == old(self).request_id,
            final(self).symbol_to_instrument == old(self).symbol_to_instrument,
            final(self).instrument_to_symbol == old(self).instrument_to_symbol,
    {
        let mut out: Vec<(String, WsMessage)> = Vec::new();
        let p = match Self::payload(data) {
            Some(p) => p,
            None => {
                return out;
            },
        };
        let ghost ids = self.instrument_to_symbol@;
        let ghost c0 = self.orderbook_cache@;
        match &p {
            Json::Arr(rows) => {
                let n = rows.len();
                let mut i: usize = 0;
                let ghost mut cs: Seq<Seq<(String, OrderBook)>> = seq![c0];
                while i < n
                    invariant
                        n == rows@.len(),
                        i <= n,
                        ids == self.instrument_to_symbol@,
                        self.request_id == old(self).request_id,
                        self.symbol_to_instrument == old(self).symbol_to_instrument,
                        self.instrument_to_symbol == old(self).instrument_to_symbol,
                        cache_wf(self.orderbook_cache@),
                        nd_chain(ids, nd_rows(ids, rows@.take(i as int), 10, 7), cs, out@),
                        cs[0] == c0,
                        cs[out@.len() as int] == self.orderbook_cache@,
                    decreases n - i,
                {
                    proof {
                        lemma_rows_step(ids, rows@, i as int, 10, 7);
                    }
                    let ghost ys = nd_rows(ids, rows@.take(i as int), 10, 7);
                    match &rows[i] {
                        Json::Arr(u) => {
                            if u.len() >= 10 {
                                let id = Self::u64_or_zero(&u[7]) as u32;
                                match id_get(&self.instrument_to_symbol, id) {
                                    Some(sym) => {
                                        let ghost before = self.orderbook_cache@;
                                        let d = self.apply_book_row(u, sym);
                                        out.push(d);
                                        proof {
                                            let ys2 = ys.push(rows@[i as int]);
                                            let cs2 = cs.push(self.orderbook_cache@);
                                            assert forall|k: int| 0 <= k < ys2.len() implies nd_book_row_ok(ids, #[trigger] ys2[k], cs2[k], cs2[k + 1], out@[k]) by {
                                                if k < ys.len() {
                                                    assert(ys2[k] == ys[k]);
                                                    assert(nd_book_row_ok(ids, ys[k], cs[k], cs[k + 1], out@[k]));
                                                }
                                            }
                                            cs = cs2;
                                        }
                                    },
                                    None => {},
                                }
                            }
                        },
                        _ => {},
                    }
                    i = i + 1;
                }
                assert(rows@.take(n as int) =~= rows@);
            },
            _ => {},
        }
        out
    }
}

/// The kind of a frame: its member `m` read as an unsigned integer, zero
/// when it is not one (3 is an event, 1 a reply).
pub open spec fn nd_msg_type(data: Json) -> u64 {
    match spec_get(data, "m"@) {
        Some(v) => nd_u64_or_zero(v),
        None => 0u64,
    }
}

/// The endpoint a frame names: its member `n` as text, empty when absent.
pub open spec fn nd_endpoint(data: Json) -> Seq<char> {
    match spec_get(data, "n"@) {
        Some(v) => match spec_as_str(v) {
            Some(s) => s,
            None => Seq::<char>::empty(),
        },
        None => Seq::<char>::empty(),
    }
}

/// What a frame does: events of the four market-data endpoints deliver
/// (level-2 events also change the cached books); every other frame does
/// nothing. The instruments and the request id never change.
pub open spec fn nd_message_ok(before: NdaxWs, after: NdaxWs, data: Json, v: Seq<(String, WsMessage)>) -> bool {
    let ids = before.instrument_to_symbol@;
    let ep = nd_endpoint(data);
    let event = nd_msg_type(data) == 3;
    &&& after.request_id == before.request_id
    &&& after.symbol_to_instrument == before.symbol_to_instrument
    &&& after.instrument_to_symbol == before.instrument_to_symbol
    &&& if event && ep == "Level2UpdateEvent"@ {
        nd_books_ok(ids, data, before.orderbook_cache@, after.orderbook_cache@, v)
    } else {
        &&& after.orderbook_cache == before.orderbook_cache
        &&& if event && ep == "Level1UpdateEvent"@ {
            nd_level1_ok(ids, data, v)
        } else if event && ep == "TradeDataUpdateEvent"@ {
            nd_trades_ok(ids, data, v)
        } else if event && ep == "TickerDataUpdateEvent"@ {
            nd_tickers_ok(ids, data, v)
        } else {
            v.len() == 0
        }
    }
}

impl NdaxWs {
    /// Handles a frame from the gateway (see [`nd_message_ok`]); each
    /// delivery names the subscription key that receives it.
    pub fn handle_message(&mut self, data: &Json) -> (r: Vec<(String, WsMessage)>)
        requires
            cache_wf(old(self).orderbook_cache@),
        ensures
            nd_message_ok(*old(self), *final(self), *data, r@),
            cache_wf(final(self).orderbook_cache@),
    {
        let msg_type: u64 = match data.get("m") {
            Some(v) => Self::u64_or_zero(v),
            None => 0,
        };
        let endpoint: &str = match data.get("n") {
            Some(v) => match v.as_str() {
                Some(s) => s,
                None => "",
            },
            None => "",
        };
        proof {
            reveal_strlit("");
        }
        assert(nd_msg_type(*data) == msg_type);
        assert(nd_endpoint(*data) == endpoint@);
        if msg_type == 3 {
            if str_eq(endpoint, "Level2UpdateEvent") {
                self.handle_orderbook_update(data)
            } else if str_eq(endpoint, "Level1UpdateEvent") {
                self.handle_level1_update(data)
            } else if str_eq(endpoint, "TradeDataUpdateEvent") {
                self.handle_trade_update(data)
            } else if str_eq(endpoint, "TickerDataUpdateEvent") {
                self.handle_ticker_update(data)
            } else {
                Vec::new()
            }
        } else {
            Vec::new()
        }
    }
}

/// A unified symbol whose quote is `USDT`, `USD` or `BTC`, and whose base
/// has no `/`, comes back from its market name.
#[verifier::spinoff_prover]
pub proof fn law_symbol_round_trip(base: Seq<char>, quote: Seq<char>)
    requires
        !base.contains('/'),
        quote == "USDT"@ || quote == "USD"@ || quote == "BTC"@,
    ensures
        spec_ndax_parse_symbol(spec_ndax_format_symbol(base + "/"@ + quote)) == base + "/"@ + quote,
{
    reveal_strlit("/");
    reveal_strlit("USDT");
    reveal_strlit("USD");
    reveal_strlit("BTC");
    reveal_strlit("/USDT");
    reveal_strlit("/USD");
    reveal_strlit("/BTC");
    assert(!quote.contains('/')) by {
        if quote.contains('/') {
            let i = choose|i: int| 0 <= i < quote.len() && quote[i] == '/';
            assert(quote[i] != '/');
        }
    }
    assert("/"@ =~= seq!['/']);
    lemma_remove_separator(base, quote, '/');
    let f = base + quote;
    let n = f.len();
    assert(f[n - 1] == quote[quote.len() - 1]);
    if quote == "USDT"@ {
        assert(f.subrange(n - 4, n as int) =~= quote);
        assert(f.subrange(0, n - 4) =~= base);
    } else if quote == "USD"@ {
        assert(!ends_with(f, "USDT"@)) by {
            if ends_with(f, "USDT"@) {
                assert(f.subrange(n - 4, n as int)[3] == f[n - 1]);
            }
        }
        assert(f.subrange(n - 3, n as int) =~= quote);
        assert(f.subrange(0, n - 3) =~= base);
    } else {
        assert(!ends_with(f, "USDT"@)) by {
            if ends_with(f, "USDT"@) {
                assert(f.subrange(n - 4, n as int)[3] == f[n - 1]);
            }
        }
        assert(!ends_with(f, "USD"@)) by {
            if ends_with(f, "USD"@) {
                assert(f.subrange(n - 3, n as int)[2] == f[n - 1]);
            }
        }
        assert(f.subrange(n - 3, n as int) =~= quote);
        assert(f.subrange(0, n - 3) =~= base);
    }
    assert(base + "/"@ + quote =~= base + ("/"@ + quote));
}

} // verus!
