//! Luno streaming: market ids, and the upkeep of a market's order book and
//! trades from stream messages (one market per connection).

use crate::book::{
    apply_level, book_same, cache_wf, copy_book, entry_wf, law_delete_removes_price, law_side_update, law_update_leaves_level, prices_distinct,
    prices_wf, remove_price, side_delete_ok, side_update_ok, sort_levels, sorted_by_price, spec_dec_eq,
};
use crate::common::{keyed_insert, opt_view, pair_lookup};
use crate::dec::{
    dec_div, dec_mul, dec_parse, opt_parts, spec_dec_div, spec_dec_mul, spec_dec_parse,
    text_dec_or_zero, Dec,
};
use crate::json::{get_str_spec, spec_as_i64, spec_get, Json};
use crate::text::{
    all_ascii, concat2, concat3, copy_str, remove_all, remove_char, split_char, split_spec,
    lemma_split_absent, lemma_split_first, str_eq, strip_prefix, substring, byte_len, byte3_split_at,
    byte3_split, utf8_len, starts_with, lemma_utf8_len_join, lemma_utf8_len_ascii,
};
use crate::time::{iso8601_or_empty, iso8601_or_empty_spec};
use crate::types::{OrderBook, OrderBookEntry, Trade};
use crate::ws::{WsMessage, WsOrderBookEvent, WsTradeEvent};
use vstd::prelude::*;

verus! {

/// Stream address; a market's stream is under `/` and its id.
pub const LUNO_WS_BASE_URL: &'static str = "wss://ws.luno.com/api/1/stream";

/// The Luno stream client: credentials, the market of the open stream, and
/// the order book kept per market.
pub struct LunoWs {
    pub api_key: Option<String>,
    pub api_secret: Option<String>,
    pub current_market: Option<String>,
    pub orderbook_cache: Vec<(String, OrderBook)>,
}

/// The market id of a unified symbol: base and quote joined, `BTC` written
/// `XBT`; other texts without their `/`.
pub open spec fn spec_luno_format_symbol(s: Seq<char>) -> Seq<char> {
    let p = split_spec(s, '/');
    if p.len() == 2 {
        (if p[0] == "BTC"@ { "XBT"@ } else { p[0] }) + p[1]
    } else {
        remove_all(s, '/')
    }
}

/// The symbol of a known market.
pub open spec fn luno_known(m: Seq<char>) -> Option<Seq<char>> {
    if m == "XBTZAR"@ {
        Some("BTC/ZAR"@)
    } else if m == "ETHZAR"@ {
        Some("ETH/ZAR"@)
    } else if m == "XBTEUR"@ {
        Some("BTC/EUR"@)
    } else if m == "ETHEUR"@ {
        Some("ETH/EUR"@)
    } else if m == "XBTNGN"@ {
        Some("BTC/NGN"@)
    } else if m == "ETHNGN"@ {
        Some("ETH/NGN"@)
    } else if m == "XBTUGX"@ {
        Some("BTC/UGX"@)
    } else if m == "XBTZMW"@ {
        Some("BTC/ZMW"@)
    } else if m == "XBTIDR"@ {
        Some("BTC/IDR"@)
    } else if m == "XBTMYR"@ {
        Some("BTC/MYR"@)
    } else {
        None
    }
}

/// The unified symbol of a market id: a known market's symbol; `BTC/` and
/// the rest after `XBT`; when the id takes at least six bytes, the
/// characters of its first three bytes, `/` and the rest; the id itself
/// otherwise.
pub open spec fn spec_luno_parse_symbol(m: Seq<char>) -> Seq<char> {
    match luno_known(m) {
        Some(u) => u,
        None => if 3 <= m.len() && m.subrange(0, 3) == "XBT"@ {
            "BTC/"@ + m.subrange(3, m.len() as int)
        } else if utf8_len(m) >= 6 {
            match byte3_split(m) {
                Some(k) => m.take(k) + "/"@ + m.skip(k),
                None => m,
            }
        } else {
            m
        },
    }
}

/// Whether a market id can be read: it is known, begins with `XBT`, takes
/// fewer than six bytes, or a character ends at its third byte (the split
/// the reading makes).
pub open spec fn luno_id_readable(m: Seq<char>) -> bool {
    ||| luno_known(m) is Some
    ||| (3 <= m.len() && m.subrange(0, 3) == "XBT"@)
    ||| utf8_len(m) < 6
    ||| byte3_split(m) is Some
}

/// Whether a market id is one of the known ones.
fn luno_known_exec(m: &str) -> (r: bool)
    ensures
        r == luno_known(m@) is Some,
{
    str_eq(m, "XBTZAR") || str_eq(m, "ETHZAR") || str_eq(m, "XBTEUR") || str_eq(m, "ETHEUR")
        || str_eq(m, "XBTNGN") || str_eq(m, "ETHNGN") || str_eq(m, "XBTUGX") || str_eq(m, "XBTZMW")
        || str_eq(m, "XBTIDR") || str_eq(m, "XBTMYR")
}

/// A level of a snapshot side: an object whose `price` and `volume` are
/// texts that read as numbers.
pub open spec fn luno_level(j: Json) -> Option<((int, int), (int, int))> {
    match (get_str_spec(j, "price"@), get_str_spec(j, "volume"@)) {
        (Some(p), Some(v)) => match (spec_dec_parse(p), spec_dec_parse(v)) {
            (Some(a), Some(b)) => Some((a, b)),
            _ => None,
        },
        _ => None,
    }
}

/// The readable levels of a list.
pub open spec fn luno_levels(items: Seq<Json>) -> Seq<Json> {
    items.filter(|j: Json| luno_level(j) is Some)
}

/// Levels read, in order, from a snapshot side.
pub open spec fn luno_side_read(o: Option<Json>, es: Seq<OrderBookEntry>) -> bool {
    match o {
        Some(Json::Arr(items)) => {
            let rows = luno_levels(items@);
            &&& es.len() == rows.len()
            &&& forall|k: int| 0 <= k < es.len() ==> (#[trigger] luno_level(rows[k])) == Some((es[k].price.parts(), es[k].amount.parts()))
        },
        _ => es.len() == 0,
    }
}

/// A side of a snapshot: the readable levels, ordered by price (falling for
/// bids).
pub open spec fn luno_side_ok(o: Option<Json>, desc: bool, es: Seq<OrderBookEntry>) -> bool {
    exists|read: Seq<OrderBookEntry>| #[trigger] luno_side_read(o, read) && sorted_by_price(es, desc) && es.to_multiset() == read.to_multiset()
}

/// The level change a message carries: an object with text `order_id`,
/// `price`, `volume` and `type`, whose price and volume read; with whether
/// it names the bids (`BID`) or the asks (`ASK`).
pub open spec fn luno_create(data: Json) -> Option<((int, int), (int, int), Seq<char>)> {
    match spec_get(data, "create_update"@) {
        Some(c) => match (get_str_spec(c, "order_id"@), get_str_spec(c, "price"@), get_str_spec(c, "volume"@), get_str_spec(c, "type"@)) {
            (Some(_), Some(p), Some(v), Some(t)) => match (spec_dec_parse(p), spec_dec_parse(v)) {
                (Some(a), Some(b)) => Some((a, b, t)),
                _ => None,
            },
            _ => None,
        },
        None => None,
    }
}

/// The price a message removes: a `delete_update` object with text
/// `order_id` and a readable text `price`.
pub open spec fn luno_delete(data: Json) -> Option<(int, int)> {
    match spec_get(data, "delete_update"@) {
        Some(d) => match (get_str_spec(d, "order_id"@), get_str_spec(d, "price"@)) {
            (Some(_), Some(p)) => spec_dec_parse(p),
            _ => None,
        },
        None => None,
    }
}

/// A book after an update message: the level change applied to its side,
/// then the removal of a price from both sides.
pub open spec fn luno_update_ok(before: OrderBook, data: Json, after: OrderBook) -> bool {
    exists|b1: Seq<OrderBookEntry>, a1: Seq<OrderBookEntry>| {
        &&& #[trigger] luno_create_step(before, data, b1, a1)
        &&& match luno_delete(data) {
            Some(p) => exists|d: Dec| d.parts() == p && d.wf() && side_delete_ok(b1, d, true, after.bids@) && side_delete_ok(a1, d, false, after.asks@),
            None => after.bids@ == b1 && after.asks@ == a1,
        }
    } && after.symbol@ == before.symbol@ && after.timestamp == before.timestamp && opt_view(after.datetime) == opt_view(before.datetime)
        && after.nonce == before.nonce
}

/// The sides after a message's level change.
pub open spec fn luno_create_step(before: OrderBook, data: Json, b1: Seq<OrderBookEntry>, a1: Seq<OrderBookEntry>) -> bool {
    match luno_create(data) {
        Some((p, v, t)) => if t == "BID"@ {
            a1 == before.asks@ && exists|e: OrderBookEntry| e.price.parts() == p && e.amount.parts() == v && e.price.wf() && side_update_ok(before.bids@, e, true, b1)
        } else if t == "ASK"@ {
            b1 == before.bids@ && exists|e: OrderBookEntry| e.price.parts() == p && e.amount.parts() == v && e.price.wf() && side_update_ok(before.asks@, e, false, a1)
        } else {
            b1 == before.bids@ && a1 == before.asks@
        },
        None => b1 == before.bids@ && a1 == before.asks@,
    }
}


/// A trade from an entry of `trade_updates`: volume `base`, price
/// `counter / base` (zero when `base` is zero), id `order_id`.
pub open spec fn luno_trade_ok(symbol: Seq<char>, j: Json, t: Trade) -> bool {
    let base = match get_str_spec(j, "base"@) {
        Some(x) => text_dec_or_zero(x),
        None => (0int, 0int),
    };
    let counter = match get_str_spec(j, "counter"@) {
        Some(x) => text_dec_or_zero(x),
        None => (0int, 0int),
    };
    let price = if base.0 != 0 {
        match spec_dec_div(counter, base) {
            Some(q) => q,
            None => (0int, 0int),
        }
    } else {
        (0int, 0int)
    };
    let ts = match spec_get(j, "timestamp"@) {
        Some(v) => spec_as_i64(v),
        None => None,
    };
    &&& t.id@ == match get_str_spec(j, "order_id"@) {
        Some(x) => x,
        None => Seq::<char>::empty(),
    }
    &&& t.symbol@ == symbol
    &&& t.amount.parts() == base
    &&& t.price.parts() == price
    &&& opt_parts(t.cost) == spec_dec_mul(price, base)
    &&& match ts {
        Some(x) => t.timestamp matches Some(y) && y as int == x && opt_view(t.datetime) == Some(iso8601_or_empty_spec(x)),
        None => t.timestamp is None && t.datetime is None,
    }
    &&& t.order is None && t.side is None && t.taker_or_maker is None && t.trade_type is None && t.fee is None
}

impl LunoWs {
    /// A client without credentials or an open stream.
    pub fn new() -> (r: LunoWs)
        ensures
            r.api_key is None,
            r.api_secret is None,
            r.current_market is None,
            r.orderbook_cache@.len() == 0,
    {
        LunoWs { api_key: None, api_secret: None, current_market: None, orderbook_cache: Vec::new() }
    }

    /// A client with credentials.
    pub fn with_credentials(api_key: String, api_secret: String) -> (r: LunoWs)
        ensures
            r.api_key == Some(api_key),
            r.api_secret == Some(api_secret),
            r.current_market is None,
            r.orderbook_cache@.len() == 0,
    {
        LunoWs { api_key: Some(api_key), api_secret: Some(api_secret), current_market: None, orderbook_cache: Vec::new() }
    }

    /// The market id of a unified symbol (see [`spec_luno_format_symbol`]).
    pub fn format_symbol(&self, symbol: &str) -> (r: String)
        ensures
            r@ == spec_luno_format_symbol(symbol@),
    {
        let parts = split_char(symbol, '/');
        if parts.len() == 2 {
            let base = if str_eq(parts[0].as_str(), "BTC") { copy_str("XBT") } else { copy_str(parts[0].as_str()) };
            concat2(base.as_str(), parts[1].as_str())
        } else {
            remove_char(symbol, '/')
        }
    }

    /// Whether a market id can be read (see [`luno_id_readable`]).
    pub fn id_readable(m: &str) -> (r: bool)
        ensures
            r == luno_id_readable(m@),
    {
        proof {
            reveal_strlit("XBT");
        }
        luno_known_exec(m) || starts_with(m, "XBT") || byte_len(m) < 6 || byte3_split_at(m).is_some()
    }

    /// The unified symbol of a market id (see [`spec_luno_parse_symbol`]);
    /// the id must be one that can be read.
    pub fn parse_symbol(m: &str) -> (r: String)
        requires
            luno_id_readable(m@),
        ensures
            r@ == spec_luno_parse_symbol(m@),
    {
        if str_eq(m, "XBTZAR") {
            return copy_str("BTC/ZAR");
        } else if str_eq(m, "ETHZAR") {
            return copy_str("ETH/ZAR");
        } else if str_eq(m, "XBTEUR") {
            return copy_str("BTC/EUR");
        } else if str_eq(m, "ETHEUR") {
            return copy_str("ETH/EUR");
        } else if str_eq(m, "XBTNGN") {
            return copy_str("BTC/NGN");
        } else if str_eq(m, "ETHNGN") {
            return copy_str("ETH/NGN");
        } else if str_eq(m, "XBTUGX") {
            return copy_str("BTC/UGX");
        } else if str_eq(m, "XBTZMW") {
            return copy_str("BTC/ZMW");
        } else if str_eq(m, "XBTIDR") {
            return copy_str("BTC/IDR");
        } else if str_eq(m, "XBTMYR") {
            return copy_str("BTC/MYR");
        }
        proof {
            reveal_strlit("XBT");
        }
        match strip_prefix(m, "XBT") {
            Some(q) => concat2("BTC/", q.as_str()),
            None => {
                let n = m.unicode_len();
                if byte_len(m) >= 6 {
                    match byte3_split_at(m) {
                        Some(k) => {
                            let base = substring(m, 0, k);
                            let quote = substring(m, k, n);
                            assert(quote@ =~= m@.skip(k as int));
                            concat3(base.as_str(), "/", quote.as_str())
                        },
                        None => copy_str(m),
                    }
                } else {
                    copy_str(m)
                }
            },
        }
    }

    /// The address of a market's stream.
    pub fn market_url(market_id: &str) -> (r: String)
        ensures
            r@ == "wss://ws.luno.com/api/1/stream/"@ + market_id@,
    {
        concat2("wss://ws.luno.com/api/1/stream/", market_id)
    }

    /// Whether watching a market needs a new stream: it is not the open one.
    pub fn needs_connection(&self, market_id: &str) -> (r: bool)
        ensures
            r == (opt_view(self.current_market) != Some(market_id@)),
    {
        match &self.current_market {
            Some(m) => !str_eq(m.as_str(), market_id),
            None => true,
        }
    }

    /// Records the market of the open stream.
    pub fn set_current_market(&mut self, market_id: String)
        ensures
            final(self).current_market == Some(market_id),
            final(self).orderbook_cache == old(self).orderbook_cache,
            final(self).api_key == old(self).api_key,
            final(self).api_secret == old(self).api_secret,
    {
        self.current_market = Some(market_id);
    }

    /// Applies a level change to a side (see [`side_update_ok`]).
    pub fn update_orderbook_side(side: &mut Vec<OrderBookEntry>, entry: OrderBookEntry, is_bid: bool)
        requires
            prices_wf(old(side)@),
            entry.price.wf(),
        ensures
            side_update_ok(old(side)@, entry, is_bid, final(side)@),
            prices_wf(final(side)@),
    {
        apply_level(side, entry, is_bid);
    }

    /// Removes every level at a price and sorts the side again.
    pub fn delete_price(side: &mut Vec<OrderBookEntry>, p: Dec, is_bid: bool)
        requires
            prices_wf(old(side)@),
            p.wf(),
        ensures
            side_delete_ok(old(side)@, p, is_bid, final(side)@),
            prices_wf(final(side)@),
    {
        remove_price(side, p, is_bid);
    }
}


/// Whether a message is a snapshot: it has both sides.
pub open spec fn luno_is_snapshot(data: Json) -> bool {
    spec_get(data, "asks"@) is Some && spec_get(data, "bids"@) is Some
}

/// The cache after recording a book under a market.
pub open spec fn luno_cached(before: Seq<(String, OrderBook)>, after: Seq<(String, OrderBook)>, symbol: Seq<char>, book: OrderBook) -> bool {
    &&& pair_lookup(after, symbol) matches Some(c) && book_same(c, book)
    &&& forall|k: Seq<char>| k != symbol ==> pair_lookup(after, k) == pair_lookup(before, k)
}

/// What a book message does to a market's book: a snapshot replaces it; an
/// update changes the cached book, when there is one.
pub open spec fn luno_book_msg_ok(before: Seq<(String, OrderBook)>, after: Seq<(String, OrderBook)>, data: Json, symbol: Seq<char>, r: Option<WsOrderBookEvent>) -> bool {
    if luno_is_snapshot(data) {
        &&& r matches Some(e)
        &&& e.is_snapshot && e.symbol@ == symbol && e.order_book.symbol@ == symbol
        &&& luno_side_ok(spec_get(data, "bids"@), true, e.order_book.bids@)
        &&& luno_side_ok(spec_get(data, "asks"@), false, e.order_book.asks@)
        &&& e.order_book.timestamp == match spec_get(data, "timestamp"@) {
            Some(v) => match spec_as_i64(v) {
                Some(t) => Some(t as i64),
                None => None,
            },
            None => None,
        }
        &&& e.order_book.datetime is None && e.order_book.nonce is None
        &&& luno_cached(before, after, symbol, e.order_book)
    } else {
        match pair_lookup(before, symbol) {
            None => r is None && after == before,
            Some(b) => {
                &&& r matches Some(e)
                &&& !e.is_snapshot && e.symbol@ == symbol
                &&& luno_update_ok(b, data, e.order_book)
                &&& luno_cached(before, after, symbol, e.order_book)
            },
        }
    }
}

/// A removal: with a book cached for the symbol, a `delete_update` whose
/// price `d` reads, and no level change, leaves no level at price `d` on
/// either side, and keeps every level at another price.
pub proof fn law_delete_update_removes_price(
    before: Seq<(String, OrderBook)>,
    after: Seq<(String, OrderBook)>,
    data: Json,
    symbol: Seq<char>,
    r: Option<WsOrderBookEvent>,
    b: OrderBook,
    d: Dec,
)
    requires
        luno_book_msg_ok(before, after, data, symbol, r),
        !luno_is_snapshot(data),
        pair_lookup(before, symbol) == Some(b),
        luno_create(data) is None,
        luno_delete(data) == Some(d.parts()),
    ensures
        r is Some,
        forall|k: int| 0 <= k < r->0.order_book.bids@.len() ==> !spec_dec_eq(#[trigger] r->0.order_book.bids@[k].price, d),
        forall|k: int| 0 <= k < r->0.order_book.asks@.len() ==> !spec_dec_eq(#[trigger] r->0.order_book.asks@[k].price, d),
        forall|x: OrderBookEntry| !spec_dec_eq(x.price, d) ==> #[trigger] r->0.order_book.bids@.to_multiset().count(x)
            == b.bids@.to_multiset().count(x),
        forall|x: OrderBookEntry| !spec_dec_eq(x.price, d) ==> #[trigger] r->0.order_book.asks@.to_multiset().count(x)
            == b.asks@.to_multiset().count(x),
{
    let ev = r->0;
    assert(luno_update_ok(b, data, ev.order_book));
    let (b1, a1) = choose|b1: Seq<OrderBookEntry>, a1: Seq<OrderBookEntry>| {
        &&& #[trigger] luno_create_step(b, data, b1, a1)
        &&& match luno_delete(data) {
            Some(p) => exists|x: Dec| x.parts() == p && x.wf() && side_delete_ok(b1, x, true, ev.order_book.bids@) && side_delete_ok(a1, x, false, ev.order_book.asks@),
            None => ev.order_book.bids@ == b1 && ev.order_book.asks@ == a1,
        }
    };
    assert(b1 == b.bids@ && a1 == b.asks@);
    let x = choose|x: Dec| x.parts() == d.parts() && x.wf() && side_delete_ok(b1, x, true, ev.order_book.bids@) && side_delete_ok(a1, x, false, ev.order_book.asks@);
    assert(x == d);
    law_delete_removes_price(b1, x, true, ev.order_book.bids@);
    law_delete_removes_price(a1, x, false, ev.order_book.asks@);
}

/// A level change on the asks: with a book cached for the symbol, a
/// `create_update` of type `ASK` whose price `d` and volume `v` read, and no
/// removal, leaves the bids as they were and changes the asks. A volume
/// other than zero leaves a level at price `d` holding `v`; a zero volume, on
/// asks with distinct prices, leaves no level at price `d`.
pub proof fn law_ask_update_changes_asks(
    before: Seq<(String, OrderBook)>,
    after: Seq<(String, OrderBook)>,
    data: Json,
    symbol: Seq<char>,
    r: Option<WsOrderBookEvent>,
    b: OrderBook,
    d: Dec,
    v: (int, int),
)
    requires
        luno_book_msg_ok(before, after, data, symbol, r),
        !luno_is_snapshot(data),
        pair_lookup(before, symbol) == Some(b),
        luno_create(data) == Some((d.parts(), v, "ASK"@)),
        luno_delete(data) is None,
    ensures
        r is Some,
        r->0.order_book.bids@ == b.bids@,
        v.0 != 0 ==> exists|k: int|
            #![trigger r->0.order_book.asks@[k]]
            0 <= k < r->0.order_book.asks@.len() && spec_dec_eq(r->0.order_book.asks@[k].price, d)
                && r->0.order_book.asks@[k].amount.parts() == v,
        v.0 == 0 && prices_distinct(b.asks@) ==> forall|k: int|
            0 <= k < r->0.order_book.asks@.len() ==> !spec_dec_eq(#[trigger] r->0.order_book.asks@[k].price, d),
{
    reveal_strlit("BID");
    reveal_strlit("ASK");
    assert("BID"@[0] != "ASK"@[0]);
    let ev = r->0;
    let (b1, a1) = choose|b1: Seq<OrderBookEntry>, a1: Seq<OrderBookEntry>| {
        &&& #[trigger] luno_create_step(b, data, b1, a1)
        &&& match luno_delete(data) {
            Some(p) => exists|x: Dec| x.parts() == p && x.wf() && side_delete_ok(b1, x, true, ev.order_book.bids@) && side_delete_ok(a1, x, false, ev.order_book.asks@),
            None => ev.order_book.bids@ == b1 && ev.order_book.asks@ == a1,
        }
    };
    assert(luno_update_ok(b, data, ev.order_book));
    assert(luno_create_step(b, data, b1, a1));
    assert(ev.order_book.bids@ == b1 && ev.order_book.asks@ == a1);
    assert(exists|e: OrderBookEntry| e.price.parts() == d.parts() && e.amount.parts() == v && e.price.wf() && side_update_ok(b.asks@, e, false, a1));
    let e = choose|e: OrderBookEntry| e.price.parts() == d.parts() && e.amount.parts() == v && e.price.wf() && side_update_ok(b.asks@, e, false, a1);
    assert(e.price == d);
    if v.0 != 0 {
        law_update_leaves_level(b.asks@, e, false, a1);
    } else if prices_distinct(b.asks@) {
        law_side_update(b.asks@, e, false, a1);
    }
}

/// A level change on the bids: with a book cached for the symbol, a
/// `create_update` of type `BID` whose price `d` and volume `v` read, and no
/// removal, leaves the asks as they were and changes the bids. A volume
/// other than zero leaves a level at price `d` holding `v`; a zero volume, on
/// bids with distinct prices, leaves no level at price `d`.
pub proof fn law_bid_update_changes_bids(
    before: Seq<(String, OrderBook)>,
    after: Seq<(String, OrderBook)>,
    data: Json,
    symbol: Seq<char>,
    r: Option<WsOrderBookEvent>,
    b: OrderBook,
    d: Dec,
    v: (int, int),
)
    requires
        luno_book_msg_ok(before, after, data, symbol, r),
        !luno_is_snapshot(data),
        pair_lookup(before, symbol) == Some(b),
        luno_create(data) == Some((d.parts(), v, "BID"@)),
        luno_delete(data) is None,
    ensures
        r is Some,
        r->0.order_book.asks@ == b.asks@,
        v.0 != 0 ==> exists|k: int|
            #![trigger r->0.order_book.bids@[k]]
            0 <= k < r->0.order_book.bids@.len() && spec_dec_eq(r->0.order_book.bids@[k].price, d)
                && r->0.order_book.bids@[k].amount.parts() == v,
        v.0 == 0 && prices_distinct(b.bids@) ==> forall|k: int|
            0 <= k < r->0.order_book.bids@.len() ==> !spec_dec_eq(#[trigger] r->0.order_book.bids@[k].price, d),
{
    reveal_strlit("BID");
    reveal_strlit("ASK");
    assert("BID"@[0] != "ASK"@[0]);
    let ev = r->0;
    let (b1, a1) = choose|b1: Seq<OrderBookEntry>, a1: Seq<OrderBookEntry>| {
        &&& #[trigger] luno_create_step(b, data, b1, a1)
        &&& match luno_delete(data) {
            Some(p) => exists|x: Dec| x.parts() == p && x.wf() && side_delete_ok(b1, x, true, ev.order_book.bids@) && side_delete_ok(a1, x, false, ev.order_book.asks@),
            None => ev.order_book.bids@ == b1 && ev.order_book.asks@ == a1,
        }
    };
    assert(luno_update_ok(b, data, ev.order_book));
    assert(luno_create_step(b, data, b1, a1));
    assert(ev.order_book.bids@ == b1 && ev.order_book.asks@ == a1);
    assert(exists|e: OrderBookEntry| e.price.parts() == d.parts() && e.amount.parts() == v && e.price.wf() && side_update_ok(b.bids@, e, true, b1));
    let e = choose|e: OrderBookEntry| e.price.parts() == d.parts() && e.amount.parts() == v && e.price.wf() && side_update_ok(b.bids@, e, true, b1);
    assert(e.price == d);
    if v.0 != 0 {
        law_update_leaves_level(b.bids@, e, true, b1);
    } else if prices_distinct(b.bids@) {
        law_side_update(b.bids@, e, true, b1);
    }
}

impl LunoWs {
    /// The readable levels of a snapshot side, in order.
    fn read_side(o: Option<&Json>) -> (r: Vec<OrderBookEntry>)
        ensures
            luno_side_read(match o {
                Some(j) => Some(*j),
                None => None,
            }, r@),
            prices_wf(r@),
    {
        let mut out: Vec<OrderBookEntry> = Vec::new();
        let items = match o {
            Some(Json::Arr(items)) => items,
            _ => {
                return out;
            },
        };
        let n = items.len();
        let mut i: usize = 0;
        while i < n
            invariant
                n == items@.len(),
                i <= n,
                out@.len() == luno_levels(items@.take(i as int)).len(),
                forall|k: int| 0 <= k < out@.len() ==> (#[trigger] luno_level(luno_levels(items@.take(i as int))[k])) == Some((out@[k].price.parts(), out@[k].amount.parts())),
                prices_wf(out@),
            decreases n - i,
        {
            let ghost pre = items@.take(i as int);
            proof {
                assert(items@.take(i + 1).drop_last() =~= pre);
                assert(items@.take(i + 1).last() == items@[i as int]);
                reveal_with_fuel(Seq::<_>::filter, 1);
            }
            let it = &items[i];
            let mut e: Option<OrderBookEntry> = None;
            match (it.get("price"), it.get("volume")) {
                (Some(p), Some(v)) => match (p.as_str(), v.as_str()) {
                    (Some(ps), Some(vs)) => match (dec_parse(ps), dec_parse(vs)) {
                        (Some(pd), Some(vd)) => {
                            e = Some(OrderBookEntry { price: pd, amount: vd });
                        },
                        _ => {},
                    },
                    _ => {},
                },
                _ => {},
            }
            match e {
                Some(x) => {
                    out.push(x);
                    proof {
                        assert(luno_levels(items@.take(i + 1)) == luno_levels(pre).push(items@[i as int]));
                    }
                },
                None => {
                    proof {
                        assert(luno_levels(items@.take(i + 1)) == luno_levels(pre));
                    }
                },
            }
            i = i + 1;
        }
        proof {
            assert(items@.take(n as int) =~= items@);
        }
        out
    }

    /// The level change a message carries (see [`luno_create`]).
    fn create_level(data: &Json) -> (r: Option<(OrderBookEntry, String)>)
        ensures
            match r {
                Some((e, t)) => luno_create(*data) == Some((e.price.parts(), e.amount.parts(), t@)) && e.price.wf(),
                None => luno_create(*data) is None,
            },
    {
        let c = match data.get("create_update") {
            Some(c) => c,
            None => {
                return None;
            },
        };
        match (c.get("order_id"), c.get("price"), c.get("volume"), c.get("type")) {
            (Some(o), Some(p), Some(v), Some(t)) => match (o.as_str(), p.as_str(), v.as_str(), t.as_str()) {
                (Some(_), Some(ps), Some(vs), Some(ts)) => match (dec_parse(ps), dec_parse(vs)) {
                    (Some(pd), Some(vd)) => Some((OrderBookEntry { price: pd, amount: vd }, copy_str(ts))),
                    _ => None,
                },
                _ => None,
            },
            _ => None,
        }
    }

    /// The price a message removes (see [`luno_delete`]).
    fn delete_level(data: &Json) -> (r: Option<Dec>)
        ensures
            match r {
                Some(d) => luno_delete(*data) == Some(d.parts()) && d.wf(),
                None => luno_delete(*data) is None,
            },
    {
        let d = match data.get("delete_update") {
            Some(d) => d,
            None => {
                return None;
            },
        };
        match (d.get("order_id"), d.get("price")) {
            (Some(o), Some(p)) => match (o.as_str(), p.as_str()) {
                (Some(_), Some(ps)) => dec_parse(ps),
                _ => None,
            },
            _ => None,
        }
    }

    /// Handles a book message for a market (see [`luno_book_msg_ok`]).
    pub fn handle_orderbook(&mut self, data: &Json, symbol: &str) -> (r: Option<WsOrderBookEvent>)
        requires
            cache_wf(old(self).orderbook_cache@),
        ensures
            cache_wf(final(self).orderbook_cache@),
            luno_book_msg_ok(old(self).orderbook_cache@, final(self).orderbook_cache@, *data, symbol@, r),
            final(self).current_market == old(self).current_market,
            final(self).api_key == old(self).api_key,
            final(self).api_secret == old(self).api_secret,
    {
        let ghost before = self.orderbook_cache@;
        let is_snapshot = data.get("asks").is_some() && data.get("bids").is_some();
        if is_snapshot {
            let read_bids = Self::read_side(data.get("bids"));
            let read_asks = Self::read_side(data.get("asks"));
            let ghost rb = read_bids@;
            let ghost ra = read_asks@;
            let bids = sort_levels(read_bids, true);
            let asks = sort_levels(read_asks, false);
            let timestamp = match data.get("timestamp") {
                Some(v) => v.as_i64(),
                None => None,
            };
            let book = OrderBook { symbol: copy_str(symbol), timestamp, datetime: None, nonce: None, bids, asks };
            proof {
                assert(luno_side_read(spec_get(*data, "bids"@), rb));
                assert(luno_side_read(spec_get(*data, "asks"@), ra));
            }
            let cached = copy_book(&book);
            keyed_insert(&mut self.orderbook_cache, copy_str(symbol), cached);
            proof {
                assert forall|k: Seq<char>| #[trigger] entry_wf(self.orderbook_cache@, k) by {
                    if k != symbol@ {
                        assert(pair_lookup(self.orderbook_cache@, k) == pair_lookup(before, k));
                        assert(entry_wf(before, k));
                    }
                }
            }
            return Some(WsOrderBookEvent { symbol: copy_str(symbol), order_book: book, is_snapshot: true });
        }
        let idx = match crate::common::find_key(&self.orderbook_cache, symbol) {
            Some(i) => i,
            None => {
                return None;
            },
        };
        let ghost old_book = self.orderbook_cache@[idx as int].1;
        let mut book = copy_book(&self.orderbook_cache[idx].1);
        proof {
            assert(pair_lookup(before, symbol@) == Some(old_book));
            assert(entry_wf(before, symbol@));
        }
        match Self::create_level(data) {
            Some((e, t)) => {
                if str_eq(t.as_str(), "BID") {
                    Self::update_orderbook_side(&mut book.bids, e, true);
                } else if str_eq(t.as_str(), "ASK") {
                    Self::update_orderbook_side(&mut book.asks, e, false);
                }
            },
            None => {},
        }
        let ghost b1 = book.bids@;
        let ghost a1 = book.asks@;
        proof {
            reveal_strlit("BID");
            reveal_strlit("ASK");
            assert("BID"@[0] != "ASK"@[0]);
            assert(luno_create_step(old_book, *data, b1, a1));
        }
        match Self::delete_level(data) {
            Some(p) => {
                Self::delete_price(&mut book.bids, p, true);
                Self::delete_price(&mut book.asks, p, false);
            },
            None => {},
        }
        proof {
            assert(luno_update_ok(old_book, *data, book));
        }
        let cached = copy_book(&book);
        keyed_insert(&mut self.orderbook_cache, copy_str(symbol), cached);
        proof {
            assert forall|k: Seq<char>| #[trigger] entry_wf(self.orderbook_cache@, k) by {
                if k != symbol@ {
                    assert(pair_lookup(self.orderbook_cache@, k) == pair_lookup(before, k));
                    assert(entry_wf(before, k));
                }
            }
        }
        Some(WsOrderBookEvent { symbol: copy_str(symbol), order_book: book, is_snapshot: false })
    }

    /// A trade from an entry of `trade_updates` (see [`luno_trade_ok`]).
    pub fn parse_trade(symbol: &str, j: &Json) -> (r: Trade)
        ensures
            luno_trade_ok(symbol@, *j, r),
    {
        let base = match j.get("base") {
            Some(v) => match v.as_str() {
                Some(x) => crate::dec::parse_or_zero(x),
                None => Dec::zero(),
            },
            None => Dec::zero(),
        };
        let counter = match j.get("counter") {
            Some(v) => match v.as_str() {
                Some(x) => crate::dec::parse_or_zero(x),
                None => Dec::zero(),
            },
            None => Dec::zero(),
        };
        let price = if base.mantissa != 0 {
            match dec_div(counter, base) {
                Some(q) => q,
                None => Dec::zero(),
            }
        } else {
            Dec::zero()
        };
        let ts = match j.get("timestamp") {
            Some(v) => v.as_i64(),
            None => None,
        };
        let id = match j.get("order_id") {
            Some(v) => match v.as_str() {
                Some(x) => copy_str(x),
                None => String::new(),
            },
            None => String::new(),
        };
        Trade {
            id,
            order: None,
            timestamp: ts,
            datetime: match ts {
                Some(t) => Some(iso8601_or_empty(t)),
                None => None,
            },
            symbol: copy_str(symbol),
            trade_type: None,
            side: None,
            taker_or_maker: None,
            price,
            amount: base,
            cost: dec_mul(price, base),
            fee: None,
        }
    }

    /// Trades of a message's `trade_updates`, one per entry; `None` when
    /// there are none.
    pub fn handle_trades(data: &Json, symbol: &str) -> (r: Option<WsTradeEvent>)
        ensures
            match spec_get(*data, "trade_updates"@) {
                Some(Json::Arr(items)) => if items@.len() > 0 {
                    r matches Some(e) && e.symbol@ == symbol@ && e.trades@.len() == items@.len()
                        && forall|k: int| 0 <= k < items@.len() ==> luno_trade_ok(symbol@, #[trigger] items@[k], e.trades@[k])
                } else {
                    r is None
                },
                _ => r is None,
            },
    {
        let items = match data.get("trade_updates") {
            Some(Json::Arr(items)) => items,
            _ => {
                return None;
            },
        };
        let mut trades: Vec<Trade> = Vec::new();
        let n = items.len();
        let mut i: usize = 0;
        while i < n
            invariant
                n == items@.len(),
                i <= n,
                trades@.len() == i,
                forall|k: int| 0 <= k < i ==> luno_trade_ok(symbol@, #[trigger] items@[k], trades@[k]),
            decreases n - i,
        {
            let t = Self::parse_trade(symbol, &items[i]);
            trades.push(t);
            i = i + 1;
        }
        if trades.len() == 0 {
            return None;
        }
        Some(WsTradeEvent { symbol: copy_str(symbol), trades })
    }

    /// Handles a stream message of the open market: messages with a
    /// `sequence` carry book changes (when they hold a side) and trades
    /// (when they hold some), each delivered under the key `orderbook:` or
    /// `trades:` and the market's symbol. Nothing happens without an open
    /// market.
    pub fn handle_message(&mut self, data: &Json) -> (r: Vec<(String, WsMessage)>)
        requires
            cache_wf(old(self).orderbook_cache@),
            old(self).current_market matches Some(m) ==> luno_id_readable(m@),
        ensures
            cache_wf(final(self).orderbook_cache@),
            final(self).current_market == old(self).current_market,
            match old(self).current_market {
                None => r@.len() == 0 && final(self).orderbook_cache == old(self).orderbook_cache,
                Some(m) => {
                    let sym = spec_luno_parse_symbol(m@);
                    if spec_get(*data, "sequence"@) is Some {
                        &&& (spec_get(*data, "asks"@) is Some || spec_get(*data, "bids"@) is Some) ==> exists|ob: Option<WsOrderBookEvent>|
                            #[trigger] luno_book_msg_ok(old(self).orderbook_cache@, final(self).orderbook_cache@, *data, sym, ob) && (ob matches Some(e) ==> r@.len() >= 1 && r@[0].0@ == "orderbook:"@ + sym && r@[0].1 == WsMessage::OrderBook(e))
                                && (ob is None ==> (r@.len() == 0 || r@[0].1 is Trade))
                        &&& !(spec_get(*data, "asks"@) is Some || spec_get(*data, "bids"@) is Some) ==> final(self).orderbook_cache == old(self).orderbook_cache
                        &&& (match spec_get(*data, "trade_updates"@) {
                            Some(Json::Arr(items)) => items@.len() > 0,
                            _ => false,
                        }) <==> (r@.len() >= 1 && r@.last().1 is Trade)
                        &&& r@.len() >= 1 ==> (r@.last().1 matches WsMessage::Trade(e) ==> r@.last().0@ == "trades:"@ + sym && e.symbol@ == sym)
                    } else {
                        r@.len() == 0 && final(self).orderbook_cache == old(self).orderbook_cache
                    }
                },
            },
    {
        let mut out: Vec<(String, WsMessage)> = Vec::new();
        let market = match &self.current_market {
            Some(m) => copy_str(m.as_str()),
            None => {
                return out;
            },
        };
        let symbol = Self::parse_symbol(market.as_str());
        if data.get("sequence").is_none() {
            return out;
        }
        if data.get("asks").is_some() || data.get("bids").is_some() {
            let ob = self.handle_orderbook(data, symbol.as_str());
            match ob {
                Some(e) => {
                    let key = concat2("orderbook:", symbol.as_str());
                    out.push((key, WsMessage::OrderBook(e)));
                },
                None => {},
            }
        }
        match Self::handle_trades(data, symbol.as_str()) {
            Some(e) => {
                let key = concat2("trades:", symbol.as_str());
                out.push((key, WsMessage::Trade(e)));
            },
            None => {},
        }
        out
    }
}

/// A known market's symbol is its id's first three characters (`XBT` read
/// as `BTC`), `/` and the rest.
proof fn lemma_luno_known(m: Seq<char>)
    ensures
        luno_known(m) is Some ==> all_ascii(m),
        luno_known(m) matches Some(u) ==> m.len() == 6 && u == (if m.subrange(0, 3) == "XBT"@ {
            "BTC"@
        } else {
            m.subrange(0, 3)
        }) + "/"@ + m.subrange(3, 6),
{
    reveal_strlit("XBTZAR");
    reveal_strlit("ETHZAR");
    reveal_strlit("XBTEUR");
    reveal_strlit("ETHEUR");
    reveal_strlit("XBTNGN");
    reveal_strlit("ETHNGN");
    reveal_strlit("XBTUGX");
    reveal_strlit("XBTZMW");
    reveal_strlit("XBTIDR");
    reveal_strlit("XBTMYR");
    reveal_strlit("BTC/ZAR");
    reveal_strlit("ETH/ZAR");
    reveal_strlit("BTC/EUR");
    reveal_strlit("ETH/EUR");
    reveal_strlit("BTC/NGN");
    reveal_strlit("ETH/NGN");
    reveal_strlit("BTC/UGX");
    reveal_strlit("BTC/ZMW");
    reveal_strlit("BTC/IDR");
    reveal_strlit("BTC/MYR");
    reveal_strlit("XBT");
    reveal_strlit("BTC");
    reveal_strlit("/");
    reveal_strlit("ETH");
    if m == "XBTZAR"@ {
        assert(m.subrange(0, 3) =~= "XBT"@);
        assert("BTC/ZAR"@ =~= "BTC"@ + "/"@ + m.subrange(3, 6));
    } else if m == "ETHZAR"@ {
        assert(m.subrange(0, 3) =~= "ETH"@);
        assert("ETH/ZAR"@ =~= "ETH"@ + "/"@ + m.subrange(3, 6));
    } else if m == "XBTEUR"@ {
        assert(m.subrange(0, 3) =~= "XBT"@);
        assert("BTC/EUR"@ =~= "BTC"@ + "/"@ + m.subrange(3, 6));
    } else if m == "ETHEUR"@ {
        assert(m.subrange(0, 3) =~= "ETH"@);
        assert("ETH/EUR"@ =~= "ETH"@ + "/"@ + m.subrange(3, 6));
    } else if m == "XBTNGN"@ {
        assert(m.subrange(0, 3) =~= "XBT"@);
        assert("BTC/NGN"@ =~= "BTC"@ + "/"@ + m.subrange(3, 6));
    } else if m == "ETHNGN"@ {
        assert(m.subrange(0, 3) =~= "ETH"@);
        assert("ETH/NGN"@ =~= "ETH"@ + "/"@ + m.subrange(3, 6));
    } else if m == "XBTUGX"@ {
        assert(m.subrange(0, 3) =~= "XBT"@);
        assert("BTC/UGX"@ =~= "BTC"@ + "/"@ + m.subrange(3, 6));
    } else if m == "XBTZMW"@ {
        assert(m.subrange(0, 3) =~= "XBT"@);
        assert("BTC/ZMW"@ =~= "BTC"@ + "/"@ + m.subrange(3, 6));
    } else if m == "XBTIDR"@ {
        assert(m.subrange(0, 3) =~= "XBT"@);
        assert("BTC/IDR"@ =~= "BTC"@ + "/"@ + m.subrange(3, 6));
    } else if m == "XBTMYR"@ {
        assert(m.subrange(0, 3) =~= "XBT"@);
        assert("BTC/MYR"@ =~= "BTC"@ + "/"@ + m.subrange(3, 6));
    }
}

/// A unified symbol whose base takes three bytes (and is not `XBT`) and
/// whose quote takes at least three, neither holding `/`, comes back from
/// its market id.
pub proof fn law_symbol_round_trip(base: Seq<char>, quote: Seq<char>)
    requires
        utf8_len(base) == 3,
        base != "XBT"@,
        !base.contains('/'),
        !quote.contains('/'),
        utf8_len(quote) >= 3,
    ensures
        spec_luno_parse_symbol(spec_luno_format_symbol(base + "/"@ + quote)) == base + "/"@ + quote,
{
    reveal_strlit("/");
    reveal_strlit("XBT");
    reveal_strlit("BTC");
    reveal_strlit("BTC/");
    assert("/"@ =~= seq!['/']);
    assert("BTC/"@ =~= "BTC"@ + "/"@);
    lemma_split_first(base, quote, '/');
    lemma_split_absent(quote, '/');
    assert(base + "/"@ + quote =~= base + seq!['/'] + quote);
    assert(split_spec(base + "/"@ + quote, '/') =~= seq![base, quote]);
    let b = if base == "BTC"@ { "XBT"@ } else { base };
    let m = b + quote;
    assert(spec_luno_format_symbol(base + "/"@ + quote) == m);
    lemma_utf8_len_join(seq![], base);
    assert(seq![] + base =~= base);
    assert(base.len() <= 3 && base.len() >= 1) by {
        if base.len() == 0 {
            assert(utf8_len(base) == 0);
        }
    }
    // the first characters of the base take fewer than three bytes
    assert forall|j: int| 1 <= j < base.len() implies utf8_len(#[trigger] base.take(j)) < 3 by {
        lemma_utf8_len_join(base.take(j), base.skip(j));
        assert(base.take(j) + base.skip(j) =~= base);
    }
    assert(utf8_len(b) == 3 && b.len() == base.len()) by {
        if base == "BTC"@ {
            assert(b =~= seq!['X', 'B', 'T']);
            assert(utf8_len(seq!['X', 'B', 'T']) == 3) by {
                lemma_utf8_len_ascii(seq!['X', 'B', 'T']);
            }
        }
    }
    assert forall|j: int| 1 <= j < b.len() implies utf8_len(#[trigger] b.take(j)) < 3 by {
        if base == "BTC"@ {
            lemma_utf8_len_ascii(b.take(j));
        } else {
            assert(base.take(j) == b.take(j));
        }
    }
    lemma_utf8_len_join(b, quote);
    assert(utf8_len(m) >= 6);
    let k = b.len() as int;
    assert(m.take(k) =~= b);
    assert(m.skip(k) =~= quote);
    assert forall|j: int| 1 <= j < k implies m.take(j) == b.take(j) by {
        assert(m.take(j) =~= b.take(j));
    }
    if k >= 2 {
        assert(m.take(1) == b.take(1));
    }
    if k >= 3 {
        assert(m.take(2) == b.take(2));
    }
    assert(byte3_split(m) == Some(k));
    lemma_luno_known(m);
    if luno_known(m) is Some {
        // a known id is ASCII: its base takes one byte a character
        assert(all_ascii(m));
        assert(all_ascii(b)) by {
            assert forall|i: int| 0 <= i < b.len() implies (b[i] as u32) < 128 by {
                assert(m[i] == b[i]);
            }
        }
        lemma_utf8_len_ascii(b);
        assert(k == 3);
        assert(m.subrange(0, 3) =~= b);
        assert(m.subrange(3, 6) =~= quote);
    } else if base == "BTC"@ {
        assert(m.subrange(0, 3) =~= "XBT"@);
        assert(m.subrange(3, m.len() as int) =~= quote);
    } else {
        assert(!(3 <= m.len() && m.subrange(0, 3) == "XBT"@)) by {
            if 3 <= m.len() && m.subrange(0, 3) == "XBT"@ {
                if k == 3 {
                    assert(m.subrange(0, 3) =~= base);
                } else {
                    // a base of fewer characters would be a prefix of `XBT`, one byte each
                    assert(b.take(k) =~= b);
                    assert(forall|i: int| 0 <= i < k ==> b[i] == m[i] && m[i] == "XBT"@[i]);
                    assert(all_ascii(b));
                    lemma_utf8_len_ascii(b);
                }
            }
        }
    }
}

} // verus!
