//! Ordering the levels of an order book by price.

use crate::dec::{dec_lt, dec_parse, lemma_dec_le_trans, lemma_dec_lt_asym, spec_dec_lt, spec_dec_parse, Dec};
use crate::common::{copy_opt, opt_view, pair_lookup};
use crate::text::copy_str;
use crate::types::{OrderBook, OrderBookEntry};
use vstd::multiset::Multiset;
use vstd::prelude::*;
use vstd::seq_lib::{group_to_multiset_ensures, to_multiset_build, to_multiset_remove};

verus! {

/// Whether level `a` may stand before level `b`: by falling price for bids
/// (`desc`), by rising price for asks.
pub open spec fn spec_before(a: OrderBookEntry, b: OrderBookEntry, desc: bool) -> bool {
    if desc {
        !spec_dec_lt(a.price, b.price)
    } else {
        !spec_dec_lt(b.price, a.price)
    }
}

/// Levels ordered by price: falling when `desc`, rising otherwise.
pub open spec fn sorted_by_price(s: Seq<OrderBookEntry>, desc: bool) -> bool {
    forall|i: int, j: int| 0 <= i < j < s.len() ==> spec_before(#[trigger] s[i], #[trigger] s[j], desc)
}

/// Every level's price is a representable decimal.
pub open spec fn prices_wf(s: Seq<OrderBookEntry>) -> bool {
    forall|i: int| 0 <= i < s.len() ==> (#[trigger] s[i]).price.wf()
}

fn before(a: &OrderBookEntry, b: &OrderBookEntry, desc: bool) -> (r: bool)
    requires
        a.price.wf(),
        b.price.wf(),
    ensures
        r == spec_before(*a, *b, desc),
{
    if desc {
        !dec_lt(a.price, b.price)
    } else {
        !dec_lt(b.price, a.price)
    }
}

/// `spec_before` is total: a level that may not stand before another may
/// stand after it.
proof fn lemma_before_total(a: OrderBookEntry, b: OrderBookEntry, desc: bool)
    ensures
        !spec_before(a, b, desc) ==> spec_before(b, a, desc),
{
    lemma_dec_lt_asym(a.price, b.price);
    lemma_dec_lt_asym(b.price, a.price);
}

/// `spec_before` is transitive.
proof fn lemma_before_trans(a: OrderBookEntry, b: OrderBookEntry, c: OrderBookEntry, desc: bool)
    requires
        spec_before(a, b, desc),
        spec_before(b, c, desc),
    ensures
        spec_before(a, c, desc),
{
    if desc {
        lemma_dec_le_trans(c.price, b.price, a.price);
    } else {
        lemma_dec_le_trans(a.price, b.price, c.price);
    }
}

/// Inserting an element adds one occurrence of it.
proof fn lemma_insert_multiset(s: Seq<OrderBookEntry>, p: int, x: OrderBookEntry)
    requires
        0 <= p <= s.len(),
    ensures
        s.insert(p, x).to_multiset() =~= s.to_multiset().insert(x),
{
    broadcast use group_to_multiset_ensures;
    broadcast use vstd::multiset::group_multiset_axioms;
    let t = s.insert(p, x);
    assert(t.remove(p) =~= s);
    to_multiset_remove(t, p);
    assert(t[p] == x);
    assert(t.contains(x));
    assert(t.to_multiset().count(x) > 0);
}

/// The levels ordered by price (falling for bids, rising for asks); levels of
/// equal price keep their order.
pub fn sort_levels(entries: Vec<OrderBookEntry>, desc: bool) -> (r: Vec<OrderBookEntry>)
    requires
        prices_wf(entries@),
    ensures
        sorted_by_price(r@, desc),
        r@.to_multiset() == entries@.to_multiset(),
        prices_wf(r@),
{
    let mut out: Vec<OrderBookEntry> = Vec::new();
    let n = entries.len();
    let mut i: usize = 0;
    proof {
        broadcast use group_to_multiset_ensures;
        assert(entries@.take(0) =~= Seq::<OrderBookEntry>::empty());
        assert(out@ =~= Seq::<OrderBookEntry>::empty());
    }
    while i < n
        invariant
            n == entries@.len(),
            i <= n,
            prices_wf(entries@),
            prices_wf(out@),
            sorted_by_price(out@, desc),
            out@.to_multiset() == entries@.take(i as int).to_multiset(),
        decreases n - i,
    {
        let x = entries[i];
        let mut p: usize = 0;
        while p < out.len() && before(&out[p], &x, desc)
            invariant
                p <= out@.len(),
                prices_wf(out@),
                x.price.wf(),
                forall|k: int| 0 <= k < p ==> spec_before(#[trigger] out@[k], x, desc),
            decreases out@.len() - p,
        {
            p = p + 1;
        }
        let ghost old_out = out@;
        out.insert(p, x);
        proof {
            assert(out@ == old_out.insert(p as int, x));
            if p < old_out.len() {
                lemma_before_total(old_out[p as int], x, desc);
            }
            assert forall|a: int, b: int| 0 <= a < b < out@.len() implies spec_before(
                #[trigger] out@[a],
                #[trigger] out@[b],
                desc,
            ) by {
                if b < p {
                    assert(out@[a] == old_out[a] && out@[b] == old_out[b]);
                } else if b == p {
                    assert(out@[a] == old_out[a]);
                } else if a == p {
                    assert(out@[b] == old_out[b - 1]);
                    if b - 1 > p {
                        assert(spec_before(old_out[p as int], old_out[b - 1], desc));
                        lemma_before_trans(x, old_out[p as int], old_out[b - 1], desc);
                    }
                } else if a < p {
                    assert(out@[a] == old_out[a] && out@[b] == old_out[b - 1]);
                    assert(spec_before(old_out[a], x, desc));
                    lemma_before_trans(old_out[a], old_out[p as int], old_out[b - 1], desc);
                } else {
                    assert(out@[a] == old_out[a - 1] && out@[b] == old_out[b - 1]);
                }
            }
            assert forall|k: int| 0 <= k < out@.len() implies (#[trigger] out@[k]).price.wf() by {
                if k < p {
                    assert(out@[k] == old_out[k]);
                } else if k > p {
                    assert(out@[k] == old_out[k - 1]);
                }
            }
            lemma_insert_multiset(old_out, p as int, x);
            assert(entries@.take(i + 1) =~= entries@.take(i as int).push(x));
            to_multiset_build(entries@.take(i as int), x);
        }
        i = i + 1;
    }
    proof {
        assert(entries@.take(n as int) =~= entries@);
    }
    out
}

/// Order-book rows that hold two readable numbers.
pub open spec fn level_reads(row: Vec<String>) -> bool {
    row@.len() >= 2 && spec_dec_parse(row@[0]@) is Some && spec_dec_parse(row@[1]@) is Some
}

/// Readable order-book rows.
pub open spec fn text_levels(rows: Seq<Vec<String>>) -> Seq<Vec<String>> {
    rows.filter(|r: Vec<String>| level_reads(r))
}

/// Levels of text rows: rows with fewer than two texts, or whose texts do
/// not both read as numbers, are skipped.
pub fn parse_text_levels(rows: &Vec<Vec<String>>) -> (r: Vec<OrderBookEntry>)
    ensures
        r@.len() == text_levels(rows@).len(),
        forall|k: int|
            0 <= k < r@.len() ==> Some((#[trigger] r@[k]).price.parts()) == spec_dec_parse(
                text_levels(rows@)[k]@[0]@,
            ) && Some(r@[k].amount.parts()) == spec_dec_parse(text_levels(rows@)[k]@[1]@),
{
    let mut out: Vec<OrderBookEntry> = Vec::new();
    let n = rows.len();
    let mut i: usize = 0;
    while i < n
        invariant
            n == rows@.len(),
            i <= n,
            out@.len() == text_levels(rows@.take(i as int)).len(),
            forall|k: int|
                0 <= k < out@.len() ==> Some((#[trigger] out@[k]).price.parts()) == spec_dec_parse(
                    text_levels(rows@.take(i as int))[k]@[0]@,
                ) && Some(out@[k].amount.parts()) == spec_dec_parse(
                    text_levels(rows@.take(i as int))[k]@[1]@,
                ),
        decreases n - i,
    {
        let ghost pre = rows@.take(i as int);
        proof {
            assert(rows@.take(i + 1).drop_last() =~= pre);
            assert(rows@.take(i + 1).last() == rows@[i as int]);
            reveal_with_fuel(Seq::<_>::filter, 1);
        }
        let mut e: Option<OrderBookEntry> = None;
        if rows[i].len() >= 2 {
            match (dec_parse(rows[i][0].as_str()), dec_parse(rows[i][1].as_str())) {
                (Some(p), Some(a)) => {
                    e = Some(OrderBookEntry { price: p, amount: a });
                },
                _ => {},
            }
        }
        match e {
            Some(x) => {
                out.push(x);
                proof {
                    assert(level_reads(rows@[i as int]));
                    assert(text_levels(rows@.take(i + 1)) == text_levels(pre).push(rows@[i as int]));
                }
            },
            None => {
                proof {
                    assert(!level_reads(rows@[i as int]));
                    assert(text_levels(rows@.take(i + 1)) == text_levels(pre));
                }
            },
        }
        i = i + 1;
    }
    proof {
        assert(rows@.take(n as int) =~= rows@);
    }
    out
}


/// Two books with the same market, time, levels and nonce.
pub open spec fn book_same(a: OrderBook, b: OrderBook) -> bool {
    &&& a.symbol@ == b.symbol@
    &&& a.timestamp == b.timestamp
    &&& opt_view(a.datetime) == opt_view(b.datetime)
    &&& a.nonce == b.nonce
    &&& a.bids@ == b.bids@
    &&& a.asks@ == b.asks@
}

/// A copy of a list of levels.
pub fn copy_levels(v: &Vec<OrderBookEntry>) -> (r: Vec<OrderBookEntry>)
    ensures
        r@ == v@,
{
    let mut out: Vec<OrderBookEntry> = Vec::new();
    let n = v.len();
    let mut i: usize = 0;
    while i < n
        invariant
            n == v@.len(),
            i <= n,
            out@ == v@.take(i as int),
        decreases n - i,
    {
        out.push(v[i]);
        assert(out@ =~= v@.take(i + 1));
        i = i + 1;
    }
    assert(v@.take(n as int) =~= v@);
    out
}

/// A copy of a book.
pub fn copy_book(b: &OrderBook) -> (r: OrderBook)
    ensures
        book_same(r, *b),
{
    OrderBook {
        symbol: copy_str(b.symbol.as_str()),
        timestamp: b.timestamp,
        datetime: copy_opt(&b.datetime),
        nonce: b.nonce,
        bids: copy_levels(&b.bids),
        asks: copy_levels(&b.asks),
    }
}

/// Numeric equality of decimals.
pub open spec fn spec_dec_eq(a: Dec, b: Dec) -> bool {
    !spec_dec_lt(a, b) && !spec_dec_lt(b, a)
}

/// Numeric equality of two decimals, both representable.
pub fn dec_eq(a: Dec, b: Dec) -> (r: bool)
    requires
        a.wf(),
        b.wf(),
    ensures
        r == spec_dec_eq(a, b),
{
    !dec_lt(a, b) && !dec_lt(b, a)
}

/// No two levels of a side share a price (by value).
pub open spec fn prices_distinct(s: Seq<OrderBookEntry>) -> bool {
    forall|i: int, j: int|
        0 <= i < s.len() && 0 <= j < s.len() && i != j ==> !spec_dec_eq(#[trigger] s[i].price, #[trigger] s[j].price)
}

/// An item that a sequence holds at two places occurs there twice.
proof fn lemma_count_two(s: Seq<OrderBookEntry>, i: int, j: int)
    requires
        0 <= i < s.len(),
        0 <= j < s.len(),
        i != j,
        s[i] == s[j],
    ensures
        s.to_multiset().count(s[i]) >= 2,
{
    broadcast use group_to_multiset_ensures;
    broadcast use vstd::multiset::group_multiset_axioms;
    to_multiset_remove(s, j);
    let t = s.remove(j);
    let k = if i < j { i } else { i - 1 };
    assert(t[k] == s[i]);
    assert(t.contains(s[i]));
    assert(t.to_multiset().count(s[i]) > 0);
    assert(s.to_multiset().remove(s[j]).count(s[i]) == s.to_multiset().count(s[i]) - 1);
}

/// An item that occurs twice stands at two places.
proof fn lemma_two_places(s: Seq<OrderBookEntry>, x: OrderBookEntry)
    requires
        s.to_multiset().count(x) >= 2,
    ensures
        exists|i: int, j: int| 0 <= i < s.len() && 0 <= j < s.len() && i != j && s[i] == x && s[j] == x,
{
    broadcast use group_to_multiset_ensures;
    broadcast use vstd::multiset::group_multiset_axioms;
    assert(s.contains(x));
    let k = choose|k: int| 0 <= k < s.len() && s[k] == x;
    to_multiset_remove(s, k);
    let t = s.remove(k);
    assert(t.to_multiset().count(x) >= 1);
    assert(t.contains(x));
    let k2 = choose|k2: int| 0 <= k2 < t.len() && t[k2] == x;
    let j = if k2 < k { k2 } else { k2 + 1 };
    assert(s[j] == x);
}

/// Reordering a side keeps its prices distinct.
proof fn lemma_distinct_reordered(a: Seq<OrderBookEntry>, b: Seq<OrderBookEntry>)
    requires
        prices_distinct(a),
        a.to_multiset() == b.to_multiset(),
    ensures
        prices_distinct(b),
{
    broadcast use group_to_multiset_ensures;
    assert forall|i: int, j: int| 0 <= i < b.len() && 0 <= j < b.len() && i != j implies !spec_dec_eq(
        #[trigger] b[i].price,
        #[trigger] b[j].price,
    ) by {
        if spec_dec_eq(b[i].price, b[j].price) {
            let x = b[i];
            let y = b[j];
            if x == y {
                lemma_count_two(b, i, j);
                lemma_two_places(a, x);
                let (i2, j2) = choose|i2: int, j2: int| 0 <= i2 < a.len() && 0 <= j2 < a.len() && i2 != j2 && a[i2] == x && a[j2] == x;
                assert(!spec_dec_eq(a[i2].price, a[j2].price));
            } else {
                assert(b.contains(x) && b.contains(y)) by {
                    assert(b[i] == x && b[j] == y);
                }
                assert(b.to_multiset().count(x) > 0 && b.to_multiset().count(y) > 0);
                assert(a.to_multiset().count(x) > 0 && a.to_multiset().count(y) > 0);
                assert(a.contains(x) && a.contains(y));
                let i2 = choose|i2: int| 0 <= i2 < a.len() && a[i2] == x;
                let j2 = choose|j2: int| 0 <= j2 < a.len() && a[j2] == y;
                assert(!spec_dec_eq(a[i2].price, a[j2].price));
            }
        }
    }
}

/// A level change, before sorting, keeps the prices of a side distinct.
proof fn lemma_changed_distinct(s: Seq<OrderBookEntry>, e: OrderBookEntry, pos: Option<usize>)
    requires
        prices_distinct(s),
        pos_ok(s, e.price, pos),
    ensures
        prices_distinct(side_changed(s, e, pos)),
{
    let t = side_changed(s, e, pos);
    if e.amount.mantissa == 0 {
        if let Some(k) = pos {
            assert forall|i: int, j: int| 0 <= i < t.len() && 0 <= j < t.len() && i != j implies !spec_dec_eq(
                #[trigger] t[i].price,
                #[trigger] t[j].price,
            ) by {
                let i2 = if i < k { i } else { i + 1 };
                let j2 = if j < k { j } else { j + 1 };
                assert(t[i] == s[i2] && t[j] == s[j2]);
                assert(!spec_dec_eq(s[i2].price, s[j2].price));
            }
        }
    } else {
        match pos {
            Some(k) => {
                assert forall|i: int, j: int| 0 <= i < t.len() && 0 <= j < t.len() && i != j implies !spec_dec_eq(
                    #[trigger] t[i].price,
                    #[trigger] t[j].price,
                ) by {
                    assert(t[i].price == s[i].price && t[j].price == s[j].price);
                    assert(!spec_dec_eq(s[i].price, s[j].price));
                }
            },
            None => {
                assert forall|i: int, j: int| 0 <= i < t.len() && 0 <= j < t.len() && i != j implies !spec_dec_eq(
                    #[trigger] t[i].price,
                    #[trigger] t[j].price,
                ) by {
                    if i < s.len() && j < s.len() {
                        assert(!spec_dec_eq(s[i].price, s[j].price));
                    } else if i < s.len() {
                        assert(!spec_dec_eq(s[i].price, e.price));
                    } else {
                        assert(!spec_dec_eq(s[j].price, e.price));
                    }
                }
            },
        }
    }
}

/// A level change keeps the prices of a side distinct: when no two levels
/// shared a price before, none do after the change and sorting.
pub proof fn law_update_keeps_prices_distinct(
    s: Seq<OrderBookEntry>,
    e: OrderBookEntry,
    desc: bool,
    out: Seq<OrderBookEntry>,
)
    requires
        prices_distinct(s),
        side_update_ok(s, e, desc, out),
    ensures
        prices_distinct(out),
{
    let pos = choose|pos: Option<usize>| #[trigger] pos_ok(s, e.price, pos) && sorted_by_price(out, desc)
        && out.to_multiset() == side_changed(s, e, pos).to_multiset();
    lemma_changed_distinct(s, e, pos);
    lemma_distinct_reordered(side_changed(s, e, pos), out);
}

/// Levels whose price differs from `p`.
pub open spec fn off_price(p: Dec) -> spec_fn(OrderBookEntry) -> bool {
    |x: OrderBookEntry| !spec_dec_eq(x.price, p)
}

/// Two decimals equal to a third equal each other.
proof fn lemma_dec_eq_trans(a: Dec, b: Dec, c: Dec)
    requires
        spec_dec_eq(a, c),
        spec_dec_eq(b, c),
    ensures
        spec_dec_eq(a, b),
{
    lemma_dec_le_trans(b, c, a);
    lemma_dec_le_trans(a, c, b);
}

/// How often a filtered sequence holds an item: as often as the sequence
/// when the item passes the filter, never otherwise.
proof fn lemma_filter_count(s: Seq<OrderBookEntry>, f: spec_fn(OrderBookEntry) -> bool, x: OrderBookEntry)
    ensures
        s.filter(f).to_multiset().count(x) == (if f(x) { s.to_multiset().count(x) } else { 0 }),
    decreases s.len(),
{
    broadcast use group_to_multiset_ensures;
    broadcast use vstd::multiset::group_multiset_axioms;
    reveal(Seq::filter);
    if s.len() == 0 {
        assert(s.filter(f) =~= s);
        assert(s.to_multiset() =~= Multiset::<OrderBookEntry>::empty());
    } else {
        let d = s.drop_last();
        lemma_filter_count(d, f, x);
        assert(s =~= d.push(s.last()));
        to_multiset_build(d, s.last());
        if f(s.last()) {
            to_multiset_build(d.filter(f), s.last());
        }
    }
}

/// Sequences holding the same items still do after the same filter.
proof fn lemma_filter_same(a: Seq<OrderBookEntry>, b: Seq<OrderBookEntry>, f: spec_fn(OrderBookEntry) -> bool)
    requires
        a.to_multiset() == b.to_multiset(),
    ensures
        a.filter(f).to_multiset() == b.filter(f).to_multiset(),
{
    assert forall|x: OrderBookEntry| #[trigger] a.filter(f).to_multiset().count(x) == b.filter(f).to_multiset().count(x) by {
        lemma_filter_count(a, f, x);
        lemma_filter_count(b, f, x);
    }
    assert(a.filter(f).to_multiset() =~= b.filter(f).to_multiset());
}

/// A level change leaves the levels at other prices as they were.
proof fn lemma_changed_others(s: Seq<OrderBookEntry>, e: OrderBookEntry, pos: Option<usize>)
    requires
        pos_ok(s, e.price, pos),
    ensures
        side_changed(s, e, pos).filter(off_price(e.price)).to_multiset() == s.filter(off_price(e.price)).to_multiset(),
{
    broadcast use group_to_multiset_ensures;
    broadcast use vstd::multiset::group_multiset_axioms;
    let f = off_price(e.price);
    let t = side_changed(s, e, pos);
    lemma_dec_lt_asym(e.price, e.price);
    assert forall|x: OrderBookEntry| #[trigger] t.filter(f).to_multiset().count(x) == s.filter(f).to_multiset().count(x) by {
        lemma_filter_count(t, f, x);
        lemma_filter_count(s, f, x);
        if f(x) {
            match pos {
                Some(i) => {
                    to_multiset_remove(s, i as int);
                    assert(!f(s[i as int]));
                    if e.amount.mantissa != 0 {
                        let v = OrderBookEntry { price: s[i as int].price, amount: e.amount };
                        assert(t =~= s.remove(i as int).insert(i as int, v));
                        lemma_insert_multiset(s.remove(i as int), i as int, v);
                        assert(!f(v));
                    }
                },
                None => {
                    if e.amount.mantissa != 0 {
                        to_multiset_build(s, e);
                        assert(!f(e));
                    }
                },
            }
        }
    }
    assert(t.filter(f).to_multiset() =~= s.filter(f).to_multiset());
}

/// After a change with a zero amount, no level stands at its price.
proof fn lemma_removed_all_off(s: Seq<OrderBookEntry>, e: OrderBookEntry, pos: Option<usize>)
    requires
        prices_distinct(s),
        pos_ok(s, e.price, pos),
        e.amount.mantissa == 0,
    ensures
        forall|j: int| 0 <= j < side_changed(s, e, pos).len() ==> (off_price(e.price))(#[trigger] side_changed(s, e, pos)[j]),
        side_changed(s, e, pos).filter(off_price(e.price)).to_multiset() == side_changed(s, e, pos).to_multiset(),
{
    broadcast use group_to_multiset_ensures;
    broadcast use vstd::multiset::group_multiset_axioms;
    let f = off_price(e.price);
    let t = side_changed(s, e, pos);
    assert forall|j: int| 0 <= j < t.len() implies f(#[trigger] t[j]) by {
        if let Some(i) = pos {
            let j2 = if j < i { j } else { j + 1 };
            assert(t[j] == s[j2]);
            if spec_dec_eq(s[j2].price, e.price) {
                lemma_dec_eq_trans(s[j2].price, s[i as int].price, e.price);
                assert(!spec_dec_eq(s[j2].price, s[i as int].price));
            }
        }
    }
    assert forall|x: OrderBookEntry| #[trigger] t.filter(f).to_multiset().count(x) == t.to_multiset().count(x) by {
        lemma_filter_count(t, f, x);
        if !f(x) && t.to_multiset().count(x) > 0 {
            assert(t.contains(x));
            let j = choose|j: int| 0 <= j < t.len() && t[j] == x;
            assert(f(t[j]));
        }
    }
    assert(t.filter(f).to_multiset() =~= t.to_multiset());
}

/// A level change on a side whose prices are distinct. The side comes out
/// sorted, still with distinct prices, and the levels at other prices than
/// the change's stay as they were. A zero amount leaves no level at the
/// change's price; another amount leaves exactly one there, holding the new
/// amount.
pub proof fn law_side_update(s: Seq<OrderBookEntry>, e: OrderBookEntry, desc: bool, out: Seq<OrderBookEntry>)
    requires
        prices_distinct(s),
        side_update_ok(s, e, desc, out),
    ensures
        sorted_by_price(out, desc),
        prices_distinct(out),
        out.filter(off_price(e.price)).to_multiset() == s.filter(off_price(e.price)).to_multiset(),
        e.amount.mantissa == 0 ==> out.to_multiset() == s.filter(off_price(e.price)).to_multiset(),
        e.amount.mantissa == 0 ==> forall|j: int| 0 <= j < out.len() ==> !spec_dec_eq(#[trigger] out[j].price, e.price),
        e.amount.mantissa != 0 ==> exists|k: int|
            #![trigger out[k]]
            0 <= k < out.len() && spec_dec_eq(out[k].price, e.price) && out[k].amount == e.amount && forall|j: int|
                0 <= j < out.len() && j != k ==> !spec_dec_eq(#[trigger] out[j].price, e.price),
{
    broadcast use group_to_multiset_ensures;
    broadcast use vstd::multiset::group_multiset_axioms;
    let pos = choose|pos: Option<usize>| #[trigger] pos_ok(s, e.price, pos) && sorted_by_price(out, desc)
        && out.to_multiset() == side_changed(s, e, pos).to_multiset();
    let t = side_changed(s, e, pos);
    let f = off_price(e.price);
    law_update_keeps_prices_distinct(s, e, desc, out);
    lemma_filter_same(out, t, f);
    lemma_changed_others(s, e, pos);
    if e.amount.mantissa == 0 {
        lemma_removed_all_off(s, e, pos);
        assert forall|j: int| 0 <= j < out.len() implies !spec_dec_eq(#[trigger] out[j].price, e.price) by {
            let x = out[j];
            assert(out.contains(x));
            assert(t.to_multiset().count(x) > 0);
            assert(t.contains(x));
            let i = choose|i: int| 0 <= i < t.len() && t[i] == x;
            assert(f(t[i]));
        }
    } else {
        lemma_dec_lt_asym(e.price, e.price);
        let x = match pos {
            Some(i) => OrderBookEntry { price: s[i as int].price, amount: e.amount },
            None => e,
        };
        let i0: int = match pos {
            Some(i) => i as int,
            None => s.len() as int,
        };
        assert(t[i0] == x);
        assert(t.contains(x));
        assert(out.to_multiset().count(x) > 0);
        assert(out.contains(x));
        let k = choose|k: int| 0 <= k < out.len() && out[k] == x;
        assert(spec_dec_eq(out[k].price, e.price));
        assert forall|j: int| 0 <= j < out.len() && j != k implies !spec_dec_eq(#[trigger] out[j].price, e.price) by {
            if spec_dec_eq(out[j].price, e.price) {
                lemma_dec_eq_trans(out[j].price, out[k].price, e.price);
                assert(!spec_dec_eq(out[j].price, out[k].price));
            }
        }
    }
}

/// A level change with an amount other than zero leaves a level at its
/// price that holds its amount.
pub proof fn law_update_leaves_level(s: Seq<OrderBookEntry>, e: OrderBookEntry, desc: bool, out: Seq<OrderBookEntry>)
    requires
        side_update_ok(s, e, desc, out),
        e.amount.mantissa != 0,
    ensures
        exists|k: int| #![trigger out[k]] 0 <= k < out.len() && spec_dec_eq(out[k].price, e.price) && out[k].amount == e.amount,
{
    broadcast use group_to_multiset_ensures;
    broadcast use vstd::multiset::group_multiset_axioms;
    let pos = choose|pos: Option<usize>| #[trigger] pos_ok(s, e.price, pos) && sorted_by_price(out, desc)
        && out.to_multiset() == side_changed(s, e, pos).to_multiset();
    let t = side_changed(s, e, pos);
    lemma_dec_lt_asym(e.price, e.price);
    let x = match pos {
        Some(i) => OrderBookEntry { price: s[i as int].price, amount: e.amount },
        None => e,
    };
    let i0: int = match pos {
        Some(i) => i as int,
        None => s.len() as int,
    };
    assert(t[i0] == x);
    assert(t.contains(x));
    assert(out.to_multiset().count(x) > 0);
    assert(out.contains(x));
    let k = choose|k: int| 0 <= k < out.len() && out[k] == x;
    assert(spec_dec_eq(out[k].price, e.price));
}

/// Removing a price leaves no level at that price, and keeps every level
/// at another price as often as it stood there.
pub proof fn law_delete_removes_price(s: Seq<OrderBookEntry>, p: Dec, desc: bool, out: Seq<OrderBookEntry>)
    requires
        side_delete_ok(s, p, desc, out),
    ensures
        forall|k: int| 0 <= k < out.len() ==> !spec_dec_eq(#[trigger] out[k].price, p),
        forall|x: OrderBookEntry| !spec_dec_eq(x.price, p) ==> #[trigger] out.to_multiset().count(x) == s.to_multiset().count(x),
{
    broadcast use group_to_multiset_ensures;
    broadcast use vstd::multiset::group_multiset_axioms;
    let f = off_price(p);
    assert((|x: OrderBookEntry| !spec_dec_eq(x.price, p)) =~= f);
    assert forall|k: int| 0 <= k < out.len() implies !spec_dec_eq(#[trigger] out[k].price, p) by {
        let x = out[k];
        assert(out.contains(x));
        lemma_filter_count(s, f, x);
    }
    assert forall|x: OrderBookEntry| !spec_dec_eq(x.price, p) implies #[trigger] out.to_multiset().count(x) == s.to_multiset().count(x) by {
        lemma_filter_count(s, f, x);
    }
}

/// Where a price first stands in a side.
pub open spec fn pos_ok(s: Seq<OrderBookEntry>, p: Dec, pos: Option<usize>) -> bool {
    match pos {
        Some(i) => i < s.len() && spec_dec_eq(s[i as int].price, p) && forall|j: int| 0 <= j < i ==> !spec_dec_eq(#[trigger] s[j].price, p),
        None => forall|j: int| 0 <= j < s.len() ==> !spec_dec_eq(#[trigger] s[j].price, p),
    }
}

/// A side before sorting, after a level change: a zero amount removes the
/// first level at its price, another amount replaces that level's amount or
/// adds the level.
pub open spec fn side_changed(s: Seq<OrderBookEntry>, e: OrderBookEntry, pos: Option<usize>) -> Seq<OrderBookEntry> {
    if e.amount.mantissa == 0 {
        match pos {
            Some(i) => s.remove(i as int),
            None => s,
        }
    } else {
        match pos {
            Some(i) => s.update(i as int, OrderBookEntry { price: s[i as int].price, amount: e.amount }),
            None => s.push(e),
        }
    }
}

/// A side after a level change, sorted again.
pub open spec fn side_update_ok(s: Seq<OrderBookEntry>, e: OrderBookEntry, desc: bool, out: Seq<OrderBookEntry>) -> bool {
    exists|pos: Option<usize>| #[trigger] pos_ok(s, e.price, pos) && sorted_by_price(out, desc)
        && out.to_multiset() == side_changed(s, e, pos).to_multiset()
}

/// A side after removing every level at a price, sorted again.
pub open spec fn side_delete_ok(s: Seq<OrderBookEntry>, p: Dec, desc: bool, out: Seq<OrderBookEntry>) -> bool {
    sorted_by_price(out, desc) && out.to_multiset() == s.filter(|x: OrderBookEntry| !spec_dec_eq(x.price, p)).to_multiset()
}

/// Where a price first stands in a side.
pub fn find_level(side: &Vec<OrderBookEntry>, p: Dec) -> (r: Option<usize>)
    requires
        prices_wf(side@),
        p.wf(),
    ensures
        pos_ok(side@, p, r),
{
    let n = side.len();
    let mut i: usize = 0;
    while i < n
        invariant
            n == side@.len(),
            i <= n,
            prices_wf(side@),
            p.wf(),
            forall|j: int| 0 <= j < i ==> !spec_dec_eq(#[trigger] side@[j].price, p),
        decreases n - i,
    {
        if dec_eq(side[i].price, p) {
            return Some(i);
        }
        i = i + 1;
    }
    None
}

/// Applies a level change to a side (see [`side_update_ok`]).
pub fn apply_level(side: &mut Vec<OrderBookEntry>, entry: OrderBookEntry, is_bid: bool)
    requires
        prices_wf(old(side)@),
        entry.price.wf(),
    ensures
        side_update_ok(old(side)@, entry, is_bid, final(side)@),
        prices_wf(final(side)@),
{
    let pos = find_level(side, entry.price);
    let ghost before = side@;
    if entry.amount.mantissa == 0 {
        match pos {
            Some(i) => {
                side.remove(i);
            },
            None => {},
        }
    } else {
        match pos {
            Some(i) => {
                let p = side[i].price;
                side.set(i, OrderBookEntry { price: p, amount: entry.amount });
            },
            None => {
                side.push(entry);
            },
        }
    }
    proof {
        assert(side@ == side_changed(before, entry, pos));
        assert forall|k: int| 0 <= k < side@.len() implies (#[trigger] side@[k]).price.wf() by {
            if entry.amount.mantissa == 0 {
                match pos {
                    Some(i) => {
                        if k >= i {
                            assert(side@[k] == before[k + 1]);
                        }
                    },
                    None => {},
                }
            }
        }
    }
    let mut v: Vec<OrderBookEntry> = Vec::new();
    std::mem::swap(&mut v, side);
    *side = sort_levels(v, is_bid);
    assert(pos_ok(before, entry.price, pos));
}

/// Removes every level at a price and sorts the side again.
pub fn remove_price(side: &mut Vec<OrderBookEntry>, p: Dec, is_bid: bool)
    requires
        prices_wf(old(side)@),
        p.wf(),
    ensures
        side_delete_ok(old(side)@, p, is_bid, final(side)@),
        prices_wf(final(side)@),
{
    let ghost before = side@;
    let mut kept: Vec<OrderBookEntry> = Vec::new();
    let n = side.len();
    let mut i: usize = 0;
    while i < n
        invariant
            n == side@.len(),
            side@ == before,
            i <= n,
            prices_wf(before),
            p.wf(),
            kept@ == before.take(i as int).filter(|x: OrderBookEntry| !spec_dec_eq(x.price, p)),
            prices_wf(kept@),
        decreases n - i,
    {
        proof {
            assert(before.take(i + 1).drop_last() =~= before.take(i as int));
            assert(before.take(i + 1).last() == before[i as int]);
            reveal_with_fuel(Seq::<_>::filter, 1);
        }
        let e = side[i];
        if !dec_eq(e.price, p) {
            kept.push(e);
        }
        i = i + 1;
    }
    assert(before.take(n as int) =~= before);
    *side = sort_levels(kept, is_bid);
}

/// Every cached book has representable prices.
pub open spec fn cache_wf(c: Seq<(String, OrderBook)>) -> bool {
    forall|k: Seq<char>| #[trigger] entry_wf(c, k)
}

/// The book cached under a market, if any, has representable prices.
pub open spec fn entry_wf(c: Seq<(String, OrderBook)>, k: Seq<char>) -> bool {
    pair_lookup(c, k) matches Some(b) ==> prices_wf(b.bids@) && prices_wf(b.asks@)
}

} // verus!
