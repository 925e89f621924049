//! Helpers shared by the exchange adapters: keyed lists, query strings and
//! views of optional texts.

use crate::crypto::{spec_url_encode, url_encode};
use crate::text::{copy_str, lemma_lex_asym, lemma_lex_le_trans, lex_lt, push_char, push_str, str_eq, str_lt};
use crate::types::Market;
use crate::json::{json_text_object, json_text_object_of};
use crate::dec::{checked_op, dec_div, dec_mul, dec_sub, spec_dec_div, spec_dec_mul, spec_dec_sub, Dec, opt_parts};
use vstd::prelude::*;
use vstd::seq_lib::{group_to_multiset_ensures, to_multiset_build, to_multiset_remove};

verus! {

/// The text of an optional string.
pub open spec fn opt_view(o: Option<String>) -> Option<Seq<char>> {
    match o {
        Some(s) => Some(s@),
        None => None,
    }
}

/// A copy of an optional string.
pub fn copy_opt(o: &Option<String>) -> (r: Option<String>)
    ensures
        opt_view(r) == opt_view(*o),
{
    match o {
        Some(s) => Some(copy_str(s.as_str())),
        None => None,
    }
}

/// The texts of a list of strings.
pub open spec fn texts_of(v: Seq<String>) -> Seq<Seq<char>> {
    v.map_values(|s: String| s@)
}

/// Whether a list of texts holds a text.
pub fn contains_text(v: &Vec<String>, s: &str) -> (r: bool)
    ensures
        r == texts_of(v@).contains(s@),
{
    let n = v.len();
    let mut i: usize = 0;
    while i < n
        invariant
            n == v@.len(),
            i <= n,
            forall|j: int| 0 <= j < i ==> v@[j]@ != s@,
        decreases n - i,
    {
        if str_eq(v[i].as_str(), s) {
            assert(texts_of(v@)[i as int] == s@);
            return true;
        }
        i = i + 1;
    }
    proof {
        if texts_of(v@).contains(s@) {
            let j = choose|j: int| 0 <= j < n && #[trigger] texts_of(v@)[j] == s@;
            assert(v@[j]@ == s@);
        }
    }
    false
}

/// The value stored under the first entry whose key is `key`.
pub open spec fn pair_lookup<V>(entries: Seq<(String, V)>, key: Seq<char>) -> Option<V>
    decreases entries.len(),
{
    if entries.len() == 0 {
        None
    } else if entries[0].0@ == key {
        Some(entries[0].1)
    } else {
        pair_lookup(entries.drop_first(), key)
    }
}

/// Position of the first entry whose key is `key`.
pub fn find_key<V>(entries: &Vec<(String, V)>, key: &str) -> (r: Option<usize>)
    ensures
        match r {
            Some(i) => i < entries@.len() && entries@[i as int].0@ == key@ && pair_lookup(
                entries@,
                key@,
            ) == Some(entries@[i as int].1),
            None => pair_lookup(entries@, key@) is None,
        },
{
    let n = entries.len();
    let mut i: usize = 0;
    assert(entries@.subrange(0, n as int) =~= entries@);
    while i < n
        invariant
            n == entries@.len(),
            i <= n,
            pair_lookup(entries@, key@) == pair_lookup(entries@.subrange(i as int, n as int), key@),
        decreases n - i,
    {
        let ghost rest = entries@.subrange(i as int, n as int);
        assert(rest.drop_first() =~= entries@.subrange(i + 1, n as int));
        assert(rest[0] == entries@[i as int]);
        if str_eq(entries[i].0.as_str(), key) {
            return Some(i);
        }
        i = i + 1;
    }
    None
}

/// Unified symbols of markets, keyed by the exchange's market id.
pub struct MarketIndex {
    pub entries: Vec<(String, String)>,
}

impl MarketIndex {
    /// No markets known.
    pub fn new() -> (r: MarketIndex)
        ensures
            r.entries@.len() == 0,
    {
        MarketIndex { entries: Vec::new() }
    }

    /// The value recorded for a key: that of its last entry, as recording
    /// the markets one after another in a map leaves it.
    pub open spec fn spec_get(self, id: Seq<char>) -> Option<Seq<char>> {
        match pair_lookup(self.entries@.reverse(), id) {
            Some(s) => Some(s@),
            None => None,
        }
    }

    /// The value recorded for a key (see [`MarketIndex::spec_get`]).
    pub fn get(&self, id: &str) -> (r: Option<String>)
        ensures
            opt_view(r) == self.spec_get(id@),
    {
        let n = self.entries.len();
        let mut i: usize = n;
        assert(self.entries@.subrange(0, n as int) =~= self.entries@);
        while i > 0
            invariant
                n == self.entries@.len(),
                i <= n,
                pair_lookup(self.entries@.reverse(), id@) == pair_lookup(
                    self.entries@.subrange(0, i as int).reverse(),
                    id@,
                ),
            decreases i,
        {
            let ghost rest = self.entries@.subrange(0, i as int).reverse();
            assert(rest.drop_first() =~= self.entries@.subrange(0, i - 1).reverse());
            assert(rest[0] == self.entries@[i - 1]);
            if str_eq(self.entries[i - 1].0.as_str(), id) {
                return Some(copy_str(self.entries[i - 1].1.as_str()));
            }
            i = i - 1;
        }
        None
    }

    /// Whether no market is known.
    pub fn is_empty(&self) -> (r: bool)
        ensures
            r == (self.entries@.len() == 0),
    {
        self.entries.len() == 0
    }
}

/// Records a value under a key, replacing the value of the first entry that
/// holds the key, or appending an entry when none does.
pub fn keyed_insert<V>(entries: &mut Vec<(String, V)>, key: String, v: V)
    ensures
        pair_lookup(final(entries)@, key@) == Some(v),
        forall|c: Seq<char>|
            c != key@ ==> pair_lookup(final(entries)@, c) == pair_lookup(old(entries)@, c),
{
    let n = entries.len();
    let mut i: usize = 0;
    while i < n
        invariant
            n == entries@.len(),
            entries@ == old(entries)@,
            i <= n,
            forall|j: int| 0 <= j < i ==> entries@[j].0@ != key@,
        decreases n - i,
    {
        if str_eq(entries[i].0.as_str(), key.as_str()) {
            let ghost before = entries@;
            let ghost k = (key, v);
            entries.set(i, (key, v));
            proof {
                lemma_pair_set(before, i as int, k, k.0@);
                assert forall|c: Seq<char>| c != k.0@ implies pair_lookup(entries@, c) == pair_lookup(
                    before,
                    c,
                ) by {
                    lemma_pair_set(before, i as int, k, c);
                }
            }
            return;
        }
        i = i + 1;
    }
    let ghost before = entries@;
    let ghost k = (key, v);
    entries.push((key, v));
    proof {
        lemma_pair_push(before, k, k.0@);
        assert forall|c: Seq<char>| c != k.0@ implies pair_lookup(entries@, c) == pair_lookup(
            before,
            c,
        ) by {
            lemma_pair_push(before, k, c);
        }
    }
}

/// Replacing the first entry under a key changes what that key reads and
/// nothing else.
proof fn lemma_pair_set<V>(s: Seq<(String, V)>, i: int, k: (String, V), c: Seq<char>)
    requires
        0 <= i < s.len(),
        s[i].0@ == k.0@,
        forall|j: int| 0 <= j < i ==> s[j].0@ != k.0@,
    ensures
        pair_lookup(s.update(i, k), k.0@) == Some(k.1),
        c != k.0@ ==> pair_lookup(s.update(i, k), c) == pair_lookup(s, c),
    decreases s.len(),
{
    if i > 0 {
        lemma_pair_set(s.drop_first(), i - 1, k, c);
        assert(s.update(i, k).drop_first() =~= s.drop_first().update(i - 1, k));
    } else {
        assert(s.update(i, k).drop_first() =~= s.drop_first());
    }
}

/// Appending an entry under a key that no entry holds makes that key read
/// the new value and leaves every other key as it was.
proof fn lemma_pair_push<V>(s: Seq<(String, V)>, k: (String, V), c: Seq<char>)
    requires
        forall|j: int| 0 <= j < s.len() ==> s[j].0@ != k.0@,
    ensures
        pair_lookup(s.push(k), k.0@) == Some(k.1),
        c != k.0@ ==> pair_lookup(s.push(k), c) == pair_lookup(s, c),
    decreases s.len(),
{
    if s.len() > 0 {
        lemma_pair_push(s.drop_first(), k, c);
        assert(s.push(k)[0] == s[0]);
        assert(s.push(k).drop_first() =~= s.drop_first().push(k));
    } else {
        let e = Seq::<(String, V)>::empty();
        assert(s =~= e);
        assert(s.push(k)[0] == k);
        assert(s.push(k).drop_first() =~= e);
    }
}

/// `entries` records, for every key in `keys`, a value that `ok` accepts for
/// the last position holding that key, and nothing for other keys.
pub open spec fn pair_keyed_by_last<V>(
    keys: Seq<Seq<char>>,
    entries: Seq<(String, V)>,
    ok: spec_fn(int, V) -> bool,
) -> bool {
    &&& forall|c: Seq<char>| #[trigger] pair_lookup(entries, c) is Some <==> keys.contains(c)
    &&& forall|i: int|
        0 <= i < keys.len() && (forall|j: int| i < j < keys.len() ==> keys[j] != keys[i])
            ==> (#[trigger] pair_lookup(entries, keys[i]) matches Some(b) && ok(i, b))
}

/// Recording one more key keeps `pair_keyed_by_last`.
pub proof fn lemma_pair_keyed_step<V>(
    keys: Seq<Seq<char>>,
    before: Seq<(String, V)>,
    after: Seq<(String, V)>,
    key: Seq<char>,
    b: V,
    ok: spec_fn(int, V) -> bool,
)
    requires
        pair_keyed_by_last(keys, before, ok),
        ok(keys.len() as int, b),
        pair_lookup(after, key) == Some(b),
        forall|c: Seq<char>| c != key ==> pair_lookup(after, c) == pair_lookup(before, c),
    ensures
        pair_keyed_by_last(keys.push(key), after, ok),
{
    let nk = keys.push(key);
    assert forall|c: Seq<char>| #[trigger] pair_lookup(after, c) is Some <==> nk.contains(c) by {
        if c == key {
            assert(nk[keys.len() as int] == key);
        } else {
            if keys.contains(c) {
                let k = choose|k: int| 0 <= k < keys.len() && keys[k] == c;
                assert(nk[k] == c);
            }
            if nk.contains(c) {
                let k = choose|k: int| 0 <= k < nk.len() && nk[k] == c;
                assert(k < keys.len());
                assert(keys[k] == c);
            }
        }
    }
    assert forall|i: int|
        0 <= i < nk.len() && (forall|j: int| i < j < nk.len() ==> nk[j] != nk[i]) implies (
    #[trigger] pair_lookup(after, nk[i]) matches Some(bb) && ok(i, bb)) by {
        if i < keys.len() {
            assert(nk[keys.len() as int] == key);
            assert(nk[i] != key);
            assert(nk[i] == keys[i]);
            assert forall|j: int| i < j < keys.len() implies keys[j] != keys[i] by {
                assert(nk[j] == keys[j]);
            }
        }
    }
}

/// Nothing is recorded for an empty list of keys.
pub proof fn lemma_pair_keyed_empty<V>(ok: spec_fn(int, V) -> bool)
    ensures
        pair_keyed_by_last(Seq::<Seq<char>>::empty(), Seq::<(String, V)>::empty(), ok),
{
    assert forall|c: Seq<char>|
        #[trigger] pair_lookup(Seq::<(String, V)>::empty(), c) is Some
            <==> Seq::<Seq<char>>::empty().contains(c) by {}
}

/// Markets keyed by id, each giving its symbol (`by_id`), or keyed by
/// symbol, each giving its id.
pub fn index_markets(markets: &Vec<Market>, by_id: bool) -> (r: MarketIndex)
    ensures
        r.entries@.len() == markets@.len(),
        forall|k: int|
            0 <= k < markets@.len() ==> (#[trigger] r.entries@[k]).0@ == (if by_id {
                markets@[k].id@
            } else {
                markets@[k].symbol@
            }) && r.entries@[k].1@ == (if by_id {
                markets@[k].symbol@
            } else {
                markets@[k].id@
            }),
{
    let mut entries: Vec<(String, String)> = Vec::new();
    let n = markets.len();
    let mut i: usize = 0;
    while i < n
        invariant
            n == markets@.len(),
            i <= n,
            entries@.len() == i,
            forall|k: int|
                0 <= k < i ==> (#[trigger] entries@[k]).0@ == (if by_id {
                    markets@[k].id@
                } else {
                    markets@[k].symbol@
                }) && entries@[k].1@ == (if by_id {
                    markets@[k].symbol@
                } else {
                    markets@[k].id@
                }),
        decreases n - i,
    {
        let id = copy_str(markets[i].id.as_str());
        let sym = copy_str(markets[i].symbol.as_str());
        if by_id {
            entries.push((id, sym));
        } else {
            entries.push((sym, id));
        }
        i = i + 1;
    }
    MarketIndex { entries }
}

/// One `key=value` piece of a query string, with the value percent-encoded
/// when `encode` holds.
pub open spec fn kv_spec(k: Seq<char>, v: Seq<char>, encode: bool) -> Seq<char> {
    k + seq!['='] + (if encode {
        spec_url_encode(v)
    } else {
        v
    })
}

/// The `key=value` pieces of parameters joined by `&`.
pub open spec fn query_spec(p: Seq<(String, String)>, encode: bool) -> Seq<char>
    decreases p.len(),
{
    if p.len() == 0 {
        Seq::<char>::empty()
    } else if p.len() == 1 {
        kv_spec(p[0].0@, p[0].1@, encode)
    } else {
        query_spec(p.drop_last(), encode) + seq!['&'] + kv_spec(p.last().0@, p.last().1@, encode)
    }
}

/// Joins parameters into a query string `k1=v1&k2=v2...`, percent-encoding
/// the values when `encode` holds.
pub fn build_query(params: &Vec<(String, String)>, encode: bool) -> (r: String)
    ensures
        r@ == query_spec(params@, encode),
{
    let n = params.len();
    let mut r = String::new();
    let mut i: usize = 0;
    while i < n
        invariant
            n == params@.len(),
            i <= n,
            r@ == query_spec(params@.subrange(0, i as int), encode),
        decreases n - i,
    {
        let ghost t = params@.subrange(0, i + 1);
        assert(t.drop_last() =~= params@.subrange(0, i as int));
        assert(t.last() == params@[i as int]);
        if i > 0 {
            push_char(&mut r, '&');
        }
        push_str(&mut r, params[i].0.as_str());
        push_char(&mut r, '=');
        if encode {
            let e = url_encode(params[i].1.as_str());
            push_str(&mut r, e.as_str());
        } else {
            push_str(&mut r, params[i].1.as_str());
        }
        proof {
            if i == 0 {
                assert(r@ =~= kv_spec(t[0].0@, t[0].1@, encode));
            } else {
                assert(r@ =~= query_spec(t.drop_last(), encode) + seq!['&'] + kv_spec(
                    t.last().0@,
                    t.last().1@,
                    encode,
                ));
            }
        }
        i = i + 1;
    }
    assert(params@.subrange(0, n as int) =~= params@);
    r
}

/// A parameter list holding one pair.
pub fn param1(k: &str, v: String) -> (r: Vec<(String, String)>)
    ensures
        r@.len() == 1,
        r@[0].0@ == k@,
        r@[0].1 == v,
{
    let mut r = Vec::new();
    r.push((copy_str(k), v));
    r
}

/// Appends one parameter.
pub fn push_param(p: &mut Vec<(String, String)>, k: &str, v: String)
    ensures
        final(p)@.len() == old(p)@.len() + 1,
        forall|i: int| 0 <= i < old(p)@.len() ==> final(p)@[i] == old(p)@[i],
        final(p)@.last().0@ == k@,
        final(p)@.last().1 == v,
{
    p.push((copy_str(k), v));
}

/// Parameters in rising order of their keys.
pub open spec fn keys_sorted(s: Seq<(String, String)>) -> bool {
    forall|i: int, j: int| 0 <= i < j < s.len() ==> !lex_lt(#[trigger] s[j].0@, #[trigger] s[i].0@)
}

/// Inserting an element adds one occurrence of it.
proof fn lemma_insert_pairs_multiset(s: Seq<(String, String)>, p: int, x: (String, String))
    requires
        0 <= p <= s.len(),
    ensures
        s.insert(p, x).to_multiset() =~= s.to_multiset().insert(x),
{
    broadcast use group_to_multiset_ensures;
    broadcast use vstd::multiset::group_multiset_axioms;
    let t = s.insert(p, x);
    assert(t.remove(p) =~= s);
    to_multiset_remove(t, p);
    assert(t[p] == x);
    assert(t.contains(x));
}

/// The parameters in rising order of their keys (as `sort` orders keys);
/// parameters with equal keys keep their order.
pub fn sort_by_key(params: Vec<(String, String)>) -> (r: Vec<(String, String)>)
    ensures
        keys_sorted(r@),
        r@.to_multiset() == params@.to_multiset(),
{
    let mut out: Vec<(String, String)> = Vec::new();
    let mut rest = params;
    let ghost all = rest@;
    let n = rest.len();
    proof {
        broadcast use group_to_multiset_ensures;
        assert(all.take(0) =~= Seq::<(String, String)>::empty());
        assert(out@ =~= Seq::<(String, String)>::empty());
    }
    let mut i: usize = 0;
    while i < n
        invariant
            n == all.len(),
            i <= n,
            rest@ == all.skip(i as int),
            keys_sorted(out@),
            out@.to_multiset() == all.take(i as int).to_multiset(),
        decreases n - i,
    {
        proof {
            assert(rest@.len() > 0);
        }
        let x = rest.remove(0);
        proof {
            assert(x == all[i as int]);
            assert(rest@ =~= all.skip(i + 1));
        }
        let mut p: usize = 0;
        while p < out.len() && !str_lt(x.0.as_str(), out[p].0.as_str())
            invariant
                p <= out@.len(),
                forall|k: int| 0 <= k < p ==> !lex_lt(x.0@, #[trigger] out@[k].0@),
            decreases out@.len() - p,
        {
            p = p + 1;
        }
        let ghost old_out = out@;
        let ghost xv = x;
        out.insert(p, x);
        proof {
            assert(out@ == old_out.insert(p as int, xv));
            assert forall|a: int, b: int| 0 <= a < b < out@.len() implies !lex_lt(
                #[trigger] out@[b].0@,
                #[trigger] out@[a].0@,
            ) by {
                if b < p {
                    assert(out@[a] == old_out[a] && out@[b] == old_out[b]);
                } else if b == p {
                    assert(out@[a] == old_out[a]);
                } else if a == p {
                    assert(out@[b] == old_out[b - 1]);
                    assert(lex_lt(xv.0@, old_out[p as int].0@));
                    lemma_lex_asym(xv.0@, old_out[p as int].0@);
                    if b - 1 > p {
                        assert(!lex_lt(old_out[b - 1].0@, old_out[p as int].0@));
                        lemma_lex_le_trans(xv.0@, old_out[p as int].0@, old_out[b - 1].0@);
                    }
                } else if a < p {
                    assert(out@[a] == old_out[a] && out@[b] == old_out[b - 1]);
                    assert(!lex_lt(xv.0@, old_out[a].0@));
                    assert(lex_lt(xv.0@, old_out[p as int].0@));
                    lemma_lex_asym(xv.0@, old_out[p as int].0@);
                    lemma_lex_le_trans(old_out[a].0@, xv.0@, old_out[p as int].0@);
                    if b - 1 > p {
                        lemma_lex_le_trans(old_out[a].0@, old_out[p as int].0@, old_out[b - 1].0@);
                    }
                } else {
                    assert(out@[a] == old_out[a - 1] && out@[b] == old_out[b - 1]);
                }
            }
            lemma_insert_pairs_multiset(old_out, p as int, xv);
            assert(all.take(i + 1) =~= all.take(i as int).push(xv));
            to_multiset_build(all.take(i as int), xv);
        }
        i = i + 1;
    }
    proof {
        assert(all.take(n as int) =~= all);
    }
    out
}

/// The price change and its percentage of a ticker: last less open, and that
/// change over open times one hundred; both absent when open is zero or
/// either price is missing.
pub open spec fn spec_change_pct(last: Option<Dec>, open: Option<Dec>) -> (Option<(int, int)>, Option<(int, int)>) {
    match (last, open) {
        (Some(l), Some(o)) => if o.mantissa == 0 {
            (None, None)
        } else {
            let change = checked_op(l, o, |x: (int, int), y: (int, int)| spec_dec_sub(x, y));
            let pct = match change {
                Some(c) => match checked_op(
                    dec_of_parts(c),
                    o,
                    |x: (int, int), y: (int, int)| spec_dec_div(x, y),
                ) {
                    Some(q) => checked_op(
                        dec_of_parts(q),
                        Dec { mantissa: 100, scale: 0 },
                        |x: (int, int), y: (int, int)| spec_dec_mul(x, y),
                    ),
                    None => None,
                },
                None => None,
            };
            (change, pct)
        },
        _ => (None, None),
    }
}

/// A decimal with the given parts.
pub open spec fn dec_of_parts(p: (int, int)) -> Dec {
    Dec { mantissa: p.0 as i128, scale: p.1 as u32 }
}

/// Price change and percentage of a ticker (see [`spec_change_pct`]).
pub fn change_and_percentage(last: Option<Dec>, open: Option<Dec>) -> (r: (Option<Dec>, Option<Dec>))
    requires
        last matches Some(l) ==> l.wf(),
        open matches Some(o) ==> o.wf(),
    ensures
        (opt_parts(r.0), opt_parts(r.1)) == spec_change_pct(last, open),
{
    match (last, open) {
        (Some(l), Some(o)) => {
            if o.mantissa == 0 {
                (None, None)
            } else {
                let change = dec_sub(l, o);
                let pct = match change {
                    Some(c) => match dec_div(c, o) {
                        Some(q) => dec_mul(q, Dec::from_i64(100)),
                        None => None,
                    },
                    None => None,
                };
                (change, pct)
            }
        },
        _ => (None, None),
    }
}

/// The parameters as a JSON object of texts, keys in rising order (as
/// `serde_json` writes a map).
pub fn sorted_text_object(params: &Vec<(String, String)>) -> (r: String)
    ensures
        exists|sorted: Seq<(String, String)>| {
            &&& keys_sorted(sorted)
            &&& #[trigger] sorted.to_multiset() == params@.to_multiset()
            &&& r@ == json_text_object(sorted)
        },
{
    let mut copy: Vec<(String, String)> = Vec::new();
    let n = params.len();
    let mut i: usize = 0;
    while i < n
        invariant
            n == params@.len(),
            i <= n,
            copy@ == params@.take(i as int),
        decreases n - i,
    {
        let e = (params[i].0.clone(), params[i].1.clone());
        copy.push(e);
        proof {
            assert(copy@ =~= params@.take(i + 1));
        }
        i = i + 1;
    }
    proof {
        assert(params@.take(n as int) =~= params@);
    }
    let sorted = sort_by_key(copy);
    let r = json_text_object_of(&sorted);
    proof {
        assert(sorted@.to_multiset() == params@.to_multiset());
    }
    r
}

} // verus!
