//! Kraken Futures streaming: market ids, the signing of the login
//! challenge, and the decoding of feed messages whose numbers have been read
//! into decimals.

use crate::common::{copy_opt, keyed_insert, opt_view, pair_lookup};
use crate::crypto::{
    base64_decode, base64_encode, hmac_sha512, sha256, spec_base64_decode, spec_base64_encode,
    spec_hmac_sha512, spec_sha256,
};
use crate::dec::{dec_add, dec_mul, dec_sub, opt_parts, spec_dec_add, spec_dec_mul, spec_dec_sub, Dec};
use crate::json::{get_str_spec, spec_parse_json, Json};
use crate::text::{
    concat2, concat3, copy_str, push_str, split_char, lower_text, upper_text, all_ascii,
    ascii_lower, ascii_upper, lemma_ascii_case_join, lemma_split_first, lemma_split_absent,
    split_spec, lemma_split_nonempty, starts_with, str_eq, strip_prefix, to_lowercase,
    to_uppercase,
};
use crate::time::{iso8601, iso8601_or_empty, iso8601_or_empty_spec, spec_iso8601};
use crate::types::{
    keyed_by_last, lemma_keyed_empty, lemma_keyed_step, Balance, Balances, ExchangeConfig, Fee,
    MarginMode, Order, OrderBook, OrderBookEntry, OrderSide, OrderStatus, OrderType, Position,
    PositionSide, TakerOrMaker, Ticker, Trade,
};
use crate::ws::{
    WsBalanceEvent, WsMyTradeEvent, WsOrderBookEvent, WsOrderEvent, WsPositionEvent, WsTickerEvent,
    WsTradeEvent,
};
use vstd::prelude::*;
use vstd::utf8::encode_utf8;

verus! {

/// Stream address, public and private feeds alike.
pub const KRAKEN_FUTURES_WS_URL: &'static str = "wss://futures.kraken.com/ws/v1";

/// Ticker feed data; numbers as decimals (`None` where absent or not
/// representable).
#[derive(Clone, Debug, PartialEq)]
pub struct KfWsTicker {
    pub feed: Option<String>,
    pub product_id: Option<String>,
    pub bid: Option<Dec>,
    pub ask: Option<Dec>,
    pub bid_size: Option<Dec>,
    pub ask_size: Option<Dec>,
    pub volume: Option<Dec>,
    pub index: Option<Dec>,
    pub last: Option<Dec>,
    pub time: Option<i64>,
    pub change: Option<Dec>,
    pub mark_price: Option<Dec>,
    pub volume_quote: Option<Dec>,
}

/// One level of a book feed message.
#[derive(Clone, Debug, PartialEq)]
pub struct KfWsOrderBookEntry {
    pub price: Option<Dec>,
    pub qty: Option<Dec>,
}

/// Book feed data.
#[derive(Clone, Debug, PartialEq)]
pub struct KfWsOrderBook {
    pub feed: Option<String>,
    pub product_id: Option<String>,
    pub timestamp: Option<i64>,
    pub seq: Option<i64>,
    pub bids: Option<Vec<KfWsOrderBookEntry>>,
    pub asks: Option<Vec<KfWsOrderBookEntry>>,
}

/// Trade feed data.
#[derive(Clone, Debug, PartialEq)]
pub struct KfWsTrade {
    pub feed: Option<String>,
    pub product_id: Option<String>,
    pub uid: Option<String>,
    pub side: Option<String>,
    pub trade_type: Option<String>,
    pub seq: Option<i64>,
    pub time: Option<i64>,
    pub qty: Option<Dec>,
    pub price: Option<Dec>,
}

/// Trade snapshot feed data.
#[derive(Clone, Debug, PartialEq)]
pub struct KfWsTradeSnapshot {
    pub feed: Option<String>,
    pub product_id: Option<String>,
    pub trades: Option<Vec<KfWsTrade>>,
}

/// Order feed data.
#[derive(Clone, Debug, PartialEq)]
pub struct KfWsOrder {
    pub order_id: Option<String>,
    pub cli_ord_id: Option<String>,
    pub symbol: Option<String>,
    pub side: Option<String>,
    pub order_type: Option<String>,
    pub limit_price: Option<Dec>,
    pub stop_price: Option<Dec>,
    pub quantity: Option<Dec>,
    pub filled: Option<Dec>,
    pub reduce_only: Option<bool>,
    pub timestamp: Option<i64>,
    pub last_update_timestamp: Option<i64>,
    pub status: Option<String>,
    pub reason: Option<String>,
}

/// Holdings of one currency in a balance feed message.
#[derive(Clone, Debug, PartialEq)]
pub struct KfWsBalanceItem {
    pub balance: Option<Dec>,
    pub available: Option<Dec>,
}

/// Balance feed data: holdings per currency.
#[derive(Clone, Debug, PartialEq)]
pub struct KfWsBalance {
    pub account: Option<String>,
    pub seq: Option<i64>,
    pub timestamp: Option<i64>,
    pub balances: Option<Vec<(String, KfWsBalanceItem)>>,
}

/// One position of a position feed message.
#[derive(Clone, Debug, PartialEq)]
pub struct KfWsPositionItem {
    pub instrument: Option<String>,
    pub balance: Option<Dec>,
    pub entry_price: Option<Dec>,
    pub mark_price: Option<Dec>,
    pub index_price: Option<Dec>,
    pub pnl: Option<Dec>,
    pub effective_leverage: Option<Dec>,
}

/// Position feed data.
#[derive(Clone, Debug, PartialEq)]
pub struct KfWsPosition {
    pub account: Option<String>,
    pub positions: Option<Vec<KfWsPositionItem>>,
    pub seq: Option<i64>,
    pub timestamp: Option<i64>,
}

/// One fill of a fill feed message.
#[derive(Clone, Debug, PartialEq)]
pub struct KfWsFillItem {
    pub instrument: Option<String>,
    pub time: Option<i64>,
    pub price: Option<Dec>,
    pub qty: Option<Dec>,
    pub side: Option<String>,
    pub order_id: Option<String>,
    pub cli_ord_id: Option<String>,
    pub fill_id: Option<String>,
    pub fill_type: Option<String>,
    pub fee_paid: Option<Dec>,
    pub fee_currency: Option<String>,
}

/// Fill feed data.
#[derive(Clone, Debug, PartialEq)]
pub struct KfWsFill {
    pub account: Option<String>,
    pub fills: Option<Vec<KfWsFillItem>>,
    pub seq: Option<i64>,
    pub timestamp: Option<i64>,
}

/// The kind of a feed message, by its `feed`.
#[derive(Clone, Copy, Debug, PartialEq, Eq, Structural)]
pub enum KfFeed {
    Ticker,
    BookSnapshot,
    Book,
    Trade,
    TradeSnapshot,
    Orders,
    Balances,
    Positions,
    Fills,
    Other,
}

/// The Kraken Futures stream client: configuration (credentials) and the
/// subscriptions made (key to feed).
pub struct KrakenFuturesWs {
    pub config: ExchangeConfig,
    pub subscriptions: Vec<(String, String)>,
}

/// Whether `s` begins with `p`.
pub open spec fn kr_begins(s: Seq<char>, p: Seq<char>) -> bool {
    p.len() <= s.len() && s.subrange(0, p.len() as int) == p
}

/// The market id of a unified symbol: `BTC/USD:USD` is `pi_xbtusd`, a
/// dated settlement `..:USD-240329` is `fi_xbtusd_240329`; other texts in
/// lower case.
pub open spec fn spec_kr_market_id(s: Seq<char>) -> Seq<char> {
    let p = split_spec(s, '/');
    if p.len() != 2 {
        lower_text(s)
    } else {
        let base = if p[0] == "BTC"@ { "xbt"@ } else { lower_text(p[0]) };
        let qs = split_spec(p[1], ':');
        if qs.len() == 2 && split_spec(qs[1], '-').len() > 1 {
            "fi_"@ + base + "usd_"@ + split_spec(qs[1], '-')[1]
        } else {
            "pi_"@ + base + "usd"@
        }
    }
}

/// The base of a perpetual id's remainder, among the five known ones.
pub open spec fn kr_pi_base(inner: Seq<char>) -> Option<Seq<char>> {
    if kr_begins(inner, "xbt"@) {
        Some("BTC"@)
    } else if kr_begins(inner, "eth"@) {
        Some("ETH"@)
    } else if kr_begins(inner, "ltc"@) {
        Some("LTC"@)
    } else if kr_begins(inner, "xrp"@) {
        Some("XRP"@)
    } else if kr_begins(inner, "bch"@) {
        Some("BCH"@)
    } else {
        None
    }
}

/// The base of a dated or flexible id's remainder: bitcoin or ether.
pub open spec fn kr_two_base(inner: Seq<char>) -> Option<Seq<char>> {
    if kr_begins(inner, "xbt"@) {
        Some("BTC"@)
    } else if kr_begins(inner, "eth"@) {
        Some("ETH"@)
    } else {
        None
    }
}

/// The unified symbol of a market id (read in lower case): perpetual
/// `pi_`, dated `fi_` (with its expiry in upper case) and flexible `pf_`
/// ids of known bases; anything else is the id in upper case.
pub open spec fn spec_kr_unified(m: Seq<char>) -> Seq<char> {
    let lower = lower_text(m);
    if kr_begins(lower, "pi_"@) {
        match kr_pi_base(lower.subrange(3, lower.len() as int)) {
            Some(b) => b + "/USD:USD"@,
            None => upper_text(m),
        }
    } else if kr_begins(lower, "fi_"@) {
        let parts = split_spec(lower.subrange(3, lower.len() as int), '_');
        match kr_two_base(parts[0]) {
            Some(b) => if parts.len() > 1 {
                b + "/USD:USD-"@ + upper_text(parts[1])
            } else {
                b + "/USD:USD"@
            },
            None => upper_text(m),
        }
    } else if kr_begins(lower, "pf_"@) {
        match kr_two_base(lower.subrange(3, lower.len() as int)) {
            Some(b) => b + "/USD:USD"@,
            None => upper_text(m),
        }
    } else {
        upper_text(m)
    }
}

/// The signed challenge: base64 of the HMAC-SHA512, under the decoded
/// secret, of the SHA-256 of the challenge.
pub open spec fn kr_signature(key: Seq<u8>, challenge: Seq<char>) -> Seq<char> {
    spec_base64_encode(spec_hmac_sha512(key, spec_sha256(encode_utf8(challenge))))
}

/// The kind of a feed.
pub open spec fn spec_kr_feed(f: Seq<char>) -> KfFeed {
    if f == "ticker"@ || f == "ticker_lite"@ {
        KfFeed::Ticker
    } else if f == "book_snapshot"@ {
        KfFeed::BookSnapshot
    } else if f == "book"@ {
        KfFeed::Book
    } else if f == "trade"@ {
        KfFeed::Trade
    } else if f == "trade_snapshot"@ {
        KfFeed::TradeSnapshot
    } else if f == "open_orders"@ || f == "open_orders_snapshot"@ || f == "open_orders_verbose"@ || f == "open_orders_verbose_snapshot"@ {
        KfFeed::Orders
    } else if f == "account_balances_and_margins"@ || f == "balances"@ {
        KfFeed::Balances
    } else if f == "open_positions"@ {
        KfFeed::Positions
    } else if f == "fills"@ || f == "fills_snapshot"@ {
        KfFeed::Fills
    } else {
        KfFeed::Other
    }
}

impl KrakenFuturesWs {
    /// A client with a configuration and no subscriptions.
    pub fn new(config: ExchangeConfig) -> (r: KrakenFuturesWs)
        ensures
            r.config == config,
            r.subscriptions@.len() == 0,
    {
        KrakenFuturesWs { config, subscriptions: Vec::new() }
    }

    /// The same as [`KrakenFuturesWs::new`].
    pub fn with_config(config: ExchangeConfig) -> (r: KrakenFuturesWs)
        ensures
            r.config == config,
            r.subscriptions@.len() == 0,
    {
        Self::new(config)
    }

    /// A client with a key and a secret.
    pub fn with_credentials(api_key: String, api_secret: String) -> (r: KrakenFuturesWs)
        ensures
            r.config.api_key == Some(api_key),
            r.config.secret == Some(api_secret),
            r.subscriptions@.len() == 0,
    {
        let config = ExchangeConfig::default().with_api_key(api_key).with_api_secret(api_secret);
        Self::new(config)
    }

    /// Replaces the configuration by one with a key and a secret.
    pub fn set_credentials(&mut self, api_key: String, api_secret: String)
        ensures
            final(self).config.api_key == Some(api_key),
            final(self).config.secret == Some(api_secret),
            final(self).subscriptions == old(self).subscriptions,
    {
        self.config = ExchangeConfig::default().with_api_key(api_key).with_api_secret(api_secret);
    }

    /// A copy without subscriptions.
    pub fn clone(&self) -> (r: KrakenFuturesWs)
        ensures
            opt_view(r.config.api_key) == opt_view(self.config.api_key),
            opt_view(r.config.secret) == opt_view(self.config.secret),
            opt_view(r.config.password) == opt_view(self.config.password),
            opt_view(r.config.uid) == opt_view(self.config.uid),
            r.config.sandbox == self.config.sandbox,
            r.subscriptions@.len() == 0,
    {
        let mut config = ExchangeConfig::default();
        config.api_key = copy_opt(&self.config.api_key);
        config.secret = copy_opt(&self.config.secret);
        config.password = copy_opt(&self.config.password);
        config.uid = copy_opt(&self.config.uid);
        config.sandbox = self.config.sandbox;
        KrakenFuturesWs { config, subscriptions: Vec::new() }
    }
}


/// What the private stream does with a message before it is logged in: a
/// challenge is answered (and ends the wait when the secret decodes); any
/// other message goes to the feed decoder.
#[derive(Debug)]
pub enum KfChallengeStep {
    /// A challenge: whether the client is now logged in, and the signature.
    Answered { authenticated: bool, signature: Option<String> },
    /// Not a challenge.
    Pass,
}

impl KrakenFuturesWs {
    /// The market id of a unified symbol (see [`spec_kr_market_id`]).
    pub fn to_market_id(symbol: &str) -> (r: String)
        ensures
            r@ == spec_kr_market_id(symbol@),
    {
        let parts = split_char(symbol, '/');
        if parts.len() != 2 {
            return to_lowercase(symbol);
        }
        let base = if str_eq(parts[0].as_str(), "BTC") { copy_str("xbt") } else { to_lowercase(parts[0].as_str()) };
        let qs = split_char(parts[1].as_str(), ':');
        if qs.len() == 2 {
            let sp = split_char(qs[1].as_str(), '-');
            if sp.len() > 1 {
                let mut r = concat3("fi_", base.as_str(), "usd_");
                push_str(&mut r, sp[1].as_str());
                return r;
            }
        }
        concat3("pi_", base.as_str(), "usd")
    }

    /// The base of a perpetual id's remainder (see [`kr_pi_base`]).
    fn pi_base(inner: &str) -> (r: Option<&'static str>)
        ensures
            match r {
                Some(b) => kr_pi_base(inner@) == Some(b@),
                None => kr_pi_base(inner@) is None,
            },
    {
        if starts_with(inner, "xbt") {
            Some("BTC")
        } else if starts_with(inner, "eth") {
            Some("ETH")
        } else if starts_with(inner, "ltc") {
            Some("LTC")
        } else if starts_with(inner, "xrp") {
            Some("XRP")
        } else if starts_with(inner, "bch") {
            Some("BCH")
        } else {
            None
        }
    }

    /// The base of a dated or flexible id's remainder (see [`kr_two_base`]).
    fn two_base(inner: &str) -> (r: Option<&'static str>)
        ensures
            match r {
                Some(b) => kr_two_base(inner@) == Some(b@),
                None => kr_two_base(inner@) is None,
            },
    {
        if starts_with(inner, "xbt") {
            Some("BTC")
        } else if starts_with(inner, "eth") {
            Some("ETH")
        } else {
            None
        }
    }

    /// The unified symbol of a market id (see [`spec_kr_unified`]).
    pub fn to_unified_symbol(market_id: &str) -> (r: String)
        ensures
            r@ == spec_kr_unified(market_id@),
    {
        let lower = to_lowercase(market_id);
        proof {
            reveal_strlit("pi_");
            reveal_strlit("fi_");
            reveal_strlit("pf_");
        }
        match strip_prefix(lower.as_str(), "pi_") {
            Some(inner) => {
                return match Self::pi_base(inner.as_str()) {
                    Some(b) => concat2(b, "/USD:USD"),
                    None => to_uppercase(market_id),
                };
            },
            None => {},
        }
        match strip_prefix(lower.as_str(), "fi_") {
            Some(inner) => {
                let parts = split_char(inner.as_str(), '_');
                proof {
                    lemma_split_nonempty(inner@, '_');
                }
                return match Self::two_base(parts[0].as_str()) {
                    Some(b) => if parts.len() > 1 {
                        let e = to_uppercase(parts[1].as_str());
                        concat3(b, "/USD:USD-", e.as_str())
                    } else {
                        concat2(b, "/USD:USD")
                    },
                    None => to_uppercase(market_id),
                };
            },
            None => {},
        }
        match strip_prefix(lower.as_str(), "pf_") {
            Some(inner) => match Self::two_base(inner.as_str()) {
                Some(b) => concat2(b, "/USD:USD"),
                None => to_uppercase(market_id),
            },
            None => to_uppercase(market_id),
        }
    }

    /// The kind of a feed (see [`spec_kr_feed`]).
    pub fn feed_kind(f: &str) -> (r: KfFeed)
        ensures
            r == spec_kr_feed(f@),
    {
        if str_eq(f, "ticker") || str_eq(f, "ticker_lite") {
            KfFeed::Ticker
        } else if str_eq(f, "book_snapshot") {
            KfFeed::BookSnapshot
        } else if str_eq(f, "book") {
            KfFeed::Book
        } else if str_eq(f, "trade") {
            KfFeed::Trade
        } else if str_eq(f, "trade_snapshot") {
            KfFeed::TradeSnapshot
        } else if str_eq(f, "open_orders") || str_eq(f, "open_orders_snapshot") || str_eq(f, "open_orders_verbose")
            || str_eq(f, "open_orders_verbose_snapshot") {
            KfFeed::Orders
        } else if str_eq(f, "account_balances_and_margins") || str_eq(f, "balances") {
            KfFeed::Balances
        } else if str_eq(f, "open_positions") {
            KfFeed::Positions
        } else if str_eq(f, "fills") || str_eq(f, "fills_snapshot") {
            KfFeed::Fills
        } else {
            KfFeed::Other
        }
    }

    /// The kind of a message's feed; `None` when the text holds no JSON or
    /// no text `feed`.
    pub fn message_feed(msg: &str) -> (r: Option<KfFeed>)
        ensures
            match spec_parse_json(msg@) {
                Some(j) => match get_str_spec(j, "feed"@) {
                    Some(f) => r == Some(spec_kr_feed(f)),
                    None => r is None,
                },
                None => r is None,
            },
    {
        let j = match Json::parse(msg) {
            Some(j) => j,
            None => {
                return None;
            },
        };
        match j.get("feed") {
            Some(v) => match v.as_str() {
                Some(f) => Some(Self::feed_kind(f)),
                None => None,
            },
            None => None,
        }
    }

    /// Signs a login challenge: base64 of the HMAC-SHA512, under the
    /// base64-decoded secret, of the challenge's SHA-256. `None` without a
    /// secret or when the secret is no base64.
    pub fn sign_challenge(&self, challenge: &str) -> (r: Option<String>)
        ensures
            match self.config.secret {
                Some(s) => match spec_base64_decode(encode_utf8(s@)) {
                    Some(key) => r matches Some(sig) && sig@ == kr_signature(key, challenge@),
                    None => r is None,
                },
                None => r is None,
            },
    {
        let secret = match &self.config.secret {
            Some(s) => s,
            None => {
                return None;
            },
        };
        Self::sign_with(secret.as_str(), challenge)
    }

    /// Signs a challenge under a secret (see [`Self::sign_challenge`]).
    fn sign_with(secret: &str, challenge: &str) -> (r: Option<String>)
        ensures
            match spec_base64_decode(encode_utf8(secret@)) {
                Some(key) => r matches Some(sig) && sig@ == kr_signature(key, challenge@),
                None => r is None,
            },
    {
        let hash = sha256(challenge.as_bytes());
        let key = match base64_decode(secret.as_bytes()) {
            Some(k) => k,
            None => {
                return None;
            },
        };
        let mac = hmac_sha512(key.as_slice(), hash.as_slice());
        Some(base64_encode(mac.as_slice()))
    }

    /// One message of the private stream while not logged in: a challenge
    /// event (`event` = `challenge`) is answered, and logs in when it
    /// carries a text `message` and the secret decodes; other messages
    /// pass.
    pub fn challenge_step(secret: &str, msg: &str) -> (r: KfChallengeStep)
        ensures
            match spec_parse_json(msg@) {
                Some(j) => if get_str_spec(j, "event"@) == Some("challenge"@) {
                    match get_str_spec(j, "message"@) {
                        Some(c) => match spec_base64_decode(encode_utf8(secret@)) {
                            Some(key) => r matches KfChallengeStep::Answered { authenticated, signature } && authenticated
                                && (signature matches Some(sig) && sig@ == kr_signature(key, c)),
                            None => r matches KfChallengeStep::Answered { authenticated, signature } && !authenticated && signature is None,
                        },
                        None => r matches KfChallengeStep::Answered { authenticated, signature } && !authenticated && signature is None,
                    }
                } else {
                    r is Pass
                },
                None => r is Pass,
            },
    {
        let j = match Json::parse(msg) {
            Some(j) => j,
            None => {
                return KfChallengeStep::Pass;
            },
        };
        let is_challenge = match j.get("event") {
            Some(v) => match v.as_str() {
                Some(e) => str_eq(e, "challenge"),
                None => false,
            },
            None => false,
        };
        if !is_challenge {
            return KfChallengeStep::Pass;
        }
        match j.get("message") {
            Some(v) => match v.as_str() {
                Some(c) => {
                    let sig = Self::sign_with(secret, c);
                    let ok = sig.is_some();
                    KfChallengeStep::Answered { authenticated: ok, signature: sig }
                },
                None => KfChallengeStep::Answered { authenticated: false, signature: None },
            },
            None => KfChallengeStep::Answered { authenticated: false, signature: None },
        }
    }

    /// The credentials a private feed needs: the key, then the secret;
    /// each missing one is refused.
    pub fn private_credentials(&self) -> (r: Result<(String, String), crate::types::CcxtError>)
        ensures
            r is Err <==> (self.config.api_key is None || self.config.secret is None),
            r matches Ok((k, s)) ==> Some(k@) == opt_view(self.config.api_key) && Some(s@) == opt_view(self.config.secret),
            r is Err ==> r matches Err(crate::types::CcxtError::AuthenticationError { .. }),
    {
        let key = match &self.config.api_key {
            Some(k) => copy_str(k.as_str()),
            None => {
                return Err(crate::types::CcxtError::AuthenticationError { message: copy_str("API key required") });
            },
        };
        let secret = match &self.config.secret {
            Some(s) => copy_str(s.as_str()),
            None => {
                return Err(crate::types::CcxtError::AuthenticationError { message: copy_str("API secret required") });
            },
        };
        Ok((key, secret))
    }

    /// The key of a subscription: the feed, `:` and the market ids joined
    /// by commas.
    pub fn subscription_key(feed: &str, product_ids: &Vec<String>) -> (r: String)
        ensures
            r@ == feed@ + ":"@ + kr_join(product_ids@.map_values(|s: String| s@)),
    {
        let mut r = concat2(feed, ":");
        let n = product_ids.len();
        let mut i: usize = 0;
        while i < n
            invariant
                n == product_ids@.len(),
                i <= n,
                r@ == feed@ + ":"@ + kr_join(product_ids@.take(i as int).map_values(|s: String| s@)),
            decreases n - i,
        {
            proof {
                let t = product_ids@.take(i + 1).map_values(|s: String| s@);
                assert(t.drop_last() =~= product_ids@.take(i as int).map_values(|s: String| s@));
                assert(t.last() == product_ids@[i as int]@);
            }
            if i > 0 {
                push_str(&mut r, ",");
            }
            push_str(&mut r, product_ids[i].as_str());
            i = i + 1;
        }
        assert(product_ids@.take(n as int) =~= product_ids@);
        r
    }

    /// Records a subscription under its key.
    pub fn record_subscription(&mut self, key: String, feed: String)
        ensures
            pair_lookup(final(self).subscriptions@, key@) == Some(feed),
            forall|k: Seq<char>| k != key@ ==> pair_lookup(final(self).subscriptions@, k) == pair_lookup(old(self).subscriptions@, k),
            final(self).config == old(self).config,
    {
        keyed_insert(&mut self.subscriptions, key, feed);
    }
}

/// Texts joined by commas.
pub open spec fn kr_join(parts: Seq<Seq<char>>) -> Seq<char>
    decreases parts.len(),
{
    if parts.len() == 0 {
        Seq::<char>::empty()
    } else if parts.len() == 1 {
        parts[0]
    } else {
        kr_join(parts.drop_last()) + ","@ + parts.last()
    }
}


/// An instant, or `now` when there is none.
pub open spec fn or_now(t: Option<i64>, now: i64) -> i64 {
    match t {
        Some(x) => x,
        None => now,
    }
}

/// A ticker event from ticker data at time `now`.
pub open spec fn kr_ticker_ok(d: KfWsTicker, now: i64, e: WsTickerEvent) -> bool {
    let ts = or_now(d.time, now);
    let t = e.ticker;
    &&& e.symbol@ == spec_kr_unified(d.product_id->0@)
    &&& t.symbol@ == e.symbol@
    &&& t.timestamp == Some(ts)
    &&& opt_view(t.datetime) == Some(iso8601_or_empty_spec(ts as int))
    &&& t.high is None && t.low is None
    &&& t.bid == d.bid && t.bid_volume == d.bid_size && t.ask == d.ask && t.ask_volume == d.ask_size
    &&& t.vwap is None && t.open is None
    &&& t.close == d.last && t.last == d.last
    &&& t.previous_close is None && t.change == d.change && t.percentage is None && t.average is None
    &&& t.base_volume == d.volume && t.quote_volume == d.volume_quote
    &&& t.index_price == d.index && t.mark_price == d.mark_price
}

/// A ticker event's bid and ask are the feed's bid and ask, with the bid
/// and ask sizes as their volumes, and its last price is the feed's last.
pub proof fn law_ticker_bid_ask(d: KfWsTicker, now: i64, e: WsTickerEvent)
    requires
        kr_ticker_ok(d, now, e),
    ensures
        e.ticker.bid == d.bid,
        e.ticker.ask == d.ask,
        e.ticker.bid_volume == d.bid_size,
        e.ticker.ask_volume == d.ask_size,
        e.ticker.last == d.last,
{
}

/// The levels with both numbers.
pub open spec fn kr_full_levels(v: Seq<KfWsOrderBookEntry>) -> Seq<KfWsOrderBookEntry> {
    v.filter(|x: KfWsOrderBookEntry| x.price is Some && x.qty is Some)
}

/// A side of the book: the levels with both numbers, in order.
pub open spec fn kr_side_ok(o: Option<Vec<KfWsOrderBookEntry>>, es: Seq<OrderBookEntry>) -> bool {
    match o {
        Some(v) => {
            let rows = kr_full_levels(v@);
            &&& es.len() == rows.len()
            &&& forall|k: int| 0 <= k < es.len() ==> Some((#[trigger] es[k]).price) == rows[k].price && Some(es[k].amount) == rows[k].qty
        },
        None => es.len() == 0,
    }
}

/// A book event from book data at time `now`.
pub open spec fn kr_book_ok(d: KfWsOrderBook, is_snapshot: bool, now: i64, e: WsOrderBookEvent) -> bool {
    let ts = or_now(d.timestamp, now);
    &&& e.symbol@ == spec_kr_unified(d.product_id->0@)
    &&& e.is_snapshot == is_snapshot
    &&& e.order_book.symbol@ == e.symbol@
    &&& e.order_book.timestamp == Some(ts)
    &&& opt_view(e.order_book.datetime) == Some(iso8601_or_empty_spec(ts as int))
    &&& e.order_book.nonce == d.seq
    &&& kr_side_ok(d.bids, e.order_book.bids@)
    &&& kr_side_ok(d.asks, e.order_book.asks@)
}

/// Whether trade data gives a trade: a market, a price and a size.
pub open spec fn kr_trade_reads(d: KfWsTrade) -> bool {
    d.product_id is Some && d.price is Some && d.qty is Some
}

/// A trade from trade data at time `now`.
pub open spec fn kr_trade_ok(d: KfWsTrade, now: i64, t: Trade) -> bool {
    let ts = or_now(d.time, now);
    &&& t.id@ == match d.uid {
        Some(u) => u@,
        None => Seq::<char>::empty(),
    }
    &&& t.order is None
    &&& t.timestamp == Some(ts)
    &&& opt_view(t.datetime) == Some(iso8601_or_empty_spec(ts as int))
    &&& t.symbol@ == spec_kr_unified(d.product_id->0@)
    &&& opt_view(t.trade_type) == opt_view(d.trade_type)
    &&& opt_view(t.side) == opt_view(d.side)
    &&& t.taker_or_maker == Some(TakerOrMaker::Taker)
    &&& Some(t.price) == d.price && Some(t.amount) == d.qty
    &&& opt_parts(t.cost) == crate::dec::checked_op(t.price, t.amount, |x: (int, int), y: (int, int)| spec_dec_mul(x, y))
    &&& t.fee is None
}

/// The trades of a snapshot that give a trade.
pub open spec fn kr_readable_trades(v: Seq<KfWsTrade>) -> Seq<KfWsTrade> {
    v.filter(|t: KfWsTrade| kr_trade_reads(t))
}

/// State of an order: `filled` is closed, `cancelled`/`canceled` canceled,
/// anything else open.
pub open spec fn spec_kr_status(s: Option<String>) -> OrderStatus {
    match s {
        Some(t) => if t@ == "filled"@ {
            OrderStatus::Closed
        } else if t@ == "cancelled"@ || t@ == "canceled"@ {
            OrderStatus::Canceled
        } else {
            OrderStatus::Open
        },
        None => OrderStatus::Open,
    }
}

/// An order read from order data is closed exactly when its status is
/// `filled`, canceled exactly when it is `cancelled` or `canceled`, and open
/// otherwise (also when no status is given).
pub proof fn law_order_status(d: KfWsOrder, now: i64, o: Order)
    requires
        kr_order_ok(d, now, o),
    ensures
        o.status == OrderStatus::Closed <==> opt_view(d.status) == Some("filled"@),
        o.status == OrderStatus::Canceled <==> (opt_view(d.status) == Some("cancelled"@) || opt_view(d.status)
            == Some("canceled"@)),
        o.status == OrderStatus::Open <==> !(opt_view(d.status) == Some("filled"@) || opt_view(d.status) == Some(
            "cancelled"@,
        ) || opt_view(d.status) == Some("canceled"@)),
{
    reveal_strlit("filled");
    reveal_strlit("cancelled");
    reveal_strlit("canceled");
    assert("filled"@[0] != "cancelled"@[0]);
    assert("filled"@[0] != "canceled"@[0]);
}

/// An order read from order data sells exactly when its side is `sell`;
/// it is a limit order exactly under `lmt` or `limit`, a stop-limit order
/// exactly under `stp` or `stop`, and a take-profit order exactly under
/// `take_profit`.
pub proof fn law_order_side_and_type(d: KfWsOrder, now: i64, o: Order)
    requires
        kr_order_ok(d, now, o),
    ensures
        o.side == OrderSide::Sell <==> opt_view(d.side) == Some("sell"@),
        o.order_type == OrderType::Limit <==> (opt_view(d.order_type) == Some("lmt"@) || opt_view(d.order_type)
            == Some("limit"@)),
        o.order_type == OrderType::StopLossLimit <==> (opt_view(d.order_type) == Some("stp"@) || opt_view(
            d.order_type,
        ) == Some("stop"@)),
        o.order_type == OrderType::TakeProfitLimit <==> opt_view(d.order_type) == Some("take_profit"@),
{
    reveal_strlit("lmt");
    reveal_strlit("limit");
    reveal_strlit("stp");
    reveal_strlit("stop");
    reveal_strlit("take_profit");
    assert("lmt"@[0] != "stp"@[0] && "lmt"@[0] != "take_profit"@[0]);
    assert("limit"@[0] != "stop"@[0] && "limit"@[0] != "take_profit"@[0]);
    assert("stp"@[1] != "take_profit"@[1] && "stop"@[1] != "take_profit"@[1]);
}

/// Kind of an order: limit (`lmt`, `limit`), stop (`stp`, `stop`), take
/// profit; market otherwise.
pub open spec fn spec_kr_order_type(s: Option<String>) -> OrderType {
    match s {
        Some(t) => if t@ == "lmt"@ || t@ == "limit"@ {
            OrderType::Limit
        } else if t@ == "stp"@ || t@ == "stop"@ {
            OrderType::StopLossLimit
        } else if t@ == "take_profit"@ {
            OrderType::TakeProfitLimit
        } else {
            OrderType::Market
        },
        None => OrderType::Market,
    }
}

/// An order from order data at time `now`: the later of its two times (the
/// update time when given), amounts zero when absent.
pub open spec fn kr_order_ok(d: KfWsOrder, now: i64, o: Order) -> bool {
    let ts = match d.last_update_timestamp {
        Some(t) => t,
        None => or_now(d.timestamp, now),
    };
    let amount = match d.quantity {
        Some(q) => q,
        None => Dec::zero(),
    };
    let filled = match d.filled {
        Some(f) => f,
        None => Dec::zero(),
    };
    &&& o.id@ == match d.order_id {
        Some(x) => x@,
        None => Seq::<char>::empty(),
    }
    &&& opt_view(o.client_order_id) == opt_view(d.cli_ord_id)
    &&& o.timestamp == Some(ts)
    &&& opt_view(o.datetime) == spec_iso8601(ts as int)
    &&& o.last_trade_timestamp is None
    &&& o.last_update_timestamp == Some(ts)
    &&& o.status == spec_kr_status(d.status)
    &&& o.symbol@ == spec_kr_unified(d.symbol->0@)
    &&& o.order_type == spec_kr_order_type(d.order_type)
    &&& o.time_in_force is None
    &&& o.side == (if opt_view(d.side) == Some("sell"@) { OrderSide::Sell } else { OrderSide::Buy })
    &&& o.price == d.limit_price
    &&& o.average is None
    &&& o.amount == amount && o.filled == filled
    &&& opt_parts(o.remaining) == crate::dec::checked_op(amount, filled, |x: (int, int), y: (int, int)| spec_dec_sub(x, y))
    &&& o.cost is None
    &&& o.trigger_price == d.stop_price && o.stop_price == d.stop_price
    &&& o.fee is None
    &&& o.reduce_only == d.reduce_only && o.post_only is None
    &&& o.no_extras()
}

/// Holdings of one currency: available as free, the rest of the balance as
/// used, their sum as total (each zero when absent).
pub open spec fn kr_balance_ok(item: KfWsBalanceItem, b: Balance) -> bool {
    let free = match item.available {
        Some(x) => x,
        None => Dec::zero(),
    };
    let total = match item.balance {
        Some(x) => x,
        None => Dec::zero(),
    };
    let used = crate::dec::checked_op(total, free, |x: (int, int), y: (int, int)| spec_dec_sub(x, y));
    &&& b.free == Some(free)
    &&& opt_parts(b.used) == used
    &&& opt_parts(b.total) == match used {
        Some(u) => spec_dec_add(free.parts(), u),
        None => None,
    }
}

/// Whether a position item gives a position: an instrument and a size.
pub open spec fn kr_position_reads(p: KfWsPositionItem) -> bool {
    p.instrument is Some && p.balance is Some
}

/// A position from a position item at time `ts`.
pub open spec fn kr_position_ok(p: KfWsPositionItem, ts: i64, r: Position) -> bool {
    &&& r.symbol@ == spec_kr_unified(p.instrument->0@)
    &&& r.timestamp == Some(ts)
    &&& opt_view(r.datetime) == spec_iso8601(ts as int)
    &&& r.contracts == p.balance
    &&& r.side == Some(if p.balance->0.mantissa >= 0 { PositionSide::Long } else { PositionSide::Short })
    &&& r.leverage == p.effective_leverage
    &&& r.unrealized_pnl == p.pnl
    &&& r.margin_mode == Some(MarginMode::Cross)
    &&& r.entry_price == p.entry_price
    &&& r.mark_price == p.mark_price
    &&& r.last_price == p.mark_price
    &&& r.last_update_timestamp == Some(ts)
}

/// Whether a fill item gives a trade: an instrument, a price and a size.
pub open spec fn kr_fill_reads(f: KfWsFillItem) -> bool {
    f.instrument is Some && f.price is Some && f.qty is Some
}

/// A trade from a fill item, the message's time `ts` standing in for a
/// missing fill time.
pub open spec fn kr_fill_ok(f: KfWsFillItem, ts: i64, t: Trade) -> bool {
    let time = match f.time {
        Some(x) => x,
        None => ts,
    };
    &&& t.id@ == match f.fill_id {
        Some(x) => x@,
        None => Seq::<char>::empty(),
    }
    &&& opt_view(t.order) == opt_view(f.order_id)
    &&& t.timestamp == Some(time)
    &&& opt_view(t.datetime) == spec_iso8601(time as int)
    &&& t.symbol@ == spec_kr_unified(f.instrument->0@)
    &&& opt_view(t.trade_type) == opt_view(f.fill_type)
    &&& opt_view(t.side) == opt_view(f.side)
    &&& t.taker_or_maker == Some(TakerOrMaker::Taker)
    &&& Some(t.price) == f.price && Some(t.amount) == f.qty
    &&& opt_parts(t.cost) == crate::dec::checked_op(t.price, t.amount, |x: (int, int), y: (int, int)| spec_dec_mul(x, y))
    &&& match f.fee_paid {
        Some(c) => t.fee matches Some(fee) && fee.cost == Some(c) && opt_view(fee.currency) == opt_view(f.fee_currency) && fee.rate is None,
        None => t.fee is None,
    }
}

impl KrakenFuturesWs {
    /// A ticker event; `None` without a market.
    pub fn parse_ticker(data: &KfWsTicker, now: i64) -> (r: Option<WsTickerEvent>)
        ensures
            r is Some <==> data.product_id is Some,
            r matches Some(e) ==> kr_ticker_ok(*data, now, e),
    {
        let pid = match &data.product_id {
            Some(p) => p,
            None => {
                return None;
            },
        };
        let symbol = Self::to_unified_symbol(pid.as_str());
        let ts = or_now_exec(data.time, now);
        let ticker = Ticker {
            symbol: copy_str(symbol.as_str()),
            timestamp: Some(ts),
            datetime: Some(iso8601_or_empty(ts)),
            high: None,
            low: None,
            bid: data.bid,
            bid_volume: data.bid_size,
            ask: data.ask,
            ask_volume: data.ask_size,
            vwap: None,
            open: None,
            close: data.last,
            last: data.last,
            previous_close: None,
            change: data.change,
            percentage: None,
            average: None,
            base_volume: data.volume,
            quote_volume: data.volume_quote,
            index_price: data.index,
            mark_price: data.mark_price,
        };
        Some(WsTickerEvent { symbol, ticker })
    }

    /// The levels with both numbers, in order.
    fn book_side(o: &Option<Vec<KfWsOrderBookEntry>>) -> (r: Vec<OrderBookEntry>)
        ensures
            kr_side_ok(*o, r@),
    {
        let mut out: Vec<OrderBookEntry> = Vec::new();
        let v = match o {
            Some(v) => v,
            None => {
                return out;
            },
        };
        let n = v.len();
        let mut i: usize = 0;
        while i < n
            invariant
                n == v@.len(),
                i <= n,
                out@.len() == kr_full_levels(v@.take(i as int)).len(),
                forall|k: int| 0 <= k < out@.len() ==> Some((#[trigger] out@[k]).price) == kr_full_levels(v@.take(i as int))[k].price
                    && Some(out@[k].amount) == kr_full_levels(v@.take(i as int))[k].qty,
            decreases n - i,
        {
            proof {
                assert(v@.take(i + 1).drop_last() =~= v@.take(i as int));
                assert(v@.take(i + 1).last() == v@[i as int]);
                reveal_with_fuel(Seq::<_>::filter, 1);
            }
            match (v[i].price, v[i].qty) {
                (Some(p), Some(q)) => {
                    out.push(OrderBookEntry { price: p, amount: q });
                },
                _ => {},
            }
            i = i + 1;
        }
        assert(v@.take(n as int) =~= v@);
        out
    }

    /// A book event; `None` without a market.
    pub fn parse_order_book(data: &KfWsOrderBook, is_snapshot: bool, now: i64) -> (r: Option<WsOrderBookEvent>)
        ensures
            r is Some <==> data.product_id is Some,
            r matches Some(e) ==> kr_book_ok(*data, is_snapshot, now, e),
    {
        let pid = match &data.product_id {
            Some(p) => p,
            None => {
                return None;
            },
        };
        let symbol = Self::to_unified_symbol(pid.as_str());
        let ts = or_now_exec(data.timestamp, now);
        let order_book = OrderBook {
            symbol: copy_str(symbol.as_str()),
            timestamp: Some(ts),
            datetime: Some(iso8601_or_empty(ts)),
            nonce: data.seq,
            bids: Self::book_side(&data.bids),
            asks: Self::book_side(&data.asks),
        };
        Some(WsOrderBookEvent { symbol, order_book, is_snapshot })
    }

    /// A trade; `None` without a market, a price or a size.
    pub fn parse_trade(data: &KfWsTrade, now: i64) -> (r: Option<Trade>)
        ensures
            r is Some <==> kr_trade_reads(*data),
            r matches Some(t) ==> kr_trade_ok(*data, now, t),
    {
        let pid = match &data.product_id {
            Some(p) => p,
            None => {
                return None;
            },
        };
        let price = match data.price {
            Some(p) => p,
            None => {
                return None;
            },
        };
        let amount = match data.qty {
            Some(q) => q,
            None => {
                return None;
            },
        };
        let ts = or_now_exec(data.time, now);
        Some(Trade {
            id: match &data.uid {
                Some(u) => copy_str(u.as_str()),
                None => String::new(),
            },
            order: None,
            timestamp: Some(ts),
            datetime: Some(iso8601_or_empty(ts)),
            symbol: Self::to_unified_symbol(pid.as_str()),
            trade_type: copy_opt(&data.trade_type),
            side: copy_opt(&data.side),
            taker_or_maker: Some(TakerOrMaker::Taker),
            price,
            amount,
            cost: dec_mul(price, amount),
            fee: None,
        })
    }

    /// A trade snapshot: the trades that read, in order; `None` without a
    /// market.
    pub fn parse_trade_snapshot(data: &KfWsTradeSnapshot, now: i64) -> (r: Option<WsTradeEvent>)
        ensures
            r is Some <==> data.product_id is Some,
            r matches Some(e) ==> {
                let rows = match data.trades {
                    Some(v) => kr_readable_trades(v@),
                    None => Seq::<KfWsTrade>::empty(),
                };
                &&& e.symbol@ == spec_kr_unified(data.product_id->0@)
                &&& e.trades@.len() == rows.len()
                &&& forall|k: int| 0 <= k < rows.len() ==> kr_trade_ok(#[trigger] rows[k], now, e.trades@[k])
            },
    {
        let pid = match &data.product_id {
            Some(p) => p,
            None => {
                return None;
            },
        };
        let symbol = Self::to_unified_symbol(pid.as_str());
        let mut trades: Vec<Trade> = Vec::new();
        match &data.trades {
            Some(v) => {
                let n = v.len();
                let mut i: usize = 0;
                while i < n
                    invariant
                        n == v@.len(),
                        i <= n,
                        trades@.len() == kr_readable_trades(v@.take(i as int)).len(),
                        forall|k: int| 0 <= k < trades@.len() ==> kr_trade_ok(#[trigger] kr_readable_trades(v@.take(i as int))[k], now, trades@[k]),
                    decreases n - i,
                {
                    proof {
                        assert(v@.take(i + 1).drop_last() =~= v@.take(i as int));
                        assert(v@.take(i + 1).last() == v@[i as int]);
                        reveal_with_fuel(Seq::<_>::filter, 1);
                    }
                    match Self::parse_trade(&v[i], now) {
                        Some(t) => {
                            trades.push(t);
                        },
                        None => {},
                    }
                    i = i + 1;
                }
                assert(v@.take(n as int) =~= v@);
            },
            None => {},
        }
        Some(WsTradeEvent { symbol, trades })
    }

    /// State of an order (see [`spec_kr_status`]).
    pub fn parse_status(s: &Option<String>) -> (r: OrderStatus)
        ensures
            r == spec_kr_status(*s),
    {
        match s {
            Some(t) => {
                let t = t.as_str();
                if str_eq(t, "filled") {
                    OrderStatus::Closed
                } else if str_eq(t, "cancelled") || str_eq(t, "canceled") {
                    OrderStatus::Canceled
                } else {
                    OrderStatus::Open
                }
            },
            None => OrderStatus::Open,
        }
    }

    /// Kind of an order (see [`spec_kr_order_type`]).
    pub fn parse_order_type(s: &Option<String>) -> (r: OrderType)
        ensures
            r == spec_kr_order_type(*s),
    {
        match s {
            Some(t) => {
                let t = t.as_str();
                if str_eq(t, "lmt") || str_eq(t, "limit") {
                    OrderType::Limit
                } else if str_eq(t, "stp") || str_eq(t, "stop") {
                    OrderType::StopLossLimit
                } else if str_eq(t, "take_profit") {
                    OrderType::TakeProfitLimit
                } else {
                    OrderType::Market
                }
            },
            None => OrderType::Market,
        }
    }

    /// An order update; `None` without a market.
    pub fn parse_order_update(data: &KfWsOrder, now: i64) -> (r: Option<WsOrderEvent>)
        ensures
            r is Some <==> data.symbol is Some,
            r matches Some(e) ==> kr_order_ok(*data, now, e.order),
    {
        let pid = match &data.symbol {
            Some(p) => p,
            None => {
                return None;
            },
        };
        let ts = match data.last_update_timestamp {
            Some(t) => t,
            None => or_now_exec(data.timestamp, now),
        };
        let amount = match data.quantity {
            Some(q) => q,
            None => Dec::zero(),
        };
        let filled = match data.filled {
            Some(f) => f,
            None => Dec::zero(),
        };
        let is_sell = match &data.side {
            Some(s) => str_eq(s.as_str(), "sell"),
            None => false,
        };
        let order = Order {
            id: match &data.order_id {
                Some(x) => copy_str(x.as_str()),
                None => String::new(),
            },
            client_order_id: copy_opt(&data.cli_ord_id),
            timestamp: Some(ts),
            datetime: iso8601(ts),
            last_trade_timestamp: None,
            last_update_timestamp: Some(ts),
            status: Self::parse_status(&data.status),
            symbol: Self::to_unified_symbol(pid.as_str()),
            order_type: Self::parse_order_type(&data.order_type),
            time_in_force: None,
            side: if is_sell { OrderSide::Sell } else { OrderSide::Buy },
            price: data.limit_price,
            average: None,
            amount,
            filled,
            remaining: dec_sub(amount, filled),
            stop_price: data.stop_price,
            trigger_price: data.stop_price,
            take_profit_price: None,
            stop_loss_price: None,
            trades: Vec::new(),
            cost: None,
            fee: None,
            reduce_only: data.reduce_only,
            post_only: None,
        };
        Some(WsOrderEvent { order })
    }

    /// Holdings of one currency (see [`kr_balance_ok`]).
    pub fn balance_of(item: &KfWsBalanceItem) -> (r: Balance)
        ensures
            kr_balance_ok(*item, r),
    {
        let free = match item.available {
            Some(x) => x,
            None => Dec::zero(),
        };
        let total = match item.balance {
            Some(x) => x,
            None => Dec::zero(),
        };
        let used = dec_sub(total, free);
        let sum = match used {
            Some(u) => dec_add(free, u),
            None => None,
        };
        proof {
            match used {
                Some(u) => {
                    if free.wf() && u.wf() {
                    }
                },
                None => {},
            }
        }
        Balance { free: Some(free), used, total: sum }
    }
}

/// An instant, or `now` when there is none.
pub fn or_now_exec(t: Option<i64>, now: i64) -> (r: i64)
    ensures
        r == or_now(t, now),
{
    match t {
        Some(x) => x,
        None => now,
    }
}


/// The position items that give a position.
pub open spec fn kr_readable_positions(v: Seq<KfWsPositionItem>) -> Seq<KfWsPositionItem> {
    v.filter(|p: KfWsPositionItem| kr_position_reads(p))
}

/// The fill items that give a trade.
pub open spec fn kr_readable_fills(v: Seq<KfWsFillItem>) -> Seq<KfWsFillItem> {
    v.filter(|f: KfWsFillItem| kr_fill_reads(f))
}

impl KrakenFuturesWs {
    /// Holdings of a balance message at time `now`: one balance per
    /// currency (a later entry of a currency replacing an earlier one).
    pub fn parse_balance_update(data: &KfWsBalance, now: i64) -> (r: Option<WsBalanceEvent>)
        ensures
            r matches Some(e) && {
                let rows = match data.balances {
                    Some(v) => v@,
                    None => Seq::<(String, KfWsBalanceItem)>::empty(),
                };
                let ts = or_now(data.timestamp, now);
                &&& keyed_by_last(rows.map_values(|x: (String, KfWsBalanceItem)| x.0@), e.balances.currencies@,
                    |i: int, b: Balance| kr_balance_ok(rows[i].1, b))
                &&& e.balances.timestamp == Some(ts)
                &&& opt_view(e.balances.datetime) == spec_iso8601(ts as int)
            },
    {
        let ts = or_now_exec(data.timestamp, now);
        let mut result = Balances::new();
        let empty: Vec<(String, KfWsBalanceItem)> = Vec::new();
        let rows = match &data.balances {
            Some(v) => v,
            None => &empty,
        };
        let ghost ok = |i: int, b: Balance| kr_balance_ok(rows@[i].1, b);
        let n = rows.len();
        let mut k: usize = 0;
        proof {
            lemma_keyed_empty(ok);
            assert(rows@.take(0).map_values(|x: (String, KfWsBalanceItem)| x.0@) =~= Seq::<Seq<char>>::empty());
            assert(result.currencies@ =~= Seq::<(String, Balance)>::empty());
        }
        while k < n
            invariant
                n == rows@.len(),
                k <= n,
                ok == (|i: int, b: Balance| kr_balance_ok(rows@[i].1, b)),
                keyed_by_last(rows@.take(k as int).map_values(|x: (String, KfWsBalanceItem)| x.0@), result.currencies@, ok),
            decreases n - k,
        {
            let b = Self::balance_of(&rows[k].1);
            let ghost before = result.currencies@;
            let ghost c = rows@[k as int].0@;
            result.add(copy_str(rows[k].0.as_str()), b);
            proof {
                let codes = rows@.take(k as int).map_values(|x: (String, KfWsBalanceItem)| x.0@);
                assert(codes.len() == k);
                lemma_keyed_step(codes, before, result.currencies@, c, b, ok);
                assert(codes.push(c) =~= rows@.take(k + 1).map_values(|x: (String, KfWsBalanceItem)| x.0@));
            }
            k = k + 1;
        }
        assert(rows@.take(n as int) =~= rows@);
        result.timestamp = Some(ts);
        result.datetime = iso8601(ts);
        Some(WsBalanceEvent { balances: result })
    }

    /// Positions of a position message at time `now`: one per item with an
    /// instrument and a size, in order.
    pub fn parse_position_update(data: &KfWsPosition, now: i64) -> (r: Option<WsPositionEvent>)
        ensures
            r matches Some(e) && {
                let rows = match data.positions {
                    Some(v) => kr_readable_positions(v@),
                    None => Seq::<KfWsPositionItem>::empty(),
                };
                &&& e.positions@.len() == rows.len()
                &&& forall|k: int| 0 <= k < rows.len() ==> kr_position_ok(#[trigger] rows[k], or_now(data.timestamp, now), e.positions@[k])
            },
    {
        let ts = or_now_exec(data.timestamp, now);
        let mut positions: Vec<Position> = Vec::new();
        match &data.positions {
            Some(v) => {
                let n = v.len();
                let mut i: usize = 0;
                while i < n
                    invariant
                        n == v@.len(),
                        i <= n,
                        ts == or_now(data.timestamp, now),
                        positions@.len() == kr_readable_positions(v@.take(i as int)).len(),
                        forall|k: int| 0 <= k < positions@.len() ==> kr_position_ok(#[trigger] kr_readable_positions(v@.take(i as int))[k], ts, positions@[k]),
                    decreases n - i,
                {
                    proof {
                        assert(v@.take(i + 1).drop_last() =~= v@.take(i as int));
                        assert(v@.take(i + 1).last() == v@[i as int]);
                        reveal_with_fuel(Seq::<_>::filter, 1);
                    }
                    let item = &v[i];
                    match (&item.instrument, item.balance) {
                        (Some(inst), Some(c)) => {
                            let p = Position {
                                symbol: Self::to_unified_symbol(inst.as_str()),
                                timestamp: Some(ts),
                                datetime: iso8601(ts),
                                contracts: Some(c),
                                side: Some(if c.mantissa >= 0 { PositionSide::Long } else { PositionSide::Short }),
                                leverage: item.effective_leverage,
                                unrealized_pnl: item.pnl,
                                margin_mode: Some(MarginMode::Cross),
                                entry_price: item.entry_price,
                                mark_price: item.mark_price,
                                last_price: item.mark_price,
                                last_update_timestamp: Some(ts),
                            };
                            positions.push(p);
                        },
                        _ => {},
                    }
                    i = i + 1;
                }
                assert(v@.take(n as int) =~= v@);
            },
            None => {},
        }
        Some(WsPositionEvent { positions })
    }

    /// Fills of a fill message at time `now`: one trade per item with an
    /// instrument, a price and a size; `None` when there is none. The
    /// event's symbol is the first trade's.
    pub fn parse_fill_update(data: &KfWsFill, now: i64) -> (r: Option<WsMyTradeEvent>)
        ensures
            ({
                let rows = match data.fills {
                    Some(v) => kr_readable_fills(v@),
                    None => Seq::<KfWsFillItem>::empty(),
                };
                &&& r is Some <==> rows.len() > 0
                &&& r matches Some(e) ==> {
                    &&& e.trades@.len() == rows.len()
                    &&& forall|k: int| 0 <= k < rows.len() ==> kr_fill_ok(#[trigger] rows[k], or_now(data.timestamp, now), e.trades@[k])
                    &&& e.symbol@ == spec_kr_unified(rows[0].instrument->0@)
                }
            }),
    {
        let ts = or_now_exec(data.timestamp, now);
        let mut trades: Vec<Trade> = Vec::new();
        match &data.fills {
            Some(v) => {
                let n = v.len();
                let mut i: usize = 0;
                while i < n
                    invariant
                        n == v@.len(),
                        i <= n,
                        ts == or_now(data.timestamp, now),
                        trades@.len() == kr_readable_fills(v@.take(i as int)).len(),
                        forall|k: int| 0 <= k < trades@.len() ==> kr_fill_ok(#[trigger] kr_readable_fills(v@.take(i as int))[k], ts, trades@[k]),
                    decreases n - i,
                {
                    proof {
                        assert(v@.take(i + 1).drop_last() =~= v@.take(i as int));
                        assert(v@.take(i + 1).last() == v@[i as int]);
                        reveal_with_fuel(Seq::<_>::filter, 1);
                    }
                    let item = &v[i];
                    match (&item.instrument, item.price, item.qty) {
                        (Some(inst), Some(price), Some(amount)) => {
                            let time = match item.time {
                                Some(t) => t,
                                None => ts,
                            };
                            let t = Trade {
                                id: match &item.fill_id {
                                    Some(x) => copy_str(x.as_str()),
                                    None => String::new(),
                                },
                                order: copy_opt(&item.order_id),
                                timestamp: Some(time),
                                datetime: iso8601(time),
                                symbol: Self::to_unified_symbol(inst.as_str()),
                                trade_type: copy_opt(&item.fill_type),
                                side: copy_opt(&item.side),
                                taker_or_maker: Some(TakerOrMaker::Taker),
                                price,
                                amount,
                                cost: dec_mul(price, amount),
                                fee: match item.fee_paid {
                                    Some(c) => Some(Fee { cost: Some(c), currency: copy_opt(&item.fee_currency), rate: None }),
                                    None => None,
                                },
                            };
                            trades.push(t);
                        },
                        _ => {},
                    }
                    i = i + 1;
                }
                assert(v@.take(n as int) =~= v@);
            },
            None => {},
        }
        if trades.len() == 0 {
            return None;
        }
        let symbol = copy_str(trades[0].symbol.as_str());
        Some(WsMyTradeEvent { symbol, trades })
    }
}


/// The unified symbol of a Kraken Futures contract: a perpetual
/// `BASE/USD:USD`, or one settled on a date, `BASE/USD:USD-DATE`.
pub open spec fn kr_contract_symbol(base: Seq<char>, date: Option<Seq<char>>) -> Seq<char> {
    match date {
        None => base + "/USD:USD"@,
        Some(d) => base + "/USD:USD-"@ + d,
    }
}

/// The lower-case id part of a known base.
pub open spec fn kr_base_id(base: Seq<char>) -> Seq<char> {
    if base == "BTC"@ {
        seq!['x', 'b', 't']
    } else {
        ascii_lower(base)
    }
}

/// A text of decimal digits.
pub open spec fn kr_digits(d: Seq<char>) -> bool {
    forall|i: int| 0 <= i < d.len() ==> '0' <= #[trigger] d[i] <= '9'
}

/// Digits hold no separator and keep their case.
proof fn lemma_digits(d: Seq<char>)
    requires
        kr_digits(d),
    ensures
        all_ascii(d),
        !d.contains('/') && !d.contains(':') && !d.contains('-') && !d.contains('_'),
        ascii_lower(d) == d,
        ascii_upper(d) == d,
{
    assert(ascii_lower(d) =~= d);
    assert(ascii_upper(d) =~= d);
    assert forall|c: char| (c == '/' || c == ':' || c == '-' || c == '_') implies !d.contains(c) by {
        if d.contains(c) {
            let i = choose|i: int| 0 <= i < d.len() && d[i] == c;
            assert('0' <= d[i] <= '9');
        }
    }
}

/// The market id of a contract symbol of a known base.
proof fn lemma_contract_id(base: Seq<char>, date: Option<Seq<char>>)
    requires
        base == "BTC"@ || base == "ETH"@ || base == "LTC"@ || base == "XRP"@ || base == "BCH"@,
        date matches Some(d) ==> kr_digits(d),
    ensures
        spec_kr_market_id(kr_contract_symbol(base, date)) == match date {
            None => seq!['p', 'i', '_'] + kr_base_id(base) + seq!['u', 's', 'd'],
            Some(d) => seq!['f', 'i', '_'] + kr_base_id(base) + seq!['u', 's', 'd', '_'] + d,
        },
{
    reveal_strlit("BTC");
    reveal_strlit("ETH");
    reveal_strlit("LTC");
    reveal_strlit("XRP");
    reveal_strlit("BCH");
    reveal_strlit("/USD:USD");
    reveal_strlit("/USD:USD-");
    reveal_strlit("xbt");
    reveal_strlit("fi_");
    reveal_strlit("pi_");
    reveal_strlit("usd");
    reveal_strlit("usd_");
    let usd = seq!['U', 'S', 'D'];
    let rest = match date {
        None => usd,
        Some(d) => usd + seq!['-'] + d,
    };
    let q = usd + seq![':'] + rest;
    let sym = kr_contract_symbol(base, date);
    assert(sym =~= base + seq!['/'] + q);
    assert(!base.contains('/')) by {
        if base.contains('/') {
            let i = choose|i: int| 0 <= i < base.len() && base[i] == '/';
        }
    }
    if let Some(d) = date {
        lemma_digits(d);
    }
    assert(!q.contains('/')) by {
        if q.contains('/') {
            let i = choose|i: int| 0 <= i < q.len() && q[i] == '/';
            if let Some(d) = date {
                if i >= 8 {
                    assert(d[i - 8] == '/');
                    assert(d.contains('/'));
                }
            }
        }
    }
    lemma_split_first(base, q, '/');
    lemma_split_absent(q, '/');
    let p = split_spec(sym, '/');
    assert(p =~= seq![base, q]);
    assert(all_ascii(base));
    assert(kr_base_id(base) == (if p[0] == "BTC"@ { "xbt"@ } else { lower_text(p[0]) }));
    assert(!usd.contains(':'));
    assert(!rest.contains(':')) by {
        if rest.contains(':') {
            let i = choose|i: int| 0 <= i < rest.len() && rest[i] == ':';
            if let Some(d) = date {
                if i >= 4 {
                    assert(d[i - 4] == ':');
                    assert(d.contains(':'));
                }
            }
        }
    }
    lemma_split_first(usd, rest, ':');
    lemma_split_absent(rest, ':');
    let qs = split_spec(q, ':');
    assert(qs =~= seq![usd, rest]);
    match date {
        None => {
            assert(!usd.contains('-'));
            lemma_split_absent(usd, '-');
            assert(split_spec(qs[1], '-').len() == 1);
        },
        Some(d) => {
            assert(!usd.contains('-'));
            lemma_split_first(usd, d, '-');
            lemma_split_absent(d, '-');
            assert(split_spec(qs[1], '-') =~= seq![usd, d]);
        },
    }
}

/// The id part of a known base, followed by `usd`, names that base.
proof fn lemma_base_of_id(base: Seq<char>)
    requires
        base == "BTC"@ || base == "ETH"@ || base == "LTC"@ || base == "XRP"@ || base == "BCH"@,
    ensures
        kr_pi_base(kr_base_id(base) + seq!['u', 's', 'd']) == Some(base),
        (base == "BTC"@ || base == "ETH"@) ==> kr_two_base(kr_base_id(base) + seq!['u', 's', 'd']) == Some(base),
{
    reveal_strlit("BTC");
    reveal_strlit("ETH");
    reveal_strlit("LTC");
    reveal_strlit("XRP");
    reveal_strlit("BCH");
    reveal_strlit("xbt");
    reveal_strlit("eth");
    reveal_strlit("ltc");
    reveal_strlit("xrp");
    reveal_strlit("bch");
    let inner = kr_base_id(base) + seq!['u', 's', 'd'];
    let h = inner.subrange(0, 3);
    if base == "BTC"@ {
        assert(h =~= "xbt"@);
    } else if base == "ETH"@ {
        assert(kr_base_id(base) =~= seq!['e', 't', 'h']);
        assert(h =~= "eth"@);
        assert(h[0] != "xbt"@[0]);
    } else if base == "LTC"@ {
        assert(kr_base_id(base) =~= seq!['l', 't', 'c']);
        assert(h =~= "ltc"@);
        assert(h[0] != "xbt"@[0]);
        assert(h[0] != "eth"@[0]);
    } else if base == "XRP"@ {
        assert(kr_base_id(base) =~= seq!['x', 'r', 'p']);
        assert(h =~= "xrp"@);
        assert(h[1] != "xbt"@[1]);
        assert(h[0] != "eth"@[0]);
        assert(h[0] != "ltc"@[0]);
    } else {
        assert(kr_base_id(base) =~= seq!['b', 'c', 'h']);
        assert(h =~= "bch"@);
        assert(h[0] != "xbt"@[0]);
        assert(h[0] != "eth"@[0]);
        assert(h[0] != "ltc"@[0]);
        assert(h[0] != "xrp"@[0]);
    }
}

/// A Kraken Futures contract symbol comes back from its market id: a
/// perpetual of bitcoin, ether, litecoin, ripple or bitcoin cash, or a
/// bitcoin or ether contract settled on a date written in digits.
#[verifier::spinoff_prover]
pub proof fn law_symbol_round_trip(base: Seq<char>, date: Option<Seq<char>>)
    requires
        base == "BTC"@ || base == "ETH"@ || (date is None && (base == "LTC"@ || base == "XRP"@ || base == "BCH"@)),
        date matches Some(d) ==> d.len() > 0 && kr_digits(d),
    ensures
        spec_kr_unified(spec_kr_market_id(kr_contract_symbol(base, date))) == kr_contract_symbol(base, date),
{
    reveal_strlit("BTC");
    reveal_strlit("ETH");
    reveal_strlit("LTC");
    reveal_strlit("XRP");
    reveal_strlit("BCH");
    reveal_strlit("/USD:USD");
    reveal_strlit("/USD:USD-");
    reveal_strlit("xbt");
    reveal_strlit("eth");
    reveal_strlit("ltc");
    reveal_strlit("xrp");
    reveal_strlit("bch");
    reveal_strlit("fi_");
    reveal_strlit("pi_");
    reveal_strlit("pf_");
    lemma_contract_id(base, date);
    let bid = kr_base_id(base);
    assert(bid =~= (if base == "BTC"@ { seq!['x', 'b', 't'] } else if base == "ETH"@ { seq!['e', 't', 'h'] }
        else if base == "LTC"@ { seq!['l', 't', 'c'] } else if base == "XRP"@ { seq!['x', 'r', 'p'] }
        else { seq!['b', 'c', 'h'] }));
    let m = spec_kr_market_id(kr_contract_symbol(base, date));
    match date {
        None => {
            let inner = bid + seq!['u', 's', 'd'];
            assert(m =~= seq!['p', 'i', '_'] + inner);
            assert(all_ascii(m));
            assert(ascii_lower(m) =~= m);
            assert(lower_text(m) == m);
            assert(m.subrange(0, 3) =~= "pi_"@);
            assert(kr_begins(m, "pi_"@));
            assert(m.subrange(3, m.len() as int) =~= inner);
            lemma_base_of_id(base);
            assert(kr_pi_base(inner) == Some(base));
            assert(spec_kr_unified(m) == base + "/USD:USD"@);
        },
        Some(d) => {
            lemma_digits(d);
            let inner = bid + seq!['u', 's', 'd'] + seq!['_'] + d;
            assert(m =~= seq!['f', 'i', '_'] + inner);
            lemma_ascii_case_join(seq!['f', 'i', '_'] + bid + seq!['u', 's', 'd', '_'], d);
            assert(all_ascii(m));
            assert(ascii_lower(seq!['f', 'i', '_'] + bid + seq!['u', 's', 'd', '_'])
                =~= seq!['f', 'i', '_'] + bid + seq!['u', 's', 'd', '_']);
            assert(ascii_lower(m) =~= m);
            assert(lower_text(m) == m);
            assert(!kr_begins(m, "pi_"@)) by {
                assert(m.subrange(0, 3)[0] != "pi_"@[0]);
            }
            assert(m.subrange(0, 3) =~= "fi_"@);
            assert(kr_begins(m, "fi_"@));
            assert(m.subrange(3, m.len() as int) =~= inner);
            let head = bid + seq!['u', 's', 'd'];
            assert(!head.contains('_')) by {
                if head.contains('_') {
                    let i = choose|i: int| 0 <= i < head.len() && head[i] == '_';
                }
            }
            lemma_split_first(head, d, '_');
            lemma_split_absent(d, '_');
            let parts = split_spec(inner, '_');
            assert(parts =~= seq![head, d]);
            lemma_base_of_id(base);
            assert(kr_two_base(head) == Some(base));
            assert(upper_text(d) == d);
            assert(spec_kr_unified(m) =~= base + "/USD:USD-"@ + d);
        },
    }
}

} // verus!
