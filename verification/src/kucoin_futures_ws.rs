//! KuCoin Futures streaming: symbols, topics, signing and the decoding of
//! stream messages.

use crate::common::{copy_opt, keyed_insert, opt_view, pair_lookup};
use crate::crypto::{base64_encode, hmac_sha256, spec_base64_encode, spec_hmac_sha256};
use crate::dec::{
    dec_mul, dec_parse, dec_sub, opt_parts, opt_text_dec, opt_text_dec_or_zero, parse_opt,
    parse_opt_or_zero, parse_or_zero, spec_dec_mul, spec_dec_parse, spec_dec_sub, text_dec_or_zero,
    Dec,
};
use crate::book::{parse_text_levels, text_levels};
use crate::json::{
    opt_int_is, opt_text_is, parse_i64, spec_get, spec_parse_json, spec_opt_bool_field, spec_opt_dec_field, spec_opt_i64_field, spec_opt_str_field,
    spec_parse_i64, spec_str_array, spec_str_array_array, spec_str_field, texts1, texts2, Json,
};
use crate::text::{
    concat2, concat3, copy_str, ends_with, ends_with_str, push_str, remove_all, remove_char,
    spec_to_lowercase, split_char, split_spec, starts_with, str_contains, str_eq, substring,
    to_lowercase, lemma_split_nonempty, has_sub, lemma_remove_separator, lemma_split_first,
};
use crate::time::{iso8601_or_empty, iso8601_or_empty_spec};
use crate::types::{
    Balance, Balances, CcxtError, Fee, OHLCV, Order, OrderBook, OrderBookEntry, OrderSide,
    OrderStatus, OrderType, TakerOrMaker, Ticker, TimeInForce, Timeframe, Trade,
};
use crate::ws::{
    WsBalanceEvent, WsMessage, WsMyTradeEvent, WsOhlcvEvent, WsOrderBookEvent, WsOrderEvent,
    WsTickerEvent, WsTradeEvent,
};
use vstd::prelude::*;
use vstd::utf8::encode_utf8;

verus! {

/// REST address that hands out stream tokens.
pub const KUCOIN_FUTURES_BASE_URL: &'static str = "https://api-futures.kucoin.com";

/// Ticker data of a stream message.
#[derive(Clone, Debug, PartialEq)]
pub struct KucoinFuturesTickerData {
    pub symbol: String,
    pub ts: Option<i64>,
    pub price: Option<String>,
    pub size: Option<Dec>,
    pub best_bid_price: Option<String>,
    pub best_bid_size: Option<String>,
    pub best_ask_price: Option<String>,
    pub best_ask_size: Option<String>,
    pub mark_price: Option<String>,
    pub index_price: Option<String>,
}

/// Order-book data of a stream message: a snapshot's sides, or one change
/// written `price,size,side`.
#[derive(Clone, Debug, PartialEq)]
pub struct KucoinFuturesOrderBookData {
    pub asks: Option<Vec<Vec<String>>>,
    pub bids: Option<Vec<Vec<String>>>,
    pub timestamp: Option<i64>,
    pub sequence: Option<i64>,
    pub change: Option<String>,
}

/// Trade data of a stream message.
#[derive(Clone, Debug, PartialEq)]
pub struct KucoinFuturesTradeData {
    pub symbol: String,
    pub trade_id: Option<String>,
    pub price: String,
    pub size: Option<String>,
    pub side: Option<String>,
    pub ts: Option<i64>,
    pub maker_order_id: Option<String>,
    pub taker_order_id: Option<String>,
}

/// Candle data of a stream message: time, open, close, high, low, volume,
/// turnover.
#[derive(Clone, Debug, PartialEq)]
pub struct KucoinFuturesCandleData {
    pub symbol: String,
    pub candles: Vec<String>,
    pub time: Option<i64>,
}

/// Order data of a private stream message.
#[derive(Clone, Debug, PartialEq)]
pub struct KucoinFuturesOrderData {
    pub symbol: String,
    pub order_id: String,
    pub side: String,
    pub order_type: Option<String>,
    pub order_type_str: Option<String>,
    pub status: Option<String>,
    pub price: Option<String>,
    pub size: Option<String>,
    pub filled_size: Option<String>,
    pub remain_size: Option<String>,
    pub client_oid: Option<String>,
    pub ts: Option<i64>,
    pub order_time: Option<i64>,
    pub time_in_force: Option<String>,
    pub stop_price: Option<String>,
    pub reduce_only: Option<bool>,
    pub match_price: Option<String>,
    pub match_size: Option<String>,
    pub trade_id: Option<String>,
    pub liquidity: Option<String>,
    pub fee: Option<String>,
    pub fee_currency: Option<String>,
    pub fill_price: Option<String>,
}

/// Wallet data of a private stream message.
#[derive(Clone, Debug, PartialEq)]
pub struct KucoinFuturesBalanceData {
    pub currency: String,
    pub account_equity: Option<String>,
    pub available_balance: Option<String>,
    pub frozen_funds: Option<String>,
    pub order_margin: Option<String>,
    pub position_margin: Option<String>,
    pub unrealised_pnl: Option<String>,
    pub time: Option<i64>,
}

/// The KuCoin Futures stream client: a connection id, credentials for
/// private channels and the subscriptions made (channel key to channel).
pub struct KucoinFuturesWs {
    pub connect_id: String,
    pub api_key: Option<String>,
    pub api_secret: Option<String>,
    pub passphrase: Option<String>,
    pub subscriptions: Vec<(String, String)>,
}

/// The exchange symbol of a unified symbol: the part before `:`, without
/// `/`, with `M` appended unless it already ends in `M`.
pub open spec fn spec_kf_format_symbol(symbol: Seq<char>) -> Seq<char> {
    let f = remove_all(split_spec(symbol, ':')[0], '/');
    if f.len() > 0 && f.last() == 'M' {
        f
    } else {
        f.push('M')
    }
}

/// A text with every trailing `M` removed.
pub open spec fn trim_trailing_m(s: Seq<char>) -> Seq<char>
    decreases s.len(),
{
    if s.len() > 0 && s.last() == 'M' {
        trim_trailing_m(s.drop_last())
    } else {
        s
    }
}

/// The quote currencies tried, in order, when reading an exchange symbol.
pub open spec fn kf_quotes() -> Seq<Seq<char>> {
    seq!["USDT"@, "USD"@, "USDC"@, "BTC"@, "ETH"@]
}

/// The first quote (from index `i` on) that ends `base`, if any.
pub open spec fn kf_first_quote(base: Seq<char>, i: int) -> Option<Seq<char>>
    decreases 5 - i,
{
    if i >= 5 || i < 0 {
        None
    } else if ends_with(base, kf_quotes()[i]) {
        Some(kf_quotes()[i])
    } else {
        kf_first_quote(base, i + 1)
    }
}

/// The unified symbol of an exchange symbol: trailing `M`s dropped, the first
/// matching quote split off (`XBT` read as `BTC`), settled in the quote;
/// `USDT` when no quote matches.
pub open spec fn spec_kf_unified(s: Seq<char>) -> Seq<char> {
    let base = trim_trailing_m(s);
    match kf_first_quote(base, 0) {
        Some(q) => {
            let b = base.subrange(0, base.len() - q.len());
            let b2 = if b == "XBT"@ { "BTC"@ } else { b };
            b2 + "/"@ + q + ":"@ + q
        },
        None => base + "/USDT:USDT"@,
    }
}

/// Interval text of a timeframe (one minute for those not offered).
pub open spec fn spec_kf_interval(tf: Timeframe) -> Seq<char> {
    match tf {
        Timeframe::Minute1 => "1"@,
        Timeframe::Minute5 => "5"@,
        Timeframe::Minute15 => "15"@,
        Timeframe::Minute30 => "30"@,
        Timeframe::Hour1 => "60"@,
        Timeframe::Hour2 => "120"@,
        Timeframe::Hour4 => "240"@,
        Timeframe::Hour8 => "480"@,
        Timeframe::Hour12 => "720"@,
        Timeframe::Day1 => "1440"@,
        Timeframe::Week1 => "10080"@,
        _ => "1"@,
    }
}

/// The timeframe of an interval text (one minute for unknown texts).
pub open spec fn spec_kf_timeframe_of(t: Seq<char>) -> Timeframe {
    if t == "5"@ {
        Timeframe::Minute5
    } else if t == "15"@ {
        Timeframe::Minute15
    } else if t == "30"@ {
        Timeframe::Minute30
    } else if t == "60"@ {
        Timeframe::Hour1
    } else if t == "120"@ {
        Timeframe::Hour2
    } else if t == "240"@ {
        Timeframe::Hour4
    } else if t == "480"@ {
        Timeframe::Hour8
    } else if t == "720"@ {
        Timeframe::Hour12
    } else if t == "1440"@ {
        Timeframe::Day1
    } else if t == "10080"@ {
        Timeframe::Week1
    } else {
        Timeframe::Minute1
    }
}

/// Division rounding toward zero, as Rust's `/` on integers does.
pub open spec fn trunc_div(x: int, d: int) -> int {
    if x >= 0 {
        x / d
    } else {
        -((-x) / d)
    }
}

/// Milliseconds of a time in nanoseconds, or `now` when there is none.
pub open spec fn kf_ms(ts: Option<i64>, now: i64) -> int {
    match ts {
        Some(t) => trunc_div(t as int, 1_000_000),
        None => now as int,
    }
}

/// The base64 HMAC-SHA256 of a message under a secret.
pub open spec fn kf_signature(secret: Seq<char>, message: Seq<char>) -> Seq<char> {
    spec_base64_encode(spec_hmac_sha256(encode_utf8(secret), encode_utf8(message)))
}


/// A lower-case hexadecimal digit.
pub open spec fn is_lower_hex(c: char) -> bool {
    ('0' <= c && c <= '9') || ('a' <= c && c <= 'f')
}

/// The hyphenated lower-case text of a version-4 UUID: 36 characters, hex
/// digits in groups of 8, 4, 4, 4 and 12 parted by hyphens, the version
/// digit `4` opening the third group and one of `8`, `9`, `a`, `b` (the
/// variant) opening the fourth.
pub open spec fn is_uuid_v4_text(s: Seq<char>) -> bool {
    &&& s.len() == 36
    &&& forall|i: int|
        #![trigger s[i]]
        0 <= i < 36 ==> if i == 8 || i == 13 || i == 18 || i == 23 {
            s[i] == '-'
        } else {
            is_lower_hex(s[i])
        }
    &&& s[14] == '4'
    &&& (s[19] == '8' || s[19] == '9' || s[19] == 'a' || s[19] == 'b')
}

/// A fresh connection id: `uuid::Uuid::new_v4().to_string()`. The UUID's
/// bits are random but for the version and variant bits, and its `Display`
/// writes the hyphenated lower-case form. Which id comes out is chance.
#[verifier::external_body]
fn new_connect_id() -> (r: String)
    ensures
        is_uuid_v4_text(r@),
{
    uuid::Uuid::new_v4().to_string()
}

/// The message signed to obtain a private stream token at time `ts`.
pub open spec fn kf_token_message(ts: Seq<char>) -> Seq<char> {
    ts + "POST/api/v1/bullet-private"@
}

/// The message signed for a private stream token starts with the time and
/// ends with the request `POST/api/v1/bullet-private`.
pub proof fn law_token_message_parts(ts: Seq<char>, r: Seq<char>)
    requires
        r == kf_token_message(ts),
    ensures
        r.take(ts.len() as int) == ts,
        r.skip(ts.len() as int) == "POST/api/v1/bullet-private"@,
{
    assert(r.take(ts.len() as int) =~= ts);
    assert(r.skip(ts.len() as int) =~= "POST/api/v1/bullet-private"@);
}

/// The address of a stream server with its token and connection id.
pub open spec fn kf_ws_url(endpoint: Seq<char>, token: Seq<char>, connect_id: Seq<char>) -> Seq<char> {
    endpoint + "?token="@ + token + "&connectId="@ + connect_id
}

/// The order-book topic for a market id and an optional depth limit:
/// five-level snapshots up to 5, fifty-level snapshots up to 50, increments
/// otherwise.
pub open spec fn kf_book_topic(id: Seq<char>, limit: Option<u32>) -> Seq<char> {
    match limit {
        Some(l) => if l <= 5 {
            "/contractMarket/level2Depth5:"@ + id
        } else if l <= 50 {
            "/contractMarket/level2Depth50:"@ + id
        } else {
            "/contractMarket/level2:"@ + id
        },
        None => "/contractMarket/level2:"@ + id,
    }
}

impl KucoinFuturesWs {
    /// A client without credentials or subscriptions, under a fresh
    /// connection id.
    pub fn new() -> (r: KucoinFuturesWs)
        ensures
            is_uuid_v4_text(r.connect_id@),
            r.api_key is None,
            r.api_secret is None,
            r.passphrase is None,
            r.subscriptions@.len() == 0,
    {
        KucoinFuturesWs {
            connect_id: new_connect_id(),
            api_key: None,
            api_secret: None,
            passphrase: None,
            subscriptions: Vec::new(),
        }
    }

    /// A client with credentials for the private channels.
    pub fn with_credentials(api_key: &str, api_secret: &str, passphrase: &str) -> (r: KucoinFuturesWs)
        ensures
            is_uuid_v4_text(r.connect_id@),
            opt_view(r.api_key) == Some(api_key@),
            opt_view(r.api_secret) == Some(api_secret@),
            opt_view(r.passphrase) == Some(passphrase@),
            r.subscriptions@.len() == 0,
    {
        KucoinFuturesWs {
            connect_id: new_connect_id(),
            api_key: Some(copy_str(api_key)),
            api_secret: Some(copy_str(api_secret)),
            passphrase: Some(copy_str(passphrase)),
            subscriptions: Vec::new(),
        }
    }

    /// Replaces the credentials; the rest stays.
    pub fn set_credentials(&mut self, api_key: &str, api_secret: &str, passphrase: &str)
        ensures
            opt_view(final(self).api_key) == Some(api_key@),
            opt_view(final(self).api_secret) == Some(api_secret@),
            opt_view(final(self).passphrase) == Some(passphrase@),
            final(self).connect_id == old(self).connect_id,
            final(self).subscriptions == old(self).subscriptions,
    {
        self.api_key = Some(copy_str(api_key));
        self.api_secret = Some(copy_str(api_secret));
        self.passphrase = Some(copy_str(passphrase));
    }

    /// The API key, if any.
    pub fn get_api_key(&self) -> (r: Option<&str>)
        ensures
            match r {
                Some(k) => opt_view(self.api_key) == Some(k@),
                None => self.api_key is None,
            },
    {
        match &self.api_key {
            Some(k) => Some(k.as_str()),
            None => None,
        }
    }

    /// The exchange symbol of a unified symbol (see [`spec_kf_format_symbol`]).
    pub fn format_symbol(symbol: &str) -> (r: String)
        ensures
            r@ == spec_kf_format_symbol(symbol@),
    {
        let parts = split_char(symbol, ':');
        proof {
            lemma_split_nonempty(symbol@, ':');
        }
        let f = remove_char(parts[0].as_str(), '/');
        let n = f.as_str().unicode_len();
        if n > 0 && f.as_str().get_char(n - 1) == 'M' {
            f
        } else {
            let mut g = f;
            push_str(&mut g, "M");
            proof {
                reveal_strlit("M");
            }
            g
        }
    }

    /// A text without its trailing `M`s.
    fn trim_m(s: &str) -> (r: String)
        ensures
            r@ == trim_trailing_m(s@),
    {
        let mut n = s.unicode_len();
        assert(s@.subrange(0, n as int) =~= s@);
        while n > 0 && s.get_char(n - 1) == 'M'
            invariant
                n <= s@.len(),
                trim_trailing_m(s@) == trim_trailing_m(s@.subrange(0, n as int)),
            decreases n,
        {
            assert(s@.subrange(0, n as int).drop_last() =~= s@.subrange(0, n - 1));
            n = n - 1;
        }
        substring(s, 0, n)
    }

    /// The unified symbol of a base ending in a quote.
    fn join_quote(base: &str, q: &str) -> (r: String)
        requires
            ends_with(base@, q@),
        ensures
            r@ == ({
                let b = base@.subrange(0, base@.len() - q@.len());
                let b2 = if b == "XBT"@ { "BTC"@ } else { b };
                b2 + "/"@ + q@ + ":"@ + q@
            }),
    {
        let n = base.unicode_len();
        let m = q.unicode_len();
        let b = substring(base, 0, n - m);
        let mut r = if str_eq(b.as_str(), "XBT") { copy_str("BTC") } else { b };
        push_str(&mut r, "/");
        push_str(&mut r, q);
        push_str(&mut r, ":");
        push_str(&mut r, q);
        r
    }

    /// The unified symbol of an exchange symbol (see [`spec_kf_unified`]).
    pub fn to_unified_symbol(s: &str) -> (r: String)
        ensures
            r@ == spec_kf_unified(s@),
    {
        let base = Self::trim_m(s);
        let b = base.as_str();
        proof {
            reveal_strlit("USDT");
            reveal_strlit("USD");
            reveal_strlit("USDC");
            reveal_strlit("BTC");
            reveal_strlit("ETH");
            reveal_with_fuel(kf_first_quote, 6);
        }
        if ends_with_str(b, "USDT") {
            return Self::join_quote(b, "USDT");
        }
        if ends_with_str(b, "USD") {
            return Self::join_quote(b, "USD");
        }
        if ends_with_str(b, "USDC") {
            return Self::join_quote(b, "USDC");
        }
        if ends_with_str(b, "BTC") {
            return Self::join_quote(b, "BTC");
        }
        if ends_with_str(b, "ETH") {
            return Self::join_quote(b, "ETH");
        }
        concat2(b, "/USDT:USDT")
    }

    /// Interval text of a timeframe (see [`spec_kf_interval`]).
    pub fn format_interval(tf: Timeframe) -> (r: &'static str)
        ensures
            r@ == spec_kf_interval(tf),
    {
        proof {
            reveal_strlit("1");
            reveal_strlit("5");
            reveal_strlit("15");
            reveal_strlit("30");
            reveal_strlit("60");
            reveal_strlit("120");
            reveal_strlit("240");
            reveal_strlit("480");
            reveal_strlit("720");
            reveal_strlit("1440");
            reveal_strlit("10080");
        }
        match tf {
            Timeframe::Minute1 => "1",
            Timeframe::Minute5 => "5",
            Timeframe::Minute15 => "15",
            Timeframe::Minute30 => "30",
            Timeframe::Hour1 => "60",
            Timeframe::Hour2 => "120",
            Timeframe::Hour4 => "240",
            Timeframe::Hour8 => "480",
            Timeframe::Hour12 => "720",
            Timeframe::Day1 => "1440",
            Timeframe::Week1 => "10080",
            _ => "1",
        }
    }

    /// The timeframe of an interval text (see [`spec_kf_timeframe_of`]).
    pub fn timeframe_of_interval(t: &str) -> (r: Timeframe)
        ensures
            r == spec_kf_timeframe_of(t@),
    {
        if str_eq(t, "5") {
            Timeframe::Minute5
        } else if str_eq(t, "15") {
            Timeframe::Minute15
        } else if str_eq(t, "30") {
            Timeframe::Minute30
        } else if str_eq(t, "60") {
            Timeframe::Hour1
        } else if str_eq(t, "120") {
            Timeframe::Hour2
        } else if str_eq(t, "240") {
            Timeframe::Hour4
        } else if str_eq(t, "480") {
            Timeframe::Hour8
        } else if str_eq(t, "720") {
            Timeframe::Hour12
        } else if str_eq(t, "1440") {
            Timeframe::Day1
        } else if str_eq(t, "10080") {
            Timeframe::Week1
        } else {
            Timeframe::Minute1
        }
    }

    /// Base64 of the HMAC-SHA256 of a message under a secret.
    pub fn sign(secret: &str, message: &str) -> (r: String)
        ensures
            r@ == kf_signature(secret@, message@),
    {
        let mac = hmac_sha256(secret.as_bytes(), message.as_bytes());
        base64_encode(mac.as_slice())
    }

    /// The passphrase as the exchange expects it: signed under the secret.
    pub fn encrypt_passphrase(secret: &str, passphrase: &str) -> (r: String)
        ensures
            r@ == kf_signature(secret@, passphrase@),
    {
        Self::sign(secret, passphrase)
    }

    /// Headers of the private token request at time `ts` (milliseconds, as
    /// text): key, signature of `ts` + `POST/api/v1/bullet-private`, time,
    /// signed passphrase and key version 2. Each missing credential is
    /// refused, the key first, then the secret, then the passphrase.
    pub fn private_token_headers(&self, ts: &str) -> (r: Result<Vec<(String, String)>, CcxtError>)
        ensures
            r is Err <==> (self.api_key is None || self.api_secret is None || self.passphrase is None),
            r is Err ==> r matches Err(CcxtError::AuthenticationError { .. }),
            r matches Ok(h) ==> {
                let secret = self.api_secret->0@;
                &&& h@.len() == 5
                &&& h@[0].0@ == "KC-API-KEY"@ && h@[0].1@ == self.api_key->0@
                &&& h@[1].0@ == "KC-API-SIGN"@ && h@[1].1@ == kf_signature(secret, kf_token_message(ts@))
                &&& h@[2].0@ == "KC-API-TIMESTAMP"@ && h@[2].1@ == ts@
                &&& h@[3].0@ == "KC-API-PASSPHRASE"@ && h@[3].1@ == kf_signature(secret, self.passphrase->0@)
                &&& h@[4].0@ == "KC-API-KEY-VERSION"@ && h@[4].1@ == "2"@
            },
    {
        let key = match &self.api_key {
            Some(k) => k,
            None => {
                return Err(CcxtError::AuthenticationError { message: copy_str("API key required for private channels") });
            },
        };
        let secret = match &self.api_secret {
            Some(s) => s,
            None => {
                return Err(CcxtError::AuthenticationError { message: copy_str("API secret required for private channels") });
            },
        };
        let pass = match &self.passphrase {
            Some(p) => p,
            None => {
                return Err(CcxtError::AuthenticationError { message: copy_str("Passphrase required for private channels") });
            },
        };
        let msg = concat2(ts, "POST/api/v1/bullet-private");
        let signature = Self::sign(secret.as_str(), msg.as_str());
        let encrypted = Self::encrypt_passphrase(secret.as_str(), pass.as_str());
        let mut h: Vec<(String, String)> = Vec::new();
        h.push((copy_str("KC-API-KEY"), copy_str(key.as_str())));
        h.push((copy_str("KC-API-SIGN"), signature));
        h.push((copy_str("KC-API-TIMESTAMP"), copy_str(ts)));
        h.push((copy_str("KC-API-PASSPHRASE"), encrypted));
        h.push((copy_str("KC-API-KEY-VERSION"), copy_str("2")));
        Ok(h)
    }

    /// The address of a stream server with its token and this client's
    /// connection id.
    pub fn ws_url(&self, endpoint: &str, token: &str) -> (r: String)
        ensures
            r@ == kf_ws_url(endpoint@, token@, self.connect_id@),
    {
        let mut r = copy_str(endpoint);
        push_str(&mut r, "?token=");
        push_str(&mut r, token);
        push_str(&mut r, "&connectId=");
        push_str(&mut r, self.connect_id.as_str());
        assert(r@ =~= kf_ws_url(endpoint@, token@, self.connect_id@));
        r
    }

    /// Seconds between pings: the server's interval in milliseconds (18000
    /// when it gives none) divided by 1000, cast to `u64`.
    pub fn ping_interval_secs(ping_interval_ms: Option<i64>) -> (r: u64)
        ensures
            r == (trunc_div(
                match ping_interval_ms {
                    Some(p) => p as int,
                    None => 18000,
                },
                1000,
            ) as u64),
    {
        let p: i64 = match ping_interval_ms {
            Some(p) => p,
            None => 18000,
        };
        let q: i64 = if p >= 0 { p / 1000 } else { -((-(p as i128)) / 1000) as i64 };
        q as u64
    }

    /// Topic of a market's tickers.
    pub fn ticker_topic(symbol: &str) -> (r: String)
        ensures
            r@ == "/contractMarket/tickerV2:"@ + spec_kf_format_symbol(symbol@),
    {
        let id = Self::format_symbol(symbol);
        concat2("/contractMarket/tickerV2:", id.as_str())
    }

    /// Topic of a market's order book for an optional depth limit (see
    /// [`kf_book_topic`]).
    pub fn order_book_topic(symbol: &str, limit: Option<u32>) -> (r: String)
        ensures
            r@ == kf_book_topic(spec_kf_format_symbol(symbol@), limit),
    {
        let id = Self::format_symbol(symbol);
        match limit {
            Some(l) => if l <= 5 {
                concat2("/contractMarket/level2Depth5:", id.as_str())
            } else if l <= 50 {
                concat2("/contractMarket/level2Depth50:", id.as_str())
            } else {
                concat2("/contractMarket/level2:", id.as_str())
            },
            None => concat2("/contractMarket/level2:", id.as_str()),
        }
    }

    /// Topic of a market's public trades.
    pub fn trades_topic(symbol: &str) -> (r: String)
        ensures
            r@ == "/contractMarket/execution:"@ + spec_kf_format_symbol(symbol@),
    {
        let id = Self::format_symbol(symbol);
        concat2("/contractMarket/execution:", id.as_str())
    }

    /// Topic of a market's candles of one timeframe.
    pub fn ohlcv_topic(symbol: &str, tf: Timeframe) -> (r: String)
        ensures
            r@ == "/contractMarket/candle:"@ + spec_kf_format_symbol(symbol@) + "_"@ + spec_kf_interval(tf),
    {
        let id = Self::format_symbol(symbol);
        let mut r = concat3("/contractMarket/candle:", id.as_str(), "_");
        push_str(&mut r, Self::format_interval(tf));
        assert(r@ =~= "/contractMarket/candle:"@ + spec_kf_format_symbol(symbol@) + "_"@ + spec_kf_interval(tf));
        r
    }

    /// Topic of the account's order updates, for one market or all.
    pub fn orders_topic(symbol: Option<&str>) -> (r: String)
        ensures
            r@ == match symbol {
                Some(s) => "/contractMarket/tradeOrders:"@ + spec_kf_format_symbol(s@),
                None => "/contractMarket/tradeOrders"@,
            },
    {
        match symbol {
            Some(s) => {
                let id = Self::format_symbol(s);
                concat2("/contractMarket/tradeOrders:", id.as_str())
            },
            None => copy_str("/contractMarket/tradeOrders"),
        }
    }

    /// Topic of the account's wallet.
    pub fn balance_topic() -> (r: String)
        ensures
            r@ == "/contractAccount/wallet"@,
    {
        copy_str("/contractAccount/wallet")
    }

    /// The private channels need all three credentials.
    pub fn ws_authenticate(&self) -> (r: Result<(), CcxtError>)
        ensures
            r is Ok <==> (self.api_key is Some && self.api_secret is Some && self.passphrase is Some),
            r is Err ==> r matches Err(CcxtError::AuthenticationError { .. }),
    {
        if self.api_key.is_none() || self.api_secret.is_none() || self.passphrase.is_none() {
            return Err(CcxtError::AuthenticationError {
                message: copy_str("API key, secret, and passphrase required for private channels"),
            });
        }
        Ok(())
    }

    /// Records a subscription under its key (`channel:symbol`, or
    /// `private:channel` for private ones), replacing an earlier one under
    /// that key.
    pub fn record_subscription(&mut self, key: String, channel: String)
        ensures
            pair_lookup(final(self).subscriptions@, key@) == Some(channel),
            forall|k: Seq<char>| k != key@ ==> pair_lookup(final(self).subscriptions@, k) == pair_lookup(old(self).subscriptions@, k),
            final(self).connect_id == old(self).connect_id,
            final(self).api_key == old(self).api_key,
            final(self).api_secret == old(self).api_secret,
            final(self).passphrase == old(self).passphrase,
    {
        keyed_insert(&mut self.subscriptions, key, channel);
    }

    /// The key of a public subscription: `channel:symbol` (empty symbol when
    /// there is none).
    pub fn subscription_key(channel: &str, symbol: Option<&str>) -> (r: String)
        ensures
            r@ == channel@ + ":"@ + match symbol {
                Some(s) => s@,
                None => Seq::<char>::empty(),
            },
    {
        match symbol {
            Some(s) => concat3(channel, ":", s),
            None => concat2(channel, ":"),
        }
    }

    /// The key of a private subscription: `private:channel`.
    pub fn private_subscription_key(channel: &str) -> (r: String)
        ensures
            r@ == "private:"@ + channel@,
    {
        concat2("private:", channel)
    }
}


/// A field reader's result agrees with an optional list of rows.
pub open spec fn opt_rows_is(j: Json, key: Seq<char>, o: Option<Vec<Vec<String>>>) -> bool {
    match spec_get(j, key) {
        None => o is None,
        Some(Json::Null) => o is None,
        Some(v) => o matches Some(rows) && spec_str_array_array(v) == Ok::<Seq<Seq<Seq<char>>>, ()>(texts2(rows@)),
    }
}

/// Whether the rows field reads.
pub open spec fn opt_rows_reads(j: Json, key: Seq<char>) -> bool {
    match spec_get(j, key) {
        None => true,
        Some(Json::Null) => true,
        Some(v) => spec_str_array_array(v) is Ok,
    }
}

/// Ticker data as a derived deserializer reads it from an object
/// (camel-case names).
pub open spec fn kf_ticker_read(j: Json, d: KucoinFuturesTickerData) -> bool {
    &&& j is Obj
    &&& spec_str_field(j, "symbol"@) == Ok::<Seq<char>, ()>(d.symbol@)
    &&& opt_int_is(spec_opt_i64_field(j, "ts"@), d.ts)
    &&& opt_text_is(spec_opt_str_field(j, "price"@), d.price)
    &&& spec_opt_dec_field(j, "size"@) == Ok::<Option<(int, int)>, ()>(opt_parts(d.size))
    &&& opt_text_is(spec_opt_str_field(j, "bestBidPrice"@), d.best_bid_price)
    &&& opt_text_is(spec_opt_str_field(j, "bestBidSize"@), d.best_bid_size)
    &&& opt_text_is(spec_opt_str_field(j, "bestAskPrice"@), d.best_ask_price)
    &&& opt_text_is(spec_opt_str_field(j, "bestAskSize"@), d.best_ask_size)
    &&& opt_text_is(spec_opt_str_field(j, "markPrice"@), d.mark_price)
    &&& opt_text_is(spec_opt_str_field(j, "indexPrice"@), d.index_price)
}

/// Whether ticker data reads from a value.
pub open spec fn kf_ticker_reads(j: Json) -> bool {
    &&& j is Obj
    &&& spec_str_field(j, "symbol"@) is Ok
    &&& spec_opt_i64_field(j, "ts"@) is Ok
    &&& spec_opt_str_field(j, "price"@) is Ok
    &&& spec_opt_dec_field(j, "size"@) is Ok
    &&& spec_opt_str_field(j, "bestBidPrice"@) is Ok
    &&& spec_opt_str_field(j, "bestBidSize"@) is Ok
    &&& spec_opt_str_field(j, "bestAskPrice"@) is Ok
    &&& spec_opt_str_field(j, "bestAskSize"@) is Ok
    &&& spec_opt_str_field(j, "markPrice"@) is Ok
    &&& spec_opt_str_field(j, "indexPrice"@) is Ok
}

/// Order-book data as read from an object.
pub open spec fn kf_book_read(j: Json, d: KucoinFuturesOrderBookData) -> bool {
    &&& j is Obj
    &&& opt_rows_is(j, "asks"@, d.asks)
    &&& opt_rows_is(j, "bids"@, d.bids)
    &&& opt_int_is(spec_opt_i64_field(j, "timestamp"@), d.timestamp)
    &&& opt_int_is(spec_opt_i64_field(j, "sequence"@), d.sequence)
    &&& opt_text_is(spec_opt_str_field(j, "change"@), d.change)
}

/// Whether order-book data reads from a value.
pub open spec fn kf_book_reads(j: Json) -> bool {
    &&& j is Obj
    &&& opt_rows_reads(j, "asks"@)
    &&& opt_rows_reads(j, "bids"@)
    &&& spec_opt_i64_field(j, "timestamp"@) is Ok
    &&& spec_opt_i64_field(j, "sequence"@) is Ok
    &&& spec_opt_str_field(j, "change"@) is Ok
}

/// Trade data as read from an object.
pub open spec fn kf_trade_read(j: Json, d: KucoinFuturesTradeData) -> bool {
    &&& j is Obj
    &&& spec_str_field(j, "symbol"@) == Ok::<Seq<char>, ()>(d.symbol@)
    &&& opt_text_is(spec_opt_str_field(j, "tradeId"@), d.trade_id)
    &&& spec_str_field(j, "price"@) == Ok::<Seq<char>, ()>(d.price@)
    &&& opt_text_is(spec_opt_str_field(j, "size"@), d.size)
    &&& opt_text_is(spec_opt_str_field(j, "side"@), d.side)
    &&& opt_int_is(spec_opt_i64_field(j, "ts"@), d.ts)
    &&& opt_text_is(spec_opt_str_field(j, "makerOrderId"@), d.maker_order_id)
    &&& opt_text_is(spec_opt_str_field(j, "takerOrderId"@), d.taker_order_id)
}

/// Whether trade data reads from a value.
pub open spec fn kf_trade_reads(j: Json) -> bool {
    &&& j is Obj
    &&& spec_str_field(j, "symbol"@) is Ok
    &&& spec_opt_str_field(j, "tradeId"@) is Ok
    &&& spec_str_field(j, "price"@) is Ok
    &&& spec_opt_str_field(j, "size"@) is Ok
    &&& spec_opt_str_field(j, "side"@) is Ok
    &&& spec_opt_i64_field(j, "ts"@) is Ok
    &&& spec_opt_str_field(j, "makerOrderId"@) is Ok
    &&& spec_opt_str_field(j, "takerOrderId"@) is Ok
}

/// Candle data as read from an object.
pub open spec fn kf_candle_read(j: Json, d: KucoinFuturesCandleData) -> bool {
    &&& j is Obj
    &&& spec_str_field(j, "symbol"@) == Ok::<Seq<char>, ()>(d.symbol@)
    &&& spec_get(j, "candles"@) matches Some(c) && spec_str_array(c) == Ok::<Seq<Seq<char>>, ()>(texts1(d.candles@))
    &&& opt_int_is(spec_opt_i64_field(j, "time"@), d.time)
}

/// Whether candle data reads from a value.
pub open spec fn kf_candle_reads(j: Json) -> bool {
    &&& j is Obj
    &&& spec_str_field(j, "symbol"@) is Ok
    &&& spec_get(j, "candles"@) matches Some(c) && spec_str_array(c) is Ok
    &&& spec_opt_i64_field(j, "time"@) is Ok
}

/// Order data as read from an object (`type` is the event type,
/// `orderType` the kind of order).
pub open spec fn kf_order_read(j: Json, d: KucoinFuturesOrderData) -> bool {
    &&& j is Obj
    &&& spec_str_field(j, "symbol"@) == Ok::<Seq<char>, ()>(d.symbol@)
    &&& spec_str_field(j, "orderId"@) == Ok::<Seq<char>, ()>(d.order_id@)
    &&& spec_str_field(j, "side"@) == Ok::<Seq<char>, ()>(d.side@)
    &&& opt_text_is(spec_opt_str_field(j, "type"@), d.order_type)
    &&& opt_text_is(spec_opt_str_field(j, "orderType"@), d.order_type_str)
    &&& opt_text_is(spec_opt_str_field(j, "status"@), d.status)
    &&& opt_text_is(spec_opt_str_field(j, "price"@), d.price)
    &&& opt_text_is(spec_opt_str_field(j, "size"@), d.size)
    &&& opt_text_is(spec_opt_str_field(j, "filledSize"@), d.filled_size)
    &&& opt_text_is(spec_opt_str_field(j, "remainSize"@), d.remain_size)
    &&& opt_text_is(spec_opt_str_field(j, "clientOid"@), d.client_oid)
    &&& opt_int_is(spec_opt_i64_field(j, "ts"@), d.ts)
    &&& opt_int_is(spec_opt_i64_field(j, "orderTime"@), d.order_time)
    &&& opt_text_is(spec_opt_str_field(j, "timeInForce"@), d.time_in_force)
    &&& opt_text_is(spec_opt_str_field(j, "stopPrice"@), d.stop_price)
    &&& spec_opt_bool_field(j, "reduceOnly"@) == Ok::<Option<bool>, ()>(d.reduce_only)
    &&& opt_text_is(spec_opt_str_field(j, "matchPrice"@), d.match_price)
    &&& opt_text_is(spec_opt_str_field(j, "matchSize"@), d.match_size)
    &&& opt_text_is(spec_opt_str_field(j, "tradeId"@), d.trade_id)
    &&& opt_text_is(spec_opt_str_field(j, "liquidity"@), d.liquidity)
    &&& opt_text_is(spec_opt_str_field(j, "fee"@), d.fee)
    &&& opt_text_is(spec_opt_str_field(j, "feeCurrency"@), d.fee_currency)
    &&& opt_text_is(spec_opt_str_field(j, "fillPrice"@), d.fill_price)
}

/// Whether order data reads from a value.
pub open spec fn kf_order_reads(j: Json) -> bool {
    &&& j is Obj
    &&& spec_str_field(j, "symbol"@) is Ok
    &&& spec_str_field(j, "orderId"@) is Ok
    &&& spec_str_field(j, "side"@) is Ok
    &&& spec_opt_str_field(j, "type"@) is Ok
    &&& spec_opt_str_field(j, "orderType"@) is Ok
    &&& spec_opt_str_field(j, "status"@) is Ok
    &&& spec_opt_str_field(j, "price"@) is Ok
    &&& spec_opt_str_field(j, "size"@) is Ok
    &&& spec_opt_str_field(j, "filledSize"@) is Ok
    &&& spec_opt_str_field(j, "remainSize"@) is Ok
    &&& spec_opt_str_field(j, "clientOid"@) is Ok
    &&& spec_opt_i64_field(j, "ts"@) is Ok
    &&& spec_opt_i64_field(j, "orderTime"@) is Ok
    &&& spec_opt_str_field(j, "timeInForce"@) is Ok
    &&& spec_opt_str_field(j, "stopPrice"@) is Ok
    &&& spec_opt_bool_field(j, "reduceOnly"@) is Ok
    &&& spec_opt_str_field(j, "matchPrice"@) is Ok
    &&& spec_opt_str_field(j, "matchSize"@) is Ok
    &&& spec_opt_str_field(j, "tradeId"@) is Ok
    &&& spec_opt_str_field(j, "liquidity"@) is Ok
    &&& spec_opt_str_field(j, "fee"@) is Ok
    &&& spec_opt_str_field(j, "feeCurrency"@) is Ok
    &&& spec_opt_str_field(j, "fillPrice"@) is Ok
}

/// Wallet data as read from an object.
pub open spec fn kf_balance_read(j: Json, d: KucoinFuturesBalanceData) -> bool {
    &&& j is Obj
    &&& spec_str_field(j, "currency"@) == Ok::<Seq<char>, ()>(d.currency@)
    &&& opt_text_is(spec_opt_str_field(j, "accountEquity"@), d.account_equity)
    &&& opt_text_is(spec_opt_str_field(j, "availableBalance"@), d.available_balance)
    &&& opt_text_is(spec_opt_str_field(j, "frozenFunds"@), d.frozen_funds)
    &&& opt_text_is(spec_opt_str_field(j, "orderMargin"@), d.order_margin)
    &&& opt_text_is(spec_opt_str_field(j, "positionMargin"@), d.position_margin)
    &&& opt_text_is(spec_opt_str_field(j, "unrealisedPnl"@), d.unrealised_pnl)
    &&& opt_int_is(spec_opt_i64_field(j, "time"@), d.time)
}

/// Whether wallet data reads from a value.
pub open spec fn kf_balance_reads(j: Json) -> bool {
    &&& j is Obj
    &&& spec_str_field(j, "currency"@) is Ok
    &&& spec_opt_str_field(j, "accountEquity"@) is Ok
    &&& spec_opt_str_field(j, "availableBalance"@) is Ok
    &&& spec_opt_str_field(j, "frozenFunds"@) is Ok
    &&& spec_opt_str_field(j, "orderMargin"@) is Ok
    &&& spec_opt_str_field(j, "positionMargin"@) is Ok
    &&& spec_opt_str_field(j, "unrealisedPnl"@) is Ok
    &&& spec_opt_i64_field(j, "time"@) is Ok
}

impl KucoinFuturesWs {
    /// An optional list of rows.
    fn read_rows(j: &Json, key: &str) -> (r: Result<Option<Vec<Vec<String>>>, ()>)
        ensures
            r is Ok <==> opt_rows_reads(*j, key@),
            r matches Ok(o) ==> opt_rows_is(*j, key@, o),
    {
        match j.get(key) {
            None => Ok(None),
            Some(Json::Null) => Ok(None),
            Some(v) => match v.str_array_array() {
                Ok(rows) => Ok(Some(rows)),
                Err(_) => Err(()),
            },
        }
    }

    /// Reads ticker data from a stream message's data.
    pub fn read_ticker_data(j: &Json) -> (r: Result<KucoinFuturesTickerData, ()>)
        ensures
            r is Ok <==> kf_ticker_reads(*j),
            r matches Ok(d) ==> kf_ticker_read(*j, d),
    {
        match j {
            Json::Obj(_) => {},
            _ => {
                return Err(());
            },
        }
        let symbol = match j.str_field("symbol") { Ok(v) => v, Err(_) => { return Err(()); } };
        let ts = match j.opt_i64_field("ts") { Ok(v) => v, Err(_) => { return Err(()); } };
        let price = match j.opt_str_field("price") { Ok(v) => v, Err(_) => { return Err(()); } };
        let size = match j.opt_dec_field("size") { Ok(v) => v, Err(_) => { return Err(()); } };
        let best_bid_price = match j.opt_str_field("bestBidPrice") { Ok(v) => v, Err(_) => { return Err(()); } };
        let best_bid_size = match j.opt_str_field("bestBidSize") { Ok(v) => v, Err(_) => { return Err(()); } };
        let best_ask_price = match j.opt_str_field("bestAskPrice") { Ok(v) => v, Err(_) => { return Err(()); } };
        let best_ask_size = match j.opt_str_field("bestAskSize") { Ok(v) => v, Err(_) => { return Err(()); } };
        let mark_price = match j.opt_str_field("markPrice") { Ok(v) => v, Err(_) => { return Err(()); } };
        let index_price = match j.opt_str_field("indexPrice") { Ok(v) => v, Err(_) => { return Err(()); } };
        Ok(KucoinFuturesTickerData {
            symbol, ts, price, size, best_bid_price, best_bid_size, best_ask_price, best_ask_size,
            mark_price, index_price,
        })
    }

    /// Reads order-book data from a stream message's data.
    pub fn read_order_book_data(j: &Json) -> (r: Result<KucoinFuturesOrderBookData, ()>)
        ensures
            r is Ok <==> kf_book_reads(*j),
            r matches Ok(d) ==> kf_book_read(*j, d),
    {
        match j {
            Json::Obj(_) => {},
            _ => {
                return Err(());
            },
        }
        let asks = match Self::read_rows(j, "asks") { Ok(v) => v, Err(_) => { return Err(()); } };
        let bids = match Self::read_rows(j, "bids") { Ok(v) => v, Err(_) => { return Err(()); } };
        let timestamp = match j.opt_i64_field("timestamp") { Ok(v) => v, Err(_) => { return Err(()); } };
        let sequence = match j.opt_i64_field("sequence") { Ok(v) => v, Err(_) => { return Err(()); } };
        let change = match j.opt_str_field("change") { Ok(v) => v, Err(_) => { return Err(()); } };
        Ok(KucoinFuturesOrderBookData { asks, bids, timestamp, sequence, change })
    }

    /// Reads trade data from a stream message's data.
    pub fn read_trade_data(j: &Json) -> (r: Result<KucoinFuturesTradeData, ()>)
        ensures
            r is Ok <==> kf_trade_reads(*j),
            r matches Ok(d) ==> kf_trade_read(*j, d),
    {
        match j {
            Json::Obj(_) => {},
            _ => {
                return Err(());
            },
        }
        let symbol = match j.str_field("symbol") { Ok(v) => v, Err(_) => { return Err(()); } };
        let trade_id = match j.opt_str_field("tradeId") { Ok(v) => v, Err(_) => { return Err(()); } };
        let price = match j.str_field("price") { Ok(v) => v, Err(_) => { return Err(()); } };
        let size = match j.opt_str_field("size") { Ok(v) => v, Err(_) => { return Err(()); } };
        let side = match j.opt_str_field("side") { Ok(v) => v, Err(_) => { return Err(()); } };
        let ts = match j.opt_i64_field("ts") { Ok(v) => v, Err(_) => { return Err(()); } };
        let maker_order_id = match j.opt_str_field("makerOrderId") { Ok(v) => v, Err(_) => { return Err(()); } };
        let taker_order_id = match j.opt_str_field("takerOrderId") { Ok(v) => v, Err(_) => { return Err(()); } };
        Ok(KucoinFuturesTradeData { symbol, trade_id, price, size, side, ts, maker_order_id, taker_order_id })
    }

    /// Reads candle data from a stream message's data.
    pub fn read_candle_data(j: &Json) -> (r: Result<KucoinFuturesCandleData, ()>)
        ensures
            r is Ok <==> kf_candle_reads(*j),
            r matches Ok(d) ==> kf_candle_read(*j, d),
    {
        match j {
            Json::Obj(_) => {},
            _ => {
                return Err(());
            },
        }
        let symbol = match j.str_field("symbol") { Ok(v) => v, Err(_) => { return Err(()); } };
        let candles = match j.get("candles") {
            Some(c) => match c.str_array() { Ok(v) => v, Err(_) => { return Err(()); } },
            None => { return Err(()); },
        };
        let time = match j.opt_i64_field("time") { Ok(v) => v, Err(_) => { return Err(()); } };
        Ok(KucoinFuturesCandleData { symbol, candles, time })
    }

    /// Reads order data from a private stream message's data.
    pub fn read_order_data(j: &Json) -> (r: Result<KucoinFuturesOrderData, ()>)
        ensures
            r is Ok <==> kf_order_reads(*j),
            r matches Ok(d) ==> kf_order_read(*j, d),
    {
        match j {
            Json::Obj(_) => {},
            _ => {
                return Err(());
            },
        }
        let symbol = match j.str_field("symbol") { Ok(v) => v, Err(_) => { return Err(()); } };
        let order_id = match j.str_field("orderId") { Ok(v) => v, Err(_) => { return Err(()); } };
        let side = match j.str_field("side") { Ok(v) => v, Err(_) => { return Err(()); } };
        let order_type = match j.opt_str_field("type") { Ok(v) => v, Err(_) => { return Err(()); } };
        let order_type_str = match j.opt_str_field("orderType") { Ok(v) => v, Err(_) => { return Err(()); } };
        let status = match j.opt_str_field("status") { Ok(v) => v, Err(_) => { return Err(()); } };
        let price = match j.opt_str_field("price") { Ok(v) => v, Err(_) => { return Err(()); } };
        let size = match j.opt_str_field("size") { Ok(v) => v, Err(_) => { return Err(()); } };
        let filled_size = match j.opt_str_field("filledSize") { Ok(v) => v, Err(_) => { return Err(()); } };
        let remain_size = match j.opt_str_field("remainSize") { Ok(v) => v, Err(_) => { return Err(()); } };
        let client_oid = match j.opt_str_field("clientOid") { Ok(v) => v, Err(_) => { return Err(()); } };
        let ts = match j.opt_i64_field("ts") { Ok(v) => v, Err(_) => { return Err(()); } };
        let order_time = match j.opt_i64_field("orderTime") { Ok(v) => v, Err(_) => { return Err(()); } };
        let time_in_force = match j.opt_str_field("timeInForce") { Ok(v) => v, Err(_) => { return Err(()); } };
        let stop_price = match j.opt_str_field("stopPrice") { Ok(v) => v, Err(_) => { return Err(()); } };
        let reduce_only = match j.opt_bool_field("reduceOnly") { Ok(v) => v, Err(_) => { return Err(()); } };
        let match_price = match j.opt_str_field("matchPrice") { Ok(v) => v, Err(_) => { return Err(()); } };
        let match_size = match j.opt_str_field("matchSize") { Ok(v) => v, Err(_) => { return Err(()); } };
        let trade_id = match j.opt_str_field("tradeId") { Ok(v) => v, Err(_) => { return Err(()); } };
        let liquidity = match j.opt_str_field("liquidity") { Ok(v) => v, Err(_) => { return Err(()); } };
        let fee = match j.opt_str_field("fee") { Ok(v) => v, Err(_) => { return Err(()); } };
        let fee_currency = match j.opt_str_field("feeCurrency") { Ok(v) => v, Err(_) => { return Err(()); } };
        let fill_price = match j.opt_str_field("fillPrice") { Ok(v) => v, Err(_) => { return Err(()); } };
        Ok(KucoinFuturesOrderData {
            symbol, order_id, side, order_type, order_type_str, status, price, size, filled_size,
            remain_size, client_oid, ts, order_time, time_in_force, stop_price, reduce_only,
            match_price, match_size, trade_id, liquidity, fee, fee_currency, fill_price,
        })
    }

    /// Reads wallet data from a private stream message's data.
    pub fn read_balance_data(j: &Json) -> (r: Result<KucoinFuturesBalanceData, ()>)
        ensures
            r is Ok <==> kf_balance_reads(*j),
            r matches Ok(d) ==> kf_balance_read(*j, d),
    {
        match j {
            Json::Obj(_) => {},
            _ => {
                return Err(());
            },
        }
        let currency = match j.str_field("currency") { Ok(v) => v, Err(_) => { return Err(()); } };
        let account_equity = match j.opt_str_field("accountEquity") { Ok(v) => v, Err(_) => { return Err(()); } };
        let available_balance = match j.opt_str_field("availableBalance") { Ok(v) => v, Err(_) => { return Err(()); } };
        let frozen_funds = match j.opt_str_field("frozenFunds") { Ok(v) => v, Err(_) => { return Err(()); } };
        let order_margin = match j.opt_str_field("orderMargin") { Ok(v) => v, Err(_) => { return Err(()); } };
        let position_margin = match j.opt_str_field("positionMargin") { Ok(v) => v, Err(_) => { return Err(()); } };
        let unrealised_pnl = match j.opt_str_field("unrealisedPnl") { Ok(v) => v, Err(_) => { return Err(()); } };
        let time = match j.opt_i64_field("time") { Ok(v) => v, Err(_) => { return Err(()); } };
        Ok(KucoinFuturesBalanceData {
            currency, account_equity, available_balance, frozen_funds, order_margin,
            position_margin, unrealised_pnl, time,
        })
    }
}


/// An optional timestamp that holds exactly the given instant.
pub open spec fn ts_is(o: Option<i64>, v: int) -> bool {
    o matches Some(x) && x as int == v
}

/// The calendar text of an instant, present.
pub open spec fn datetime_is(o: Option<String>, v: int) -> bool {
    opt_view(o) == Some(iso8601_or_empty_spec(v))
}

/// A ticker event built from ticker data at time `now`.
pub open spec fn kf_ticker_ok(d: KucoinFuturesTickerData, now: i64, e: WsTickerEvent) -> bool {
    let ts = kf_ms(d.ts, now);
    let t = e.ticker;
    &&& e.symbol@ == spec_kf_unified(d.symbol@)
    &&& t.symbol@ == e.symbol@
    &&& ts_is(t.timestamp, ts)
    &&& datetime_is(t.datetime, ts)
    &&& t.high is None && t.low is None
    &&& opt_parts(t.bid) == opt_text_dec(d.best_bid_price)
    &&& opt_parts(t.bid_volume) == opt_text_dec(d.best_bid_size)
    &&& opt_parts(t.ask) == opt_text_dec(d.best_ask_price)
    &&& opt_parts(t.ask_volume) == opt_text_dec(d.best_ask_size)
    &&& t.vwap is None && t.open is None
    &&& opt_parts(t.close) == opt_text_dec(d.price)
    &&& opt_parts(t.last) == opt_text_dec(d.price)
    &&& t.previous_close is None && t.change is None && t.percentage is None && t.average is None
    &&& t.base_volume == d.size
    &&& t.quote_volume is None && t.index_price is None
    &&& opt_parts(t.mark_price) == opt_text_dec(d.mark_price)
}

/// A ticker event's bid and ask are the feed's best bid and best ask
/// prices, with their sizes as volumes, each read as a decimal.
pub proof fn law_ticker_bid_ask(d: KucoinFuturesTickerData, now: i64, e: WsTickerEvent)
    requires
        kf_ticker_ok(d, now, e),
    ensures
        opt_parts(e.ticker.bid) == opt_text_dec(d.best_bid_price),
        opt_parts(e.ticker.ask) == opt_text_dec(d.best_ask_price),
        opt_parts(e.ticker.bid_volume) == opt_text_dec(d.best_bid_size),
        opt_parts(e.ticker.ask_volume) == opt_text_dec(d.best_ask_size),
{
}

/// The level that an increment `price,size,side` carries, with whether it
/// is a bid; `None` when it has fewer than three pieces or its numbers do not
/// read.
pub open spec fn kf_change(c: Option<String>) -> Option<((int, int), (int, int), bool)> {
    match c {
        Some(t) => {
            let p = split_spec(t@, ',');
            if p.len() >= 3 && spec_dec_parse(p[0]) is Some && spec_dec_parse(p[1]) is Some {
                Some((spec_dec_parse(p[0])->0, spec_dec_parse(p[1])->0, p[2] == "buy"@))
            } else {
                None
            }
        },
        None => None,
    }
}

/// Levels read from text rows, in order (see [`text_levels`]).
pub open spec fn levels_of_rows(es: Seq<OrderBookEntry>, rows: Seq<Vec<String>>) -> bool {
    &&& es.len() == text_levels(rows).len()
    &&& forall|k: int|
        0 <= k < es.len() ==> Some((#[trigger] es[k]).price.parts()) == spec_dec_parse(text_levels(rows)[k]@[0]@)
            && Some(es[k].amount.parts()) == spec_dec_parse(text_levels(rows)[k]@[1]@)
}

/// The rows of an optional list.
pub open spec fn rows_or_empty(o: Option<Vec<Vec<String>>>) -> Seq<Vec<String>> {
    match o {
        Some(v) => v@,
        None => Seq::empty(),
    }
}

/// One side of the book: the increment's level first when it belongs to
/// this side, then the readable rows.
pub open spec fn kf_side_ok(es: Seq<OrderBookEntry>, first: Option<((int, int), (int, int))>, rows: Option<Vec<Vec<String>>>) -> bool {
    match first {
        Some((p, a)) => es.len() >= 1 && es[0].price.parts() == p && es[0].amount.parts() == a
            && levels_of_rows(es.drop_first(), rows_or_empty(rows)),
        None => levels_of_rows(es, rows_or_empty(rows)),
    }
}

/// An order-book event built from order-book data.
pub open spec fn kf_book_ok(d: KucoinFuturesOrderBookData, symbol: Seq<char>, is_snapshot: bool, now: i64, e: WsOrderBookEvent) -> bool {
    let ts = match d.timestamp {
        Some(t) => t as int,
        None => now as int,
    };
    let c = kf_change(d.change);
    let bid_first = match c {
        Some((p, a, true)) => Some((p, a)),
        _ => None,
    };
    let ask_first = match c {
        Some((p, a, false)) => Some((p, a)),
        _ => None,
    };
    &&& e.symbol@ == symbol
    &&& e.is_snapshot == is_snapshot
    &&& e.order_book.symbol@ == symbol
    &&& ts_is(e.order_book.timestamp, ts)
    &&& datetime_is(e.order_book.datetime, ts)
    &&& e.order_book.nonce == d.sequence
    &&& kf_side_ok(e.order_book.bids@, bid_first, d.bids)
    &&& kf_side_ok(e.order_book.asks@, ask_first, d.asks)
}

/// A trade event built from trade data at time `now`.
pub open spec fn kf_trade_ok(d: KucoinFuturesTradeData, now: i64, e: WsTradeEvent) -> bool {
    let ts = kf_ms(d.ts, now);
    let price = text_dec_or_zero(d.price@);
    let amount = opt_text_dec_or_zero(d.size);
    &&& e.symbol@ == spec_kf_unified(d.symbol@)
    &&& e.trades@.len() == 1
    &&& e.trades@[0].id@ == match d.trade_id {
        Some(x) => x@,
        None => Seq::<char>::empty(),
    }
    &&& e.trades@[0].order is None
    &&& ts_is(e.trades@[0].timestamp, ts)
    &&& datetime_is(e.trades@[0].datetime, ts)
    &&& e.trades@[0].symbol@ == e.symbol@
    &&& e.trades@[0].trade_type is None
    &&& opt_view(e.trades@[0].side) == opt_view(d.side)
    &&& e.trades@[0].taker_or_maker == Some(TakerOrMaker::Taker)
    &&& e.trades@[0].price.parts() == price
    &&& e.trades@[0].amount.parts() == amount
    &&& opt_parts(e.trades@[0].cost) == spec_dec_mul(price, amount)
    &&& e.trades@[0].fee is None
}

/// Whether the candle texts read: at least seven, an integer time whose
/// milliseconds fit, and readable open, close, high, low and volume.
pub open spec fn kf_candle_values_read(c: Seq<Seq<char>>) -> bool {
    &&& c.len() >= 7
    &&& spec_parse_i64(c[0]) matches Some(t) && i64::MIN <= t * 1000 <= i64::MAX
    &&& spec_dec_parse(c[1]) is Some
    &&& spec_dec_parse(c[2]) is Some
    &&& spec_dec_parse(c[3]) is Some
    &&& spec_dec_parse(c[4]) is Some
    &&& spec_dec_parse(c[5]) is Some
}

/// A candle event built from candle data: time (seconds) in milliseconds,
/// then open, close, high, low, volume.
pub open spec fn kf_candle_ok(d: KucoinFuturesCandleData, tf: Timeframe, e: WsOhlcvEvent) -> bool {
    let c = texts1(d.candles@);
    &&& e.symbol@ == spec_kf_unified(d.symbol@)
    &&& e.timeframe == tf
    &&& e.ohlcv.timestamp as int == spec_parse_i64(c[0])->0 * 1000
    &&& Some(e.ohlcv.open.parts()) == spec_dec_parse(c[1])
    &&& Some(e.ohlcv.close.parts()) == spec_dec_parse(c[2])
    &&& Some(e.ohlcv.high.parts()) == spec_dec_parse(c[3])
    &&& Some(e.ohlcv.low.parts()) == spec_dec_parse(c[4])
    &&& Some(e.ohlcv.volume.parts()) == spec_dec_parse(c[5])
}

/// Side of an order: `sell`, else buy.
pub open spec fn spec_kf_side(s: Seq<char>) -> OrderSide {
    if s == "sell"@ {
        OrderSide::Sell
    } else {
        OrderSide::Buy
    }
}

/// An order sells exactly when its side is `sell`.
pub proof fn law_side_words(s: Seq<char>)
    ensures
        spec_kf_side(s) == OrderSide::Sell <==> (s == "sell"@),
{
    reveal_strlit("sell");

}

/// Kind of an order (limit when absent or unknown).
pub open spec fn spec_kf_order_type(o: Option<String>) -> OrderType {
    match o {
        Some(t) => if t@ == "market"@ {
            OrderType::Market
        } else if t@ == "stop"@ || t@ == "stop_limit"@ {
            OrderType::StopLimit
        } else if t@ == "stop_market"@ {
            OrderType::StopMarket
        } else {
            OrderType::Limit
        },
        None => OrderType::Limit,
    }
}

/// State of an order: `done` is canceled while some size remains and closed
/// otherwise, `canceled` is canceled, anything else is open.
pub open spec fn spec_kf_status(s: Option<String>, remain: Option<String>) -> OrderStatus {
    match s {
        Some(t) => if t@ == "done"@ {
            if opt_text_dec_or_zero(remain).0 > 0 {
                OrderStatus::Canceled
            } else {
                OrderStatus::Closed
            }
        } else if t@ == "canceled"@ {
            OrderStatus::Canceled
        } else {
            OrderStatus::Open
        },
        None => OrderStatus::Open,
    }
}

/// An order is closed exactly when it is `done` with nothing left, and
/// canceled exactly when it is `canceled` or `done` with an amount left.
pub proof fn law_status_words(s: Option<String>, remain: Option<String>)
    ensures
        spec_kf_status(s, remain) == OrderStatus::Closed <==> (opt_view(s) == Some("done"@) && opt_text_dec_or_zero(
            remain,
        ).0 <= 0),
        spec_kf_status(s, remain) == OrderStatus::Canceled <==> (opt_view(s) == Some("canceled"@) || (opt_view(s)
            == Some("done"@) && opt_text_dec_or_zero(remain).0 > 0)),
{
    reveal_strlit("done");
    reveal_strlit("canceled");
    assert("done"@.len() != "canceled"@.len());
}

/// Time in force: `IOC`, `FOK`, `GTX` (post only); good-till-canceled
/// otherwise.
pub open spec fn spec_kf_tif(o: Option<String>) -> TimeInForce {
    match o {
        Some(t) => if t@ == "IOC"@ {
            TimeInForce::IOC
        } else if t@ == "FOK"@ {
            TimeInForce::FOK
        } else if t@ == "GTX"@ {
            TimeInForce::PO
        } else {
            TimeInForce::GTC
        },
        None => TimeInForce::GTC,
    }
}

/// A fee read from its text and currency.
pub open spec fn kf_fee_ok(fee: Option<String>, currency: Option<String>, f: Option<Fee>) -> bool {
    match opt_text_dec(fee) {
        Some(p) => f matches Some(x) && opt_parts(x.cost) == Some(p) && opt_view(x.currency) == opt_view(currency) && x.rate is None,
        None => f is None,
    }
}

/// Average fill price: the fill price while size is given and something
/// has filled.
pub open spec fn kf_average(d: KucoinFuturesOrderData) -> Option<(int, int)> {
    match (opt_text_dec(d.size), opt_text_dec(d.filled_size)) {
        (Some(_), Some(f)) => if f.0 > 0 {
            opt_text_dec(d.fill_price)
        } else {
            None
        },
        _ => None,
    }
}

/// An order built from order data at time `now`.
pub open spec fn kf_order_ok(d: KucoinFuturesOrderData, now: i64, o: Order) -> bool {
    let ts = kf_ms(d.ts, now);
    &&& o.id@ == d.order_id@
    &&& opt_view(o.client_order_id) == opt_view(d.client_oid)
    &&& ts_is(o.timestamp, ts)
    &&& datetime_is(o.datetime, ts)
    &&& o.last_trade_timestamp is None
    &&& ts_is(o.last_update_timestamp, ts)
    &&& o.status == spec_kf_status(d.status, d.remain_size)
    &&& o.symbol@ == spec_kf_unified(d.symbol@)
    &&& o.order_type == spec_kf_order_type(d.order_type_str)
    &&& o.time_in_force == Some(spec_kf_tif(d.time_in_force))
    &&& o.side == spec_kf_side(d.side@)
    &&& opt_parts(o.price) == opt_text_dec(d.price)
    &&& o.trigger_price is None
    &&& opt_parts(o.stop_price) == opt_text_dec(d.stop_price)
    &&& opt_parts(o.average) == kf_average(d)
    &&& o.amount.parts() == opt_text_dec_or_zero(d.size)
    &&& o.filled.parts() == opt_text_dec_or_zero(d.filled_size)
    &&& opt_parts(o.remaining) == opt_text_dec(d.remain_size)
    &&& opt_parts(o.cost) == match (opt_text_dec(d.filled_size), kf_average(d)) {
        (Some(f), Some(a)) => spec_dec_mul(f, a),
        _ => None,
    }
    &&& o.reduce_only == d.reduce_only
    &&& o.post_only == Some(opt_view(d.time_in_force) == Some("GTX"@))
    &&& kf_fee_ok(d.fee, d.fee_currency, o.fee)
    &&& o.no_extras()
}

/// Whether order data carries a fill: a readable, nonzero match size and a
/// readable match price.
pub open spec fn kf_has_fill(d: KucoinFuturesOrderData) -> bool {
    &&& opt_text_dec(d.match_size) matches Some(sz) && sz.0 != 0
    &&& opt_text_dec(d.match_price) is Some
}

/// A fill event built from order data at time `now`.
pub open spec fn kf_my_trade_ok(d: KucoinFuturesOrderData, now: i64, e: WsMyTradeEvent) -> bool {
    let ts = kf_ms(d.ts, now);
    let sz = opt_text_dec(d.match_size)->0;
    let px = opt_text_dec(d.match_price)->0;
    &&& e.symbol@ == spec_kf_unified(d.symbol@)
    &&& e.trades@.len() == 1
    &&& e.trades@[0].id@ == match d.trade_id {
        Some(x) => x@,
        None => Seq::<char>::empty(),
    }
    &&& opt_view(e.trades@[0].order) == Some(d.order_id@)
    &&& ts_is(e.trades@[0].timestamp, ts)
    &&& datetime_is(e.trades@[0].datetime, ts)
    &&& e.trades@[0].symbol@ == e.symbol@
    &&& e.trades@[0].trade_type is None
    &&& opt_view(e.trades@[0].side) == Some(spec_to_lowercase(d.side@))
    &&& e.trades@[0].taker_or_maker == Some(
        if opt_view(d.liquidity) == Some("taker"@) {
            TakerOrMaker::Taker
        } else {
            TakerOrMaker::Maker
        },
    )
    &&& e.trades@[0].price.parts() == px
    &&& e.trades@[0].amount.parts() == sz
    &&& opt_parts(e.trades@[0].cost) == spec_dec_mul(sz, px)
    &&& kf_fee_ok(d.fee, d.fee_currency, e.trades@[0].fee)
}

/// A wallet event built from wallet data at time `now`: equity as total,
/// available as free, their difference as used.
pub open spec fn kf_balance_ok(d: KucoinFuturesBalanceData, now: i64, e: WsBalanceEvent) -> bool {
    let ts = match d.time {
        Some(t) => t as int,
        None => now as int,
    };
    let total = opt_text_dec(d.account_equity);
    let free = opt_text_dec(d.available_balance);
    &&& ts_is(e.balances.timestamp, ts)
    &&& datetime_is(e.balances.datetime, ts)
    &&& e.balances.currencies@.len() == 1
    &&& e.balances.currencies@[0].0@ == d.currency@
    &&& opt_parts(e.balances.currencies@[0].1.total) == total
    &&& opt_parts(e.balances.currencies@[0].1.free) == free
    &&& opt_parts(e.balances.currencies@[0].1.used) == match (total, free) {
        (Some(t), Some(a)) => spec_dec_sub(t, a),
        _ => None,
    }
}

impl KucoinFuturesWs {
    /// Milliseconds of a time in nanoseconds, or `now`.
    pub fn ns_to_ms(ts: Option<i64>, now: i64) -> (r: i64)
        ensures
            r as int == kf_ms(ts, now),
    {
        match ts {
            Some(t) => if t >= 0 {
                t / 1_000_000
            } else {
                -((-(t as i128)) / 1_000_000) as i64
            },
            None => now,
        }
    }

    /// Decodes ticker data.
    pub fn parse_ticker(data: &KucoinFuturesTickerData, now: i64) -> (r: WsTickerEvent)
        ensures
            kf_ticker_ok(*data, now, r),
    {
        let symbol = Self::to_unified_symbol(data.symbol.as_str());
        let ts = Self::ns_to_ms(data.ts, now);
        let last = parse_opt(&data.price);
        let ticker = Ticker {
            symbol: copy_str(symbol.as_str()),
            timestamp: Some(ts),
            datetime: Some(iso8601_or_empty(ts)),
            high: None,
            low: None,
            bid: parse_opt(&data.best_bid_price),
            bid_volume: parse_opt(&data.best_bid_size),
            ask: parse_opt(&data.best_ask_price),
            ask_volume: parse_opt(&data.best_ask_size),
            vwap: None,
            open: None,
            close: last,
            last: last,
            previous_close: None,
            change: None,
            percentage: None,
            average: None,
            base_volume: data.size,
            quote_volume: None,
            index_price: None,
            mark_price: parse_opt(&data.mark_price),
        };
        WsTickerEvent { symbol, ticker }
    }

    /// The level an increment carries (see [`kf_change`]).
    fn change_level(c: &Option<String>) -> (r: Option<(OrderBookEntry, bool)>)
        ensures
            match r {
                Some((e, buy)) => kf_change(*c) == Some((e.price.parts(), e.amount.parts(), buy)),
                None => kf_change(*c) is None,
            },
    {
        match c {
            Some(t) => {
                let parts = split_char(t.as_str(), ',');
                if parts.len() >= 3 {
                    match (dec_parse(parts[0].as_str()), dec_parse(parts[1].as_str())) {
                        (Some(p), Some(a)) => {
                            let buy = str_eq(parts[2].as_str(), "buy");
                            Some((OrderBookEntry { price: p, amount: a }, buy))
                        },
                        _ => None,
                    }
                } else {
                    None
                }
            },
            None => None,
        }
    }

    /// One side of the book: an optional first level, then the readable
    /// rows.
    fn book_side(first: Option<OrderBookEntry>, rows: &Option<Vec<Vec<String>>>) -> (r: Vec<OrderBookEntry>)
        ensures
            kf_side_ok(r@, match first {
                Some(e) => Some((e.price.parts(), e.amount.parts())),
                None => None,
            }, *rows),
    {
        let mut out: Vec<OrderBookEntry> = Vec::new();
        match first {
            Some(e) => {
                out.push(e);
            },
            None => {},
        }
        let mut levels = match rows {
            Some(v) => parse_text_levels(v),
            None => {
                let empty: Vec<Vec<String>> = Vec::new();
                parse_text_levels(&empty)
            },
        };
        let ghost lv = levels@;
        out.append(&mut levels);
        proof {
            match first {
                Some(e) => {
                    assert(out@.drop_first() =~= lv);
                },
                None => {
                    assert(out@ =~= lv);
                },
            }
            match rows {
                Some(v) => {},
                None => {
                    assert(rows_or_empty(*rows) =~= Seq::<Vec<String>>::empty());
                },
            }
        }
        out
    }

    /// Decodes order-book data: an increment `price,size,side` goes first on
    /// its side, then the snapshot's rows; the time is the data's or `now`.
    pub fn parse_order_book(data: &KucoinFuturesOrderBookData, symbol: &str, is_snapshot: bool, now: i64) -> (r: WsOrderBookEvent)
        ensures
            kf_book_ok(*data, symbol@, is_snapshot, now, r),
    {
        let (bid_first, ask_first) = match Self::change_level(&data.change) {
            Some((e, true)) => (Some(e), None),
            Some((e, false)) => (None, Some(e)),
            None => (None, None),
        };
        let bids = Self::book_side(bid_first, &data.bids);
        let asks = Self::book_side(ask_first, &data.asks);
        let ts: i64 = match data.timestamp {
            Some(t) => t,
            None => now,
        };
        let order_book = OrderBook {
            symbol: copy_str(symbol),
            timestamp: Some(ts),
            datetime: Some(iso8601_or_empty(ts)),
            nonce: data.sequence,
            bids,
            asks,
        };
        WsOrderBookEvent { symbol: copy_str(symbol), order_book, is_snapshot }
    }

    /// Decodes trade data (one public trade, taken by the taker).
    pub fn parse_trade(data: &KucoinFuturesTradeData, now: i64) -> (r: WsTradeEvent)
        ensures
            kf_trade_ok(*data, now, r),
    {
        let symbol = Self::to_unified_symbol(data.symbol.as_str());
        let ts = Self::ns_to_ms(data.ts, now);
        let price = parse_or_zero(data.price.as_str());
        let amount = parse_opt_or_zero(&data.size);
        let id = match &data.trade_id {
            Some(x) => copy_str(x.as_str()),
            None => String::new(),
        };
        let cost = dec_mul(price, amount);
        let trade = Trade {
            id,
            order: None,
            timestamp: Some(ts),
            datetime: Some(iso8601_or_empty(ts)),
            symbol: copy_str(symbol.as_str()),
            trade_type: None,
            side: copy_opt(&data.side),
            taker_or_maker: Some(TakerOrMaker::Taker),
            price,
            amount,
            cost,
            fee: None,
        };
        let mut trades: Vec<Trade> = Vec::new();
        trades.push(trade);
        WsTradeEvent { symbol, trades }
    }

    /// Decodes candle data; `None` when the texts do not read (see
    /// [`kf_candle_values_read`]).
    pub fn parse_candle(data: &KucoinFuturesCandleData, tf: Timeframe) -> (r: Option<WsOhlcvEvent>)
        ensures
            r is Some <==> kf_candle_values_read(texts1(data.candles@)),
            r matches Some(e) ==> kf_candle_ok(*data, tf, e),
    {
        let c = &data.candles;
        if c.len() < 7 {
            return None;
        }
        let t = match parse_i64(c[0].as_str()) {
            Some(t) => t,
            None => {
                return None;
            },
        };
        let ms = match t.checked_mul(1000) {
            Some(m) => m,
            None => {
                return None;
            },
        };
        let open = match dec_parse(c[1].as_str()) { Some(x) => x, None => { return None; } };
        let high = match dec_parse(c[3].as_str()) { Some(x) => x, None => { return None; } };
        let low = match dec_parse(c[4].as_str()) { Some(x) => x, None => { return None; } };
        let close = match dec_parse(c[2].as_str()) { Some(x) => x, None => { return None; } };
        let volume = match dec_parse(c[5].as_str()) { Some(x) => x, None => { return None; } };
        let symbol = Self::to_unified_symbol(data.symbol.as_str());
        Some(WsOhlcvEvent {
            symbol,
            timeframe: tf,
            ohlcv: OHLCV { timestamp: ms, open, high, low, close, volume },
        })
    }

    /// Side of an order (see [`spec_kf_side`]).
    pub fn parse_side(s: &str) -> (r: OrderSide)
        ensures
            r == spec_kf_side(s@),
    {
        if str_eq(s, "sell") {
            OrderSide::Sell
        } else {
            OrderSide::Buy
        }
    }

    /// Kind of an order (see [`spec_kf_order_type`]).
    pub fn parse_order_type(o: &Option<String>) -> (r: OrderType)
        ensures
            r == spec_kf_order_type(*o),
    {
        match o {
            Some(t) => {
                let t = t.as_str();
                if str_eq(t, "market") {
                    OrderType::Market
                } else if str_eq(t, "stop") || str_eq(t, "stop_limit") {
                    OrderType::StopLimit
                } else if str_eq(t, "stop_market") {
                    OrderType::StopMarket
                } else {
                    OrderType::Limit
                }
            },
            None => OrderType::Limit,
        }
    }

    /// State of an order (see [`spec_kf_status`]).
    pub fn parse_status(s: &Option<String>, remain: &Option<String>) -> (r: OrderStatus)
        ensures
            r == spec_kf_status(*s, *remain),
    {
        match s {
            Some(t) => {
                let t = t.as_str();
                if str_eq(t, "done") {
                    if parse_opt_or_zero(remain).is_positive() {
                        OrderStatus::Canceled
                    } else {
                        OrderStatus::Closed
                    }
                } else if str_eq(t, "canceled") {
                    OrderStatus::Canceled
                } else {
                    OrderStatus::Open
                }
            },
            None => OrderStatus::Open,
        }
    }

    /// Time in force (see [`spec_kf_tif`]).
    pub fn parse_time_in_force(o: &Option<String>) -> (r: TimeInForce)
        ensures
            r == spec_kf_tif(*o),
    {
        match o {
            Some(t) => {
                let t = t.as_str();
                if str_eq(t, "IOC") {
                    TimeInForce::IOC
                } else if str_eq(t, "FOK") {
                    TimeInForce::FOK
                } else if str_eq(t, "GTX") {
                    TimeInForce::PO
                } else {
                    TimeInForce::GTC
                }
            },
            None => TimeInForce::GTC,
        }
    }

    /// A fee from its text and currency.
    fn parse_fee(fee: &Option<String>, currency: &Option<String>) -> (r: Option<Fee>)
        ensures
            kf_fee_ok(*fee, *currency, r),
    {
        match parse_opt(fee) {
            Some(c) => Some(Fee { cost: Some(c), currency: copy_opt(currency), rate: None }),
            None => None,
        }
    }

    /// Decodes an order update (always an event).
    pub fn parse_order_update(data: &KucoinFuturesOrderData, now: i64) -> (r: Option<WsOrderEvent>)
        ensures
            r matches Some(e) && kf_order_ok(*data, now, e.order),
    {
        let symbol = Self::to_unified_symbol(data.symbol.as_str());
        let ts = Self::ns_to_ms(data.ts, now);
        let side = Self::parse_side(data.side.as_str());
        let order_type = Self::parse_order_type(&data.order_type_str);
        let status = Self::parse_status(&data.status, &data.remain_size);
        let tif = Self::parse_time_in_force(&data.time_in_force);
        let price = parse_opt(&data.price);
        let amount = parse_opt(&data.size);
        let filled = parse_opt(&data.filled_size);
        let remaining = parse_opt(&data.remain_size);
        let average = match (amount, filled) {
            (Some(_), Some(f)) => if f.is_positive() {
                parse_opt(&data.fill_price)
            } else {
                None
            },
            _ => None,
        };
        let cost = match (filled, average) {
            (Some(f), Some(a)) => dec_mul(f, a),
            _ => None,
        };
        let post_only = match &data.time_in_force {
            Some(t) => str_eq(t.as_str(), "GTX"),
            None => false,
        };
        let order = Order {
            id: copy_str(data.order_id.as_str()),
            client_order_id: copy_opt(&data.client_oid),
            timestamp: Some(ts),
            datetime: Some(iso8601_or_empty(ts)),
            last_trade_timestamp: None,
            last_update_timestamp: Some(ts),
            status,
            symbol,
            order_type,
            time_in_force: Some(tif),
            side,
            price,
            average,
            amount: match amount {
                Some(a) => a,
                None => Dec::zero(),
            },
            filled: match filled {
                Some(f) => f,
                None => Dec::zero(),
            },
            remaining,
            stop_price: parse_opt(&data.stop_price),
            trigger_price: None,
            take_profit_price: None,
            stop_loss_price: None,
            trades: Vec::new(),
            cost,
            fee: Self::parse_fee(&data.fee, &data.fee_currency),
            reduce_only: data.reduce_only,
            post_only: Some(post_only),
        };
        Some(WsOrderEvent { order })
    }

    /// Decodes a fill of one of the account's orders; `None` unless the data
    /// carries one (see [`kf_has_fill`]).
    pub fn parse_my_trade(data: &KucoinFuturesOrderData, now: i64) -> (r: Option<WsMyTradeEvent>)
        ensures
            r is Some <==> kf_has_fill(*data),
            r matches Some(e) ==> kf_my_trade_ok(*data, now, e),
    {
        let size = match parse_opt(&data.match_size) {
            Some(x) => x,
            None => {
                return None;
            },
        };
        let price = match parse_opt(&data.match_price) {
            Some(x) => x,
            None => {
                return None;
            },
        };
        if size.mantissa == 0 {
            return None;
        }
        let symbol = Self::to_unified_symbol(data.symbol.as_str());
        let ts = Self::ns_to_ms(data.ts, now);
        let taker = match &data.liquidity {
            Some(l) => str_eq(l.as_str(), "taker"),
            None => false,
        };
        let id = match &data.trade_id {
            Some(x) => copy_str(x.as_str()),
            None => String::new(),
        };
        let trade = Trade {
            id,
            order: Some(copy_str(data.order_id.as_str())),
            timestamp: Some(ts),
            datetime: Some(iso8601_or_empty(ts)),
            symbol: copy_str(symbol.as_str()),
            trade_type: None,
            side: Some(to_lowercase(data.side.as_str())),
            taker_or_maker: Some(if taker { TakerOrMaker::Taker } else { TakerOrMaker::Maker }),
            price,
            amount: size,
            cost: dec_mul(size, price),
            fee: Self::parse_fee(&data.fee, &data.fee_currency),
        };
        let mut trades: Vec<Trade> = Vec::new();
        trades.push(trade);
        Some(WsMyTradeEvent { symbol, trades })
    }

    /// Decodes a wallet update (always an event) at time `now`.
    pub fn parse_balance_update(data: &KucoinFuturesBalanceData, now: i64) -> (r: Option<WsBalanceEvent>)
        ensures
            r matches Some(e) && kf_balance_ok(*data, now, e),
    {
        let ts: i64 = match data.time {
            Some(t) => t,
            None => now,
        };
        let total = parse_opt(&data.account_equity);
        let free = parse_opt(&data.available_balance);
        let used = match (total, free) {
            (Some(t), Some(a)) => dec_sub(t, a),
            _ => None,
        };
        let mut currencies: Vec<(String, Balance)> = Vec::new();
        currencies.push((copy_str(data.currency.as_str()), Balance { free, used, total }));
        Some(WsBalanceEvent {
            balances: Balances { timestamp: Some(ts), datetime: Some(iso8601_or_empty(ts)), currencies },
        })
    }
}


/// Whether `s` begins with `p`.
pub open spec fn begins(s: Seq<char>, p: Seq<char>) -> bool {
    p.len() <= s.len() && s.subrange(0, p.len() as int) == p
}

/// A text with a non-empty prefix removed as often as it leads
/// (`str::trim_start_matches`).
pub open spec fn trim_prefix_all(s: Seq<char>, p: Seq<char>) -> Seq<char>
    decreases s.len(),
{
    if p.len() > 0 && begins(s, p) {
        trim_prefix_all(s.subrange(p.len() as int, s.len() as int), p)
    } else {
        s
    }
}

/// Keep-alive replies, which carry nothing.
pub open spec fn kf_ignored(msg: Seq<char>) -> bool {
    has_sub(msg, "\"type\":\"pong\""@) || has_sub(msg, "\"type\":\"welcome\""@)
}

/// The data member of a message, when present and not null.
pub open spec fn kf_data(j: Json) -> Option<Json> {
    match spec_get(j, "data"@) {
        None => None,
        Some(Json::Null) => None,
        Some(v) => Some(v),
    }
}

/// The market of a depth snapshot topic: what follows the first `:`, up to
/// the next (empty when there is none).
pub open spec fn kf_depth_symbol(topic: Seq<char>) -> Seq<char> {
    let p = split_spec(topic, ':');
    if p.len() >= 2 {
        p[1]
    } else {
        Seq::<char>::empty()
    }
}

/// The timeframe of a candle topic: the piece after the first `_`, one
/// minute when there is none.
pub open spec fn kf_candle_tf(topic: Seq<char>) -> Timeframe {
    let p = split_spec(topic, '_');
    if p.len() >= 2 {
        spec_kf_timeframe_of(p[1])
    } else {
        Timeframe::Minute1
    }
}

/// What a data message of a topic decodes to at time `now`.
pub open spec fn kf_topic_ok(topic: Seq<char>, data: Json, now: i64, r: Option<WsMessage>) -> bool {
    if begins(topic, "/contractMarket/tickerV2:"@) || begins(topic, "/contractMarket/ticker:"@) {
        if kf_ticker_reads(data) {
            r matches Some(WsMessage::Ticker(e)) && exists|d: KucoinFuturesTickerData| #[trigger] kf_ticker_read(data, d) && kf_ticker_ok(d, now, e)
        } else {
            r is None
        }
    } else if begins(topic, "/contractMarket/level2:"@) {
        if kf_book_reads(data) {
            r matches Some(WsMessage::OrderBook(e)) && exists|d: KucoinFuturesOrderBookData| #[trigger] kf_book_read(data, d)
                && kf_book_ok(d, spec_kf_unified(trim_prefix_all(topic, "/contractMarket/level2:"@)), false, now, e)
        } else {
            r is None
        }
    } else if begins(topic, "/contractMarket/level2Depth"@) {
        if kf_book_reads(data) {
            r matches Some(WsMessage::OrderBook(e)) && exists|d: KucoinFuturesOrderBookData| #[trigger] kf_book_read(data, d)
                && kf_book_ok(d, spec_kf_unified(kf_depth_symbol(topic)), true, now, e)
        } else {
            r is None
        }
    } else if begins(topic, "/contractMarket/execution:"@) {
        if kf_trade_reads(data) {
            r matches Some(WsMessage::Trade(e)) && exists|d: KucoinFuturesTradeData| #[trigger] kf_trade_read(data, d) && kf_trade_ok(d, now, e)
        } else {
            r is None
        }
    } else if begins(topic, "/contractMarket/candle:"@) {
        if kf_candle_reads(data) {
            exists|d: KucoinFuturesCandleData| #[trigger] kf_candle_read(data, d) && if kf_candle_values_read(texts1(d.candles@)) {
                r matches Some(WsMessage::Ohlcv(e)) && kf_candle_ok(d, kf_candle_tf(topic), e)
            } else {
                r is None
            }
        } else {
            r is None
        }
    } else if begins(topic, "/contractMarket/tradeOrders"@) {
        if kf_order_reads(data) {
            exists|d: KucoinFuturesOrderData| #[trigger] kf_order_read(data, d) && if opt_view(d.order_type) == Some("match"@) && kf_has_fill(d) {
                r matches Some(WsMessage::MyTrade(e)) && kf_my_trade_ok(d, now, e)
            } else {
                r matches Some(WsMessage::Order(e)) && kf_order_ok(d, now, e.order)
            }
        } else {
            r is None
        }
    } else if begins(topic, "/contractAccount/wallet"@) {
        if kf_balance_reads(data) {
            r matches Some(WsMessage::Balance(e)) && exists|d: KucoinFuturesBalanceData| #[trigger] kf_balance_read(data, d) && kf_balance_ok(d, now, e)
        } else {
            r is None
        }
    } else {
        r is None
    }
}

/// What a parsed stream document decodes to at time `now`: acknowledgements
/// become a subscription notice, data messages are decoded by topic, and
/// anything else (including an envelope whose `type` or `topic` is not text)
/// is dropped.
pub open spec fn kf_document_ok(j: Json, now: i64, r: Option<WsMessage>) -> bool {
    if !(j is Obj) || spec_opt_str_field(j, "type"@) is Err || spec_opt_str_field(j, "topic"@) is Err {
        r is None
    } else {
        let ty = spec_opt_str_field(j, "type"@)->Ok_0;
        let topic = spec_opt_str_field(j, "topic"@)->Ok_0;
        if ty == Some("ack"@) {
            r matches Some(WsMessage::Subscribed { channel, symbol }) && channel@ == "subscription"@ && symbol is None
        } else if ty == Some("message"@) && topic is Some && kf_data(j) is Some {
            kf_topic_ok(topic->0, kf_data(j)->0, now, r)
        } else {
            r is None
        }
    }
}

impl KucoinFuturesWs {
    /// Removes a non-empty prefix as often as it leads.
    fn trim_start_matches(s: &str, p: &str) -> (r: String)
        requires
            p@.len() > 0,
        ensures
            r@ == trim_prefix_all(s@, p@),
    {
        let n = s.unicode_len();
        let m = p.unicode_len();
        let mut i: usize = 0;
        assert(s@.subrange(0, n as int) =~= s@);
        while m <= n - i && str_eq(s.substring_char(i, i + m), p)
            invariant
                n == s@.len(),
                m == p@.len(),
                m > 0,
                i <= n,
                trim_prefix_all(s@, p@) == trim_prefix_all(s@.subrange(i as int, n as int), p@),
            decreases n - i,
        {
            let ghost t = s@.subrange(i as int, n as int);
            assert(t.subrange(0, m as int) =~= s@.subrange(i as int, i + m));
            assert(t.subrange(m as int, t.len() as int) =~= s@.subrange(i + m, n as int));
            i = i + m;
        }
        proof {
            let t = s@.subrange(i as int, n as int);
            if i + m <= n {
                assert(t.subrange(0, m as int) =~= s@.subrange(i as int, i + m));
            }
        }
        substring(s, i, n)
    }

    /// Decodes the data of a message by its topic at time `now` (see
    /// [`kf_topic_ok`]).
    pub fn decode_topic(topic: &str, data: &Json, now: i64) -> (r: Option<WsMessage>)
        ensures
            kf_topic_ok(topic@, *data, now, r),
    {
        if starts_with(topic, "/contractMarket/tickerV2:") || starts_with(topic, "/contractMarket/ticker:") {
            match Self::read_ticker_data(data) {
                Ok(d) => {
                    let e = Self::parse_ticker(&d, now);
                    assert(kf_ticker_read(*data, d) && kf_ticker_ok(d, now, e));
                    Some(WsMessage::Ticker(e))
                },
                Err(_) => None,
            }
        } else if starts_with(topic, "/contractMarket/level2:") {
            match Self::read_order_book_data(data) {
                Ok(d) => {
                    proof {
                        reveal_strlit("/contractMarket/level2:");
                    }
                    let part = Self::trim_start_matches(topic, "/contractMarket/level2:");
                    let symbol = Self::to_unified_symbol(part.as_str());
                    let e = Self::parse_order_book(&d, symbol.as_str(), false, now);
                    assert(kf_book_read(*data, d));
                    Some(WsMessage::OrderBook(e))
                },
                Err(_) => None,
            }
        } else if starts_with(topic, "/contractMarket/level2Depth") {
            match Self::read_order_book_data(data) {
                Ok(d) => {
                    let parts = split_char(topic, ':');
                    let part = if parts.len() >= 2 { copy_str(parts[1].as_str()) } else { String::new() };
                    proof {
                        lemma_split_nonempty(topic@, ':');
                    }
                    let symbol = Self::to_unified_symbol(part.as_str());
                    let e = Self::parse_order_book(&d, symbol.as_str(), true, now);
                    assert(kf_book_read(*data, d));
                    Some(WsMessage::OrderBook(e))
                },
                Err(_) => None,
            }
        } else if starts_with(topic, "/contractMarket/execution:") {
            match Self::read_trade_data(data) {
                Ok(d) => {
                    let e = Self::parse_trade(&d, now);
                    assert(kf_trade_read(*data, d));
                    Some(WsMessage::Trade(e))
                },
                Err(_) => None,
            }
        } else if starts_with(topic, "/contractMarket/candle:") {
            match Self::read_candle_data(data) {
                Ok(d) => {
                    let parts = split_char(topic, '_');
                    let tf = if parts.len() >= 2 {
                        Self::timeframe_of_interval(parts[1].as_str())
                    } else {
                        Timeframe::Minute1
                    };
                    proof {
                        lemma_split_nonempty(topic@, '_');
                    }
                    assert(tf == kf_candle_tf(topic@));
                    let r = match Self::parse_candle(&d, tf) {
                        Some(e) => Some(WsMessage::Ohlcv(e)),
                        None => None,
                    };
                    assert(kf_candle_read(*data, d));
                    r
                },
                Err(_) => None,
            }
        } else if starts_with(topic, "/contractMarket/tradeOrders") {
            match Self::read_order_data(data) {
                Ok(d) => {
                    let is_match = match &d.order_type {
                        Some(t) => str_eq(t.as_str(), "match"),
                        None => false,
                    };
                    proof {
                        reveal_strlit("match");
                    }
                    assert(kf_order_read(*data, d));
                    if is_match {
                        match Self::parse_my_trade(&d, now) {
                            Some(e) => {
                                return Some(WsMessage::MyTrade(e));
                            },
                            None => {},
                        }
                    }
                    match Self::parse_order_update(&d, now) {
                        Some(e) => Some(WsMessage::Order(e)),
                        None => None,
                    }
                },
                Err(_) => None,
            }
        } else if starts_with(topic, "/contractAccount/wallet") {
            match Self::read_balance_data(data) {
                Ok(d) => {
                    assert(kf_balance_read(*data, d));
                    match Self::parse_balance_update(&d, now) {
                        Some(e) => Some(WsMessage::Balance(e)),
                        None => None,
                    }
                },
                Err(_) => None,
            }
        } else {
            None
        }
    }

    /// Decodes a stream message at time `now`: keep-alive replies and text
    /// that holds no JSON give nothing; otherwise see [`kf_document_ok`].
    pub fn process_message(msg: &str, now: i64) -> (r: Option<WsMessage>)
        ensures
            kf_ignored(msg@) ==> r is None,
            !kf_ignored(msg@) ==> match spec_parse_json(msg@) {
                Some(j) => kf_document_ok(j, now, r),
                None => r is None,
            },
    {
        if str_contains(msg, "\"type\":\"pong\"") || str_contains(msg, "\"type\":\"welcome\"") {
            return None;
        }
        let j = match Json::parse(msg) {
            Some(j) => j,
            None => {
                return None;
            },
        };
        Self::process_document(&j, now)
    }

    /// Decodes a frame already read as JSON at time `now` (see
    /// [`kf_document_ok`]).
    pub fn process_document(j: &Json, now: i64) -> (r: Option<WsMessage>)
        ensures
            kf_document_ok(*j, now, r),
    {
        match j {
            Json::Obj(_) => {},
            _ => {
                return None;
            },
        }
        let ty = match j.opt_str_field("type") {
            Ok(t) => t,
            Err(_) => {
                return None;
            },
        };
        let topic = match j.opt_str_field("topic") {
            Ok(t) => t,
            Err(_) => {
                return None;
            },
        };
        let is_ack = match &ty {
            Some(t) => str_eq(t.as_str(), "ack"),
            None => false,
        };
        if is_ack {
            return Some(WsMessage::Subscribed { channel: copy_str("subscription"), symbol: None });
        }
        let is_message = match &ty {
            Some(t) => str_eq(t.as_str(), "message"),
            None => false,
        };
        if !is_message {
            return None;
        }
        let topic = match topic {
            Some(t) => t,
            None => {
                return None;
            },
        };
        match j.get("data") {
            None => None,
            Some(Json::Null) => None,
            Some(data) => Self::decode_topic(topic.as_str(), data, now),
        }
    }
}

/// The exchange symbol of `BASE/QUOTE:QUOTE`: base and quote joined, then
/// `M`, for a quote that does not end in `M`.
proof fn lemma_kf_format(base: Seq<char>, quote: Seq<char>)
    requires
        !base.contains('/'),
        !base.contains(':'),
        !quote.contains('/'),
        !quote.contains(':'),
        quote.len() > 0,
        quote.last() != 'M',
    ensures
        spec_kf_format_symbol(base + "/"@ + quote + ":"@ + quote) == (base + quote).push('M'),
{
    reveal_strlit("/");
    reveal_strlit(":");
    assert("/"@ =~= seq!['/']);
    assert(":"@ =~= seq![':']);
    let pair = base + "/"@ + quote;
    assert(!pair.contains(':')) by {
        if pair.contains(':') {
            let i = choose|i: int| 0 <= i < pair.len() && pair[i] == ':';
            if i < base.len() {
                assert(base[i] == ':');
            } else if i == base.len() {
                assert(pair[i] == '/');
            } else {
                assert(quote[i - base.len() - 1] == ':');
            }
        }
    }
    assert(pair + ":"@ + quote =~= pair + seq![':'] + quote);
    lemma_split_first(pair, quote, ':');
    assert(pair =~= base + seq!['/'] + quote);
    lemma_remove_separator(base, quote, '/');
    assert((base + quote).last() == quote.last());
}

/// The first quote that ends `base + quote` is `quote`, for each of the
/// five quotes.
proof fn lemma_kf_quote(base: Seq<char>, quote: Seq<char>)
    requires
        kf_quotes().contains(quote),
    ensures
        kf_first_quote(base + quote, 0) == Some(quote),
{
    reveal_strlit("USDT");
    reveal_strlit("USD");
    reveal_strlit("USDC");
    reveal_strlit("BTC");
    reveal_strlit("ETH");
    let f = base + quote;
    let n = f.len();
    let ql = quote.len() as int;
    assert(f.subrange(n - ql, n as int) =~= quote);
    let qi = choose|i: int| 0 <= i < kf_quotes().len() && kf_quotes()[i] == quote;
    assert(f[n - 1] == quote[ql - 1]);
    assert(f[n - 2] == quote[ql - 2]);
    if qi == 0 {
        reveal_with_fuel(kf_first_quote, 1);
    } else {
        assert(!ends_with(f, "USDT"@)) by {
            if ends_with(f, "USDT"@) {
                assert(f.subrange(n - 4, n as int)[3] == f[n - 1]);
            }
        }
        if qi == 1 {
            reveal_with_fuel(kf_first_quote, 2);
        } else {
            assert(!ends_with(f, "USD"@)) by {
                if ends_with(f, "USD"@) {
                    assert(f.subrange(n - 3, n as int)[2] == f[n - 1]);
                }
            }
            if qi == 2 {
                reveal_with_fuel(kf_first_quote, 3);
            } else {
                assert(!ends_with(f, "USDC"@)) by {
                    if ends_with(f, "USDC"@) {
                        assert(f.subrange(n - 4, n as int)[2] == f[n - 2]);
                    }
                }
                if qi == 3 {
                    reveal_with_fuel(kf_first_quote, 4);
                } else {
                    assert(!ends_with(f, "BTC"@)) by {
                        if ends_with(f, "BTC"@) {
                            assert(f.subrange(n - 3, n as int)[2] == f[n - 1]);
                        }
                    }
                    reveal_with_fuel(kf_first_quote, 5);
                }
            }
        }
    }
}

/// A perpetual's unified symbol `BASE/QUOTE:QUOTE`, quoted in one of the
/// five quotes read back, comes back from its exchange symbol; its base has
/// no `/` or `:` and is not `XBT` (which reads back as `BTC`).
pub proof fn law_symbol_round_trip(base: Seq<char>, quote: Seq<char>)
    requires
        !base.contains('/'),
        !base.contains(':'),
        base != "XBT"@,
        kf_quotes().contains(quote),
    ensures
        spec_kf_unified(spec_kf_format_symbol(base + "/"@ + quote + ":"@ + quote)) == base + "/"@ + quote + ":"@ + quote,
{
    reveal_strlit("USDT");
    reveal_strlit("USD");
    reveal_strlit("USDC");
    reveal_strlit("BTC");
    reveal_strlit("ETH");
    assert(!quote.contains('/') && !quote.contains(':') && quote.len() > 0 && quote.last() != 'M') by {
        if quote.contains('/') || quote.contains(':') {
            let i = choose|i: int| 0 <= i < quote.len() && (quote[i] == '/' || quote[i] == ':');
            assert(quote[i] != '/' && quote[i] != ':');
        }
    }
    lemma_kf_format(base, quote);
    let f = base + quote;
    assert(f.last() == quote.last());
    reveal_with_fuel(trim_trailing_m, 2);
    assert(f.push('M').drop_last() =~= f);
    assert(trim_trailing_m(f.push('M')) == f);
    lemma_kf_quote(base, quote);
    let n = f.len();
    assert(f.subrange(0, n - quote.len()) =~= base);
    assert(base + "/"@ + quote + ":"@ + quote =~= base + "/"@ + quote + ":"@ + quote);
}

} // verus!
