//! NDAX: Canadian spot exchange built on the AlphaPoint API.

use crate::book::{prices_wf, sort_levels, sorted_by_price};
use crate::common::{build_query, index_markets, opt_view, query_spec, MarketIndex};
use crate::dec::{
    checked_op, dec_mul, dec_sub, opt_parts, parse_or_zero, spec_dec_mul, spec_dec_sub,
    spec_dec_to_string, text_dec_or_zero, Dec,
};
use crate::json::{parse_i32, parse_i64, spec_as_i64, spec_num_dec, spec_parse_i32, spec_parse_i64, Json};
use crate::text::{concat2, concat3, copy_str, int_to_string, spec_int_to_string, str_eq, to_lowercase};
use crate::time::{iso8601, iso8601_or_empty, iso8601_or_empty_spec, spec_iso8601, ymdhms_or_empty, ymdhms_or_empty_spec};
use crate::types::{
    spec_timeframe_name,
    ExchangeUrls,
    keyed_by_last, lemma_keyed_empty, lemma_keyed_step, Balance, Balances, CcxtError,
    ExchangeConfig, ExchangeFeatures, ExchangeId, Market, MarketLimits, MarketPrecision,
    MarketType, MinMax, OHLCV, Order, OrderBook, OrderBookEntry, OrderSide, OrderStatus,
    OrderType, SignedRequest, Ticker, TimeInForce, Timeframe, Trade, spec_order_type_name,
};
use vstd::prelude::*;

verus! {

/// Production API address.
pub const NDAX_BASE_URL: &'static str = "https://api.ndax.io:8443/AP";

/// Sandbox API address.
pub const NDAX_TEST_URL: &'static str = "https://ndaxmarginstaging.cdnhop.net:8443/AP";

/// Minimum spacing of requests, in milliseconds.
pub const NDAX_RATE_LIMIT_MS: u64 = 1000;

/// Instrument as the exchange sends it.
#[derive(Clone, Debug, PartialEq)]
pub struct NdaxMarket {
    pub oms_id: i32,
    pub instrument_id: i32,
    pub symbol: String,
    pub product1: i32,
    pub product1_symbol: String,
    pub product2: i32,
    pub product2_symbol: String,
    pub session_status: String,
    pub is_disable: bool,
    pub quantity_increment: Option<Dec>,
    pub price_increment: Option<Dec>,
    pub minimum_quantity: Option<Dec>,
    pub minimum_price: Option<Dec>,
}

/// Level-1 quote as the exchange sends it.
#[derive(Clone, Debug, PartialEq)]
pub struct NdaxTicker {
    pub oms_id: i32,
    pub instrument_id: i32,
    pub best_bid: Option<Dec>,
    pub best_offer: Option<Dec>,
    pub last_traded_px: Option<Dec>,
    pub session_open: Option<Dec>,
    pub session_high: Option<Dec>,
    pub session_low: Option<Dec>,
    pub rolling24hr_volume: Option<Dec>,
    pub rolling24hr_notional: Option<Dec>,
    pub rolling24hr_px_change: Option<Dec>,
    pub rolling24hr_px_change_percent: Option<Dec>,
    pub time_stamp: i64,
}

/// Order as the exchange sends it.
#[derive(Clone, Debug, PartialEq)]
pub struct NdaxOrder {
    pub status: String,
    pub order_id: Option<i64>,
    pub client_order_id: Option<i64>,
}

/// Trade as the exchange sends it.
#[derive(Clone, Debug, PartialEq)]
pub struct NdaxTrade {
    pub trade_id: i64,
    pub price: String,
    pub quantity: String,
    pub side: i32,
    pub time_stamp: i64,
}

/// Account position as the exchange sends it.
#[derive(Clone, Debug, PartialEq)]
pub struct NdaxBalance {
    pub product_symbol: Option<String>,
    pub amount: Option<Dec>,
    pub total: Option<Dec>,
}

/// The NDAX adapter. `session_token` is the token of a signed-in session.
pub struct Ndax {
    pub config: ExchangeConfig,
    pub features: ExchangeFeatures,
    pub markets_by_symbol: MarketIndex,
    pub markets_by_id: MarketIndex,
    pub oms_id: i32,
    pub session_token: Option<String>,
}

/// What NDAX offers.
pub open spec fn spec_ndax_features() -> ExchangeFeatures {
    ExchangeFeatures {
        spot: true,
        fetch_markets: true,
        fetch_currencies: true,
        fetch_ticker: true,
        fetch_order_book: true,
        fetch_trades: true,
        fetch_ohlcv: true,
        fetch_balance: true,
        create_order: true,
        create_limit_order: true,
        create_market_order: true,
        create_stop_limit_order: true,
        create_stop_market_order: true,
        cancel_order: true,
        cancel_all_orders: true,
        fetch_order: true,
        fetch_orders: true,
        fetch_open_orders: true,
        fetch_my_trades: true,
        fetch_deposits: true,
        fetch_withdrawals: true,
        withdraw: true,
        fetch_deposit_address: true,
        fetch_ledger: true,
        ..ExchangeFeatures::spec_none()
    }
}

/// Candle interval of each supported timeframe: its text and its seconds.
pub open spec fn spec_ndax_interval(tf: Timeframe) -> Option<(Seq<char>, int)> {
    match tf {
        Timeframe::Minute1 => Some(("60"@, 60)),
        Timeframe::Minute5 => Some(("300"@, 300)),
        Timeframe::Minute15 => Some(("900"@, 900)),
        Timeframe::Minute30 => Some(("1800"@, 1800)),
        Timeframe::Hour1 => Some(("3600"@, 3600)),
        Timeframe::Hour2 => Some(("7200"@, 7200)),
        Timeframe::Hour4 => Some(("14400"@, 14400)),
        Timeframe::Hour6 => Some(("21600"@, 21600)),
        Timeframe::Hour12 => Some(("43200"@, 43200)),
        Timeframe::Day1 => Some(("86400"@, 86400)),
        Timeframe::Week1 => Some(("604800"@, 604800)),
        Timeframe::Month1 => Some(("2419200"@, 2419200)),
        _ => None,
    }
}

/// Order status of an NDAX status word.
pub open spec fn spec_ndax_status(s: Seq<char>) -> OrderStatus {
    if s == "FullyExecuted"@ {
        OrderStatus::Closed
    } else if s == "Canceled"@ || s == "Cancelled"@ {
        OrderStatus::Canceled
    } else if s == "Rejected"@ {
        OrderStatus::Rejected
    } else if s == "Expired"@ {
        OrderStatus::Expired
    } else {
        OrderStatus::Open
    }
}

/// An order is closed exactly when its state is `FullyExecuted`, canceled
/// exactly when it is `Canceled` or `Cancelled`, rejected exactly when it is
/// `Rejected`, and expired exactly when it is `Expired`.
pub proof fn law_status_words(s: Seq<char>)
    ensures
        spec_ndax_status(s) == OrderStatus::Closed <==> (s == "FullyExecuted"@),
        spec_ndax_status(s) == OrderStatus::Canceled <==> (s == "Canceled"@ || s == "Cancelled"@),
        spec_ndax_status(s) == OrderStatus::Rejected <==> (s == "Rejected"@),
        spec_ndax_status(s) == OrderStatus::Expired <==> (s == "Expired"@),
{
    reveal_strlit("FullyExecuted");
    reveal_strlit("Canceled");
    reveal_strlit("Cancelled");
    reveal_strlit("Rejected");
    reveal_strlit("Expired");
    assert("FullyExecuted"@.len() != "Canceled"@.len());
    assert("FullyExecuted"@.len() != "Cancelled"@.len());
    assert("FullyExecuted"@.len() != "Rejected"@.len());
    assert("FullyExecuted"@.len() != "Expired"@.len());
    assert("Canceled"@.len() != "Cancelled"@.len());
    assert("Canceled"@[0] != "Rejected"@[0]);
    assert("Canceled"@.len() != "Expired"@.len());
    assert("Cancelled"@.len() != "Rejected"@.len());
    assert("Cancelled"@.len() != "Expired"@.len());
    assert("Rejected"@.len() != "Expired"@.len());
}

/// Decimal places implied by an increment: the length of its text less two
/// (`0.01` gives 2); `None` for an absent increment or an implausibly long text.
pub open spec fn spec_increment_places(d: Option<Dec>) -> Option<i32> {
    match d {
        Some(x) => {
            let l = spec_dec_to_string(x.parts()).len();
            if l <= 1000 {
                Some((l - 2) as i32)
            } else {
                None
            }
        },
        None => None,
    }
}

/// An NDAX trade read into a unified trade.
pub open spec fn spec_ndax_trade_ok(t: NdaxTrade, symbol: Seq<char>, r: Trade) -> bool {
    let price = text_dec_or_zero(t.price@);
    let amount = text_dec_or_zero(t.quantity@);
    &&& r.id@ == spec_int_to_string(t.trade_id as int)
    &&& r.timestamp == Some(t.time_stamp)
    &&& opt_view(r.datetime) == Some(iso8601_or_empty_spec(t.time_stamp as int))
    &&& r.symbol@ == symbol
    &&& opt_view(r.side) == Some(if t.side == 0 {
        "buy"@
    } else {
        "sell"@
    })
    &&& r.price.parts() == price
    &&& r.amount.parts() == amount
    &&& opt_parts(r.cost) == checked_op(r.price, r.amount, |x: (int, int), y: (int, int)| spec_dec_mul(x, y))
    &&& r.order is None && r.trade_type is None && r.taker_or_maker is None && r.fee is None
}

/// A trade of side 0 is a buy; one of any other side a sell.
pub proof fn law_trade_side(t: NdaxTrade, symbol: Seq<char>, r: Trade)
    requires
        spec_ndax_trade_ok(t, symbol, r),
    ensures
        t.side == 0 ==> opt_view(r.side) == Some("buy"@),
        t.side != 0 ==> opt_view(r.side) == Some("sell"@),
{
}

/// NDAX holdings read into a unified balance: used is the total less what
/// is free (free counting as zero when absent).
pub open spec fn spec_ndax_balance_ok(b: NdaxBalance, r: Balance) -> bool {
    &&& r.free == b.amount
    &&& r.total == b.total
    &&& match b.total {
        Some(t) => opt_parts(r.used) == checked_op(
            t,
            match b.amount {
                Some(f) => f,
                None => Dec { mantissa: 0, scale: 0 },
            },
            |x: (int, int), y: (int, int)| spec_dec_sub(x, y),
        ),
        None => r.used is None,
    }
}

/// Positions that name their product.
pub open spec fn ndax_named(balances: Seq<NdaxBalance>) -> Seq<NdaxBalance> {
    balances.filter(|b: NdaxBalance| b.product_symbol is Some)
}

/// Whether an L2 snapshot row is complete (at least ten fields).
pub open spec fn l2_full(l: Vec<Json>) -> bool {
    l@.len() >= 10
}

/// Whether a complete L2 row is a bid: its side field (index 9) reads 0 or
/// is absent.
pub open spec fn l2_is_bid(l: Vec<Json>) -> bool {
    match spec_as_i64(l@[9]) {
        Some(s) => s == 0,
        None => true,
    }
}

/// Price (index 6) and amount (index 8) of an L2 row; unreadable numbers
/// count as zero.
pub open spec fn l2_entry_parts(l: Vec<Json>) -> ((int, int), (int, int)) {
    (
        match spec_num_dec(l@[6]) {
            Some(p) => p,
            None => (0, 0),
        },
        match spec_num_dec(l@[8]) {
            Some(p) => p,
            None => (0, 0),
        },
    )
}

/// The largest integer of field `idx` over complete L2 rows, if any reads.
pub open spec fn l2_max_field(levels: Seq<Vec<Json>>, idx: int) -> Option<int>
    decreases levels.len(),
{
    if levels.len() == 0 {
        None
    } else {
        let rest = l2_max_field(levels.drop_last(), idx);
        let l = levels.last();
        if !l2_full(l) {
            rest
        } else {
            match spec_as_i64(l@[idx]) {
                Some(v) => match rest {
                    Some(m) => Some(if m >= v { m } else { v }),
                    None => Some(v),
                },
                None => rest,
            }
        }
    }
}

/// Whether a candle row reads as a candle: at least six fields, an integer
/// time first and numbers at indices 1 to 5.
pub open spec fn ndax_candle_reads(c: Vec<Json>) -> bool {
    &&& c@.len() >= 6
    &&& spec_as_i64(c@[0]) is Some
    &&& spec_num_dec(c@[1]) is Some
    &&& spec_num_dec(c@[2]) is Some
    &&& spec_num_dec(c@[3]) is Some
    &&& spec_num_dec(c@[4]) is Some
    &&& spec_num_dec(c@[5]) is Some
}

/// A readable candle row read into a candle: time, then high, low, open,
/// close and volume (the open is at index 3).
pub open spec fn spec_ndax_candle_ok(c: Vec<Json>, r: OHLCV) -> bool {
    &&& spec_as_i64(c@[0]) == Some(r.timestamp as int)
    &&& spec_num_dec(c@[1]) == Some(r.high.parts())
    &&& spec_num_dec(c@[2]) == Some(r.low.parts())
    &&& spec_num_dec(c@[3]) == Some(r.open.parts())
    &&& spec_num_dec(c@[4]) == Some(r.close.parts())
    &&& spec_num_dec(c@[5]) == Some(r.volume.parts())
}

/// Candle rows that read as candles.
pub open spec fn ndax_candle_rows(rows: Seq<Vec<Json>>) -> Seq<Vec<Json>> {
    rows.filter(|c: Vec<Json>| ndax_candle_reads(c))
}

impl Ndax {
    /// Creates the adapter for OMS 1, with no session and no market known.
    pub fn new(config: ExchangeConfig) -> (r: Result<Ndax, CcxtError>)
        ensures
            r matches Ok(x) && x.config == config && x.features == spec_ndax_features()
                && x.oms_id == 1 && x.session_token is None && x.markets_by_symbol.entries@.len()
                == 0 && x.markets_by_id.entries@.len() == 0,
    {
        let features = ExchangeFeatures {
            spot: true,
            fetch_markets: true,
            fetch_currencies: true,
            fetch_ticker: true,
            fetch_order_book: true,
            fetch_trades: true,
            fetch_ohlcv: true,
            fetch_balance: true,
            create_order: true,
            create_limit_order: true,
            create_market_order: true,
            create_stop_limit_order: true,
            create_stop_market_order: true,
            cancel_order: true,
            cancel_all_orders: true,
            fetch_order: true,
            fetch_orders: true,
            fetch_open_orders: true,
            fetch_my_trades: true,
            fetch_deposits: true,
            fetch_withdrawals: true,
            withdraw: true,
            fetch_deposit_address: true,
            fetch_ledger: true,
            ..ExchangeFeatures::none()
        };
        Ok(
            Ndax {
                config,
                features,
                markets_by_symbol: MarketIndex::new(),
                markets_by_id: MarketIndex::new(),
                oms_id: 1,
                session_token: None,
            },
        )
    }

    /// The API address: the sandbox one when the configuration asks for it.
    pub fn base_url(&self) -> (r: &'static str)
        ensures
            r@ == (if self.config.sandbox {
                NDAX_TEST_URL@
            } else {
                NDAX_BASE_URL@
            }),
    {
        if self.config.sandbox {
            NDAX_TEST_URL
        } else {
            NDAX_BASE_URL
        }
    }

    /// The exchange's identity.
    pub fn id(&self) -> (r: ExchangeId)
        ensures
            r == ExchangeId::Ndax,
    {
        ExchangeId::Ndax
    }

    /// The exchange's display name.
    pub fn name(&self) -> (r: &'static str)
        ensures
            r@ == "NDAX"@,
    {
        "NDAX"
    }

    /// API version.
    pub fn version(&self) -> (r: &'static str)
        ensures
            r@ == "v1"@,
    {
        "v1"
    }

    /// Countries the exchange serves.
    pub fn countries(&self) -> (r: Vec<&'static str>)
        ensures
            r@.len() == 1,
            r@[0]@ == "CA"@,
    {
        let mut v = Vec::new();
        v.push("CA");
        v
    }

    /// Minimum spacing of requests, in milliseconds.
    pub fn rate_limit(&self) -> (r: u64)
        ensures
            r == NDAX_RATE_LIMIT_MS,
    {
        NDAX_RATE_LIMIT_MS
    }

    /// Addresses of the exchange: logo, API bases, site, documentation and
    /// fee schedule.
    pub fn urls(&self) -> (r: ExchangeUrls)
        ensures
            opt_view(r.logo) == Some("https://user-images.githubusercontent.com/1294454/108623144-67a3ef00-744e-11eb-8140-75c6b851e945.jpg"@),
            r.api@.len() == 2,
            r.api@[0].0@ == "public"@ && r.api@[0].1@ == (if self.config.sandbox { NDAX_TEST_URL@ } else { NDAX_BASE_URL@ }),
            r.api@[1].0@ == "private"@ && r.api@[1].1@ == (if self.config.sandbox { NDAX_TEST_URL@ } else { NDAX_BASE_URL@ }),
            opt_view(r.www) == Some("https://ndax.io"@),
            r.doc@.len() == 1,
            r.doc@[0]@ == "https://apidoc.ndax.io/"@,
            opt_view(r.fees) == Some("https://ndax.io/fees"@),
    {
        let mut api: Vec<(String, String)> = Vec::new();
        api.push((copy_str("public"), copy_str(self.base_url())));
        api.push((copy_str("private"), copy_str(self.base_url())));
        let mut doc: Vec<String> = Vec::new();
        doc.push(copy_str("https://apidoc.ndax.io/"));
        ExchangeUrls {
            logo: Some(copy_str("https://user-images.githubusercontent.com/1294454/108623144-67a3ef00-744e-11eb-8140-75c6b851e945.jpg")),
            api,
            www: Some(copy_str("https://ndax.io")),
            doc,
            fees: Some(copy_str("https://ndax.io/fees")),
        }
    }

    /// What the exchange offers.
    pub fn has(&self) -> (r: &ExchangeFeatures)
        ensures
            *r == self.features,
    {
        &self.features
    }

    /// Interval text and seconds of a timeframe, when offered.
    pub fn interval(tf: Timeframe) -> (r: Option<(&'static str, i64)>)
        ensures
            match r {
                Some((t, s)) => spec_ndax_interval(tf) == Some((t@, s as int)),
                None => spec_ndax_interval(tf) is None,
            },
    {
        match tf {
            Timeframe::Minute1 => Some(("60", 60)),
            Timeframe::Minute5 => Some(("300", 300)),
            Timeframe::Minute15 => Some(("900", 900)),
            Timeframe::Minute30 => Some(("1800", 1800)),
            Timeframe::Hour1 => Some(("3600", 3600)),
            Timeframe::Hour2 => Some(("7200", 7200)),
            Timeframe::Hour4 => Some(("14400", 14400)),
            Timeframe::Hour6 => Some(("21600", 21600)),
            Timeframe::Hour12 => Some(("43200", 43200)),
            Timeframe::Day1 => Some(("86400", 86400)),
            Timeframe::Week1 => Some(("604800", 604800)),
            Timeframe::Month1 => Some(("2419200", 2419200)),
            _ => None,
        }
    }

    /// The market id of a symbol, when the market is loaded.
    pub fn market_id(&self, symbol: &str) -> (r: Option<String>)
        ensures
            opt_view(r) == self.markets_by_symbol.spec_get(symbol@),
    {
        self.markets_by_symbol.get(symbol)
    }

    /// The unified symbol of a market id, when the market is loaded.
    pub fn symbol(&self, market_id: &str) -> (r: Option<String>)
        ensures
            opt_view(r) == self.markets_by_id.spec_get(market_id@),
    {
        self.markets_by_id.get(market_id)
    }

    /// Records markets by symbol and by id, replacing what was known.
    pub fn store_markets(&mut self, markets: &Vec<Market>)
        ensures
            final(self).markets_by_symbol.entries@.len() == markets@.len(),
            final(self).markets_by_id.entries@.len() == markets@.len(),
            forall|k: int|
                0 <= k < markets@.len() ==> (#[trigger] final(self).markets_by_id.entries@[k]).0@
                    == markets@[k].id@ && final(self).markets_by_id.entries@[k].1@
                    == markets@[k].symbol@ && final(self).markets_by_symbol.entries@[k].0@
                    == markets@[k].symbol@ && final(self).markets_by_symbol.entries@[k].1@
                    == markets@[k].id@,
            final(self).config == old(self).config,
            final(self).features == old(self).features,
            final(self).session_token == old(self).session_token,
            final(self).oms_id == old(self).oms_id,
    {
        self.markets_by_symbol = index_markets(markets, false);
        self.markets_by_id = index_markets(markets, true);
    }
}

/// An NDAX instrument read into a unified market: active when its session
/// runs and it is not disabled; taker fee 0.0025, maker fee 0.002.
pub open spec fn spec_ndax_market_ok(m: NdaxMarket, r: Market) -> bool {
    &&& r.id@ == spec_int_to_string(m.instrument_id as int)
    &&& opt_view(r.lowercase_id) == Some(crate::text::spec_to_lowercase(
        spec_int_to_string(m.instrument_id as int),
    ))
    &&& r.symbol@ == m.product1_symbol@ + "/"@ + m.product2_symbol@
    &&& r.base@ == m.product1_symbol@
    &&& r.quote@ == m.product2_symbol@
    &&& r.base_id@ == spec_int_to_string(m.product1 as int)
    &&& r.quote_id@ == spec_int_to_string(m.product2 as int)
    &&& r.active == (m.session_status@ == "Running"@ && !m.is_disable)
    &&& r.market_type == MarketType::Spot && r.spot && !r.margin && !r.swap && !r.future
        && !r.contract && r.settle is None
    &&& r.taker == Some(Dec { mantissa: 25, scale: 4 })
    &&& r.maker == Some(Dec { mantissa: 2, scale: 3 })
    &&& (m.quantity_increment matches Some(q) && q.wf() ==> r.precision.amount
        == spec_increment_places(m.quantity_increment))
    &&& m.quantity_increment is None ==> r.precision.amount is None
    &&& (m.price_increment matches Some(q) && q.wf() ==> r.precision.price
        == spec_increment_places(m.price_increment))
    &&& m.price_increment is None ==> r.precision.price is None
    &&& r.precision.cost is None && r.precision.base is None && r.precision.quote is None
    &&& r.limits.amount == (MinMax { min: m.minimum_quantity, max: None })
    &&& r.limits.price == (MinMax { min: m.minimum_price, max: None })
    &&& r.limits.cost == (MinMax { min: None, max: None })
    &&& r.limits.leverage == (MinMax { min: None, max: None })
}

impl Ndax {
    /// Unified market of an NDAX instrument: active when its session runs and
    /// it is not disabled; taker fee 0.0025, maker fee 0.002.
    pub fn parse_market(m: &NdaxMarket) -> (r: Market)
        ensures
            spec_ndax_market_ok(*m, r),
    {
        let id = int_to_string(m.instrument_id as i128);
        let lower = to_lowercase(id.as_str());
        let active = str_eq(m.session_status.as_str(), "Running") && !m.is_disable;
        Market {
            id,
            lowercase_id: Some(lower),
            symbol: concat3(m.product1_symbol.as_str(), "/", m.product2_symbol.as_str()),
            base: copy_str(m.product1_symbol.as_str()),
            quote: copy_str(m.product2_symbol.as_str()),
            base_id: int_to_string(m.product1 as i128),
            quote_id: int_to_string(m.product2 as i128),
            settle: None,
            active,
            market_type: MarketType::Spot,
            spot: true,
            margin: false,
            swap: false,
            future: false,
            contract: false,
            linear: None,
            inverse: None,
            contract_size: None,
            created: None,
            taker: Some(Dec::new(25, 4)),
            maker: Some(Dec::new(2, 3)),
            precision: MarketPrecision {
                amount: Self::increment_places(m.quantity_increment),
                price: Self::increment_places(m.price_increment),
                cost: None,
                base: None,
                quote: None,
            },
            limits: MarketLimits {
                amount: MinMax { min: m.minimum_quantity, max: None },
                price: MinMax { min: m.minimum_price, max: None },
                cost: MinMax { min: None, max: None },
                leverage: MinMax { min: None, max: None },
            },
        }
    }

    /// Decimal places implied by an increment (see [`spec_increment_places`]).
    pub fn increment_places(d: Option<Dec>) -> (r: Option<i32>)
        ensures
            d matches Some(x) && x.wf() ==> r == spec_increment_places(d),
            d is None ==> r is None,
    {
        match d {
            Some(x) => {
                let t = x.to_text();
                let l = t.as_str().unicode_len();
                if l <= 1000 {
                    Some(l as i32 - 2)
                } else {
                    None
                }
            },
            None => None,
        }
    }

    /// Unified markets of NDAX instruments, in order.
    pub fn parse_markets(rows: &Vec<NdaxMarket>) -> (r: Vec<Market>)
        ensures
            r@.len() == rows@.len(),
            forall|k: int| 0 <= k < r@.len() ==> spec_ndax_market_ok(rows@[k], #[trigger] r@[k]),
    {
        let mut out: Vec<Market> = Vec::new();
        let n = rows.len();
        let mut i: usize = 0;
        while i < n
            invariant
                n == rows@.len(),
                i <= n,
                out@.len() == i,
                forall|k: int| 0 <= k < i ==> spec_ndax_market_ok(rows@[k], #[trigger] out@[k]),
            decreases n - i,
        {
            out.push(Self::parse_market(&rows[i]));
            i = i + 1;
        }
        out
    }

    /// Unified ticker of a level-1 quote.
    pub fn parse_ticker(data: &NdaxTicker, symbol: &str) -> (r: Ticker)
        ensures
            r.symbol@ == symbol@,
            r.timestamp == Some(data.time_stamp),
            opt_view(r.datetime) == Some(iso8601_or_empty_spec(data.time_stamp as int)),
            r.high == data.session_high && r.low == data.session_low,
            r.bid == data.best_bid && r.ask == data.best_offer,
            r.open == data.session_open,
            r.close == data.last_traded_px && r.last == data.last_traded_px,
            r.change == data.rolling24hr_px_change,
            r.percentage == data.rolling24hr_px_change_percent,
            r.base_volume == data.rolling24hr_volume,
            r.quote_volume == data.rolling24hr_notional,
            r.bid_volume is None && r.ask_volume is None && r.vwap is None,
            r.previous_close is None && r.average is None && r.index_price is None
                && r.mark_price is None,
    {
        Ticker {
            symbol: copy_str(symbol),
            timestamp: Some(data.time_stamp),
            datetime: Some(iso8601_or_empty(data.time_stamp)),
            high: data.session_high,
            low: data.session_low,
            bid: data.best_bid,
            bid_volume: None,
            ask: data.best_offer,
            ask_volume: None,
            vwap: None,
            open: data.session_open,
            close: data.last_traded_px,
            last: data.last_traded_px,
            previous_close: None,
            change: data.rolling24hr_px_change,
            percentage: data.rolling24hr_px_change_percent,
            average: None,
            base_volume: data.rolling24hr_volume,
            quote_volume: data.rolling24hr_notional,
            index_price: None,
            mark_price: None,
        }
    }

    /// Order status of an NDAX status word: `Accepted`/`Working` and unknown
    /// words are open.
    pub fn parse_status(s: &str) -> (r: OrderStatus)
        ensures
            r == spec_ndax_status(s@),
    {
        if str_eq(s, "FullyExecuted") {
            OrderStatus::Closed
        } else if str_eq(s, "Canceled") || str_eq(s, "Cancelled") {
            OrderStatus::Canceled
        } else if str_eq(s, "Rejected") {
            OrderStatus::Rejected
        } else if str_eq(s, "Expired") {
            OrderStatus::Expired
        } else {
            OrderStatus::Open
        }
    }

    /// Unified order of an NDAX order answer, which carries only ids and a
    /// status: a good-till-cancelled limit buy of zero amount.
    pub fn parse_order(data: &NdaxOrder, symbol: Option<&str>) -> (r: Order)
        ensures
            r.no_extras(),
            r.id@ == (match data.order_id {
                Some(i) => spec_int_to_string(i as int),
                None => Seq::<char>::empty(),
            }),
            opt_view(r.client_order_id) == (match data.client_order_id {
                Some(i) => Some(spec_int_to_string(i as int)),
                None => None,
            }),
            r.status == spec_ndax_status(data.status@),
            r.symbol@ == (match symbol {
                Some(s) => s@,
                None => Seq::<char>::empty(),
            }),
            r.order_type == OrderType::Limit && r.time_in_force == Some(TimeInForce::GTC),
            r.side == OrderSide::Buy && r.amount == Dec::zero() && r.filled == Dec::zero(),
            r.price is None && r.remaining is None && r.timestamp is None && r.datetime is None,
            r.cost is None && r.fee is None && r.average is None,
    {
        let id = match data.order_id {
            Some(i) => int_to_string(i as i128),
            None => String::new(),
        };
        let client = match data.client_order_id {
            Some(i) => Some(int_to_string(i as i128)),
            None => None,
        };
        let sym = match symbol {
            Some(s) => copy_str(s),
            None => String::new(),
        };
        Order {
            id,
            client_order_id: client,
            timestamp: None,
            datetime: None,
            last_trade_timestamp: None,
            last_update_timestamp: None,
            status: Self::parse_status(data.status.as_str()),
            symbol: sym,
            order_type: OrderType::Limit,
            time_in_force: Some(TimeInForce::GTC),
            side: OrderSide::Buy,
            price: None,
            average: None,
            amount: Dec::zero(),
            filled: Dec::zero(),
            remaining: None,
            stop_price: None,
            trigger_price: None,
            take_profit_price: None,
            stop_loss_price: None,
            trades: Vec::new(),
            cost: None,
            fee: None,
            reduce_only: None,
            post_only: None,
        }
    }

    /// Unified orders of NDAX order answers, in order.
    pub fn parse_orders(rows: &Vec<NdaxOrder>) -> (r: Vec<Order>)
        ensures
            r@.len() == rows@.len(),
            forall|k: int|
                0 <= k < r@.len() ==> (#[trigger] r@[k]).status == spec_ndax_status(rows@[k].status@)
                    && r@[k].id@ == (match rows@[k].order_id {
                    Some(i) => spec_int_to_string(i as int),
                    None => Seq::<char>::empty(),
                }) && r@[k].symbol@ == Seq::<char>::empty(),
    {
        let mut out: Vec<Order> = Vec::new();
        let n = rows.len();
        let mut i: usize = 0;
        while i < n
            invariant
                n == rows@.len(),
                i <= n,
                out@.len() == i,
                forall|k: int|
                    0 <= k < i ==> (#[trigger] out@[k]).status == spec_ndax_status(rows@[k].status@)
                        && out@[k].id@ == (match rows@[k].order_id {
                        Some(i) => spec_int_to_string(i as int),
                        None => Seq::<char>::empty(),
                    }) && out@[k].symbol@ == Seq::<char>::empty(),
            decreases n - i,
        {
            out.push(Self::parse_order(&rows[i], None));
            i = i + 1;
        }
        out
    }

    /// Unified trade of an NDAX trade: unreadable price or quantity count as
    /// zero, side 0 buys and any other side sells, cost is price times amount.
    pub fn parse_trade(data: &NdaxTrade, symbol: &str) -> (r: Trade)
        ensures
            spec_ndax_trade_ok(*data, symbol@, r),
    {
        let price = parse_or_zero(data.price.as_str());
        let amount = parse_or_zero(data.quantity.as_str());
        let side = if data.side == 0 {
            copy_str("buy")
        } else {
            copy_str("sell")
        };
        Trade {
            id: int_to_string(data.trade_id as i128),
            order: None,
            timestamp: Some(data.time_stamp),
            datetime: Some(iso8601_or_empty(data.time_stamp)),
            symbol: copy_str(symbol),
            trade_type: None,
            side: Some(side),
            taker_or_maker: None,
            price,
            amount,
            cost: dec_mul(price, amount),
            fee: None,
        }
    }

    /// Unified trades of NDAX trades, in order.
    pub fn parse_trades(rows: &Vec<NdaxTrade>, symbol: &str) -> (r: Vec<Trade>)
        ensures
            r@.len() == rows@.len(),
            forall|k: int| 0 <= k < r@.len() ==> spec_ndax_trade_ok(rows@[k], symbol@, #[trigger] r@[k]),
    {
        let mut out: Vec<Trade> = Vec::new();
        let n = rows.len();
        let mut i: usize = 0;
        while i < n
            invariant
                n == rows@.len(),
                i <= n,
                out@.len() == i,
                forall|k: int| 0 <= k < i ==> spec_ndax_trade_ok(rows@[k], symbol@, #[trigger] out@[k]),
            decreases n - i,
        {
            out.push(Self::parse_trade(&rows[i], symbol));
            i = i + 1;
        }
        out
    }

    /// Holdings of one NDAX position.
    pub fn parse_balance_entry(b: &NdaxBalance) -> (r: Balance)
        ensures
            spec_ndax_balance_ok(*b, r),
    {
        let used = match b.total {
            Some(t) => {
                let f = match b.amount {
                    Some(f) => f,
                    None => Dec::zero(),
                };
                dec_sub(t, f)
            },
            None => None,
        };
        Balance { free: b.amount, used, total: b.total }
    }

    /// Unified balances of NDAX positions that name their product; a later
    /// position of a product replaces an earlier one.
    pub fn parse_balance(balances: &Vec<NdaxBalance>) -> (r: Balances)
        ensures
            keyed_by_last(
                ndax_named(balances@).map_values(|b: NdaxBalance| b.product_symbol->0@),
                r.currencies@,
                |i: int, bal: Balance| spec_ndax_balance_ok(ndax_named(balances@)[i], bal),
            ),
            r.timestamp is None,
            r.datetime is None,
    {
        let ghost ok = |i: int, bal: Balance| spec_ndax_balance_ok(ndax_named(balances@)[i], bal);
        let mut result = Balances::new();
        let n = balances.len();
        let mut k: usize = 0;
        proof {
            lemma_keyed_empty(ok);
            assert(ndax_named(balances@.take(0)) =~= Seq::<NdaxBalance>::empty());
            assert(ndax_named(balances@.take(0)).map_values(|b: NdaxBalance| b.product_symbol->0@)
                =~= Seq::<Seq<char>>::empty());
            assert(result.currencies@ =~= Seq::<(String, Balance)>::empty());
        }
        while k < n
            invariant
                n == balances@.len(),
                k <= n,
                result.timestamp is None,
                result.datetime is None,
                ok == (|i: int, bal: Balance| spec_ndax_balance_ok(ndax_named(balances@)[i], bal)),
                ndax_named(balances@.take(k as int)).len() <= ndax_named(balances@).len(),
                forall|j: int|
                    0 <= j < ndax_named(balances@.take(k as int)).len() ==> #[trigger] ndax_named(
                        balances@.take(k as int),
                    )[j] == ndax_named(balances@)[j],
                keyed_by_last(
                    ndax_named(balances@.take(k as int)).map_values(
                        |b: NdaxBalance| b.product_symbol->0@,
                    ),
                    result.currencies@,
                    ok,
                ),
            decreases n - k,
        {
            let ghost pre = ndax_named(balances@.take(k as int));
            proof {
                assert(balances@.take(k + 1).drop_last() =~= balances@.take(k as int));
                assert(balances@.take(k + 1).last() == balances@[k as int]);
                reveal_with_fuel(Seq::<_>::filter, 1);
                lemma_named_prefix(balances@, k + 1);
            }
            match &balances[k].product_symbol {
                Some(code) => {
                    let bal = Self::parse_balance_entry(&balances[k]);
                    let ghost before = result.currencies@;
                    result.add(copy_str(code.as_str()), bal);
                    proof {
                        let codes = pre.map_values(|b: NdaxBalance| b.product_symbol->0@);
                        assert(ndax_named(balances@.take(k + 1)) == pre.push(balances@[k as int]));
                        assert(ndax_named(balances@.take(k + 1))[pre.len() as int] == balances@[k as int]);
                        assert(ndax_named(balances@)[pre.len() as int] == balances@[k as int]);
                        assert(ok(codes.len() as int, bal));
                        lemma_keyed_step(codes, before, result.currencies@, code@, bal, ok);
                        assert(codes.push(code@) =~= ndax_named(balances@.take(k + 1)).map_values(
                            |b: NdaxBalance| b.product_symbol->0@,
                        ));
                    }
                },
                None => {
                    proof {
                        assert(ndax_named(balances@.take(k + 1)) == pre);
                    }
                },
            }
            k = k + 1;
        }
        proof {
            assert(balances@.take(n as int) =~= balances@);
        }
        result
    }
}

/// A decimal with the given parts.
pub open spec fn dec_of(p: (int, int)) -> Dec {
    Dec { mantissa: p.0 as i128, scale: p.1 as u32 }
}

/// The order-book level of a complete L2 row.
pub open spec fn spec_l2_entry(l: Vec<Json>) -> OrderBookEntry {
    OrderBookEntry { price: dec_of(l2_entry_parts(l).0), amount: dec_of(l2_entry_parts(l).1) }
}

/// Complete L2 rows on one side of the book.
pub open spec fn l2_side_rows(levels: Seq<Vec<Json>>, bid: bool) -> Seq<Vec<Json>> {
    levels.filter(|l: Vec<Json>| l2_full(l) && l2_is_bid(l) == bid)
}

/// Levels of one side of the book, in the order of the rows.
pub open spec fn l2_side(levels: Seq<Vec<Json>>, bid: bool) -> Seq<OrderBookEntry> {
    l2_side_rows(levels, bid).map_values(|l: Vec<Json>| spec_l2_entry(l))
}

/// Interval text of a supported timeframe.
pub open spec fn ndax_interval_text(tf: Timeframe) -> Seq<char> {
    match spec_ndax_interval(tf) {
        Some((t, _)) => t,
        None => Seq::<char>::empty(),
    }
}

/// Interval seconds of a supported timeframe.
pub open spec fn ndax_interval_secs(tf: Timeframe) -> int {
    match spec_ndax_interval(tf) {
        Some((_, s)) => s,
        None => 0,
    }
}

/// Whether a candle window fits in 64-bit milliseconds: the span of `limit`
/// candles of the timeframe, added to `since` or taken from `now`.
pub open spec fn ndax_window_fits(tf: Timeframe, since: Option<i64>, limit: Option<u32>, now: i64) -> bool {
    match (spec_ndax_interval(tf), since, limit) {
        (Some((_, secs)), Some(s), Some(l)) => l * secs * 1000 <= i64::MAX && i64::MIN <= s + l
            * secs * 1000 <= i64::MAX,
        (Some((_, secs)), None, Some(l)) => l * secs * 1000 <= i64::MAX && now - l * secs * 1000
            >= i64::MIN,
        _ => true,
    }
}

/// The `FromDate`/`ToDate` parameters of a candle window.
pub open spec fn ndax_window(since: Option<i64>, limit: Option<u32>, dur_ms: int, now: int) -> Seq<(Seq<char>, Seq<char>)> {
    match (since, limit) {
        (Some(s), Some(l)) => seq![
            ("FromDate"@, ymdhms_or_empty_spec(s as int)),
            ("ToDate"@, ymdhms_or_empty_spec(s + l * dur_ms)),
        ],
        (Some(s), None) => seq![
            ("FromDate"@, ymdhms_or_empty_spec(s as int)),
            ("ToDate"@, ymdhms_or_empty_spec(now)),
        ],
        (None, Some(l)) => seq![
            ("FromDate"@, ymdhms_or_empty_spec(now - l * dur_ms)),
            ("ToDate"@, ymdhms_or_empty_spec(now)),
        ],
        (None, None) => Seq::<(Seq<char>, Seq<char>)>::empty(),
    }
}

/// The NDAX order-type code of an order type, when offered.
pub open spec fn spec_ndax_order_type(t: OrderType) -> Option<int> {
    match t {
        OrderType::Market => Some(1),
        OrderType::Limit => Some(2),
        OrderType::StopLoss => Some(3),
        OrderType::StopLossLimit => Some(4),
        _ => None,
    }
}

/// Whether a JSON value is a number written as the given text.
pub open spec fn is_num(v: Json, t: Seq<char>) -> bool {
    v matches Json::Num(x) && x@ == t
}

/// Whether a JSON value is a string with the given text.
pub open spec fn is_str(v: Json, t: Seq<char>) -> bool {
    v matches Json::Str(x) && x@ == t
}

/// The integer a text reads as, or zero.
pub open spec fn i32_or_zero(s: Seq<char>) -> int {
    match spec_parse_i32(s) {
        Some(n) => n,
        None => 0,
    }
}

/// The integer a text reads as, or zero.
pub open spec fn i64_or_zero(s: Seq<char>) -> int {
    match spec_parse_i64(s) {
        Some(n) => n,
        None => 0,
    }
}

impl Ndax {
    /// The order-book level of a complete L2 row: price at index 6, amount
    /// at index 8, zero where they do not read.
    pub fn l2_entry(l: &Vec<Json>) -> (r: OrderBookEntry)
        requires
            l@.len() >= 10,
        ensures
            r == spec_l2_entry(*l),
            r.price.wf(),
    {
        let price = match l[6].num_dec() {
            Some(d) => d,
            None => Dec::zero(),
        };
        let amount = match l[8].num_dec() {
            Some(d) => d,
            None => Dec::zero(),
        };
        OrderBookEntry { price, amount }
    }

    /// Order book of an L2 snapshot. Rows with fewer than ten fields are
    /// skipped; the time and the sequence number are the largest over the
    /// rows (indices 2 and 0); side 0 (or none) is a bid. Bids are sorted by
    /// falling price, asks by rising price.
    pub fn parse_order_book(levels: &Vec<Vec<Json>>, symbol: &str) -> (r: OrderBook)
        ensures
            r.symbol@ == symbol@,
            match r.timestamp {
                Some(t) => l2_max_field(levels@, 2) == Some(t as int),
                None => l2_max_field(levels@, 2) is None,
            },
            match r.nonce {
                Some(t) => l2_max_field(levels@, 0) == Some(t as int),
                None => l2_max_field(levels@, 0) is None,
            },
            opt_view(r.datetime) == (match r.timestamp {
                Some(t) => spec_iso8601(t as int),
                None => None,
            }),
            sorted_by_price(r.bids@, true),
            sorted_by_price(r.asks@, false),
            r.bids@.to_multiset() == l2_side(levels@, true).to_multiset(),
            r.asks@.to_multiset() == l2_side(levels@, false).to_multiset(),
    {
        let mut bids: Vec<OrderBookEntry> = Vec::new();
        let mut asks: Vec<OrderBookEntry> = Vec::new();
        let mut timestamp: Option<i64> = None;
        let mut nonce: Option<i64> = None;
        let n = levels.len();
        let mut i: usize = 0;
        proof {
            assert(levels@.take(0) =~= Seq::<Vec<Json>>::empty());
            assert(l2_side(levels@.take(0), true) =~= bids@);
            assert(l2_side(levels@.take(0), false) =~= asks@);
        }
        while i < n
            invariant
                n == levels@.len(),
                i <= n,
                bids@ == l2_side(levels@.take(i as int), true),
                asks@ == l2_side(levels@.take(i as int), false),
                prices_wf(bids@),
                prices_wf(asks@),
                match timestamp {
                    Some(t) => l2_max_field(levels@.take(i as int), 2) == Some(t as int),
                    None => l2_max_field(levels@.take(i as int), 2) is None,
                },
                match nonce {
                    Some(t) => l2_max_field(levels@.take(i as int), 0) == Some(t as int),
                    None => l2_max_field(levels@.take(i as int), 0) is None,
                },
            decreases n - i,
        {
            let ghost pre = levels@.take(i as int);
            proof {
                assert(levels@.take(i + 1).drop_last() =~= pre);
                assert(levels@.take(i + 1).last() == levels@[i as int]);
                reveal_with_fuel(Seq::<_>::filter, 1);
            }
            let l = &levels[i];
            if l.len() >= 10 {
                if let Some(ts) = l[2].as_i64() {
                    timestamp = match timestamp {
                        Some(t) => Some(if t >= ts { t } else { ts }),
                        None => Some(ts),
                    };
                }
                if let Some(q) = l[0].as_i64() {
                    nonce = match nonce {
                        Some(t) => Some(if t >= q { t } else { q }),
                        None => Some(q),
                    };
                }
                let e = Self::l2_entry(l);
                let side = match l[9].as_i64() {
                    Some(s) => s,
                    None => 0,
                };
                if side == 0 {
                    bids.push(e);
                    proof {
                        assert(l2_side_rows(levels@.take(i + 1), true) == l2_side_rows(pre, true).push(levels@[i as int]));
                        assert(bids@ =~= l2_side(levels@.take(i + 1), true));
                        assert(l2_side_rows(levels@.take(i + 1), false) == l2_side_rows(pre, false));
                    }
                } else {
                    asks.push(e);
                    proof {
                        assert(l2_side_rows(levels@.take(i + 1), false) == l2_side_rows(pre, false).push(levels@[i as int]));
                        assert(asks@ =~= l2_side(levels@.take(i + 1), false));
                        assert(l2_side_rows(levels@.take(i + 1), true) == l2_side_rows(pre, true));
                    }
                }
            } else {
                proof {
                    assert(l2_side_rows(levels@.take(i + 1), true) == l2_side_rows(pre, true));
                    assert(l2_side_rows(levels@.take(i + 1), false) == l2_side_rows(pre, false));
                }
            }
            i = i + 1;
        }
        proof {
            assert(levels@.take(n as int) =~= levels@);
        }
        let bids = sort_levels(bids, true);
        let asks = sort_levels(asks, false);
        let datetime = match timestamp {
            Some(t) => iso8601(t),
            None => None,
        };
        OrderBook { symbol: copy_str(symbol), timestamp, datetime, nonce, bids, asks }
    }

    /// Candles of candle rows; rows that do not read as candles are skipped.
    pub fn parse_candles(rows: &Vec<Vec<Json>>) -> (r: Vec<OHLCV>)
        ensures
            r@.len() == ndax_candle_rows(rows@).len(),
            forall|k: int|
                0 <= k < r@.len() ==> spec_ndax_candle_ok(ndax_candle_rows(rows@)[k], #[trigger] r@[k]),
    {
        let mut out: Vec<OHLCV> = Vec::new();
        let n = rows.len();
        let mut i: usize = 0;
        while i < n
            invariant
                n == rows@.len(),
                i <= n,
                out@.len() == ndax_candle_rows(rows@.take(i as int)).len(),
                forall|k: int|
                    0 <= k < out@.len() ==> spec_ndax_candle_ok(
                        ndax_candle_rows(rows@.take(i as int))[k],
                        #[trigger] out@[k],
                    ),
            decreases n - i,
        {
            let ghost pre = rows@.take(i as int);
            proof {
                assert(rows@.take(i + 1).drop_last() =~= pre);
                assert(rows@.take(i + 1).last() == rows@[i as int]);
                reveal_with_fuel(Seq::<_>::filter, 1);
            }
            let c = &rows[i];
            let mut read: Option<OHLCV> = None;
            if c.len() >= 6 {
                match (
                    c[0].as_i64(),
                    c[3].num_dec(),
                    c[1].num_dec(),
                    c[2].num_dec(),
                    c[4].num_dec(),
                    c[5].num_dec(),
                ) {
                    (Some(t), Some(o), Some(h), Some(lo), Some(cl), Some(v)) => {
                        read = Some(OHLCV { timestamp: t, open: o, high: h, low: lo, close: cl, volume: v });
                    },
                    _ => {},
                }
            }
            match read {
                Some(x) => {
                    out.push(x);
                    proof {
                        assert(ndax_candle_reads(rows@[i as int]));
                        assert(ndax_candle_rows(rows@.take(i + 1)) == ndax_candle_rows(pre).push(rows@[i as int]));
                    }
                },
                None => {
                    proof {
                        assert(!ndax_candle_reads(rows@[i as int]));
                        assert(ndax_candle_rows(rows@.take(i + 1)) == ndax_candle_rows(pre));
                    }
                },
            }
            i = i + 1;
        }
        proof {
            assert(rows@.take(n as int) =~= rows@);
        }
        out
    }

    /// Whether the candle window of a request fits in 64-bit milliseconds
    /// (see [`ndax_window_fits`]); a request whose window does not fit
    /// cannot be made.
    pub fn window_fits(tf: Timeframe, since: Option<i64>, limit: Option<u32>, now: i64) -> (r: bool)
        ensures
            r == ndax_window_fits(tf, since, limit, now),
    {
        let secs: i64 = match Self::interval(tf) {
            Some((_, s)) => s,
            None => {
                return true;
            },
        };
        let l: u32 = match limit {
            Some(l) => l,
            None => {
                return true;
            },
        };
        assert(0 < secs <= 2419200);
        let li = l as i128;
        let si = secs as i128;
        assert(0 <= li * si <= 0xFFFF_FFFFi128 * 2419200i128) by (nonlinear_arith)
            requires 0 <= li <= 0xFFFF_FFFF, 0 < si <= 2419200;
        let span: i128 = li * si * 1000;
        if span > i64::MAX as i128 {
            return false;
        }
        match since {
            Some(st) => {
                let end: i128 = st as i128 + span;
                end <= i64::MAX as i128
            },
            None => {
                let start: i128 = now as i128 - span;
                start >= i64::MIN as i128
            },
        }
    }

    /// Query of a candle request: OMS, instrument, interval and, when a start
    /// or a count is given, the `FromDate`/`ToDate` window (see
    /// [`ndax_window`]). An unknown market or timeframe is refused.
    pub fn ohlcv_request(
        &self,
        symbol: &str,
        tf: Timeframe,
        since: Option<i64>,
        limit: Option<u32>,
        now: i64,
    ) -> (r: Result<Vec<(String, String)>, CcxtError>)
        requires
            ndax_window_fits(tf, since, limit, now),
        ensures
            self.markets_by_symbol.spec_get(symbol@) is None ==> r matches Err(
                CcxtError::BadSymbol { .. },
            ),
            self.markets_by_symbol.spec_get(symbol@) is Some && spec_ndax_interval(tf) is None
                ==> (r matches Err(CcxtError::BadRequest { message }) && message@ == "Unsupported timeframe: "@
                + spec_timeframe_name(tf)),
            r is Ok <==> (self.markets_by_symbol.spec_get(symbol@) is Some && spec_ndax_interval(tf) is Some),
            r matches Ok(p) ==> {
                let w = ndax_window(since, limit, ndax_interval_secs(tf) * 1000, now as int);
                &&& p@.len() == 3 + w.len()
                &&& p@[0].0@ == "omsId"@ && p@[0].1@ == spec_int_to_string(self.oms_id as int)
                &&& p@[1].0@ == "InstrumentId"@ && Some(p@[1].1@) == self.markets_by_symbol.spec_get(symbol@)
                &&& p@[2].0@ == "Interval"@ && p@[2].1@ == ndax_interval_text(tf)
                &&& forall|k: int| 0 <= k < w.len() ==> (#[trigger] p@[3 + k]).0@ == w[k].0 && p@[3 + k].1@ == w[k].1
            },
    {
        let id = match self.market_id(symbol) {
            Some(i) => i,
            None => {
                return Err(CcxtError::BadSymbol { symbol: copy_str(symbol) });
            },
        };
        let (text, secs) = match Self::interval(tf) {
            Some(x) => x,
            None => {
                return Err(CcxtError::BadRequest { message: concat2("Unsupported timeframe: ", tf.name()) });
            },
        };
        let mut p: Vec<(String, String)> = Vec::new();
        p.push((copy_str("omsId"), int_to_string(self.oms_id as i128)));
        p.push((copy_str("InstrumentId"), id));
        p.push((copy_str("Interval"), copy_str(text)));
        let dur_ms: i64 = secs * 1000;
        proof {
            assert(spec_ndax_interval(tf) == Some((text@, secs as int)));
            if let Some(l) = limit {
                assert((l as int) * (secs as int) * 1000 == (l as int) * (dur_ms as int)) by (nonlinear_arith)
                    requires dur_ms == secs * 1000;
            }
        }
        match (since, limit) {
            (Some(s), Some(l)) => {
                p.push((copy_str("FromDate"), ymdhms_or_empty(s)));
                p.push((copy_str("ToDate"), ymdhms_or_empty(s + (l as i64) * dur_ms)));
            },
            (Some(s), None) => {
                p.push((copy_str("FromDate"), ymdhms_or_empty(s)));
                p.push((copy_str("ToDate"), ymdhms_or_empty(now)));
            },
            (None, Some(l)) => {
                p.push((copy_str("FromDate"), ymdhms_or_empty(now - (l as i64) * dur_ms)));
                p.push((copy_str("ToDate"), ymdhms_or_empty(now)));
            },
            (None, None) => {},
        }
        Ok(p)
    }
}

impl Ndax {
    /// The JSON body of an order: OMS, instrument (its id read as an
    /// integer, zero when it is none), account 0, good-till-cancelled, side
    /// (0 buy, 1 sell), quantity, order-type code, and the limit price when
    /// one is given. An unknown market or an order type NDAX lacks is refused.
    pub fn create_order_params(
        &self,
        symbol: &str,
        order_type: OrderType,
        side: OrderSide,
        amount: Dec,
        price: Option<Dec>,
    ) -> (r: Result<Vec<(String, Json)>, CcxtError>)
        ensures
            self.markets_by_symbol.spec_get(symbol@) is None ==> r matches Err(
                CcxtError::BadSymbol { .. },
            ),
            self.markets_by_symbol.spec_get(symbol@) is Some && spec_ndax_order_type(order_type) is None
                ==> (r matches Err(CcxtError::NotSupported { feature }) && feature@ == "Order type: "@
                + spec_order_type_name(order_type)),
            r is Ok <==> (self.markets_by_symbol.spec_get(symbol@) is Some && spec_ndax_order_type(
                order_type,
            ) is Some),
            r matches Ok(p) ==> {
                &&& p@.len() == (if price is Some { 8int } else { 7int })
                &&& p@[0].0@ == "omsId"@ && is_num(p@[0].1, spec_int_to_string(self.oms_id as int))
                &&& p@[1].0@ == "InstrumentId"@ && is_num(p@[1].1, spec_int_to_string(i32_or_zero(
                    self.markets_by_symbol.spec_get(symbol@)->0,
                )))
                &&& p@[2].0@ == "AccountId"@ && is_num(p@[2].1, spec_int_to_string(0))
                &&& p@[3].0@ == "TimeInForce"@ && is_num(p@[3].1, spec_int_to_string(1))
                &&& p@[4].0@ == "Side"@ && is_num(p@[4].1, spec_int_to_string(if side == OrderSide::Buy { 0int } else { 1int }))
                &&& p@[5].0@ == "Quantity"@ && (amount.wf() ==> is_str(p@[5].1, spec_dec_to_string(amount.parts())))
                &&& p@[6].0@ == "OrderType"@ && is_num(p@[6].1, spec_int_to_string(spec_ndax_order_type(order_type)->0))
                &&& price matches Some(x) ==> p@[7].0@ == "LimitPrice"@ && (x.wf() ==> is_str(p@[7].1, spec_dec_to_string(x.parts())))
            },
    {
        let id = match self.market_id(symbol) {
            Some(i) => i,
            None => {
                return Err(CcxtError::BadSymbol { symbol: copy_str(symbol) });
            },
        };
        let type_id: i64 = match order_type {
            OrderType::Market => 1,
            OrderType::Limit => 2,
            OrderType::StopLoss => 3,
            OrderType::StopLossLimit => 4,
            _ => {
                return Err(CcxtError::NotSupported { feature: concat2("Order type: ", order_type.name()) });
            },
        };
        let side_id: i64 = match side {
            OrderSide::Buy => 0,
            OrderSide::Sell => 1,
        };
        let instrument: i32 = match parse_i32(id.as_str()) {
            Some(v) => v,
            None => 0,
        };
        let mut p: Vec<(String, Json)> = Vec::new();
        p.push((copy_str("omsId"), Json::Num(int_to_string(self.oms_id as i128))));
        p.push((copy_str("InstrumentId"), Json::Num(int_to_string(instrument as i128))));
        p.push((copy_str("AccountId"), Json::Num(int_to_string(0))));
        p.push((copy_str("TimeInForce"), Json::Num(int_to_string(1))));
        p.push((copy_str("Side"), Json::Num(int_to_string(side_id as i128))));
        p.push((copy_str("Quantity"), Json::Str(amount.to_text())));
        p.push((copy_str("OrderType"), Json::Num(int_to_string(type_id as i128))));
        if let Some(x) = price {
            p.push((copy_str("LimitPrice"), Json::Str(x.to_text())));
        }
        Ok(p)
    }

    /// The JSON body naming one order: OMS, the order id read as an integer
    /// (zero when it is none) and, for a cancellation, account 0.
    pub fn order_ref_params(&self, id: &str, with_account: bool) -> (r: Vec<(String, Json)>)
        ensures
            r@.len() == (if with_account { 3int } else { 2int }),
            r@[0].0@ == "omsId"@ && is_num(r@[0].1, spec_int_to_string(self.oms_id as int)),
            r@[1].0@ == "OrderId"@ && is_num(r@[1].1, spec_int_to_string(i64_or_zero(id@))),
            with_account ==> r@[2].0@ == "AccountId"@ && is_num(r@[2].1, spec_int_to_string(0)),
    {
        let oid: i64 = match parse_i64(id) {
            Some(v) => v,
            None => 0,
        };
        let mut p: Vec<(String, Json)> = Vec::new();
        p.push((copy_str("omsId"), Json::Num(int_to_string(self.oms_id as i128))));
        p.push((copy_str("OrderId"), Json::Num(int_to_string(oid as i128))));
        if with_account {
            p.push((copy_str("AccountId"), Json::Num(int_to_string(0))));
        }
        p
    }

    /// The query naming the account: OMS and account 0.
    pub fn account_params(&self) -> (r: Vec<(String, String)>)
        ensures
            r@.len() == 2,
            r@[0].0@ == "omsId"@ && r@[0].1@ == spec_int_to_string(self.oms_id as int),
            r@[1].0@ == "AccountId"@ && r@[1].1@ == spec_int_to_string(0),
    {
        let mut p: Vec<(String, String)> = Vec::new();
        p.push((copy_str("omsId"), int_to_string(self.oms_id as i128)));
        p.push((copy_str("AccountId"), int_to_string(0)));
        p
    }

    /// Headers of a private request; a request without a session is refused.
    pub fn private_headers(&self) -> (r: Result<Vec<(String, String)>, CcxtError>)
        ensures
            r is Err <==> self.session_token is None,
            r is Err ==> r matches Err(CcxtError::AuthenticationError { .. }),
            r matches Ok(h) ==> h@.len() == 2 && h@[0].0@ == "Content-Type"@ && h@[0].1@
                == "application/json"@ && h@[1].0@ == "Authorization"@ && h@[1].1@ == "Bearer "@
                + self.session_token->0@,
    {
        match &self.session_token {
            Some(t) => {
                let mut h: Vec<(String, String)> = Vec::new();
                h.push((copy_str("Content-Type"), copy_str("application/json")));
                h.push((copy_str("Authorization"), concat2("Bearer ", t.as_str())));
                Ok(h)
            },
            None => Err(
                CcxtError::AuthenticationError {
                    message: copy_str("Session token required. Call sign_in first."),
                },
            ),
        }
    }

    /// Address of a private GET request: the endpoint with the parameters as
    /// an unencoded query, when there are any.
    pub fn get_url(endpoint: &str, params: &Vec<(String, String)>) -> (r: String)
        ensures
            r@ == (if params@.len() == 0 {
                endpoint@
            } else {
                endpoint@ + "?"@ + query_spec(params@, false)
            }),
    {
        if params.len() == 0 {
            copy_str(endpoint)
        } else {
            let q = build_query(params, false);
            concat3(endpoint, "?", q.as_str())
        }
    }

    /// Address of a public request: the endpoint with the parameters as a
    /// percent-encoded query, when there are any.
    pub fn public_url(endpoint: &str, params: &Vec<(String, String)>) -> (r: String)
        ensures
            r@ == (if params@.len() == 0 {
                endpoint@
            } else {
                endpoint@ + "?"@ + query_spec(params@, true)
            }),
    {
        if params.len() == 0 {
            copy_str(endpoint)
        } else {
            let q = build_query(params, true);
            concat3(endpoint, "?", q.as_str())
        }
    }

    /// A request to `NDAX_BASE_URL` + `path`: the session token as bearer
    /// authorization when there is one; a POST declares a JSON body, any
    /// other method carries the parameters as a percent-encoded query.
    pub fn sign(&self, path: &str, method: &str, params: &Vec<(String, String)>) -> (r: SignedRequest)
        ensures
            r.url@ == (if method@ != "POST"@ && params@.len() > 0 {
                NDAX_BASE_URL@ + path@ + "?"@ + query_spec(params@, true)
            } else {
                NDAX_BASE_URL@ + path@
            }),
            r.method@ == method@,
            r.body is None,
            r.headers@.len() == (if self.session_token is Some { 1int } else { 0int }) + (if method@
                == "POST"@ {
                1int
            } else {
                0int
            }),
            self.session_token matches Some(t) ==> r.headers@[0].0@ == "Authorization"@
                && r.headers@[0].1@ == "Bearer "@ + t@,
            method@ == "POST"@ ==> r.headers@.last().0@ == "Content-Type"@
                && r.headers@.last().1@ == "application/json"@,
    {
        let mut url = concat2(NDAX_BASE_URL, path);
        let mut headers: Vec<(String, String)> = Vec::new();
        if let Some(t) = &self.session_token {
            headers.push((copy_str("Authorization"), concat2("Bearer ", t.as_str())));
        }
        if str_eq(method, "POST") {
            headers.push((copy_str("Content-Type"), copy_str("application/json")));
        } else if params.len() > 0 {
            let q = build_query(params, true);
            url = concat3(url.as_str(), "?", q.as_str());
        }
        SignedRequest { url, method: copy_str(method), headers, body: None }
    }
}

/// The named positions of a prefix are a prefix of the named positions.
proof fn lemma_named_prefix(b: Seq<NdaxBalance>, i: int)
    requires
        0 <= i <= b.len(),
    ensures
        ndax_named(b.take(i)).len() <= ndax_named(b).len(),
        forall|j: int|
            0 <= j < ndax_named(b.take(i)).len() ==> #[trigger] ndax_named(b.take(i))[j]
                == ndax_named(b)[j],
{
    assert(b =~= b.take(i) + b.skip(i));
    Seq::filter_distributes_over_add(b.take(i), b.skip(i), |x: NdaxBalance| x.product_symbol is Some);
}

} // verus!
