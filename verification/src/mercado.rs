//! Mercado Bitcoin: Brazilian spot exchange with BRL pairs.

use crate::common::{build_query, kv_spec, opt_view, param1, push_param, query_spec, MarketIndex};
use crate::crypto::{hex_encode, hmac_sha512, spec_hex_lower, spec_hmac_sha512, url_encode};
use crate::dec::{checked_op, dec_sub, opt_parts, spec_dec_sub, spec_dec_to_string, Dec};
use crate::text::{
    concat2, concat3, copy_str, int_to_string, push_char, push_str, spec_int_to_string,
    spec_to_uppercase, split_char, split_spec, to_lowercase, to_uppercase,
};
use crate::time::{iso8601_or_empty, iso8601_or_empty_spec, secs_fit_ms};
use crate::types::{
    spec_timeframe_name,
    ExchangeUrls,
    Balance, Balances, CcxtError, ExchangeConfig, ExchangeFeatures, ExchangeId, Market, MarketLimits,
    MarketPrecision, MarketType, OHLCV, Order, OrderBookEntry, OrderSide, OrderStatus, OrderType,
    SignedRequest, Ticker, Timeframe, Trade,
};
use crate::types::{keyed_by_last, lemma_keyed_empty, lemma_keyed_step};
use vstd::prelude::*;
use vstd::utf8::encode_utf8;

verus! {

/// REST base address.
pub const MERCADO_BASE_URL: &'static str = "https://api.mercadobitcoin.net/api/v4";

/// Minimum spacing of requests, in milliseconds.
pub const MERCADO_RATE_LIMIT_MS: u64 = 100;

/// Ticker as the exchange sends it.
#[derive(Clone, Debug, PartialEq)]
pub struct MercadoTicker {
    pub high: Option<Dec>,
    pub low: Option<Dec>,
    pub buy: Option<Dec>,
    pub sell: Option<Dec>,
    pub last: Option<Dec>,
    pub vol: Option<Dec>,
    pub date: Option<i64>,
}

/// Trade as the exchange sends it; `date` is in seconds.
#[derive(Clone, Debug, PartialEq)]
pub struct MercadoTrade {
    pub tid: i64,
    pub date: i64,
    pub price: Dec,
    pub amount: Dec,
    pub trade_type: String,
}

/// Candle as the exchange sends it.
#[derive(Clone, Debug, PartialEq)]
pub struct MercadoCandle {
    pub timestamp: i64,
    pub open: Dec,
    pub high: Dec,
    pub low: Dec,
    pub close: Dec,
    pub volume: Dec,
}

/// Holdings of one currency as the exchange sends them.
#[derive(Clone, Debug, PartialEq)]
pub struct MercadoBalanceInfo {
    pub available: Option<Dec>,
    pub total: Option<Dec>,
}

/// Order as the exchange sends it.
#[derive(Clone, Debug, PartialEq)]
pub struct MercadoOrderDetail {
    pub order_id: Option<i64>,
    pub created_timestamp: Option<i64>,
    pub order_type: Option<i32>,
    pub limit_price: Option<Dec>,
    pub quantity: Option<Dec>,
    pub executed_quantity: Option<Dec>,
    pub status: Option<i32>,
}

/// The Mercado Bitcoin adapter.
pub struct Mercado {
    pub config: ExchangeConfig,
    pub features: ExchangeFeatures,
    pub markets_by_id: MarketIndex,
    pub markets_by_symbol: MarketIndex,
}

/// What Mercado Bitcoin offers.
pub open spec fn spec_mercado_features() -> ExchangeFeatures {
    ExchangeFeatures {
        spot: true,
        fetch_markets: true,
        fetch_ticker: true,
        fetch_tickers: true,
        fetch_order_book: true,
        fetch_trades: true,
        fetch_ohlcv: true,
        fetch_balance: true,
        create_order: true,
        create_limit_order: true,
        create_market_order: false,
        cancel_order: true,
        fetch_order: true,
        fetch_orders: true,
        fetch_open_orders: true,
        fetch_my_trades: true,
        ..ExchangeFeatures::spec_none()
    }
}

/// Resolution text of each supported timeframe.
pub open spec fn spec_mercado_timeframe(tf: Timeframe) -> Option<Seq<char>> {
    match tf {
        Timeframe::Minute1 => Some("1m"@),
        Timeframe::Minute5 => Some("5m"@),
        Timeframe::Minute15 => Some("15m"@),
        Timeframe::Minute30 => Some("30m"@),
        Timeframe::Hour1 => Some("1h"@),
        Timeframe::Hour4 => Some("4h"@),
        Timeframe::Day1 => Some("1d"@),
        _ => None,
    }
}

/// The market id of a symbol: the upper-case base, the part before the
/// first `/`.
pub open spec fn spec_mercado_market_id(symbol: Seq<char>) -> Seq<char> {
    spec_to_uppercase(split_spec(symbol, '/')[0])
}

/// Order status of a Mercado status code.
pub open spec fn spec_mercado_status(s: Option<i32>) -> OrderStatus {
    match s {
        Some(3) => OrderStatus::Canceled,
        Some(4) => OrderStatus::Closed,
        _ => OrderStatus::Open,
    }
}

/// Order side of a Mercado order-type code.
pub open spec fn spec_mercado_side(t: Option<i32>) -> OrderSide {
    match t {
        Some(2) => OrderSide::Sell,
        _ => OrderSide::Buy,
    }
}

/// An order sells exactly when its type code is 2; its status is canceled
/// exactly under code 3 and closed exactly under code 4.
pub proof fn law_status_and_side_codes(status: Option<i32>, side: Option<i32>)
    ensures
        spec_mercado_side(side) == OrderSide::Sell <==> side == Some(2i32),
        spec_mercado_status(status) == OrderStatus::Canceled <==> status == Some(3i32),
        spec_mercado_status(status) == OrderStatus::Closed <==> status == Some(4i32),
{
}

/// Bases of the markets Mercado Bitcoin lists, all quoted in BRL.
pub open spec fn spec_mercado_bases() -> Seq<Seq<char>> {
    seq!["BTC"@, "ETH"@, "LTC"@, "XRP"@, "BCH"@, "USDC"@, "USDT"@, "ADA"@, "SOL"@, "DOT"@,
        "AVAX"@, "LINK"@, "UNI"@, "MATIC"@, "DOGE"@]
}

/// Rows that hold at least a price and an amount.
pub open spec fn kept_rows(rows: Seq<Vec<Dec>>) -> Seq<Vec<Dec>> {
    rows.filter(|x: Vec<Dec>| x@.len() >= 2)
}

impl Mercado {
    /// Creates the adapter; it holds the configuration and knows no market yet.
    pub fn new(config: ExchangeConfig) -> (r: Result<Mercado, CcxtError>)
        ensures
            r matches Ok(x) && x.config == config && x.features == spec_mercado_features()
                && x.markets_by_id.entries@.len() == 0 && x.markets_by_symbol.entries@.len() == 0,
    {
        let features = ExchangeFeatures {
            spot: true,
            fetch_markets: true,
            fetch_ticker: true,
            fetch_tickers: true,
            fetch_order_book: true,
            fetch_trades: true,
            fetch_ohlcv: true,
            fetch_balance: true,
            create_order: true,
            create_limit_order: true,
            create_market_order: false,
            cancel_order: true,
            fetch_order: true,
            fetch_orders: true,
            fetch_open_orders: true,
            fetch_my_trades: true,
            ..ExchangeFeatures::none()
        };
        Ok(
            Mercado {
                config,
                features,
                markets_by_id: MarketIndex::new(),
                markets_by_symbol: MarketIndex::new(),
            },
        )
    }

    /// The exchange's identity.
    pub fn id(&self) -> (r: ExchangeId)
        ensures
            r == ExchangeId::Mercado,
    {
        ExchangeId::Mercado
    }

    /// The exchange's display name.
    pub fn name(&self) -> (r: &'static str)
        ensures
            r@ == "Mercado Bitcoin"@,
    {
        "Mercado Bitcoin"
    }

    /// Addresses of the exchange: logo, API bases, site, documentation and
    /// fee schedule.
    pub fn urls(&self) -> (r: ExchangeUrls)
        ensures
            opt_view(r.logo) == Some("https://user-images.githubusercontent.com/1294454/27837060-e7c58714-60ea-11e7-9192-f05e86adb83f.jpg"@),
            r.api@.len() == 2,
            r.api@[0].0@ == "public"@ && r.api@[0].1@ == "https://api.mercadobitcoin.net/api/v4"@,
            r.api@[1].0@ == "private"@ && r.api@[1].1@ == "https://api.mercadobitcoin.net/api/v4/tapi"@,
            opt_view(r.www) == Some("https://www.mercadobitcoin.com.br/"@),
            r.doc@.len() == 1,
            r.doc@[0]@ == "https://www.mercadobitcoin.com.br/api-doc/"@,
            opt_view(r.fees) == Some("https://www.mercadobitcoin.com.br/taxas/"@),
    {
        let mut api: Vec<(String, String)> = Vec::new();
        api.push((copy_str("public"), copy_str("https://api.mercadobitcoin.net/api/v4")));
        api.push((copy_str("private"), copy_str("https://api.mercadobitcoin.net/api/v4/tapi")));
        let mut doc: Vec<String> = Vec::new();
        doc.push(copy_str("https://www.mercadobitcoin.com.br/api-doc/"));
        ExchangeUrls {
            logo: Some(copy_str("https://user-images.githubusercontent.com/1294454/27837060-e7c58714-60ea-11e7-9192-f05e86adb83f.jpg")),
            api,
            www: Some(copy_str("https://www.mercadobitcoin.com.br/")),
            doc,
            fees: Some(copy_str("https://www.mercadobitcoin.com.br/taxas/")),
        }
    }

    /// What the exchange offers.
    pub fn has(&self) -> (r: &ExchangeFeatures)
        ensures
            *r == self.features,
    {
        &self.features
    }

    /// Resolution text of a timeframe, when offered.
    pub fn timeframe(tf: Timeframe) -> (r: Option<&'static str>)
        ensures
            match r {
                Some(s) => spec_mercado_timeframe(tf) == Some(s@),
                None => spec_mercado_timeframe(tf) is None,
            },
    {
        match tf {
            Timeframe::Minute1 => Some("1m"),
            Timeframe::Minute5 => Some("5m"),
            Timeframe::Minute15 => Some("15m"),
            Timeframe::Minute30 => Some("30m"),
            Timeframe::Hour1 => Some("1h"),
            Timeframe::Hour4 => Some("4h"),
            Timeframe::Day1 => Some("1d"),
            _ => None,
        }
    }

    /// Converts a unified symbol into a market id: `BTC/BRL` becomes `BTC`.
    pub fn convert_to_market_id(&self, symbol: &str) -> (r: String)
        ensures
            r@ == spec_mercado_market_id(symbol@),
    {
        let parts = split_char(symbol, '/');
        proof {
            crate::text::lemma_split_nonempty(symbol@, '/');
        }
        to_uppercase(parts[0].as_str())
    }

    /// The market id of a symbol, when the market is loaded.
    pub fn market_id(&self, symbol: &str) -> (r: Option<String>)
        ensures
            opt_view(r) == self.markets_by_symbol.spec_get(symbol@),
    {
        self.markets_by_symbol.get(symbol)
    }

    /// The unified symbol of a market id, when the market is loaded.
    pub fn symbol(&self, market_id: &str) -> (r: Option<String>)
        ensures
            opt_view(r) == self.markets_by_id.spec_get(market_id@),
    {
        self.markets_by_id.get(market_id)
    }

    /// The markets Mercado Bitcoin lists: each base against BRL, with the base
    /// as id, taker fee 0.007 and maker fee 0.003.
    pub fn fetch_markets(&self) -> (r: Vec<Market>)
        ensures
            r@.len() == spec_mercado_bases().len(),
            forall|k: int|
                0 <= k < r@.len() ==> (#[trigger] r@[k]).id@ == spec_mercado_bases()[k] && r@[k].symbol@
                    == spec_mercado_bases()[k] + "/BRL"@ && r@[k].base@ == spec_mercado_bases()[k]
                    && r@[k].quote@ == "BRL"@ && r@[k].taker == Some(Dec { mantissa: 7, scale: 3 })
                    && r@[k].maker == Some(Dec { mantissa: 3, scale: 3 }) && r@[k].active
                    && r@[k].spot && r@[k].precision.amount == Some(8i32) && r@[k].precision.price
                    == Some(2i32),
    {
        let bases: Vec<&'static str> = vec![
            "BTC",
            "ETH",
            "LTC",
            "XRP",
            "BCH",
            "USDC",
            "USDT",
            "ADA",
            "SOL",
            "DOT",
            "AVAX",
            "LINK",
            "UNI",
            "MATIC",
            "DOGE",
        ];
        assert(bases@.map_values(|s: &str| s@) =~= spec_mercado_bases());
        let mut out: Vec<Market> = Vec::new();
        let n = bases.len();
        let mut i: usize = 0;
        while i < n
            invariant
                n == bases@.len(),
                n == spec_mercado_bases().len(),
                bases@.map_values(|s: &str| s@) == spec_mercado_bases(),
                i <= n,
                out@.len() == i,
                forall|k: int|
                    0 <= k < i ==> (#[trigger] out@[k]).id@ == spec_mercado_bases()[k] && out@[k].symbol@
                        == spec_mercado_bases()[k] + "/BRL"@ && out@[k].base@ == spec_mercado_bases()[k]
                        && out@[k].quote@ == "BRL"@ && out@[k].taker == Some(
                        Dec { mantissa: 7, scale: 3 },
                    ) && out@[k].maker == Some(Dec { mantissa: 3, scale: 3 }) && out@[k].active
                        && out@[k].spot && out@[k].precision.amount == Some(8i32)
                        && out@[k].precision.price == Some(2i32),
            decreases n - i,
        {
            let b = bases[i];
            assert(b@ == spec_mercado_bases()[i as int]);
            let m = Market {
                id: copy_str(b),
                lowercase_id: Some(to_lowercase(b)),
                symbol: concat2(b, "/BRL"),
                base: copy_str(b),
                quote: copy_str("BRL"),
                base_id: copy_str(b),
                quote_id: copy_str("BRL"),
                settle: None,
                active: true,
                market_type: MarketType::Spot,
                spot: true,
                margin: false,
                swap: false,
                future: false,
                contract: false,
                linear: None,
                inverse: None,
                contract_size: None,
                created: None,
                taker: Some(Dec::new(7, 3)),
                maker: Some(Dec::new(3, 3)),
                precision: MarketPrecision {
                    amount: Some(8),
                    price: Some(2),
                    cost: None,
                    base: None,
                    quote: None,
                },
                limits: MarketLimits::none(),
            };
            out.push(m);
            i = i + 1;
        }
        out
    }

    /// Records markets by symbol and by id.
    pub fn store_markets(&mut self, markets: &Vec<Market>)
        ensures
            final(self).markets_by_id.entries@.len() == markets@.len(),
            final(self).markets_by_symbol.entries@.len() == markets@.len(),
            forall|k: int|
                0 <= k < markets@.len() ==> (#[trigger] final(self).markets_by_id.entries@[k]).0@
                    == markets@[k].id@ && final(self).markets_by_id.entries@[k].1@
                    == markets@[k].symbol@ && final(self).markets_by_symbol.entries@[k].0@
                    == markets@[k].symbol@ && final(self).markets_by_symbol.entries@[k].1@
                    == markets@[k].id@,
            final(self).config == old(self).config,
            final(self).features == old(self).features,
    {
        let mut by_id: Vec<(String, String)> = Vec::new();
        let mut by_symbol: Vec<(String, String)> = Vec::new();
        let n = markets.len();
        let mut i: usize = 0;
        while i < n
            invariant
                n == markets@.len(),
                i <= n,
                by_id@.len() == i,
                by_symbol@.len() == i,
                forall|k: int|
                    0 <= k < i ==> (#[trigger] by_id@[k]).0@ == markets@[k].id@ && by_id@[k].1@
                        == markets@[k].symbol@ && by_symbol@[k].0@ == markets@[k].symbol@
                        && by_symbol@[k].1@ == markets@[k].id@,
            decreases n - i,
        {
            by_id.push((copy_str(markets[i].id.as_str()), copy_str(markets[i].symbol.as_str())));
            by_symbol.push(
                (copy_str(markets[i].symbol.as_str()), copy_str(markets[i].id.as_str())),
            );
            i = i + 1;
        }
        self.markets_by_id = MarketIndex { entries: by_id };
        self.markets_by_symbol = MarketIndex { entries: by_symbol };
    }

    /// Unified ticker; the time falls back to `now` when the exchange gives none.
    pub fn parse_ticker(&self, data: &MercadoTicker, symbol: &str, now: i64) -> (r: Ticker)
        ensures
            r.symbol@ == symbol@,
            r.timestamp == Some(match data.date {
                Some(d) => d,
                None => now,
            }),
            opt_view(r.datetime) == Some(iso8601_or_empty_spec(
                match data.date {
                    Some(d) => d,
                    None => now,
                } as int,
            )),
            r.high == data.high && r.low == data.low && r.bid == data.buy && r.ask == data.sell,
            r.close == data.last && r.last == data.last && r.base_volume == data.vol,
            r.bid_volume is None && r.ask_volume is None && r.vwap is None && r.open is None,
            r.previous_close is None && r.change is None && r.percentage is None,
            r.average is None && r.quote_volume is None && r.index_price is None
                && r.mark_price is None,
    {
        let timestamp = match data.date {
            Some(d) => d,
            None => now,
        };
        Ticker {
            symbol: copy_str(symbol),
            timestamp: Some(timestamp),
            datetime: Some(iso8601_or_empty(timestamp)),
            high: data.high,
            low: data.low,
            bid: data.buy,
            bid_volume: None,
            ask: data.sell,
            ask_volume: None,
            vwap: None,
            open: None,
            close: data.last,
            last: data.last,
            previous_close: None,
            change: None,
            percentage: None,
            average: None,
            base_volume: data.vol,
            quote_volume: None,
            index_price: None,
            mark_price: None,
        }
    }

    /// Order-book levels of price/amount rows: rows with fewer than two numbers
    /// are skipped, and at most `limit` levels are kept.
    pub fn parse_levels(rows: &Vec<Vec<Dec>>, limit: Option<u32>) -> (r: Vec<OrderBookEntry>)
        ensures
            r@.len() == (match limit {
                Some(l) => if kept_rows(rows@).len() <= l as int {
                    kept_rows(rows@).len() as int
                } else {
                    l as int
                },
                None => kept_rows(rows@).len() as int,
            }),
            forall|k: int|
                0 <= k < r@.len() ==> (#[trigger] r@[k]).price == kept_rows(rows@)[k]@[0]
                    && r@[k].amount == kept_rows(rows@)[k]@[1],
    {
        let mut out: Vec<OrderBookEntry> = Vec::new();
        let n = rows.len();
        let mut i: usize = 0;
        while i < n && under_limit(out.len(), limit)
            invariant
                n == rows@.len(),
                i <= n,
                out@.len() == kept_rows(rows@.take(i as int)).len(),
                forall|k: int|
                    0 <= k < out@.len() ==> (#[trigger] out@[k]).price == kept_rows(
                        rows@.take(i as int),
                    )[k]@[0] && out@[k].amount == kept_rows(rows@.take(i as int))[k]@[1],
                limit matches Some(l) ==> out@.len() <= l,
            decreases n - i,
        {
            proof {
                assert(rows@.take(i + 1).drop_last() =~= rows@.take(i as int));
                assert(rows@.take(i + 1).last() == rows@[i as int]);
                reveal_with_fuel(Seq::<_>::filter, 1);
            }
            if rows[i].len() >= 2 {
                let e = OrderBookEntry { price: rows[i][0], amount: rows[i][1] };
                out.push(e);
            }
            i = i + 1;
        }
        proof {
            lemma_kept_prefix(rows@, i as int);
            if i == n {
                assert(rows@.take(n as int) =~= rows@);
            }
        }
        out
    }

    /// Unified trade of a Mercado trade; the exchange's time is in seconds.
    pub fn parse_trade(t: &MercadoTrade, symbol: &str) -> (r: Trade)
        requires
            secs_fit_ms(t.date as int),
        ensures
            spec_mercado_trade_ok(*t, symbol@, r),
    {
        let timestamp = t.date * 1000;
        Trade {
            id: int_to_string(t.tid as i128),
            order: None,
            timestamp: Some(timestamp),
            datetime: Some(iso8601_or_empty(timestamp)),
            symbol: copy_str(symbol),
            trade_type: None,
            side: Some(copy_str(t.trade_type.as_str())),
            taker_or_maker: None,
            price: t.price,
            amount: t.amount,
            cost: None,
            fee: None,
        }
    }

    /// Whether every trade's time, in seconds, can be written in
    /// milliseconds; trades that cannot are not read.
    pub fn trades_fit(rows: &Vec<MercadoTrade>) -> (r: bool)
        ensures
            r == (forall|j: int| 0 <= j < rows@.len() ==> secs_fit_ms(#[trigger] rows@[j].date as int)),
    {
        let n = rows.len();
        let mut i: usize = 0;
        while i < n
            invariant
                n == rows@.len(),
                i <= n,
                forall|j: int| 0 <= j < i ==> secs_fit_ms(#[trigger] rows@[j].date as int),
            decreases n - i,
        {
            let d = rows[i].date;
            if d < -9_223_372_036_854_775 || d > 9_223_372_036_854_775 {
                return false;
            }
            i = i + 1;
        }
        true
    }

    /// Unified trades of the first `limit` (100 when absent) Mercado trades.
    pub fn parse_trades(rows: &Vec<MercadoTrade>, symbol: &str, limit: Option<u32>) -> (r: Vec<Trade>)
        requires
            forall|j: int| 0 <= j < rows@.len() ==> secs_fit_ms(#[trigger] rows@[j].date as int),
        ensures
            r@.len() == spec_take_len(rows@.len() as int, match limit {
                Some(l) => l as int,
                None => 100,
            }),
            forall|k: int| 0 <= k < r@.len() ==> spec_mercado_trade_ok(rows@[k], symbol@, #[trigger] r@[k]),
    {
        let cap: usize = match limit {
            Some(l) => l as usize,
            None => 100,
        };
        let n = if rows.len() < cap { rows.len() } else { cap };
        let mut out: Vec<Trade> = Vec::new();
        let mut i: usize = 0;
        while i < n
            invariant
                n <= rows@.len(),
                n == spec_take_len(rows@.len() as int, cap as int),
                cap as int == (match limit {
                    Some(l) => l as int,
                    None => 100,
                }),
                forall|j: int| 0 <= j < rows@.len() ==> secs_fit_ms(#[trigger] rows@[j].date as int),
                i <= n,
                out@.len() == i,
                forall|k: int| 0 <= k < i ==> spec_mercado_trade_ok(rows@[k], symbol@, #[trigger] out@[k]),
            decreases n - i,
        {
            let t = Self::parse_trade(&rows[i], symbol);
            out.push(t);
            i = i + 1;
        }
        out
    }

    /// Unified candle of a Mercado candle.
    pub fn parse_candle(c: &MercadoCandle) -> (r: OHLCV)
        ensures
            r == (OHLCV {
                timestamp: c.timestamp,
                open: c.open,
                high: c.high,
                low: c.low,
                close: c.close,
                volume: c.volume,
            }),
    {
        OHLCV {
            timestamp: c.timestamp,
            open: c.open,
            high: c.high,
            low: c.low,
            close: c.close,
            volume: c.volume,
        }
    }

    /// Unified candles, in the order the exchange sent them.
    pub fn parse_candles(rows: &Vec<MercadoCandle>) -> (r: Vec<OHLCV>)
        ensures
            r@.len() == rows@.len(),
            forall|k: int|
                0 <= k < r@.len() ==> #[trigger] r@[k] == (OHLCV {
                    timestamp: rows@[k].timestamp,
                    open: rows@[k].open,
                    high: rows@[k].high,
                    low: rows@[k].low,
                    close: rows@[k].close,
                    volume: rows@[k].volume,
                }),
    {
        let mut out: Vec<OHLCV> = Vec::new();
        let n = rows.len();
        let mut i: usize = 0;
        while i < n
            invariant
                n == rows@.len(),
                i <= n,
                out@.len() == i,
                forall|k: int|
                    0 <= k < i ==> #[trigger] out@[k] == (OHLCV {
                        timestamp: rows@[k].timestamp,
                        open: rows@[k].open,
                        high: rows@[k].high,
                        low: rows@[k].low,
                        close: rows@[k].close,
                        volume: rows@[k].volume,
                    }),
            decreases n - i,
        {
            out.push(Self::parse_candle(&rows[i]));
            i = i + 1;
        }
        out
    }

    /// Path and query of a candle request: the resolution of the timeframe,
    /// and the limit when given. A timeframe the exchange lacks is refused.
    pub fn ohlcv_request(&self, symbol: &str, timeframe: Timeframe, limit: Option<u32>) -> (r:
        Result<(String, Vec<(String, String)>), CcxtError>)
        ensures
            r is Err <==> spec_mercado_timeframe(timeframe) is None,
            r is Err ==> (r matches Err(CcxtError::NotSupported { feature }) && feature@ == "Timeframe "@ + spec_timeframe_name(timeframe)),
            r matches Ok((path, p)) ==> path@ == "/"@ + spec_mercado_market_id(symbol@) + "/candles"@
                && p@[0].0@ == "resolution"@ && Some(p@[0].1@) == spec_mercado_timeframe(timeframe)
                && (match limit {
                Some(l) => p@.len() == 2 && p@[1].0@ == "limit"@ && p@[1].1@ == spec_int_to_string(
                    l as int,
                ),
                None => p@.len() == 1,
            }),
    {
        let tf = match Self::timeframe(timeframe) {
            Some(t) => t,
            None => {
                return Err(CcxtError::NotSupported { feature: concat2("Timeframe ", timeframe.name()) });
            },
        };
        let id = self.convert_to_market_id(symbol);
        let path = concat3("/", id.as_str(), "/candles");
        let mut params = param1("resolution", copy_str(tf));
        if let Some(l) = limit {
            push_param(&mut params, "limit", int_to_string(l as i128));
        }
        Ok((path, params))
    }

    /// Holdings of one currency: free is what is available, used is the rest
    /// of the total; an absent figure counts as zero.
    pub fn parse_balance_entry(info: &MercadoBalanceInfo) -> (r: Balance)
        ensures
            spec_mercado_balance_ok(*info, r),
    {
        let free = match info.available {
            Some(d) => d,
            None => Dec::zero(),
        };
        let total = match info.total {
            Some(d) => d,
            None => Dec::zero(),
        };
        Balance { free: Some(free), used: dec_sub(total, free), total: Some(total) }
    }

    /// Unified balances, keyed by the upper-case currency code; a later entry
    /// of a code replaces an earlier one. The time of the reading is `now`.
    pub fn parse_balance(entries: &Vec<(String, MercadoBalanceInfo)>, now: i64) -> (r: Balances)
        ensures
            keyed_by_last(
                entries@.map_values(|e: (String, MercadoBalanceInfo)| spec_to_uppercase(e.0@)),
                r.currencies@,
                |i: int, bal: Balance| spec_mercado_balance_ok(entries@[i].1, bal),
            ),
            r.timestamp == Some(now),
            opt_view(r.datetime) == Some(iso8601_or_empty_spec(now as int)),
    {
        let ghost ok = |i: int, bal: Balance| spec_mercado_balance_ok(entries@[i].1, bal);
        let ghost codes = entries@.map_values(|e: (String, MercadoBalanceInfo)| spec_to_uppercase(e.0@));
        let mut result = Balances::new();
        result.timestamp = Some(now);
        result.datetime = Some(iso8601_or_empty(now));
        let n = entries.len();
        let mut k: usize = 0;
        proof {
            lemma_keyed_empty(ok);
            assert(codes.take(0) =~= Seq::<Seq<char>>::empty());
            assert(result.currencies@ =~= Seq::<(String, Balance)>::empty());
        }
        while k < n
            invariant
                n == entries@.len(),
                k <= n,
                codes == entries@.map_values(|e: (String, MercadoBalanceInfo)| spec_to_uppercase(e.0@)),
                result.timestamp == Some(now),
                opt_view(result.datetime) == Some(iso8601_or_empty_spec(now as int)),
                ok == (|i: int, bal: Balance| spec_mercado_balance_ok(entries@[i].1, bal)),
                keyed_by_last(codes.take(k as int), result.currencies@, ok),
            decreases n - k,
        {
            let bal = Self::parse_balance_entry(&entries[k].1);
            let ghost before = result.currencies@;
            let code = to_uppercase(entries[k].0.as_str());
            result.add(code, bal);
            proof {
                assert(codes.take(k as int).len() == k);
                lemma_keyed_step(codes.take(k as int), before, result.currencies@, codes[k as int], bal, ok);
                assert(codes.take(k as int).push(codes[k as int]) =~= codes.take(k + 1));
            }
            k = k + 1;
        }
        proof {
            assert(codes.take(n as int) =~= codes);
        }
        result
    }

    /// Private method and parameters of an order. Only limit orders are
    /// offered: a market order is refused, and a limit order needs a price.
    pub fn create_order_request(
        &self,
        symbol: &str,
        order_type: OrderType,
        side: OrderSide,
        amount: Dec,
        price: Option<Dec>,
    ) -> (r: Result<(String, Vec<(String, String)>), CcxtError>)
        ensures
            order_type == OrderType::Market ==> r matches Err(CcxtError::NotSupported { .. }),
            order_type != OrderType::Market && price is None ==> r matches Err(
                CcxtError::ArgumentsRequired { .. },
            ),
            r is Ok <==> (order_type != OrderType::Market && price is Some),
            r matches Ok((method, p)) ==> method@ == (if side == OrderSide::Buy {
                "place_buy_order"@
            } else {
                "place_sell_order"@
            }) && p@.len() == 3 && p@[0].0@ == "coin_pair"@ && p@[0].1@ == "BRL"@
                + spec_mercado_market_id(symbol@) && p@[1].0@ == "quantity"@ && (amount.wf()
                ==> p@[1].1@ == spec_dec_to_string(amount.parts())) && p@[2].0@ == "limit_price"@
                && (price->0.wf() ==> p@[2].1@ == spec_dec_to_string(price->0.parts())),
    {
        if order_type == OrderType::Market {
            return Err(CcxtError::NotSupported { feature: copy_str("Market orders") });
        }
        let p = match price {
            Some(p) => p,
            None => {
                return Err(
                    CcxtError::ArgumentsRequired {
                        message: copy_str("Price is required for limit orders"),
                    },
                );
            },
        };
        let id = self.convert_to_market_id(symbol);
        let method = match side {
            OrderSide::Buy => copy_str("place_buy_order"),
            OrderSide::Sell => copy_str("place_sell_order"),
        };
        let mut params = param1("coin_pair", concat2("BRL", id.as_str()));
        push_param(&mut params, "quantity", amount.to_text());
        push_param(&mut params, "limit_price", p.to_text());
        Ok((method, params))
    }

    /// Parameters that name one order of a market (for cancelling or
    /// fetching it).
    pub fn order_ref_params(&self, id: &str, symbol: &str) -> (r: Vec<(String, String)>)
        ensures
            r@.len() == 2,
            r@[0].0@ == "coin_pair"@,
            r@[0].1@ == "BRL"@ + spec_mercado_market_id(symbol@),
            r@[1].0@ == "order_id"@,
            r@[1].1@ == id@,
    {
        let mid = self.convert_to_market_id(symbol);
        let mut params = param1("coin_pair", concat2("BRL", mid.as_str()));
        push_param(&mut params, "order_id", copy_str(id));
        params
    }

    /// Parameters that list the open orders of a market (`BTC` when no
    /// symbol is given).
    pub fn open_orders_params(&self, symbol: Option<&str>) -> (r: Vec<(String, String)>)
        ensures
            r@.len() == 2,
            r@[0].0@ == "coin_pair"@,
            r@[0].1@ == "BRL"@ + (match symbol {
                Some(s) => spec_mercado_market_id(s@),
                None => "BTC"@,
            }),
            r@[1].0@ == "status_list"@,
            r@[1].1@ == "[2]"@,
    {
        let mid = match symbol {
            Some(s) => self.convert_to_market_id(s),
            None => copy_str("BTC"),
        };
        let mut params = param1("coin_pair", concat2("BRL", mid.as_str()));
        push_param(&mut params, "status_list", copy_str("[2]"));
        params
    }

    /// The order just placed: open, unfilled, at the given price; its id is
    /// the one the exchange returned (empty when none) and its time `now`.
    pub fn created_order(
        order_id: Option<i64>,
        symbol: &str,
        order_type: OrderType,
        side: OrderSide,
        amount: Dec,
        price: Dec,
        now: i64,
    ) -> (r: Order)
        ensures
            r.no_extras(),
            r.id@ == (match order_id {
                Some(i) => spec_int_to_string(i as int),
                None => Seq::<char>::empty(),
            }),
            r.status == OrderStatus::Open && r.symbol@ == symbol@ && r.order_type == order_type,
            r.side == side && r.price == Some(price) && r.amount == amount,
            r.filled == (Dec { mantissa: 0, scale: 0 }) && r.remaining == Some(amount),
            r.timestamp == Some(now),
            opt_view(r.datetime) == Some(iso8601_or_empty_spec(now as int)),
            r.client_order_id is None && r.average is None && r.cost is None && r.fee is None,
            r.last_trade_timestamp is None && r.last_update_timestamp is None,
    {
        let id = match order_id {
            Some(i) => int_to_string(i as i128),
            None => String::new(),
        };
        Order {
            id,
            client_order_id: None,
            timestamp: Some(now),
            datetime: Some(iso8601_or_empty(now)),
            last_trade_timestamp: None,
            last_update_timestamp: None,
            status: OrderStatus::Open,
            symbol: copy_str(symbol),
            order_type,
            time_in_force: None,
            side,
            price: Some(price),
            average: None,
            amount,
            filled: Dec::zero(),
            remaining: Some(amount),
            stop_price: None,
            trigger_price: None,
            take_profit_price: None,
            stop_loss_price: None,
            trades: Vec::new(),
            cost: None,
            fee: None,
            reduce_only: None,
            post_only: None,
        }
    }

    /// The order just cancelled, as far as the request tells it.
    pub fn canceled_order(id: &str, symbol: &str, now: i64) -> (r: Order)
        ensures
            r.no_extras(),
            r.id@ == id@ && r.symbol@ == symbol@ && r.status == OrderStatus::Canceled,
            r.order_type == OrderType::Limit && r.side == OrderSide::Buy,
            r.amount == (Dec { mantissa: 0, scale: 0 }) && r.filled == (Dec { mantissa: 0, scale: 0 }) && r.remaining is None,
            r.price is None && r.timestamp == Some(now),
            opt_view(r.datetime) == Some(iso8601_or_empty_spec(now as int)),
    {
        Order {
            id: copy_str(id),
            client_order_id: None,
            timestamp: Some(now),
            datetime: Some(iso8601_or_empty(now)),
            last_trade_timestamp: None,
            last_update_timestamp: None,
            status: OrderStatus::Canceled,
            symbol: copy_str(symbol),
            order_type: OrderType::Limit,
            time_in_force: None,
            side: OrderSide::Buy,
            price: None,
            average: None,
            amount: Dec::zero(),
            filled: Dec::zero(),
            remaining: None,
            stop_price: None,
            trigger_price: None,
            take_profit_price: None,
            stop_loss_price: None,
            trades: Vec::new(),
            cost: None,
            fee: None,
            reduce_only: None,
            post_only: None,
        }
    }

    /// Order status of a status code: 3 cancelled, 4 filled, anything else open.
    pub fn parse_status(code: Option<i32>) -> (r: OrderStatus)
        ensures
            r == spec_mercado_status(code),
    {
        match code {
            Some(3) => OrderStatus::Canceled,
            Some(4) => OrderStatus::Closed,
            _ => OrderStatus::Open,
        }
    }

    /// Order side of an order-type code: 2 sells, anything else buys.
    pub fn parse_side(code: Option<i32>) -> (r: OrderSide)
        ensures
            r == spec_mercado_side(code),
    {
        match code {
            Some(2) => OrderSide::Sell,
            _ => OrderSide::Buy,
        }
    }

    /// Unified order of a Mercado order. `id` is the order's id as known to
    /// the caller (`None`: the one the exchange sent, empty when absent);
    /// `status` overrides the exchange's status code when given; the time
    /// falls back to `now`.
    pub fn parse_order_detail(
        o: &MercadoOrderDetail,
        id: Option<&str>,
        status: Option<OrderStatus>,
        symbol: &str,
        now: i64,
    ) -> (r: Order)
        ensures
            r.no_extras(),
            r.id@ == (match id {
                Some(s) => s@,
                None => match o.order_id {
                    Some(i) => spec_int_to_string(i as int),
                    None => Seq::<char>::empty(),
                },
            }),
            r.status == (match status {
                Some(s) => s,
                None => spec_mercado_status(o.status),
            }),
            r.side == spec_mercado_side(o.order_type),
            r.symbol@ == symbol@ && r.order_type == OrderType::Limit && r.price == o.limit_price,
            r.amount == (match o.quantity {
                Some(q) => q,
                None => Dec::zero(),
            }),
            r.filled == (match o.executed_quantity {
                Some(q) => q,
                None => Dec::zero(),
            }),
            opt_parts(r.remaining) == checked_op(
                r.amount,
                r.filled,
                |x: (int, int), y: (int, int)| spec_dec_sub(x, y),
            ),
            r.timestamp == Some(match o.created_timestamp {
                Some(t) => t,
                None => now,
            }),
            opt_view(r.datetime) == Some(iso8601_or_empty_spec(
                match o.created_timestamp {
                    Some(t) => t,
                    None => now,
                } as int,
            )),
            r.average is None && r.cost is None && r.fee is None && r.client_order_id is None,
    {
        let timestamp = match o.created_timestamp {
            Some(t) => t,
            None => now,
        };
        let amount = match o.quantity {
            Some(q) => q,
            None => Dec::zero(),
        };
        let filled = match o.executed_quantity {
            Some(q) => q,
            None => Dec::zero(),
        };
        let oid = match id {
            Some(s) => copy_str(s),
            None => match o.order_id {
                Some(i) => int_to_string(i as i128),
                None => String::new(),
            },
        };
        let st = match status {
            Some(s) => s,
            None => Self::parse_status(o.status),
        };
        Order {
            id: oid,
            client_order_id: None,
            timestamp: Some(timestamp),
            datetime: Some(iso8601_or_empty(timestamp)),
            last_trade_timestamp: None,
            last_update_timestamp: None,
            status: st,
            symbol: copy_str(symbol),
            order_type: OrderType::Limit,
            time_in_force: None,
            side: Self::parse_side(o.order_type),
            price: o.limit_price,
            average: None,
            amount,
            filled,
            remaining: dec_sub(amount, filled),
            stop_price: None,
            trigger_price: None,
            take_profit_price: None,
            stop_loss_price: None,
            trades: Vec::new(),
            cost: None,
            fee: None,
            reduce_only: None,
            post_only: None,
        }
    }

    /// Unified open orders of a listing; the symbol is `BTC/BRL` when none is
    /// given.
    pub fn parse_open_orders(orders: &Vec<MercadoOrderDetail>, symbol: Option<&str>, now: i64) -> (r:
        Vec<Order>)
        ensures
            r@.len() == orders@.len(),
            forall|k: int|
                0 <= k < r@.len() ==> (#[trigger] r@[k]).status == OrderStatus::Open && r@[k].symbol@
                    == (match symbol {
                    Some(s) => s@,
                    None => "BTC/BRL"@,
                }) && r@[k].side == spec_mercado_side(orders@[k].order_type) && r@[k].id@ == (
                match orders@[k].order_id {
                    Some(i) => spec_int_to_string(i as int),
                    None => Seq::<char>::empty(),
                }) && r@[k].price == orders@[k].limit_price,
    {
        let sym = match symbol {
            Some(s) => s,
            None => "BTC/BRL",
        };
        let mut out: Vec<Order> = Vec::new();
        let n = orders.len();
        let mut i: usize = 0;
        while i < n
            invariant
                n == orders@.len(),
                i <= n,
                out@.len() == i,
                sym@ == (match symbol {
                    Some(s) => s@,
                    None => "BTC/BRL"@,
                }),
                forall|k: int|
                    0 <= k < i ==> (#[trigger] out@[k]).status == OrderStatus::Open && out@[k].symbol@
                        == sym@ && out@[k].side == spec_mercado_side(orders@[k].order_type)
                        && out@[k].id@ == (match orders@[k].order_id {
                        Some(i) => spec_int_to_string(i as int),
                        None => Seq::<char>::empty(),
                    }) && out@[k].price == orders@[k].limit_price,
            decreases n - i,
        {
            let o = Self::parse_order_detail(&orders[i], None, Some(OrderStatus::Open), sym, now);
            out.push(o);
            i = i + 1;
        }
        out
    }

    /// The query of a private request: the parameters, then `tapi_method`
    /// and `tapi_nonce`, values percent-encoded when `encode` holds.
    pub fn tapi_query(params: &Vec<(String, String)>, method: &str, nonce: &str, encode: bool) -> (r:
        String)
        ensures
            r@ == spec_tapi_query(params@, method@, nonce@, encode),
    {
        let mut q = build_query(params, encode);
        if params.len() > 0 {
            push_char(&mut q, '&');
        }
        push_str(&mut q, "tapi_method=");
        if encode {
            let m = url_encode(method);
            push_str(&mut q, m.as_str());
        } else {
            push_str(&mut q, method);
        }
        push_str(&mut q, "&tapi_nonce=");
        if encode {
            let m = url_encode(nonce);
            push_str(&mut q, m.as_str());
        } else {
            push_str(&mut q, nonce);
        }
        proof {
            reveal_strlit("tapi_method=");
            reveal_strlit("&tapi_nonce=");
            reveal_strlit("tapi_method");
            reveal_strlit("tapi_nonce");
            reveal_strlit("&");
            assert(q@ =~= spec_tapi_query(params@, method@, nonce@, encode));
        }
        q
    }

    /// A signed private request to `/tapi/v3/`: the form body holds the
    /// parameters with `tapi_method` and `tapi_nonce` appended; `TAPI-MAC`
    /// is the hex HMAC-SHA512, under the secret, of `/tapi/v3/?` followed by
    /// the same query unencoded. A missing key or secret is refused.
    pub fn tapi_request(&self, method: &str, params: &Vec<(String, String)>, nonce: i64) -> (r:
        Result<SignedRequest, CcxtError>)
        ensures
            r is Err <==> (self.config.api_key is None || self.config.secret is None),
            r is Err ==> r matches Err(CcxtError::AuthenticationError { .. }),
            r matches Ok(req) ==> {
                let nonce_text = spec_int_to_string(nonce as int);
                &&& req.url@ == MERCADO_BASE_URL@ + "/tapi/v3/"@
                &&& req.method@ == "POST"@
                &&& opt_view(req.body) == Some(spec_tapi_query(params@, method@, nonce_text, true))
                &&& req.headers@.len() == 3
                &&& req.headers@[0].0@ == "TAPI-ID"@
                &&& req.headers@[0].1@ == self.config.api_key->0@
                &&& req.headers@[1].0@ == "TAPI-MAC"@
                &&& req.headers@[1].1@ == spec_hex_lower(
                    spec_hmac_sha512(
                        encode_utf8(self.config.secret->0@),
                        encode_utf8("/tapi/v3/?"@ + spec_tapi_query(params@, method@, nonce_text, false)),
                    ),
                )
                &&& req.headers@[2].0@ == "Content-Type"@
                &&& req.headers@[2].1@ == "application/x-www-form-urlencoded"@
            },
    {
        let key = match self.config.api_key() {
            Some(k) => k,
            None => {
                return Err(CcxtError::AuthenticationError { message: copy_str("API key required") });
            },
        };
        let secret = match self.config.secret() {
            Some(s) => s,
            None => {
                return Err(CcxtError::AuthenticationError { message: copy_str("Secret required") });
            },
        };
        let nonce_text = int_to_string(nonce as i128);
        let plain = Self::tapi_query(params, method, nonce_text.as_str(), false);
        let body = Self::tapi_query(params, method, nonce_text.as_str(), true);
        let message = concat2("/tapi/v3/?", plain.as_str());
        let mac = hmac_sha512(secret.as_bytes(), message.as_str().as_bytes());
        let signature = hex_encode(mac.as_slice());
        let mut headers: Vec<(String, String)> = Vec::new();
        headers.push((copy_str("TAPI-ID"), copy_str(key)));
        headers.push((copy_str("TAPI-MAC"), signature));
        headers.push(
            (copy_str("Content-Type"), copy_str("application/x-www-form-urlencoded")),
        );
        Ok(
            SignedRequest {
                url: concat2(MERCADO_BASE_URL, "/tapi/v3/"),
                method: copy_str("POST"),
                headers,
                body: Some(body),
            },
        )
    }

    /// The request of the generic signing hook: the path as given, the
    /// method, no headers and no body (private calls go through
    /// [`Mercado::tapi_request`]).
    pub fn sign(&self, path: &str, method: &str) -> (r: SignedRequest)
        ensures
            r.url@ == path@,
            r.method@ == method@,
            r.headers@.len() == 0,
            r.body is None,
    {
        SignedRequest { url: copy_str(path), method: copy_str(method), headers: Vec::new(), body: None }
    }
}

/// The query of a private request: the parameters, then `tapi_method` and
/// `tapi_nonce`.
pub open spec fn spec_tapi_query(
    params: Seq<(String, String)>,
    method: Seq<char>,
    nonce: Seq<char>,
    encode: bool,
) -> Seq<char> {
    let tail = kv_spec("tapi_method"@, method, encode) + "&"@ + kv_spec("tapi_nonce"@, nonce, encode);
    if params.len() == 0 {
        tail
    } else {
        query_spec(params, encode) + "&"@ + tail
    }
}

/// A Mercado trade read into a unified trade.
pub open spec fn spec_mercado_trade_ok(t: MercadoTrade, symbol: Seq<char>, r: Trade) -> bool {
    &&& r.id@ == spec_int_to_string(t.tid as int)
    &&& r.timestamp == Some((t.date * 1000) as i64)
    &&& opt_view(r.datetime) == Some(iso8601_or_empty_spec(t.date * 1000))
    &&& r.symbol@ == symbol
    &&& opt_view(r.side) == Some(t.trade_type@)
    &&& r.price == t.price
    &&& r.amount == t.amount
    &&& r.order is None && r.trade_type is None && r.taker_or_maker is None
    &&& r.cost is None && r.fee is None
}

/// Number of items that taking at most `cap` of `len` yields.
pub open spec fn spec_take_len(len: int, cap: int) -> int {
    if len < cap {
        len
    } else {
        cap
    }
}

/// Mercado holdings read into a unified balance.
pub open spec fn spec_mercado_balance_ok(info: MercadoBalanceInfo, r: Balance) -> bool {
    let free = match info.available {
        Some(d) => d,
        None => Dec { mantissa: 0, scale: 0 },
    };
    let total = match info.total {
        Some(d) => d,
        None => Dec { mantissa: 0, scale: 0 },
    };
    &&& r.free == Some(free)
    &&& r.total == Some(total)
    &&& opt_parts(r.used) == checked_op(total, free, |x: (int, int), y: (int, int)| spec_dec_sub(x, y))
}

/// Whether a list of `len` levels may still grow under an optional limit.
fn under_limit(len: usize, limit: Option<u32>) -> (r: bool)
    ensures
        r == (match limit {
            Some(l) => len < l,
            None => true,
        }),
{
    match limit {
        Some(l) => (len as u64) < (l as u64),
        None => true,
    }
}

/// The rows kept from a prefix are a prefix of the rows kept from the whole.
proof fn lemma_kept_prefix(rows: Seq<Vec<Dec>>, i: int)
    requires
        0 <= i <= rows.len(),
    ensures
        kept_rows(rows) == kept_rows(rows.take(i)) + kept_rows(rows.skip(i)),
{
    assert(rows =~= rows.take(i) + rows.skip(i));
    Seq::filter_distributes_over_add(rows.take(i), rows.skip(i), |x: Vec<Dec>| x@.len() >= 2);
}

} // verus!
