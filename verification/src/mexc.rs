//! MEXC: global spot exchange.

use crate::common::{
    build_query, copy_opt, keyed_insert, lemma_pair_keyed_empty, lemma_pair_keyed_step, opt_view,
    pair_keyed_by_last, query_spec, texts_of, MarketIndex,
};
use crate::crypto::{hex_encode, hmac_sha256, spec_hex_lower, spec_hmac_sha256};
use crate::dec::{
    checked_op, dec_add, dec_div, dec_mul, dec_sub, opt_parts, opt_text_dec, parse_opt,
    parse_or_zero, spec_dec_add, spec_dec_div, spec_dec_mul, spec_dec_parse, spec_dec_sub,
    spec_dec_to_string, text_dec_or_zero, Dec,
};
use crate::book::text_levels;
use crate::json::{spec_as_i64, spec_as_str, Json};
use crate::text::{
    concat2, concat3, copy_str, int_to_string, push_str, remove_all, remove_char,
    spec_int_to_string, spec_to_lowercase, spec_to_uppercase, str_eq, to_lowercase, to_uppercase,
};
use crate::time::{iso8601_or_empty, iso8601_or_empty_spec};
use crate::types::{
    ExchangeUrls,
    keyed_by_last, lemma_keyed_empty, lemma_keyed_step, Balance, Balances, CcxtError,
    ExchangeConfig, ExchangeFeatures, ExchangeId, Fee, MarginMode, Market, MarketLimits,
    MarketPrecision, MarketType, MinMax, OHLCV, Order, OrderBook, OrderSide, OrderStatus,
    OrderType, SignedRequest, TakerOrMaker, Ticker, Timeframe, Trade, Transaction,
    TransactionStatus, TransactionType, TransferEntry, DepositAddress, Leverage, MarginModeInfo,
    MarginModification, MarginModificationType, FundingRate, OpenInterest,
};
use vstd::prelude::*;
use vstd::utf8::encode_utf8;

verus! {

/// API address.
pub const MEXC_BASE_URL: &'static str = "https://api.mexc.com";

/// Minimum spacing of requests, in milliseconds.
pub const MEXC_RATE_LIMIT_MS: u64 = 50;

/// Market as the exchange sends it.
#[derive(Clone, Debug, PartialEq)]
pub struct MexcSymbol {
    pub symbol: String,
    pub status: String,
    pub base_asset: String,
    pub base_asset_precision: i32,
    pub quote_asset: String,
    pub quote_precision: i32,
    pub quote_amount_precision: Option<String>,
}

/// 24-hour statistics as the exchange sends them.
#[derive(Clone, Debug, PartialEq)]
pub struct MexcTicker {
    pub symbol: Option<String>,
    pub price_change: Option<String>,
    pub price_change_percent: Option<String>,
    pub weighted_avg_price: Option<String>,
    pub prev_close_price: Option<String>,
    pub last_price: Option<String>,
    pub bid_price: Option<String>,
    pub bid_qty: Option<String>,
    pub ask_price: Option<String>,
    pub ask_qty: Option<String>,
    pub open_price: Option<String>,
    pub high_price: Option<String>,
    pub low_price: Option<String>,
    pub volume: Option<String>,
    pub quote_volume: Option<String>,
    pub open_time: Option<i64>,
    pub close_time: Option<i64>,
}

/// Public trade as the exchange sends it.
#[derive(Clone, Debug, PartialEq)]
pub struct MexcTrade {
    pub id: i64,
    pub price: String,
    pub qty: String,
    pub time: i64,
    pub is_buyer_maker: bool,
}

/// Holdings of one asset as the exchange sends them.
#[derive(Clone, Debug, PartialEq)]
pub struct MexcBalance {
    pub asset: String,
    pub free: String,
    pub locked: String,
}

/// Order as the exchange sends it.
#[derive(Clone, Debug, PartialEq)]
pub struct MexcOrder {
    pub symbol: String,
    pub order_id: i64,
    pub client_order_id: Option<String>,
    pub price: String,
    pub orig_qty: String,
    pub executed_qty: String,
    pub cummulative_quote_qty: String,
    pub status: String,
    pub order_type: String,
    pub side: String,
    pub time: i64,
    pub update_time: Option<i64>,
}

/// Fill of one of the account's orders as the exchange sends it.
#[derive(Clone, Debug, PartialEq)]
pub struct MexcMyTrade {
    pub id: i64,
    pub order_id: i64,
    pub price: String,
    pub qty: String,
    pub commission: String,
    pub commission_asset: String,
    pub time: i64,
    pub is_buyer: bool,
    pub is_maker: bool,
}

/// Deposit as the exchange sends it.
#[derive(Clone, Debug, PartialEq)]
pub struct MexcDeposit {
    pub id: Option<String>,
    pub coin: String,
    pub network: Option<String>,
    pub amount: String,
    pub address: Option<String>,
    pub address_tag: Option<String>,
    pub tx_id: Option<String>,
    pub status: i32,
    pub insert_time: Option<i64>,
    pub confirm_times: Option<u32>,
}

/// Withdrawal as the exchange sends it.
#[derive(Clone, Debug, PartialEq)]
pub struct MexcWithdrawal {
    pub id: String,
    pub coin: String,
    pub network: Option<String>,
    pub amount: String,
    pub address: String,
    pub tx_id: Option<String>,
    pub status: String,
    pub transaction_fee: Option<String>,
    pub apply_time: Option<i64>,
    pub confirm_no: Option<u32>,
}

/// Transfer record as the exchange sends it.
#[derive(Clone, Debug, PartialEq)]
pub struct MexcTransferRecord {
    pub tran_id: i64,
    pub asset: String,
    pub amount: String,
    pub timestamp: Option<i64>,
    pub status: String,
}

/// Deposit address as the exchange sends it.
#[derive(Clone, Debug, PartialEq)]
pub struct MexcDepositAddress {
    pub address: String,
    pub tag: Option<String>,
    pub network: String,
    pub coin: String,
}

/// Premium index of a contract as the exchange sends it.
#[derive(Clone, Debug, PartialEq)]
pub struct MexcPremiumIndex {
    pub symbol: String,
    pub index_price: String,
    pub mark_price: String,
    pub last_funding_rate: String,
}

/// The entry of a transfer record: its id, currency, amount (zero when the
/// text is no number), time (0 when absent) and status.
pub open spec fn spec_mexc_transfer_ok(t: MexcTransferRecord, r: TransferEntry) -> bool {
    &&& opt_view(r.id) == Some(spec_int_to_string(t.tran_id as int))
    &&& opt_view(r.currency) == Some(t.asset@)
    &&& (r.amount matches Some(a) && a.parts() == text_dec_or_zero(t.amount@))
    &&& r.timestamp == Some(match t.timestamp { Some(x) => x, None => 0 })
    &&& opt_view(r.status) == Some(t.status@)
    &&& r.from_account is None
    &&& r.to_account is None
}

/// A ticker of the premium index at time `now` (written `now_text`): the
/// index price as last and index price, the mark price, each zero when its
/// text is no number; nothing else is known.
pub open spec fn spec_mexc_index_ticker_ok(d: MexcPremiumIndex, symbol: Seq<char>, now: i64, now_text: Seq<char>, r: Ticker) -> bool {
    &&& r.symbol@ == symbol
    &&& r.timestamp == Some(now)
    &&& opt_view(r.datetime) == Some(now_text)
    &&& (r.last matches Some(l) && l.parts() == text_dec_or_zero(d.index_price@))
    &&& (r.index_price matches Some(i) && i.parts() == text_dec_or_zero(d.index_price@))
    &&& (r.mark_price matches Some(m) && m.parts() == text_dec_or_zero(d.mark_price@))
    &&& r.high is None && r.low is None && r.bid is None && r.bid_volume is None
    &&& r.ask is None && r.ask_volume is None && r.vwap is None && r.open is None
    &&& r.close is None && r.previous_close is None && r.change is None
    &&& r.percentage is None && r.average is None && r.base_volume is None
    &&& r.quote_volume is None
}

/// A ticker of the mark price at time `now` (written `now_text`): only the
/// mark price is known, zero when its text is no number.
pub open spec fn spec_mexc_mark_ticker_ok(d: MexcPremiumIndex, symbol: Seq<char>, now: i64, now_text: Seq<char>, r: Ticker) -> bool {
    &&& r.symbol@ == symbol
    &&& r.timestamp == Some(now)
    &&& opt_view(r.datetime) == Some(now_text)
    &&& (r.mark_price matches Some(m) && m.parts() == text_dec_or_zero(d.mark_price@))
    &&& r.last is None && r.index_price is None
    &&& r.high is None && r.low is None && r.bid is None && r.bid_volume is None
    &&& r.ask is None && r.ask_volume is None && r.vwap is None && r.open is None
    &&& r.close is None && r.previous_close is None && r.change is None
    &&& r.percentage is None && r.average is None && r.base_volume is None
    &&& r.quote_volume is None
}

/// The leverage MEXC reports for a market it was not told of: 20 both ways,
/// in cross margin.
pub open spec fn spec_mexc_default_leverage() -> Dec {
    Dec { mantissa: 20, scale: 0 }
}

/// The MEXC adapter.
pub struct Mexc {
    pub config: ExchangeConfig,
    pub features: ExchangeFeatures,
    pub markets_by_symbol: MarketIndex,
    pub markets_by_id: MarketIndex,
}

/// What MEXC offers.
pub open spec fn spec_mexc_features() -> ExchangeFeatures {
    ExchangeFeatures {
        spot: true,
        margin: true,
        swap: true,
        future: true,
        fetch_markets: true,
        fetch_ticker: true,
        fetch_tickers: true,
        fetch_order_book: true,
        fetch_trades: true,
        fetch_ohlcv: true,
        fetch_balance: true,
        create_order: true,
        cancel_order: true,
        fetch_order: true,
        fetch_open_orders: true,
        fetch_closed_orders: true,
        fetch_my_trades: true,
        fetch_deposits: true,
        fetch_withdrawals: true,
        withdraw: true,
        ..ExchangeFeatures::spec_none()
    }
}

/// Interval text of each supported timeframe.
pub open spec fn spec_mexc_timeframe(tf: Timeframe) -> Option<Seq<char>> {
    match tf {
        Timeframe::Minute1 => Some("1m"@),
        Timeframe::Minute5 => Some("5m"@),
        Timeframe::Minute15 => Some("15m"@),
        Timeframe::Minute30 => Some("30m"@),
        Timeframe::Hour1 => Some("1h"@),
        Timeframe::Hour4 => Some("4h"@),
        Timeframe::Day1 => Some("1d"@),
        Timeframe::Week1 => Some("1W"@),
        Timeframe::Month1 => Some("1M"@),
        _ => None,
    }
}

/// Order status of a MEXC status word; unknown words are open.
pub open spec fn spec_mexc_status(s: Seq<char>) -> OrderStatus {
    if s == "FILLED"@ {
        OrderStatus::Closed
    } else if s == "CANCELED"@ || s == "PENDING_CANCEL"@ || s == "REJECTED"@ || s == "EXPIRED"@ {
        OrderStatus::Canceled
    } else {
        OrderStatus::Open
    }
}

/// An order is closed exactly when its status is `FILLED`, and canceled
/// exactly when it is `CANCELED`, `PENDING_CANCEL`, `REJECTED` or `EXPIRED`.
pub proof fn law_status_words(s: Seq<char>)
    ensures
        spec_mexc_status(s) == OrderStatus::Closed <==> (s == "FILLED"@),
        spec_mexc_status(s) == OrderStatus::Canceled <==> (s == "CANCELED"@ || s == "PENDING_CANCEL"@ || s == "REJECTED"@ || s == "EXPIRED"@),
{
    reveal_strlit("FILLED");
    reveal_strlit("CANCELED");
    reveal_strlit("PENDING_CANCEL");
    reveal_strlit("REJECTED");
    reveal_strlit("EXPIRED");
    assert("FILLED"@.len() != "CANCELED"@.len());
    assert("FILLED"@.len() != "PENDING_CANCEL"@.len());
    assert("FILLED"@.len() != "REJECTED"@.len());
    assert("FILLED"@.len() != "EXPIRED"@.len());
    assert("CANCELED"@.len() != "PENDING_CANCEL"@.len());
    assert("CANCELED"@[0] != "REJECTED"@[0]);
    assert("CANCELED"@.len() != "EXPIRED"@.len());
    assert("PENDING_CANCEL"@.len() != "REJECTED"@.len());
    assert("PENDING_CANCEL"@.len() != "EXPIRED"@.len());
    assert("REJECTED"@.len() != "EXPIRED"@.len());
}

/// A MEXC order read into a unified order under `symbol`.
pub open spec fn spec_mexc_order_ok(o: MexcOrder, symbol: Seq<char>, r: Order) -> bool {
    let cost = text_dec_or_zero(o.cummulative_quote_qty@);
    &&& r.id@ == spec_int_to_string(o.order_id as int)
    &&& opt_view(r.client_order_id) == opt_view(o.client_order_id)
    &&& r.timestamp == Some(o.time)
    &&& opt_view(r.datetime) == Some(iso8601_or_empty_spec(o.time as int))
    &&& r.last_update_timestamp == o.update_time
    &&& r.status == spec_mexc_status(o.status@)
    &&& r.symbol@ == symbol
    &&& r.order_type == (if o.order_type@ == "MARKET"@ { OrderType::Market } else { OrderType::Limit })
    &&& r.side == (if o.side@ == "BUY"@ { OrderSide::Buy } else { OrderSide::Sell })
    &&& r.price matches Some(p) && p.parts() == text_dec_or_zero(o.price@)
    &&& r.amount.parts() == text_dec_or_zero(o.orig_qty@)
    &&& r.filled.parts() == text_dec_or_zero(o.executed_qty@)
    &&& r.cost matches Some(c) && c.parts() == cost
    &&& opt_parts(r.remaining) == checked_op(r.amount, r.filled, |x: (int, int), y: (int, int)| spec_dec_sub(x, y))
    &&& (if r.filled.mantissa > 0 {
        opt_parts(r.average) == checked_op(r.cost->0, r.filled, |x: (int, int), y: (int, int)| spec_dec_div(x, y))
    } else {
        r.average is None
    })
    &&& r.fee is None && r.time_in_force is None && r.last_trade_timestamp is None
    &&& r.no_extras()
}

/// An order buys exactly when its side is `BUY`.
pub proof fn law_order_side(o: MexcOrder, symbol: Seq<char>, r: Order)
    requires
        spec_mexc_order_ok(o, symbol, r),
    ensures
        r.side == OrderSide::Buy <==> o.side@ == "BUY"@,
{
}

/// A MEXC ticker read into a unified ticker; the time falls back to `now`.
pub open spec fn spec_mexc_ticker_ok(t: MexcTicker, symbol: Seq<char>, now: i64, r: Ticker) -> bool {
    let ts = match t.close_time {
        Some(c) => c,
        None => now,
    };
    &&& r.symbol@ == symbol
    &&& r.timestamp == Some(ts)
    &&& opt_view(r.datetime) == Some(iso8601_or_empty_spec(ts as int))
    &&& opt_parts(r.high) == opt_text_dec(t.high_price)
    &&& opt_parts(r.low) == opt_text_dec(t.low_price)
    &&& opt_parts(r.bid) == opt_text_dec(t.bid_price)
    &&& opt_parts(r.bid_volume) == opt_text_dec(t.bid_qty)
    &&& opt_parts(r.ask) == opt_text_dec(t.ask_price)
    &&& opt_parts(r.ask_volume) == opt_text_dec(t.ask_qty)
    &&& opt_parts(r.vwap) == opt_text_dec(t.weighted_avg_price)
    &&& opt_parts(r.open) == opt_text_dec(t.open_price)
    &&& opt_parts(r.close) == opt_text_dec(t.last_price)
    &&& opt_parts(r.last) == opt_text_dec(t.last_price)
    &&& opt_parts(r.previous_close) == opt_text_dec(t.prev_close_price)
    &&& opt_parts(r.change) == opt_text_dec(t.price_change)
    &&& opt_parts(r.percentage) == opt_text_dec(t.price_change_percent)
    &&& opt_parts(r.base_volume) == opt_text_dec(t.volume)
    &&& opt_parts(r.quote_volume) == opt_text_dec(t.quote_volume)
    &&& r.average is None && r.index_price is None && r.mark_price is None
}

/// A ticker's bid and ask are the exchange's bid and ask prices, with the
/// bid and ask quantities as their volumes, each read as a decimal.
pub proof fn law_ticker_bid_ask(t: MexcTicker, symbol: Seq<char>, now: i64, r: Ticker)
    requires
        spec_mexc_ticker_ok(t, symbol, now, r),
    ensures
        opt_parts(r.bid) == opt_text_dec(t.bid_price),
        opt_parts(r.ask) == opt_text_dec(t.ask_price),
        opt_parts(r.bid_volume) == opt_text_dec(t.bid_qty),
        opt_parts(r.ask_volume) == opt_text_dec(t.ask_qty),
{
}

/// A public MEXC trade read into a unified trade.
pub open spec fn spec_mexc_trade_ok(t: MexcTrade, symbol: Seq<char>, r: Trade) -> bool {
    &&& r.id@ == spec_int_to_string(t.id as int)
    &&& r.timestamp == Some(t.time)
    &&& opt_view(r.datetime) == Some(iso8601_or_empty_spec(t.time as int))
    &&& r.symbol@ == symbol
    &&& opt_view(r.side) == Some(if t.is_buyer_maker { "sell"@ } else { "buy"@ })
    &&& r.price.parts() == text_dec_or_zero(t.price@)
    &&& r.amount.parts() == text_dec_or_zero(t.qty@)
    &&& opt_parts(r.cost) == checked_op(r.price, r.amount, |x: (int, int), y: (int, int)| spec_dec_mul(x, y))
    &&& r.order is None && r.fee is None && r.taker_or_maker is None
}

/// A public trade whose buyer made the market was a sell; otherwise a buy.
pub proof fn law_public_trade_side(t: MexcTrade, symbol: Seq<char>, r: Trade)
    requires
        spec_mexc_trade_ok(t, symbol, r),
    ensures
        t.is_buyer_maker ==> opt_view(r.side) == Some("sell"@),
        !t.is_buyer_maker ==> opt_view(r.side) == Some("buy"@),
{
}

/// A fill of the account read into a unified trade.
pub open spec fn spec_mexc_my_trade_ok(t: MexcMyTrade, symbol: Seq<char>, r: Trade) -> bool {
    &&& r.id@ == spec_int_to_string(t.id as int)
    &&& opt_view(r.order) == Some(spec_int_to_string(t.order_id as int))
    &&& r.timestamp == Some(t.time)
    &&& opt_view(r.datetime) == Some(iso8601_or_empty_spec(t.time as int))
    &&& r.symbol@ == symbol
    &&& opt_view(r.side) == Some(if t.is_buyer { "buy"@ } else { "sell"@ })
    &&& r.taker_or_maker == Some(if t.is_maker { TakerOrMaker::Maker } else { TakerOrMaker::Taker })
    &&& r.price.parts() == text_dec_or_zero(t.price@)
    &&& r.amount.parts() == text_dec_or_zero(t.qty@)
    &&& opt_parts(r.cost) == checked_op(r.price, r.amount, |x: (int, int), y: (int, int)| spec_dec_mul(x, y))
    &&& r.fee matches Some(f) && f.cost matches Some(c) && c.parts() == text_dec_or_zero(t.commission@)
        && opt_view(f.currency) == Some(t.commission_asset@) && f.rate is None
}

/// An own fill was a buy exactly when the account was the buyer, and made
/// the market exactly when the exchange says so.
pub proof fn law_own_trade_side(t: MexcMyTrade, symbol: Seq<char>, r: Trade)
    requires
        spec_mexc_my_trade_ok(t, symbol, r),
    ensures
        t.is_buyer ==> opt_view(r.side) == Some("buy"@),
        !t.is_buyer ==> opt_view(r.side) == Some("sell"@),
        t.is_maker <==> r.taker_or_maker == Some(TakerOrMaker::Maker),
{
}

/// A MEXC balance entry worth keeping: some of it free or locked.
pub open spec fn mexc_held(b: MexcBalance) -> bool {
    text_dec_or_zero(b.free@).0 > 0 || text_dec_or_zero(b.locked@).0 > 0
}

/// A held MEXC balance read into a unified balance.
pub open spec fn spec_mexc_balance_ok(b: MexcBalance, r: Balance) -> bool {
    &&& r.free matches Some(f) && f.parts() == text_dec_or_zero(b.free@)
    &&& r.used matches Some(u) && u.parts() == text_dec_or_zero(b.locked@)
    &&& opt_parts(r.total) == checked_op(r.free->0, r.used->0, |x: (int, int), y: (int, int)| spec_dec_add(x, y))
}

/// Held balance entries.
pub open spec fn mexc_held_rows(rows: Seq<MexcBalance>) -> Seq<MexcBalance> {
    rows.filter(|b: MexcBalance| mexc_held(b))
}

/// A candle row of at least six fields read into a candle: an integer time
/// (zero when it is none) and texts of numbers (zero when unreadable).
pub open spec fn spec_mexc_kline_ok(k: Vec<Json>, r: OHLCV) -> bool {
    let num = |j: Json| match spec_as_str(j) {
        Some(s) => text_dec_or_zero(s),
        None => (0int, 0int),
    };
    &&& r.timestamp as int == (match spec_as_i64(k@[0]) { Some(t) => t, None => 0 })
    &&& r.open.parts() == num(k@[1])
    &&& r.high.parts() == num(k@[2])
    &&& r.low.parts() == num(k@[3])
    &&& r.close.parts() == num(k@[4])
    &&& r.volume.parts() == num(k@[5])
}

/// Deposit status of a MEXC status code: 6 completes, all else is pending.
pub open spec fn spec_mexc_deposit_status(s: i32) -> TransactionStatus {
    if s == 6 {
        TransactionStatus::Complete
    } else {
        TransactionStatus::Pending
    }
}

/// Withdrawal status of a MEXC status word.
pub open spec fn spec_mexc_withdrawal_status(s: Seq<char>) -> TransactionStatus {
    if s == "completed"@ {
        TransactionStatus::Complete
    } else if s == "cancel"@ || s == "rejected"@ {
        TransactionStatus::Canceled
    } else {
        TransactionStatus::Pending
    }
}

impl Mexc {
    /// Creates the adapter; it holds the configuration and knows no market yet.
    pub fn new(config: ExchangeConfig) -> (r: Result<Mexc, CcxtError>)
        ensures
            r matches Ok(x) && x.config == config && x.features == spec_mexc_features()
                && x.markets_by_symbol.entries@.len() == 0 && x.markets_by_id.entries@.len() == 0,
    {
        let features = ExchangeFeatures {
            spot: true,
            margin: true,
            swap: true,
            future: true,
            fetch_markets: true,
            fetch_ticker: true,
            fetch_tickers: true,
            fetch_order_book: true,
            fetch_trades: true,
            fetch_ohlcv: true,
            fetch_balance: true,
            create_order: true,
            cancel_order: true,
            fetch_order: true,
            fetch_open_orders: true,
            fetch_closed_orders: true,
            fetch_my_trades: true,
            fetch_deposits: true,
            fetch_withdrawals: true,
            withdraw: true,
            ..ExchangeFeatures::none()
        };
        Ok(
            Mexc {
                config,
                features,
                markets_by_symbol: MarketIndex::new(),
                markets_by_id: MarketIndex::new(),
            },
        )
    }

    /// The exchange's identity.
    pub fn id(&self) -> (r: ExchangeId)
        ensures
            r == ExchangeId::Mexc,
    {
        ExchangeId::Mexc
    }

    /// The exchange's display name.
    pub fn name(&self) -> (r: &'static str)
        ensures
            r@ == "MEXC"@,
    {
        "MEXC"
    }

    /// Addresses of the exchange: logo, API bases, site, documentation and
    /// fee schedule.
    pub fn urls(&self) -> (r: ExchangeUrls)
        ensures
            opt_view(r.logo) == Some("https://user-images.githubusercontent.com/1294454/137283979-8b2a818d-8633-461b-bfca-de89e8c446b2.jpg"@),
            r.api@.len() == 2,
            r.api@[0].0@ == "public"@ && r.api@[0].1@ == MEXC_BASE_URL@,
            r.api@[1].0@ == "private"@ && r.api@[1].1@ == MEXC_BASE_URL@,
            opt_view(r.www) == Some("https://www.mexc.com"@),
            r.doc@.len() == 1,
            r.doc@[0]@ == "https://mexcdevelop.github.io/apidocs/"@,
            opt_view(r.fees) == Some("https://www.mexc.com/fee"@),
    {
        let mut api: Vec<(String, String)> = Vec::new();
        api.push((copy_str("public"), copy_str(MEXC_BASE_URL)));
        api.push((copy_str("private"), copy_str(MEXC_BASE_URL)));
        let mut doc: Vec<String> = Vec::new();
        doc.push(copy_str("https://mexcdevelop.github.io/apidocs/"));
        ExchangeUrls {
            logo: Some(copy_str("https://user-images.githubusercontent.com/1294454/137283979-8b2a818d-8633-461b-bfca-de89e8c446b2.jpg")),
            api,
            www: Some(copy_str("https://www.mexc.com")),
            doc,
            fees: Some(copy_str("https://www.mexc.com/fee")),
        }
    }

    /// What the exchange offers.
    pub fn has(&self) -> (r: &ExchangeFeatures)
        ensures
            *r == self.features,
    {
        &self.features
    }

    /// Interval text of a timeframe, when offered.
    pub fn get_timeframe_string(&self, timeframe: Timeframe) -> (r: Option<&'static str>)
        ensures
            match r {
                Some(s) => spec_mexc_timeframe(timeframe) == Some(s@),
                None => spec_mexc_timeframe(timeframe) is None,
            },
    {
        match timeframe {
            Timeframe::Minute1 => Some("1m"),
            Timeframe::Minute5 => Some("5m"),
            Timeframe::Minute15 => Some("15m"),
            Timeframe::Minute30 => Some("30m"),
            Timeframe::Hour1 => Some("1h"),
            Timeframe::Hour4 => Some("4h"),
            Timeframe::Day1 => Some("1d"),
            Timeframe::Week1 => Some("1W"),
            Timeframe::Month1 => Some("1M"),
            _ => None,
        }
    }

    /// The market id of a symbol: the symbol without `/` (`BTC/USDT` becomes
    /// `BTCUSDT`).
    pub fn to_market_id(&self, symbol: &str) -> (r: String)
        ensures
            r@ == remove_all(symbol@, '/'),
    {
        remove_char(symbol, '/')
    }

    /// The unified symbol of a market id: the one recorded for it, else the id.
    pub fn to_symbol(&self, market_id: &str) -> (r: String)
        ensures
            r@ == (match self.markets_by_id.spec_get(market_id@) {
                Some(s) => s,
                None => market_id@,
            }),
    {
        match self.markets_by_id.get(market_id) {
            Some(s) => s,
            None => copy_str(market_id),
        }
    }

    /// The market id of a symbol (always the symbol without `/`).
    pub fn market_id(&self, symbol: &str) -> (r: Option<String>)
        ensures
            r matches Some(s) && s@ == remove_all(symbol@, '/'),
    {
        Some(self.to_market_id(symbol))
    }

    /// The unified symbol of a market id, when the market is loaded.
    pub fn symbol(&self, market_id: &str) -> (r: Option<String>)
        ensures
            opt_view(r) == self.markets_by_id.spec_get(market_id@),
    {
        self.markets_by_id.get(market_id)
    }
}

/// Markets enabled for trading.
pub open spec fn mexc_enabled(rows: Seq<MexcSymbol>) -> Seq<MexcSymbol> {
    rows.filter(|m: MexcSymbol| m.status@ == "ENABLED"@)
}

/// Tickers that name their market and, when a list is given, whose symbol
/// is requested; `syms` maps a market id to its symbol.
pub open spec fn mexc_ticker_kept(
    rows: Seq<MexcTicker>,
    index: MarketIndex,
    symbols: Option<Seq<Seq<char>>>,
) -> Seq<MexcTicker> {
    rows.filter(|t: MexcTicker| t.symbol is Some && match symbols {
        Some(s) => s.contains(mexc_symbol_of(index, t.symbol->0@)),
        None => true,
    })
}

/// The symbol of a market id under a market index: the recorded one, else
/// the id.
pub open spec fn mexc_symbol_of(index: MarketIndex, id: Seq<char>) -> Seq<char> {
    match index.spec_get(id) {
        Some(s) => s,
        None => id,
    }
}

/// Public trades at or after `since`.
pub open spec fn mexc_trades_since(rows: Seq<MexcTrade>, since: Option<i64>) -> Seq<MexcTrade> {
    match since {
        Some(s) => rows.filter(|t: MexcTrade| t.time >= s),
        None => rows,
    }
}

/// Orders that ended: filled or cancelled.
pub open spec fn mexc_ended(rows: Seq<MexcOrder>) -> Seq<MexcOrder> {
    rows.filter(|o: MexcOrder| o.status@ == "FILLED"@ || o.status@ == "CANCELED"@)
}

/// A MEXC market read into a unified spot market: active, fees 0.002,
/// precisions from the asset precisions, the least cost from the quote
/// amount precision.
pub open spec fn spec_mexc_market_ok(m: MexcSymbol, r: Market) -> bool {
    &&& r.id@ == m.symbol@
    &&& opt_view(r.lowercase_id) == Some(spec_to_lowercase(m.symbol@))
    &&& r.symbol@ == m.base_asset@ + "/"@ + m.quote_asset@
    &&& r.base@ == m.base_asset@ && r.quote@ == m.quote_asset@
    &&& r.base_id@ == m.base_asset@ && r.quote_id@ == m.quote_asset@
    &&& r.active && r.market_type == MarketType::Spot && r.spot && !r.margin && !r.swap
        && !r.future && !r.contract && r.settle is None
    &&& r.taker == Some(Dec { mantissa: 2, scale: 3 }) && r.maker == Some(Dec { mantissa: 2, scale: 3 })
    &&& r.precision == (MarketPrecision {
        amount: Some(m.base_asset_precision),
        price: Some(m.quote_precision),
        cost: None,
        base: Some(m.base_asset_precision),
        quote: Some(m.quote_precision),
    })
    &&& opt_parts(r.limits.cost.min) == opt_text_dec(m.quote_amount_precision)
    &&& r.limits.cost.max is None
    &&& r.limits.amount == (MinMax { min: None, max: None })
    &&& r.limits.price == (MinMax { min: None, max: None })
    &&& r.limits.leverage == (MinMax { min: None, max: None })
}

impl Mexc {
    /// Unified market of an enabled MEXC market: taker and maker fee 0.002.
    pub fn parse_market(m: &MexcSymbol) -> (r: Market)
        ensures
            spec_mexc_market_ok(*m, r),
    {
        Market {
            id: copy_str(m.symbol.as_str()),
            lowercase_id: Some(to_lowercase(m.symbol.as_str())),
            symbol: concat3(m.base_asset.as_str(), "/", m.quote_asset.as_str()),
            base: copy_str(m.base_asset.as_str()),
            quote: copy_str(m.quote_asset.as_str()),
            base_id: copy_str(m.base_asset.as_str()),
            quote_id: copy_str(m.quote_asset.as_str()),
            settle: None,
            active: true,
            market_type: MarketType::Spot,
            spot: true,
            margin: false,
            swap: false,
            future: false,
            contract: false,
            linear: None,
            inverse: None,
            contract_size: None,
            created: None,
            taker: Some(Dec::new(2, 3)),
            maker: Some(Dec::new(2, 3)),
            precision: MarketPrecision {
                amount: Some(m.base_asset_precision),
                price: Some(m.quote_precision),
                cost: None,
                base: Some(m.base_asset_precision),
                quote: Some(m.quote_precision),
            },
            limits: MarketLimits {
                amount: MinMax { min: None, max: None },
                price: MinMax { min: None, max: None },
                cost: MinMax { min: parse_opt(&m.quote_amount_precision), max: None },
                leverage: MinMax { min: None, max: None },
            },
        }
    }

    /// Unified markets of the enabled MEXC markets, in order.
    pub fn parse_markets(rows: &Vec<MexcSymbol>) -> (r: Vec<Market>)
        ensures
            r@.len() == mexc_enabled(rows@).len(),
            forall|k: int| 0 <= k < r@.len() ==> spec_mexc_market_ok(mexc_enabled(rows@)[k], #[trigger] r@[k]),
    {
        let mut out: Vec<Market> = Vec::new();
        let n = rows.len();
        let mut i: usize = 0;
        while i < n
            invariant
                n == rows@.len(),
                i <= n,
                out@.len() == mexc_enabled(rows@.take(i as int)).len(),
                forall|k: int|
                    0 <= k < out@.len() ==> spec_mexc_market_ok(mexc_enabled(rows@.take(i as int))[k], #[trigger] out@[k]),
            decreases n - i,
        {
            let ghost pre = rows@.take(i as int);
            proof {
                assert(rows@.take(i + 1).drop_last() =~= pre);
                assert(rows@.take(i + 1).last() == rows@[i as int]);
                reveal_with_fuel(Seq::<_>::filter, 1);
            }
            if str_eq(rows[i].status.as_str(), "ENABLED") {
                out.push(Self::parse_market(&rows[i]));
                proof {
                    assert(mexc_enabled(rows@.take(i + 1)) == mexc_enabled(pre).push(rows@[i as int]));
                }
            } else {
                proof {
                    assert(mexc_enabled(rows@.take(i + 1)) == mexc_enabled(pre));
                }
            }
            i = i + 1;
        }
        proof {
            assert(rows@.take(n as int) =~= rows@);
        }
        out
    }

    /// Records markets by symbol and by id, replacing what was known.
    pub fn store_markets(&mut self, markets: &Vec<Market>)
        ensures
            final(self).markets_by_symbol.entries@.len() == markets@.len(),
            final(self).markets_by_id.entries@.len() == markets@.len(),
            forall|k: int|
                0 <= k < markets@.len() ==> (#[trigger] final(self).markets_by_id.entries@[k]).0@
                    == markets@[k].id@ && final(self).markets_by_id.entries@[k].1@
                    == markets@[k].symbol@ && final(self).markets_by_symbol.entries@[k].0@
                    == markets@[k].symbol@ && final(self).markets_by_symbol.entries@[k].1@
                    == markets@[k].id@,
            final(self).config == old(self).config,
            final(self).features == old(self).features,
    {
        self.markets_by_symbol = crate::common::index_markets(markets, false);
        self.markets_by_id = crate::common::index_markets(markets, true);
    }

    /// Unified ticker of MEXC statistics under `symbol`.
    pub fn parse_ticker(t: &MexcTicker, symbol: &str, now: i64) -> (r: Ticker)
        ensures
            spec_mexc_ticker_ok(*t, symbol@, now, r),
    {
        let ts = match t.close_time {
            Some(c) => c,
            None => now,
        };
        Ticker {
            symbol: copy_str(symbol),
            timestamp: Some(ts),
            datetime: Some(iso8601_or_empty(ts)),
            high: parse_opt(&t.high_price),
            low: parse_opt(&t.low_price),
            bid: parse_opt(&t.bid_price),
            bid_volume: parse_opt(&t.bid_qty),
            ask: parse_opt(&t.ask_price),
            ask_volume: parse_opt(&t.ask_qty),
            vwap: parse_opt(&t.weighted_avg_price),
            open: parse_opt(&t.open_price),
            close: parse_opt(&t.last_price),
            last: parse_opt(&t.last_price),
            previous_close: parse_opt(&t.prev_close_price),
            change: parse_opt(&t.price_change),
            percentage: parse_opt(&t.price_change_percent),
            average: None,
            base_volume: parse_opt(&t.volume),
            quote_volume: parse_opt(&t.quote_volume),
            index_price: None,
            mark_price: None,
        }
    }

    /// Whether a symbol is among the requested ones.
    fn wanted(symbols: &Vec<String>, symbol: &str) -> (r: bool)
        ensures
            r == texts_of(symbols@).contains(symbol@),
    {
        let n = symbols.len();
        let mut i: usize = 0;
        while i < n
            invariant
                n == symbols@.len(),
                i <= n,
                forall|j: int| 0 <= j < i ==> symbols@[j]@ != symbol@,
            decreases n - i,
        {
            if str_eq(symbols[i].as_str(), symbol) {
                assert(texts_of(symbols@)[i as int] == symbol@);
                return true;
            }
            i = i + 1;
        }
        proof {
            if texts_of(symbols@).contains(symbol@) {
                let j = choose|j: int| 0 <= j < n && #[trigger] texts_of(symbols@)[j] == symbol@;
                assert(symbols@[j]@ == symbol@);
            }
        }
        false
    }

    /// Unified tickers keyed by symbol: tickers without a market are
    /// skipped, each market id becomes its symbol, only requested symbols are
    /// kept when a list is given, and a later ticker of a symbol replaces an
    /// earlier one.
    pub fn parse_tickers(&self, tickers: &Vec<MexcTicker>, symbols: Option<&Vec<String>>, now: i64) -> (r: Vec<(String, Ticker)>)
        ensures
            ({
                let req = match symbols {
                    Some(v) => Some(texts_of(v@)),
                    None => None,
                };
                let kept = mexc_ticker_kept(tickers@, self.markets_by_id, req);
                pair_keyed_by_last(
                    kept.map_values(|t: MexcTicker| mexc_symbol_of(self.markets_by_id, t.symbol->0@)),
                    r@,
                    |i: int, x: Ticker| spec_mexc_ticker_ok(kept[i], mexc_symbol_of(self.markets_by_id, kept[i].symbol->0@), now, x),
                )
            }),
    {
        let ghost req = match symbols {
            Some(v) => Some(texts_of(v@)),
            None => None,
        };
        let ghost idx = self.markets_by_id;
        let ghost kept = mexc_ticker_kept(tickers@, idx, req);
        let ghost ok = |i: int, x: Ticker| spec_mexc_ticker_ok(kept[i], mexc_symbol_of(idx, kept[i].symbol->0@), now, x);
        let mut result: Vec<(String, Ticker)> = Vec::new();
        let n = tickers.len();
        let mut k: usize = 0;
        proof {
            lemma_pair_keyed_empty(ok);
            assert(mexc_ticker_kept(tickers@.take(0), idx, req) =~= Seq::<MexcTicker>::empty());
            assert(mexc_ticker_kept(tickers@.take(0), idx, req).map_values(|t: MexcTicker| mexc_symbol_of(idx, t.symbol->0@)) =~= Seq::<Seq<char>>::empty());
            assert(result@ =~= Seq::<(String, Ticker)>::empty());
        }
        while k < n
            invariant
                n == tickers@.len(),
                k <= n,
                idx == self.markets_by_id,
                req == (match symbols {
                    Some(v) => Some(texts_of(v@)),
                    None => None,
                }),
                kept == mexc_ticker_kept(tickers@, idx, req),
                ok == (|i: int, x: Ticker| spec_mexc_ticker_ok(kept[i], mexc_symbol_of(idx, kept[i].symbol->0@), now, x)),
                mexc_ticker_kept(tickers@.take(k as int), idx, req).len() <= kept.len(),
                forall|j: int|
                    0 <= j < mexc_ticker_kept(tickers@.take(k as int), idx, req).len() ==> #[trigger] mexc_ticker_kept(
                        tickers@.take(k as int),
                        idx,
                        req,
                    )[j] == kept[j],
                pair_keyed_by_last(
                    mexc_ticker_kept(tickers@.take(k as int), idx, req).map_values(
                        |t: MexcTicker| mexc_symbol_of(idx, t.symbol->0@),
                    ),
                    result@,
                    ok,
                ),
            decreases n - k,
        {
            let ghost pre = mexc_ticker_kept(tickers@.take(k as int), idx, req);
            proof {
                assert(tickers@.take(k + 1).drop_last() =~= tickers@.take(k as int));
                assert(tickers@.take(k + 1).last() == tickers@[k as int]);
                reveal_with_fuel(Seq::<_>::filter, 1);
                lemma_ticker_kept_prefix(tickers@, idx, req, k + 1);
            }
            match &tickers[k].symbol {
                Some(id) => {
                    let sym = self.to_symbol(id.as_str());
                    let keep = match symbols {
                        Some(v) => Self::wanted(v, sym.as_str()),
                        None => true,
                    };
                    if keep {
                        let t = Self::parse_ticker(&tickers[k], sym.as_str(), now);
                        let ghost before = result@;
                        let ghost key = sym@;
                        keyed_insert(&mut result, sym, t);
                        proof {
                            let codes = pre.map_values(|x: MexcTicker| mexc_symbol_of(idx, x.symbol->0@));
                            assert(mexc_ticker_kept(tickers@.take(k + 1), idx, req) =~= pre.push(tickers@[k as int]));
                            assert(mexc_ticker_kept(tickers@.take(k + 1), idx, req)[pre.len() as int] == tickers@[k as int]);
                            assert(kept[pre.len() as int] == tickers@[k as int]);
                            assert(ok(codes.len() as int, t));
                            lemma_pair_keyed_step(codes, before, result@, key, t, ok);
                            assert(codes.push(key) =~= mexc_ticker_kept(tickers@.take(k + 1), idx, req).map_values(
                                |x: MexcTicker| mexc_symbol_of(idx, x.symbol->0@),
                            ));
                        }
                    } else {
                        proof {
                            assert(mexc_ticker_kept(tickers@.take(k + 1), idx, req) =~= pre);
                        }
                    }
                },
                None => {
                    proof {
                        assert(mexc_ticker_kept(tickers@.take(k + 1), idx, req) =~= pre);
                    }
                },
            }
            k = k + 1;
        }
        proof {
            assert(tickers@.take(n as int) =~= tickers@);
        }
        result
    }

    /// Order book of a depth answer; the update id serves as sequence number
    /// and as time (`now` when absent).
    pub fn parse_order_book(
        last_update_id: Option<i64>,
        bids: &Vec<Vec<String>>,
        asks: &Vec<Vec<String>>,
        symbol: &str,
        now: i64,
    ) -> (r: OrderBook)
        ensures
            r.symbol@ == symbol@,
            r.timestamp == Some(match last_update_id {
                Some(t) => t,
                None => now,
            }),
            opt_view(r.datetime) == Some(iso8601_or_empty_spec(match last_update_id {
                Some(t) => t,
                None => now,
            } as int)),
            r.nonce == last_update_id,
            r.bids@.len() == text_levels(bids@).len(),
            r.asks@.len() == text_levels(asks@).len(),
            forall|k: int|
                0 <= k < r.bids@.len() ==> Some((#[trigger] r.bids@[k]).price.parts()) == spec_dec_parse(
                    text_levels(bids@)[k]@[0]@,
                ) && Some(r.bids@[k].amount.parts()) == spec_dec_parse(text_levels(bids@)[k]@[1]@),
            forall|k: int|
                0 <= k < r.asks@.len() ==> Some((#[trigger] r.asks@[k]).price.parts()) == spec_dec_parse(
                    text_levels(asks@)[k]@[0]@,
                ) && Some(r.asks@[k].amount.parts()) == spec_dec_parse(text_levels(asks@)[k]@[1]@),
    {
        let ts = match last_update_id {
            Some(t) => t,
            None => now,
        };
        OrderBook {
            symbol: copy_str(symbol),
            timestamp: Some(ts),
            datetime: Some(iso8601_or_empty(ts)),
            nonce: last_update_id,
            bids: crate::book::parse_text_levels(bids),
            asks: crate::book::parse_text_levels(asks),
        }
    }

    /// Unified trade of a public MEXC trade.
    pub fn parse_trade(t: &MexcTrade, symbol: &str) -> (r: Trade)
        ensures
            spec_mexc_trade_ok(*t, symbol@, r),
    {
        let price = parse_or_zero(t.price.as_str());
        let amount = parse_or_zero(t.qty.as_str());
        let side = if t.is_buyer_maker {
            copy_str("sell")
        } else {
            copy_str("buy")
        };
        Trade {
            id: int_to_string(t.id as i128),
            order: None,
            timestamp: Some(t.time),
            datetime: Some(iso8601_or_empty(t.time)),
            symbol: copy_str(symbol),
            trade_type: None,
            side: Some(side),
            taker_or_maker: None,
            price,
            amount,
            cost: dec_mul(price, amount),
            fee: None,
        }
    }

    /// Unified trades of public MEXC trades at or after `since`, in order.
    pub fn parse_trades(rows: &Vec<MexcTrade>, symbol: &str, since: Option<i64>) -> (r: Vec<Trade>)
        ensures
            r@.len() == mexc_trades_since(rows@, since).len(),
            forall|k: int|
                0 <= k < r@.len() ==> spec_mexc_trade_ok(mexc_trades_since(rows@, since)[k], symbol@, #[trigger] r@[k]),
    {
        let mut out: Vec<Trade> = Vec::new();
        let n = rows.len();
        let mut i: usize = 0;
        while i < n
            invariant
                n == rows@.len(),
                i <= n,
                out@.len() == mexc_trades_since(rows@.take(i as int), since).len(),
                forall|k: int|
                    0 <= k < out@.len() ==> spec_mexc_trade_ok(
                        mexc_trades_since(rows@.take(i as int), since)[k],
                        symbol@,
                        #[trigger] out@[k],
                    ),
            decreases n - i,
        {
            let ghost pre = rows@.take(i as int);
            proof {
                assert(rows@.take(i + 1).drop_last() =~= pre);
                assert(rows@.take(i + 1).last() == rows@[i as int]);
                reveal_with_fuel(Seq::<_>::filter, 1);
            }
            let keep = match since {
                Some(s) => rows[i].time >= s,
                None => true,
            };
            if keep {
                out.push(Self::parse_trade(&rows[i], symbol));
                proof {
                    if since is None {
                        assert(rows@.take(i + 1) == pre.push(rows@[i as int]));
                    }
                    assert(mexc_trades_since(rows@.take(i + 1), since) == mexc_trades_since(pre, since).push(rows@[i as int]));
                }
            } else {
                proof {
                    assert(mexc_trades_since(rows@.take(i + 1), since) == mexc_trades_since(pre, since));
                }
            }
            i = i + 1;
        }
        proof {
            assert(rows@.take(n as int) =~= rows@);
        }
        out
    }
}

/// The query text of a private request: the parameters, then `timestamp`
/// and `recvWindow` (5000).
pub open spec fn mexc_signed_query(params: Seq<(String, String)>, ts: Seq<char>) -> Seq<char> {
    let tail = "timestamp="@ + ts + "&recvWindow=5000"@;
    if params.len() == 0 {
        tail
    } else {
        query_spec(params, false) + "&"@ + tail
    }
}

/// The query a private request signs ends with the time and a receive
/// window of 5000; before them stand the request's own parameters, if it
/// has any, followed by `&`.
pub proof fn law_signed_query_tail(params: Seq<(String, String)>, ts: Seq<char>, r: Seq<char>)
    requires
        r == mexc_signed_query(params, ts),
    ensures
        r.skip(r.len() - ts.len() - 26) == "timestamp="@ + ts + "&recvWindow=5000"@,
        params.len() == 0 ==> r == "timestamp="@ + ts + "&recvWindow=5000"@,
        params.len() > 0 ==> r.take(r.len() - ts.len() - 27) == query_spec(params, false) && r[r.len() - ts.len() - 27] == '&',
{
    reveal_strlit("timestamp=");
    reveal_strlit("&recvWindow=5000");
    reveal_strlit("&");
    let tail = "timestamp="@ + ts + "&recvWindow=5000"@;
    assert(tail.len() == ts.len() + 26);
    if params.len() == 0 {
        assert(r.skip(0) =~= r);
    } else {
        let q = query_spec(params, false);
        assert(r == q + "&"@ + tail);
        assert(r.take(q.len() as int) =~= q);
        assert(r.skip(q.len() + 1int) =~= tail);
    }
}

/// The view of a parameter list.
pub open spec fn pairs_view(p: Seq<(String, String)>) -> Seq<(Seq<char>, Seq<char>)> {
    p.map_values(|x: (String, String)| (x.0@, x.1@))
}

impl Mexc {
    /// Query of a candle request: market id, interval, limit (500 when
    /// absent) and start time when given. A timeframe MEXC lacks is refused.
    pub fn ohlcv_params(&self, symbol: &str, timeframe: Timeframe, since: Option<i64>, limit: Option<u32>) -> (r: Result<Vec<(String, String)>, CcxtError>)
        ensures
            r is Err <==> spec_mexc_timeframe(timeframe) is None,
            r is Err ==> r matches Err(CcxtError::BadRequest { .. }),
            r matches Ok(p) ==> pairs_view(p@) == seq![
                ("symbol"@, remove_all(symbol@, '/')),
                ("interval"@, spec_mexc_timeframe(timeframe)->0),
                ("limit"@, spec_int_to_string(match limit { Some(l) => l as int, None => 500 })),
            ] + (match since {
                Some(t) => seq![("startTime"@, spec_int_to_string(t as int))],
                None => Seq::empty(),
            }),
    {
        let interval = match self.get_timeframe_string(timeframe) {
            Some(i) => i,
            None => {
                return Err(CcxtError::BadRequest { message: copy_str("Invalid timeframe") });
            },
        };
        let mut p: Vec<(String, String)> = Vec::new();
        p.push((copy_str("symbol"), self.to_market_id(symbol)));
        p.push((copy_str("interval"), copy_str(interval)));
        let l: u32 = match limit {
            Some(l) => l,
            None => 500,
        };
        p.push((copy_str("limit"), int_to_string(l as i128)));
        if let Some(t) = since {
            p.push((copy_str("startTime"), int_to_string(t as i128)));
        }
        proof {
            assert(pairs_view(p@) =~= seq![
                ("symbol"@, remove_all(symbol@, '/')),
                ("interval"@, spec_mexc_timeframe(timeframe)->0),
                ("limit"@, spec_int_to_string(match limit { Some(l) => l as int, None => 500 })),
            ] + (match since {
                Some(t) => seq![("startTime"@, spec_int_to_string(t as int))],
                None => Seq::empty(),
            }));
        }
        Ok(p)
    }

    /// A number written as a text field of a candle row, zero when it is not one.
    fn kline_num(j: &Json) -> (r: Dec)
        ensures
            r.parts() == (match spec_as_str(*j) {
                Some(s) => text_dec_or_zero(s),
                None => (0int, 0int),
            }),
    {
        match j.as_str() {
            Some(s) => parse_or_zero(s),
            None => Dec::zero(),
        }
    }

    /// Candles of candle rows; rows with fewer than six fields are skipped.
    pub fn parse_klines(rows: &Vec<Vec<Json>>) -> (r: Vec<OHLCV>)
        ensures
            r@.len() == rows@.filter(|k: Vec<Json>| k@.len() >= 6).len(),
            forall|k: int|
                0 <= k < r@.len() ==> spec_mexc_kline_ok(rows@.filter(|x: Vec<Json>| x@.len() >= 6)[k], #[trigger] r@[k]),
    {
        let mut out: Vec<OHLCV> = Vec::new();
        let n = rows.len();
        let mut i: usize = 0;
        while i < n
            invariant
                n == rows@.len(),
                i <= n,
                out@.len() == rows@.take(i as int).filter(|k: Vec<Json>| k@.len() >= 6).len(),
                forall|k: int|
                    0 <= k < out@.len() ==> spec_mexc_kline_ok(
                        rows@.take(i as int).filter(|x: Vec<Json>| x@.len() >= 6)[k],
                        #[trigger] out@[k],
                    ),
            decreases n - i,
        {
            let ghost pre = rows@.take(i as int);
            proof {
                assert(rows@.take(i + 1).drop_last() =~= pre);
                assert(rows@.take(i + 1).last() == rows@[i as int]);
                reveal_with_fuel(Seq::<_>::filter, 1);
            }
            let k = &rows[i];
            if k.len() >= 6 {
                let ts = match k[0].as_i64() {
                    Some(t) => t,
                    None => 0,
                };
                let c = OHLCV {
                    timestamp: ts,
                    open: Self::kline_num(&k[1]),
                    high: Self::kline_num(&k[2]),
                    low: Self::kline_num(&k[3]),
                    close: Self::kline_num(&k[4]),
                    volume: Self::kline_num(&k[5]),
                };
                out.push(c);
                proof {
                    assert(rows@.take(i + 1).filter(|x: Vec<Json>| x@.len() >= 6) == pre.filter(|x: Vec<Json>| x@.len() >= 6).push(rows@[i as int]));
                }
            } else {
                proof {
                    assert(rows@.take(i + 1).filter(|x: Vec<Json>| x@.len() >= 6) == pre.filter(|x: Vec<Json>| x@.len() >= 6));
                }
            }
            i = i + 1;
        }
        proof {
            assert(rows@.take(n as int) =~= rows@);
        }
        out
    }

    /// Holdings of one asset: free, locked as used, and their sum as total.
    pub fn parse_balance_entry(b: &MexcBalance) -> (r: Balance)
        ensures
            spec_mexc_balance_ok(*b, r),
    {
        let free = parse_or_zero(b.free.as_str());
        let locked = parse_or_zero(b.locked.as_str());
        Balance { free: Some(free), used: Some(locked), total: dec_add(free, locked) }
    }

    /// Unified balances of the assets with something free or locked; the
    /// time is the account's update time, else `now`. A later entry of an
    /// asset replaces an earlier one.
    pub fn parse_balance(balances: &Vec<MexcBalance>, update_time: Option<i64>, now: i64) -> (r: Balances)
        ensures
            keyed_by_last(
                mexc_held_rows(balances@).map_values(|b: MexcBalance| b.asset@),
                r.currencies@,
                |i: int, bal: Balance| spec_mexc_balance_ok(mexc_held_rows(balances@)[i], bal),
            ),
            r.timestamp == Some(match update_time { Some(t) => t, None => now }),
            opt_view(r.datetime) == Some(iso8601_or_empty_spec(match update_time { Some(t) => t, None => now } as int)),
    {
        let ghost held = mexc_held_rows(balances@);
        let ghost ok = |i: int, bal: Balance| spec_mexc_balance_ok(held[i], bal);
        let ts = match update_time {
            Some(t) => t,
            None => now,
        };
        let mut result = Balances::new();
        result.timestamp = Some(ts);
        result.datetime = Some(iso8601_or_empty(ts));
        let n = balances.len();
        let mut k: usize = 0;
        proof {
            lemma_keyed_empty(ok);
            assert(mexc_held_rows(balances@.take(0)) =~= Seq::<MexcBalance>::empty());
            assert(mexc_held_rows(balances@.take(0)).map_values(|b: MexcBalance| b.asset@) =~= Seq::<Seq<char>>::empty());
            assert(result.currencies@ =~= Seq::<(String, Balance)>::empty());
        }
        while k < n
            invariant
                n == balances@.len(),
                k <= n,
                held == mexc_held_rows(balances@),
                result.timestamp == Some(ts),
                opt_view(result.datetime) == Some(iso8601_or_empty_spec(ts as int)),
                ok == (|i: int, bal: Balance| spec_mexc_balance_ok(held[i], bal)),
                mexc_held_rows(balances@.take(k as int)).len() <= held.len(),
                forall|j: int|
                    0 <= j < mexc_held_rows(balances@.take(k as int)).len() ==> #[trigger] mexc_held_rows(
                        balances@.take(k as int),
                    )[j] == held[j],
                keyed_by_last(
                    mexc_held_rows(balances@.take(k as int)).map_values(|b: MexcBalance| b.asset@),
                    result.currencies@,
                    ok,
                ),
            decreases n - k,
        {
            let ghost pre = mexc_held_rows(balances@.take(k as int));
            proof {
                assert(balances@.take(k + 1).drop_last() =~= balances@.take(k as int));
                assert(balances@.take(k + 1).last() == balances@[k as int]);
                reveal_with_fuel(Seq::<_>::filter, 1);
                lemma_held_prefix(balances@, k + 1);
            }
            let bal = Self::parse_balance_entry(&balances[k]);
            let f = bal.free.unwrap();
            let u = bal.used.unwrap();
            if f.is_positive() || u.is_positive() {
                let ghost before = result.currencies@;
                result.add(copy_str(balances[k].asset.as_str()), bal);
                proof {
                    let codes = pre.map_values(|b: MexcBalance| b.asset@);
                    assert(mexc_held_rows(balances@.take(k + 1)) == pre.push(balances@[k as int]));
                    assert(mexc_held_rows(balances@.take(k + 1))[pre.len() as int] == balances@[k as int]);
                    assert(held[pre.len() as int] == balances@[k as int]);
                    lemma_keyed_step(codes, before, result.currencies@, balances@[k as int].asset@, bal, ok);
                    assert(codes.push(balances@[k as int].asset@) =~= mexc_held_rows(balances@.take(k + 1)).map_values(
                        |b: MexcBalance| b.asset@,
                    ));
                }
            } else {
                proof {
                    assert(mexc_held_rows(balances@.take(k + 1)) == pre);
                }
            }
            k = k + 1;
        }
        proof {
            assert(balances@.take(n as int) =~= balances@);
        }
        result
    }

    /// Parameters of an order: market id, side, type (anything but a market
    /// order is sent as a limit order), quantity, and the price when given.
    pub fn create_order_params(&self, symbol: &str, order_type: OrderType, side: OrderSide, amount: Dec, price: Option<Dec>) -> (r: Vec<(String, String)>)
        ensures
            r@.len() == (if price is Some { 5int } else { 4int }),
            r@[0].0@ == "symbol"@ && r@[0].1@ == remove_all(symbol@, '/'),
            r@[1].0@ == "side"@ && r@[1].1@ == (if side == OrderSide::Buy { "BUY"@ } else { "SELL"@ }),
            r@[2].0@ == "type"@ && r@[2].1@ == (if order_type == OrderType::Market { "MARKET"@ } else { "LIMIT"@ }),
            r@[3].0@ == "quantity"@ && (amount.wf() ==> r@[3].1@ == spec_dec_to_string(amount.parts())),
            price matches Some(p) ==> r@[4].0@ == "price"@ && (p.wf() ==> r@[4].1@ == spec_dec_to_string(p.parts())),
    {
        let mut p: Vec<(String, String)> = Vec::new();
        p.push((copy_str("symbol"), self.to_market_id(symbol)));
        let s = match side {
            OrderSide::Buy => "BUY",
            OrderSide::Sell => "SELL",
        };
        p.push((copy_str("side"), copy_str(s)));
        let t = match order_type {
            OrderType::Market => "MARKET",
            _ => "LIMIT",
        };
        p.push((copy_str("type"), copy_str(t)));
        p.push((copy_str("quantity"), amount.to_text()));
        if let Some(x) = price {
            p.push((copy_str("price"), x.to_text()));
        }
        p
    }

    /// Parameters naming one order of a market.
    pub fn order_ref_params(&self, id: &str, symbol: &str) -> (r: Vec<(String, String)>)
        ensures
            pairs_view(r@) == seq![("symbol"@, remove_all(symbol@, '/')), ("orderId"@, id@)],
    {
        let mut p: Vec<(String, String)> = Vec::new();
        p.push((copy_str("symbol"), self.to_market_id(symbol)));
        p.push((copy_str("orderId"), copy_str(id)));
        proof {
            assert(pairs_view(p@) =~= seq![("symbol"@, remove_all(symbol@, '/')), ("orderId"@, id@)]);
        }
        p
    }

    /// Parameters of a listing that needs a market: its id and a limit (500
    /// when absent), plus the start time when given; listing without a
    /// symbol is refused.
    pub fn symbol_list_params(&self, symbol: Option<&str>, since: Option<i64>, limit: Option<u32>) -> (r: Result<Vec<(String, String)>, CcxtError>)
        ensures
            r is Err <==> symbol is None,
            r is Err ==> r matches Err(CcxtError::BadRequest { .. }),
            r matches Ok(p) ==> pairs_view(p@) == seq![
                ("symbol"@, remove_all(symbol->0@, '/')),
                ("limit"@, spec_int_to_string(match limit { Some(l) => l as int, None => 500 })),
            ] + (match since {
                Some(t) => seq![("startTime"@, spec_int_to_string(t as int))],
                None => Seq::empty(),
            }),
    {
        let sym = match symbol {
            Some(s) => s,
            None => {
                return Err(CcxtError::BadRequest { message: copy_str("Symbol is required") });
            },
        };
        let mut p: Vec<(String, String)> = Vec::new();
        p.push((copy_str("symbol"), self.to_market_id(sym)));
        let l: u32 = match limit {
            Some(l) => l,
            None => 500,
        };
        p.push((copy_str("limit"), int_to_string(l as i128)));
        if let Some(t) = since {
            p.push((copy_str("startTime"), int_to_string(t as i128)));
        }
        proof {
            assert(pairs_view(p@) =~= seq![
                ("symbol"@, remove_all(symbol->0@, '/')),
                ("limit"@, spec_int_to_string(match limit { Some(l) => l as int, None => 500 })),
            ] + (match since {
                Some(t) => seq![("startTime"@, spec_int_to_string(t as int))],
                None => Seq::empty(),
            }));
        }
        Ok(p)
    }

    /// Unified order of a MEXC order under `symbol`: the average price is the
    /// cost over the filled amount when something was filled.
    pub fn parse_order(&self, o: &MexcOrder, symbol: &str) -> (r: Order)
        ensures
            spec_mexc_order_ok(*o, symbol@, r),
    {
        let order_type = if str_eq(o.order_type.as_str(), "MARKET") {
            OrderType::Market
        } else {
            OrderType::Limit
        };
        let side = if str_eq(o.side.as_str(), "BUY") {
            OrderSide::Buy
        } else {
            OrderSide::Sell
        };
        let status = Self::parse_status(o.status.as_str());
        let price = parse_or_zero(o.price.as_str());
        let amount = parse_or_zero(o.orig_qty.as_str());
        let filled = parse_or_zero(o.executed_qty.as_str());
        let cost = parse_or_zero(o.cummulative_quote_qty.as_str());
        let average = if filled.is_positive() {
            dec_div(cost, filled)
        } else {
            None
        };
        Order {
            id: int_to_string(o.order_id as i128),
            client_order_id: copy_opt(&o.client_order_id),
            timestamp: Some(o.time),
            datetime: Some(iso8601_or_empty(o.time)),
            last_trade_timestamp: None,
            last_update_timestamp: o.update_time,
            status,
            symbol: copy_str(symbol),
            order_type,
            time_in_force: None,
            side,
            price: Some(price),
            average,
            amount,
            filled,
            remaining: dec_sub(amount, filled),
            stop_price: None,
            trigger_price: None,
            take_profit_price: None,
            stop_loss_price: None,
            trades: Vec::new(),
            cost: Some(cost),
            fee: None,
            reduce_only: None,
            post_only: None,
        }
    }

    /// Order status of a MEXC status word.
    pub fn parse_status(s: &str) -> (r: OrderStatus)
        ensures
            r == spec_mexc_status(s@),
    {
        if str_eq(s, "FILLED") {
            OrderStatus::Closed
        } else if str_eq(s, "CANCELED") || str_eq(s, "PENDING_CANCEL") || str_eq(s, "REJECTED") || str_eq(s, "EXPIRED") {
            OrderStatus::Canceled
        } else {
            OrderStatus::Open
        }
    }

    /// Unified open orders; each takes the requested symbol, else the symbol
    /// of its own market.
    pub fn parse_open_orders(&self, orders: &Vec<MexcOrder>, symbol: Option<&str>) -> (r: Vec<Order>)
        ensures
            r@.len() == orders@.len(),
            forall|k: int|
                0 <= k < r@.len() ==> spec_mexc_order_ok(
                    orders@[k],
                    match symbol {
                        Some(s) => s@,
                        None => mexc_symbol_of(self.markets_by_id, orders@[k].symbol@),
                    },
                    #[trigger] r@[k],
                ),
    {
        let mut out: Vec<Order> = Vec::new();
        let n = orders.len();
        let mut i: usize = 0;
        while i < n
            invariant
                n == orders@.len(),
                i <= n,
                out@.len() == i,
                forall|k: int|
                    0 <= k < i ==> spec_mexc_order_ok(
                        orders@[k],
                        match symbol {
                            Some(s) => s@,
                            None => mexc_symbol_of(self.markets_by_id, orders@[k].symbol@),
                        },
                        #[trigger] out@[k],
                    ),
            decreases n - i,
        {
            let sym = match symbol {
                Some(s) => copy_str(s),
                None => self.to_symbol(orders[i].symbol.as_str()),
            };
            out.push(self.parse_order(&orders[i], sym.as_str()));
            i = i + 1;
        }
        out
    }

    /// Unified orders of a listing that ended (filled or cancelled), in order.
    pub fn parse_closed_orders(&self, orders: &Vec<MexcOrder>, symbol: &str) -> (r: Vec<Order>)
        ensures
            r@.len() == mexc_ended(orders@).len(),
            forall|k: int| 0 <= k < r@.len() ==> spec_mexc_order_ok(mexc_ended(orders@)[k], symbol@, #[trigger] r@[k]),
    {
        let mut out: Vec<Order> = Vec::new();
        let n = orders.len();
        let mut i: usize = 0;
        while i < n
            invariant
                n == orders@.len(),
                i <= n,
                out@.len() == mexc_ended(orders@.take(i as int)).len(),
                forall|k: int|
                    0 <= k < out@.len() ==> spec_mexc_order_ok(mexc_ended(orders@.take(i as int))[k], symbol@, #[trigger] out@[k]),
            decreases n - i,
        {
            let ghost pre = orders@.take(i as int);
            proof {
                assert(orders@.take(i + 1).drop_last() =~= pre);
                assert(orders@.take(i + 1).last() == orders@[i as int]);
                reveal_with_fuel(Seq::<_>::filter, 1);
            }
            if str_eq(orders[i].status.as_str(), "FILLED") || str_eq(orders[i].status.as_str(), "CANCELED") {
                out.push(self.parse_order(&orders[i], symbol));
                proof {
                    assert(mexc_ended(orders@.take(i + 1)) == mexc_ended(pre).push(orders@[i as int]));
                }
            } else {
                proof {
                    assert(mexc_ended(orders@.take(i + 1)) == mexc_ended(pre));
                }
            }
            i = i + 1;
        }
        proof {
            assert(orders@.take(n as int) =~= orders@);
        }
        out
    }

    /// Unified trade of a fill of the account.
    pub fn parse_my_trade(t: &MexcMyTrade, symbol: &str) -> (r: Trade)
        ensures
            spec_mexc_my_trade_ok(*t, symbol@, r),
    {
        let price = parse_or_zero(t.price.as_str());
        let amount = parse_or_zero(t.qty.as_str());
        let commission = parse_or_zero(t.commission.as_str());
        let side = if t.is_buyer {
            copy_str("buy")
        } else {
            copy_str("sell")
        };
        let tm = if t.is_maker {
            TakerOrMaker::Maker
        } else {
            TakerOrMaker::Taker
        };
        Trade {
            id: int_to_string(t.id as i128),
            order: Some(int_to_string(t.order_id as i128)),
            timestamp: Some(t.time),
            datetime: Some(iso8601_or_empty(t.time)),
            symbol: copy_str(symbol),
            trade_type: None,
            side: Some(side),
            taker_or_maker: Some(tm),
            price,
            amount,
            cost: dec_mul(price, amount),
            fee: Some(Fee { cost: Some(commission), currency: Some(copy_str(t.commission_asset.as_str())), rate: None }),
        }
    }

    /// Unified trades of the account's fills, in order.
    pub fn parse_my_trades(rows: &Vec<MexcMyTrade>, symbol: &str) -> (r: Vec<Trade>)
        ensures
            r@.len() == rows@.len(),
            forall|k: int| 0 <= k < r@.len() ==> spec_mexc_my_trade_ok(rows@[k], symbol@, #[trigger] r@[k]),
    {
        let mut out: Vec<Trade> = Vec::new();
        let n = rows.len();
        let mut i: usize = 0;
        while i < n
            invariant
                n == rows@.len(),
                i <= n,
                out@.len() == i,
                forall|k: int| 0 <= k < i ==> spec_mexc_my_trade_ok(rows@[k], symbol@, #[trigger] out@[k]),
            decreases n - i,
        {
            out.push(Self::parse_my_trade(&rows[i], symbol));
            i = i + 1;
        }
        out
    }

    /// Parameters of a deposit or withdrawal listing: currency when given,
    /// start time when given, and a limit (1000 when absent).
    pub fn transaction_list_params(code: Option<&str>, since: Option<i64>, limit: Option<u32>) -> (r: Vec<(String, String)>)
        ensures
            pairs_view(r@) == (match code {
                Some(c) => seq![("coin"@, c@)],
                None => Seq::empty(),
            }) + (match since {
                Some(t) => seq![("startTime"@, spec_int_to_string(t as int))],
                None => Seq::empty(),
            }) + seq![("limit"@, spec_int_to_string(match limit { Some(l) => l as int, None => 1000 }))],
    {
        let mut p: Vec<(String, String)> = Vec::new();
        if let Some(c) = code {
            p.push((copy_str("coin"), copy_str(c)));
        }
        if let Some(t) = since {
            p.push((copy_str("startTime"), int_to_string(t as i128)));
        }
        let l: u32 = match limit {
            Some(l) => l,
            None => 1000,
        };
        p.push((copy_str("limit"), int_to_string(l as i128)));
        proof {
            assert(pairs_view(p@) =~= (match code {
                Some(c) => seq![("coin"@, c@)],
                None => Seq::empty(),
            }) + (match since {
                Some(t) => seq![("startTime"@, spec_int_to_string(t as int))],
                None => Seq::empty(),
            }) + seq![("limit"@, spec_int_to_string(match limit { Some(l) => l as int, None => 1000 }))]);
        }
        p
    }

    /// Unified deposit of a MEXC deposit.
    pub fn parse_deposit(d: &MexcDeposit) -> (r: Transaction)
        ensures
            r.id@ == (match d.id { Some(i) => i@, None => Seq::<char>::empty() }),
            opt_view(r.txid) == opt_view(d.tx_id),
            r.timestamp == d.insert_time,
            opt_view(r.datetime) == (match d.insert_time {
                Some(t) => Some(iso8601_or_empty_spec(t as int)),
                None => None,
            }),
            opt_view(r.network) == opt_view(d.network),
            opt_view(r.address) == opt_view(d.address),
            opt_view(r.tag) == opt_view(d.address_tag),
            r.tx_type == TransactionType::Deposit,
            r.amount.parts() == text_dec_or_zero(d.amount@),
            r.currency@ == d.coin@,
            r.status == spec_mexc_deposit_status(d.status),
            r.fee is None,
    {
        let datetime = match d.insert_time {
            Some(t) => Some(iso8601_or_empty(t)),
            None => None,
        };
        let id = match &d.id {
            Some(i) => copy_str(i.as_str()),
            None => String::new(),
        };
        Transaction {
            id,
            txid: copy_opt(&d.tx_id),
            timestamp: d.insert_time,
            datetime,
            network: copy_opt(&d.network),
            address: copy_opt(&d.address),
            tag: copy_opt(&d.address_tag),
            tx_type: TransactionType::Deposit,
            amount: parse_or_zero(d.amount.as_str()),
            currency: copy_str(d.coin.as_str()),
            status: if d.status == 6 {
                TransactionStatus::Complete
            } else {
                TransactionStatus::Pending
            },
            fee: None,
        }
    }

    /// Unified withdrawal of a MEXC withdrawal; its fee is in the withdrawn
    /// currency.
    pub fn parse_withdrawal(w: &MexcWithdrawal) -> (r: Transaction)
        ensures
            r.id@ == w.id@,
            opt_view(r.txid) == opt_view(w.tx_id),
            r.timestamp == w.apply_time,
            opt_view(r.datetime) == (match w.apply_time {
                Some(t) => Some(iso8601_or_empty_spec(t as int)),
                None => None,
            }),
            opt_view(r.network) == opt_view(w.network),
            opt_view(r.address) == Some(w.address@),
            r.tag is None,
            r.tx_type == TransactionType::Withdrawal,
            r.amount.parts() == text_dec_or_zero(w.amount@),
            r.currency@ == w.coin@,
            r.status == spec_mexc_withdrawal_status(w.status@),
            match opt_text_dec(w.transaction_fee) {
                Some(c) => r.fee matches Some(f) && opt_parts(f.cost) == Some(c) && opt_view(f.currency)
                    == Some(w.coin@) && f.rate is None,
                None => r.fee is None,
            },
    {
        let datetime = match w.apply_time {
            Some(t) => Some(iso8601_or_empty(t)),
            None => None,
        };
        let status = if str_eq(w.status.as_str(), "completed") {
            TransactionStatus::Complete
        } else if str_eq(w.status.as_str(), "cancel") || str_eq(w.status.as_str(), "rejected") {
            TransactionStatus::Canceled
        } else {
            TransactionStatus::Pending
        };
        let fee = match parse_opt(&w.transaction_fee) {
            Some(c) => Some(Fee { cost: Some(c), currency: Some(copy_str(w.coin.as_str())), rate: None }),
            None => None,
        };
        Transaction {
            id: copy_str(w.id.as_str()),
            txid: copy_opt(&w.tx_id),
            timestamp: w.apply_time,
            datetime,
            network: copy_opt(&w.network),
            address: Some(copy_str(w.address.as_str())),
            tag: None,
            tx_type: TransactionType::Withdrawal,
            amount: parse_or_zero(w.amount.as_str()),
            currency: copy_str(w.coin.as_str()),
            status,
            fee,
        }
    }

    /// Parameters of a withdrawal request.
    pub fn withdraw_params(code: &str, amount: Dec, address: &str, tag: Option<&str>, network: Option<&str>) -> (r: Vec<(String, String)>)
        ensures
            r@.len() == 3 + (if tag is Some { 1int } else { 0int }) + (if network is Some { 1int } else { 0int }),
            r@[0].0@ == "coin"@ && r@[0].1@ == code@,
            r@[1].0@ == "amount"@ && (amount.wf() ==> r@[1].1@ == spec_dec_to_string(amount.parts())),
            r@[2].0@ == "address"@ && r@[2].1@ == address@,
            tag matches Some(t) ==> r@[3].0@ == "addressTag"@ && r@[3].1@ == t@,
            network matches Some(n) ==> r@.last().0@ == "network"@ && r@.last().1@ == n@,
    {
        let mut p: Vec<(String, String)> = Vec::new();
        p.push((copy_str("coin"), copy_str(code)));
        p.push((copy_str("amount"), amount.to_text()));
        p.push((copy_str("address"), copy_str(address)));
        if let Some(t) = tag {
            p.push((copy_str("addressTag"), copy_str(t)));
        }
        if let Some(n) = network {
            p.push((copy_str("network"), copy_str(n)));
        }
        p
    }

    /// The withdrawal just requested: pending, at time `now`.
    pub fn withdrawal_requested(id: &str, code: &str, amount: Dec, address: &str, tag: Option<&str>, network: Option<&str>, now: i64) -> (r: Transaction)
        ensures
            r.id@ == id@ && r.currency@ == code@ && r.amount == amount,
            opt_view(r.address) == Some(address@),
            opt_view(r.tag) == (match tag { Some(t) => Some(t@), None => None }),
            opt_view(r.network) == (match network { Some(n) => Some(n@), None => None }),
            r.tx_type == TransactionType::Withdrawal && r.status == TransactionStatus::Pending,
            r.timestamp == Some(now) && opt_view(r.datetime) == Some(iso8601_or_empty_spec(now as int)),
            r.txid is None && r.fee is None,
    {
        Transaction {
            id: copy_str(id),
            txid: None,
            timestamp: Some(now),
            datetime: Some(iso8601_or_empty(now)),
            network: match network {
                Some(n) => Some(copy_str(n)),
                None => None,
            },
            address: Some(copy_str(address)),
            tag: match tag {
                Some(t) => Some(copy_str(t)),
                None => None,
            },
            tx_type: TransactionType::Withdrawal,
            amount,
            currency: copy_str(code),
            status: TransactionStatus::Pending,
            fee: None,
        }
    }

    /// Parameters of a transfer between accounts; account names are sent in
    /// upper case.
    pub fn transfer_params(code: &str, amount: Dec, from_account: &str, to_account: &str) -> (r: Vec<(String, String)>)
        ensures
            r@.len() == 4,
            r@[0].0@ == "asset"@ && r@[0].1@ == code@,
            r@[1].0@ == "amount"@ && (amount.wf() ==> r@[1].1@ == spec_dec_to_string(amount.parts())),
            r@[2].0@ == "fromAccountType"@ && r@[2].1@ == spec_to_uppercase(from_account@),
            r@[3].0@ == "toAccountType"@ && r@[3].1@ == spec_to_uppercase(to_account@),
    {
        let mut p: Vec<(String, String)> = Vec::new();
        p.push((copy_str("asset"), copy_str(code)));
        p.push((copy_str("amount"), amount.to_text()));
        p.push((copy_str("fromAccountType"), to_uppercase(from_account)));
        p.push((copy_str("toAccountType"), to_uppercase(to_account)));
        p
    }

    /// Parameters that change the margin mode of a market (an unknown mode is
    /// sent as cross).
    pub fn margin_mode_params(&self, margin_mode: MarginMode, symbol: &str) -> (r: Vec<(String, String)>)
        ensures
            pairs_view(r@) == seq![
                ("symbol"@, remove_all(symbol@, '/')),
                ("marginMode"@, if margin_mode == MarginMode::Isolated { "isolated"@ } else { "cross"@ }),
            ],
    {
        let m = match margin_mode {
            MarginMode::Isolated => "isolated",
            _ => "cross",
        };
        let mut p: Vec<(String, String)> = Vec::new();
        p.push((copy_str("symbol"), self.to_market_id(symbol)));
        p.push((copy_str("marginMode"), copy_str(m)));
        proof {
            assert(pairs_view(p@) =~= seq![
                ("symbol"@, remove_all(symbol@, '/')),
                ("marginMode"@, if margin_mode == MarginMode::Isolated { "isolated"@ } else { "cross"@ }),
            ]);
        }
        p
    }

    /// Parameters that add (`add`) or remove margin of a position: type 1
    /// adds, type 2 removes.
    pub fn margin_change_params(&self, symbol: &str, amount: Dec, add: bool) -> (r: Vec<(String, String)>)
        ensures
            r@.len() == 3,
            r@[0].0@ == "symbol"@ && r@[0].1@ == remove_all(symbol@, '/'),
            r@[1].0@ == "amount"@ && (amount.wf() ==> r@[1].1@ == spec_dec_to_string(amount.parts())),
            r@[2].0@ == "type"@ && r@[2].1@ == (if add { "1"@ } else { "2"@ }),
    {
        let mut p: Vec<(String, String)> = Vec::new();
        p.push((copy_str("symbol"), self.to_market_id(symbol)));
        p.push((copy_str("amount"), amount.to_text()));
        p.push((copy_str("type"), copy_str(if add { "1" } else { "2" })));
        p
    }

    /// Parameters that set the leverage of a market.
    pub fn leverage_params(&self, leverage: Dec, symbol: &str) -> (r: Vec<(String, String)>)
        ensures
            r@.len() == 2,
            r@[0].0@ == "symbol"@ && r@[0].1@ == remove_all(symbol@, '/'),
            r@[1].0@ == "leverage"@ && (leverage.wf() ==> r@[1].1@ == spec_dec_to_string(leverage.parts())),
    {
        let mut p: Vec<(String, String)> = Vec::new();
        p.push((copy_str("symbol"), self.to_market_id(symbol)));
        p.push((copy_str("leverage"), leverage.to_text()));
        p
    }

    /// Parameters of a transfer history request: the start time and the page
    /// size, each when given.
    pub fn transfer_list_params(since: Option<i64>, limit: Option<u32>) -> (r: Vec<(String, String)>)
        ensures
            pairs_view(r@) == (match since {
                Some(t) => seq![("startTime"@, spec_int_to_string(t as int))],
                None => Seq::<(Seq<char>, Seq<char>)>::empty(),
            }) + (match limit {
                Some(l) => seq![("size"@, spec_int_to_string(l as int))],
                None => Seq::<(Seq<char>, Seq<char>)>::empty(),
            }),
    {
        let mut p: Vec<(String, String)> = Vec::new();
        if let Some(t) = since {
            p.push((copy_str("startTime"), int_to_string(t as i128)));
        }
        let ghost first = pairs_view(p@);
        if let Some(l) = limit {
            p.push((copy_str("size"), int_to_string(l as i128)));
        }
        proof {
            let a = match since {
                Some(t) => seq![("startTime"@, spec_int_to_string(t as int))],
                None => Seq::<(Seq<char>, Seq<char>)>::empty(),
            };
            let b = match limit {
                Some(l) => seq![("size"@, spec_int_to_string(l as int))],
                None => Seq::<(Seq<char>, Seq<char>)>::empty(),
            };
            assert(first =~= a);
            assert(pairs_view(p@) =~= a + b);
        }
        p
    }

    /// The entry of one transfer record (see [`spec_mexc_transfer_ok`]).
    pub fn parse_transfer(t: &MexcTransferRecord) -> (r: TransferEntry)
        ensures
            spec_mexc_transfer_ok(*t, r),
    {
        TransferEntry {
            id: Some(int_to_string(t.tran_id as i128)),
            timestamp: Some(
                match t.timestamp {
                    Some(x) => x,
                    None => 0,
                },
            ),
            currency: Some(copy_str(t.asset.as_str())),
            amount: Some(parse_or_zero(t.amount.as_str())),
            from_account: None,
            to_account: None,
            status: Some(copy_str(t.status.as_str())),
        }
    }

    /// The entries of transfer records, one each, in order; no records give
    /// no entries.
    pub fn parse_transfers(rows: &Option<Vec<MexcTransferRecord>>) -> (r: Vec<TransferEntry>)
        ensures
            match rows {
                Some(v) => r@.len() == v@.len() && forall|i: int| 0 <= i < v@.len() ==> spec_mexc_transfer_ok(v@[i], #[trigger] r@[i]),
                None => r@.len() == 0,
            },
    {
        let mut out: Vec<TransferEntry> = Vec::new();
        if let Some(v) = rows {
            let n = v.len();
            let mut i: usize = 0;
            while i < n
                invariant
                    n == v@.len(),
                    i <= n,
                    out@.len() == i,
                    forall|k: int| 0 <= k < i ==> spec_mexc_transfer_ok(v@[k], #[trigger] out@[k]),
                decreases n - i,
            {
                out.push(Self::parse_transfer(&v[i]));
                i = i + 1;
            }
        }
        out
    }

    /// The transfer just made, with the id the exchange gave it, at time
    /// `now`: status `ok`.
    pub fn transfer_done(code: &str, amount: Dec, from_account: &str, to_account: &str, tran_id: i64, now: i64) -> (r: TransferEntry)
        ensures
            opt_view(r.id) == Some(spec_int_to_string(tran_id as int)),
            opt_view(r.currency) == Some(code@),
            r.amount == Some(amount),
            opt_view(r.from_account) == Some(from_account@),
            opt_view(r.to_account) == Some(to_account@),
            r.timestamp == Some(now),
            opt_view(r.status) == Some("ok"@),
    {
        TransferEntry {
            id: Some(int_to_string(tran_id as i128)),
            timestamp: Some(now),
            currency: Some(copy_str(code)),
            amount: Some(amount),
            from_account: Some(copy_str(from_account)),
            to_account: Some(copy_str(to_account)),
            status: Some(copy_str("ok")),
        }
    }

    /// The deposit address of a currency: the first the exchange lists, and
    /// a bad-response error when it lists none.
    pub fn parse_deposit_address(code: &str, rows: &Vec<MexcDepositAddress>) -> (r: Result<DepositAddress, CcxtError>)
        ensures
            r is Err <==> rows@.len() == 0,
            r matches Err(e) ==> (e matches CcxtError::BadResponse { message } && message@ == "No deposit address found for "@ + code@),
            r matches Ok(a) ==> a.currency@ == code@ && a.address@ == rows@[0].address@ && opt_view(a.tag) == opt_view(rows@[0].tag)
                && opt_view(a.network) == Some(rows@[0].network@),
    {
        if rows.len() == 0 {
            return Err(CcxtError::BadResponse { message: concat2("No deposit address found for ", code) });
        }
        let a = &rows[0];
        Ok(DepositAddress {
            currency: copy_str(code),
            address: copy_str(a.address.as_str()),
            tag: copy_opt(&a.tag),
            network: Some(copy_str(a.network.as_str())),
        })
    }

    /// The ticker of a premium index (see [`spec_mexc_index_ticker_ok`]).
    pub fn parse_index_price(d: &MexcPremiumIndex, symbol: &str, now: i64, now_text: &str) -> (r: Ticker)
        ensures
            spec_mexc_index_ticker_ok(*d, symbol@, now, now_text@, r),
    {
        let index = parse_or_zero(d.index_price.as_str());
        let mark = parse_or_zero(d.mark_price.as_str());
        Ticker {
            symbol: copy_str(symbol),
            timestamp: Some(now),
            datetime: Some(copy_str(now_text)),
            high: None,
            low: None,
            bid: None,
            bid_volume: None,
            ask: None,
            ask_volume: None,
            vwap: None,
            open: None,
            close: None,
            last: Some(index),
            previous_close: None,
            change: None,
            percentage: None,
            average: None,
            base_volume: None,
            quote_volume: None,
            index_price: Some(index),
            mark_price: Some(mark),
        }
    }

    /// The mark-price ticker of a premium index (see
    /// [`spec_mexc_mark_ticker_ok`]).
    pub fn parse_mark_price(d: &MexcPremiumIndex, symbol: &str, now: i64, now_text: &str) -> (r: Ticker)
        ensures
            spec_mexc_mark_ticker_ok(*d, symbol@, now, now_text@, r),
    {
        Ticker {
            symbol: copy_str(symbol),
            timestamp: Some(now),
            datetime: Some(copy_str(now_text)),
            high: None,
            low: None,
            bid: None,
            bid_volume: None,
            ask: None,
            ask_volume: None,
            vwap: None,
            open: None,
            close: None,
            last: None,
            previous_close: None,
            change: None,
            percentage: None,
            average: None,
            base_volume: None,
            quote_volume: None,
            index_price: None,
            mark_price: Some(parse_or_zero(d.mark_price.as_str())),
        }
    }

    /// The leverage of a market as MEXC reports it without asking: 20 for
    /// long and short positions, in cross margin.
    pub fn default_leverage(symbol: &str) -> (r: Leverage)
        ensures
            r.symbol@ == symbol@,
            r.margin_mode == MarginMode::Cross,
            r.long_leverage == spec_mexc_default_leverage(),
            r.short_leverage == spec_mexc_default_leverage(),
    {
        Leverage {
            symbol: copy_str(symbol),
            margin_mode: MarginMode::Cross,
            long_leverage: Dec::from_i64(20),
            short_leverage: Dec::from_i64(20),
        }
    }

    /// The leverage just set: the same both ways, in cross margin.
    pub fn leverage_set(leverage: Dec, symbol: &str) -> (r: Leverage)
        ensures
            r.symbol@ == symbol@,
            r.margin_mode == MarginMode::Cross,
            r.long_leverage == leverage,
            r.short_leverage == leverage,
    {
        Leverage { symbol: copy_str(symbol), margin_mode: MarginMode::Cross, long_leverage: leverage, short_leverage: leverage }
    }

    /// The margin mode just set for a market.
    pub fn margin_mode_set(margin_mode: MarginMode, symbol: &str) -> (r: MarginModeInfo)
        ensures
            r.symbol@ == symbol@,
            r.margin_mode == margin_mode,
    {
        MarginModeInfo { symbol: copy_str(symbol), margin_mode }
    }

    /// The margin change just made: added (`add`) or taken, of `amount`.
    pub fn margin_modified(symbol: &str, amount: Dec, add: bool) -> (r: MarginModification)
        ensures
            r.symbol@ == symbol@,
            r.modification_type == Some(if add { MarginModificationType::Add } else { MarginModificationType::Reduce }),
            r.amount == Some(amount),
    {
        MarginModification {
            symbol: copy_str(symbol),
            modification_type: Some(if add { MarginModificationType::Add } else { MarginModificationType::Reduce }),
            amount: Some(amount),
        }
    }

    /// The funding rate of a contract from its text (zero when no number),
    /// at time `now`.
    pub fn parse_funding_rate(symbol: &str, rate: &str, now: i64) -> (r: FundingRate)
        ensures
            r.symbol@ == symbol@,
            r.funding_rate matches Some(f) && f.parts() == text_dec_or_zero(rate@),
            r.timestamp == Some(now),
    {
        FundingRate { symbol: copy_str(symbol), funding_rate: Some(parse_or_zero(rate)), timestamp: Some(now) }
    }

    /// The open interest of a contract from its text (zero when no number),
    /// at time `now`.
    pub fn parse_open_interest(symbol: &str, amount: &str, now: i64) -> (r: OpenInterest)
        ensures
            r.symbol@ == symbol@,
            r.amount matches Some(a) && a.parts() == text_dec_or_zero(amount@),
            r.timestamp == Some(now),
    {
        OpenInterest { symbol: copy_str(symbol), amount: Some(parse_or_zero(amount)), timestamp: Some(now) }
    }

    /// Changing an order is refused: MEXC offers no such call. The refusal
    /// names the order and its market.
    pub fn edit_order(
        &self,
        id: &str,
        symbol: &str,
        order_type: Option<OrderType>,
        side: Option<OrderSide>,
        amount: Option<Dec>,
        price: Option<Dec>,
    ) -> (r: Result<Order, CcxtError>)
        ensures
            (r matches Err(CcxtError::NotSupported { feature }) && feature@ == "Order editing is not supported. Order: "@
                + id@ + ", Symbol: "@ + symbol@),
    {
        let mut feature = concat3("Order editing is not supported. Order: ", id, ", Symbol: ");
        push_str(&mut feature, symbol);
        Err(CcxtError::NotSupported { feature })
    }

    /// Parameters of cancelling every order of a market; a symbol is needed.
    pub fn cancel_all_params(&self, symbol: Option<&str>) -> (r: Result<Vec<(String, String)>, CcxtError>)
        ensures
            r is Err <==> symbol is None,
            r is Err ==> r matches Err(CcxtError::ArgumentsRequired { .. }),
            r matches Ok(p) ==> pairs_view(p@) == seq![("symbol"@, remove_all(symbol->0@, '/'))],
    {
        let sym = match symbol {
            Some(s) => s,
            None => {
                return Err(CcxtError::ArgumentsRequired { message: copy_str("symbol is required for cancel_all_orders") });
            },
        };
        let mut p: Vec<(String, String)> = Vec::new();
        p.push((copy_str("symbol"), self.to_market_id(sym)));
        proof {
            assert(pairs_view(p@) =~= seq![("symbol"@, remove_all(symbol->0@, '/'))]);
        }
        Ok(p)
    }

    /// The query text of a private request (see [`mexc_signed_query`]).
    pub fn signed_query(params: &Vec<(String, String)>, ts: &str) -> (r: String)
        ensures
            r@ == mexc_signed_query(params@, ts@),
    {
        let mut q = build_query(params, false);
        if params.len() > 0 {
            push_str(&mut q, "&");
        }
        push_str(&mut q, "timestamp=");
        push_str(&mut q, ts);
        push_str(&mut q, "&recvWindow=5000");
        proof {
            assert(q@ =~= mexc_signed_query(params@, ts@));
        }
        q
    }

    /// A signed private request: the parameters with `timestamp` (`now`) and
    /// `recvWindow`, and `signature`, the hex HMAC-SHA256 of that query under
    /// the secret, appended to the address; key and JSON content type as
    /// headers. A missing key or secret is refused.
    pub fn private_request(&self, method: &str, path: &str, params: &Vec<(String, String)>, now: i64) -> (r: Result<SignedRequest, CcxtError>)
        ensures
            r is Err <==> (self.config.api_key is None || self.config.secret is None),
            r is Err ==> r matches Err(CcxtError::AuthenticationError { .. }),
            r matches Ok(req) ==> {
                let q = mexc_signed_query(params@, spec_int_to_string(now as int));
                let sig = spec_hex_lower(spec_hmac_sha256(encode_utf8(self.config.secret->0@), encode_utf8(q)));
                &&& req.url@ == MEXC_BASE_URL@ + path@ + "?"@ + q + "&signature="@ + sig
                &&& req.method@ == method@
                &&& req.body is None
                &&& pairs_view(req.headers@) == seq![
                    ("X-MEXC-APIKEY"@, self.config.api_key->0@),
                    ("Content-Type"@, "application/json"@),
                ]
            },
    {
        let key = match self.config.api_key() {
            Some(k) => k,
            None => {
                return Err(CcxtError::AuthenticationError { message: copy_str("API key required") });
            },
        };
        let secret = match self.config.api_secret() {
            Some(s) => s,
            None => {
                return Err(CcxtError::AuthenticationError { message: copy_str("API secret required") });
            },
        };
        let ts = int_to_string(now as i128);
        let q = Self::signed_query(params, ts.as_str());
        let mac = hmac_sha256(secret.as_bytes(), q.as_str().as_bytes());
        let sig = hex_encode(mac.as_slice());
        let mut url = concat3(MEXC_BASE_URL, path, "?");
        push_str(&mut url, q.as_str());
        push_str(&mut url, "&signature=");
        push_str(&mut url, sig.as_str());
        let mut headers: Vec<(String, String)> = Vec::new();
        headers.push((copy_str("X-MEXC-APIKEY"), copy_str(key)));
        headers.push((copy_str("Content-Type"), copy_str("application/json")));
        proof {
            assert(pairs_view(headers@) =~= seq![
                ("X-MEXC-APIKEY"@, self.config.api_key->0@),
                ("Content-Type"@, "application/json"@),
            ]);
        }
        Ok(SignedRequest { url, method: copy_str(method), headers, body: None })
    }

    /// The request of the generic signing hook: the address of the path, the
    /// method and body as given, no headers.
    pub fn sign(&self, path: &str, method: &str, body: Option<&str>) -> (r: SignedRequest)
        ensures
            r.url@ == MEXC_BASE_URL@ + path@,
            r.method@ == method@,
            r.headers@.len() == 0,
            opt_view(r.body) == (match body { Some(b) => Some(b@), None => None }),
    {
        SignedRequest {
            url: concat2(MEXC_BASE_URL, path),
            method: copy_str(method),
            headers: Vec::new(),
            body: match body {
                Some(b) => Some(copy_str(b)),
                None => None,
            },
        }
    }
}

/// The held entries of a prefix are a prefix of the held entries.
proof fn lemma_held_prefix(b: Seq<MexcBalance>, i: int)
    requires
        0 <= i <= b.len(),
    ensures
        mexc_held_rows(b.take(i)).len() <= mexc_held_rows(b).len(),
        forall|j: int|
            0 <= j < mexc_held_rows(b.take(i)).len() ==> #[trigger] mexc_held_rows(b.take(i))[j]
                == mexc_held_rows(b)[j],
{
    assert(b =~= b.take(i) + b.skip(i));
    Seq::filter_distributes_over_add(b.take(i), b.skip(i), |x: MexcBalance| mexc_held(x));
}

/// The tickers kept from a prefix are a prefix of those kept from the whole.
proof fn lemma_ticker_kept_prefix(t: Seq<MexcTicker>, index: MarketIndex, req: Option<Seq<Seq<char>>>, i: int)
    requires
        0 <= i <= t.len(),
    ensures
        mexc_ticker_kept(t.take(i), index, req).len() <= mexc_ticker_kept(t, index, req).len(),
        forall|j: int|
            0 <= j < mexc_ticker_kept(t.take(i), index, req).len() ==> #[trigger] mexc_ticker_kept(t.take(i), index, req)[j]
                == mexc_ticker_kept(t, index, req)[j],
{
    assert(t =~= t.take(i) + t.skip(i));
    Seq::filter_distributes_over_add(
        t.take(i),
        t.skip(i),
        |x: MexcTicker| x.symbol is Some && match req {
            Some(s) => s.contains(mexc_symbol_of(index, x.symbol->0@)),
            None => true,
        },
    );
}

} // verus!
