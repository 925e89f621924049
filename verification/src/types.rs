//! Unified records that every exchange adapter produces.

use crate::dec::{dec_add, opt_parts, Dec};
use crate::text::str_eq;
use vstd::prelude::*;

verus! {

/// Direction of an order or trade.
#[derive(Clone, Copy, Debug, PartialEq, Eq, Structural)]
pub enum OrderSide {
    Buy,
    Sell,
}

/// Life-cycle state of an order.
#[derive(Clone, Copy, Debug, PartialEq, Eq, Structural)]
pub enum OrderStatus {
    Open,
    Closed,
    Canceled,
    Expired,
    Rejected,
}

/// Kind of an order.
#[derive(Clone, Copy, Debug, PartialEq, Eq, Structural)]
pub enum OrderType {
    Limit,
    Market,
    StopLimit,
    StopLoss,
    StopLossLimit,
    StopMarket,
    TakeProfitLimit,
}

/// The name of an order type as `{:?}` writes it.
pub open spec fn spec_order_type_name(t: OrderType) -> Seq<char> {
    match t {
        OrderType::Limit => "Limit"@,
        OrderType::Market => "Market"@,
        OrderType::StopLimit => "StopLimit"@,
        OrderType::StopLoss => "StopLoss"@,
        OrderType::StopLossLimit => "StopLossLimit"@,
        OrderType::StopMarket => "StopMarket"@,
        OrderType::TakeProfitLimit => "TakeProfitLimit"@,
    }
}

impl OrderType {
    /// The name of an order type as `{:?}` writes it.
    pub fn name(&self) -> (r: &'static str)
        ensures
            r@ == spec_order_type_name(*self),
    {
        match self {
            OrderType::Limit => "Limit",
            OrderType::Market => "Market",
            OrderType::StopLimit => "StopLimit",
            OrderType::StopLoss => "StopLoss",
            OrderType::StopLossLimit => "StopLossLimit",
            OrderType::StopMarket => "StopMarket",
            OrderType::TakeProfitLimit => "TakeProfitLimit",
        }
    }
}

/// Whether a trade took or made liquidity.
#[derive(Clone, Copy, Debug, PartialEq, Eq, Structural)]
pub enum TakerOrMaker {
    Taker,
    Maker,
}

/// How long an order stays in force.
#[derive(Clone, Copy, Debug, PartialEq, Eq, Structural)]
pub enum TimeInForce {
    GTC,
    IOC,
    FOK,
    PO,
    GTT,
}

/// Candle duration.
#[derive(Clone, Copy, Debug, PartialEq, Eq, Structural)]
pub enum Timeframe {
    Minute1,
    Minute3,
    Minute5,
    Minute15,
    Minute30,
    Hour1,
    Hour2,
    Hour3,
    Hour4,
    Hour6,
    Hour8,
    Hour12,
    Day1,
    Day3,
    Week1,
    Month1,
}

/// Length of a candle of each timeframe, in milliseconds (a month counts
/// thirty days).
pub open spec fn spec_timeframe_millis(tf: Timeframe) -> int {
    match tf {
        Timeframe::Minute1 => 60_000,
        Timeframe::Minute3 => 180_000,
        Timeframe::Minute5 => 300_000,
        Timeframe::Minute15 => 900_000,
        Timeframe::Minute30 => 1_800_000,
        Timeframe::Hour1 => 3_600_000,
        Timeframe::Hour2 => 7_200_000,
        Timeframe::Hour3 => 10_800_000,
        Timeframe::Hour4 => 14_400_000,
        Timeframe::Hour6 => 21_600_000,
        Timeframe::Hour8 => 28_800_000,
        Timeframe::Hour12 => 43_200_000,
        Timeframe::Day1 => 86_400_000,
        Timeframe::Day3 => 259_200_000,
        Timeframe::Week1 => 604_800_000,
        Timeframe::Month1 => 2_592_000_000,
    }
}

/// The name of a timeframe as `{:?}` writes it: its variant's name.
pub open spec fn spec_timeframe_name(tf: Timeframe) -> Seq<char> {
    match tf {
        Timeframe::Minute1 => "Minute1"@,
        Timeframe::Minute3 => "Minute3"@,
        Timeframe::Minute5 => "Minute5"@,
        Timeframe::Minute15 => "Minute15"@,
        Timeframe::Minute30 => "Minute30"@,
        Timeframe::Hour1 => "Hour1"@,
        Timeframe::Hour2 => "Hour2"@,
        Timeframe::Hour3 => "Hour3"@,
        Timeframe::Hour4 => "Hour4"@,
        Timeframe::Hour6 => "Hour6"@,
        Timeframe::Hour8 => "Hour8"@,
        Timeframe::Hour12 => "Hour12"@,
        Timeframe::Day1 => "Day1"@,
        Timeframe::Day3 => "Day3"@,
        Timeframe::Week1 => "Week1"@,
        Timeframe::Month1 => "Month1"@,
    }
}

impl Timeframe {
    /// The name of a timeframe as `{:?}` writes it.
    pub fn name(&self) -> (r: &'static str)
        ensures
            r@ == spec_timeframe_name(*self),
    {
        match self {
            Timeframe::Minute1 => "Minute1",
            Timeframe::Minute3 => "Minute3",
            Timeframe::Minute5 => "Minute5",
            Timeframe::Minute15 => "Minute15",
            Timeframe::Minute30 => "Minute30",
            Timeframe::Hour1 => "Hour1",
            Timeframe::Hour2 => "Hour2",
            Timeframe::Hour3 => "Hour3",
            Timeframe::Hour4 => "Hour4",
            Timeframe::Hour6 => "Hour6",
            Timeframe::Hour8 => "Hour8",
            Timeframe::Hour12 => "Hour12",
            Timeframe::Day1 => "Day1",
            Timeframe::Day3 => "Day3",
            Timeframe::Week1 => "Week1",
            Timeframe::Month1 => "Month1",
        }
    }

    /// Length of a candle, in milliseconds.
    pub fn to_millis(&self) -> (r: i64)
        ensures
            r == spec_timeframe_millis(*self),
    {
        match self {
            Timeframe::Minute1 => 60_000,
            Timeframe::Minute3 => 180_000,
            Timeframe::Minute5 => 300_000,
            Timeframe::Minute15 => 900_000,
            Timeframe::Minute30 => 1_800_000,
            Timeframe::Hour1 => 3_600_000,
            Timeframe::Hour2 => 7_200_000,
            Timeframe::Hour3 => 10_800_000,
            Timeframe::Hour4 => 14_400_000,
            Timeframe::Hour6 => 21_600_000,
            Timeframe::Hour8 => 28_800_000,
            Timeframe::Hour12 => 43_200_000,
            Timeframe::Day1 => 86_400_000,
            Timeframe::Day3 => 259_200_000,
            Timeframe::Week1 => 604_800_000,
            Timeframe::Month1 => 2_592_000_000,
        }
    }
}

/// Identity of an exchange.
#[derive(Clone, Copy, Debug, PartialEq, Eq, Structural)]
pub enum ExchangeId {
    KucoinFutures,
    Luno,
    Mercado,
    Mexc,
    Ndax,
    Novadax,
    Onetrading,
    Oxfun,
}

/// Kind of market.
#[derive(Clone, Copy, Debug, PartialEq, Eq, Structural)]
pub enum MarketType {
    Spot,
    Swap,
    Future,
}

/// State of a deposit or withdrawal.
#[derive(Clone, Copy, Debug, PartialEq, Eq, Structural)]
pub enum TransactionStatus {
    Pending,
    Complete,
    Canceled,
}

/// Direction of a transaction.
#[derive(Clone, Copy, Debug, PartialEq, Eq, Structural)]
pub enum TransactionType {
    Deposit,
    Withdrawal,
}

/// Direction of a derivatives position.
#[derive(Clone, Copy, Debug, PartialEq, Eq, Structural)]
pub enum PositionSide {
    Long,
    Short,
}

/// Margin mode of a position.
#[derive(Clone, Copy, Debug, PartialEq, Eq, Structural)]
pub enum MarginMode {
    Cross,
    Isolated,
    Unknown,
}

/// A fee paid on a trade or order.
#[derive(Clone, Debug, PartialEq)]
pub struct Fee {
    pub cost: Option<Dec>,
    pub currency: Option<String>,
    pub rate: Option<Dec>,
}

/// Price statistics of a market.
#[derive(Clone, Debug, PartialEq)]
pub struct Ticker {
    pub symbol: String,
    pub timestamp: Option<i64>,
    pub datetime: Option<String>,
    pub high: Option<Dec>,
    pub low: Option<Dec>,
    pub bid: Option<Dec>,
    pub bid_volume: Option<Dec>,
    pub ask: Option<Dec>,
    pub ask_volume: Option<Dec>,
    pub vwap: Option<Dec>,
    pub open: Option<Dec>,
    pub close: Option<Dec>,
    pub last: Option<Dec>,
    pub previous_close: Option<Dec>,
    pub change: Option<Dec>,
    pub percentage: Option<Dec>,
    pub average: Option<Dec>,
    pub base_volume: Option<Dec>,
    pub quote_volume: Option<Dec>,
    pub index_price: Option<Dec>,
    pub mark_price: Option<Dec>,
}

/// One executed trade.
#[derive(Clone, Debug, PartialEq)]
pub struct Trade {
    pub id: String,
    pub order: Option<String>,
    pub timestamp: Option<i64>,
    pub datetime: Option<String>,
    pub symbol: String,
    pub trade_type: Option<String>,
    pub side: Option<String>,
    pub taker_or_maker: Option<TakerOrMaker>,
    pub price: Dec,
    pub amount: Dec,
    pub cost: Option<Dec>,
    pub fee: Option<Fee>,
}

/// An order and its execution state.
#[derive(Clone, Debug, PartialEq)]
pub struct Order {
    pub id: String,
    pub client_order_id: Option<String>,
    pub timestamp: Option<i64>,
    pub datetime: Option<String>,
    pub last_trade_timestamp: Option<i64>,
    pub last_update_timestamp: Option<i64>,
    pub status: OrderStatus,
    pub symbol: String,
    pub order_type: OrderType,
    pub time_in_force: Option<TimeInForce>,
    pub side: OrderSide,
    pub price: Option<Dec>,
    pub average: Option<Dec>,
    pub amount: Dec,
    pub filled: Dec,
    pub remaining: Option<Dec>,
    pub stop_price: Option<Dec>,
    pub trigger_price: Option<Dec>,
    pub take_profit_price: Option<Dec>,
    pub stop_loss_price: Option<Dec>,
    pub cost: Option<Dec>,
    pub fee: Option<Fee>,
    pub reduce_only: Option<bool>,
    pub post_only: Option<bool>,
    /// The fills of the order, when the answer lists them.
    pub trades: Vec<Trade>,
}

impl Order {
    /// The order carries no take-profit or stop-loss price and lists no
    /// fills (what every adapter here leaves of them).
    pub open spec fn no_extras(self) -> bool {
        &&& self.take_profit_price is None
        &&& self.stop_loss_price is None
        &&& self.trades@.len() == 0
    }
}

/// Holdings of one currency.
#[derive(Clone, Copy, Debug, PartialEq, Eq, Structural)]
pub struct Balance {
    pub free: Option<Dec>,
    pub used: Option<Dec>,
    pub total: Option<Dec>,
}

impl Balance {
    /// A balance with the given free and used amounts and their sum as total.
    pub fn new(free: Dec, used: Dec) -> (r: Balance)
        ensures
            r.free == Some(free),
            r.used == Some(used),
            opt_parts(r.total) == crate::dec::checked_op(
                free,
                used,
                |x: (int, int), y: (int, int)| crate::dec::spec_dec_add(x, y),
            ),
    {
        Balance { free: Some(free), used: Some(used), total: dec_add(free, used) }
    }
}

/// The balance recorded for a currency: the first entry under that code.
pub open spec fn balance_lookup(entries: Seq<(String, Balance)>, code: Seq<char>) -> Option<Balance>
    decreases entries.len(),
{
    if entries.len() == 0 {
        None
    } else if entries[0].0@ == code {
        Some(entries[0].1)
    } else {
        balance_lookup(entries.drop_first(), code)
    }
}

/// Holdings of an account, per currency code.
#[derive(Clone, Debug, PartialEq)]
pub struct Balances {
    pub timestamp: Option<i64>,
    pub datetime: Option<String>,
    pub currencies: Vec<(String, Balance)>,
}

impl Balances {
    /// No holdings.
    pub fn new() -> (r: Balances)
        ensures
            r.timestamp is None,
            r.datetime is None,
            r.currencies@.len() == 0,
    {
        Balances { timestamp: None, datetime: None, currencies: Vec::new() }
    }

    /// Whether a balance is recorded for a currency.
    pub fn contains_key(&self, code: &str) -> (r: bool)
        ensures
            r == balance_lookup(self.currencies@, code@) is Some,
    {
        self.get(code).is_some()
    }

    /// The balance recorded for a currency.
    pub fn get(&self, code: &str) -> (r: Option<Balance>)
        ensures
            r == balance_lookup(self.currencies@, code@),
    {
        let n = self.currencies.len();
        let mut i: usize = 0;
        assert(self.currencies@.subrange(0, n as int) =~= self.currencies@);
        while i < n
            invariant
                n == self.currencies@.len(),
                i <= n,
                balance_lookup(self.currencies@, code@) == balance_lookup(
                    self.currencies@.subrange(i as int, n as int),
                    code@,
                ),
            decreases n - i,
        {
            let ghost rest = self.currencies@.subrange(i as int, n as int);
            assert(rest.drop_first() =~= self.currencies@.subrange(i + 1, n as int));
            assert(rest[0] == self.currencies@[i as int]);
            if str_eq(self.currencies[i].0.as_str(), code) {
                return Some(self.currencies[i].1);
            }
            i = i + 1;
        }
        None
    }

    /// Records the balance of a currency, replacing an earlier record of it.
    pub fn add(&mut self, code: String, balance: Balance)
        ensures
            balance_lookup(final(self).currencies@, code@) == Some(balance),
            final(self).timestamp == old(self).timestamp,
            final(self).datetime == old(self).datetime,
            forall|c: Seq<char>|
                c != code@ ==> balance_lookup(final(self).currencies@, c) == balance_lookup(
                    old(self).currencies@,
                    c,
                ),
    {
        let n = self.currencies.len();
        let mut i: usize = 0;
        while i < n
            invariant
                n == self.currencies@.len(),
                self.currencies@ == old(self).currencies@,
                self.timestamp == old(self).timestamp,
                self.datetime == old(self).datetime,
                i <= n,
                forall|j: int| 0 <= j < i ==> self.currencies@[j].0@ != code@,
            decreases n - i,
        {
            if str_eq(self.currencies[i].0.as_str(), code.as_str()) {
                let ghost before = self.currencies@;
                let ghost k = (code, balance);
                self.currencies.set(i, (code, balance));
                proof {
                    lemma_lookup_set(before, i as int, k, k.0@);
                    assert forall|c: Seq<char>| c != k.0@ implies balance_lookup(
                        self.currencies@,
                        c,
                    ) == balance_lookup(before, c) by {
                        lemma_lookup_set(before, i as int, k, c);
                    }
                }
                return;
            }
            i = i + 1;
        }
        let ghost before = self.currencies@;
        let ghost k = (code, balance);
        self.currencies.push((code, balance));
        proof {
            lemma_lookup_push(before, k, k.0@);
            assert forall|c: Seq<char>| c != k.0@ implies balance_lookup(self.currencies@, c)
                == balance_lookup(before, c) by {
                lemma_lookup_push(before, k, c);
            }
        }
    }
}

/// `entries` records, for every code in `codes`, a balance that `ok` accepts
/// for the last position holding that code, and nothing for other codes.
pub open spec fn keyed_by_last(
    codes: Seq<Seq<char>>,
    entries: Seq<(String, Balance)>,
    ok: spec_fn(int, Balance) -> bool,
) -> bool {
    &&& forall|c: Seq<char>| #[trigger] balance_lookup(entries, c) is Some <==> codes.contains(c)
    &&& forall|i: int|
        0 <= i < codes.len() && (forall|j: int| i < j < codes.len() ==> codes[j] != codes[i])
            ==> (#[trigger] balance_lookup(entries, codes[i]) matches Some(b) && ok(i, b))
}

/// Recording one more code keeps `keyed_by_last`.
pub proof fn lemma_keyed_step(
    codes: Seq<Seq<char>>,
    before: Seq<(String, Balance)>,
    after: Seq<(String, Balance)>,
    code: Seq<char>,
    b: Balance,
    ok: spec_fn(int, Balance) -> bool,
)
    requires
        keyed_by_last(codes, before, ok),
        ok(codes.len() as int, b),
        balance_lookup(after, code) == Some(b),
        forall|c: Seq<char>| c != code ==> balance_lookup(after, c) == balance_lookup(before, c),
    ensures
        keyed_by_last(codes.push(code), after, ok),
{
    let nc = codes.push(code);
    assert forall|c: Seq<char>| #[trigger] balance_lookup(after, c) is Some <==> nc.contains(c) by {
        if c == code {
            assert(nc[codes.len() as int] == code);
        } else {
            assert(balance_lookup(after, c) == balance_lookup(before, c));
            if codes.contains(c) {
                let k = choose|k: int| 0 <= k < codes.len() && codes[k] == c;
                assert(nc[k] == c);
            }
            if nc.contains(c) {
                let k = choose|k: int| 0 <= k < nc.len() && nc[k] == c;
                assert(k < codes.len());
                assert(codes[k] == c);
            }
        }
    }
    assert forall|i: int|
        0 <= i < nc.len() && (forall|j: int| i < j < nc.len() ==> nc[j] != nc[i]) implies (
    #[trigger] balance_lookup(after, nc[i]) matches Some(bb) && ok(i, bb)) by {
        if i == codes.len() {
        } else {
            assert(nc[codes.len() as int] == code);
            assert(nc[i] != code);
            assert(nc[i] == codes[i]);
            assert forall|j: int| i < j < codes.len() implies codes[j] != codes[i] by {
                assert(nc[j] == codes[j]);
            }
        }
    }
}

/// Nothing is recorded for an empty list of codes.
pub proof fn lemma_keyed_empty(ok: spec_fn(int, Balance) -> bool)
    ensures
        keyed_by_last(Seq::<Seq<char>>::empty(), Seq::<(String, Balance)>::empty(), ok),
{
    assert forall|c: Seq<char>|
        #[trigger] balance_lookup(Seq::<(String, Balance)>::empty(), c) is Some
            <==> Seq::<Seq<char>>::empty().contains(c) by {}
}

/// Replacing the first entry under a code changes what that code reads and
/// nothing else.
proof fn lemma_lookup_set(s: Seq<(String, Balance)>, i: int, k: (String, Balance), c: Seq<char>)
    requires
        0 <= i < s.len(),
        s[i].0@ == k.0@,
        forall|j: int| 0 <= j < i ==> s[j].0@ != k.0@,
    ensures
        balance_lookup(s.update(i, k), k.0@) == Some(k.1),
        c != k.0@ ==> balance_lookup(s.update(i, k), c) == balance_lookup(s, c),
    decreases s.len(),
{
    if i > 0 {
        lemma_lookup_set(s.drop_first(), i - 1, k, c);
        assert(s.update(i, k).drop_first() =~= s.drop_first().update(i - 1, k));
    } else {
        assert(s.update(i, k).drop_first() =~= s.drop_first());
    }
}

/// Appending an entry under a code that no entry holds makes that code read
/// the new balance and leaves every other code as it was.
proof fn lemma_lookup_push(s: Seq<(String, Balance)>, k: (String, Balance), c: Seq<char>)
    requires
        forall|j: int| 0 <= j < s.len() ==> s[j].0@ != k.0@,
    ensures
        balance_lookup(s.push(k), k.0@) == Some(k.1),
        c != k.0@ ==> balance_lookup(s.push(k), c) == balance_lookup(s, c),
    decreases s.len(),
{
    if s.len() > 0 {
        lemma_lookup_push(s.drop_first(), k, c);
        assert(s.push(k)[0] == s[0]);
        assert(s.push(k).drop_first() =~= s.drop_first().push(k));
        assert(balance_lookup(s.push(k), c) == (if s[0].0@ == c {
            Some(s[0].1)
        } else {
            balance_lookup(s.drop_first().push(k), c)
        }));
    } else {
        let e = Seq::<(String, Balance)>::empty();
        assert(s =~= e);
        assert(s.push(k)[0] == k);
        assert(s.push(k).drop_first() =~= e);
        assert(balance_lookup(e, c) is None);
    }
}

/// One price level of an order book.
#[derive(Clone, Copy, Debug, PartialEq, Eq, Structural)]
pub struct OrderBookEntry {
    pub price: Dec,
    pub amount: Dec,
}

/// Bids and asks of a market.
#[derive(Clone, Debug, PartialEq)]
pub struct OrderBook {
    pub symbol: String,
    pub timestamp: Option<i64>,
    pub datetime: Option<String>,
    pub nonce: Option<i64>,
    pub bids: Vec<OrderBookEntry>,
    pub asks: Vec<OrderBookEntry>,
}

/// One candle.
#[derive(Clone, Copy, Debug, PartialEq, Eq, Structural)]
pub struct OHLCV {
    pub timestamp: i64,
    pub open: Dec,
    pub high: Dec,
    pub low: Dec,
    pub close: Dec,
    pub volume: Dec,
}

/// Lower and upper bound.
#[derive(Clone, Copy, Debug, PartialEq, Eq, Structural)]
pub struct MinMax {
    pub min: Option<Dec>,
    pub max: Option<Dec>,
}

/// Number of decimal places of a market's quantities.
#[derive(Clone, Copy, Debug, PartialEq, Eq, Structural)]
pub struct MarketPrecision {
    pub amount: Option<i32>,
    pub price: Option<i32>,
    pub cost: Option<i32>,
    pub base: Option<i32>,
    pub quote: Option<i32>,
}

/// Trading limits of a market.
#[derive(Clone, Copy, Debug, PartialEq, Eq, Structural)]
pub struct MarketLimits {
    pub amount: MinMax,
    pub price: MinMax,
    pub cost: MinMax,
    pub leverage: MinMax,
}

impl MarketLimits {
    /// No limits.
    pub fn none() -> (r: MarketLimits)
        ensures
            r.amount == (MinMax { min: None, max: None }),
            r.price == (MinMax { min: None, max: None }),
            r.cost == (MinMax { min: None, max: None }),
            r.leverage == (MinMax { min: None, max: None }),
    {
        let m = MinMax { min: None, max: None };
        MarketLimits { amount: m, price: m, cost: m, leverage: m }
    }
}

/// A tradable market.
#[derive(Clone, Debug, PartialEq)]
pub struct Market {
    pub id: String,
    pub lowercase_id: Option<String>,
    pub symbol: String,
    pub base: String,
    pub quote: String,
    pub base_id: String,
    pub quote_id: String,
    pub settle: Option<String>,
    pub active: bool,
    pub market_type: MarketType,
    pub spot: bool,
    pub margin: bool,
    pub swap: bool,
    pub future: bool,
    pub contract: bool,
    pub linear: Option<bool>,
    pub inverse: Option<bool>,
    pub contract_size: Option<Dec>,
    pub created: Option<i64>,
    pub taker: Option<Dec>,
    pub maker: Option<Dec>,
    pub precision: MarketPrecision,
    pub limits: MarketLimits,
}

/// A deposit or withdrawal.
#[derive(Clone, Debug, PartialEq)]
pub struct Transaction {
    pub id: String,
    pub txid: Option<String>,
    pub timestamp: Option<i64>,
    pub datetime: Option<String>,
    pub network: Option<String>,
    pub address: Option<String>,
    pub tag: Option<String>,
    pub tx_type: TransactionType,
    pub amount: Dec,
    pub currency: String,
    pub status: TransactionStatus,
    pub fee: Option<Fee>,
}

/// A derivatives position.
#[derive(Clone, Debug, PartialEq)]
pub struct Position {
    pub symbol: String,
    pub timestamp: Option<i64>,
    pub datetime: Option<String>,
    pub contracts: Option<Dec>,
    pub side: Option<PositionSide>,
    pub leverage: Option<Dec>,
    pub unrealized_pnl: Option<Dec>,
    pub margin_mode: Option<MarginMode>,
    pub entry_price: Option<Dec>,
    pub mark_price: Option<Dec>,
    pub last_price: Option<Dec>,
    pub last_update_timestamp: Option<i64>,
}

/// A move of funds between two accounts of one holder.
#[derive(Clone, Debug, PartialEq)]
pub struct TransferEntry {
    pub id: Option<String>,
    pub timestamp: Option<i64>,
    pub currency: Option<String>,
    pub amount: Option<Dec>,
    pub from_account: Option<String>,
    pub to_account: Option<String>,
    pub status: Option<String>,
}

/// Where to send a deposit of a currency.
#[derive(Clone, Debug, PartialEq)]
pub struct DepositAddress {
    pub currency: String,
    pub address: String,
    pub tag: Option<String>,
    pub network: Option<String>,
}

/// The leverage of a market, for long and short positions.
#[derive(Clone, Debug, PartialEq)]
pub struct Leverage {
    pub symbol: String,
    pub margin_mode: MarginMode,
    pub long_leverage: Dec,
    pub short_leverage: Dec,
}

/// Whether margin was added to a position or taken from it.
#[derive(Clone, Copy, Debug, PartialEq, Eq, Structural)]
pub enum MarginModificationType {
    Add,
    Reduce,
}

/// A change of the margin of a position.
#[derive(Clone, Debug, PartialEq)]
pub struct MarginModification {
    pub symbol: String,
    pub modification_type: Option<MarginModificationType>,
    pub amount: Option<Dec>,
}

/// The margin mode set for a market.
#[derive(Clone, Debug, PartialEq)]
pub struct MarginModeInfo {
    pub symbol: String,
    pub margin_mode: MarginMode,
}

/// The funding rate of a perpetual contract.
#[derive(Clone, Debug, PartialEq)]
pub struct FundingRate {
    pub symbol: String,
    pub funding_rate: Option<Dec>,
    pub timestamp: Option<i64>,
}

/// The open interest of a contract.
#[derive(Clone, Debug, PartialEq)]
pub struct OpenInterest {
    pub symbol: String,
    pub amount: Option<Dec>,
    pub timestamp: Option<i64>,
}

/// Capabilities an exchange adapter offers.
#[derive(Clone, Copy, Debug, PartialEq, Eq, Structural)]
pub struct ExchangeFeatures {
    pub cors: bool,
    pub spot: bool,
    pub margin: bool,
    pub swap: bool,
    pub future: bool,
    pub option: bool,
    pub fetch_markets: bool,
    pub fetch_currencies: bool,
    pub fetch_ticker: bool,
    pub fetch_tickers: bool,
    pub fetch_order_book: bool,
    pub fetch_trades: bool,
    pub fetch_ohlcv: bool,
    pub fetch_balance: bool,
    pub create_order: bool,
    pub create_limit_order: bool,
    pub create_market_order: bool,
    pub create_stop_limit_order: bool,
    pub create_stop_market_order: bool,
    pub cancel_order: bool,
    pub cancel_all_orders: bool,
    pub fetch_order: bool,
    pub fetch_orders: bool,
    pub fetch_open_orders: bool,
    pub fetch_closed_orders: bool,
    pub fetch_my_trades: bool,
    pub fetch_order_trades: bool,
    pub fetch_deposits: bool,
    pub fetch_withdrawals: bool,
    pub fetch_deposit_address: bool,
    pub withdraw: bool,
    pub fetch_positions: bool,
    pub fetch_funding_rate: bool,
    pub fetch_funding_rate_history: bool,
    pub fetch_ledger: bool,
    pub fetch_trading_fees: bool,
}

impl ExchangeFeatures {
    /// No capability at all.
    pub open spec fn spec_none() -> ExchangeFeatures {
        ExchangeFeatures {
            cors: false,
            spot: false,
            margin: false,
            swap: false,
            future: false,
            option: false,
            fetch_markets: false,
            fetch_currencies: false,
            fetch_ticker: false,
            fetch_tickers: false,
            fetch_order_book: false,
            fetch_trades: false,
            fetch_ohlcv: false,
            fetch_balance: false,
            create_order: false,
            create_limit_order: false,
            create_market_order: false,
            create_stop_limit_order: false,
            create_stop_market_order: false,
            cancel_order: false,
            cancel_all_orders: false,
            fetch_order: false,
            fetch_orders: false,
            fetch_open_orders: false,
            fetch_closed_orders: false,
            fetch_my_trades: false,
            fetch_order_trades: false,
            fetch_deposits: false,
            fetch_withdrawals: false,
            fetch_deposit_address: false,
            withdraw: false,
            fetch_positions: false,
            fetch_funding_rate: false,
            fetch_funding_rate_history: false,
            fetch_ledger: false,
            fetch_trading_fees: false,
        }
    }

    /// No capability at all.
    pub fn none() -> (r: ExchangeFeatures)
        ensures
            r == Self::spec_none(),
    {
        ExchangeFeatures {
            cors: false,
            spot: false,
            margin: false,
            swap: false,
            future: false,
            option: false,
            fetch_markets: false,
            fetch_currencies: false,
            fetch_ticker: false,
            fetch_tickers: false,
            fetch_order_book: false,
            fetch_trades: false,
            fetch_ohlcv: false,
            fetch_balance: false,
            create_order: false,
            create_limit_order: false,
            create_market_order: false,
            create_stop_limit_order: false,
            create_stop_market_order: false,
            cancel_order: false,
            cancel_all_orders: false,
            fetch_order: false,
            fetch_orders: false,
            fetch_open_orders: false,
            fetch_closed_orders: false,
            fetch_my_trades: false,
            fetch_order_trades: false,
            fetch_deposits: false,
            fetch_withdrawals: false,
            fetch_deposit_address: false,
            withdraw: false,
            fetch_positions: false,
            fetch_funding_rate: false,
            fetch_funding_rate_history: false,
            fetch_ledger: false,
            fetch_trading_fees: false,
        }
    }
}

/// Web addresses of an exchange.
#[derive(Clone, Debug, PartialEq)]
pub struct ExchangeUrls {
    pub logo: Option<String>,
    pub api: Vec<(String, String)>,
    pub www: Option<String>,
    pub doc: Vec<String>,
    pub fees: Option<String>,
}

/// Credentials and options an adapter is created with.
#[derive(Clone, Debug, PartialEq)]
pub struct ExchangeConfig {
    pub api_key: Option<String>,
    pub secret: Option<String>,
    pub password: Option<String>,
    pub uid: Option<String>,
    pub sandbox: bool,
}

impl ExchangeConfig {
    /// No credentials, production endpoints.
    pub fn new() -> (r: ExchangeConfig)
        ensures
            r.api_key is None,
            r.secret is None,
            r.password is None,
            r.uid is None,
            !r.sandbox,
    {
        ExchangeConfig { api_key: None, secret: None, password: None, uid: None, sandbox: false }
    }

    /// The same as [`ExchangeConfig::new`].
    pub fn default() -> (r: ExchangeConfig)
        ensures
            r.api_key is None,
            r.secret is None,
            r.password is None,
            r.uid is None,
            !r.sandbox,
    {
        Self::new()
    }

    /// This configuration with an API key.
    pub fn with_api_key(self, key: String) -> (r: ExchangeConfig)
        ensures
            r == (ExchangeConfig { api_key: Some(key), ..self }),
    {
        ExchangeConfig { api_key: Some(key), ..self }
    }

    /// This configuration with an API secret.
    pub fn with_api_secret(self, secret: String) -> (r: ExchangeConfig)
        ensures
            r == (ExchangeConfig { secret: Some(secret), ..self }),
    {
        ExchangeConfig { secret: Some(secret), ..self }
    }

    /// This configuration with a passphrase.
    pub fn with_password(self, password: String) -> (r: ExchangeConfig)
        ensures
            r == (ExchangeConfig { password: Some(password), ..self }),
    {
        ExchangeConfig { password: Some(password), ..self }
    }

    /// The API key, if any.
    pub fn api_key(&self) -> (r: Option<&str>)
        ensures
            match r {
                Some(k) => self.api_key matches Some(s) && s@ == k@,
                None => self.api_key is None,
            },
    {
        match &self.api_key {
            Some(s) => Some(s.as_str()),
            None => None,
        }
    }

    /// The API secret, if any.
    pub fn secret(&self) -> (r: Option<&str>)
        ensures
            match r {
                Some(k) => self.secret matches Some(s) && s@ == k@,
                None => self.secret is None,
            },
    {
        match &self.secret {
            Some(s) => Some(s.as_str()),
            None => None,
        }
    }

    /// The API secret, if any (the same as [`ExchangeConfig::secret`]).
    pub fn api_secret(&self) -> (r: Option<&str>)
        ensures
            match r {
                Some(k) => self.secret matches Some(s) && s@ == k@,
                None => self.secret is None,
            },
    {
        self.secret()
    }

    /// The passphrase, if any.
    pub fn password(&self) -> (r: Option<&str>)
        ensures
            match r {
                Some(k) => self.password matches Some(s) && s@ == k@,
                None => self.password is None,
            },
    {
        match &self.password {
            Some(s) => Some(s.as_str()),
            None => None,
        }
    }
}

/// A request ready to be sent: address, method, headers and body.
#[derive(Clone, Debug, PartialEq)]
pub struct SignedRequest {
    pub url: String,
    pub method: String,
    pub headers: Vec<(String, String)>,
    pub body: Option<String>,
}

/// Errors of the exchange adapters.
#[derive(Clone, Debug, PartialEq)]
pub enum CcxtError {
    AuthenticationError { message: String },
    BadRequest { message: String },
    ArgumentsRequired { message: String },
    NotSupported { feature: String },
    ExchangeError { message: String },
    BadSymbol { symbol: String },
    OrderNotFound { order_id: String },
    InsufficientFunds { currency: String, required: String, available: String },
    RateLimitExceeded { message: String, retry_after_ms: Option<u64> },
    OnMaintenance { message: String },
    NetworkError { url: String, message: String },
    BadResponse { message: String },
    InvalidOrder { message: String },
    ParseError { data_type: String, message: String },
}

} // verus!
