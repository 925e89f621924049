//! Events that the streaming adapters deliver.

use crate::types::{Balances, OHLCV, Order, OrderBook, Position, Ticker, Timeframe, Trade};
use vstd::prelude::*;

verus! {

/// A ticker update of a market.
#[derive(Clone, Debug, PartialEq)]
pub struct WsTickerEvent {
    pub symbol: String,
    pub ticker: Ticker,
}

/// An order-book update of a market; `is_snapshot` when it replaces the book.
#[derive(Clone, Debug, PartialEq)]
pub struct WsOrderBookEvent {
    pub symbol: String,
    pub order_book: OrderBook,
    pub is_snapshot: bool,
}

/// Public trades of a market.
#[derive(Clone, Debug, PartialEq)]
pub struct WsTradeEvent {
    pub symbol: String,
    pub trades: Vec<Trade>,
}

/// A candle of a market.
#[derive(Clone, Debug, PartialEq)]
pub struct WsOhlcvEvent {
    pub symbol: String,
    pub timeframe: Timeframe,
    pub ohlcv: OHLCV,
}

/// An update of one of the account's orders.
#[derive(Clone, Debug, PartialEq)]
pub struct WsOrderEvent {
    pub order: Order,
}

/// Fills of the account's orders.
#[derive(Clone, Debug, PartialEq)]
pub struct WsMyTradeEvent {
    pub symbol: String,
    pub trades: Vec<Trade>,
}

/// Holdings of the account.
#[derive(Clone, Debug, PartialEq)]
pub struct WsBalanceEvent {
    pub balances: Balances,
}

/// Positions of the account.
#[derive(Clone, Debug, PartialEq)]
pub struct WsPositionEvent {
    pub positions: Vec<Position>,
}

/// What a stream delivers.
#[derive(Clone, Debug, PartialEq)]
pub enum WsMessage {
    Connected,
    Disconnected,
    Authenticated,
    Subscribed { channel: String, symbol: Option<String> },
    Error(String),
    Ticker(WsTickerEvent),
    OrderBook(WsOrderBookEvent),
    Trade(WsTradeEvent),
    Ohlcv(WsOhlcvEvent),
    Order(WsOrderEvent),
    MyTrade(WsMyTradeEvent),
    Balance(WsBalanceEvent),
    Position(WsPositionEvent),
}

} // verus!
