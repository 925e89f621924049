//! KuCoin Futures: perpetual swaps and dated futures.

use crate::common::{opt_view, MarketIndex};
use crate::types::{CcxtError, ExchangeConfig, ExchangeFeatures, ExchangeId};
use vstd::prelude::*;

verus! {

/// Minimum spacing of requests, in milliseconds.
pub const KUCOINFUTURES_RATE_LIMIT_MS: u64 = 75;

/// The KuCoin Futures adapter.
pub struct Kucoinfutures {
    pub config: ExchangeConfig,
    pub features: ExchangeFeatures,
    pub markets_by_symbol: MarketIndex,
    pub markets_by_id: MarketIndex,
}

/// What KuCoin Futures offers: derivatives only, with positions and funding.
pub open spec fn spec_kucoinfutures_features() -> ExchangeFeatures {
    ExchangeFeatures {
        swap: true,
        future: true,
        fetch_markets: true,
        fetch_currencies: true,
        fetch_ticker: true,
        fetch_tickers: true,
        fetch_order_book: true,
        fetch_trades: true,
        fetch_ohlcv: true,
        fetch_balance: true,
        create_order: true,
        create_limit_order: true,
        create_market_order: true,
        cancel_order: true,
        fetch_order: true,
        fetch_open_orders: true,
        fetch_closed_orders: true,
        fetch_my_trades: true,
        fetch_deposits: true,
        fetch_withdrawals: true,
        fetch_deposit_address: true,
        fetch_positions: true,
        fetch_funding_rate: true,
        fetch_funding_rate_history: true,
        ..ExchangeFeatures::spec_none()
    }
}

impl Kucoinfutures {
    /// Creates the adapter; it holds the configuration and knows no market yet.
    pub fn new(config: ExchangeConfig) -> (r: Result<Kucoinfutures, CcxtError>)
        ensures
            r matches Ok(x) && x.config == config && x.features == spec_kucoinfutures_features()
                && x.markets_by_symbol.entries@.len() == 0 && x.markets_by_id.entries@.len() == 0,
    {
        let features = ExchangeFeatures {
            swap: true,
            future: true,
            fetch_markets: true,
            fetch_currencies: true,
            fetch_ticker: true,
            fetch_tickers: true,
            fetch_order_book: true,
            fetch_trades: true,
            fetch_ohlcv: true,
            fetch_balance: true,
            create_order: true,
            create_limit_order: true,
            create_market_order: true,
            cancel_order: true,
            fetch_order: true,
            fetch_open_orders: true,
            fetch_closed_orders: true,
            fetch_my_trades: true,
            fetch_deposits: true,
            fetch_withdrawals: true,
            fetch_deposit_address: true,
            fetch_positions: true,
            fetch_funding_rate: true,
            fetch_funding_rate_history: true,
            ..ExchangeFeatures::none()
        };
        Ok(
            Kucoinfutures {
                config,
                features,
                markets_by_symbol: MarketIndex::new(),
                markets_by_id: MarketIndex::new(),
            },
        )
    }

    /// The exchange's identity, shared with the KuCoin Futures adapter.
    pub fn id(&self) -> (r: ExchangeId)
        ensures
            r == ExchangeId::KucoinFutures,
    {
        ExchangeId::KucoinFutures
    }

    /// The exchange's display name.
    pub fn name(&self) -> (r: &'static str)
        ensures
            r@ == "KuCoin Futures"@,
    {
        "KuCoin Futures"
    }

    /// API version.
    pub fn version(&self) -> (r: &'static str)
        ensures
            r@ == "v1"@,
    {
        "v1"
    }

    /// Countries the exchange serves.
    pub fn countries(&self) -> (r: Vec<&'static str>)
        ensures
            r@.len() == 1,
            r@[0]@ == "SC"@,
    {
        let mut v = Vec::new();
        v.push("SC");
        v
    }

    /// Minimum spacing of requests, in milliseconds.
    pub fn rate_limit(&self) -> (r: u64)
        ensures
            r == KUCOINFUTURES_RATE_LIMIT_MS,
    {
        KUCOINFUTURES_RATE_LIMIT_MS
    }

    /// What the exchange offers.
    pub fn has(&self) -> (r: &ExchangeFeatures)
        ensures
            *r == self.features,
    {
        &self.features
    }

    /// The market id of a symbol, when the market is loaded.
    pub fn market_id(&self, symbol: &str) -> (r: Option<String>)
        ensures
            opt_view(r) == self.markets_by_symbol.spec_get(symbol@),
    {
        self.markets_by_symbol.get(symbol)
    }

    /// The unified symbol of a market id, when the market is loaded.
    pub fn symbol(&self, market_id: &str) -> (r: Option<String>)
        ensures
            opt_view(r) == self.markets_by_id.spec_get(market_id@),
    {
        self.markets_by_id.get(market_id)
    }
}

} // verus!
