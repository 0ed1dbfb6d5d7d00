//! Records shared by the monitor, the detector and the executor.

use crate::fixed::Fixed;
use vstd::prelude::*;

verus! {

/// One outcome token of a market, with its textual outcome label.
#[derive(Clone, Debug)]
pub struct Token {
    pub token_id: String,
    pub outcome: String,
}

/// A market as discovered by its slug.
#[derive(Clone, Debug)]
pub struct Market {
    pub condition_id: String,
    pub slug: String,
    pub question: String,
    pub active: bool,
    pub closed: bool,
    pub accepting_orders: bool,
    pub tokens: Option<Vec<Token>>,
}

/// A market as fetched by its condition id, with its constituent tokens.
#[derive(Clone, Debug)]
pub struct MarketDetails {
    pub condition_id: String,
    pub accepting_orders: bool,
    pub tokens: Vec<Token>,
}

/// Top of book of one outcome token: best bid and best ask, where known.
#[derive(Clone, Debug)]
pub struct TokenPrice {
    pub token_id: String,
    pub bid: Option<Fixed>,
    pub ask: Option<Fixed>,
}

/// Both outcome tokens of one market, priced from the cache.
#[derive(Clone, Debug)]
pub struct MarketData {
    pub condition_id: String,
    pub market_name: String,
    pub up_token: Option<TokenPrice>,
    pub down_token: Option<TokenPrice>,
}

/// One profitable two-leg bundle found by the detector.
///
/// The first leg is always bought on the ETH market and the second on the
/// BTC market; which outcome each leg holds depends on the combination.
#[derive(Clone, Debug)]
pub struct ArbitrageOpportunity {
    pub eth_condition_id: String,
    pub btc_condition_id: String,
    pub eth_up_token_id: String,
    pub btc_down_token_id: String,
    pub eth_up_price: Fixed,
    pub btc_down_price: Fixed,
    /// Price of one bundle: the sum of both ask prices.
    pub bundle_cost: Fixed,
    /// Guaranteed gain of one bundle: one minus its cost.
    pub profit_per_bundle: Fixed,
    /// Number of bundles to buy.
    pub shares: u64,
    pub total_cost: Fixed,
    pub expected_profit: Fixed,
}

/// The order part of a submission, as the exchange reads it.
#[derive(Clone, Debug)]
pub struct OrderRequest {
    pub token_id: String,
    pub side: String,
    pub size: String,
    pub price: String,
    pub order_type: String,
}

/// One asset balance of the account.
#[derive(Clone, Debug)]
pub struct Balance {
    pub asset: String,
    pub balance: Fixed,
}

} // verus!
