//! Settings of the exchange, the trading thresholds and the wallet.

use crate::fixed::Fixed;
use vstd::prelude::*;

verus! {

/// The wallet that signs orders and the account that holds the funds.
#[derive(Clone, Debug)]
pub struct WalletConfig {
    pub private_key: Option<String>,
    pub chain_id: u64,
    /// Trading (proxy) wallet address, the funder of orders.
    pub proxy_wallet: String,
}

/// Where the exchange is and how to authenticate to it.
#[derive(Clone, Debug)]
pub struct PolymarketConfig {
    pub gamma_api_url: String,
    pub clob_api_url: String,
    pub ws_url: String,
    pub api_key: Option<String>,
    pub api_secret: Option<String>,
    pub api_passphrase: Option<String>,
}

/// Thresholds and cadence of trading.
#[derive(Clone, Debug)]
pub struct TradingConfig {
    pub min_profit_threshold: Fixed,
    pub max_position_size: Fixed,
    pub eth_condition_id: Option<String>,
    pub btc_condition_id: Option<String>,
    pub check_interval_ms: u64,
}

/// All settings.
#[derive(Clone, Debug)]
pub struct Config {
    pub polymarket: PolymarketConfig,
    pub trading: TradingConfig,
    pub wallet: WalletConfig,
}

/// Polygon's chain id.
pub const DEFAULT_CHAIN_ID: u64 = 137;

impl Default for Config {
    /// Public exchange endpoints, no credentials, a threshold of 0.01, a
    /// position limit of 100, a one-second check interval, and Polygon.
    fn default() -> (r: Config)
        ensures
            r.polymarket.gamma_api_url@ == "https://gamma-api.polymarket.com"@,
            r.polymarket.clob_api_url@ == "https://clob.polymarket.com"@,
            r.polymarket.ws_url@ == "wss://ws-subscriptions-clob.polymarket.com/ws/market"@,
            r.polymarket.api_key is None,
            r.polymarket.api_secret is None,
            r.polymarket.api_passphrase is None,
            r.trading.min_profit_threshold@ == 10_000,
            r.trading.max_position_size@ == 100_000_000,
            r.trading.eth_condition_id is None,
            r.trading.btc_condition_id is None,
            r.trading.check_interval_ms == 1000,
            r.wallet.private_key is None,
            r.wallet.chain_id == DEFAULT_CHAIN_ID,
            r.wallet.proxy_wallet@.len() == 0,
    {
        Config {
            polymarket: PolymarketConfig {
                gamma_api_url: "https://gamma-api.polymarket.com".to_owned(),
                clob_api_url: "https://clob.polymarket.com".to_owned(),
                ws_url: "wss://ws-subscriptions-clob.polymarket.com/ws/market".to_owned(),
                api_key: None,
                api_secret: None,
                api_passphrase: None,
            },
            trading: TradingConfig {
                min_profit_threshold: Fixed::from_micros(10_000),
                max_position_size: Fixed::from_micros(100_000_000),
                eth_condition_id: None,
                btc_condition_id: None,
                check_interval_ms: 1000,
            },
            wallet: WalletConfig {
                private_key: None,
                chain_id: DEFAULT_CHAIN_ID,
                proxy_wallet: String::new(),
            },
        }
    }
}

} // verus!
