//! Monitoring, detection and order preparation for a cross-market
//! arbitrage between two periodically rotating up/down prediction markets.

pub mod cache;
pub mod client;
pub mod config;
pub mod discovery;
pub mod domain;
pub mod execution;
pub mod fixed;
pub mod monitor;
pub mod strategy;
pub mod text;
