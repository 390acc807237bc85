//! Settings of the bot. Reading and writing them as documents happens
//! outside this library; here are their shape and their defaults.

use vstd::prelude::*;
pub use crate::monitoring::AlertThresholds;

verus! {

pub struct Config {
    pub rpc_url: String,
    pub wallet_path: String,
    pub trading: TradingConfig,
    pub pumpportal: PumpPortalConfig,
    pub monitoring: MonitoringConfig,
}

/// Trading limits; percentages in millionths of a percent.
#[derive(Debug, Clone, Copy, PartialEq, Eq, Structural)]
pub struct TradingConfig {
    pub max_slippage: i64,
    pub min_liquidity: u64,
    pub max_buy_amount: u64,
    pub max_sell_amount: u64,
    pub profit_target_percent: i64,
    pub stop_loss_percent: i64,
    pub cooldown_seconds: u64,
    pub max_positions: usize,
}

pub struct PumpPortalConfig {
    pub api_url: String,
    pub api_key: Option<String>,
    pub refresh_interval_ms: u64,
    pub min_market_cap: u64,
    pub max_market_cap: u64,
    pub min_holders: u32,
    pub max_age_hours: u32,
}

pub struct MonitoringConfig {
    pub log_level: String,
    pub save_trades: bool,
    pub webhook_url: Option<String>,
    pub alert_thresholds: AlertThresholds,
}

impl Default for Config {
    fn default() -> (r: Self)
        ensures
            r.rpc_url@ == "https://api.mainnet-beta.solana.com"@,
            r.wallet_path@ == "wallet.json"@,
            r.trading == TradingConfig::default_values(),
            r.pumpportal.api_url@ == "https://api.pumpportal.fun"@,
            r.pumpportal.api_key is None,
            r.monitoring.webhook_url is None,
    {
        Config {
            rpc_url: String::from_str("https://api.mainnet-beta.solana.com"),
            wallet_path: String::from_str("wallet.json"),
            trading: TradingConfig::default(),
            pumpportal: PumpPortalConfig::default(),
            monitoring: MonitoringConfig::default(),
        }
    }
}

impl TradingConfig {
    /// Slippage 5%, liquidity floor 100 SOL, buys and sells of at most 1 SOL
    /// (in lamports), profit target 20%, stop loss 10%, a 60-second cooldown
    /// and at most five positions.
    pub open spec fn default_values() -> TradingConfig {
        TradingConfig {
            max_slippage: 5_000_000,
            min_liquidity: 100_000_000,
            max_buy_amount: 1_000_000_000,
            max_sell_amount: 1_000_000_000,
            profit_target_percent: 20_000_000,
            stop_loss_percent: 10_000_000,
            cooldown_seconds: 60,
            max_positions: 5,
        }
    }
}

impl Default for TradingConfig {
    fn default() -> (r: Self)
        ensures
            r == TradingConfig::default_values(),
    {
        TradingConfig {
            max_slippage: 5_000_000,
            min_liquidity: 100_000_000,
            max_buy_amount: 1_000_000_000,
            max_sell_amount: 1_000_000_000,
            profit_target_percent: 20_000_000,
            stop_loss_percent: 10_000_000,
            cooldown_seconds: 60,
            max_positions: 5,
        }
    }
}

impl Default for PumpPortalConfig {
    /// The public catalog, polled every five seconds, for tokens of one to
    /// ten million dollars, 100 holders or more, at most a day old.
    fn default() -> (r: Self)
        ensures
            r.api_url@ == "https://api.pumpportal.fun"@,
            r.api_key is None,
            r.refresh_interval_ms == 5000,
            r.min_market_cap == 1_000_000,
            r.max_market_cap == 10_000_000,
            r.min_holders == 100,
            r.max_age_hours == 24,
    {
        PumpPortalConfig {
            api_url: String::from_str("https://api.pumpportal.fun"),
            api_key: None,
            refresh_interval_ms: 5000,
            min_market_cap: 1_000_000,
            max_market_cap: 10_000_000,
            min_holders: 100,
            max_age_hours: 24,
        }
    }
}

impl Default for MonitoringConfig {
    fn default() -> (r: Self)
        ensures
            r.log_level@ == "info"@,
            r.save_trades,
            r.webhook_url is None,
            r.alert_thresholds.max_drawdown_percent == 20_000_000,
            r.alert_thresholds.min_daily_profit_percent == 5_000_000,
            r.alert_thresholds.max_daily_loss_percent == 15_000_000,
    {
        MonitoringConfig {
            log_level: String::from_str("info"),
            save_trades: true,
            webhook_url: None,
            alert_thresholds: AlertThresholds::default(),
        }
    }
}

} // verus!
