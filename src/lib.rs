//! Decision core of an automated trading bot for newly launched tokens:
//! rule-based strategies turn asset snapshots into signals, a trading engine
//! turns signals into positions and trades under risk limits, and a
//! monitoring system derives metrics and alerts from the trade history.
//!
//! Decimal quantities (percentages, ratios, confidences, prices, profit and
//! loss) are held as integer millionths; see [`fixed`].

pub mod chain;
pub mod clock;
pub mod config;
pub mod error;
pub mod fixed;
pub mod monitoring;
pub mod pumpportal;
pub mod strategies;
pub mod trading;

pub use error::BotError;
