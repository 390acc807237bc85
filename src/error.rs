//! Errors of the bot.

use vstd::prelude::*;

verus! {

/// A failure, with a description where one helps.
#[derive(Debug, Clone, PartialEq, Eq)]
pub enum BotError {
    Config(String),
    SolanaClient(String),
    Http(String),
    Serialization(String),
    Wallet(String),
    Trading(String),
    PumpPortal(String),
    InsufficientFunds(String),
    TransactionFailed(String),
    InvalidTokenAddress(String),
    RateLimitExceeded,
    Network(String),
    Unknown(String),
}

pub type Result<T> = std::result::Result<T, BotError>;

/// The text of an error: a fixed prefix for its kind, then its description.
pub open spec fn error_text(e: BotError) -> Seq<char> {
    match e {
        BotError::Config(m) => "Configuration error: "@ + m@,
        BotError::SolanaClient(m) => "Solana client error: "@ + m@,
        BotError::Http(m) => "HTTP request error: "@ + m@,
        BotError::Serialization(m) => "Serialization error: "@ + m@,
        BotError::Wallet(m) => "Wallet error: "@ + m@,
        BotError::Trading(m) => "Trading error: "@ + m@,
        BotError::PumpPortal(m) => "PumpPortal API error: "@ + m@,
        BotError::InsufficientFunds(m) => "Insufficient funds: "@ + m@,
        BotError::TransactionFailed(m) => "Transaction failed: "@ + m@,
        BotError::InvalidTokenAddress(m) => "Invalid token address: "@ + m@,
        BotError::Network(m) => "Network error: "@ + m@,
        BotError::Unknown(m) => "Unknown error: "@ + m@,
        BotError::RateLimitExceeded => "Rate limit exceeded"@,
    }
}

impl BotError {
    /// The text of this error; see [`error_text`].
    pub fn message(&self) -> (r: String)
        ensures
            r@ == error_text(*self),
    {
        match self {
            BotError::Config(m) => {
                let mut t = String::from_str("Configuration error: ");
                t.append(m.as_str());
                t
            },
            BotError::SolanaClient(m) => {
                let mut t = String::from_str("Solana client error: ");
                t.append(m.as_str());
                t
            },
            BotError::Http(m) => {
                let mut t = String::from_str("HTTP request error: ");
                t.append(m.as_str());
                t
            },
            BotError::Serialization(m) => {
                let mut t = String::from_str("Serialization error: ");
                t.append(m.as_str());
                t
            },
            BotError::Wallet(m) => {
                let mut t = String::from_str("Wallet error: ");
                t.append(m.as_str());
                t
            },
            BotError::Trading(m) => {
                let mut t = String::from_str("Trading error: ");
                t.append(m.as_str());
                t
            },
            BotError::PumpPortal(m) => {
                let mut t = String::from_str("PumpPortal API error: ");
                t.append(m.as_str());
                t
            },
            BotError::InsufficientFunds(m) => {
                let mut t = String::from_str("Insufficient funds: ");
                t.append(m.as_str());
                t
            },
            BotError::TransactionFailed(m) => {
                let mut t = String::from_str("Transaction failed: ");
                t.append(m.as_str());
                t
            },
            BotError::InvalidTokenAddress(m) => {
                let mut t = String::from_str("Invalid token address: ");
                t.append(m.as_str());
                t
            },
            BotError::Network(m) => {
                let mut t = String::from_str("Network error: ");
                t.append(m.as_str());
                t
            },
            BotError::Unknown(m) => {
                let mut t = String::from_str("Unknown error: ");
                t.append(m.as_str());
                t
            },
            BotError::RateLimitExceeded => String::from_str("Rate limit exceeded"),
        }
    }
}

} // verus!
