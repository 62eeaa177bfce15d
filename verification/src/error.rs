//! Error type shared by the engine's support modules.

use vstd::prelude::*;

verus! {

/// Errors raised by the engine's support modules. Variants that merely wrap
/// an external subsystem's own error carry its message as text.
#[derive(Clone, Debug)]
pub enum ArbitrageError {
    /// Configuration-related errors
    Config(String),
    /// Database operation errors
    Database(String),
    /// WebSocket connection and communication errors
    WebSocket(String),
    /// Arbitrage calculation and analysis errors
    Calculation(String),
    /// DEX integration and interaction errors
    DexIntegration(String),
    /// Blockchain transaction errors
    Transaction(String),
    /// Insufficient liquidity for trade execution
    InsufficientLiquidity,
    /// Slippage tolerance exceeded during execution
    SlippageExceeded,
    /// Internal system errors
    Internal(String),
}

impl ArbitrageError {
    /// Creates a new configuration error
    pub fn config(msg: String) -> (r: ArbitrageError)
        ensures
            r == ArbitrageError::Config(msg),
    {
        ArbitrageError::Config(msg)
    }

    /// Creates a new WebSocket error
    pub fn websocket(msg: String) -> (r: ArbitrageError)
        ensures
            r == ArbitrageError::WebSocket(msg),
    {
        ArbitrageError::WebSocket(msg)
    }

    /// Creates a new calculation error
    pub fn calculation(msg: String) -> (r: ArbitrageError)
        ensures
            r == ArbitrageError::Calculation(msg),
    {
        ArbitrageError::Calculation(msg)
    }

    /// Creates a new DEX integration error
    pub fn dex_integration(msg: String) -> (r: ArbitrageError)
        ensures
            r == ArbitrageError::DexIntegration(msg),
    {
        ArbitrageError::DexIntegration(msg)
    }

    /// Creates a new transaction error
    pub fn transaction(msg: String) -> (r: ArbitrageError)
        ensures
            r == ArbitrageError::Transaction(msg),
    {
        ArbitrageError::Transaction(msg)
    }

    /// Creates a new internal error
    pub fn internal(msg: String) -> (r: ArbitrageError)
        ensures
            r == ArbitrageError::Internal(msg),
    {
        ArbitrageError::Internal(msg)
    }

    /// A human-readable description of the error.
    pub fn message(&self) -> String {
        match self {
            ArbitrageError::Config(m) => m.clone(),
            ArbitrageError::Database(m) => m.clone(),
            ArbitrageError::WebSocket(m) => m.clone(),
            ArbitrageError::Calculation(m) => m.clone(),
            ArbitrageError::DexIntegration(m) => m.clone(),
            ArbitrageError::Transaction(m) => m.clone(),
            ArbitrageError::InsufficientLiquidity => "Insufficient liquidity".to_owned(),
            ArbitrageError::SlippageExceeded => "Slippage tolerance exceeded".to_owned(),
            ArbitrageError::Internal(m) => m.clone(),
        }
    }
}

} // verus!
