//! Connection managers and status records for the engine's collaborators.
//!
//! These components stand at the boundary to external services; their
//! connection logic is not implemented here, only their state records.

use vstd::prelude::*;
use crate::error::ArbitrageError;

verus! {

/// Engine status information
#[derive(Clone, Copy, Debug, PartialEq, Eq, Structural)]
pub struct EngineStatus {
    /// Whether the engine is currently running
    pub running: bool,
    /// Engine uptime in seconds
    pub uptime: u64,
}

/// Trade execution status
#[derive(Clone, Copy, Debug, PartialEq, Eq, Structural)]
pub enum TradeStatus {
    /// Trade is waiting to be executed
    Pending,
    /// Trade is currently being executed
    Executing,
    /// Trade executed successfully
    Success,
    /// Trade execution failed
    Failed,
    /// Trade was cancelled before execution
    Cancelled,
}

/// Database connection manager
#[derive(Debug)]
pub struct DatabaseManager {}

impl DatabaseManager {
    /// Create a new database manager
    pub fn new(_database_url: &str) -> (r: Result<Self, ArbitrageError>)
        ensures
            r is Ok,
    {
        Ok(DatabaseManager {})
    }

    /// Health check for database connection
    pub fn health_check(&self) -> (r: Result<(), ArbitrageError>)
        ensures
            r is Ok,
    {
        Ok(())
    }
}

/// Geyser client for streaming ledger data
#[derive(Debug, Default)]
pub struct GeyserClient {}

impl GeyserClient {
    /// Create a new Geyser client
    pub fn new(_endpoint: &str) -> (r: Result<Self, ArbitrageError>)
        ensures
            r is Ok,
    {
        Ok(GeyserClient {})
    }
}

/// Strategy manager
#[derive(Debug)]
pub struct StrategyManager {}

impl StrategyManager {
    /// Create a new strategy manager
    pub fn new() -> StrategyManager {
        StrategyManager {}
    }
}

impl Default for StrategyManager {
    fn default() -> (r: Self)
        ensures
            r == (StrategyManager {}),
    {
        StrategyManager::new()
    }
}

} // verus!
