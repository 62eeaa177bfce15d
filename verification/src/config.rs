//! Configuration records for the engine's collaborating services.

use vstd::prelude::*;

verus! {

/// Server configuration
#[derive(Clone, Debug)]
pub struct ServerConfig {
    /// Server host address
    pub host: String,
    /// Server port number
    pub port: u16,
    /// Number of worker threads
    pub workers: usize,
}

/// Database configuration
#[derive(Clone, Debug)]
pub struct DatabaseConfig {
    /// Database connection URL
    pub url: String,
    /// Maximum number of database connections
    pub max_connections: u32,
    /// Minimum number of database connections
    pub min_connections: u32,
}

/// Redis cache configuration
#[derive(Clone, Debug)]
pub struct RedisConfig {
    /// Redis connection URL
    pub url: String,
    /// Maximum number of Redis connections
    pub max_connections: u32,
}

/// Solana blockchain configuration
#[derive(Clone, Debug)]
pub struct SolanaConfig {
    /// Solana RPC endpoint URL
    pub rpc_url: String,
    /// Solana WebSocket endpoint URL
    pub ws_url: String,
    /// Transaction commitment level
    pub commitment: String,
}

/// Logging configuration
#[derive(Clone, Debug)]
pub struct LoggingConfig {
    /// Log level (debug, info, warn, error)
    pub level: String,
    /// Log output format (json, plain)
    pub format: String,
}

} // verus!
