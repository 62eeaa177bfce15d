//! Decision-and-execution engine for multi-venue asset exchange.
//!
//! The crate finds the best path for swapping one asset for another across
//! registered trading venues, executes that path atomically (including when
//! funded by borrowed capital that must be repaid within the same operation),
//! and gates execution behind a risk-scoring layer that detects adversarial
//! transaction-ordering patterns.

pub mod config;
pub mod error;
pub mod flash;
pub mod math;
pub mod protection;
pub mod router;
pub mod runtime;
pub mod utils;
