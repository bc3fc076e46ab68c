//! Automated market maker guards, fees and rebalancing.
pub mod adaptive_fee;
pub mod circuit_breaker;
pub mod deviation_guard;
pub mod positions;
pub mod rebalancing;
