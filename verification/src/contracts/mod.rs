//! Companion contracts: stop-loss triggers, treasury buybacks, vote-escrow
//! locks and vault health monitoring.
pub mod stop_loss;
pub mod treasury_buyback;
pub mod vault_health;
pub mod veflow_lock;
