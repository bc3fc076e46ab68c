//! Cross-chain bridge: wrapped asset ledgers, the native token escrow, the
//! relayer signature quorum, the rolling mint rate limit and timelocked
//! withdrawals.
pub mod escrow;
pub mod mint;
pub mod rate_limit;
pub mod relayer;
pub mod timelock;
