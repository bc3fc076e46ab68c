//! Verified core logic of the StellarFlow contracts.
use vstd::prelude::*;

pub mod action_guard;
pub mod admin;
pub mod amm;
pub mod bridge;
pub mod config;
pub mod contract;
pub mod contracts;
pub mod crypto;
pub mod error;
pub mod errors;
pub mod escrow;
pub mod events;
pub mod fees;
pub mod flash_loan_guard;
pub mod governance;

verus! {

/// Numeric asset identifier used by gas-optimized storage keys.
pub type AssetId = u32;

/// A 32-byte account or contract identity, held as two 128-bit words.
#[derive(Clone, Copy, Debug, PartialEq, Eq, Structural)]
pub struct Address {
    pub hi: u128,
    pub lo: u128,
}

} // verus!
