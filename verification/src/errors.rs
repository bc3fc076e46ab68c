//! Shared error codes and proposal errors.
use vstd::prelude::*;

verus! {

/// Longest time (seconds) a proposal stays active: 7 days.
pub const PROPOSAL_EXPIRY_SECONDS: i64 = 604_800;

/// Errors of multi-signature proposals.
#[derive(Clone, Copy, Debug, PartialEq, Eq, Structural)]
pub enum ProposalError {
    /// The proposal expired before reaching its threshold.
    ProposalExpired,
}

/// Stable error codes shared across the protocol's contracts.
#[derive(Clone, Copy, Debug, PartialEq, Eq, Structural)]
pub enum ErrorCode {
    AlreadyInitialized,
    NotInitialized,
    ContractPaused,
    Unauthorized,
    InvalidSignature,
    AdminNotFound,
    NotAuthorizedProvider,
    InvalidArgument,
    InvalidAsset,
    AmountTooSmall,
    InvalidPriceBounds,
    InvalidProviderWeight,
    InsufficientBalance,
    InsufficientLiquidity,
    SlippageExceeded,
    FlashLoanProtectionTriggered,
    OracleStaleData,
    OracleFlashCrash,
    OracleDataMissing,
    ReentrancyDetected,
    CapacityExceeded,
    StorageError,
}

impl ErrorCode {
    /// The numeric code; the thousands digit names the category (1 state,
    /// 2 authorization, 3 validation, 4 balances, 5 oracle, 6 system).
    pub fn code(&self) -> (r: u32)
        ensures
            r == error_code_value(*self),
    {
        match self {
            ErrorCode::AlreadyInitialized => 1001,
            ErrorCode::NotInitialized => 1002,
            ErrorCode::ContractPaused => 1003,
            ErrorCode::Unauthorized => 2001,
            ErrorCode::InvalidSignature => 2002,
            ErrorCode::AdminNotFound => 2003,
            ErrorCode::NotAuthorizedProvider => 2004,
            ErrorCode::InvalidArgument => 3001,
            ErrorCode::InvalidAsset => 3002,
            ErrorCode::AmountTooSmall => 3003,
            ErrorCode::InvalidPriceBounds => 3004,
            ErrorCode::InvalidProviderWeight => 3005,
            ErrorCode::InsufficientBalance => 4001,
            ErrorCode::InsufficientLiquidity => 4002,
            ErrorCode::SlippageExceeded => 4003,
            ErrorCode::FlashLoanProtectionTriggered => 4004,
            ErrorCode::OracleStaleData => 5001,
            ErrorCode::OracleFlashCrash => 5002,
            ErrorCode::OracleDataMissing => 5003,
            ErrorCode::ReentrancyDetected => 6001,
            ErrorCode::CapacityExceeded => 6002,
            ErrorCode::StorageError => 6003,
        }
    }
}

/// The numeric code of an error.
pub open spec fn error_code_value(e: ErrorCode) -> u32 {
    match e {
        ErrorCode::AlreadyInitialized => 1001,
        ErrorCode::NotInitialized => 1002,
        ErrorCode::ContractPaused => 1003,
        ErrorCode::Unauthorized => 2001,
        ErrorCode::InvalidSignature => 2002,
        ErrorCode::AdminNotFound => 2003,
        ErrorCode::NotAuthorizedProvider => 2004,
        ErrorCode::InvalidArgument => 3001,
        ErrorCode::InvalidAsset => 3002,
        ErrorCode::AmountTooSmall => 3003,
        ErrorCode::InvalidPriceBounds => 3004,
        ErrorCode::InvalidProviderWeight => 3005,
        ErrorCode::InsufficientBalance => 4001,
        ErrorCode::InsufficientLiquidity => 4002,
        ErrorCode::SlippageExceeded => 4003,
        ErrorCode::FlashLoanProtectionTriggered => 4004,
        ErrorCode::OracleStaleData => 5001,
        ErrorCode::OracleFlashCrash => 5002,
        ErrorCode::OracleDataMissing => 5003,
        ErrorCode::ReentrancyDetected => 6001,
        ErrorCode::CapacityExceeded => 6002,
        ErrorCode::StorageError => 6003,
    }
}

/// Distinct errors have distinct codes.
pub proof fn lemma_error_codes_distinct(a: ErrorCode, b: ErrorCode)
    ensures
        error_code_value(a) == error_code_value(b) ==> a == b,
{
}

} // verus!
