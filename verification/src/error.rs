use vstd::prelude::*;

verus! {

/// Contract-wide error enum. Variants are grouped by concern:
/// initialisation and admin lifecycle, authorisation and signatures,
/// stakes and tiers, protocol logic, and module-specific errors.
#[derive(Copy, Clone, Debug, PartialEq, Eq, Structural)]
pub enum ContractError {
    AlreadyInitialized,
    NotInitialized,
    NotAdmin,
    NoPendingUpgrade,
    UpgradeTimelockNotSatisfied,
    InvalidHeartbeatInterval,
    InvalidNonce,
    AlreadyRegistered,
    NotRegistered,
    InvalidStakeAmount,
    Overflow,
    Unauthorized,
    TargetNotAdmin,
    ProposalAlreadyActive,
    NoActiveProposal,
    AlreadyVoted,
    ThresholdNotReached,
    SignatureExpired,
    InvalidSaltSignature,
    InsufficientStakeForTier,
    InvalidTierConfig,
    FeedAlreadyRegistered,
    PremiumPoolAccessDenied,
    TransferAlreadyPending,
    NoPendingOwner,
    FeeCeilingExceeded,
    DivisionByZero,
    StaleSequence,
    InvalidVarianceConfig,
    StaleTelemetryPayload,
    InsufficientReserveBalance,
    InsufficientVolume,
    InsufficientLiquidityDepth,
    ContractPaused,
    RevokedAddress,
    EmergencyRevocationActive,
    NoActiveEmergencyRevocation,
    BundleAssetLimitExceeded,
    BundleValidationFailed,
    IncompleteQuorum,
    EpochClosed,
    AdminChangePending,
    NoAdminChangePending,
    CosignerCannotBeProposer,
    AdminTimelockNotSatisfied,
    InsufficientBondForPenalty,
    SlippageExceeded,
    AmountTooLow,
    InvalidProof,
    ReentrancyDetected,
    MerkleTreeFull,
    NotSecurityCouncil,
    ProposalNotFound,
    ProposalNotVetoable,
    ProposalAlreadyVetoed,
    /// The AMM spot price deviates from the TWAP oracle value by more than
    /// the configured safety threshold.
    OracleDeviationTooHigh,
    /// An oracle deviation guard configuration violates its bounds.
    InvalidOracleDeviationConfig,
    /// AMM math was called with a structurally invalid input.
    InvalidInput,
    /// Circuit breaker configuration violates its structural invariants.
    InvalidCircuitBreakerConfig,
    /// Pool trading is frozen by the spot-price circuit breaker.
    CircuitBreakerTripped,
    InvalidTickSpacing,
    TickIndexAlreadyExists,
    TickIndexNotFound,
    TickNotAligned,
    TickOutOfBounds,
    TooManyTicks,
    ProtectedAssetNotRescueable,
    RescueProposalNotFound,
    RescueProposalNotPending,
    RescueTimelockNotExpired,
    /// A queued governance action was executed before its timelock elapsed.
    TimelockNotExpired,
    /// The offered transaction hash differs from the queued payload hash.
    PayloadHashMismatch,
    /// A fiat escrow's anchor-claim window has elapsed.
    DeadlineReached,
    /// A fiat escrow's anchor-claim window is still open.
    DeadlineNotReached,
    /// A governance proposal is already cancelled or executed.
    ProposalAlreadyCancelledOrExecuted,
    /// A concentrated liquidity position does not exist.
    PositionNotFound,
    /// A position's tick range is empty or inverted.
    InvalidTickRange,
    /// The caller does not own the position.
    PositionNotOwned,
    /// A position cannot be transferred to its current owner.
    PositionTransferToSelf,
    /// A position pledged as collateral cannot be transferred.
    PositionCollateralLocked,
    /// A position already exists for the tick range.
    PositionAlreadyExists,
    /// A bridge rolling rate limit must be strictly positive.
    InvalidBridgeRateLimit,
    /// A bridge mint or unlock would exceed the rolling 24h cap.
    BridgeRateLimitExceeded,
    /// A multi-sig threshold is zero or larger than the signer set.
    InvalidThreshold,
    /// A flash-loan arbitrage invariant was violated.
    FlashLoanArbitrageDetected,
}

impl ContractError {
    /// Arithmetic overflow in fee or balance bookkeeping.
    #[allow(non_upper_case_globals)]
    pub const MathOverflow: ContractError = ContractError::Overflow;
    /// Nullifier was already consumed.
    #[allow(non_upper_case_globals)]
    pub const NullifierAlreadyUsed: ContractError = ContractError::AlreadyRegistered;
    /// Wrapped asset is not registered.
    #[allow(non_upper_case_globals)]
    pub const BridgeAssetNotRegistered: ContractError = ContractError::NotRegistered;
    /// Wrapped asset max supply must be strictly positive.
    #[allow(non_upper_case_globals)]
    pub const BridgeInvalidMaxSupply: ContractError = ContractError::Overflow;
    /// Wrapped asset is already registered.
    #[allow(non_upper_case_globals)]
    pub const BridgeAssetAlreadyRegistered: ContractError = ContractError::AlreadyRegistered;
    /// Bridge amounts must be strictly positive.
    #[allow(non_upper_case_globals)]
    pub const BridgeInvalidAmount: ContractError = ContractError::AmountTooLow;
    /// Caller is not the asset's bridge controller.
    #[allow(non_upper_case_globals)]
    pub const BridgeNotController: ContractError = ContractError::Unauthorized;
    /// Mint would exceed the wrapped asset's max supply.
    #[allow(non_upper_case_globals)]
    pub const BridgeSupplyCapExceeded: ContractError = ContractError::Overflow;
    /// Burn or unlock exceeds the available balance.
    #[allow(non_upper_case_globals)]
    pub const BridgeInsufficientBalance: ContractError = ContractError::Overflow;
    /// The native bridge escrow has not been configured.
    #[allow(non_upper_case_globals)]
    pub const BridgeEscrowNotConfigured: ContractError = ContractError::NotInitialized;
    /// Canonical alias: operation failed due to insufficient token balance.
    #[allow(non_upper_case_globals)]
    pub const InsufficientBalance: ContractError = ContractError::InsufficientReserveBalance;
}

} // verus!
