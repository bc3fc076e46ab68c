//! Vault health monitoring.
//!
//! The health factor of an account is `collateral · threshold / debt` in
//! bps; an account whose factor lies in `(10 000, 11 000]` is close to
//! liquidation and raises a warning.
use vstd::prelude::*;

use crate::Address;

verus! {

/// Health factor of an account exactly at its liquidation threshold.
pub const HEALTH_FACTOR_SCALE: i128 = 10_000;
/// Health factor up to which a warning is raised.
pub const WARNING_HEALTH_FACTOR_BPS: i128 = 11_000;

/// Errors of the monitor.
#[derive(Clone, Copy, Debug, PartialEq, Eq, Structural)]
pub enum Error {
    AlreadyInitialized,
    NotInitialized,
    UnauthorizedVault,
    InvalidValue,
    ArithmeticOverflow,
}

/// Storage keys of the monitor.
#[derive(Clone, Copy, Debug, PartialEq, Eq, Structural)]
pub enum DataKey {
    Vault,
}

/// A warning that an account nears liquidation.
#[derive(Clone, Copy, Debug, PartialEq, Eq, Structural)]
pub struct VaultHealthWarning {
    pub vault: Address,
    pub account: Address,
    pub health_factor_bps: i128,
    pub liquidation_threshold_bps: i128,
    pub collateral_value: i128,
    pub debt_value: i128,
    pub timestamp: u64,
}

/// The vault health monitor contract.
pub struct VaultHealthMonitor;

/// The outcome of a health assessment.
#[derive(Clone, Copy, Debug, PartialEq, Eq, Structural)]
pub struct HealthAssessment {
    pub health_factor_bps: i128,
    /// The warning to announce, when the account nears liquidation.
    pub warning: Option<VaultHealthWarning>,
}

impl VaultHealthMonitor {
    /// The monitored vault recorded at initialization; `exists` says whether
    /// one is recorded.
    pub fn initialize(exists: bool, vault: Address) -> (r: Result<Address, Error>)
        ensures
            r == (if exists {
                Err::<Address, Error>(Error::AlreadyInitialized)
            } else {
                Ok::<Address, Error>(vault)
            }),
    {
        if exists {
            return Err(Error::AlreadyInitialized);
        }
        Ok(vault)
    }

    /// Assesses an account of the monitored vault at `now`.
    pub fn assess_vault_health(
        configured: Option<Address>,
        vault: Address,
        account: Address,
        collateral_value: i128,
        debt_value: i128,
        liquidation_threshold_bps: i128,
        now: u64,
    ) -> (r: Result<HealthAssessment, Error>)
        ensures
            configured is None ==> r == Err::<HealthAssessment, Error>(Error::NotInitialized),
            configured matches Some(v) ==> (v != vault ==> r == Err::<HealthAssessment, Error>(
                Error::UnauthorizedVault,
            )),
            configured == Some(vault) ==> r == (if collateral_value < 0 || debt_value <= 0
                || liquidation_threshold_bps <= 0 || liquidation_threshold_bps > HEALTH_FACTOR_SCALE {
                Err::<HealthAssessment, Error>(Error::InvalidValue)
            } else if collateral_value * liquidation_threshold_bps > i128::MAX {
                Err::<HealthAssessment, Error>(Error::ArithmeticOverflow)
            } else {
                let hf = (collateral_value * liquidation_threshold_bps / (debt_value as int)) as i128;
                Ok::<HealthAssessment, Error>(
                    HealthAssessment {
                        health_factor_bps: hf,
                        warning: if hf > HEALTH_FACTOR_SCALE && hf <= WARNING_HEALTH_FACTOR_BPS {
                            Some(
                                VaultHealthWarning {
                                    vault,
                                    account,
                                    health_factor_bps: hf,
                                    liquidation_threshold_bps,
                                    collateral_value,
                                    debt_value,
                                    timestamp: now,
                                },
                            )
                        } else {
                            None
                        },
                    },
                )
            }),
    {
        let v = match configured {
            None => return Err(Error::NotInitialized),
            Some(v) => v,
        };
        if vault != v {
            return Err(Error::UnauthorizedVault);
        }
        if collateral_value < 0 || debt_value <= 0 || liquidation_threshold_bps <= 0
            || liquidation_threshold_bps > HEALTH_FACTOR_SCALE {
            return Err(Error::InvalidValue);
        }
        let product = match collateral_value.checked_mul(liquidation_threshold_bps) {
            Some(p) => p,
            None => return Err(Error::ArithmeticOverflow),
        };
        let health_factor_bps = product / debt_value;
        let warning = if health_factor_bps > HEALTH_FACTOR_SCALE && health_factor_bps <= WARNING_HEALTH_FACTOR_BPS {
            Some(
                VaultHealthWarning {
                    vault,
                    account,
                    health_factor_bps,
                    liquidation_threshold_bps,
                    collateral_value,
                    debt_value,
                    timestamp: now,
                },
            )
        } else {
            None
        };
        Ok(HealthAssessment { health_factor_bps, warning })
    }
}

} // verus!
