//! Oracle price deviation guard.
//!
//! A swap is reverted when the spot price implied by the pool reserves
//! deviates from the TWAP oracle value by more than `max_deviation_bps`.
//! The guard fails open when disabled or when no usable TWAP exists.
use vstd::prelude::*;

use crate::amm::circuit_breaker::{
    calculate_price_deviation_bps, compute_spot_price_from_reserves, spec_price_deviation_bps, spec_spot_price,
};
use crate::admin::action_queue::{admin_error, check_admin};
use crate::contract::ContractData;
use crate::error::ContractError;
use crate::Address;

verus! {

/// Default maximum deviation: 500 bps = 5 %.
pub const DEFAULT_MAX_ORACLE_DEVIATION_BPS: u32 = 500;
/// Ceiling of `max_deviation_bps`: 5,000 bps = 50 %.
pub const MAX_ORACLE_DEVIATION_BPS: u32 = 5_000;
/// Floor of `max_deviation_bps`: 1 bps.
pub const MIN_ORACLE_DEVIATION_BPS: u32 = 1;

/// Governance-configurable parameters of the oracle deviation guard.
#[derive(Clone, Copy, Debug, PartialEq, Eq, Structural)]
pub struct OracleDeviationConfig {
    /// Maximum allowed spot-vs-TWAP deviation, in basis points.
    pub max_deviation_bps: u32,
    /// Whether the guard is enforced.
    pub enabled: bool,
}

impl OracleDeviationConfig {
    /// 5 % band, enabled.
    pub fn default() -> (r: Self)
        ensures
            r == (OracleDeviationConfig { max_deviation_bps: DEFAULT_MAX_ORACLE_DEVIATION_BPS, enabled: true }),
    {
        OracleDeviationConfig { max_deviation_bps: DEFAULT_MAX_ORACLE_DEVIATION_BPS, enabled: true }
    }
}

/// `max_deviation_bps` must lie in `[1, 5000]`.
pub fn validate_oracle_deviation_config(cfg: &OracleDeviationConfig) -> (r: Result<(), ContractError>)
    ensures
        r == (if cfg.max_deviation_bps < MIN_ORACLE_DEVIATION_BPS || cfg.max_deviation_bps > MAX_ORACLE_DEVIATION_BPS {
            Err(ContractError::InvalidOracleDeviationConfig)
        } else {
            Ok(())
        }),
{
    if cfg.max_deviation_bps < MIN_ORACLE_DEVIATION_BPS || cfg.max_deviation_bps > MAX_ORACLE_DEVIATION_BPS {
        return Err(ContractError::InvalidOracleDeviationConfig);
    }
    Ok(())
}

/// The oracle deviation configuration `caller` stores, once validated.
pub fn set_oracle_deviation_config(
    data: Option<ContractData>,
    caller: Address,
    cfg: OracleDeviationConfig,
) -> (r: Result<OracleDeviationConfig, ContractError>)
    ensures
        match admin_error(data, caller) {
            Some(e) => r == Err::<OracleDeviationConfig, ContractError>(e),
            None => r == (if cfg.max_deviation_bps < MIN_ORACLE_DEVIATION_BPS || cfg.max_deviation_bps
                > MAX_ORACLE_DEVIATION_BPS {
                Err::<OracleDeviationConfig, ContractError>(ContractError::InvalidOracleDeviationConfig)
            } else {
                Ok::<OracleDeviationConfig, ContractError>(cfg)
            }),
        },
{
    match check_admin(data, caller) {
        Err(e) => return Err(e),
        Ok(_) => {},
    }
    match validate_oracle_deviation_config(&cfg) {
        Err(e) => Err(e),
        Ok(()) => Ok(cfg),
    }
}

/// The oracle deviation configuration in force: the stored one, or the
/// 5 % default.
pub fn get_oracle_deviation_config(stored: Option<OracleDeviationConfig>) -> (r: OracleDeviationConfig)
    ensures
        r == (match stored {
            Some(c) => c,
            None => OracleDeviationConfig { max_deviation_bps: DEFAULT_MAX_ORACLE_DEVIATION_BPS, enabled: true },
        }),
{
    match stored {
        Some(c) => c,
        None => OracleDeviationConfig::default(),
    }
}

/// Result of [`enforce_oracle_deviation_guard`].
pub open spec fn spec_enforce_oracle_deviation_guard(cfg: OracleDeviationConfig, spot_price: i128, twap_price: Option<i128>) -> Result<(), ContractError> {
    if !cfg.enabled {
        Ok(())
    } else {
        match twap_price {
            None => Ok(()),
            Some(twap) => if twap <= 0 {
                Ok(())
            } else if spot_price <= 0 {
                Err(ContractError::DivisionByZero)
            } else {
                match spec_price_deviation_bps(twap, spot_price) {
                    Err(e) => Err(e),
                    Ok(dev) => if dev > cfg.max_deviation_bps {
                        Err(ContractError::OracleDeviationTooHigh)
                    } else {
                        Ok(())
                    },
                }
            },
        }
    }
}

/// Reject when `spot_price` deviates from the TWAP by more than the
/// configured threshold. Passes when the guard is disabled, when no TWAP
/// exists or when the TWAP is non-positive.
pub fn enforce_oracle_deviation_guard(cfg: &OracleDeviationConfig, spot_price: i128, twap_price: Option<i128>) -> (r: Result<(), ContractError>)
    ensures
        r == spec_enforce_oracle_deviation_guard(*cfg, spot_price, twap_price),
{
    if !cfg.enabled {
        return Ok(());
    }
    let twap = match twap_price {
        None => return Ok(()),
        Some(t) => t,
    };
    if twap <= 0 {
        return Ok(());
    }
    if spot_price <= 0 {
        return Err(ContractError::DivisionByZero);
    }
    let dev_bps = calculate_price_deviation_bps(twap, spot_price)?;
    if dev_bps > cfg.max_deviation_bps {
        return Err(ContractError::OracleDeviationTooHigh);
    }
    Ok(())
}

/// Derive the spot price from the reserves and enforce the deviation guard
/// against the TWAP; returns the spot price on success.
pub fn enforce_swap_oracle_guard(
    cfg: &OracleDeviationConfig,
    reserve_in: u128,
    reserve_out: u128,
    twap_price: Option<i128>,
) -> (r: Result<i128, ContractError>)
    ensures
        r == (match spec_spot_price(reserve_in, reserve_out) {
            Err(e) => Err(e),
            Ok(spot) => match spec_enforce_oracle_deviation_guard(*cfg, spot, twap_price) {
                Err(e) => Err(e),
                Ok(_) => Ok(spot),
            },
        }),
{
    let spot_price = compute_spot_price_from_reserves(reserve_in, reserve_out)?;
    enforce_oracle_deviation_guard(cfg, spot_price, twap_price)?;
    Ok(spot_price)
}

} // verus!
