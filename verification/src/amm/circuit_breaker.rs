//! On-chain spot price deviation circuit breaker.
//!
//! Freezes a pool's swaps when a single tick moves the spot price by more
//! than `max_deviation_bps`, and lifts the freeze automatically once
//! `cooldown_ledgers` ledgers have passed since the trip. Admins (or the
//! emergency admin) may freeze or unfreeze a pool manually.
use vstd::prelude::*;

use crate::admin::action_queue::{admin_error, check_admin};
use crate::contract::ContractData;
use crate::error::ContractError;
use crate::{Address, AssetId};

verus! {

/// Basis points scale (10,000 bps = 100 %).
pub const BPS_SCALE: u32 = 10_000;
/// Default maximum single-tick deviation: 1,500 bps = 15 %.
pub const DEFAULT_MAX_SPOT_DEVIATION_BPS: u32 = 1_500;
/// Default cooldown before trading resumes: 100 ledgers.
pub const DEFAULT_COOLDOWN_LEDGERS: u32 = 100;
/// Maximum allowable deviation setting: 5,000 bps = 50 %.
pub const MAX_DEVIATION_BPS_CEILING: u32 = 5_000;
/// Minimum allowable deviation setting: 1 bps.
pub const MIN_DEVIATION_BPS: u32 = 1;
/// Fixed-point scale (10^7) of spot prices.
pub const PRICE_SCALE: i128 = 10_000_000;

/// Global configuration of the spot price circuit breaker.
#[derive(Clone, Copy, Debug, PartialEq, Eq, Structural)]
pub struct SpotCircuitBreakerConfig {
    /// Maximum allowed single-tick deviation in basis points.
    pub max_deviation_bps: u32,
    /// Ledgers that must pass before a tripped pool resumes automatically.
    pub cooldown_ledgers: u32,
    /// Whether monitoring and enforcement are active.
    pub enabled: bool,
}

impl SpotCircuitBreakerConfig {
    /// 15 % deviation, 100-ledger cooldown, enabled.
    pub fn default() -> (r: Self)
        ensures
            r == (SpotCircuitBreakerConfig {
                max_deviation_bps: DEFAULT_MAX_SPOT_DEVIATION_BPS,
                cooldown_ledgers: DEFAULT_COOLDOWN_LEDGERS,
                enabled: true,
            }),
    {
        SpotCircuitBreakerConfig {
            max_deviation_bps: DEFAULT_MAX_SPOT_DEVIATION_BPS,
            cooldown_ledgers: DEFAULT_COOLDOWN_LEDGERS,
            enabled: true,
        }
    }
}

/// Last recorded spot price tick of a pool.
#[derive(Clone, Copy, Debug, PartialEq, Eq, Structural)]
pub struct SpotPriceTick {
    pub pool_id: AssetId,
    /// Spot price at `PRICE_SCALE`.
    pub last_price: i128,
    pub ledger_sequence: u32,
    pub timestamp: u64,
}

/// Circuit breaker state of an individual pool.
#[derive(Clone, Copy, Debug, PartialEq, Eq, Structural)]
pub struct PoolCircuitBreakerState {
    pub is_frozen: bool,
    pub frozen_at_ledger: u32,
    pub frozen_at_timestamp: u64,
    /// Deviation that triggered the freeze.
    pub breach_deviation_bps: u32,
    /// Baseline price before the breach.
    pub baseline_price: i128,
    /// Price that caused the breach.
    pub breach_price: i128,
    /// Who froze the pool manually (`None` when tripped automatically).
    pub frozen_by: Option<Address>,
}

impl PoolCircuitBreakerState {
    /// An unfrozen pool with no breach recorded.
    pub fn default() -> (r: Self)
        ensures
            r == (PoolCircuitBreakerState {
                is_frozen: false,
                frozen_at_ledger: 0,
                frozen_at_timestamp: 0,
                breach_deviation_bps: 0,
                baseline_price: 0,
                breach_price: 0,
                frozen_by: None,
            }),
    {
        PoolCircuitBreakerState {
            is_frozen: false,
            frozen_at_ledger: 0,
            frozen_at_timestamp: 0,
            breach_deviation_bps: 0,
            baseline_price: 0,
            breach_price: 0,
            frozen_by: None,
        }
    }
}

/// Storage keys of the circuit breaker subsystem.
#[derive(Clone, Copy, Debug, PartialEq, Eq, Structural)]
pub enum CircuitBreakerStorageKey {
    Config,
    LastSpotTick(AssetId),
    PoolState(AssetId),
}

/// Result of validating a circuit breaker configuration.
pub open spec fn spec_validate_circuit_breaker_config(cfg: SpotCircuitBreakerConfig) -> Result<(), ContractError> {
    if cfg.max_deviation_bps < MIN_DEVIATION_BPS || cfg.max_deviation_bps > MAX_DEVIATION_BPS_CEILING
        || cfg.cooldown_ledgers == 0 {
        Err(ContractError::InvalidCircuitBreakerConfig)
    } else {
        Ok(())
    }
}

/// `max_deviation_bps` must lie in `[1, 5000]` and the cooldown must be
/// positive.
pub fn validate_circuit_breaker_config(cfg: &SpotCircuitBreakerConfig) -> (r: Result<(), ContractError>)
    ensures
        r == spec_validate_circuit_breaker_config(*cfg),
{
    if cfg.max_deviation_bps < MIN_DEVIATION_BPS || cfg.max_deviation_bps > MAX_DEVIATION_BPS_CEILING {
        return Err(ContractError::InvalidCircuitBreakerConfig);
    }
    if cfg.cooldown_ledgers == 0 {
        return Err(ContractError::InvalidCircuitBreakerConfig);
    }
    Ok(())
}

/// The configuration `caller` stores as the circuit breaker's, once
/// validated.
pub fn set_circuit_breaker_config(
    data: Option<ContractData>,
    caller: Address,
    cfg: SpotCircuitBreakerConfig,
) -> (r: Result<SpotCircuitBreakerConfig, ContractError>)
    ensures
        match admin_error(data, caller) {
            Some(e) => r == Err::<SpotCircuitBreakerConfig, ContractError>(e),
            None => match spec_validate_circuit_breaker_config(cfg) {
                Err(e) => r == Err::<SpotCircuitBreakerConfig, ContractError>(e),
                Ok(_) => r == Ok::<SpotCircuitBreakerConfig, ContractError>(cfg),
            },
        },
{
    match check_admin(data, caller) {
        Err(e) => return Err(e),
        Ok(_) => {},
    }
    match validate_circuit_breaker_config(&cfg) {
        Err(e) => Err(e),
        Ok(()) => Ok(cfg),
    }
}

/// The circuit breaker configuration in force: the stored one, or the
/// default.
pub fn get_circuit_breaker_config(stored: Option<SpotCircuitBreakerConfig>) -> (r: SpotCircuitBreakerConfig)
    ensures
        r == (match stored {
            Some(c) => c,
            None => SpotCircuitBreakerConfig {
                max_deviation_bps: DEFAULT_MAX_SPOT_DEVIATION_BPS,
                cooldown_ledgers: DEFAULT_COOLDOWN_LEDGERS,
                enabled: true,
            },
        }),
{
    match stored {
        Some(c) => c,
        None => SpotCircuitBreakerConfig::default(),
    }
}

/// Absolute difference of two integers.
pub open spec fn abs_diff(x: int, y: int) -> int {
    if x >= y { x - y } else { y - x }
}

/// Result of [`calculate_price_deviation_bps`].
pub open spec fn spec_price_deviation_bps(baseline_price: i128, new_price: i128) -> Result<u32, ContractError> {
    if baseline_price <= 0 || new_price <= 0 {
        Err(ContractError::DivisionByZero)
    } else if abs_diff(new_price as int, baseline_price as int) * BPS_SCALE > u128::MAX {
        Err(ContractError::Overflow)
    } else if abs_diff(new_price as int, baseline_price as int) * BPS_SCALE / (baseline_price as int) > u32::MAX {
        Err(ContractError::Overflow)
    } else {
        Ok((abs_diff(new_price as int, baseline_price as int) * BPS_SCALE / (baseline_price as int)) as u32)
    }
}

/// `|new_price - baseline_price| * 10,000 / baseline_price`, both prices
/// strictly positive.
pub fn calculate_price_deviation_bps(baseline_price: i128, new_price: i128) -> (r: Result<u32, ContractError>)
    ensures
        r == spec_price_deviation_bps(baseline_price, new_price),
{
    if baseline_price <= 0 || new_price <= 0 {
        return Err(ContractError::DivisionByZero);
    }
    let delta = if new_price >= baseline_price {
        new_price - baseline_price
    } else {
        baseline_price - new_price
    };
    let scaled = match (delta as u128).checked_mul(BPS_SCALE as u128) {
        Some(v) => v,
        None => return Err(ContractError::Overflow),
    };
    let dev_bps = scaled / (baseline_price as u128);
    if dev_bps > u32::MAX as u128 {
        return Err(ContractError::Overflow);
    }
    Ok(dev_bps as u32)
}

/// Result of [`compute_spot_price_from_reserves`].
pub open spec fn spec_spot_price(reserve_a: u128, reserve_b: u128) -> Result<i128, ContractError> {
    if reserve_a == 0 || reserve_b == 0 {
        Err(ContractError::DivisionByZero)
    } else if reserve_b * PRICE_SCALE > u128::MAX {
        Err(ContractError::Overflow)
    } else if reserve_b * PRICE_SCALE / (reserve_a as int) > i128::MAX {
        Err(ContractError::Overflow)
    } else {
        Ok((reserve_b * PRICE_SCALE / (reserve_a as int)) as i128)
    }
}

/// Spot price `reserve_b * 10^7 / reserve_a` from pool reserves.
pub fn compute_spot_price_from_reserves(reserve_a: u128, reserve_b: u128) -> (r: Result<i128, ContractError>)
    ensures
        r == spec_spot_price(reserve_a, reserve_b),
{
    if reserve_a == 0 || reserve_b == 0 {
        return Err(ContractError::DivisionByZero);
    }
    let numerator = match reserve_b.checked_mul(PRICE_SCALE as u128) {
        Some(v) => v,
        None => return Err(ContractError::Overflow),
    };
    let price = numerator / reserve_a;
    if price > i128::MAX as u128 {
        return Err(ContractError::Overflow);
    }
    Ok(price as i128)
}

/// The ledger at which a frozen pool's cooldown ends (saturating).
pub open spec fn cooldown_target(state: PoolCircuitBreakerState, cfg: SpotCircuitBreakerConfig) -> int {
    if state.frozen_at_ledger + cfg.cooldown_ledgers > u32::MAX {
        u32::MAX as int
    } else {
        state.frozen_at_ledger + cfg.cooldown_ledgers
    }
}

/// Whether swaps are allowed at `cur_ledger`.
pub open spec fn spec_trading_allowed(state: PoolCircuitBreakerState, cfg: SpotCircuitBreakerConfig, cur_ledger: u32) -> bool {
    !state.is_frozen || cur_ledger >= cooldown_target(state, cfg)
}

/// Trading is allowed unless the pool is frozen and its cooldown has not
/// yet elapsed.
pub fn is_pool_trading_allowed(state: &PoolCircuitBreakerState, cfg: &SpotCircuitBreakerConfig, cur_ledger: u32) -> (r: bool)
    ensures
        r == spec_trading_allowed(*state, *cfg, cur_ledger),
{
    if !state.is_frozen {
        return true;
    }
    let target = state.frozen_at_ledger.saturating_add(cfg.cooldown_ledgers);
    cur_ledger >= target
}

/// What a spot price update produces: its result, the pool's new breaker
/// state and its new last tick.
#[derive(Clone, Copy, Debug)]
pub struct SpotPriceUpdate {
    pub result: Result<(), ContractError>,
    pub state: PoolCircuitBreakerState,
    pub last_tick: Option<SpotPriceTick>,
}

/// Monitor a new spot price for a pool.
///
/// - A frozen pool whose cooldown has elapsed is unfrozen and the price
///   becomes the new baseline; within the cooldown the update is rejected
///   with `CircuitBreakerTripped` and nothing changes.
/// - With the breaker disabled the tick is simply recorded.
/// - When the deviation from the previous tick exceeds `max_deviation_bps`
///   the pool is frozen (breach telemetry recorded, tick unchanged) and
///   `CircuitBreakerTripped` is returned.
/// - Otherwise the tick is updated.
pub fn check_and_update_spot_price(
    cfg: &SpotCircuitBreakerConfig,
    state: &PoolCircuitBreakerState,
    last_tick: &Option<SpotPriceTick>,
    pool_id: AssetId,
    current_spot_price: i128,
    cur_ledger: u32,
    cur_time: u64,
) -> (r: SpotPriceUpdate)
    ensures
        ({
            let new_tick = SpotPriceTick {
                pool_id,
                last_price: current_spot_price,
                ledger_sequence: cur_ledger,
                timestamp: cur_time,
            };
            if current_spot_price <= 0 {
                r == SpotPriceUpdate { result: Err(ContractError::DivisionByZero), state: *state, last_tick: *last_tick }
            } else if state.is_frozen {
                if cur_ledger >= cooldown_target(*state, *cfg) {
                    r == SpotPriceUpdate {
                        result: Ok(()),
                        state: PoolCircuitBreakerState { is_frozen: false, frozen_by: None, ..*state },
                        last_tick: Some(new_tick),
                    }
                } else {
                    r == SpotPriceUpdate { result: Err(ContractError::CircuitBreakerTripped), state: *state, last_tick: *last_tick }
                }
            } else if !cfg.enabled {
                r == SpotPriceUpdate { result: Ok(()), state: *state, last_tick: Some(new_tick) }
            } else {
                match *last_tick {
                    None => r == SpotPriceUpdate { result: Ok(()), state: *state, last_tick: Some(new_tick) },
                    Some(prev) => match spec_price_deviation_bps(prev.last_price, current_spot_price) {
                        Err(e) => r == SpotPriceUpdate { result: Err(e), state: *state, last_tick: *last_tick },
                        Ok(dev) => if dev > cfg.max_deviation_bps {
                            r == SpotPriceUpdate {
                                result: Err(ContractError::CircuitBreakerTripped),
                                state: PoolCircuitBreakerState {
                                    is_frozen: true,
                                    frozen_at_ledger: cur_ledger,
                                    frozen_at_timestamp: cur_time,
                                    breach_deviation_bps: dev,
                                    baseline_price: prev.last_price,
                                    breach_price: current_spot_price,
                                    frozen_by: None,
                                },
                                last_tick: *last_tick,
                            }
                        } else {
                            r == SpotPriceUpdate { result: Ok(()), state: *state, last_tick: Some(new_tick) }
                        },
                    },
                }
            }
        }),
{
    if current_spot_price <= 0 {
        return SpotPriceUpdate { result: Err(ContractError::DivisionByZero), state: *state, last_tick: *last_tick };
    }
    let new_tick = SpotPriceTick {
        pool_id,
        last_price: current_spot_price,
        ledger_sequence: cur_ledger,
        timestamp: cur_time,
    };
    if state.is_frozen {
        let target = state.frozen_at_ledger.saturating_add(cfg.cooldown_ledgers);
        if cur_ledger >= target {
            let mut next = *state;
            next.is_frozen = false;
            next.frozen_by = None;
            return SpotPriceUpdate { result: Ok(()), state: next, last_tick: Some(new_tick) };
        } else {
            return SpotPriceUpdate { result: Err(ContractError::CircuitBreakerTripped), state: *state, last_tick: *last_tick };
        }
    }
    if !cfg.enabled {
        return SpotPriceUpdate { result: Ok(()), state: *state, last_tick: Some(new_tick) };
    }
    if let Some(prev) = last_tick {
        let dev_bps = match calculate_price_deviation_bps(prev.last_price, current_spot_price) {
            Ok(d) => d,
            Err(e) => return SpotPriceUpdate { result: Err(e), state: *state, last_tick: *last_tick },
        };
        if dev_bps > cfg.max_deviation_bps {
            let tripped = PoolCircuitBreakerState {
                is_frozen: true,
                frozen_at_ledger: cur_ledger,
                frozen_at_timestamp: cur_time,
                breach_deviation_bps: dev_bps,
                baseline_price: prev.last_price,
                breach_price: current_spot_price,
                frozen_by: None,
            };
            return SpotPriceUpdate { result: Err(ContractError::CircuitBreakerTripped), state: tripped, last_tick: *last_tick };
        }
    }
    SpotPriceUpdate { result: Ok(()), state: *state, last_tick: Some(new_tick) }
}

/// Manually freeze a pool. Only the admin or the emergency admin may do so;
/// the last recorded price (0 when none) becomes both baseline and breach
/// price.
pub fn manual_freeze_pool(
    is_admin: bool,
    is_emergency_admin: bool,
    caller: Address,
    last_tick: &Option<SpotPriceTick>,
    cur_ledger: u32,
    cur_time: u64,
) -> (r: Result<PoolCircuitBreakerState, ContractError>)
    ensures
        !is_admin && !is_emergency_admin ==> r == Err::<PoolCircuitBreakerState, ContractError>(ContractError::NotAdmin),
        is_admin || is_emergency_admin ==> r == Ok::<PoolCircuitBreakerState, ContractError>(PoolCircuitBreakerState {
            is_frozen: true,
            frozen_at_ledger: cur_ledger,
            frozen_at_timestamp: cur_time,
            breach_deviation_bps: 0,
            baseline_price: match *last_tick { Some(t) => t.last_price, None => 0 },
            breach_price: match *last_tick { Some(t) => t.last_price, None => 0 },
            frozen_by: Some(caller),
        }),
{
    if !is_admin && !is_emergency_admin {
        return Err(ContractError::NotAdmin);
    }
    let last_price = match last_tick {
        Some(t) => t.last_price,
        None => 0,
    };
    Ok(PoolCircuitBreakerState {
        is_frozen: true,
        frozen_at_ledger: cur_ledger,
        frozen_at_timestamp: cur_time,
        breach_deviation_bps: 0,
        baseline_price: last_price,
        breach_price: last_price,
        frozen_by: Some(caller),
    })
}

/// Manually unfreeze a pool (admin or emergency admin): trading resumes at
/// once and the breach telemetry is kept. The last spot tick is dropped, so
/// the next observed price becomes a fresh baseline (as after an automatic
/// cooldown) instead of being measured against the pre-breach price.
/// Returns the new state and the new last tick.
pub fn manual_unfreeze_pool(
    is_admin: bool,
    is_emergency_admin: bool,
    state: &PoolCircuitBreakerState,
) -> (r: Result<(PoolCircuitBreakerState, Option<SpotPriceTick>), ContractError>)
    ensures
        !is_admin && !is_emergency_admin ==> r == Err::<(PoolCircuitBreakerState, Option<SpotPriceTick>), ContractError>(
            ContractError::NotAdmin,
        ),
        is_admin || is_emergency_admin ==> r == Ok::<(PoolCircuitBreakerState, Option<SpotPriceTick>), ContractError>(
            (PoolCircuitBreakerState { is_frozen: false, frozen_by: None, ..*state }, None),
        ),
{
    if !is_admin && !is_emergency_admin {
        return Err(ContractError::NotAdmin);
    }
    let mut next = *state;
    next.is_frozen = false;
    next.frozen_by = None;
    Ok((next, None))
}

/// A frozen pool may not trade before its cooldown target ledger and may
/// trade from that ledger on.
pub proof fn lemma_frozen_pool_rejects_until_cooldown(
    cfg: SpotCircuitBreakerConfig,
    state: PoolCircuitBreakerState,
    cur_ledger: u32,
)
    requires
        state.is_frozen,
    ensures
        cur_ledger < cooldown_target(state, cfg) ==> !spec_trading_allowed(state, cfg, cur_ledger),
        cur_ledger >= cooldown_target(state, cfg) ==> spec_trading_allowed(state, cfg, cur_ledger),
{
}

} // verus!
