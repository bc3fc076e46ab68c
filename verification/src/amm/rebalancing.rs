//! Automated liquidity pool reserve rebalancing.
//!
//! Authorized vault strategies may rebalance a pool (or one of their own
//! concentrated positions) back to a target reserve ratio, with every
//! internal swap held to a slippage bound, and may shift their positions to
//! a new tick range.
use vstd::prelude::*;

use crate::error::ContractError;
use crate::{Address, AssetId};

verus! {

/// Maximum slippage of rebalancing swaps: 100 bps = 1 %.
pub const MAX_REBALANCE_SLIPPAGE_BPS: u32 = 100;
/// Default target reserve ratio: 5000 bps = 50/50.
pub const TARGET_RATIO_BPS: u32 = 5000;
/// Deviation from the target that triggers a rebalance: 50 bps.
pub const REBALANCE_THRESHOLD_BPS: u32 = 50;
/// Maximum number of tick positions a vault strategy can manage.
pub const MAX_VAULT_TICK_POSITIONS: u32 = 10;

/// Storage key of a pool's rebalancing configuration.
#[derive(Clone, Copy, Debug, PartialEq, Eq, Structural)]
pub struct RebalanceConfigKey(pub AssetId);

/// Storage key of a vault strategy authorization.
#[derive(Clone, Copy, Debug, PartialEq, Eq, Structural)]
pub struct VaultStrategyKey(pub AssetId, pub Address);

/// Storage key of a tracked vault position.
#[derive(Clone, Copy, Debug, PartialEq, Eq, Structural)]
pub struct VaultPositionKey(pub AssetId, pub Address, pub i32, pub i32);

/// Configuration of automated rebalancing for a pool.
#[derive(Clone, Copy, Debug, PartialEq, Eq, Structural)]
pub struct RebalanceConfig {
    pub asset: AssetId,
    pub enabled: bool,
    /// Target share of token0 in the reserves, in bps (5000 = 50/50).
    pub target_ratio_bps: u32,
    /// Minimum deviation from the target that triggers a rebalance (bps).
    pub threshold_bps: u32,
    /// Maximum slippage allowed for rebalancing swaps (bps).
    pub max_slippage_bps: u32,
    /// Fee of rebalancing swaps (bps).
    pub rebalance_fee_bps: u32,
    /// Minimum time between rebalances (seconds).
    pub min_rebalance_interval: u64,
    /// Timestamp of the last rebalance.
    pub last_rebalance_at: u64,
}

impl RebalanceConfig {
    /// Disabled, 50/50 target, 50 bps threshold, 1 % slippage, 0.3 % fee,
    /// one-hour interval.
    pub fn default() -> (r: Self)
        ensures
            r == (RebalanceConfig {
                asset: 0,
                enabled: false,
                target_ratio_bps: TARGET_RATIO_BPS,
                threshold_bps: REBALANCE_THRESHOLD_BPS,
                max_slippage_bps: MAX_REBALANCE_SLIPPAGE_BPS,
                rebalance_fee_bps: 30,
                min_rebalance_interval: 3600,
                last_rebalance_at: 0,
            }),
    {
        RebalanceConfig {
            asset: 0,
            enabled: false,
            target_ratio_bps: TARGET_RATIO_BPS,
            threshold_bps: REBALANCE_THRESHOLD_BPS,
            max_slippage_bps: MAX_REBALANCE_SLIPPAGE_BPS,
            rebalance_fee_bps: 30,
            min_rebalance_interval: 3600,
            last_rebalance_at: 0,
        }
    }
}

/// Authorization record of a vault strategy.
#[derive(Clone, Copy, Debug, PartialEq, Eq, Structural)]
pub struct VaultStrategy {
    pub strategy: Address,
    pub authorized: bool,
    /// Maximum tick range width this strategy can manage.
    pub max_tick_range: i32,
    /// Maximum liquidity this strategy can deploy.
    pub max_liquidity: u64,
    pub authorized_at: u64,
}

/// A vault strategy's liquidity position within a tick range.
#[derive(Clone, Copy, Debug, PartialEq, Eq, Structural)]
pub struct VaultPosition {
    pub strategy: Address,
    pub lower_tick: i32,
    pub upper_tick: i32,
    pub liquidity: u64,
    pub reserve0: u128,
    pub reserve1: u128,
    pub updated_at: u64,
}

/// Result of a rebalancing operation.
#[derive(Clone, Copy, Debug, PartialEq, Eq, Structural)]
pub struct RebalanceResult {
    pub executed: bool,
    pub amount0_swapped: u128,
    pub amount1_swapped: u128,
    pub positions_adjusted: u32,
    pub gas_used: u64,
}

/// The global tick bounds of the pool's price range.
#[derive(Clone, Copy, Debug, PartialEq, Eq, Structural)]
pub struct TickBounds {
    pub min_tick: i32,
    pub max_tick: i32,
}

/// A result that reports that nothing was rebalanced.
pub open spec fn not_executed() -> RebalanceResult {
    RebalanceResult { executed: false, amount0_swapped: 0, amount1_swapped: 0, positions_adjusted: 0, gas_used: 0 }
}

/// Result of [`compute_reserve_ratio`].
pub open spec fn spec_reserve_ratio(reserve0: u128, reserve1: u128) -> Result<u32, ContractError> {
    if reserve0 + reserve1 > u128::MAX {
        Err(ContractError::Overflow)
    } else if reserve0 + reserve1 == 0 {
        Err(ContractError::DivisionByZero)
    } else if reserve0 * 10_000 > u128::MAX {
        Err(ContractError::Overflow)
    } else {
        Ok((reserve0 * 10_000 / (reserve0 + reserve1)) as u32)
    }
}

/// Share of token0 in the reserves, in bps: `reserve0 * 10000 / (reserve0 + reserve1)`.
pub fn compute_reserve_ratio(reserve0: u128, reserve1: u128) -> (r: Result<u32, ContractError>)
    ensures
        r == spec_reserve_ratio(reserve0, reserve1),
        r is Ok ==> r->Ok_0 <= 10_000,
{
    let total = match reserve0.checked_add(reserve1) {
        Some(t) => t,
        None => return Err(ContractError::Overflow),
    };
    if total == 0 {
        return Err(ContractError::DivisionByZero);
    }
    let scaled = match reserve0.checked_mul(10_000) {
        Some(v) => v,
        None => return Err(ContractError::Overflow),
    };
    let ratio = scaled / total;
    assert(ratio <= 10_000) by (nonlinear_arith)
        requires ratio == scaled / total, scaled == reserve0 * 10_000, reserve0 <= total, total > 0;
    Ok(ratio as u32)
}

/// Absolute difference of two integers.
pub open spec fn abs_diff(x: int, y: int) -> int {
    if x > y { x - y } else { y - x }
}

/// Result of [`should_rebalance`].
pub open spec fn spec_should_rebalance(reserve0: u128, reserve1: u128, target_ratio_bps: u32, threshold_bps: u32) -> Result<bool, ContractError> {
    match spec_reserve_ratio(reserve0, reserve1) {
        Err(e) => Err(e),
        Ok(ratio) => Ok(abs_diff(ratio as int, target_ratio_bps as int) >= threshold_bps),
    }
}

/// Whether the reserve ratio deviates from the target by at least the
/// threshold.
pub fn should_rebalance(reserve0: u128, reserve1: u128, target_ratio_bps: u32, threshold_bps: u32) -> (r: Result<bool, ContractError>)
    ensures
        r == spec_should_rebalance(reserve0, reserve1, target_ratio_bps, threshold_bps),
{
    let current_ratio = compute_reserve_ratio(reserve0, reserve1)?;
    let diff = if current_ratio > target_ratio_bps {
        current_ratio - target_ratio_bps
    } else {
        target_ratio_bps - current_ratio
    };
    Ok(diff >= threshold_bps)
}

/// Result of [`compute_swap_out`].
pub open spec fn spec_swap_out(amount_in: u128, reserve_in: u128, reserve_out: u128) -> Result<u128, ContractError> {
    if reserve_in + amount_in > u128::MAX || amount_in * reserve_out > u128::MAX {
        Err(ContractError::Overflow)
    } else if reserve_in + amount_in == 0 {
        Err(ContractError::DivisionByZero)
    } else {
        Ok((amount_in * reserve_out / (reserve_in + amount_in)) as u128)
    }
}

/// Constant-product swap output (no fee):
/// `amount_in * reserve_out / (reserve_in + amount_in)`.
pub fn compute_swap_out(amount_in: u128, reserve_in: u128, reserve_out: u128) -> (r: Result<u128, ContractError>)
    ensures
        r == spec_swap_out(amount_in, reserve_in, reserve_out),
{
    let denominator = match reserve_in.checked_add(amount_in) {
        Some(d) => d,
        None => return Err(ContractError::Overflow),
    };
    let numerator = match amount_in.checked_mul(reserve_out) {
        Some(n) => n,
        None => return Err(ContractError::Overflow),
    };
    if denominator == 0 {
        return Err(ContractError::DivisionByZero);
    }
    Ok(numerator / denominator)
}

/// Target token0 reserve for a total and a target ratio.
pub open spec fn target_reserve0(total: int, target_ratio_bps: u32) -> int {
    total * target_ratio_bps / 10_000
}

/// Result of [`calculate_rebalance_amounts`].
pub open spec fn spec_rebalance_amounts(reserve0: u128, reserve1: u128, target_ratio_bps: u32) -> Result<(u128, u128, bool), ContractError> {
    let total = reserve0 + reserve1;
    if total > u128::MAX {
        Err(ContractError::Overflow)
    } else if total == 0 {
        Err(ContractError::DivisionByZero)
    } else if total * target_ratio_bps > u128::MAX {
        Err(ContractError::Overflow)
    } else {
        let t0 = target_reserve0(total, target_ratio_bps);
        match spec_reserve_ratio(reserve0, reserve1) {
            Err(e) => Err(e),
            Ok(ratio) => if ratio > target_ratio_bps {
                if reserve0 < t0 {
                    Err(ContractError::Overflow)
                } else {
                    match spec_swap_out((reserve0 - t0) as u128, reserve0, reserve1) {
                        Err(e) => Err(e),
                        Ok(out1) => Ok(((reserve0 - t0) as u128, out1, true)),
                    }
                }
            } else {
                if total < t0 || reserve1 < total - t0 {
                    Err(ContractError::Overflow)
                } else {
                    match spec_swap_out((reserve1 - (total - t0)) as u128, reserve1, reserve0) {
                        Err(e) => Err(e),
                        Ok(out0) => Ok((out0, (reserve1 - (total - t0)) as u128, false)),
                    }
                }
            },
        }
    }
}

/// Amounts that restore the target ratio: `(amount0, amount1, direction)`
/// where `direction == true` swaps the token0 surplus for token1 and
/// `false` swaps the token1 surplus for token0.
pub fn calculate_rebalance_amounts(reserve0: u128, reserve1: u128, target_ratio_bps: u32) -> (r: Result<(u128, u128, bool), ContractError>)
    ensures
        r == spec_rebalance_amounts(reserve0, reserve1, target_ratio_bps),
{
    let total = match reserve0.checked_add(reserve1) {
        Some(t) => t,
        None => return Err(ContractError::Overflow),
    };
    if total == 0 {
        return Err(ContractError::DivisionByZero);
    }
    let t0 = match total.checked_mul(target_ratio_bps as u128) {
        Some(v) => v / 10_000,
        None => return Err(ContractError::Overflow),
    };
    let current_ratio = compute_reserve_ratio(reserve0, reserve1)?;
    if current_ratio > target_ratio_bps {
        let excess0 = match reserve0.checked_sub(t0) {
            Some(v) => v,
            None => return Err(ContractError::Overflow),
        };
        let amount1_out = compute_swap_out(excess0, reserve0, reserve1)?;
        Ok((excess0, amount1_out, true))
    } else {
        let target_reserve1 = match total.checked_sub(t0) {
            Some(v) => v,
            None => return Err(ContractError::Overflow),
        };
        let excess1 = match reserve1.checked_sub(target_reserve1) {
            Some(v) => v,
            None => return Err(ContractError::Overflow),
        };
        let amount0_out = compute_swap_out(excess1, reserve1, reserve0)?;
        Ok((amount0_out, excess1, false))
    }
}

/// Minimum acceptable output of a rebalancing swap.
pub open spec fn spec_min_out(expected_out: u128, max_slippage_bps: u32) -> Result<u128, ContractError> {
    if expected_out * (10_000 - max_slippage_bps) > u128::MAX {
        Err(ContractError::Overflow)
    } else {
        Ok((expected_out * (10_000 - max_slippage_bps) / 10_000) as u128)
    }
}

/// `expected_out * (10000 - max_slippage_bps) / 10000`.
pub fn min_amount_out(expected_out: u128, max_slippage_bps: u32) -> (r: Result<u128, ContractError>)
    requires
        max_slippage_bps <= 10_000,
    ensures
        r == spec_min_out(expected_out, max_slippage_bps),
        r is Ok ==> r->Ok_0 <= expected_out,
{
    match expected_out.checked_mul(10_000 - max_slippage_bps as u128) {
        Some(v) => {
            assert(v / 10_000 <= expected_out) by (nonlinear_arith)
                requires v == expected_out * (10_000 - max_slippage_bps), max_slippage_bps <= 10_000;
            Ok(v / 10_000)
        },
        None => Err(ContractError::Overflow),
    }
}

/// What a pool rebalance has to do.
#[derive(Clone, Copy, Debug, PartialEq, Eq, Structural)]
pub enum RebalancePlan {
    /// Nothing to do (disabled, too soon, or within the threshold).
    Skip,
    /// Swap `amount_in` in the given direction, receiving at least
    /// `min_amount_out`; `amount0`/`amount1` are the computed amounts.
    Swap { amount0: u128, amount1: u128, token0_to_token1: bool, amount_in: u128, min_amount_out: u128 },
}

/// Result of [`plan_rebalance`].
pub open spec fn spec_plan_rebalance(config: RebalanceConfig, caller_authorized: bool, now: u64, reserve0: u128, reserve1: u128) -> Result<RebalancePlan, ContractError> {
    if !config.enabled {
        Ok(RebalancePlan::Skip)
    } else if !caller_authorized {
        Err(ContractError::Unauthorized)
    } else if (if now >= config.last_rebalance_at { now - config.last_rebalance_at } else { 0 }) < config.min_rebalance_interval {
        Ok(RebalancePlan::Skip)
    } else {
        match spec_should_rebalance(reserve0, reserve1, config.target_ratio_bps, config.threshold_bps) {
            Err(e) => Err(e),
            Ok(false) => Ok(RebalancePlan::Skip),
            Ok(true) => match spec_rebalance_amounts(reserve0, reserve1, config.target_ratio_bps) {
                Err(e) => Err(e),
                Ok((a0, a1, dir)) => match spec_min_out(if dir { a1 } else { a0 }, config.max_slippage_bps) {
                    Err(e) => Err(e),
                    Ok(m) => Ok(RebalancePlan::Swap {
                        amount0: a0,
                        amount1: a1,
                        token0_to_token1: dir,
                        amount_in: if dir { a0 } else { a1 },
                        min_amount_out: m,
                    }),
                },
            },
        }
    }
}

/// Whether a pool rebalance gets as far as its slippage floor: enabled,
/// authorized, due, outside the threshold, with its amounts computed. The
/// floor `10000 - max_slippage_bps` must then not go below zero.
pub open spec fn rebalance_reaches_floor(config: RebalanceConfig, caller_authorized: bool, now: u64, reserve0: u128, reserve1: u128) -> bool {
    &&& config.enabled
    &&& caller_authorized
    &&& (if now >= config.last_rebalance_at { now - config.last_rebalance_at } else { 0 }) >= config.min_rebalance_interval
    &&& spec_should_rebalance(reserve0, reserve1, config.target_ratio_bps, config.threshold_bps) == Ok::<bool, ContractError>(true)
    &&& spec_rebalance_amounts(reserve0, reserve1, config.target_ratio_bps) is Ok
}

/// Decide a pool rebalance: skip when disabled, when the minimum interval
/// has not passed since the last rebalance, or when the ratio is within the
/// threshold; reject callers that are not an authorized vault strategy;
/// otherwise compute the swap and its slippage floor.
pub fn plan_rebalance(config: &RebalanceConfig, caller_authorized: bool, now: u64, reserve0: u128, reserve1: u128) -> (r: Result<RebalancePlan, ContractError>)
    requires
        rebalance_reaches_floor(*config, caller_authorized, now, reserve0, reserve1) ==> config.max_slippage_bps <= 10_000,
    ensures
        r == spec_plan_rebalance(*config, caller_authorized, now, reserve0, reserve1),
{
    if !config.enabled {
        return Ok(RebalancePlan::Skip);
    }
    if !caller_authorized {
        return Err(ContractError::Unauthorized);
    }
    if now.saturating_sub(config.last_rebalance_at) < config.min_rebalance_interval {
        return Ok(RebalancePlan::Skip);
    }
    if !should_rebalance(reserve0, reserve1, config.target_ratio_bps, config.threshold_bps)? {
        return Ok(RebalancePlan::Skip);
    }
    let (a0, a1, dir) = calculate_rebalance_amounts(reserve0, reserve1, config.target_ratio_bps)?;
    let m = min_amount_out(if dir { a1 } else { a0 }, config.max_slippage_bps)?;
    Ok(RebalancePlan::Swap { amount0: a0, amount1: a1, token0_to_token1: dir, amount_in: if dir { a0 } else { a1 }, min_amount_out: m })
}

/// Result of [`finish_rebalance`].
pub open spec fn spec_finish_rebalance(config: RebalanceConfig, plan: RebalancePlan, amount_out: u128, now: u64) -> Result<(RebalanceResult, RebalanceConfig), ContractError> {
    match plan {
        RebalancePlan::Skip => Ok((not_executed(), config)),
        RebalancePlan::Swap { amount0, amount1, token0_to_token1, amount_in, min_amount_out } =>
            if amount_out < min_amount_out {
                Err(ContractError::SlippageExceeded)
            } else {
                Ok((RebalanceResult {
                    executed: true,
                    amount0_swapped: if token0_to_token1 { amount0 } else { amount_out },
                    amount1_swapped: if token0_to_token1 { amount_out } else { amount1 },
                    positions_adjusted: 0,
                    gas_used: 0,
                }, RebalanceConfig { last_rebalance_at: now, ..config }))
            },
    }
}

/// Complete a pool rebalance once the swap returned `amount_out`: outputs
/// below the slippage floor are rejected; otherwise the result records the
/// swapped amounts and the configuration records `now` as the last
/// rebalance time.
pub fn finish_rebalance(config: &RebalanceConfig, plan: &RebalancePlan, amount_out: u128, now: u64) -> (r: Result<(RebalanceResult, RebalanceConfig), ContractError>)
    ensures
        r == spec_finish_rebalance(*config, *plan, amount_out, now),
{
    match plan {
        RebalancePlan::Skip => Ok((
            RebalanceResult { executed: false, amount0_swapped: 0, amount1_swapped: 0, positions_adjusted: 0, gas_used: 0 },
            *config,
        )),
        RebalancePlan::Swap { amount0, amount1, token0_to_token1, amount_in: _, min_amount_out } => {
            if amount_out < *min_amount_out {
                return Err(ContractError::SlippageExceeded);
            }
            let mut next = *config;
            next.last_rebalance_at = now;
            Ok((RebalanceResult {
                executed: true,
                amount0_swapped: if *token0_to_token1 { *amount0 } else { amount_out },
                amount1_swapped: if *token0_to_token1 { amount_out } else { *amount1 },
                positions_adjusted: 0,
                gas_used: 0,
            }, next))
        },
    }
}

/// Result of [`plan_vault_position_rebalance`].
pub open spec fn spec_plan_vault_position_rebalance(
    vault: Option<VaultStrategy>,
    config: Option<RebalanceConfig>,
    position: Option<VaultPosition>,
    pool_reserve0: u128,
    pool_reserve1: u128,
) -> Result<RebalancePlan, ContractError> {
    match vault {
        None => Err(ContractError::NotRegistered),
        Some(v) => if !v.authorized {
            Err(ContractError::Unauthorized)
        } else {
            match config {
                None => Err(ContractError::NotInitialized),
                Some(c) => match position {
                    None => Err(ContractError::NotRegistered),
                    Some(p) => match spec_reserve_ratio(p.reserve0, p.reserve1) {
                        Err(e) => Err(e),
                        Ok(ratio) => if abs_diff(ratio as int, c.target_ratio_bps as int) < c.threshold_bps {
                            Ok(RebalancePlan::Skip)
                        } else {
                            let total = p.reserve0 + p.reserve1;
                            if total * c.target_ratio_bps > u128::MAX {
                                Err(ContractError::Overflow)
                            } else {
                                let t0 = target_reserve0(total, c.target_ratio_bps);
                                if p.reserve0 > t0 {
                                    match spec_swap_out((p.reserve0 - t0) as u128, pool_reserve0, pool_reserve1) {
                                        Err(e) => Err(e),
                                        Ok(a1) => match spec_min_out(a1, c.max_slippage_bps) {
                                            Err(e) => Err(e),
                                            Ok(m) => Ok(RebalancePlan::Swap {
                                                amount0: (p.reserve0 - t0) as u128,
                                                amount1: a1,
                                                token0_to_token1: true,
                                                amount_in: if (p.reserve0 - t0) >= a1 { (p.reserve0 - t0) as u128 } else { a1 },
                                                min_amount_out: m,
                                            }),
                                        },
                                    }
                                } else {
                                    match spec_swap_out((t0 - p.reserve0) as u128, pool_reserve1, pool_reserve0) {
                                        Err(e) => Err(e),
                                        Ok(a0) => match spec_min_out(a0, c.max_slippage_bps) {
                                            Err(e) => Err(e),
                                            Ok(m) => Ok(RebalancePlan::Swap {
                                                amount0: a0,
                                                amount1: (t0 - p.reserve0) as u128,
                                                token0_to_token1: false,
                                                amount_in: if a0 >= (t0 - p.reserve0) { a0 } else { (t0 - p.reserve0) as u128 },
                                                min_amount_out: m,
                                            }),
                                        },
                                    }
                                }
                            }
                        },
                    },
                },
            }
        },
    }
}

/// Whether a vault position rebalance gets as far as splitting the
/// position: the strategy is registered and authorized, the pool configured,
/// the position known and outside the threshold, and its target reserve
/// computed.
pub open spec fn vault_rebalance_reaches_split(vault: Option<VaultStrategy>, config: Option<RebalanceConfig>, position: Option<VaultPosition>) -> bool {
    &&& vault matches Some(v) && v.authorized
    &&& config is Some
    &&& position is Some
    &&& spec_reserve_ratio(position->0.reserve0, position->0.reserve1) is Ok
    &&& abs_diff(spec_reserve_ratio(position->0.reserve0, position->0.reserve1)->Ok_0 as int, config->0.target_ratio_bps as int)
        >= config->0.threshold_bps
    &&& (position->0.reserve0 + position->0.reserve1) * config->0.target_ratio_bps <= u128::MAX
}

/// The inputs on which a vault position rebalance stays within range: once
/// it splits the position, the target token0 reserve may exceed the
/// position only while token0 is in surplus, and once the swap is quoted
/// the slippage floor `10000 - max_slippage_bps` must not go below zero.
pub open spec fn vault_rebalance_in_range(
    vault: Option<VaultStrategy>,
    config: Option<RebalanceConfig>,
    position: Option<VaultPosition>,
    pool_reserve0: u128,
    pool_reserve1: u128,
) -> bool {
    vault_rebalance_reaches_split(vault, config, position) ==> {
        let c = config->0;
        let p = position->0;
        let total = p.reserve0 + p.reserve1;
        let t0 = target_reserve0(total, c.target_ratio_bps);
        &&& (p.reserve0 <= t0 ==> t0 <= total)
        &&& ((if p.reserve0 > t0 {
            spec_swap_out((p.reserve0 - t0) as u128, pool_reserve0, pool_reserve1)
        } else {
            spec_swap_out((t0 - p.reserve0) as u128, pool_reserve1, pool_reserve0)
        }) is Ok ==> c.max_slippage_bps <= 10_000)
    }
}

/// Decide the rebalance of one vault position's single-sided surplus: the
/// strategy must be registered and authorized, the pool configured and the
/// position known; positions within the threshold are skipped; otherwise the
/// surplus side is swapped against the pool reserves.
pub fn plan_vault_position_rebalance(
    vault: &Option<VaultStrategy>,
    config: &Option<RebalanceConfig>,
    position: &Option<VaultPosition>,
    pool_reserve0: u128,
    pool_reserve1: u128,
) -> (r: Result<RebalancePlan, ContractError>)
    requires
        vault_rebalance_in_range(*vault, *config, *position, pool_reserve0, pool_reserve1),
    ensures
        r == spec_plan_vault_position_rebalance(*vault, *config, *position, pool_reserve0, pool_reserve1),
{
    let v = match vault {
        None => return Err(ContractError::NotRegistered),
        Some(v) => v,
    };
    if !v.authorized {
        return Err(ContractError::Unauthorized);
    }
    let c = match config {
        None => return Err(ContractError::NotInitialized),
        Some(c) => c,
    };
    let p = match position {
        None => return Err(ContractError::NotRegistered),
        Some(p) => p,
    };
    let position_ratio = compute_reserve_ratio(p.reserve0, p.reserve1)?;
    let target = c.target_ratio_bps;
    let diff = if position_ratio > target { position_ratio - target } else { target - position_ratio };
    if diff < c.threshold_bps {
        return Ok(RebalancePlan::Skip);
    }
    let pos_total = p.reserve0 + p.reserve1;
    let t0 = match pos_total.checked_mul(target as u128) {
        Some(v) => v / 10_000,
        None => return Err(ContractError::Overflow),
    };
    if p.reserve0 > t0 {
        let excess = p.reserve0 - t0;
        let a1 = compute_swap_out(excess, pool_reserve0, pool_reserve1)?;
        let m = min_amount_out(a1, c.max_slippage_bps)?;
        Ok(RebalancePlan::Swap {
            amount0: excess,
            amount1: a1,
            token0_to_token1: true,
            amount_in: if excess >= a1 { excess } else { a1 },
            min_amount_out: m,
        })
    } else {
        let target_reserve1 = pos_total - t0;
        let excess = p.reserve1 - target_reserve1;
        let a0 = compute_swap_out(excess, pool_reserve1, pool_reserve0)?;
        let m = min_amount_out(a0, c.max_slippage_bps)?;
        Ok(RebalancePlan::Swap {
            amount0: a0,
            amount1: excess,
            token0_to_token1: false,
            amount_in: if a0 >= excess { a0 } else { excess },
            min_amount_out: m,
        })
    }
}

/// Result of [`finish_vault_position_rebalance`].
pub open spec fn spec_finish_vault_position_rebalance(plan: RebalancePlan, amount_out: u128) -> Result<RebalanceResult, ContractError> {
    match plan {
        RebalancePlan::Skip => Ok(not_executed()),
        RebalancePlan::Swap { amount0, amount1, token0_to_token1, amount_in, min_amount_out } =>
            if amount_out < min_amount_out {
                Err(ContractError::SlippageExceeded)
            } else {
                Ok(RebalanceResult {
                    executed: true,
                    amount0_swapped: amount0,
                    amount1_swapped: amount1,
                    positions_adjusted: 1,
                    gas_used: 0,
                })
            },
    }
}

/// Complete a vault position rebalance once the swap returned
/// `amount_out`: below the slippage floor it is rejected, otherwise the
/// planned amounts are reported with one position adjusted.
pub fn finish_vault_position_rebalance(plan: &RebalancePlan, amount_out: u128) -> (r: Result<RebalanceResult, ContractError>)
    ensures
        r == spec_finish_vault_position_rebalance(*plan, amount_out),
{
    match plan {
        RebalancePlan::Skip => Ok(RebalanceResult { executed: false, amount0_swapped: 0, amount1_swapped: 0, positions_adjusted: 0, gas_used: 0 }),
        RebalancePlan::Swap { amount0, amount1, token0_to_token1: _, amount_in: _, min_amount_out } => {
            if amount_out < *min_amount_out {
                return Err(ContractError::SlippageExceeded);
            }
            Ok(RebalanceResult { executed: true, amount0_swapped: *amount0, amount1_swapped: *amount1, positions_adjusted: 1, gas_used: 0 })
        },
    }
}

/// Rebalance a pool back to its target ratio. `swap` performs the swap
/// across the pool's ticks: it is handed the amount in, the direction
/// (`true`: token0 for token1) and the rebalance fee, and returns the amount
/// out. Returns the result and the configuration to store.
pub fn execute_rebalance<F: Fn(u128, bool, u32) -> u128>(
    config: &RebalanceConfig,
    caller_authorized: bool,
    now: u64,
    reserve0: u128,
    reserve1: u128,
    swap: F,
) -> (r: Result<(RebalanceResult, RebalanceConfig), ContractError>)
    requires
        rebalance_reaches_floor(*config, caller_authorized, now, reserve0, reserve1) ==> config.max_slippage_bps <= 10_000,
        forall|a: u128, d: bool, f: u32| call_requires(swap, (a, d, f)),
    ensures
        match spec_plan_rebalance(*config, caller_authorized, now, reserve0, reserve1) {
            Err(e) => r == Err::<(RebalanceResult, RebalanceConfig), ContractError>(e),
            Ok(plan) => match plan {
                RebalancePlan::Skip => r == spec_finish_rebalance(*config, plan, 0, now),
                RebalancePlan::Swap { token0_to_token1, amount_in, .. } => exists|out: u128|
                    call_ensures(swap, (amount_in, token0_to_token1, config.rebalance_fee_bps), out)
                        && r == spec_finish_rebalance(*config, plan, out, now),
            },
        },
{
    let plan = plan_rebalance(config, caller_authorized, now, reserve0, reserve1)?;
    match plan {
        RebalancePlan::Skip => finish_rebalance(config, &plan, 0, now),
        RebalancePlan::Swap { amount0: _, amount1: _, token0_to_token1, amount_in, min_amount_out: _ } => {
            let out = swap(amount_in, token0_to_token1, config.rebalance_fee_bps);
            let r = finish_rebalance(config, &plan, out, now);
            assert(call_ensures(swap, (amount_in, token0_to_token1, config.rebalance_fee_bps), out)
                && r == spec_finish_rebalance(*config, plan, out, now));
            r
        },
    }
}

/// Rebalance one vault position's single-sided surplus. `swap` performs the
/// swap across the pool's ticks as in [`execute_rebalance`]; its output is
/// held to the slippage floor, and the amounts reported are those computed
/// against the pool reserves.
pub fn rebalance_vault_position<F: Fn(u128, bool, u32) -> u128>(
    vault: &Option<VaultStrategy>,
    config: &Option<RebalanceConfig>,
    position: &Option<VaultPosition>,
    pool_reserve0: u128,
    pool_reserve1: u128,
    swap: F,
) -> (r: Result<RebalanceResult, ContractError>)
    requires
        vault_rebalance_in_range(*vault, *config, *position, pool_reserve0, pool_reserve1),
        forall|a: u128, d: bool, f: u32| call_requires(swap, (a, d, f)),
    ensures
        match spec_plan_vault_position_rebalance(*vault, *config, *position, pool_reserve0, pool_reserve1) {
            Err(e) => r == Err::<RebalanceResult, ContractError>(e),
            Ok(plan) => match plan {
                RebalancePlan::Skip => r == Ok::<RebalanceResult, ContractError>(not_executed()),
                RebalancePlan::Swap { token0_to_token1, amount_in, .. } => exists|out: u128|
                    call_ensures(swap, (amount_in, token0_to_token1, config.unwrap().rebalance_fee_bps), out)
                        && r == spec_finish_vault_position_rebalance(plan, out),
            },
        },
{
    let plan = plan_vault_position_rebalance(vault, config, position, pool_reserve0, pool_reserve1)?;
    match plan {
        RebalancePlan::Skip => finish_vault_position_rebalance(&plan, 0),
        RebalancePlan::Swap { amount0: _, amount1: _, token0_to_token1, amount_in, min_amount_out: _ } => {
            let fee_bps = match config {
                Some(c) => c.rebalance_fee_bps,
                None => 0,
            };
            let out = swap(amount_in, token0_to_token1, fee_bps);
            let r = finish_vault_position_rebalance(&plan, out);
            assert(call_ensures(swap, (amount_in, token0_to_token1, config.unwrap().rebalance_fee_bps), out)
                && r == spec_finish_vault_position_rebalance(plan, out));
            r
        },
    }
}

/// A freshly authorized vault strategy record.
pub fn authorize_vault_strategy(strategy: Address, max_tick_range: i32, max_liquidity: u64, now: u64) -> (r: VaultStrategy)
    ensures
        r == (VaultStrategy { strategy, authorized: true, max_tick_range, max_liquidity, authorized_at: now }),
{
    VaultStrategy { strategy, authorized: true, max_tick_range, max_liquidity, authorized_at: now }
}

/// A strategy is authorized when it has a record whose flag is set.
pub fn is_vault_strategy_authorized(vault: &Option<VaultStrategy>) -> (r: bool)
    ensures
        r == (match *vault { Some(v) => v.authorized, None => false }),
{
    match vault {
        Some(v) => v.authorized,
        None => false,
    }
}

/// Result of [`adjust_liquidity_range`].
pub open spec fn spec_adjust_liquidity_range(
    vault: Option<VaultStrategy>,
    position: Option<VaultPosition>,
    new_lower_tick: i32,
    new_upper_tick: i32,
    bounds: TickBounds,
    now: u64,
) -> Result<VaultPosition, ContractError> {
    match vault {
        None => Err(ContractError::NotRegistered),
        Some(v) => if !v.authorized {
            Err(ContractError::Unauthorized)
        } else if new_lower_tick >= new_upper_tick || new_upper_tick - new_lower_tick > v.max_tick_range {
            Err(ContractError::InvalidInput)
        } else if new_lower_tick < bounds.min_tick || new_upper_tick > bounds.max_tick {
            Err(ContractError::TickOutOfBounds)
        } else {
            match position {
                None => Err(ContractError::NotRegistered),
                Some(p) => Ok(VaultPosition { lower_tick: new_lower_tick, upper_tick: new_upper_tick, updated_at: now, ..p }),
            }
        },
    }
}

/// Shift an authorized strategy's position to a new tick range. The new
/// range must be non-empty, no wider than the strategy's `max_tick_range`
/// and inside the global bounds; liquidity and reserves move unchanged.
pub fn adjust_liquidity_range(
    vault: &Option<VaultStrategy>,
    position: &Option<VaultPosition>,
    new_lower_tick: i32,
    new_upper_tick: i32,
    bounds: &TickBounds,
    now: u64,
) -> (r: Result<VaultPosition, ContractError>)
    ensures
        r == spec_adjust_liquidity_range(*vault, *position, new_lower_tick, new_upper_tick, *bounds, now),
{
    let v = match vault {
        None => return Err(ContractError::NotRegistered),
        Some(v) => v,
    };
    if !v.authorized {
        return Err(ContractError::Unauthorized);
    }
    if new_lower_tick >= new_upper_tick {
        return Err(ContractError::InvalidInput);
    }
    if (new_upper_tick as i64) - (new_lower_tick as i64) > v.max_tick_range as i64 {
        return Err(ContractError::InvalidInput);
    }
    if new_lower_tick < bounds.min_tick || new_upper_tick > bounds.max_tick {
        return Err(ContractError::TickOutOfBounds);
    }
    let p = match position {
        None => return Err(ContractError::NotRegistered),
        Some(p) => p,
    };
    let mut next = *p;
    next.lower_tick = new_lower_tick;
    next.upper_tick = new_upper_tick;
    next.updated_at = now;
    Ok(next)
}

/// Result of [`initialize_rebalancing`].
pub open spec fn spec_initialize_rebalancing(already_initialized: bool, asset: AssetId, config: RebalanceConfig, now: u64) -> Result<RebalanceConfig, ContractError> {
    if already_initialized {
        Err(ContractError::AlreadyInitialized)
    } else if config.target_ratio_bps == 0 || config.target_ratio_bps > 10_000 || config.max_slippage_bps > 10_000 {
        Err(ContractError::InvalidInput)
    } else {
        Ok(RebalanceConfig { asset, last_rebalance_at: now, ..config })
    }
}

/// Initialize rebalancing for a pool: at most once, with a target ratio in
/// `(0, 10000]` and a slippage bound of at most 10000 bps.
pub fn initialize_rebalancing(already_initialized: bool, asset: AssetId, config: &RebalanceConfig, now: u64) -> (r: Result<RebalanceConfig, ContractError>)
    ensures
        r == spec_initialize_rebalancing(already_initialized, asset, *config, now),
{
    if already_initialized {
        return Err(ContractError::AlreadyInitialized);
    }
    if config.target_ratio_bps == 0 || config.target_ratio_bps > 10_000 {
        return Err(ContractError::InvalidInput);
    }
    if config.max_slippage_bps > 10_000 {
        return Err(ContractError::InvalidInput);
    }
    let mut final_config = *config;
    final_config.asset = asset;
    final_config.last_rebalance_at = now;
    Ok(final_config)
}

/// Optional field updates of a rebalancing configuration.
#[derive(Clone, Copy, Debug, PartialEq, Eq, Structural)]
pub struct RebalanceConfigUpdate {
    pub enabled: Option<bool>,
    pub target_ratio_bps: Option<u32>,
    pub threshold_bps: Option<u32>,
    pub max_slippage_bps: Option<u32>,
    pub rebalance_fee_bps: Option<u32>,
    pub min_rebalance_interval: Option<u64>,
}

/// Whether an optional bps update is out of range.
pub open spec fn bps_update_invalid(v: Option<u32>, allow_zero: bool) -> bool {
    match v {
        None => false,
        Some(x) => x > 10_000 || (!allow_zero && x == 0),
    }
}

/// Apply an optional update to a field.
pub open spec fn apply_update<T>(old: T, v: Option<T>) -> T {
    match v {
        None => old,
        Some(x) => x,
    }
}

/// Result of [`update_rebalance_config`].
pub open spec fn spec_update_rebalance_config(config: Option<RebalanceConfig>, u: RebalanceConfigUpdate) -> Result<RebalanceConfig, ContractError> {
    match config {
        None => Err(ContractError::NotInitialized),
        Some(c) => if bps_update_invalid(u.target_ratio_bps, false)
            || bps_update_invalid(u.threshold_bps, true)
            || bps_update_invalid(u.max_slippage_bps, true)
            || bps_update_invalid(u.rebalance_fee_bps, true) {
            Err(ContractError::InvalidInput)
        } else {
            Ok(RebalanceConfig {
                enabled: apply_update(c.enabled, u.enabled),
                target_ratio_bps: apply_update(c.target_ratio_bps, u.target_ratio_bps),
                threshold_bps: apply_update(c.threshold_bps, u.threshold_bps),
                max_slippage_bps: apply_update(c.max_slippage_bps, u.max_slippage_bps),
                rebalance_fee_bps: apply_update(c.rebalance_fee_bps, u.rebalance_fee_bps),
                min_rebalance_interval: apply_update(c.min_rebalance_interval, u.min_rebalance_interval),
                ..c
            })
        },
    }
}

/// Update a pool's rebalancing configuration field by field; any bps value
/// above 10000 (or a zero target ratio) rejects the whole update.
pub fn update_rebalance_config(config: &Option<RebalanceConfig>, update: &RebalanceConfigUpdate) -> (r: Result<RebalanceConfig, ContractError>)
    ensures
        r == spec_update_rebalance_config(*config, *update),
{
    let mut c = match config {
        None => return Err(ContractError::NotInitialized),
        Some(c) => *c,
    };
    if let Some(v) = update.enabled {
        c.enabled = v;
    }
    if let Some(v) = update.target_ratio_bps {
        if v == 0 || v > 10_000 {
            return Err(ContractError::InvalidInput);
        }
        c.target_ratio_bps = v;
    }
    if let Some(v) = update.threshold_bps {
        if v > 10_000 {
            return Err(ContractError::InvalidInput);
        }
        c.threshold_bps = v;
    }
    if let Some(v) = update.max_slippage_bps {
        if v > 10_000 {
            return Err(ContractError::InvalidInput);
        }
        c.max_slippage_bps = v;
    }
    if let Some(v) = update.rebalance_fee_bps {
        if v > 10_000 {
            return Err(ContractError::InvalidInput);
        }
        c.rebalance_fee_bps = v;
    }
    if let Some(v) = update.min_rebalance_interval {
        c.min_rebalance_interval = v;
    }
    Ok(c)
}

} // verus!
