//! High-precision fee arithmetic for multi-hop corridor pools, the dynamic
//! volume-based fee, the variable fee pool distribution and the flash loan
//! fee pool.
//!
//! Fractional corridor usage splits scale intermediate products by
//! `INTERIOR_SCALE` (10^14) before division and normalize back to the
//! standard 10^7 fixed-point footprint.
use vstd::prelude::*;

use crate::admin::action_queue::{admin_error, check_admin};
use crate::contract::ContractData;
use crate::error::ContractError;
use crate::{Address, AssetId};

verus! {

/// Standard fixed-point scale (10^7) in signed arithmetic.
pub const STANDARD_FIXED_POINT_SCALE: i128 = 10_000_000;
/// Interior precision scale (10^14) in signed arithmetic.
pub const INTERIOR_FEE_PRECISION_SCALE: i128 = 100_000_000_000_000;
/// Interior scaling coefficient applied before division steps (10^14).
pub const INTERIOR_SCALE: u128 = 100_000_000_000_000;
/// System standard fixed-point footprint (10^7).
pub const FIXED_POINT_SCALE: u128 = 10_000_000;

/// Accumulated corridor fees for an asset.
#[derive(Clone, Copy, Debug, PartialEq, Eq, Structural)]
pub struct CorridorFeePool {
    pub asset: AssetId,
    pub collected: u64,
    pub variable_pool: u64,
}

/// Storage namespace of the fee subsystem.
#[derive(Clone, Copy, Debug, PartialEq, Eq, Structural)]
pub enum FeesStorageKey {
    CorridorPool(AssetId),
    VolumeHistory(AssetId),
    DynamicFee(AssetId),
    FlashLoanPool(AssetId),
}

/// Separate fee tracking pool for flash loan revenue.
#[derive(Clone, Copy, Debug, PartialEq, Eq, Structural)]
pub struct FlashLoanFeePool {
    pub asset: AssetId,
    pub accumulated_fees: u64,
    pub total_lp_distributed: u64,
    pub total_treasury_distributed: u64,
}

impl FlashLoanFeePool {
    /// An empty flash loan fee pool for `asset`.
    pub fn new(asset: AssetId) -> (r: Self)
        ensures
            r == (FlashLoanFeePool {
                asset,
                accumulated_fees: 0,
                total_lp_distributed: 0,
                total_treasury_distributed: 0,
            }),
    {
        FlashLoanFeePool { asset, accumulated_fees: 0, total_lp_distributed: 0, total_treasury_distributed: 0 }
    }
}

/// Historical volume tracking used to compute the volume delta.
#[derive(Clone, Copy, Debug, PartialEq, Eq, Structural)]
pub struct VolumeHistory {
    pub previous_period_volume: u64,
    pub current_period_volume: u64,
    /// Timestamp at which the period was last rotated.
    pub last_updated: u64,
}

impl VolumeHistory {
    /// A history with no recorded volume.
    pub fn new() -> (r: Self)
        ensures
            r == (VolumeHistory { previous_period_volume: 0, current_period_volume: 0, last_updated: 0 }),
    {
        VolumeHistory { previous_period_volume: 0, current_period_volume: 0, last_updated: 0 }
    }
}

/// Dynamic fee configuration and current state.
#[derive(Clone, Copy, Debug, PartialEq, Eq, Structural)]
pub struct DynamicFeeState {
    pub min_fee_bps: u32,
    pub max_fee_bps: u32,
    pub current_fee_bps: u32,
    /// How often the fee is recalculated, in seconds.
    pub period_seconds: u64,
}

impl DynamicFeeState {
    /// Default band [5, 30] bps, starting at the minimum, one-hour period.
    pub fn new() -> (r: Self)
        ensures
            r == (DynamicFeeState { min_fee_bps: 5, max_fee_bps: 30, current_fee_bps: 5, period_seconds: 3600 }),
    {
        DynamicFeeState { min_fee_bps: 5, max_fee_bps: 30, current_fee_bps: 5, period_seconds: 3600 }
    }
}

impl CorridorFeePool {
    /// An empty corridor fee pool for `asset`.
    pub fn new(asset: AssetId) -> (r: Self)
        ensures
            r == (CorridorFeePool { asset, collected: 0, variable_pool: 0 }),
    {
        CorridorFeePool { asset, collected: 0, variable_pool: 0 }
    }
}

/// Dedicated profile holding dynamic corridor weight variables.
#[derive(Clone, Copy, Debug, PartialEq, Eq, Structural)]
pub struct CorridorWeightProfile {
    pub asset: AssetId,
    pub base_weight: u64,
    pub dynamic_weight: u64,
}

/// Separate storage namespace for corridor weight profiles.
#[derive(Clone, Copy, Debug, PartialEq, Eq, Structural)]
pub enum CorridorWeightKey {
    Profile(AssetId),
}

impl CorridorWeightProfile {
    /// A zero-weight profile for `asset`.
    pub fn new(asset: AssetId) -> (r: Self)
        ensures
            r == (CorridorWeightProfile { asset, base_weight: 0, dynamic_weight: 0 }),
    {
        CorridorWeightProfile { asset, base_weight: 0, dynamic_weight: 0 }
    }
}

// ---------------------------------------------------------------------------
// Interior-precision arithmetic
// ---------------------------------------------------------------------------

/// Result of normalizing an interior-space value to the 10^7 footprint.
pub open spec fn spec_normalize(interior_value: int) -> Result<u64, ContractError> {
    if interior_value / (INTERIOR_SCALE as int) > u64::MAX {
        Err(ContractError::Overflow)
    } else {
        Ok((interior_value / (INTERIOR_SCALE as int)) as u64)
    }
}

/// Scale an intermediate product into interior precision: `a * b * 10^14`.
pub fn scale_product_to_interior(a: u128, b: u128) -> (r: Result<u128, ContractError>)
    ensures
        r == (if a * b * INTERIOR_SCALE > u128::MAX {
            Err(ContractError::Overflow)
        } else {
            Ok((a * b * INTERIOR_SCALE) as u128)
        }),
{
    let p = match a.checked_mul(b) {
        Some(p) => p,
        None => {
            assert(a * b * INTERIOR_SCALE > u128::MAX) by (nonlinear_arith)
                requires a * b > u128::MAX;
            return Err(ContractError::Overflow);
        },
    };
    match p.checked_mul(INTERIOR_SCALE) {
        Some(v) => Ok(v),
        None => Err(ContractError::Overflow),
    }
}

/// Normalize an interior-space quotient back to the 10^7 fixed-point footprint.
pub fn normalize_to_fixed_point_footprint(interior_value: u128) -> (r: Result<u64, ContractError>)
    ensures
        r == spec_normalize(interior_value as int),
{
    let normalized = interior_value / INTERIOR_SCALE;
    if normalized > u64::MAX as u128 {
        return Err(ContractError::Overflow);
    }
    Ok(normalized as u64)
}

/// Result of [`multiply_and_scale_down`].
pub open spec fn spec_multiply_and_scale_down(a: u64, b: u64) -> Result<u64, ContractError> {
    if a * b * INTERIOR_SCALE > u128::MAX {
        Err(ContractError::Overflow)
    } else {
        spec_normalize((a * b * INTERIOR_SCALE) / (FIXED_POINT_SCALE as int))
    }
}

/// Multiply two fixed-point values and scale down to the 10^7 footprint.
pub fn multiply_and_scale_down(a: u64, b: u64) -> (r: Result<u64, ContractError>)
    ensures
        r == spec_multiply_and_scale_down(a, b),
{
    let interior_product = scale_product_to_interior(a as u128, b as u128)?;
    let interior_quotient = interior_product / FIXED_POINT_SCALE;
    normalize_to_fixed_point_footprint(interior_quotient)
}

/// Result of [`compute_corridor_usage_fee_share`].
pub open spec fn spec_corridor_usage_fee_share(total_fee: u64, relayer_usage: u64, total_usage: u64) -> Result<u64, ContractError> {
    if total_usage == 0 {
        Err(ContractError::DivisionByZero)
    } else if total_fee == 0 || relayer_usage == 0 {
        Ok(0)
    } else if total_fee * relayer_usage * INTERIOR_SCALE > u128::MAX {
        Err(ContractError::Overflow)
    } else {
        spec_normalize((total_fee * relayer_usage * INTERIOR_SCALE) / (total_usage as int))
    }
}

/// A relayer's corridor usage fee share of the variable pool.
pub fn compute_corridor_usage_fee_share(total_fee: u64, relayer_usage: u64, total_usage: u64) -> (r: Result<u64, ContractError>)
    ensures
        r == spec_corridor_usage_fee_share(total_fee, relayer_usage, total_usage),
{
    if total_usage == 0 {
        return Err(ContractError::DivisionByZero);
    }
    if total_fee == 0 || relayer_usage == 0 {
        return Ok(0);
    }
    let interior_numerator = scale_product_to_interior(total_fee as u128, relayer_usage as u128)?;
    let interior_quotient = interior_numerator / (total_usage as u128);
    normalize_to_fixed_point_footprint(interior_quotient)
}

/// Interior scaling followed by normalization loses nothing against exact
/// floor division: the share is `floor(total_fee * relayer_usage / total_usage)`,
/// and it never exceeds the total fee when the relayer's usage is part of
/// the total usage.
pub proof fn lemma_corridor_share_is_exact_floor(total_fee: u64, relayer_usage: u64, total_usage: u64)
    requires
        total_usage > 0,
        spec_corridor_usage_fee_share(total_fee, relayer_usage, total_usage) is Ok,
    ensures
        spec_corridor_usage_fee_share(total_fee, relayer_usage, total_usage)->Ok_0
            == (total_fee * relayer_usage) / (total_usage as int),
        relayer_usage <= total_usage ==>
            spec_corridor_usage_fee_share(total_fee, relayer_usage, total_usage)->Ok_0 <= total_fee,
{
    let x: int = total_fee * relayer_usage;
    let t: int = total_usage as int;
    let s: int = INTERIOR_SCALE as int;
    if total_fee != 0 && relayer_usage != 0 {
        lemma_floor_div_scale(x, s, t);
    }
    if relayer_usage <= total_usage {
        assert(x / t <= total_fee) by (nonlinear_arith)
            requires x == total_fee * relayer_usage, 0 < t, relayer_usage <= t, 0 <= total_fee, 0 <= relayer_usage;
    }
}

/// `floor(floor(x * s / t) / s) == floor(x / t)` for non-negative `x` and
/// positive `s`, `t`.
pub proof fn lemma_floor_div_scale(x: int, s: int, t: int)
    requires
        x >= 0,
        s > 0,
        t > 0,
    ensures
        ((x * s) / t) / s == x / t,
{
    let q = x / t;
    let r = x % t;
    assert(x == q * t + r && 0 <= r < t) by (nonlinear_arith)
        requires q == x / t, r == x % t, t > 0;
    // x * s = q * t * s + r * s with 0 <= r * s < t * s
    let y = (x * s) / t;
    assert(q * s <= y < (q + 1) * s) by (nonlinear_arith)
        requires x == q * t + r, 0 <= r < t, s > 0, t > 0, y == (x * s) / t;
    assert(y / s == q) by (nonlinear_arith)
        requires q * s <= y < (q + 1) * s, s > 0;
}

/// Result of [`compute_multi_hop_corridor_fee_share`].
pub open spec fn spec_multi_hop_fee_share(
    total_fee: u64,
    hop_usage: u64,
    relayer_usage: u64,
    total_hop_usage: u64,
    total_relayer_usage: u64,
) -> Result<u64, ContractError> {
    if total_hop_usage == 0 || total_relayer_usage == 0 {
        Err(ContractError::DivisionByZero)
    } else if total_fee == 0 || hop_usage == 0 || relayer_usage == 0 {
        Ok(0)
    } else if total_fee * hop_usage > u128::MAX
        || total_fee * hop_usage * relayer_usage > u128::MAX
        || total_fee * hop_usage * relayer_usage * INTERIOR_SCALE > u128::MAX {
        Err(ContractError::Overflow)
    } else {
        spec_normalize(
            (total_fee * hop_usage * relayer_usage * INTERIOR_SCALE) / (total_hop_usage * total_relayer_usage),
        )
    }
}

/// A relayer's fee share across a multi-hop corridor path, combining
/// hop-level and relayer-level weights in one interior-scaled pass.
pub fn compute_multi_hop_corridor_fee_share(
    total_fee: u64,
    hop_usage: u64,
    relayer_usage: u64,
    total_hop_usage: u64,
    total_relayer_usage: u64,
) -> (r: Result<u64, ContractError>)
    ensures
        r == spec_multi_hop_fee_share(total_fee, hop_usage, relayer_usage, total_hop_usage, total_relayer_usage),
{
    if total_hop_usage == 0 || total_relayer_usage == 0 {
        return Err(ContractError::DivisionByZero);
    }
    if total_fee == 0 || hop_usage == 0 || relayer_usage == 0 {
        return Ok(0);
    }
    let p1 = match (total_fee as u128).checked_mul(hop_usage as u128) {
        Some(v) => v,
        None => return Err(ContractError::Overflow),
    };
    let p2 = match p1.checked_mul(relayer_usage as u128) {
        Some(v) => v,
        None => return Err(ContractError::Overflow),
    };
    let interior_numerator = match p2.checked_mul(INTERIOR_SCALE) {
        Some(v) => v,
        None => return Err(ContractError::Overflow),
    };
    assert((total_hop_usage as int) * (total_relayer_usage as int) <= u128::MAX) by (nonlinear_arith)
        requires total_hop_usage <= u64::MAX, total_relayer_usage <= u64::MAX;
    assert((total_hop_usage as int) * (total_relayer_usage as int) > 0) by (nonlinear_arith)
        requires total_hop_usage > 0, total_relayer_usage > 0;
    let interior_denominator = (total_hop_usage as u128) * (total_relayer_usage as u128);
    let interior_quotient = interior_numerator / interior_denominator;
    normalize_to_fixed_point_footprint(interior_quotient)
}

/// The single-pass multi-hop share is never smaller than chaining the two
/// floor divisions `((fee * hop / total_hop) * relayer) / total_relayer`.
pub proof fn lemma_multi_hop_share_dominates_chained(
    total_fee: u64,
    hop_usage: u64,
    relayer_usage: u64,
    total_hop_usage: u64,
    total_relayer_usage: u64,
)
    requires
        spec_multi_hop_fee_share(total_fee, hop_usage, relayer_usage, total_hop_usage, total_relayer_usage) is Ok,
        total_hop_usage > 0,
        total_relayer_usage > 0,
    ensures
        spec_multi_hop_fee_share(total_fee, hop_usage, relayer_usage, total_hop_usage, total_relayer_usage)->Ok_0
            >= (((total_fee * hop_usage) / (total_hop_usage as int)) * relayer_usage) / (total_relayer_usage as int),
{
    let f: int = total_fee as int;
    let h: int = hop_usage as int;
    let u: int = relayer_usage as int;
    let th: int = total_hop_usage as int;
    let tr: int = total_relayer_usage as int;
    let s: int = INTERIOR_SCALE as int;
    let chained = ((f * h) / th * u) / tr;
    if f != 0 && h != 0 && u != 0 {
        let x = f * h * u;
        assert(x >= 0) by (nonlinear_arith) requires f >= 0, h >= 0, u >= 0, x == f * h * u;
        assert(th * tr > 0) by (nonlinear_arith) requires th > 0, tr > 0;
        lemma_floor_div_scale(x, s, th * tr);
        assert((f * h * u * s) == x * s);
        // floor(floor(f*h/th) * u / tr) <= floor(f*h*u / (th*tr))
        let a = (f * h) / th;
        assert(a * th <= f * h) by (nonlinear_arith) requires a == (f * h) / th, th > 0;
        assert(a * u * th <= x) by (nonlinear_arith) requires a * th <= f * h, u >= 0, x == f * h * u;
        let c = (a * u) / tr;
        assert(c * tr <= a * u) by (nonlinear_arith) requires c == (a * u) / tr, tr > 0;
        assert(c * (th * tr) <= x) by (nonlinear_arith)
            requires c * tr <= a * u, a * u * th <= x, th > 0, tr > 0;
        assert(a >= 0) by (nonlinear_arith) requires a == (f * h) / th, th > 0, f >= 0, h >= 0;
        assert(c <= x / (th * tr)) by (nonlinear_arith)
            requires c * (th * tr) <= x, th * tr > 0;
    } else {
        assert(chained == 0) by (nonlinear_arith)
            requires chained == ((f * h) / th * u) / tr, f == 0 || h == 0 || u == 0, th > 0, tr > 0, f >= 0, h >= 0, u >= 0;
    }
}

/// Result of [`calculate_and_deduct_fee`].
pub open spec fn spec_calculate_and_deduct_fee(amount: u128, fee_bps: u32) -> Result<(u128, u128), ContractError> {
    if amount * fee_bps > u128::MAX {
        Err(ContractError::Overflow)
    } else if (amount * fee_bps) / 10000 > amount {
        Err(ContractError::Overflow)
    } else {
        Ok(((amount - (amount * fee_bps) / 10000) as u128, ((amount * fee_bps) / 10000) as u128))
    }
}

/// Deduct a `fee_bps` basis-point fee from `amount`, returning
/// `(amount_after_fees, fee_amount)`.
pub fn calculate_and_deduct_fee(amount: u128, fee_bps: u32) -> (r: Result<(u128, u128), ContractError>)
    ensures
        r == spec_calculate_and_deduct_fee(amount, fee_bps),
        r is Ok ==> r->Ok_0.0 + r->Ok_0.1 == amount,
{
    let fee_amount = match amount.checked_mul(fee_bps as u128) {
        Some(v) => v / 10000,
        None => return Err(ContractError::Overflow),
    };
    if fee_amount > amount {
        return Err(ContractError::Overflow);
    }
    Ok((amount - fee_amount, fee_amount))
}

// ---------------------------------------------------------------------------
// Dynamic volume-based fee
// ---------------------------------------------------------------------------

/// How the trading volume moved between two periods.
#[derive(Clone, Copy, Debug, PartialEq, Eq, Structural)]
pub enum VolumeTrend {
    /// Volume grew by more than 50 %.
    Spike,
    /// Volume fell by more than 30 %.
    Drop,
    /// No significant change.
    Flat,
}

/// Clamp `v` into `[lo, hi]` (`lo <= hi`).
pub open spec fn clamp_u32(v: int, lo: int, hi: int) -> int {
    if v < lo { lo } else if v > hi { hi } else { v }
}

/// New fee for a volume trend: ±5 bps (saturating) then clamped to the band.
pub open spec fn spec_adjust_fee_for_trend(current_fee_bps: u32, min_fee_bps: u32, max_fee_bps: u32, trend: VolumeTrend) -> u32 {
    let moved: int = match trend {
        VolumeTrend::Spike => if current_fee_bps + 5 > u32::MAX { u32::MAX as int } else { current_fee_bps + 5 },
        VolumeTrend::Drop => if current_fee_bps < 5 { 0 } else { current_fee_bps - 5 },
        VolumeTrend::Flat => current_fee_bps as int,
    };
    clamp_u32(moved, min_fee_bps as int, max_fee_bps as int) as u32
}

/// Adjust the fee after a period rotation: raise by 5 bps on a volume
/// spike, lower by 5 bps on a volume drop, and keep the result inside
/// `[min_fee_bps, max_fee_bps]`.
pub fn adjust_fee_for_trend(current_fee_bps: u32, min_fee_bps: u32, max_fee_bps: u32, trend: VolumeTrend) -> (r: u32)
    requires
        min_fee_bps <= max_fee_bps,
    ensures
        r == spec_adjust_fee_for_trend(current_fee_bps, min_fee_bps, max_fee_bps, trend),
        min_fee_bps <= r <= max_fee_bps,
{
    let moved = match trend {
        VolumeTrend::Spike => current_fee_bps.saturating_add(5),
        VolumeTrend::Drop => current_fee_bps.saturating_sub(5),
        VolumeTrend::Flat => current_fee_bps,
    };
    if moved < min_fee_bps {
        min_fee_bps
    } else if moved > max_fee_bps {
        max_fee_bps
    } else {
        moved
    }
}

/// The fee after a period rotation: unchanged without volume in the
/// previous period; otherwise moved by `trend`, how the current period's
/// volume compares with the previous one, and kept inside the band.
pub fn calculate_dynamic_fee(history: &VolumeHistory, fee: &DynamicFeeState, trend: VolumeTrend) -> (r: Result<
    u32,
    ContractError,
>)
    requires
        history.previous_period_volume != 0 ==> fee.min_fee_bps <= fee.max_fee_bps,
    ensures
        r == Ok::<u32, ContractError>(
            if history.previous_period_volume == 0 {
                fee.current_fee_bps
            } else {
                spec_adjust_fee_for_trend(fee.current_fee_bps, fee.min_fee_bps, fee.max_fee_bps, trend)
            },
        ),
{
    if history.previous_period_volume == 0 {
        return Ok(fee.current_fee_bps);
    }
    Ok(adjust_fee_for_trend(fee.current_fee_bps, fee.min_fee_bps, fee.max_fee_bps, trend))
}

/// Outcome of recording trade volume: the new history and whether the
/// period rotated (and the fee must be recalculated from the new history).
pub open spec fn spec_record_volume(history: VolumeHistory, period_seconds: u64, now: u64, trade_volume: u64) -> Result<(VolumeHistory, bool), ContractError> {
    if now >= history.last_updated + period_seconds {
        Ok((VolumeHistory {
            previous_period_volume: history.current_period_volume,
            current_period_volume: trade_volume,
            last_updated: now,
        }, true))
    } else if history.current_period_volume + trade_volume > u64::MAX {
        Err(ContractError::Overflow)
    } else {
        Ok((VolumeHistory {
            current_period_volume: (history.current_period_volume + trade_volume) as u64,
            ..history
        }, false))
    }
}

/// Record `trade_volume` at time `now`: once the period has elapsed the
/// current volume moves to the previous slot and a new period starts;
/// otherwise the volume is added to the current period.
pub fn record_volume(history: &VolumeHistory, period_seconds: u64, now: u64, trade_volume: u64) -> (r: Result<(VolumeHistory, bool), ContractError>)
    requires
        history.last_updated + period_seconds <= u64::MAX,
    ensures
        r == spec_record_volume(*history, period_seconds, now, trade_volume),
{
    if now >= history.last_updated + period_seconds {
        Ok((VolumeHistory {
            previous_period_volume: history.current_period_volume,
            current_period_volume: trade_volume,
            last_updated: now,
        }, true))
    } else {
        match history.current_period_volume.checked_add(trade_volume) {
            Some(v) => Ok((VolumeHistory {
                previous_period_volume: history.previous_period_volume,
                current_period_volume: v,
                last_updated: history.last_updated,
            }, false)),
            None => Err(ContractError::Overflow),
        }
    }
}

/// Result of validating a dynamic fee configuration.
pub open spec fn spec_validate_dynamic_fee_config(min_fee_bps: u32, max_fee_bps: u32, period_seconds: u64) -> Result<(), ContractError> {
    if min_fee_bps < 5 || max_fee_bps > 30 || min_fee_bps >= max_fee_bps || period_seconds < 300 {
        Err(ContractError::InvalidVarianceConfig)
    } else {
        Ok(())
    }
}

/// Dynamic fee bounds must lie in `[5, 30]` bps with `min < max`, and the
/// recalculation period must be at least five minutes.
pub fn validate_dynamic_fee_config(min_fee_bps: u32, max_fee_bps: u32, period_seconds: u64) -> (r: Result<(), ContractError>)
    ensures
        r == spec_validate_dynamic_fee_config(min_fee_bps, max_fee_bps, period_seconds),
{
    if min_fee_bps < 5 || max_fee_bps > 30 || min_fee_bps >= max_fee_bps {
        return Err(ContractError::InvalidVarianceConfig);
    }
    if period_seconds < 300 {
        return Err(ContractError::InvalidVarianceConfig);
    }
    Ok(())
}

/// The fee and history after recording `trade_volume` at `now`: with a
/// rotation and a non-zero previous volume the fee moves with `trend`,
/// otherwise it stays.
pub open spec fn spec_update_volume(
    history: VolumeHistory,
    fee: DynamicFeeState,
    now: u64,
    trade_volume: u64,
    trend: VolumeTrend,
) -> Result<(VolumeHistory, DynamicFeeState), ContractError> {
    match spec_record_volume(history, fee.period_seconds, now, trade_volume) {
        Err(e) => Err(e),
        Ok((h, rotated)) => if rotated && h.previous_period_volume != 0 {
            Ok(
                (
                    h,
                    DynamicFeeState {
                        current_fee_bps: spec_adjust_fee_for_trend(
                            fee.current_fee_bps,
                            fee.min_fee_bps,
                            fee.max_fee_bps,
                            trend,
                        ),
                        ..fee
                    },
                ),
            )
        } else {
            Ok((h, fee))
        },
    }
}

/// Records `trade_volume` at time `now` in the volume history and, when
/// the period rotates, recalculates the dynamic fee. `trend` classifies the
/// new period's volume (`trade_volume`) against the period that ends (the
/// current period volume of `history`); it is used only on a rotation with
/// a non-zero ending volume. Returns the state to store; its
/// `current_fee_bps` is the fee now in force.
pub fn update_volume_and_adjust_fee(
    history: &VolumeHistory,
    fee: &DynamicFeeState,
    now: u64,
    trade_volume: u64,
    trend: VolumeTrend,
) -> (r: Result<(VolumeHistory, DynamicFeeState), ContractError>)
    requires
        history.last_updated + fee.period_seconds <= u64::MAX,
        now >= history.last_updated + fee.period_seconds && history.current_period_volume != 0
            ==> fee.min_fee_bps <= fee.max_fee_bps,
    ensures
        r == spec_update_volume(*history, *fee, now, trade_volume, trend),
        r matches Ok((_, f)) ==> f.min_fee_bps == fee.min_fee_bps && f.max_fee_bps == fee.max_fee_bps
            && f.period_seconds == fee.period_seconds,
{
    let (h, rotated) = match record_volume(history, fee.period_seconds, now, trade_volume) {
        Err(e) => return Err(e),
        Ok(v) => v,
    };
    if rotated {
        let new_fee = match calculate_dynamic_fee(&h, fee, trend) {
            Ok(f) => f,
            Err(e) => return Err(e),
        };
        Ok(
            (
                h,
                DynamicFeeState {
                    min_fee_bps: fee.min_fee_bps,
                    max_fee_bps: fee.max_fee_bps,
                    current_fee_bps: new_fee,
                    period_seconds: fee.period_seconds,
                },
            ),
        )
    } else {
        Ok((h, *fee))
    }
}

/// The dynamic fee in force: that of the stored state, or the default's.
pub fn get_current_dynamic_fee(stored: Option<DynamicFeeState>) -> (r: u32)
    ensures
        r == (match stored {
            Some(f) => f.current_fee_bps,
            None => 5,
        }),
{
    match stored {
        Some(f) => f.current_fee_bps,
        None => DynamicFeeState::new().current_fee_bps,
    }
}

/// The dynamic fee state after `caller` sets the band `[min_fee_bps,
/// max_fee_bps]` and the period on `stored` (none: the default state);
/// the current fee is left as it is.
pub fn set_dynamic_fee_config(
    data: Option<ContractData>,
    caller: Address,
    stored: Option<DynamicFeeState>,
    min_fee_bps: u32,
    max_fee_bps: u32,
    period_seconds: u64,
) -> (r: Result<DynamicFeeState, ContractError>)
    ensures
        match admin_error(data, caller) {
            Some(e) => r == Err::<DynamicFeeState, ContractError>(e),
            None => match spec_validate_dynamic_fee_config(min_fee_bps, max_fee_bps, period_seconds) {
                Err(e) => r == Err::<DynamicFeeState, ContractError>(e),
                Ok(_) => r == Ok::<DynamicFeeState, ContractError>(
                    DynamicFeeState {
                        min_fee_bps,
                        max_fee_bps,
                        period_seconds,
                        current_fee_bps: match stored {
                            Some(f) => f.current_fee_bps,
                            None => 5,
                        },
                    },
                ),
            },
        },
{
    match check_admin(data, caller) {
        Err(e) => return Err(e),
        Ok(_) => {},
    }
    match validate_dynamic_fee_config(min_fee_bps, max_fee_bps, period_seconds) {
        Err(e) => return Err(e),
        Ok(()) => {},
    }
    let current = match stored {
        Some(f) => f,
        None => DynamicFeeState::new(),
    };
    Ok(DynamicFeeState { min_fee_bps, max_fee_bps, current_fee_bps: current.current_fee_bps, period_seconds })
}

/// The corridor weight profile `admin` sets for `asset`.
pub fn set_corridor_weight(
    data: Option<ContractData>,
    admin: Address,
    asset: AssetId,
    base_weight: u64,
    dynamic_weight: u64,
) -> (r: Result<CorridorWeightProfile, ContractError>)
    ensures
        match admin_error(data, admin) {
            Some(e) => r == Err::<CorridorWeightProfile, ContractError>(e),
            None => r == Ok::<CorridorWeightProfile, ContractError>(
                CorridorWeightProfile { asset, base_weight, dynamic_weight },
            ),
        },
{
    match check_admin(data, admin) {
        Err(e) => Err(e),
        Ok(_) => Ok(CorridorWeightProfile { asset, base_weight, dynamic_weight }),
    }
}

/// The stored corridor weight profile of `asset`, or a zero profile.
pub fn get_corridor_weight(stored: Option<CorridorWeightProfile>, asset: AssetId) -> (r: CorridorWeightProfile)
    ensures
        r == (match stored {
            Some(p) => p,
            None => CorridorWeightProfile { asset, base_weight: 0, dynamic_weight: 0 },
        }),
{
    match stored {
        Some(p) => p,
        None => CorridorWeightProfile::new(asset),
    }
}

/// The LP reward pool address `admin` sets.
pub fn set_lp_reward_pool(data: Option<ContractData>, admin: Address, lp_reward_pool: Address) -> (r: Result<
    Address,
    ContractError,
>)
    ensures
        match admin_error(data, admin) {
            Some(e) => r == Err::<Address, ContractError>(e),
            None => r == Ok::<Address, ContractError>(lp_reward_pool),
        },
{
    match check_admin(data, admin) {
        Err(e) => Err(e),
        Ok(_) => Ok(lp_reward_pool),
    }
}

/// Where flash fee LP shares go: the configured LP reward pool, else the
/// DAO treasury.
pub fn get_lp_reward_pool(lp_reward_pool: Option<Address>, treasury: Option<Address>) -> (r: Result<
    Address,
    ContractError,
>)
    ensures
        r == (match lp_reward_pool {
            Some(p) => Ok::<Address, ContractError>(p),
            None => match treasury {
                Some(t) => Ok::<Address, ContractError>(t),
                None => Err::<Address, ContractError>(ContractError::NotInitialized),
            },
        }),
{
    match lp_reward_pool {
        Some(p) => Ok(p),
        None => match treasury {
            Some(t) => Ok(t),
            None => Err(ContractError::NotInitialized),
        },
    }
}

// ---------------------------------------------------------------------------
// Fee pools
// ---------------------------------------------------------------------------

/// The stored corridor pool of `asset`, or an empty one.
pub fn get_corridor_fee_pool(stored: Option<CorridorFeePool>, asset: AssetId) -> (r: CorridorFeePool)
    ensures
        r == (match stored {
            Some(p) => p,
            None => CorridorFeePool { asset, collected: 0, variable_pool: 0 },
        }),
{
    match stored {
        Some(p) => p,
        None => CorridorFeePool { asset, collected: 0, variable_pool: 0 },
    }
}

/// The corridor pool after the admin adds collected and variable fees to
/// the stored pool of `asset` (none: an empty one).
pub fn add_corridor_fees(
    data: Option<ContractData>,
    admin: Address,
    stored: Option<CorridorFeePool>,
    asset: AssetId,
    collected: u64,
    variable_fee: u64,
) -> (r: Result<CorridorFeePool, ContractError>)
    ensures
        r == (match admin_error(data, admin) {
            Some(e) => Err(e),
            None => {
                let pool = match stored {
                    Some(p) => p,
                    None => CorridorFeePool { asset, collected: 0, variable_pool: 0 },
                };
                if pool.collected + collected > u64::MAX || pool.variable_pool + variable_fee > u64::MAX {
                    Err(ContractError::Overflow)
                } else {
                    Ok(CorridorFeePool {
                        asset: pool.asset,
                        collected: (pool.collected + collected) as u64,
                        variable_pool: (pool.variable_pool + variable_fee) as u64,
                    })
                }
            },
        }),
{
    match check_admin(data, admin) {
        Err(e) => return Err(e),
        Ok(_) => {},
    }
    let pool = get_corridor_fee_pool(stored, asset);
    let c = match pool.collected.checked_add(collected) {
        Some(v) => v,
        None => return Err(ContractError::Overflow),
    };
    let v = match pool.variable_pool.checked_add(variable_fee) {
        Some(v) => v,
        None => return Err(ContractError::Overflow),
    };
    Ok(CorridorFeePool { asset: pool.asset, collected: c, variable_pool: v })
}

/// The stored flash loan fee pool of `asset`, or an empty one.
pub fn get_flash_fee_pool(stored: Option<FlashLoanFeePool>, asset: AssetId) -> (r: FlashLoanFeePool)
    ensures
        r == (match stored {
            Some(p) => p,
            None => FlashLoanFeePool { asset, accumulated_fees: 0, total_lp_distributed: 0, total_treasury_distributed: 0 },
        }),
{
    match stored {
        Some(p) => p,
        None => FlashLoanFeePool { asset, accumulated_fees: 0, total_lp_distributed: 0, total_treasury_distributed: 0 },
    }
}

/// Record flash loan fee revenue; zero amounts leave the pool untouched.
/// Returns the updated pool.
pub fn record_flash_fee(pool: &FlashLoanFeePool, amount: u64) -> (r: Result<FlashLoanFeePool, ContractError>)
    ensures
        r == (if amount == 0 {
            Ok(*pool)
        } else if pool.accumulated_fees + amount > u64::MAX {
            Err(ContractError::Overflow)
        } else {
            Ok(FlashLoanFeePool { accumulated_fees: (pool.accumulated_fees + amount) as u64, ..*pool })
        }),
{
    if amount == 0 {
        return Ok(*pool);
    }
    match pool.accumulated_fees.checked_add(amount) {
        Some(v) => Ok(FlashLoanFeePool {
            asset: pool.asset,
            accumulated_fees: v,
            total_lp_distributed: pool.total_lp_distributed,
            total_treasury_distributed: pool.total_treasury_distributed,
        }),
        None => Err(ContractError::Overflow),
    }
}

/// Where a flash fee distribution went: the shares and their recipients.
#[derive(Clone, Copy, Debug, PartialEq, Eq, Structural)]
pub struct FlashFeeDistribution {
    pub lp_share: u64,
    pub treasury_share: u64,
    pub lp_reward_pool: Address,
    pub treasury: Address,
}

/// Split accumulated flash loan fees 50/50 between the LP reward pool
/// (rounded down) and the treasury (the remainder). The LP reward pool is
/// the configured one, else the treasury, which must be recorded. Returns
/// the updated pool and, when anything was distributed, the distribution.
pub fn distribute_flash_fees(pool: &FlashLoanFeePool, treasury: Option<Address>, lp_reward_pool: Option<Address>) -> (r:
    Result<(FlashLoanFeePool, Option<FlashFeeDistribution>), ContractError>)
    ensures
        pool.accumulated_fees == 0 ==> r == Ok::<(FlashLoanFeePool, Option<FlashFeeDistribution>), ContractError>(
            (*pool, None),
        ),
        pool.accumulated_fees > 0 ==> r == (match treasury {
            None => Err(ContractError::NotInitialized),
            Some(t) => if pool.total_lp_distributed + pool.accumulated_fees / 2 > u64::MAX
                || pool.total_treasury_distributed + (pool.accumulated_fees - pool.accumulated_fees / 2) > u64::MAX {
                Err(ContractError::Overflow)
            } else {
                Ok((FlashLoanFeePool {
                    asset: pool.asset,
                    accumulated_fees: 0,
                    total_lp_distributed: (pool.total_lp_distributed + pool.accumulated_fees / 2) as u64,
                    total_treasury_distributed: (pool.total_treasury_distributed
                        + (pool.accumulated_fees - pool.accumulated_fees / 2)) as u64,
                }, Some(FlashFeeDistribution {
                    lp_share: (pool.accumulated_fees / 2) as u64,
                    treasury_share: (pool.accumulated_fees - pool.accumulated_fees / 2) as u64,
                    lp_reward_pool: match lp_reward_pool { Some(l) => l, None => t },
                    treasury: t,
                })))
            },
        }),
        r matches Ok((_, Some(d))) ==> d.lp_share + d.treasury_share == pool.accumulated_fees,
{
    if pool.accumulated_fees == 0 {
        return Ok((*pool, None));
    }
    let total = pool.accumulated_fees;
    let lp_share = total / 2;
    let treasury_share = total - lp_share;
    let t = match treasury {
        Some(t) => t,
        None => return Err(ContractError::NotInitialized),
    };
    let lp_pool = match lp_reward_pool {
        Some(l) => l,
        None => t,
    };
    let lp_total = match pool.total_lp_distributed.checked_add(lp_share) {
        Some(v) => v,
        None => return Err(ContractError::Overflow),
    };
    let tr_total = match pool.total_treasury_distributed.checked_add(treasury_share) {
        Some(v) => v,
        None => return Err(ContractError::Overflow),
    };
    Ok((FlashLoanFeePool {
        asset: pool.asset,
        accumulated_fees: 0,
        total_lp_distributed: lp_total,
        total_treasury_distributed: tr_total,
    }, Some(FlashFeeDistribution { lp_share, treasury_share, lp_reward_pool: lp_pool, treasury: t })))
}


// ---------------------------------------------------------------------------
// Variable fee pool distribution
// ---------------------------------------------------------------------------

/// Sum of a sequence of `u64` values.
pub open spec fn sum_u64(s: Seq<u64>) -> int
    decreases s.len(),
{
    if s.len() == 0 { 0 } else { sum_u64(s.drop_last()) + s.last() }
}

/// Appending one value adds it to the sum.
pub proof fn lemma_sum_u64_push(s: Seq<u64>, x: u64)
    ensures
        sum_u64(s.push(x)) == sum_u64(s) + x,
{
    assert(s.push(x).drop_last() =~= s);
}

/// The sum of non-negative values is monotone under extension.
pub proof fn lemma_sum_u64_prefix_le(s: Seq<u64>, k: int)
    requires
        0 <= k <= s.len(),
    ensures
        sum_u64(s.take(k)) <= sum_u64(s),
        sum_u64(s) >= 0,
    decreases s.len(),
{
    if s.len() == 0 {
        assert(s.take(k) =~= s);
    } else if k == s.len() {
        assert(s.take(k) =~= s);
        lemma_sum_u64_prefix_le(s.drop_last(), 0);
    } else {
        assert(s.take(k) =~= s.drop_last().take(k));
        lemma_sum_u64_prefix_le(s.drop_last(), k);
    }
}

/// The pool expressed at the 10^7 footprint.
pub open spec fn pool_profile(variable_pool: u64) -> int {
    variable_pool * STANDARD_FIXED_POINT_SCALE
}

/// The pool expressed at interior precision (10^21 per unit).
pub open spec fn interior_pool_profile(variable_pool: u64) -> int {
    pool_profile(variable_pool) * INTERIOR_FEE_PRECISION_SCALE
}

/// Share of relayer `i` (every relayer but the last), truncated after the
/// interior-precision division.
pub open spec fn weighted_share(variable_pool: u64, weights: Seq<u64>, i: int) -> int {
    (interior_pool_profile(variable_pool) * weights[i] / sum_u64(weights)) / (INTERIOR_FEE_PRECISION_SCALE as int)
}

/// Sum of the shares of the first `k` relayers.
pub open spec fn shares_before(variable_pool: u64, weights: Seq<u64>, k: int) -> int
    decreases k,
{
    if k <= 0 { 0 } else { shares_before(variable_pool, weights, k - 1) + weighted_share(variable_pool, weights, k - 1) }
}

/// The last relayer receives the remainder, so the whole pool is assigned.
pub open spec fn last_share(variable_pool: u64, weights: Seq<u64>) -> int {
    pool_profile(variable_pool) - shares_before(variable_pool, weights, weights.len() - 1)
}


/// Each share is at most the exact proportional amount, so the shares of
/// any prefix of relayers never exceed the proportional part of the pool.
pub proof fn lemma_shares_bounded(variable_pool: u64, weights: Seq<u64>, k: int)
    requires
        0 <= k <= weights.len(),
        sum_u64(weights) > 0,
    ensures
        0 <= shares_before(variable_pool, weights, k),
        shares_before(variable_pool, weights, k) * sum_u64(weights)
            <= pool_profile(variable_pool) * sum_u64(weights.take(k)),
        shares_before(variable_pool, weights, k) <= pool_profile(variable_pool),
    decreases k,
{
    let t = sum_u64(weights);
    let p = pool_profile(variable_pool);
    let sc = INTERIOR_FEE_PRECISION_SCALE as int;
    assert(p >= 0) by (nonlinear_arith)
        requires p == variable_pool * STANDARD_FIXED_POINT_SCALE, variable_pool >= 0;
    if k == 0 {
        assert(weights.take(0) =~= Seq::<u64>::empty());
    } else {
        lemma_shares_bounded(variable_pool, weights, k - 1);
        let wk = weights[k - 1];
        let q = (p * sc * wk) / t;
        let share = weighted_share(variable_pool, weights, k - 1);
        assert(share == q / sc);
        assert(q >= 0) by (nonlinear_arith) requires q == (p * sc * wk) / t, p >= 0, sc > 0, wk >= 0, t > 0;
        assert(q * t <= p * sc * wk) by (nonlinear_arith) requires q == (p * sc * wk) / t, t > 0;
        assert(share * sc <= q && share >= 0) by (nonlinear_arith) requires share == q / sc, sc > 0, q >= 0;
        assert(share * t <= p * wk) by (nonlinear_arith)
            requires share * sc <= q, q * t <= p * sc * wk, sc > 0, t > 0, share >= 0;
        assert(weights.take(k) =~= weights.take(k - 1).push(wk));
        lemma_sum_u64_push(weights.take(k - 1), wk);
        let sb = shares_before(variable_pool, weights, k - 1);
        assert((sb + share) * t <= p * (sum_u64(weights.take(k - 1)) + wk)) by (nonlinear_arith)
            requires sb * t <= p * sum_u64(weights.take(k - 1)), share * t <= p * wk;
    }
    lemma_sum_u64_prefix_le(weights, k);
    let sbk = shares_before(variable_pool, weights, k);
    assert(sbk <= p) by (nonlinear_arith)
        requires sbk * t <= p * sum_u64(weights.take(k)), sum_u64(weights.take(k)) <= t, t > 0, p >= 0;
}

/// Every share of a non-empty, positively weighted distribution fits the
/// signed interior arithmetic and the `u64` result.
pub open spec fn distribution_fits(variable_pool: u64, weights: Seq<u64>) -> bool {
    &&& interior_pool_profile(variable_pool) <= i128::MAX
    &&& forall|i: int| 0 <= i < weights.len() - 1 ==> {
        &&& #[trigger] (interior_pool_profile(variable_pool) * weights[i]) <= i128::MAX
        &&& weighted_share(variable_pool, weights, i) <= u64::MAX
    }
    &&& 0 <= last_share(variable_pool, weights) <= u64::MAX
}

/// Distribute a variable fee pool across relayers by weight, expressed at
/// the 10^7 fixed-point footprint. Each relayer but the last receives its
/// weighted share truncated at interior precision; the last receives the
/// remainder, so the shares always add up to `variable_pool * 10^7`.
pub fn distribute_variable_fee_pool(variable_pool: u64, relayer_weights: &Vec<u64>) -> (r: Result<Vec<u64>, ContractError>)
    ensures
        r is Err ==> r->Err_0 == ContractError::Overflow,
        sum_u64(relayer_weights@) > i128::MAX ==> r is Err,
        sum_u64(relayer_weights@) <= i128::MAX && (sum_u64(relayer_weights@) == 0 || relayer_weights.len() == 0)
            ==> r is Ok && r->Ok_0.len() == 0,
        sum_u64(relayer_weights@) <= i128::MAX && sum_u64(relayer_weights@) > 0 && relayer_weights.len() > 0 ==> {
            &&& (r is Ok <==> distribution_fits(variable_pool, relayer_weights@))
            &&& r is Ok ==> {
                &&& r->Ok_0.len() == relayer_weights.len()
                &&& forall|i: int| 0 <= i < relayer_weights.len() - 1
                    ==> r->Ok_0@[i] == weighted_share(variable_pool, relayer_weights@, i)
                &&& r->Ok_0@[relayer_weights.len() - 1] == last_share(variable_pool, relayer_weights@)
                &&& sum_u64(r->Ok_0@) == pool_profile(variable_pool)
            }
        },
{
    let n = relayer_weights.len();
    // Total weight, accumulated with overflow checks.
    let mut total_weight: i128 = 0;
    let mut k: usize = 0;
    while k < n
        invariant
            n == relayer_weights.len(),
            0 <= k <= n,
            total_weight == sum_u64(relayer_weights@.take(k as int)),
        decreases n - k,
    {
        proof {
            assert(relayer_weights@.take(k + 1) =~= relayer_weights@.take(k as int).push(relayer_weights@[k as int]));
            lemma_sum_u64_push(relayer_weights@.take(k as int), relayer_weights@[k as int]);
        }
        let w = relayer_weights[k] as i128;
        total_weight = match total_weight.checked_add(w) {
            Some(t) => t,
            None => {
                proof {
                    lemma_sum_u64_prefix_le(relayer_weights@, k + 1);
                }
                return Err(ContractError::Overflow);
            },
        };
        k = k + 1;
    }
    proof {
        assert(relayer_weights@.take(n as int) =~= relayer_weights@);
    }
    proof {
        lemma_sum_u64_prefix_le(relayer_weights@, 0);
    }
    let mut profiles: Vec<u64> = Vec::new();
    if total_weight == 0 || n == 0 {
        return Ok(profiles);
    }
    let ghost w = relayer_weights@;
    let pool_p: i128 = (variable_pool as i128) * STANDARD_FIXED_POINT_SCALE;
    let interior_p: i128 = match pool_p.checked_mul(INTERIOR_FEE_PRECISION_SCALE) {
        Some(v) => v,
        None => return Err(ContractError::Overflow),
    };
    let last_index = n - 1;
    let mut assigned: i128 = 0;
    let mut index: usize = 0;
    while index < last_index
        invariant
            n == relayer_weights.len(),
            w == relayer_weights@,
            last_index == n - 1,
            total_weight == sum_u64(w),
            total_weight > 0,
            pool_p == pool_profile(variable_pool),
            interior_p == interior_pool_profile(variable_pool),
            interior_p <= i128::MAX,
            0 <= index <= last_index,
            profiles.len() == index,
            assigned == shares_before(variable_pool, w, index as int),
            assigned == sum_u64(profiles@),
            0 <= assigned <= pool_profile(variable_pool),
            forall|i: int| 0 <= i < index ==> profiles@[i] == weighted_share(variable_pool, w, i),
            forall|i: int| 0 <= i < index ==> {
                &&& #[trigger] (interior_pool_profile(variable_pool) * w[i]) <= i128::MAX
                &&& weighted_share(variable_pool, w, i) <= u64::MAX
            },
        decreases last_index - index,
    {
        let weight = relayer_weights[index] as i128;
        let product = match interior_p.checked_mul(weight) {
            Some(v) => v,
            None => return Err(ContractError::Overflow),
        };
        assert(interior_p >= 0) by (nonlinear_arith)
            requires interior_p == pool_profile(variable_pool) * INTERIOR_FEE_PRECISION_SCALE,
                pool_profile(variable_pool) == variable_pool * STANDARD_FIXED_POINT_SCALE, variable_pool >= 0;
        assert(product >= 0) by (nonlinear_arith) requires product == interior_p * weight, interior_p >= 0, weight >= 0;
        let profile = (product / total_weight) / INTERIOR_FEE_PRECISION_SCALE;
        if profile > u64::MAX as i128 {
            return Err(ContractError::Overflow);
        }
        proof {
            lemma_sum_u64_push(profiles@, profile as u64);
            lemma_shares_bounded(variable_pool, w, index + 1);
        }
        assigned = assigned + profile;
        profiles.push(profile as u64);
        index = index + 1;
    }
    let last = match pool_p.checked_sub(assigned) {
        Some(v) => v,
        None => return Err(ContractError::Overflow),
    };
    if last < 0 || last > u64::MAX as i128 {
        return Err(ContractError::Overflow);
    }
    proof {
        lemma_sum_u64_push(profiles@, last as u64);
    }
    profiles.push(last as u64);
    Ok(profiles)
}

} // verus!
