//! Flash loan arbitrage detection.
//!
//! A post-transaction guard over a two-asset pool enforcing three invariants:
//! the reserve ratio may not move by more than [`MAX_RATIO_DEVIATION_BPS`],
//! the constant product `k = reserve_a * reserve_b` may not decrease, and
//! both reserves must stay at or above [`MIN_LIQUIDITY_DEPTH`].
use vstd::prelude::*;

use crate::error::ContractError;

verus! {

/// Absolute minimum reserve balance (in stroops) each side of the pool must
/// keep after a transaction: 100,000 XLM × 10⁷ stroops/XLM.
pub const MIN_LIQUIDITY_DEPTH: u128 = 1_000_000_000_000;

/// Maximum allowed relative move of the reserve ratio, in basis points (50 %).
pub const MAX_RATIO_DEVIATION_BPS: u128 = 5_000;

/// Basis-point denominator (10 000 = 100 %).
pub const BPS_DENOMINATOR: u128 = 10_000;

/// Fixed-point scale of the reserve ratio `reserve_a * RATIO_SCALE / reserve_b`.
pub const RATIO_SCALE: u128 = 1_000_000_000_000_000_000;

/// 2^64 as a `u128`.
pub const TWO_POW_64: u128 = 0x1_0000_0000_0000_0000;

/// A snapshot of a two-asset pool's reserve balances.
#[derive(Clone, Copy, Debug, PartialEq, Eq, Structural)]
pub struct PoolSnapshot {
    pub reserve_a: u128,
    pub reserve_b: u128,
}

/// 2^128 as a mathematical integer.
pub open spec fn two_pow_128() -> int {
    u128::MAX as int + 1
}

/// The constant-product invariant of a snapshot.
pub open spec fn pool_k(s: PoolSnapshot) -> int {
    s.reserve_a * s.reserve_b
}

/// The scaled reserve ratio `reserve_a * RATIO_SCALE / reserve_b`.
pub open spec fn scaled_ratio(s: PoolSnapshot) -> int {
    (s.reserve_a * RATIO_SCALE) / (s.reserve_b as int)
}

/// Absolute difference of two integers.
pub open spec fn abs_diff(x: int, y: int) -> int {
    if x > y { x - y } else { y - x }
}

/// Result of the liquidity depth check.
pub open spec fn spec_check_liquidity_depth(s: PoolSnapshot) -> Result<(), ContractError> {
    if s.reserve_a < MIN_LIQUIDITY_DEPTH || s.reserve_b < MIN_LIQUIDITY_DEPTH {
        Err(ContractError::FlashLoanArbitrageDetected)
    } else {
        Ok(())
    }
}

/// Result of the constant-product check.
pub open spec fn spec_check_k_nondecreasing(before: PoolSnapshot, after: PoolSnapshot) -> Result<(), ContractError> {
    if pool_k(after) < pool_k(before) {
        Err(ContractError::FlashLoanArbitrageDetected)
    } else {
        Ok(())
    }
}

/// Result of the reserve ratio check (both `reserve_b` non-zero).
pub open spec fn spec_check_reserve_ratio(before: PoolSnapshot, after: PoolSnapshot) -> Result<(), ContractError> {
    if before.reserve_a * RATIO_SCALE > u128::MAX || after.reserve_a * RATIO_SCALE > u128::MAX {
        Err(ContractError::Overflow)
    } else if scaled_ratio(before) * MAX_RATIO_DEVIATION_BPS > u128::MAX {
        Err(ContractError::Overflow)
    } else if abs_diff(scaled_ratio(after), scaled_ratio(before))
        > scaled_ratio(before) * MAX_RATIO_DEVIATION_BPS / (BPS_DENOMINATOR as int) {
        Err(ContractError::FlashLoanArbitrageDetected)
    } else {
        Ok(())
    }
}

/// Result of the combined guard.
pub open spec fn spec_check_flash_loan_arbitrage(before: PoolSnapshot, after: PoolSnapshot) -> Result<(), ContractError> {
    if before.reserve_a == 0 || before.reserve_b == 0 || after.reserve_a == 0 || after.reserve_b == 0 {
        Err(ContractError::InvalidInput)
    } else if spec_check_liquidity_depth(after) is Err {
        spec_check_liquidity_depth(after)
    } else if spec_check_k_nondecreasing(before, after) is Err {
        spec_check_k_nondecreasing(before, after)
    } else {
        spec_check_reserve_ratio(before, after)
    }
}

/// Validate the post-transaction pool state against the flash-loan
/// arbitrage criteria: zero reserves are invalid input, then the depth,
/// constant-product and ratio checks run in that order.
pub fn check_flash_loan_arbitrage(before: &PoolSnapshot, after: &PoolSnapshot) -> (r: Result<(), ContractError>)
    ensures
        r == spec_check_flash_loan_arbitrage(*before, *after),
{
    if before.reserve_a == 0 || before.reserve_b == 0 {
        return Err(ContractError::InvalidInput);
    }
    if after.reserve_a == 0 || after.reserve_b == 0 {
        return Err(ContractError::InvalidInput);
    }
    check_liquidity_depth(after)?;
    check_k_nondecreasing(before, after)?;
    check_reserve_ratio(before, after)?;
    Ok(())
}

/// Both reserves of `snapshot` must be at or above [`MIN_LIQUIDITY_DEPTH`].
pub fn check_liquidity_depth(snapshot: &PoolSnapshot) -> (r: Result<(), ContractError>)
    ensures
        r == spec_check_liquidity_depth(*snapshot),
{
    if snapshot.reserve_a < MIN_LIQUIDITY_DEPTH || snapshot.reserve_b < MIN_LIQUIDITY_DEPTH {
        return Err(ContractError::FlashLoanArbitrageDetected);
    }
    Ok(())
}

/// Ordering of two 256-bit values given as `(lo, hi)` words agrees with the
/// ordering of the integers they denote.
proof fn lemma_wide_lt(lo1: u128, hi1: u128, lo2: u128, hi2: u128)
    ensures
        (hi1 * two_pow_128() + lo1 < hi2 * two_pow_128() + lo2)
            <==> (hi1 < hi2 || (hi1 == hi2 && lo1 < lo2)),
{
    let t = two_pow_128();
    if hi1 < hi2 {
        assert(hi1 * t + lo1 < hi2 * t + lo2) by (nonlinear_arith)
            requires hi1 < hi2, lo1 < t, 0 <= lo2, t > 0;
    } else if hi1 > hi2 {
        assert(hi2 * t + lo2 < hi1 * t + lo1) by (nonlinear_arith)
            requires hi2 < hi1, lo2 < t, 0 <= lo1, t > 0;
    }
}

/// The constant product `k = reserve_a * reserve_b` must not decrease.
///
/// The products are formed exactly in 256 bits, so the comparison is exact
/// for every pair of `u128` reserves.
pub fn check_k_nondecreasing(before: &PoolSnapshot, after: &PoolSnapshot) -> (r: Result<(), ContractError>)
    ensures
        r == spec_check_k_nondecreasing(*before, *after),
{
    let (lo_b, hi_b) = wide_mul(before.reserve_a, before.reserve_b);
    let (lo_a, hi_a) = wide_mul(after.reserve_a, after.reserve_b);
    proof {
        lemma_wide_lt(lo_a, hi_a, lo_b, hi_b);
    }
    if hi_a < hi_b || (hi_a == hi_b && lo_a < lo_b) {
        return Err(ContractError::FlashLoanArbitrageDetected);
    }
    Ok(())
}

/// The reserve ratio may not shift by more than [`MAX_RATIO_DEVIATION_BPS`]
/// relative to its pre-transaction value.
pub fn check_reserve_ratio(before: &PoolSnapshot, after: &PoolSnapshot) -> (r: Result<(), ContractError>)
    requires
        before.reserve_a * RATIO_SCALE <= u128::MAX ==> before.reserve_b > 0,
        before.reserve_a * RATIO_SCALE <= u128::MAX && after.reserve_a * RATIO_SCALE <= u128::MAX ==> after.reserve_b
            > 0,
    ensures
        r == spec_check_reserve_ratio(*before, *after),
{
    let scaled_before = match before.reserve_a.checked_mul(RATIO_SCALE) {
        Some(v) => v,
        None => return Err(ContractError::Overflow),
    };
    let ratio_before = scaled_before / before.reserve_b;
    let scaled_after = match after.reserve_a.checked_mul(RATIO_SCALE) {
        Some(v) => v,
        None => return Err(ContractError::Overflow),
    };
    let ratio_after = scaled_after / after.reserve_b;
    let deviation = if ratio_after > ratio_before {
        ratio_after - ratio_before
    } else {
        ratio_before - ratio_after
    };
    let allowed = match ratio_before.checked_mul(MAX_RATIO_DEVIATION_BPS) {
        Some(v) => v / BPS_DENOMINATOR,
        None => return Err(ContractError::Overflow),
    };
    if deviation > allowed {
        return Err(ContractError::FlashLoanArbitrageDetected);
    }
    Ok(())
}

/// Exact 256-bit product `a * b` returned as `(lo, hi)` words, so that
/// `hi * 2^128 + lo == a * b`.
pub fn wide_mul(a: u128, b: u128) -> (r: (u128, u128))
    ensures
        r.1 * two_pow_128() + r.0 == a * b,
{
    let a_lo = a % TWO_POW_64;
    let a_hi = a / TWO_POW_64;
    let b_lo = b % TWO_POW_64;
    let b_hi = b / TWO_POW_64;
    let ghost t64: int = TWO_POW_64 as int;
    let ghost t128: int = two_pow_128();
    assert(t64 * t64 == t128);
    assert(a_hi < t64 && b_hi < t64) by {
        assert(a / TWO_POW_64 < TWO_POW_64 as int) by (nonlinear_arith)
            requires a <= u128::MAX;
        assert(b / TWO_POW_64 < TWO_POW_64 as int) by (nonlinear_arith)
            requires b <= u128::MAX;
    }
    assert(a_lo * b_lo <= (t64 - 1) * (t64 - 1)) by (nonlinear_arith)
        requires a_lo < t64, b_lo < t64, 0 <= a_lo, 0 <= b_lo;
    assert(a_lo * b_hi <= (t64 - 1) * (t64 - 1)) by (nonlinear_arith)
        requires a_lo < t64, b_hi < t64, 0 <= a_lo, 0 <= b_hi;
    assert(a_hi * b_lo <= (t64 - 1) * (t64 - 1)) by (nonlinear_arith)
        requires a_hi < t64, b_lo < t64, 0 <= a_hi, 0 <= b_lo;
    assert(a_hi * b_hi <= (t64 - 1) * (t64 - 1)) by (nonlinear_arith)
        requires a_hi < t64, b_hi < t64, 0 <= a_hi, 0 <= b_hi;
    let p_lo_lo = a_lo * b_lo;
    let p_lo_hi = a_lo * b_hi;
    let p_hi_lo = a_hi * b_lo;
    let p_hi_hi = a_hi * b_hi;

    // mid + carry_mid * 2^128 == p_lo_hi + p_hi_lo
    let (mid, carry_mid) = if p_lo_hi <= u128::MAX - p_hi_lo {
        (p_lo_hi + p_hi_lo, 0u128)
    } else {
        (p_lo_hi - (u128::MAX - p_hi_lo) - 1, 1u128)
    };
    let mid_lo = (mid % TWO_POW_64) * TWO_POW_64;
    let mid_hi = mid / TWO_POW_64 + carry_mid * TWO_POW_64;

    // lo + carry_lo * 2^128 == p_lo_lo + mid_lo
    let (lo, carry_lo) = if p_lo_lo <= u128::MAX - mid_lo {
        (p_lo_lo + mid_lo, 0u128)
    } else {
        (p_lo_lo - (u128::MAX - mid_lo) - 1, 1u128)
    };
    proof {
        assert(a == a_hi * t64 + a_lo);
        assert(b == b_hi * t64 + b_lo);
        assert(mid == (mid / TWO_POW_64) * t64 + mid % TWO_POW_64);
        assert(a * b == p_hi_hi * t128 + (p_lo_hi + p_hi_lo) * t64 + p_lo_lo) by (nonlinear_arith)
            requires
                a == a_hi * t64 + a_lo,
                b == b_hi * t64 + b_lo,
                p_hi_hi == a_hi * b_hi,
                p_lo_hi == a_lo * b_hi,
                p_hi_lo == a_hi * b_lo,
                p_lo_lo == a_lo * b_lo,
                t128 == t64 * t64;
        assert((p_lo_hi + p_hi_lo) * t64 == (mid / TWO_POW_64 + carry_mid * t64) * t128 + mid_lo) by (nonlinear_arith)
            requires
                p_lo_hi + p_hi_lo == mid + carry_mid * t128,
                mid == (mid / TWO_POW_64) * t64 + mid % TWO_POW_64,
                mid_lo == (mid % TWO_POW_64) * t64,
                t128 == t64 * t64;
        assert(a * b == (p_hi_hi + mid_hi + carry_lo) * t128 + lo);
        assert(a * b <= (u128::MAX as int) * (u128::MAX as int)) by (nonlinear_arith)
            requires 0 <= a <= u128::MAX, 0 <= b <= u128::MAX;
        assert(p_hi_hi + mid_hi + carry_lo <= u128::MAX) by (nonlinear_arith)
            requires
                a * b == (p_hi_hi + mid_hi + carry_lo) * t128 + lo,
                a * b <= (u128::MAX as int) * (u128::MAX as int),
                0 <= lo,
                t128 == u128::MAX + 1;
    }
    let hi = p_hi_hi + mid_hi + carry_lo;
    (lo, hi)
}

/// The reserve-ratio check measures the shift against the pre-trade ratio
/// alone: with both ratios taken as `reserve_a * 10^18 / reserve_b`
/// (rounded down) and no overflow, the trade is refused as arbitrage
/// exactly when the ratio moved by more than half of its pre-trade value,
/// `2 * |after - before| > before`, and passes otherwise.
pub proof fn lemma_ratio_shift_bounded_by_pre_trade_ratio(before: PoolSnapshot, after: PoolSnapshot)
    requires
        before.reserve_b > 0,
        after.reserve_b > 0,
        before.reserve_a * 1_000_000_000_000_000_000 <= u128::MAX,
        after.reserve_a * 1_000_000_000_000_000_000 <= u128::MAX,
        (before.reserve_a * 1_000_000_000_000_000_000) / (before.reserve_b as int) * 5_000 <= u128::MAX,
    ensures
        ({
            let rb = (before.reserve_a * 1_000_000_000_000_000_000) / (before.reserve_b as int);
            let ra = (after.reserve_a * 1_000_000_000_000_000_000) / (after.reserve_b as int);
            let shift = if ra >= rb { ra - rb } else { rb - ra };
            &&& 2 * shift > rb ==> spec_check_reserve_ratio(before, after) == Err::<(), ContractError>(
                ContractError::FlashLoanArbitrageDetected,
            )
            &&& 2 * shift <= rb ==> spec_check_reserve_ratio(before, after) == Ok::<(), ContractError>(())
        }),
{
    let rb = scaled_ratio(before);
    assert(rb >= 0) by (nonlinear_arith)
        requires
            rb == (before.reserve_a * RATIO_SCALE) / (before.reserve_b as int),
            before.reserve_b > 0,
    ;
    assert(rb * 5_000 / 10_000 == rb / 2) by (nonlinear_arith)
        requires
            rb >= 0,
    ;
    let ra = scaled_ratio(after);
    let shift = abs_diff(ra, rb);
    assert(shift > rb / 2 <==> 2 * shift > rb) by (nonlinear_arith)
        requires
            rb >= 0,
    ;
}

} // verus!
