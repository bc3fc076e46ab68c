//! Concentrated liquidity position ownership and the collateral transfer
//! guard.
//!
//! A position is liquidity deployed over a tick range `[lower, upper)`. Its
//! uncollected fee accumulators belong to the position, so a change of owner
//! keeps them verbatim. A transfer is refused unless the caller owns the
//! position, the destination differs from the owner, and the position is not
//! pledged as collateral.
use vstd::prelude::*;

use crate::amm::rebalancing::TickBounds;
use crate::error::ContractError;
use crate::{Address, AssetId};

verus! {

/// Persistent storage keys of the position registry.
#[derive(Clone, Copy, Debug, PartialEq, Eq, Structural)]
pub enum PositionKey {
    /// Position record of a pool tick range: `(asset, lower, upper)`.
    Position(AssetId, i32, i32),
    /// Number of positions opened for a pool.
    Count(AssetId),
}

/// A concentrated liquidity position over `[lower_tick, upper_tick)`.
#[derive(Clone, Copy, Debug, PartialEq, Eq, Structural)]
pub struct ConcentratedPosition {
    pub owner: Address,
    pub asset: AssetId,
    pub lower_tick: i32,
    pub upper_tick: i32,
    pub liquidity: u64,
    /// Snapshot of the pool's fee-growth-inside accumulator.
    pub fee_growth_inside_last: i128,
    /// Uncollected token-A fees owed to the position.
    pub tokens_owed_a: u64,
    /// Uncollected token-B fees owed to the position.
    pub tokens_owed_b: u64,
    /// A position pledged as collateral cannot change owner.
    pub collateral_locked: bool,
}

/// Announces that a position moved from `old_owner` to `new_owner`.
#[derive(Clone, Copy, Debug, PartialEq, Eq, Structural)]
pub struct PositionTransferredEvent {
    pub asset: AssetId,
    pub lower_tick: i32,
    pub upper_tick: i32,
    pub old_owner: Address,
    pub new_owner: Address,
    pub liquidity: u64,
    pub fee_growth_inside_last: i128,
}

/// The storage key of a pool tick range.
pub fn position_key(asset: AssetId, lower_tick: i32, upper_tick: i32) -> (r: PositionKey)
    ensures
        r == PositionKey::Position(asset, lower_tick, upper_tick),
{
    PositionKey::Position(asset, lower_tick, upper_tick)
}

/// The error of a tick range under a pool's tick spacing (`None` when the
/// pool has no tick index), if any.
pub open spec fn tick_range_error(
    tick_spacing: Option<i32>,
    bounds: TickBounds,
    lower_tick: i32,
    upper_tick: i32,
) -> Option<ContractError> {
    match tick_spacing {
        None => Some(ContractError::TickIndexNotFound),
        Some(sp) => if lower_tick >= upper_tick {
            Some(ContractError::InvalidTickRange)
        } else if lower_tick < bounds.min_tick || upper_tick > bounds.max_tick {
            Some(ContractError::TickOutOfBounds)
        } else if (lower_tick as int) % (sp as int) != 0 || (upper_tick as int) % (sp as int) != 0 {
            Some(ContractError::TickNotAligned)
        } else {
            None
        },
    }
}

/// Whether the alignment check of a range can run: once the range is
/// ordered and inside the bounds, the tick spacing must divide its ticks
/// without faulting (no zero spacing, no `i32::MIN % -1`).
pub open spec fn spacing_usable(tick_spacing: Option<i32>, bounds: TickBounds, lower_tick: i32, upper_tick: i32) -> bool {
    match tick_spacing {
        None => true,
        Some(sp) => lower_tick < upper_tick && !(lower_tick < bounds.min_tick || upper_tick > bounds.max_tick)
            ==> sp != 0 && (sp == -1 ==> lower_tick != i32::MIN && upper_tick != i32::MIN),
    }
}

proof fn lemma_mod_zero_negate(x: int, d: int)
    requires
        d > 0,
        x % d == 0,
    ensures
        (-x) % d == 0,
{
    vstd::arithmetic::div_mod::lemma_fundamental_div_mod(x, d);
    assert(-x == d * (-(x / d)) + 0) by (nonlinear_arith)
        requires
            x == d * (x / d) + 0,
    ;
    vstd::arithmetic::div_mod::lemma_fundamental_div_mod_converse(-x, d, -(x / d), 0);
}

proof fn lemma_mod_negative_divisor(x: int, d: int)
    requires
        d > 0,
    ensures
        x % (-d) == x % d,
{
    assert(x % (-d) == x % d) by (nonlinear_arith)
        requires
            d > 0,
    ;
}

/// The `k`-th multiple of `step`.
pub open spec fn nth_multiple(k: int, step: int) -> int {
    k * step
}

/// A tick range passes validation exactly when it is non-empty, lies
/// inside the price bounds, and both its lower and its upper tick are whole
/// multiples of the pool's tick spacing.
pub proof fn lemma_accepted_ranges_are_aligned(sp: i32, bounds: TickBounds, lower_tick: i32, upper_tick: i32)
    requires
        sp != 0,
    ensures
        tick_range_error(Some(sp), bounds, lower_tick, upper_tick) is None <==> {
            &&& lower_tick < upper_tick
            &&& bounds.min_tick <= lower_tick
            &&& upper_tick <= bounds.max_tick
            &&& exists|k: int| lower_tick == #[trigger] nth_multiple(k, sp as int)
            &&& exists|j: int| upper_tick == #[trigger] nth_multiple(j, sp as int)
        },
{
    lemma_multiple_iff_mod_zero(lower_tick as int, sp as int);
    lemma_multiple_iff_mod_zero(upper_tick as int, sp as int);
}

/// `x` is a whole multiple of the non-zero `d` exactly when `x % d == 0`.
proof fn lemma_multiple_iff_mod_zero(x: int, d: int)
    requires
        d != 0,
    ensures
        (x % d == 0) <==> exists|k: int| x == #[trigger] nth_multiple(k, d),
{
    let a = if d > 0 { d } else { -d };
    if d < 0 {
        lemma_mod_negative_divisor(x, a);
    }
    vstd::arithmetic::div_mod::lemma_fundamental_div_mod(x, a);
    if x % d == 0 {
        let q = x / a;
        let k = if d > 0 { q } else { -q };
        assert(x == k * d) by (nonlinear_arith)
            requires
                x == a * q + 0,
                a == d || a == -d,
                k == (if a == d { q } else { -q }),
                d != 0,
        ;
        assert(x == nth_multiple(k, d));
    }
    if exists|k: int| x == #[trigger] nth_multiple(k, d) {
        let k = choose|k: int| x == #[trigger] nth_multiple(k, d);
        let q = if d > 0 { k } else { -k };
        assert(x == q * a + 0) by (nonlinear_arith)
            requires
                x == k * d,
                a == (if d > 0 { d } else { -d }),
                q == (if d > 0 { k } else { -k }),
        ;
        vstd::arithmetic::div_mod::lemma_fundamental_div_mod_converse(x, a, q, 0);
    }
}

/// Whether `tick` is a multiple of `spacing`.
fn tick_aligned(tick: i32, spacing: i32) -> (r: bool)
    requires
        spacing != 0,
    ensures
        r == ((tick as int) % (spacing as int) == 0),
{
    let t: u64 = if tick < 0 { (-(tick as i64)) as u64 } else { tick as u64 };
    let s: u64 = if spacing < 0 { (-(spacing as i64)) as u64 } else { spacing as u64 };
    let r = t % s == 0;
    proof {
        let ti = tick as int;
        let si = spacing as int;
        if si < 0 {
            lemma_mod_negative_divisor(ti, -si);
        }
        if ti < 0 {
            if (-ti) % (s as int) == 0 {
                lemma_mod_zero_negate(-ti, s as int);
            }
            if ti % (s as int) == 0 {
                lemma_mod_zero_negate(ti, s as int);
            }
        }
    }
    r
}

/// Validates that `[lower_tick, upper_tick)` is non-empty, inside the price
/// bounds and aligned to the pool's tick spacing.
pub fn validate_tick_range(
    tick_spacing: Option<i32>,
    bounds: TickBounds,
    lower_tick: i32,
    upper_tick: i32,
) -> (r: Result<(), ContractError>)
    requires
        spacing_usable(tick_spacing, bounds, lower_tick, upper_tick),
    ensures
        match tick_range_error(tick_spacing, bounds, lower_tick, upper_tick) {
            None => r is Ok,
            Some(e) => r == Err::<(), ContractError>(e),
        },
{
    let sp = match tick_spacing {
        None => return Err(ContractError::TickIndexNotFound),
        Some(sp) => sp,
    };
    if lower_tick >= upper_tick {
        return Err(ContractError::InvalidTickRange);
    }
    if lower_tick < bounds.min_tick || upper_tick > bounds.max_tick {
        return Err(ContractError::TickOutOfBounds);
    }
    if !tick_aligned(lower_tick, sp) || !tick_aligned(upper_tick, sp) {
        return Err(ContractError::TickNotAligned);
    }
    Ok(())
}

/// Opens a position over `[lower_tick, upper_tick)` with zeroed fee
/// accumulators. `existing` is the position already recorded for the range
/// and `count` the number of positions opened for the pool; on success the
/// new position and the incremented count are returned.
pub fn open_position(
    owner: Address,
    asset: AssetId,
    lower_tick: i32,
    upper_tick: i32,
    liquidity: u64,
    tick_spacing: Option<i32>,
    bounds: TickBounds,
    existing: Option<ConcentratedPosition>,
    count: u32,
) -> (r: Result<(ConcentratedPosition, u32), ContractError>)
    requires
        liquidity > 0 ==> spacing_usable(tick_spacing, bounds, lower_tick, upper_tick),
        liquidity > 0 && tick_range_error(tick_spacing, bounds, lower_tick, upper_tick) is None
            && existing is None ==> count < u32::MAX,
    ensures
        liquidity == 0 ==> r == Err::<(ConcentratedPosition, u32), ContractError>(
            ContractError::InvalidStakeAmount,
        ),
        liquidity > 0 && tick_range_error(tick_spacing, bounds, lower_tick, upper_tick) is Some
            ==> r == Err::<(ConcentratedPosition, u32), ContractError>(
            tick_range_error(tick_spacing, bounds, lower_tick, upper_tick)->0,
        ),
        liquidity > 0 && tick_range_error(tick_spacing, bounds, lower_tick, upper_tick) is None
            && existing is Some ==> r == Err::<(ConcentratedPosition, u32), ContractError>(
            ContractError::PositionAlreadyExists,
        ),
        liquidity > 0 && tick_range_error(tick_spacing, bounds, lower_tick, upper_tick) is None
            && existing is None ==> r == Ok::<(ConcentratedPosition, u32), ContractError>(
            (
                ConcentratedPosition {
                    owner,
                    asset,
                    lower_tick,
                    upper_tick,
                    liquidity,
                    fee_growth_inside_last: 0,
                    tokens_owed_a: 0,
                    tokens_owed_b: 0,
                    collateral_locked: false,
                },
                (count + 1) as u32,
            ),
        ),
{
    if liquidity == 0 {
        return Err(ContractError::InvalidStakeAmount);
    }
    match validate_tick_range(tick_spacing, bounds, lower_tick, upper_tick) {
        Ok(()) => {},
        Err(e) => return Err(e),
    }
    if existing.is_some() {
        return Err(ContractError::PositionAlreadyExists);
    }
    let position = ConcentratedPosition {
        owner,
        asset,
        lower_tick,
        upper_tick,
        liquidity,
        fee_growth_inside_last: 0,
        tokens_owed_a: 0,
        tokens_owed_b: 0,
        collateral_locked: false,
    };
    Ok((position, count + 1))
}

/// The position as `owner` may change it: missing and foreign positions are
/// refused.
pub open spec fn owned_position(
    position: Option<ConcentratedPosition>,
    owner: Address,
) -> Result<ConcentratedPosition, ContractError> {
    match position {
        None => Err(ContractError::PositionNotFound),
        Some(p) => if p.owner != owner {
            Err(ContractError::PositionNotOwned)
        } else {
            Ok(p)
        },
    }
}

/// Accrues uncollected fees onto the owner's position.
pub fn accrue_fees(
    position: Option<ConcentratedPosition>,
    owner: Address,
    fee_growth_delta: i128,
    tokens_a: u64,
    tokens_b: u64,
) -> (r: Result<ConcentratedPosition, ContractError>)
    ensures
        match owned_position(position, owner) {
            Err(e) => r == Err::<ConcentratedPosition, ContractError>(e),
            Ok(p) => if p.fee_growth_inside_last + fee_growth_delta < i128::MIN
                || p.fee_growth_inside_last + fee_growth_delta > i128::MAX
                || p.tokens_owed_a + tokens_a > u64::MAX || p.tokens_owed_b + tokens_b > u64::MAX {
                r == Err::<ConcentratedPosition, ContractError>(ContractError::Overflow)
            } else {
                r == Ok::<ConcentratedPosition, ContractError>(
                    ConcentratedPosition {
                        fee_growth_inside_last: (p.fee_growth_inside_last + fee_growth_delta) as i128,
                        tokens_owed_a: (p.tokens_owed_a + tokens_a) as u64,
                        tokens_owed_b: (p.tokens_owed_b + tokens_b) as u64,
                        ..p
                    },
                )
            },
        },
{
    let mut p = match position {
        None => return Err(ContractError::PositionNotFound),
        Some(p) => p,
    };
    if p.owner != owner {
        return Err(ContractError::PositionNotOwned);
    }
    p.fee_growth_inside_last = match p.fee_growth_inside_last.checked_add(fee_growth_delta) {
        Some(v) => v,
        None => return Err(ContractError::Overflow),
    };
    p.tokens_owed_a = match p.tokens_owed_a.checked_add(tokens_a) {
        Some(v) => v,
        None => return Err(ContractError::Overflow),
    };
    p.tokens_owed_b = match p.tokens_owed_b.checked_add(tokens_b) {
        Some(v) => v,
        None => return Err(ContractError::Overflow),
    };
    Ok(p)
}

/// Pledges (`locked`) or releases the owner's position as collateral.
pub fn set_collateral_lock(
    position: Option<ConcentratedPosition>,
    owner: Address,
    locked: bool,
) -> (r: Result<ConcentratedPosition, ContractError>)
    ensures
        match owned_position(position, owner) {
            Err(e) => r == Err::<ConcentratedPosition, ContractError>(e),
            Ok(p) => r == Ok::<ConcentratedPosition, ContractError>(
                ConcentratedPosition { collateral_locked: locked, ..p },
            ),
        },
{
    let mut p = match position {
        None => return Err(ContractError::PositionNotFound),
        Some(p) => p,
    };
    if p.owner != owner {
        return Err(ContractError::PositionNotOwned);
    }
    p.collateral_locked = locked;
    Ok(p)
}

/// Moves the owner's position to `new_owner`. Only the owner changes: the
/// tick range, liquidity and every uncollected fee accumulator follow the
/// position unchanged. The announcing event is returned beside it.
pub fn transfer_position(
    position: Option<ConcentratedPosition>,
    owner: Address,
    new_owner: Address,
) -> (r: Result<(ConcentratedPosition, PositionTransferredEvent), ContractError>)
    ensures
        match transfer_outcome(position, owner, new_owner) {
            Ok(q) => r is Ok && r->Ok_0.0 == q,
            Err(e) => r == Err::<(ConcentratedPosition, PositionTransferredEvent), ContractError>(e),
        },
        match owned_position(position, owner) {
            Err(e) => r == Err::<(ConcentratedPosition, PositionTransferredEvent), ContractError>(e),
            Ok(p) => if new_owner == owner {
                r == Err::<(ConcentratedPosition, PositionTransferredEvent), ContractError>(
                    ContractError::PositionTransferToSelf,
                )
            } else if p.collateral_locked {
                r == Err::<(ConcentratedPosition, PositionTransferredEvent), ContractError>(
                    ContractError::PositionCollateralLocked,
                )
            } else {
                r == Ok::<(ConcentratedPosition, PositionTransferredEvent), ContractError>(
                    (
                        ConcentratedPosition { owner: new_owner, ..p },
                        PositionTransferredEvent {
                            asset: p.asset,
                            lower_tick: p.lower_tick,
                            upper_tick: p.upper_tick,
                            old_owner: owner,
                            new_owner,
                            liquidity: p.liquidity,
                            fee_growth_inside_last: p.fee_growth_inside_last,
                        },
                    ),
                )
            },
        },
{
    let mut p = match position {
        None => return Err(ContractError::PositionNotFound),
        Some(p) => p,
    };
    if p.owner != owner {
        return Err(ContractError::PositionNotOwned);
    }
    if new_owner == owner {
        return Err(ContractError::PositionTransferToSelf);
    }
    if p.collateral_locked {
        return Err(ContractError::PositionCollateralLocked);
    }
    let old_owner = p.owner;
    p.owner = new_owner;
    let event = PositionTransferredEvent {
        asset: p.asset,
        lower_tick: p.lower_tick,
        upper_tick: p.upper_tick,
        old_owner,
        new_owner,
        liquidity: p.liquidity,
        fee_growth_inside_last: p.fee_growth_inside_last,
    };
    Ok((p, event))
}

/// A transfer keeps everything the position earned: after a successful
/// transfer the moved position differs from the position it was in its owner only,
/// and transferring it back restores that position exactly.
pub proof fn lemma_transfer_preserves_accumulators(
    p: ConcentratedPosition,
    new_owner: Address,
)
    requires
        !p.collateral_locked,
        new_owner != p.owner,
    ensures
        transfer_outcome(Some(p), p.owner, new_owner) matches Ok(moved) && {
            &&& moved.owner == new_owner
            &&& moved.fee_growth_inside_last == p.fee_growth_inside_last
            &&& moved.tokens_owed_a == p.tokens_owed_a
            &&& moved.tokens_owed_b == p.tokens_owed_b
            &&& moved.liquidity == p.liquidity
            &&& moved.lower_tick == p.lower_tick
            &&& moved.upper_tick == p.upper_tick
            &&& transfer_outcome(Some(moved), new_owner, p.owner) == Ok::<
                ConcentratedPosition,
                ContractError,
            >(p)
        },
{
}

/// A position pledged as collateral cannot move until it is released, after
/// which its owner may transfer it.
pub proof fn lemma_collateral_lock_blocks_transfer(
    p: ConcentratedPosition,
    new_owner: Address,
)
    requires
        new_owner != p.owner,
    ensures
        transfer_outcome(Some(ConcentratedPosition { collateral_locked: true, ..p }), p.owner, new_owner)
            == Err::<ConcentratedPosition, ContractError>(ContractError::PositionCollateralLocked),
        transfer_outcome(Some(ConcentratedPosition { collateral_locked: false, ..p }), p.owner, new_owner)
            is Ok,
{
}

/// The position that [`transfer_position`] yields.
pub open spec fn transfer_outcome(
    position: Option<ConcentratedPosition>,
    owner: Address,
    new_owner: Address,
) -> Result<ConcentratedPosition, ContractError> {
    match owned_position(position, owner) {
        Err(e) => Err(e),
        Ok(p) => if new_owner == owner {
            Err(ContractError::PositionTransferToSelf)
        } else if p.collateral_locked {
            Err(ContractError::PositionCollateralLocked)
        } else {
            Ok(ConcentratedPosition { owner: new_owner, ..p })
        },
    }
}

} // verus!
