use stellarflow::amm::positions::{
    accrue_fees, open_position, set_collateral_lock, transfer_position, ConcentratedPosition,
};
use stellarflow::amm::rebalancing::TickBounds;
use stellarflow::error::ContractError;
use stellarflow::Address;

const OWNER: Address = Address { hi: 0, lo: 1 };
const NEW_OWNER: Address = Address { hi: 0, lo: 2 };
const STRANGER: Address = Address { hi: 0, lo: 3 };
const BOUNDS: TickBounds = TickBounds { min_tick: -887_270, max_tick: 887_270 };

fn open(lower: i32, upper: i32, liquidity: u64, existing: Option<ConcentratedPosition>) -> Result<ConcentratedPosition, ContractError> {
    open_position(OWNER, 1, lower, upper, liquidity, Some(10), BOUNDS, existing, 0).map(|(p, _)| p)
}

#[test]
fn open_position_records_owner_and_range() {
    let (pos, count) = open_position(OWNER, 1, -100, 100, 5_000, Some(10), BOUNDS, None, 0).unwrap();
    assert_eq!(pos.owner, OWNER);
    assert_eq!(pos.asset, 1);
    assert_eq!(pos.lower_tick, -100);
    assert_eq!(pos.upper_tick, 100);
    assert_eq!(pos.liquidity, 5_000);
    assert_eq!(pos.fee_growth_inside_last, 0);
    assert_eq!(pos.tokens_owed_a, 0);
    assert_eq!(pos.tokens_owed_b, 0);
    assert!(!pos.collateral_locked);
    assert_eq!(count, 1);
}

#[test]
fn open_position_rejects_empty_range() {
    assert_eq!(open(100, 100, 1_000, None), Err(ContractError::InvalidTickRange));
    assert_eq!(open(200, 100, 1_000, None), Err(ContractError::InvalidTickRange));
}

#[test]
fn open_position_rejects_unaligned_ticks() {
    assert_eq!(open(-95, 100, 1_000, None), Err(ContractError::TickNotAligned));
}

#[test]
fn open_position_rejects_zero_liquidity() {
    assert_eq!(open(-100, 100, 0, None), Err(ContractError::InvalidStakeAmount));
}

#[test]
fn open_position_rejects_duplicate_range() {
    let first = open(-100, 100, 1_000, None).unwrap();
    assert_eq!(open(-100, 100, 1_000, Some(first)), Err(ContractError::PositionAlreadyExists));
}

#[test]
fn open_position_without_tick_index_is_refused() {
    let r = open_position(OWNER, 1, -100, 100, 1_000, None, BOUNDS, None, 0);
    assert_eq!(r.err(), Some(ContractError::TickIndexNotFound));
}

#[test]
fn transfer_moves_ownership() {
    let pos = open(-100, 100, 5_000, None).unwrap();
    let (moved, event) = transfer_position(Some(pos), OWNER, NEW_OWNER).unwrap();
    assert_eq!(moved.owner, NEW_OWNER);
    assert_eq!(moved.lower_tick, -100);
    assert_eq!(moved.upper_tick, 100);
    assert_eq!(moved.liquidity, 5_000);
    assert_eq!(event.old_owner, OWNER);
    assert_eq!(event.new_owner, NEW_OWNER);
}

#[test]
fn transfer_preserves_uncollected_fee_growth() {
    let pos = open(-100, 100, 5_000, None).unwrap();
    let accrued = accrue_fees(Some(pos), OWNER, 987_654_321, 42, 7).unwrap();
    assert_eq!(accrued.fee_growth_inside_last, 987_654_321);
    assert_eq!(accrued.tokens_owed_a, 42);
    assert_eq!(accrued.tokens_owed_b, 7);
    let (moved, _) = transfer_position(Some(accrued), OWNER, NEW_OWNER).unwrap();
    assert_eq!(moved.owner, NEW_OWNER);
    assert_eq!(moved.fee_growth_inside_last, 987_654_321);
    assert_eq!(moved.tokens_owed_a, 42);
    assert_eq!(moved.tokens_owed_b, 7);
}

#[test]
fn transfer_requires_current_owner() {
    let pos = open(-100, 100, 5_000, None).unwrap();
    assert_eq!(transfer_position(Some(pos), STRANGER, NEW_OWNER).err(), Some(ContractError::PositionNotOwned));
}

#[test]
fn transfer_rejects_self_transfer() {
    let pos = open(-100, 100, 5_000, None).unwrap();
    assert_eq!(transfer_position(Some(pos), OWNER, OWNER).err(), Some(ContractError::PositionTransferToSelf));
}

#[test]
fn transfer_rejects_unknown_position() {
    assert_eq!(transfer_position(None, OWNER, NEW_OWNER).err(), Some(ContractError::PositionNotFound));
}

#[test]
fn collateral_locked_position_cannot_transfer() {
    let pos = open(-100, 100, 5_000, None).unwrap();
    let locked = set_collateral_lock(Some(pos), OWNER, true).unwrap();
    assert_eq!(transfer_position(Some(locked), OWNER, NEW_OWNER).err(), Some(ContractError::PositionCollateralLocked));
    let released = set_collateral_lock(Some(locked), OWNER, false).unwrap();
    let (moved, _) = transfer_position(Some(released), OWNER, NEW_OWNER).unwrap();
    assert!(!moved.collateral_locked);
}

#[test]
fn transfer_emits_position_transferred_event() {
    let pos = open_position(OWNER, 7, -100, 100, 5_000, Some(10), BOUNDS, None, 0).unwrap().0;
    let accrued = accrue_fees(Some(pos), OWNER, 5, 10, 20).unwrap();
    let (_, event) = transfer_position(Some(accrued), OWNER, NEW_OWNER).unwrap();
    assert_eq!(event.asset, 7);
    assert_eq!(event.lower_tick, -100);
    assert_eq!(event.upper_tick, 100);
    assert_eq!(event.old_owner, OWNER);
    assert_eq!(event.new_owner, NEW_OWNER);
    assert_eq!(event.liquidity, 5_000);
    assert_eq!(event.fee_growth_inside_last, 5);
}

#[test]
fn fee_accrual_overflow_is_rejected() {
    let pos = open(-100, 100, 5_000, None).unwrap();
    let full = accrue_fees(Some(pos), OWNER, 0, u64::MAX, 0).unwrap();
    assert_eq!(accrue_fees(Some(full), OWNER, 0, 1, 0).err(), Some(ContractError::Overflow));
    assert_eq!(accrue_fees(Some(pos), STRANGER, 1, 1, 1).err(), Some(ContractError::PositionNotOwned));
}
