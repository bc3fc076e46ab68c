use stellarflow::contracts::stop_loss::{
    Config, ContractError, StopLossTrigger, StopLossTriggerContract, TriggerCondition,
};
use stellarflow::Address;

const ADMIN: Address = Address { hi: 0, lo: 1 };
const ORACLE: Address = Address { hi: 0, lo: 2 };
const OWNER: Address = Address { hi: 0, lo: 3 };
const SELL: Address = Address { hi: 0, lo: 4 };
const BUY: Address = Address { hi: 0, lo: 5 };
const ATTACKER: Address = Address { hi: 0, lo: 6 };

fn setup() -> Option<Config> {
    Some(StopLossTriggerContract::initialize(false, ADMIN, ORACLE).unwrap())
}

fn register(
    symbol: &str,
    stop: i128,
    condition: TriggerCondition,
    min_fill: i128,
    max_fill: i128,
    min_out: i128,
) -> Result<StopLossTrigger, ContractError> {
    StopLossTriggerContract::register_trigger(
        0,
        OWNER,
        SELL,
        BUY,
        symbol.to_string(),
        1_000,
        stop,
        condition,
        min_fill,
        max_fill,
        min_out,
        10,
    )
    .map(|(t, _)| t)
}

/// Sell 1_000 at a stop of 1.20e9, fill corridor [9.0e8, 1.10e9], min
/// proceeds 90_000.
fn standard() -> StopLossTrigger {
    register("NGN", 1_200_000_000, TriggerCondition::PriceBelow, 900_000_000, 1_100_000_000, 90_000).unwrap()
}

/// Runs an execution against a verified TWAP and a buy-side pool.
fn execute(
    trigger: &mut Option<StopLossTrigger>,
    claimed: i128,
    twap: Option<i128>,
    pool: i128,
) -> Result<i128, ContractError> {
    StopLossTriggerContract::execute_trigger(setup(), trigger, 0, claimed, twap, pool, 99).map(|r| r.proceeds)
}

#[test]
fn initialize_sets_config_and_rejects_double_init() {
    let config = setup().unwrap();
    assert_eq!(config.admin, ADMIN);
    assert_eq!(StopLossTriggerContract::initialize(true, ATTACKER, ORACLE), Err(ContractError::AlreadyInitialized));
}

#[test]
fn set_oracle_requires_current_admin() {
    assert_eq!(StopLossTriggerContract::set_oracle(setup(), ATTACKER, BUY), Err(ContractError::NotAdmin));
    assert_eq!(StopLossTriggerContract::set_oracle(setup(), ADMIN, BUY).unwrap().oracle, BUY);
}

#[test]
fn register_trigger_escrows_sell_asset() {
    let (trigger, next) = StopLossTriggerContract::register_trigger(
        0,
        OWNER,
        SELL,
        BUY,
        "NGN".to_string(),
        1_000,
        1_200_000_000,
        TriggerCondition::PriceBelow,
        900_000_000,
        1_100_000_000,
        90_000,
        10,
    )
    .unwrap();
    assert_eq!(trigger.owner, OWNER);
    assert_eq!(trigger.sell_amount, 1_000);
    assert!(trigger.active);
    assert_eq!(next, 1);
}

#[test]
fn register_rejects_invalid_params() {
    let r = StopLossTriggerContract::register_trigger(
        0, OWNER, SELL, BUY, "NGN".to_string(), 0, 1_200_000_000, TriggerCondition::PriceBelow, 900_000_000,
        1_100_000_000, 0, 10,
    );
    assert_eq!(r.err(), Some(ContractError::InvalidAmount));
    assert_eq!(
        register("NGN", 0, TriggerCondition::PriceBelow, 900_000_000, 1_100_000_000, 0).err(),
        Some(ContractError::InvalidTriggerPrice)
    );
    assert_eq!(
        register("NGN", 1_200_000_000, TriggerCondition::PriceBelow, 1_100_000_000, 900_000_000, 0).err(),
        Some(ContractError::InvalidSlippageBounds)
    );
    assert_eq!(
        register("NGN", 1_200_000_000, TriggerCondition::PriceBelow, 900_000_000, 1_100_000_000, -1).err(),
        Some(ContractError::InvalidSlippageBounds)
    );
}

#[test]
fn execute_on_stop_loss_breach_swaps_position() {
    let mut t = Some(standard());
    let r = StopLossTriggerContract::execute_trigger(setup(), &mut t, 0, 1_000_000_000, Some(1_000_000_000), 500_000, 99)
        .unwrap();
    assert_eq!(r.twap_price, 1_000_000_000);
    assert_eq!(r.fill_price, 1_000_000_000);
    assert_eq!(r.proceeds, 100_000);
    assert_eq!(r.executed_at, 99);
    assert!(!t.unwrap().active);
}

#[test]
fn execute_fires_at_exact_stop_price_boundary() {
    let mut t = Some(
        register("NGN", 1_200_000_000, TriggerCondition::PriceBelow, 1_000_000_000, 1_200_000_000, 100_000).unwrap(),
    );
    assert_eq!(execute(&mut t, 1_200_000_000, Some(1_200_000_000), 500_000), Ok(120_000));
    assert!(!t.unwrap().active);
}

#[test]
fn execute_price_above_direction_fires_on_rise() {
    let mut t = Some(
        register("NGN", 1_000_000_000, TriggerCondition::PriceAbove, 1_100_000_000, 1_300_000_000, 100_000).unwrap(),
    );
    assert_eq!(execute(&mut t, 1_200_000_000, Some(1_200_000_000), 500_000), Ok(120_000));
    assert!(!t.unwrap().active);
}

#[test]
fn execute_without_breach_keeps_trigger_active_and_untouched() {
    let mut t = Some(standard());
    assert_eq!(execute(&mut t, 1_300_000_000, Some(1_300_000_000), 500_000), Err(ContractError::TriggerConditionNotMet));
    assert!(t.unwrap().active);
}

#[test]
fn keeper_claimed_price_must_match_verified_twap() {
    let mut t = Some(standard());
    assert_eq!(execute(&mut t, 1_000_000_001, Some(1_000_000_000), 500_000), Err(ContractError::TriggerPriceNotVerified));
    assert!(t.unwrap().active);
}

#[test]
fn execute_without_oracle_data_fails_cleanly() {
    let mut t = Some(register("UNFED", 1_200_000_000, TriggerCondition::PriceBelow, 900_000_000, 1_100_000_000, 0).unwrap());
    assert_eq!(execute(&mut t, 1_000_000_000, None, 500_000), Err(ContractError::OraclePriceUnavailable));
    assert!(t.unwrap().active);
}

#[test]
fn fill_price_above_max_fill_price_reverts_with_slippage() {
    let mut t = Some(register("NGN", 1_200_000_000, TriggerCondition::PriceBelow, 900_000_000, 1_000_000_000, 0).unwrap());
    assert_eq!(execute(&mut t, 1_100_000_000, Some(1_100_000_000), 500_000), Err(ContractError::SlippageExceeded));
    assert!(t.unwrap().active);
}

#[test]
fn fill_price_below_min_fill_price_reverts_with_slippage() {
    let mut t = Some(register("NGN", 1_200_000_000, TriggerCondition::PriceBelow, 1_050_000_000, 1_200_000_000, 0).unwrap());
    assert_eq!(execute(&mut t, 1_000_000_000, Some(1_000_000_000), 500_000), Err(ContractError::SlippageExceeded));
    assert!(t.unwrap().active);
}

#[test]
fn proceeds_below_min_amount_out_reverts_with_slippage() {
    let mut t = Some(register("NGN", 1_200_000_000, TriggerCondition::PriceBelow, 900_000_000, 1_100_000_000, 150_000).unwrap());
    assert_eq!(execute(&mut t, 1_000_000_000, Some(1_000_000_000), 500_000), Err(ContractError::SlippageExceeded));
    assert!(t.unwrap().active);
}

#[test]
fn second_execution_is_rejected() {
    let mut t = Some(standard());
    assert_eq!(execute(&mut t, 1_000_000_000, Some(1_000_000_000), 500_000), Ok(100_000));
    assert_eq!(execute(&mut t, 1_000_000_000, Some(1_000_000_000), 500_000), Err(ContractError::TriggerNotActive));
}

#[test]
fn insufficient_pool_liquidity_reverts_and_keeps_trigger_active() {
    let mut t = Some(standard());
    assert_eq!(execute(&mut t, 1_000_000_000, Some(1_000_000_000), 0), Err(ContractError::InsufficientLiquidity));
    assert!(t.as_ref().unwrap().active);
    let funded = StopLossTriggerContract::fund_pool(200_000).unwrap();
    assert_eq!(execute(&mut t, 1_000_000_000, Some(1_000_000_000), funded), Ok(100_000));
}

#[test]
fn cancel_refunds_escrow_and_blocks_execution() {
    let mut t = Some(standard());
    assert_eq!(StopLossTriggerContract::cancel_trigger(&mut t, OWNER), Ok(1_000));
    assert!(!t.as_ref().unwrap().active);
    assert_eq!(execute(&mut t, 1_000_000_000, Some(1_000_000_000), 500_000), Err(ContractError::TriggerNotActive));
}

#[test]
fn non_owner_cannot_cancel_trigger() {
    let mut t = Some(standard());
    assert_eq!(StopLossTriggerContract::cancel_trigger(&mut t, ATTACKER), Err(ContractError::NotTriggerOwner));
    assert!(t.unwrap().active);
}

#[test]
fn unknown_trigger_id_fails() {
    let mut none: Option<StopLossTrigger> = None;
    assert_eq!(execute(&mut none, 1_000_000_000, Some(1_000_000_000), 500_000), Err(ContractError::TriggerNotFound));
    assert_eq!(StopLossTriggerContract::cancel_trigger(&mut none, OWNER), Err(ContractError::TriggerNotFound));
}

#[test]
fn any_keeper_may_execute() {
    // Execution takes no caller: whoever submits a verified price may run it.
    let mut t = Some(standard());
    assert_eq!(execute(&mut t, 1_000_000_000, Some(1_000_000_000), 500_000), Ok(100_000));
}

#[test]
fn fund_pool_adds_liquidity_and_rejects_zero() {
    assert_eq!(StopLossTriggerContract::fund_pool(5_000), Ok(5_000));
    assert_eq!(StopLossTriggerContract::fund_pool(0), Err(ContractError::InvalidAmount));
}

#[test]
fn error_codes_match_contract_numbering() {
    assert_eq!(ContractError::AlreadyInitialized.code(), 1);
    assert_eq!(ContractError::InsufficientLiquidity.code(), 14);
}

#[test]
fn cancelled_trigger_cannot_be_cancelled_again() {
    let mut t = Some(standard());
    assert_eq!(StopLossTriggerContract::cancel_trigger(&mut t, OWNER), Ok(1_000));
    assert_eq!(StopLossTriggerContract::cancel_trigger(&mut t, OWNER), Err(ContractError::TriggerNotActive));
    assert_eq!(StopLossTriggerContract::cancel_trigger(&mut t, ATTACKER), Err(ContractError::NotTriggerOwner));
}
