use stellarflow::amm::rebalancing::{
    adjust_liquidity_range, authorize_vault_strategy, calculate_rebalance_amounts, compute_reserve_ratio,
    compute_swap_out, execute_rebalance, finish_rebalance, rebalance_vault_position, initialize_rebalancing, is_vault_strategy_authorized, plan_rebalance,
    should_rebalance, RebalanceConfig, RebalancePlan, TickBounds, VaultPosition, MAX_REBALANCE_SLIPPAGE_BPS,
    REBALANCE_THRESHOLD_BPS, TARGET_RATIO_BPS,
};
use stellarflow::error::ContractError;
use stellarflow::Address;

const NOW: u64 = 1_000_000;

fn addr(n: u128) -> Address {
    Address { hi: 0, lo: n }
}

fn config(enabled: bool) -> RebalanceConfig {
    RebalanceConfig { asset: 1, enabled, ..RebalanceConfig::default() }
}

#[test]
fn test_compute_reserve_ratio_equal() {
    let ratio = compute_reserve_ratio(1_000_000, 1_000_000).unwrap();
    assert_eq!(ratio, 5000);
}

#[test]
fn test_compute_reserve_ratio_token0_heavy() {
    let ratio = compute_reserve_ratio(2_000_000, 1_000_000).unwrap();
    assert_eq!(ratio, 6666);
}

#[test]
fn test_compute_reserve_ratio_token1_heavy() {
    let ratio = compute_reserve_ratio(1_000_000, 3_000_000).unwrap();
    assert_eq!(ratio, 2500);
}

#[test]
fn test_compute_reserve_ratio_zero_total() {
    assert_eq!(compute_reserve_ratio(0, 0), Err(ContractError::DivisionByZero));
}

#[test]
fn test_should_rebalance_no_deviation() {
    let result = should_rebalance(1_000_000, 1_000_000, 5000, 50).unwrap();
    assert!(!result);
}

#[test]
fn test_should_rebalance_small_deviation() {
    let result = should_rebalance(1_020_000, 980_000, 5000, 50).unwrap();
    assert!(result);
}

#[test]
fn test_should_rebalance_below_threshold() {
    let result = should_rebalance(1_006_000, 994_000, 5000, 50).unwrap();
    assert!(!result);
}

#[test]
fn test_calculate_rebalance_amounts_token0_heavy() {
    let (amt0, amt1, dir) = calculate_rebalance_amounts(1_200_000, 800_000, 5000).unwrap();
    assert!(dir);
    assert!(amt0 > 0);
    assert!(amt1 > 0);
}

#[test]
fn test_calculate_rebalance_amounts_token1_heavy() {
    let (amt0, amt1, dir) = calculate_rebalance_amounts(800_000, 1_200_000, 5000).unwrap();
    assert!(!dir);
    assert!(amt0 > 0);
    assert!(amt1 > 0);
}

#[test]
fn test_rebalance_config_defaults() {
    let config = RebalanceConfig::default();
    assert!(!config.enabled);
    assert_eq!(config.target_ratio_bps, TARGET_RATIO_BPS);
    assert_eq!(config.threshold_bps, REBALANCE_THRESHOLD_BPS);
    assert_eq!(config.max_slippage_bps, MAX_REBALANCE_SLIPPAGE_BPS);
}

#[test]
fn test_adjust_liquidity_range_validation() {
    let vault = Some(authorize_vault_strategy(addr(2), 100, 10000, NOW));
    let position = Some(VaultPosition {
        strategy: addr(2),
        lower_tick: 0,
        upper_tick: 10,
        liquidity: 10,
        reserve0: 0,
        reserve1: 0,
        updated_at: 0,
    });
    let bounds = TickBounds { min_tick: -1000, max_tick: 1000 };
    let result = adjust_liquidity_range(&vault, &position, 10, 10, &bounds, NOW);
    assert_eq!(result, Err(ContractError::InvalidInput));
    let result = adjust_liquidity_range(&vault, &position, 10, 0, &bounds, NOW);
    assert_eq!(result, Err(ContractError::InvalidInput));
    let result = adjust_liquidity_range(&vault, &position, 0, 101, &bounds, NOW);
    assert_eq!(result, Err(ContractError::InvalidInput));
    let result = adjust_liquidity_range(&vault, &position, 950, 1001, &bounds, NOW);
    assert_eq!(result, Err(ContractError::TickOutOfBounds));
    let moved = adjust_liquidity_range(&vault, &position, 20, 60, &bounds, NOW).unwrap();
    assert_eq!((moved.lower_tick, moved.upper_tick, moved.liquidity, moved.updated_at), (20, 60, 10, NOW));
    assert_eq!(adjust_liquidity_range(&None, &position, 20, 60, &bounds, NOW), Err(ContractError::NotRegistered));
}

/// A swap at a 1:1 price: the amount out equals the amount in.
fn par_swap(amount_in: u128, _token0_to_token1: bool, _fee_bps: u32) -> u128 {
    amount_in
}

#[test]
fn test_execute_rebalance_not_enabled() {
    let (result, stored) = execute_rebalance(&config(false), true, NOW, 1_200_000, 800_000, par_swap).unwrap();
    assert!(!result.executed);
    assert_eq!(stored, config(false));
}

#[test]
fn test_execute_rebalance_unauthorized_caller() {
    let vault = Some(authorize_vault_strategy(addr(2), 100, 10000, NOW));
    assert!(is_vault_strategy_authorized(&vault));
    assert!(!is_vault_strategy_authorized(&None));
    let result = execute_rebalance(&config(true), is_vault_strategy_authorized(&None), NOW, 1_200_000, 800_000, par_swap);
    assert_eq!(result, Err(ContractError::Unauthorized));
}

#[test]
fn test_execute_rebalance_below_threshold() {
    let cfg = RebalanceConfig { threshold_bps: 500, ..config(true) };
    let (result, _) = execute_rebalance(&cfg, true, NOW, 1_010_000, 990_000, par_swap).unwrap();
    assert!(!result.executed);
    assert_eq!(plan_rebalance(&cfg, true, NOW, 1_010_000, 990_000), Ok(RebalancePlan::Skip));
}

#[test]
fn rebalance_waits_for_minimum_interval() {
    let cfg = RebalanceConfig { last_rebalance_at: NOW - 10, ..config(true) };
    assert_eq!(plan_rebalance(&cfg, true, NOW, 1_200_000, 800_000), Ok(RebalancePlan::Skip));
    let (result, stored) = execute_rebalance(&cfg, true, NOW, 1_200_000, 800_000, par_swap).unwrap();
    assert!(!result.executed);
    assert_eq!(stored.last_rebalance_at, NOW - 10);
}

#[test]
fn test_execute_rebalance_success() {
    let cfg = RebalanceConfig { threshold_bps: 50, max_slippage_bps: 100, ..config(true) };
    // 60/40 split: a 10 % deviation triggers the rebalance.
    let (result, new_cfg) = execute_rebalance(&cfg, true, NOW, 1_200_000, 800_000, par_swap).unwrap();
    assert!(result.executed);
    assert!(result.amount0_swapped > 0 || result.amount1_swapped > 0);
    assert_eq!((result.amount0_swapped, result.amount1_swapped), (200_000, 200_000));
    assert_eq!(new_cfg.last_rebalance_at, NOW);
}

#[test]
fn execute_rebalance_hands_the_swap_its_inputs() {
    let cfg = RebalanceConfig { threshold_bps: 50, max_slippage_bps: 100, rebalance_fee_bps: 30, ..config(true) };
    let swap = |amount_in: u128, token0_to_token1: bool, fee_bps: u32| {
        assert_eq!((amount_in, token0_to_token1, fee_bps), (200_000, false, 30));
        amount_in
    };
    // Token1-heavy: token1 is swapped for token0.
    let (result, _) = execute_rebalance(&cfg, true, NOW, 800_000, 1_200_000, swap).unwrap();
    assert_eq!((result.amount0_swapped, result.amount1_swapped), (200_000, 200_000));
}

#[test]
fn execute_rebalance_rejects_output_below_slippage_floor() {
    let cfg = RebalanceConfig { threshold_bps: 50, max_slippage_bps: 100, ..config(true) };
    let plan = plan_rebalance(&cfg, true, NOW, 1_200_000, 800_000).unwrap();
    let min_out = match plan {
        RebalancePlan::Swap { min_amount_out, .. } => min_amount_out,
        RebalancePlan::Skip => panic!("a 60/40 split must rebalance"),
    };
    assert_eq!(min_out, 113_142);
    let short = |_: u128, _: bool, _: u32| 113_141u128;
    assert_eq!(execute_rebalance(&cfg, true, NOW, 1_200_000, 800_000, short), Err(ContractError::SlippageExceeded));
    let exact = |_: u128, _: bool, _: u32| 113_142u128;
    let (result, _) = execute_rebalance(&cfg, true, NOW, 1_200_000, 800_000, exact).unwrap();
    assert_eq!((result.amount0_swapped, result.amount1_swapped), (200_000, 113_142));
    assert_eq!(finish_rebalance(&cfg, &plan, 113_142, NOW).unwrap().0, result);
    assert_eq!(compute_swap_out(100, 1_000, 1_000), Ok(90));
}

#[test]
fn rebalance_vault_position_swaps_the_surplus() {
    let cfg = RebalanceConfig { threshold_bps: 50, max_slippage_bps: 100, ..config(true) };
    let vault = Some(authorize_vault_strategy(addr(2), 100, 10_000, NOW));
    let position = VaultPosition {
        strategy: addr(2), lower_tick: 0, upper_tick: 10, liquidity: 10, reserve0: 600, reserve1: 400, updated_at: 0,
    };
    // Surplus of token0: 100 units go in; the pool quote is 100 * 1000 / 1100 = 90.
    let swapped = |amount_in: u128, token0_to_token1: bool, _: u32| {
        assert_eq!((amount_in, token0_to_token1), (100, true));
        90u128
    };
    let result = rebalance_vault_position(&vault, &Some(cfg), &Some(position), 1_000, 1_000, swapped).unwrap();
    assert_eq!((result.executed, result.amount0_swapped, result.amount1_swapped, result.positions_adjusted), (true, 100, 90, 1));
    assert_eq!(rebalance_vault_position(&vault, &Some(cfg), &Some(position), 1_000, 1_000, |_: u128, _: bool, _: u32| 0u128),
        Err(ContractError::SlippageExceeded));
    assert_eq!(rebalance_vault_position(&None, &Some(cfg), &Some(position), 1_000, 1_000, swapped),
        Err(ContractError::NotRegistered));
    let balanced = VaultPosition { reserve0: 500, reserve1: 500, ..position };
    assert!(!rebalance_vault_position(&vault, &Some(cfg), &Some(balanced), 1_000, 1_000, swapped).unwrap().executed);
}

#[test]
fn test_initialize_rebalancing_duplicate() {
    let cfg = config(true);
    let stored = initialize_rebalancing(false, 1, &cfg, NOW).unwrap();
    assert_eq!(stored.last_rebalance_at, NOW);
    let result = initialize_rebalancing(true, 1, &cfg, NOW);
    assert_eq!(result, Err(ContractError::AlreadyInitialized));
    let bad = RebalanceConfig { target_ratio_bps: 0, ..cfg };
    assert_eq!(initialize_rebalancing(false, 1, &bad, NOW), Err(ContractError::InvalidInput));
}

#[test]
fn test_vault_strategy_authorization() {
    let strategy = addr(2);
    let vault = authorize_vault_strategy(strategy, 100, 10000, NOW);
    assert_eq!(vault.strategy, strategy);
    assert!(vault.authorized);
    assert_eq!(vault.max_tick_range, 100);
    assert_eq!(vault.max_liquidity, 10000);
    assert!(is_vault_strategy_authorized(&Some(vault)));
    // Deauthorizing removes the record.
    assert!(!is_vault_strategy_authorized(&None));
}
