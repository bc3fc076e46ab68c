use stellarflow::amm::deviation_guard::{
    enforce_oracle_deviation_guard, enforce_swap_oracle_guard, get_oracle_deviation_config,
    set_oracle_deviation_config, validate_oracle_deviation_config, OracleDeviationConfig,
    DEFAULT_MAX_ORACLE_DEVIATION_BPS, MAX_ORACLE_DEVIATION_BPS, MIN_ORACLE_DEVIATION_BPS,
};
use stellarflow::contract::ContractData;
use stellarflow::error::ContractError;
use stellarflow::Address;

fn addr(n: u128) -> Address {
    Address { hi: 0, lo: n }
}

fn data(admin: Address) -> Option<ContractData> {
    Some(ContractData { admin, value: 0, max_fee_ceiling: 10_000 })
}

fn cfg() -> OracleDeviationConfig {
    get_oracle_deviation_config(None)
}

#[test]
fn default_config_is_5_percent_and_enabled() {
    let cfg = OracleDeviationConfig::default();
    assert_eq!(cfg.max_deviation_bps, DEFAULT_MAX_ORACLE_DEVIATION_BPS);
    assert_eq!(cfg.max_deviation_bps, 500);
    assert!(cfg.enabled);
    assert!(validate_oracle_deviation_config(&cfg).is_ok());
}

#[test]
fn get_config_returns_default_before_any_set() {
    assert_eq!(get_oracle_deviation_config(None), OracleDeviationConfig::default());
}

#[test]
fn set_config_round_trips() {
    let admin = addr(1);
    let custom = OracleDeviationConfig { max_deviation_bps: 1000, enabled: true };
    let stored = set_oracle_deviation_config(data(admin), admin, custom).unwrap();
    assert_eq!(get_oracle_deviation_config(Some(stored)), custom);
}

#[test]
fn set_config_respects_contract_init_state() {
    let res = set_oracle_deviation_config(None, addr(3), OracleDeviationConfig::default());
    assert_eq!(res, Err(ContractError::NotInitialized));
}

#[test]
fn non_admin_cannot_set_config() {
    let res = set_oracle_deviation_config(data(addr(1)), addr(2), OracleDeviationConfig::default());
    assert_eq!(res, Err(ContractError::NotAdmin));
}

#[test]
fn invalid_config_is_rejected() {
    let admin = addr(1);
    let zero = OracleDeviationConfig { max_deviation_bps: 0, enabled: true };
    assert_eq!(validate_oracle_deviation_config(&zero), Err(ContractError::InvalidOracleDeviationConfig));
    assert_eq!(
        set_oracle_deviation_config(data(admin), admin, zero),
        Err(ContractError::InvalidOracleDeviationConfig)
    );
    let too_wide = OracleDeviationConfig { max_deviation_bps: MAX_ORACLE_DEVIATION_BPS + 1, enabled: true };
    assert_eq!(validate_oracle_deviation_config(&too_wide), Err(ContractError::InvalidOracleDeviationConfig));
    assert_eq!(
        set_oracle_deviation_config(data(admin), admin, too_wide),
        Err(ContractError::InvalidOracleDeviationConfig)
    );
}

#[test]
fn ceiling_and_minimum_bounds_are_accepted() {
    let admin = addr(1);
    let min_cfg = OracleDeviationConfig { max_deviation_bps: MIN_ORACLE_DEVIATION_BPS, enabled: true };
    assert!(validate_oracle_deviation_config(&min_cfg).is_ok());
    set_oracle_deviation_config(data(admin), admin, min_cfg).unwrap();
    let max_cfg = OracleDeviationConfig { max_deviation_bps: MAX_ORACLE_DEVIATION_BPS, enabled: true };
    assert!(validate_oracle_deviation_config(&max_cfg).is_ok());
    set_oracle_deviation_config(data(admin), admin, max_cfg).unwrap();
    let disabled_invalid = OracleDeviationConfig { max_deviation_bps: 0, enabled: false };
    assert_eq!(
        validate_oracle_deviation_config(&disabled_invalid),
        Err(ContractError::InvalidOracleDeviationConfig)
    );
}

#[test]
fn guard_passes_within_threshold() {
    assert!(enforce_oracle_deviation_guard(&cfg(), 10_000_000, Some(10_000_000)).is_ok());
    assert!(enforce_oracle_deviation_guard(&cfg(), 10_500_000, Some(10_000_000)).is_ok());
    assert!(enforce_oracle_deviation_guard(&cfg(), 9_500_000, Some(10_000_000)).is_ok());
    assert!(enforce_oracle_deviation_guard(&cfg(), 10_499_000, Some(10_000_000)).is_ok());
}

#[test]
fn guard_reverts_when_spot_above_oracle_threshold() {
    let res = enforce_oracle_deviation_guard(&cfg(), 10_501_000, Some(10_000_000));
    assert_eq!(res, Err(ContractError::OracleDeviationTooHigh));
    let res = enforce_oracle_deviation_guard(&cfg(), 11_000_000, Some(10_000_000));
    assert_eq!(res, Err(ContractError::OracleDeviationTooHigh));
}

#[test]
fn guard_reverts_when_spot_below_oracle_threshold() {
    let res = enforce_oracle_deviation_guard(&cfg(), 9_499_000, Some(10_000_000));
    assert_eq!(res, Err(ContractError::OracleDeviationTooHigh));
    let res = enforce_oracle_deviation_guard(&cfg(), 5_000_000, Some(10_000_000));
    assert_eq!(res, Err(ContractError::OracleDeviationTooHigh));
}

#[test]
fn guard_is_scale_independent() {
    assert!(enforce_oracle_deviation_guard(&cfg(), 1_050_000_000, Some(1_000_000_000)).is_ok());
    let res = enforce_oracle_deviation_guard(&cfg(), 1_051_000_000, Some(1_000_000_000));
    assert_eq!(res, Err(ContractError::OracleDeviationTooHigh));
}

#[test]
fn guard_fails_open_without_twap_baseline() {
    assert!(enforce_oracle_deviation_guard(&cfg(), 1_000_000_000, None).is_ok());
    assert!(enforce_oracle_deviation_guard(&cfg(), 1_000_000_000, Some(0)).is_ok());
    assert!(enforce_oracle_deviation_guard(&cfg(), 1_000_000_000, Some(-1)).is_ok());
}

#[test]
fn guard_can_be_disabled_by_governance() {
    let admin = addr(1);
    let disabled = OracleDeviationConfig { max_deviation_bps: 500, enabled: false };
    let stored = set_oracle_deviation_config(data(admin), admin, disabled).unwrap();
    let res = enforce_oracle_deviation_guard(&stored, 15_000_000, Some(10_000_000));
    assert!(res.is_ok());
}

#[test]
fn guard_rejects_non_positive_spot_price() {
    let res = enforce_oracle_deviation_guard(&cfg(), 0, Some(10_000_000));
    assert_eq!(res, Err(ContractError::DivisionByZero));
    let res = enforce_oracle_deviation_guard(&cfg(), -5, Some(10_000_000));
    assert_eq!(res, Err(ContractError::DivisionByZero));
}

#[test]
fn swap_guard_derives_spot_and_enforces() {
    let spot = enforce_swap_oracle_guard(&cfg(), 100_000, 100_000, Some(10_000_000)).unwrap();
    assert_eq!(spot, 10_000_000);
    let res = enforce_swap_oracle_guard(&cfg(), 100_000, 110_000, Some(10_000_000));
    assert_eq!(res, Err(ContractError::OracleDeviationTooHigh));
    let res = enforce_swap_oracle_guard(&cfg(), 100_000, 90_000, Some(10_000_000));
    assert_eq!(res, Err(ContractError::OracleDeviationTooHigh));
    let spot = enforce_swap_oracle_guard(&cfg(), 100_000, 104_000, Some(10_000_000)).unwrap();
    assert_eq!(spot, 10_400_000);
}

#[test]
fn swap_guard_rejects_zero_reserves() {
    assert_eq!(
        enforce_swap_oracle_guard(&cfg(), 0, 100_000, Some(10_000_000)),
        Err(ContractError::DivisionByZero)
    );
    assert_eq!(
        enforce_swap_oracle_guard(&cfg(), 100_000, 0, Some(10_000_000)),
        Err(ContractError::DivisionByZero)
    );
}

#[test]
fn swap_guard_fails_open_without_twap() {
    let spot = enforce_swap_oracle_guard(&cfg(), 100_000, 150_000, None).unwrap();
    assert_eq!(spot, 15_000_000);
}

#[test]
fn widened_threshold_allows_larger_drift() {
    let admin = addr(1);
    let wide = OracleDeviationConfig { max_deviation_bps: 1000, enabled: true };
    let stored = set_oracle_deviation_config(data(admin), admin, wide).unwrap();
    assert!(enforce_swap_oracle_guard(&stored, 100_000, 110_000, Some(10_000_000)).is_ok());
    let res = enforce_swap_oracle_guard(&stored, 100_000, 111_000, Some(10_000_000));
    assert_eq!(res, Err(ContractError::OracleDeviationTooHigh));
}

#[test]
fn tightened_threshold_rejects_smaller_drift() {
    let admin = addr(1);
    let tight = OracleDeviationConfig { max_deviation_bps: 200, enabled: true };
    let stored = set_oracle_deviation_config(data(admin), admin, tight).unwrap();
    assert!(enforce_swap_oracle_guard(&stored, 100_000, 102_000, Some(10_000_000)).is_ok());
    let res = enforce_swap_oracle_guard(&stored, 100_000, 103_000, Some(10_000_000));
    assert_eq!(res, Err(ContractError::OracleDeviationTooHigh));
}
