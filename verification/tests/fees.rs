use stellarflow::contract::ContractData;
use stellarflow::error::ContractError;
use stellarflow::fees::{
    add_corridor_fees, adjust_fee_for_trend, get_corridor_fee_pool, get_flash_fee_pool, calculate_and_deduct_fee, calculate_dynamic_fee, compute_corridor_usage_fee_share,
    compute_multi_hop_corridor_fee_share, distribute_flash_fees, distribute_variable_fee_pool,
    get_corridor_weight, get_current_dynamic_fee, get_lp_reward_pool, multiply_and_scale_down,
    normalize_to_fixed_point_footprint, record_flash_fee, record_volume, set_corridor_weight,
    set_dynamic_fee_config, set_lp_reward_pool, update_volume_and_adjust_fee, validate_dynamic_fee_config,
    CorridorFeePool, DynamicFeeState, FlashLoanFeePool, VolumeHistory, VolumeTrend, INTERIOR_SCALE,
    STANDARD_FIXED_POINT_SCALE,
};
use stellarflow::Address;

fn addr(n: u128) -> Address {
    Address { hi: 0, lo: n }
}

fn data(admin: Address) -> Option<ContractData> {
    Some(ContractData { admin, value: 0, max_fee_ceiling: 10_000 })
}

#[test]
fn test_flash_loan_fee_accumulation_and_distribution() {
    let asset = 3897123275u32;
    let admin = addr(1);
    let lp_pool = addr(7);
    assert_eq!(set_lp_reward_pool(data(admin), admin, lp_pool), Ok(lp_pool));

    let pool = record_flash_fee(&FlashLoanFeePool::new(asset), 1000).unwrap();
    assert_eq!(pool.accumulated_fees, 1000u64);

    let treasury = addr(9);
    let (after, dist) = distribute_flash_fees(&pool, Some(treasury), Some(lp_pool)).unwrap();
    let dist = dist.unwrap();
    let (lp_share, treasury_share) = (dist.lp_share, dist.treasury_share);
    assert_eq!(lp_share, 500u64);
    assert_eq!(treasury_share, 500u64);
    assert_eq!((dist.lp_reward_pool, dist.treasury), (lp_pool, treasury));
    assert_eq!(after.accumulated_fees, 0u64);
    assert_eq!(after.total_lp_distributed, 500u64);
    assert_eq!(after.total_treasury_distributed, 500u64);
}

#[test]
fn flash_fee_odd_total_gives_remainder_to_treasury() {
    let pool = record_flash_fee(&FlashLoanFeePool::new(1), 1001).unwrap();
    let (after, dist) = distribute_flash_fees(&pool, Some(addr(9)), None).unwrap();
    let dist = dist.unwrap();
    assert_eq!((dist.lp_share, dist.treasury_share), (500, 501));
    // Without a configured LP reward pool the treasury receives both shares.
    assert_eq!((dist.lp_reward_pool, dist.treasury), (addr(9), addr(9)));
    assert_eq!(after.total_lp_distributed + after.total_treasury_distributed, 1001);
}

#[test]
fn flash_fee_recording_overflow_is_rejected() {
    let pool = FlashLoanFeePool {
        asset: 1,
        accumulated_fees: u64::MAX,
        total_lp_distributed: 0,
        total_treasury_distributed: 0,
    };
    assert_eq!(record_flash_fee(&pool, 1), Err(ContractError::Overflow));
}

#[test]
fn corridor_weight_profile_is_isolated_from_fee_pool() {
    let admin = addr(1);
    let asset = 3897123275u32;
    let pool = add_corridor_fees(data(admin), admin, None, asset, 1_000, 25).unwrap();
    assert_eq!(pool.collected, 1_000);
    assert_eq!(pool.variable_pool, 25);

    let profile = set_corridor_weight(data(admin), admin, asset, 70, 30).unwrap();
    assert_eq!(profile.asset, asset);
    assert_eq!(profile.base_weight, 70);
    assert_eq!(profile.dynamic_weight, 30);

    assert_eq!(pool.collected, 1_000);
    assert_eq!(pool.variable_pool, 25);

    let stored_profile = get_corridor_weight(Some(profile), asset);
    assert_eq!(stored_profile.base_weight, 70);
    assert_eq!(stored_profile.dynamic_weight, 30);
}

#[test]
fn non_admin_cannot_edit_corridor_weight_profile() {
    let admin = addr(1);
    let attacker = addr(2);
    let result = set_corridor_weight(data(admin), attacker, 2654435761, 40, 60);
    assert_eq!(result, Err(ContractError::NotAdmin));
}

#[test]
fn corridor_weight_defaults_to_zero_profile() {
    let p = get_corridor_weight(None, 9);
    assert_eq!((p.asset, p.base_weight, p.dynamic_weight), (9, 0, 0));
    assert_eq!(set_corridor_weight(None, addr(1), 9, 1, 1), Err(ContractError::NotInitialized));
}

#[test]
fn fee_distribution_normalizes_to_standard_fixed_point_footprint() {
    let weights: Vec<u64> = vec![1, 1, 1];
    let profiles = distribute_variable_fee_pool(1, &weights).unwrap();
    assert_eq!(profiles.get(0), Some(&3_333_333));
    assert_eq!(profiles.get(1), Some(&3_333_333));
    assert_eq!(profiles.get(2), Some(&3_333_334));
    assert_eq!(profiles.iter().fold(0_u64, |acc, value| acc + value), STANDARD_FIXED_POINT_SCALE as u64);
}

#[test]
fn variable_fee_pool_with_no_weights_is_empty() {
    assert_eq!(distribute_variable_fee_pool(5, &vec![]).unwrap().len(), 0);
    assert_eq!(distribute_variable_fee_pool(5, &vec![0, 0]).unwrap().len(), 0);
}

#[test]
fn test_corridor_usage_fee_share_three_way_split_preserves_total() {
    let total_fee = 10_000u64;
    let usages = [3_333_333u64, 3_333_333u64, 3_333_334u64];
    let total_usage: u64 = 10_000_000;

    let mut allocated = 0u64;
    for (index, usage) in usages.iter().enumerate() {
        let share = if index == usages.len() - 1 {
            total_fee - allocated
        } else {
            compute_corridor_usage_fee_share(total_fee, *usage, total_usage).unwrap()
        };
        allocated += share;
    }

    assert_eq!(allocated, total_fee);
}

#[test]
fn test_multi_hop_fee_share_single_pass_matches_chained_low_precision() {
    let total_fee = 1_000_000u64;
    let hop_usage = 4_000_000u64;
    let relayer_usage = 2_500_000u64;
    let total_hop_usage = 10_000_000u64;
    let total_relayer_usage = 10_000_000u64;

    let high_precision = compute_multi_hop_corridor_fee_share(
        total_fee,
        hop_usage,
        relayer_usage,
        total_hop_usage,
        total_relayer_usage,
    )
    .unwrap();

    let hop_share = total_fee * hop_usage / total_hop_usage;
    let low_precision = hop_share * relayer_usage / total_relayer_usage;

    assert!(high_precision >= low_precision);
    assert_eq!(high_precision, 100_000);
}

#[test]
fn multi_hop_fee_share_zero_usage_is_division_by_zero() {
    assert_eq!(compute_multi_hop_corridor_fee_share(1, 1, 1, 0, 1), Err(ContractError::DivisionByZero));
    assert_eq!(compute_multi_hop_corridor_fee_share(1, 1, 1, 1, 0), Err(ContractError::DivisionByZero));
}

#[test]
fn test_compute_corridor_usage_fee_share_zero_total_usage() {
    assert_eq!(compute_corridor_usage_fee_share(100, 1, 0), Err(ContractError::DivisionByZero));
}

#[test]
fn corridor_usage_fee_share_is_proportional() {
    assert_eq!(compute_corridor_usage_fee_share(1_000, 1, 4), Ok(250));
}

#[test]
fn test_normalize_to_fixed_point_footprint_overflow() {
    let too_large: u128 = (u128::from(u64::MAX) + 1) * INTERIOR_SCALE;
    assert_eq!(normalize_to_fixed_point_footprint(too_large), Err(ContractError::Overflow));
}

#[test]
fn normalize_and_multiply_exact_values() {
    assert_eq!(normalize_to_fixed_point_footprint(INTERIOR_SCALE * 5), Ok(5));
    assert_eq!(multiply_and_scale_down(20_000_000, 30_000_000), Ok(60_000_000));
}

#[test]
fn calculate_and_deduct_fee_splits_amount() {
    assert_eq!(calculate_and_deduct_fee(10_000, 30), Ok((9_970, 30)));
    assert_eq!(calculate_and_deduct_fee(u128::MAX, 2), Err(ContractError::Overflow));
    assert_eq!(calculate_and_deduct_fee(100, 20_000), Err(ContractError::Overflow));
}

#[test]
fn corridor_fee_overflow_is_rejected() {
    let pool = CorridorFeePool { asset: 1, collected: u64::MAX, variable_pool: 0 };
    assert_eq!(add_corridor_fees(data(addr(1)), addr(1), Some(pool.clone()), 1, 1, 0), Err(ContractError::Overflow));
}

#[test]
fn fee_trend_moves_within_band() {
    assert_eq!(adjust_fee_for_trend(10, 5, 30, VolumeTrend::Spike), 15);
    assert_eq!(adjust_fee_for_trend(28, 5, 30, VolumeTrend::Spike), 30);
    assert_eq!(adjust_fee_for_trend(7, 5, 30, VolumeTrend::Drop), 5);
    assert_eq!(adjust_fee_for_trend(12, 5, 30, VolumeTrend::Flat), 12);
}

#[test]
fn volume_rotates_after_period() {
    let h = VolumeHistory { previous_period_volume: 1, current_period_volume: 100, last_updated: 1000 };
    let (h2, rotated) = record_volume(&h, 3600, 4600, 70).unwrap();
    assert!(rotated);
    assert_eq!(h2, VolumeHistory { previous_period_volume: 100, current_period_volume: 70, last_updated: 4600 });
    let (h3, rotated) = record_volume(&h, 3600, 2000, 70).unwrap();
    assert!(!rotated);
    assert_eq!(h3.current_period_volume, 170);
    let full = VolumeHistory { previous_period_volume: 0, current_period_volume: u64::MAX, last_updated: 1000 };
    assert_eq!(record_volume(&full, 3600, 2000, 1), Err(ContractError::Overflow));
}

#[test]
fn dynamic_fee_adjusts_on_rotation_only() {
    let fee = DynamicFeeState { min_fee_bps: 5, max_fee_bps: 30, current_fee_bps: 10, period_seconds: 3600 };
    let h = VolumeHistory { previous_period_volume: 0, current_period_volume: 100, last_updated: 0 };
    let (_, f) = update_volume_and_adjust_fee(&h, &fee, 3600, 200, VolumeTrend::Spike).unwrap();
    assert_eq!(f.current_fee_bps, 15);
    let (_, f) = update_volume_and_adjust_fee(&h, &fee, 10, 200, VolumeTrend::Spike).unwrap();
    assert_eq!(f.current_fee_bps, 10);
    let empty = VolumeHistory::new();
    let (_, f) = update_volume_and_adjust_fee(&empty, &fee, 3600, 200, VolumeTrend::Drop).unwrap();
    assert_eq!(f.current_fee_bps, 10);
}

#[test]
fn dynamic_fee_config_bounds() {
    let admin = addr(1);
    assert_eq!(validate_dynamic_fee_config(5, 30, 300), Ok(()));
    assert_eq!(validate_dynamic_fee_config(4, 30, 300), Err(ContractError::InvalidVarianceConfig));
    assert_eq!(validate_dynamic_fee_config(5, 31, 300), Err(ContractError::InvalidVarianceConfig));
    assert_eq!(validate_dynamic_fee_config(10, 10, 300), Err(ContractError::InvalidVarianceConfig));
    assert_eq!(validate_dynamic_fee_config(5, 30, 299), Err(ContractError::InvalidVarianceConfig));
    let f = set_dynamic_fee_config(data(admin), admin, None, 6, 20, 600).unwrap();
    assert_eq!(f, DynamicFeeState { min_fee_bps: 6, max_fee_bps: 20, current_fee_bps: 5, period_seconds: 600 });
    assert_eq!(get_current_dynamic_fee(Some(f)), 5);
    assert_eq!(get_current_dynamic_fee(None), 5);
    assert_eq!(set_dynamic_fee_config(data(admin), addr(2), None, 6, 20, 600), Err(ContractError::NotAdmin));
}

#[test]
fn lp_reward_pool_falls_back_to_treasury() {
    assert_eq!(get_lp_reward_pool(Some(addr(3)), Some(addr(4))), Ok(addr(3)));
    assert_eq!(get_lp_reward_pool(None, Some(addr(4))), Ok(addr(4)));
    assert_eq!(get_lp_reward_pool(None, None), Err(ContractError::NotInitialized));
    assert_eq!(set_lp_reward_pool(data(addr(1)), addr(2), addr(3)), Err(ContractError::NotAdmin));
}

#[test]
fn dynamic_fee_keeps_fee_without_previous_volume() {
    let fee = DynamicFeeState { min_fee_bps: 5, max_fee_bps: 30, current_fee_bps: 12, period_seconds: 3600 };
    let quiet = VolumeHistory { previous_period_volume: 0, current_period_volume: 900, last_updated: 0 };
    assert_eq!(calculate_dynamic_fee(&quiet, &fee, VolumeTrend::Spike), Ok(12));
    let busy = VolumeHistory { previous_period_volume: 100, current_period_volume: 900, last_updated: 0 };
    assert_eq!(calculate_dynamic_fee(&busy, &fee, VolumeTrend::Spike), Ok(17));
    assert_eq!(calculate_dynamic_fee(&busy, &fee, VolumeTrend::Drop), Ok(7));
    assert_eq!(calculate_dynamic_fee(&busy, &fee, VolumeTrend::Flat), Ok(12));
}

#[test]
fn corridor_fees_are_admin_only_and_accumulate() {
    let admin = addr(1);
    assert_eq!(add_corridor_fees(data(admin), addr(2), None, 5, 10, 1), Err(ContractError::NotAdmin));
    assert_eq!(add_corridor_fees(None, admin, None, 5, 10, 1), Err(ContractError::NotInitialized));
    let first = add_corridor_fees(data(admin), admin, None, 5, 10, 1).unwrap();
    let second = add_corridor_fees(data(admin), admin, Some(first.clone()), 5, 7, 2).unwrap();
    assert_eq!((second.asset, second.collected, second.variable_pool), (5, 17, 3));
    assert_eq!(get_corridor_fee_pool(None, 5), CorridorFeePool::new(5));
    assert_eq!(get_corridor_fee_pool(Some(second.clone()), 5), second);
}

#[test]
fn flash_fees_need_a_treasury_once_there_is_something_to_distribute() {
    let empty = get_flash_fee_pool(None, 3);
    assert_eq!(empty, FlashLoanFeePool::new(3));
    assert_eq!(distribute_flash_fees(&empty, None, None), Ok((empty.clone(), None)));
    let pool = record_flash_fee(&empty, 10).unwrap();
    assert_eq!(distribute_flash_fees(&pool, None, None), Err(ContractError::NotInitialized));
}
