use stellarflow::contracts::treasury_buyback::{
    isqrt, BuybackError, FeeBalance, LiquidityPool, TreasuryBuybackContract,
};
use stellarflow::Address;

fn addr(n: u128) -> Address {
    Address { hi: 0, lo: n }
}

const ADMIN: Address = Address { hi: 0, lo: 1 };
const TREASURY: Address = Address { hi: 0, lo: 2 };
const TOKEN: Address = Address { hi: 0, lo: 3 };
const TOKEN_B: Address = Address { hi: 0, lo: 4 };
const LP: Address = Address { hi: 0, lo: 5 };

fn pool(ratio_a_bps: u32) -> LiquidityPool {
    TreasuryBuybackContract::register_pool(Some(ADMIN), ADMIN, [1u8; 32], TOKEN, TOKEN_B, LP, ratio_a_bps, false)
        .unwrap()
}

#[test]
fn test_initialize() {
    assert_eq!(TreasuryBuybackContract::initialize(false), Ok(()));
    assert_eq!(TreasuryBuybackContract::initialize(true), Err(BuybackError::AlreadyInitialized));
}

#[test]
fn test_collect_fees() {
    let balance =
        TreasuryBuybackContract::collect_fees(Some(ADMIN), ADMIN, TOKEN, 1000_0000000, None, 12).unwrap();
    assert_eq!(balance.amount, 1000_0000000);
    assert_eq!(balance.token, TOKEN);
    assert_eq!(balance.last_collected_ledger, 12);
}

#[test]
fn test_collect_fees_accumulates() {
    let first = TreasuryBuybackContract::collect_fees(Some(ADMIN), ADMIN, TOKEN, 500_0000000, None, 1).unwrap();
    let balance =
        TreasuryBuybackContract::collect_fees(Some(ADMIN), ADMIN, TOKEN, 300_0000000, Some(first), 2).unwrap();
    assert_eq!(balance.amount, 800_0000000);
}

#[test]
fn collect_fees_errors() {
    assert_eq!(
        TreasuryBuybackContract::collect_fees(None, ADMIN, TOKEN, 1, None, 1),
        Err(BuybackError::NotInitialized)
    );
    assert_eq!(
        TreasuryBuybackContract::collect_fees(Some(ADMIN), addr(9), TOKEN, 1, None, 1),
        Err(BuybackError::NotAdmin)
    );
    let full = FeeBalance { token: TOKEN, amount: i128::MAX, last_collected_ledger: 0 };
    assert_eq!(
        TreasuryBuybackContract::collect_fees(Some(ADMIN), ADMIN, TOKEN, 1, Some(full), 1),
        Err(BuybackError::Overflow)
    );
}

#[test]
fn test_register_pool() {
    let pool = pool(5000);
    assert_eq!(pool.ratio_a_bps, 5000);
    assert_eq!(pool.token_a, TOKEN);
    assert_eq!(pool.token_b, TOKEN_B);
}

#[test]
fn register_pool_rejects_duplicates() {
    let r = TreasuryBuybackContract::register_pool(Some(ADMIN), ADMIN, [1u8; 32], TOKEN, TOKEN_B, LP, 5000, true);
    assert_eq!(r, Err(BuybackError::PoolAlreadyRegistered));
}

#[test]
fn test_get_fee_balance_default() {
    let balance = TreasuryBuybackContract::get_fee_balance(None, TOKEN);
    assert_eq!(balance.amount, 0);
}

#[test]
fn test_cannot_collect_zero_fees() {
    let result = TreasuryBuybackContract::collect_fees(Some(ADMIN), ADMIN, TOKEN, 0, None, 1);
    assert_eq!(result, Err(BuybackError::InvalidAmount));
}

#[test]
fn test_cannot_register_pool_invalid_ratio() {
    let result =
        TreasuryBuybackContract::register_pool(Some(ADMIN), ADMIN, [1u8; 32], TOKEN, TOKEN_B, LP, 0, false);
    assert_eq!(result, Err(BuybackError::InvalidRatio));
    let result =
        TreasuryBuybackContract::register_pool(Some(ADMIN), ADMIN, [1u8; 32], TOKEN, TOKEN_B, LP, 10000, false);
    assert_eq!(result, Err(BuybackError::InvalidRatio));
}

#[test]
fn test_isqrt() {
    assert_eq!(isqrt(0), 0);
    assert_eq!(isqrt(1), 1);
    assert_eq!(isqrt(4), 2);
    assert_eq!(isqrt(9), 3);
    assert_eq!(isqrt(100), 10);
    assert_eq!(isqrt(99), 9);
}

#[test]
fn isqrt_of_large_and_negative_values() {
    assert_eq!(isqrt(-5), 0);
    assert_eq!(isqrt(1_000_000_000_000), 1_000_000);
    assert_eq!(isqrt(i128::MAX - 1), 13_043_817_825_332_782_212);
}

#[test]
fn buyback_converts_fees_into_lp_shares() {
    let fees = FeeBalance { token: TOKEN, amount: 1_000, last_collected_ledger: 3 };
    let out = TreasuryBuybackContract::execute_buyback(
        Some(ADMIN),
        ADMIN,
        [1u8; 32],
        TOKEN,
        400,
        Some(fees),
        Some(pool(5000)),
        Some(TREASURY),
        10,
        77,
    )
    .unwrap();
    assert_eq!(out.record.swapped_amount_a, 400);
    assert_eq!(out.record.swapped_amount_b, 400);
    assert_eq!(out.record.lp_shares_received, 400);
    assert_eq!(out.record.fee_amount, 400);
    assert_eq!(out.record.executed_ledger, 77);
    assert_eq!(out.fee_balance.amount, 600);
    assert_eq!(out.fee_balance.last_collected_ledger, 3);
    assert_eq!(out.treasury_lp_shares, 410);
}

#[test]
fn buyback_pairs_token_b_in_pool_ratio() {
    let fees = FeeBalance { token: TOKEN_B, amount: 1_000, last_collected_ledger: 0 };
    let out = TreasuryBuybackContract::execute_buyback(
        Some(ADMIN),
        ADMIN,
        [1u8; 32],
        TOKEN_B,
        300,
        Some(fees),
        Some(pool(2500)),
        Some(TREASURY),
        0,
        1,
    )
    .unwrap();
    // 300 * 2500 / 7500 = 100 of token A; isqrt(100 * 300) = 173.
    assert_eq!(out.record.swapped_amount_a, 100);
    assert_eq!(out.record.swapped_amount_b, 300);
    assert_eq!(out.record.lp_shares_received, 173);
}

#[test]
fn buyback_errors_in_order() {
    let fees = Some(FeeBalance { token: TOKEN, amount: 100, last_collected_ledger: 0 });
    let p = Some(pool(5000));
    let run = |admin: Option<Address>, caller: Address, token: Address, amount: i128,
               f: Option<FeeBalance>, p: Option<LiquidityPool>, t: Option<Address>, lp: i128| {
        TreasuryBuybackContract::execute_buyback(admin, caller, [1u8; 32], token, amount, f, p, t, lp, 1)
            .err()
    };
    assert_eq!(run(None, ADMIN, TOKEN, 10, fees, p, Some(TREASURY), 0), Some(BuybackError::NotInitialized));
    assert_eq!(run(Some(ADMIN), addr(9), TOKEN, 10, fees, p, Some(TREASURY), 0), Some(BuybackError::NotAdmin));
    assert_eq!(run(Some(ADMIN), ADMIN, TOKEN, 0, fees, p, Some(TREASURY), 0), Some(BuybackError::InvalidAmount));
    assert_eq!(run(Some(ADMIN), ADMIN, TOKEN, 10, None, p, Some(TREASURY), 0), Some(BuybackError::InsufficientFees));
    assert_eq!(run(Some(ADMIN), ADMIN, TOKEN, 101, fees, p, Some(TREASURY), 0), Some(BuybackError::InsufficientFees));
    assert_eq!(run(Some(ADMIN), ADMIN, TOKEN, 10, fees, None, Some(TREASURY), 0), Some(BuybackError::PoolNotFound));
    assert_eq!(run(Some(ADMIN), ADMIN, addr(9), 10, fees, p, Some(TREASURY), 0), Some(BuybackError::InvalidAmount));
    assert_eq!(run(Some(ADMIN), ADMIN, TOKEN, 10, fees, p, None, 0), Some(BuybackError::NotInitialized));
    assert_eq!(run(Some(ADMIN), ADMIN, TOKEN, 10, fees, p, Some(TREASURY), i128::MAX), Some(BuybackError::Overflow));
    let zero_ratio = Some(LiquidityPool { ratio_a_bps: 0, ..pool(5000) });
    assert_eq!(run(Some(ADMIN), ADMIN, TOKEN, 10, fees, zero_ratio, Some(TREASURY), 0), Some(BuybackError::InvalidRatio));
}

#[test]
fn keeper_is_set_by_admin_only() {
    assert_eq!(TreasuryBuybackContract::set_keeper(Some(ADMIN), ADMIN, addr(8)), Ok(addr(8)));
    assert_eq!(TreasuryBuybackContract::set_keeper(Some(ADMIN), addr(9), addr(8)), Err(BuybackError::NotAdmin));
    assert_eq!(TreasuryBuybackContract::set_keeper(None, ADMIN, addr(8)), Err(BuybackError::NotInitialized));
}

#[test]
fn sweep_collects_positive_balances() {
    let balances = vec![5, 0, -3, 7];
    let plan =
        TreasuryBuybackContract::sweep_assets(Some(ADMIN), Some(addr(8)), Some(TREASURY), addr(8), &balances)
            .unwrap();
    assert_eq!(plan.total, 12);
    assert_eq!(plan.sources, vec![0, 3]);
    assert_eq!(plan.treasury, TREASURY);
    let via_alias =
        TreasuryBuybackContract::sweep_fees(Some(ADMIN), None, Some(TREASURY), ADMIN, &balances).unwrap();
    assert_eq!(via_alias.total, 12);
}

#[test]
fn sweep_refuses_strangers_and_overflow() {
    let balances = vec![i128::MAX, 1];
    assert_eq!(
        TreasuryBuybackContract::sweep_assets(Some(ADMIN), None, Some(TREASURY), addr(9), &vec![1]).err(),
        Some(BuybackError::NotAuthorized)
    );
    assert_eq!(
        TreasuryBuybackContract::sweep_assets(Some(ADMIN), None, Some(TREASURY), ADMIN, &balances).err(),
        Some(BuybackError::Overflow)
    );
    assert_eq!(
        TreasuryBuybackContract::sweep_assets(Some(ADMIN), None, None, ADMIN, &vec![1]).err(),
        Some(BuybackError::NotInitialized)
    );
    assert_eq!(TreasuryBuybackContract::get_treasury_lp_shares(None), 0);
}
