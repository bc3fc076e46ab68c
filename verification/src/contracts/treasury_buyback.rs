//! Treasury buybacks: collected protocol fees are swapped into pool
//! liquidity in the pool's token ratio, and the LP shares (the integer
//! square root of the two amounts' product) accrue to the treasury.
use vstd::prelude::*;

use crate::amm::adaptive_fee::{int_sqrt, lemma_int_sqrt_is};
use crate::events::{div_toward_zero, trunc_div};
use crate::Address;

verus! {

/// Errors of the buyback contract.
#[derive(Clone, Copy, Debug, PartialEq, Eq, Structural)]
pub enum BuybackError {
    AlreadyInitialized,
    NotInitialized,
    NotAdmin,
    InsufficientFees,
    InvalidAmount,
    Overflow,
    PoolAlreadyRegistered,
    PoolNotFound,
    InvalidRatio,
    NotAuthorized,
}

/// Fees collected in one token.
#[derive(Clone, Copy, Debug, PartialEq, Eq, Structural)]
pub struct FeeBalance {
    pub token: Address,
    pub amount: i128,
    pub last_collected_ledger: u32,
}

/// A pool the treasury buys liquidity in.
#[derive(Clone, Copy, Debug, PartialEq, Eq)]
pub struct LiquidityPool {
    pub pool_id: [u8; 32],
    pub token_a: Address,
    pub token_b: Address,
    pub lp_token: Address,
    /// Share of token A in the pool, in bps.
    pub ratio_a_bps: u32,
}

/// The record of an executed buyback.
#[derive(Clone, Copy, Debug, PartialEq, Eq)]
pub struct BuybackRecord {
    pub pool_id: [u8; 32],
    pub fee_token: Address,
    pub fee_amount: i128,
    pub swapped_amount_a: i128,
    pub swapped_amount_b: i128,
    pub lp_shares_received: i128,
    pub executed_ledger: u32,
}

/// Storage keys of the contract.
#[derive(Clone, Copy, Debug, PartialEq, Eq, Structural)]
pub enum DataKey {
    Admin,
    Treasury,
    Keeper,
}

/// The treasury buyback contract.
pub struct TreasuryBuybackContract;

/// Whether `r` is the integer square root of `n` (zero for `n ≤ 0`).
pub open spec fn is_isqrt(n: int, r: int) -> bool {
    if n <= 0 {
        r == 0
    } else {
        0 <= r && r * r <= n < (r + 1) * (r + 1)
    }
}

proof fn lemma_newton_step_stays_above(n: int, x: int, r: int)
    requires
        x > 0,
        0 <= r,
        r * r <= n,
    ensures
        (x + n / x) / 2 >= r,
{
    let q = n / x;
    vstd::arithmetic::div_mod::lemma_fundamental_div_mod(n, x);
    vstd::arithmetic::div_mod::lemma_mod_bound(n, x);
    if (x + q) / 2 < r {
        assert(x + q + 1 <= 2 * r);
        assert(4 * x * (q + 1) <= (x + q + 1) * (x + q + 1)) by (nonlinear_arith);
        assert((x + q + 1) * (x + q + 1) <= (2 * r) * (2 * r)) by (nonlinear_arith)
            requires
                0 <= x + q + 1 <= 2 * r,
        ;
        assert(n < x * (q + 1)) by (nonlinear_arith)
            requires
                n == x * q + n % x,
                n % x < x,
        ;
        assert(false) by (nonlinear_arith)
            requires
                4 * x * (q + 1) <= (2 * r) * (2 * r),
                r * r <= n,
                n < x * (q + 1),
        ;
    }
}

proof fn lemma_newton_stop(n: int, x: int, r: int)
    requires
        x > 0,
        x >= r,
        0 <= r,
        r * r <= n < (r + 1) * (r + 1),
        (x + n / x) / 2 >= x,
    ensures
        x == r,
{
    let q = n / x;
    vstd::arithmetic::div_mod::lemma_fundamental_div_mod(n, x);
    vstd::arithmetic::div_mod::lemma_mod_bound(n, x);
    assert(q >= x);
    assert(x * x <= x * q) by (nonlinear_arith)
        requires
            q >= x,
            x > 0,
    ;
    if x > r {
        assert((r + 1) * (r + 1) <= x * x) by (nonlinear_arith)
            requires
                x >= r + 1,
                r >= 0,
        ;
    }
}

proof fn lemma_newton_sum_bound(n: int, x: int)
    requires
        1 <= x <= n,
    ensures
        0 <= n / x,
        x + n / x <= n + 1,
{
    let q = n / x;
    vstd::arithmetic::div_mod::lemma_fundamental_div_mod(n, x);
    vstd::arithmetic::div_mod::lemma_mod_bound(n, x);
    assert(x * q <= n);
    vstd::arithmetic::div_mod::lemma_div_pos_is_pos(n, x);
    if x + q >= n + 2 {
        assert(x * q >= x * (n + 2 - x)) by (nonlinear_arith)
            requires
                q >= n + 2 - x,
                x >= 1,
        ;
        assert(x * (n + 2 - x) > n) by (nonlinear_arith)
            requires
                1 <= x <= n,
        ;
    }
}

/// The integer square root of `n`, zero for non-positive `n`.
pub open spec fn isqrt_spec(n: int) -> int {
    if n <= 0 {
        0
    } else {
        int_sqrt(n)
    }
}

/// Integer square root by Newton's iteration; zero for non-positive input.
pub fn isqrt(n: i128) -> (r: i128)
    requires
        n < i128::MAX,
    ensures
        is_isqrt(n as int, r as int),
        r == isqrt_spec(n as int),
{
    if n <= 0 {
        return 0;
    }
    let ghost rt: int = crate::amm::adaptive_fee::int_sqrt(n as int);
    proof {
        crate::amm::adaptive_fee::lemma_int_sqrt_exists(n as int);
        assert(rt >= 1) by (nonlinear_arith)
            requires
                n >= 1,
                n < (rt + 1) * (rt + 1),
                rt >= 0,
        ;
        assert(rt <= n) by (nonlinear_arith)
            requires
                rt >= 1,
                rt * rt <= n,
        ;
    }
    let mut x: i128 = n;
    proof {
        assert(n / n == 1) by (nonlinear_arith)
            requires
                n >= 1,
        ;
        lemma_newton_step_stays_above(n as int, n as int, rt);
    }
    let mut y: i128 = (x + 1) / 2;
    while y < x
        invariant
            n >= 1,
            n < i128::MAX,
            1 <= rt <= x <= n,
            rt * rt <= n < (rt + 1) * (rt + 1),
            y == (x + n / x) / 2,
            y >= rt,
            y <= (n + 1) / 2,
        decreases x,
    {
        x = y;
        proof {
            lemma_newton_sum_bound(n as int, x as int);
            lemma_newton_step_stays_above(n as int, x as int, rt);
        }
        y = (x + n / x) / 2;
    }
    proof {
        lemma_newton_stop(n as int, x as int, rt);
        lemma_int_sqrt_is(x as int, n as int);
    }
    x
}


/// What `sweep_assets` hands back: the treasury that receives the tokens,
/// the indices of the sources whose balance is swept (those holding a
/// positive balance, in order) and the total swept.
pub struct SweepPlan {
    pub treasury: Address,
    pub sources: Vec<usize>,
    pub total: i128,
}

/// The state a buyback leaves: its record, the fee balance after the
/// swapped fees are deducted, and the treasury's LP shares in the pool.
pub struct BuybackOutcome {
    pub record: BuybackRecord,
    pub fee_balance: FeeBalance,
    pub treasury_lp_shares: i128,
}

/// The sum of the positive entries of `balances`.
pub open spec fn positive_total(balances: Seq<i128>) -> int
    decreases balances.len(),
{
    if balances.len() == 0 {
        0
    } else {
        let b = balances.last();
        positive_total(balances.drop_last()) + if b > 0 {
            b as int
        } else {
            0
        }
    }
}

/// The indices of the positive entries of `balances`, in order.
pub open spec fn positive_indices(balances: Seq<i128>) -> Seq<usize>
    decreases balances.len(),
{
    if balances.len() == 0 {
        Seq::empty()
    } else {
        let rest = positive_indices(balances.drop_last());
        if balances.last() > 0 {
            rest.push((balances.len() - 1) as usize)
        } else {
            rest
        }
    }
}

proof fn lemma_positive_total_monotone(balances: Seq<i128>, k: int)
    requires
        0 <= k <= balances.len(),
    ensures
        0 <= positive_total(balances.take(k)) <= positive_total(balances),
    decreases balances.len(),
{
    if balances.len() > 0 {
        if k == balances.len() {
            assert(balances.take(k) =~= balances);
            lemma_positive_total_monotone(balances.drop_last(), k - 1);
            assert(balances.drop_last().take(k - 1) =~= balances.drop_last());
        } else {
            lemma_positive_total_monotone(balances.drop_last(), k);
            assert(balances.drop_last().take(k) =~= balances.take(k));
        }
    }
}

/// Whether `caller` may sweep: it is the admin or the configured keeper.
pub open spec fn may_sweep(admin: Address, keeper: Option<Address>, caller: Address) -> bool {
    caller == admin || keeper == Some(caller)
}

/// The amounts of token A and token B that a buyback of `swap_amount` of
/// `fee_token` deposits: the fee token's side is the swapped amount, the
/// other side is scaled by the pool's ratio (quotient rounded toward
/// zero), or the reason no deposit can be formed.
pub open spec fn deposit_amounts(pool: LiquidityPool, fee_token: Address, swap_amount: int) -> Result<
    (int, int),
    BuybackError,
> {
    let r = pool.ratio_a_bps as int;
    if fee_token == pool.token_a {
        if r > 0 {
            Ok((swap_amount, trunc_div(swap_amount * (10000 - r), r)))
        } else {
            Err(BuybackError::InvalidRatio)
        }
    } else if fee_token == pool.token_b {
        if r < 10000 {
            Ok((trunc_div(swap_amount * r, 10000 - r), swap_amount))
        } else {
            Err(BuybackError::InvalidRatio)
        }
    } else {
        Err(BuybackError::InvalidAmount)
    }
}

/// Whether the products a buyback computes fit in `i128`, so that its
/// arithmetic cannot overflow, and the deposit product lies below
/// `i128::MAX`, the last input of the square root.
pub open spec fn buyback_fits(pool: LiquidityPool, fee_token: Address, swap_amount: int) -> bool {
    let r = pool.ratio_a_bps as int;
    &&& (fee_token == pool.token_a && r > 0 ==> i128::MIN <= swap_amount * (10000 - r) <= i128::MAX)
    &&& (fee_token != pool.token_a && fee_token == pool.token_b && r < 10000 ==> swap_amount * r
        <= i128::MAX)
    &&& (deposit_amounts(pool, fee_token, swap_amount) matches Ok((a, b)) ==> i128::MIN <= a * b
        < i128::MAX)
}

/// The checks of a buyback, in the order the contract makes them, up to
/// the deposit amounts.
pub open spec fn buyback_checks(
    stored_admin: Option<Address>,
    admin: Address,
    fee_balance: Option<FeeBalance>,
    pool: Option<LiquidityPool>,
    fee_token: Address,
    swap_amount: int,
) -> Result<(int, int), BuybackError> {
    match stored_admin {
        None => Err(BuybackError::NotInitialized),
        Some(a) => if a != admin {
            Err(BuybackError::NotAdmin)
        } else if swap_amount <= 0 {
            Err(BuybackError::InvalidAmount)
        } else {
            match fee_balance {
                None => Err(BuybackError::InsufficientFees),
                Some(f) => if f.amount < swap_amount {
                    Err(BuybackError::InsufficientFees)
                } else {
                    match pool {
                        None => Err(BuybackError::PoolNotFound),
                        Some(p) => deposit_amounts(p, fee_token, swap_amount),
                    }
                },
            }
        },
    }
}

/// A buyback deposits in the pool's weight ratio: paid in token A, the
/// token B side is the largest amount `b` with `b * ratio_a <= a * (10000 - ratio_a)`;
/// paid in token B, the token A side is the largest `a` with
/// `a * (10000 - ratio_a) <= b * ratio_a`. The side paid is the swapped amount.
pub proof fn lemma_buyback_deposit_keeps_pool_ratio(
    stored_admin: Option<Address>,
    admin: Address,
    fee_balance: Option<FeeBalance>,
    pool: LiquidityPool,
    fee_token: Address,
    swap_amount: int,
)
    requires
        buyback_reaches_pool(stored_admin, admin, fee_balance, swap_amount),
    ensures
        ({
            let r = pool.ratio_a_bps as int;
            let res = buyback_checks(stored_admin, admin, fee_balance, Some(pool), fee_token, swap_amount);
            &&& fee_token == pool.token_a && 0 < r <= 10000 ==> (res matches Ok((a, b)) && a == swap_amount && b * r
                <= a * (10000 - r) && a * (10000 - r) < (b + 1) * r)
            &&& fee_token != pool.token_a && fee_token == pool.token_b && 0 <= r < 10000 ==> (res matches Ok((a, b))
                && b == swap_amount && a * (10000 - r) <= b * r && b * r < (a + 1) * (10000 - r))
        }),
{
    let r = pool.ratio_a_bps as int;
    if fee_token == pool.token_a && 0 < r <= 10000 {
        let n = swap_amount * (10000 - r);
        assert(n >= 0) by (nonlinear_arith)
            requires
                swap_amount > 0,
                r <= 10000,
                n == swap_amount * (10000 - r),
        ;
        assert(trunc_div(n, r) == n / r);
        let q = n / r;
        assert(q * r <= n && n < (q + 1) * r) by (nonlinear_arith)
            requires
                r > 0,
                n >= 0,
                q == n / r,
        ;
    }
    if fee_token != pool.token_a && fee_token == pool.token_b && 0 <= r < 10000 {
        let n = swap_amount * r;
        let w = 10000 - r;
        assert(n >= 0) by (nonlinear_arith)
            requires
                swap_amount > 0,
                r >= 0,
                n == swap_amount * r,
        ;
        assert(trunc_div(n, w) == n / w);
        let q = n / w;
        assert(q * w <= n && n < (q + 1) * w) by (nonlinear_arith)
            requires
                w > 0,
                n >= 0,
                q == n / w,
        ;
    }
}

/// Whether the checks of a buyback reach the arithmetic on `pool`.
pub open spec fn buyback_reaches_pool(
    stored_admin: Option<Address>,
    admin: Address,
    fee_balance: Option<FeeBalance>,
    swap_amount: int,
) -> bool {
    &&& stored_admin == Some(admin)
    &&& swap_amount > 0
    &&& fee_balance matches Some(f) && f.amount >= swap_amount
}

impl TreasuryBuybackContract {
    /// Whether the contract may be initialized; `initialized` says whether
    /// an admin is stored already. The admin and treasury are then stored.
    pub fn initialize(initialized: bool) -> (r: Result<(), BuybackError>)
        ensures
            r == (if initialized {
                Err::<(), BuybackError>(BuybackError::AlreadyInitialized)
            } else {
                Ok::<(), BuybackError>(())
            }),
    {
        if initialized {
            return Err(BuybackError::AlreadyInitialized);
        }
        Ok(())
    }

    /// The keeper to store when `admin` sets it; `stored_admin` is the
    /// contract's admin.
    pub fn set_keeper(stored_admin: Option<Address>, admin: Address, keeper: Address) -> (r: Result<
        Address,
        BuybackError,
    >)
        ensures
            r == (match stored_admin {
                None => Err::<Address, BuybackError>(BuybackError::NotInitialized),
                Some(a) => if a != admin {
                    Err::<Address, BuybackError>(BuybackError::NotAdmin)
                } else {
                    Ok::<Address, BuybackError>(keeper)
                },
            }),
    {
        match stored_admin {
            None => Err(BuybackError::NotInitialized),
            Some(a) => {
                if a != admin {
                    return Err(BuybackError::NotAdmin);
                }
                Ok(keeper)
            },
        }
    }

    /// Records `amount` of collected `token` fees at ledger
    /// `current_ledger` on top of the stored balance `existing` (none:
    /// zero), and returns the balance to store.
    pub fn collect_fees(
        stored_admin: Option<Address>,
        admin: Address,
        token: Address,
        amount: i128,
        existing: Option<FeeBalance>,
        current_ledger: u32,
    ) -> (r: Result<FeeBalance, BuybackError>)
        ensures
            r == (match stored_admin {
                None => Err::<FeeBalance, BuybackError>(BuybackError::NotInitialized),
                Some(a) => if a != admin {
                    Err::<FeeBalance, BuybackError>(BuybackError::NotAdmin)
                } else if amount <= 0 {
                    Err::<FeeBalance, BuybackError>(BuybackError::InvalidAmount)
                } else {
                    let old_amount: int = match existing {
                        None => 0,
                        Some(e) => e.amount as int,
                    };
                    if old_amount + amount > i128::MAX || old_amount + amount < i128::MIN {
                        Err::<FeeBalance, BuybackError>(BuybackError::Overflow)
                    } else {
                        Ok::<FeeBalance, BuybackError>(
                            FeeBalance {
                                token,
                                amount: (old_amount + amount) as i128,
                                last_collected_ledger: current_ledger,
                            },
                        )
                    }
                },
            }),
    {
        match stored_admin {
            None => return Err(BuybackError::NotInitialized),
            Some(a) => {
                if a != admin {
                    return Err(BuybackError::NotAdmin);
                }
            },
        }
        if amount <= 0 {
            return Err(BuybackError::InvalidAmount);
        }
        let old_amount: i128 = match existing {
            None => 0,
            Some(e) => e.amount,
        };
        match old_amount.checked_add(amount) {
            None => Err(BuybackError::Overflow),
            Some(new_amount) => Ok(
                FeeBalance { token, amount: new_amount, last_collected_ledger: current_ledger },
            ),
        }
    }

    /// The stored fee balance of `token`, or an empty one.
    pub fn get_fee_balance(stored: Option<FeeBalance>, token: Address) -> (r: FeeBalance)
        ensures
            r == (match stored {
                Some(f) => f,
                None => FeeBalance { token, amount: 0, last_collected_ledger: 0 },
            }),
    {
        match stored {
            Some(f) => f,
            None => FeeBalance { token, amount: 0, last_collected_ledger: 0 },
        }
    }

    /// Plans a sweep by `caller` of stray tokens from sources holding
    /// `balances` into the treasury: every source with a positive balance
    /// gives it all. Only the admin or the keeper may sweep.
    pub fn sweep_assets(
        stored_admin: Option<Address>,
        keeper: Option<Address>,
        treasury: Option<Address>,
        caller: Address,
        balances: &Vec<i128>,
    ) -> (r: Result<SweepPlan, BuybackError>)
        ensures
            stored_admin is None ==> r == Err::<SweepPlan, BuybackError>(BuybackError::NotInitialized),
            stored_admin matches Some(a) && !may_sweep(a, keeper, caller) ==> r == Err::<
                SweepPlan,
                BuybackError,
            >(BuybackError::NotAuthorized),
            stored_admin matches Some(a) && may_sweep(a, keeper, caller) ==> (match treasury {
                None => r == Err::<SweepPlan, BuybackError>(BuybackError::NotInitialized),
                Some(t) => if positive_total(balances@) > i128::MAX {
                    r == Err::<SweepPlan, BuybackError>(BuybackError::Overflow)
                } else {
                    r matches Ok(plan) && plan.treasury == t && plan.sources@ == positive_indices(
                        balances@,
                    ) && plan.total == positive_total(balances@)
                },
            }),
    {
        let a = match stored_admin {
            None => return Err(BuybackError::NotInitialized),
            Some(a) => a,
        };
        let authorized = caller == a || match keeper {
            Some(k) => caller == k,
            None => false,
        };
        if !authorized {
            return Err(BuybackError::NotAuthorized);
        }
        let t = match treasury {
            None => return Err(BuybackError::NotInitialized),
            Some(t) => t,
        };
        let mut total: i128 = 0;
        let mut sources: Vec<usize> = Vec::new();
        let mut i: usize = 0;
        while i < balances.len()
            invariant
                stored_admin == Some(a),
                may_sweep(a, keeper, caller),
                treasury == Some(t),
                i <= balances.len(),
                total == positive_total(balances@.take(i as int)),
                sources@ == positive_indices(balances@.take(i as int)),
            decreases balances.len() - i,
        {
            let b = balances[i];
            proof {
                assert(balances@.take(i + 1).drop_last() =~= balances@.take(i as int));
                lemma_positive_total_monotone(balances@, i + 1);
            }
            if b > 0 {
                total = match total.checked_add(b) {
                    Some(v) => v,
                    None => return Err(BuybackError::Overflow),
                };
                sources.push(i);
            }
            i = i + 1;
        }
        proof {
            assert(balances@.take(balances.len() as int) =~= balances@);
        }
        Ok(SweepPlan { treasury: t, sources, total })
    }

    /// The same as `sweep_assets`, for fee-specific callers.
    pub fn sweep_fees(
        stored_admin: Option<Address>,
        keeper: Option<Address>,
        treasury: Option<Address>,
        caller: Address,
        balances: &Vec<i128>,
    ) -> (r: Result<SweepPlan, BuybackError>)
        ensures
            stored_admin is None ==> r == Err::<SweepPlan, BuybackError>(BuybackError::NotInitialized),
            stored_admin matches Some(a) && !may_sweep(a, keeper, caller) ==> r == Err::<
                SweepPlan,
                BuybackError,
            >(BuybackError::NotAuthorized),
            stored_admin matches Some(a) && may_sweep(a, keeper, caller) ==> (match treasury {
                None => r == Err::<SweepPlan, BuybackError>(BuybackError::NotInitialized),
                Some(t) => if positive_total(balances@) > i128::MAX {
                    r == Err::<SweepPlan, BuybackError>(BuybackError::Overflow)
                } else {
                    r matches Ok(plan) && plan.treasury == t && plan.sources@ == positive_indices(
                        balances@,
                    ) && plan.total == positive_total(balances@)
                },
            }),
    {
        Self::sweep_assets(stored_admin, keeper, treasury, caller, balances)
    }

    /// Executes a buyback by `admin`: `swap_amount` of the collected
    /// `fee_token` fees (stored balance `fee_balance`) is paired with the
    /// other token of pool `pool_id` (stored configuration `pool`) in the
    /// pool's ratio and deposited; the LP shares, the integer square root
    /// of the two amounts' product, are added to the treasury's
    /// `current_treasury_lp` shares in the pool.
    pub fn execute_buyback(
        stored_admin: Option<Address>,
        admin: Address,
        pool_id: [u8; 32],
        fee_token: Address,
        swap_amount: i128,
        fee_balance: Option<FeeBalance>,
        pool: Option<LiquidityPool>,
        treasury: Option<Address>,
        current_treasury_lp: i128,
        current_ledger: u32,
    ) -> (r: Result<BuybackOutcome, BuybackError>)
        requires
            buyback_reaches_pool(stored_admin, admin, fee_balance, swap_amount as int) ==> (pool matches Some(
                p,
            ) ==> buyback_fits(p, fee_token, swap_amount as int)),
        ensures
            match buyback_checks(stored_admin, admin, fee_balance, pool, fee_token, swap_amount as int) {
                Err(e) => r == Err::<BuybackOutcome, BuybackError>(e),
                Ok((a, b)) => if treasury is None {
                    r == Err::<BuybackOutcome, BuybackError>(BuybackError::NotInitialized)
                } else if current_treasury_lp + isqrt_spec(a * b) > i128::MAX {
                    r == Err::<BuybackOutcome, BuybackError>(BuybackError::Overflow)
                } else {
                    r matches Ok(o) && o.record == (BuybackRecord {
                        pool_id,
                        fee_token,
                        fee_amount: swap_amount,
                        swapped_amount_a: a as i128,
                        swapped_amount_b: b as i128,
                        lp_shares_received: isqrt_spec(a * b) as i128,
                        executed_ledger: current_ledger,
                    }) && o.fee_balance == (FeeBalance {
                        amount: (fee_balance->0.amount - swap_amount) as i128,
                        ..fee_balance->0
                    }) && o.treasury_lp_shares == current_treasury_lp + isqrt_spec(a * b)
                },
            },
    {
        match stored_admin {
            None => return Err(BuybackError::NotInitialized),
            Some(a) => {
                if a != admin {
                    return Err(BuybackError::NotAdmin);
                }
            },
        }
        if swap_amount <= 0 {
            return Err(BuybackError::InvalidAmount);
        }
        let f = match fee_balance {
            None => return Err(BuybackError::InsufficientFees),
            Some(f) => f,
        };
        if f.amount < swap_amount {
            return Err(BuybackError::InsufficientFees);
        }
        let p = match pool {
            None => return Err(BuybackError::PoolNotFound),
            Some(p) => p,
        };
        let ratio: i128 = p.ratio_a_bps as i128;
        let (amount_a, amount_b): (i128, i128) = if fee_token == p.token_a {
            if ratio > 0 {
                (swap_amount, div_toward_zero(swap_amount * (10000 - ratio), ratio))
            } else {
                return Err(BuybackError::InvalidRatio);
            }
        } else if fee_token == p.token_b {
            if ratio < 10000 {
                (div_toward_zero(swap_amount * ratio, 10000 - ratio), swap_amount)
            } else {
                return Err(BuybackError::InvalidRatio);
            }
        } else {
            return Err(BuybackError::InvalidAmount);
        };
        let lp_shares = isqrt(amount_a * amount_b);
        let new_fee = FeeBalance { amount: f.amount - swap_amount, ..f };
        if treasury.is_none() {
            return Err(BuybackError::NotInitialized);
        }
        let new_treasury_lp = match current_treasury_lp.checked_add(lp_shares) {
            None => return Err(BuybackError::Overflow),
            Some(v) => v,
        };
        let record = BuybackRecord {
            pool_id,
            fee_token,
            fee_amount: swap_amount,
            swapped_amount_a: amount_a,
            swapped_amount_b: amount_b,
            lp_shares_received: lp_shares,
            executed_ledger: current_ledger,
        };
        Ok(BuybackOutcome { record, fee_balance: new_fee, treasury_lp_shares: new_treasury_lp })
    }

    /// Registers pool `pool_id` with its tokens and the share of token A
    /// in bps, which must lie strictly between 0 and 10000; `exists` says
    /// whether the pool is registered already.
    pub fn register_pool(
        stored_admin: Option<Address>,
        admin: Address,
        pool_id: [u8; 32],
        token_a: Address,
        token_b: Address,
        lp_token: Address,
        ratio_a_bps: u32,
        exists: bool,
    ) -> (r: Result<LiquidityPool, BuybackError>)
        ensures
            stored_admin is None ==> r == Err::<LiquidityPool, BuybackError>(BuybackError::NotInitialized),
            stored_admin matches Some(a) && a != admin ==> r == Err::<LiquidityPool, BuybackError>(
                BuybackError::NotAdmin,
            ),
            stored_admin == Some(admin) ==> r == (if ratio_a_bps == 0 || ratio_a_bps >= 10000 {
                Err::<LiquidityPool, BuybackError>(BuybackError::InvalidRatio)
            } else if exists {
                Err::<LiquidityPool, BuybackError>(BuybackError::PoolAlreadyRegistered)
            } else {
                Ok::<LiquidityPool, BuybackError>(
                    LiquidityPool { pool_id, token_a, token_b, lp_token, ratio_a_bps },
                )
            }),
    {
        match stored_admin {
            None => return Err(BuybackError::NotInitialized),
            Some(a) => {
                if a != admin {
                    return Err(BuybackError::NotAdmin);
                }
            },
        }
        if ratio_a_bps == 0 || ratio_a_bps >= 10000 {
            return Err(BuybackError::InvalidRatio);
        }
        if exists {
            return Err(BuybackError::PoolAlreadyRegistered);
        }
        Ok(LiquidityPool { pool_id, token_a, token_b, lp_token, ratio_a_bps })
    }

    /// The treasury's LP shares in a pool: the stored count, or zero.
    pub fn get_treasury_lp_shares(stored: Option<i128>) -> (r: i128)
        ensures
            r == (match stored {
                Some(v) => v,
                None => 0,
            }),
    {
        match stored {
            Some(v) => v,
            None => 0,
        }
    }
}

} // verus!
