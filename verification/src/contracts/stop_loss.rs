//! Oracle-verified stop-loss triggers.
//!
//! A trigger escrows `sell_amount` of an asset and may be executed by any
//! keeper once the oracle TWAP breaches its stop price in the configured
//! direction, provided the TWAP lies within the trigger's fill-price band
//! and the proceeds `sell_amount · twap / PRICE_SCALE` meet its minimum.
//! An executed or cancelled trigger is inactive for good.
use vstd::prelude::*;

use crate::Address;

verus! {

/// Fixed-point scale of prices (10^7).
pub const PRICE_SCALE: i128 = 10_000_000;

/// Errors of the stop-loss contract.
#[derive(Clone, Copy, Debug, PartialEq, Eq, Structural)]
pub enum ContractError {
    AlreadyInitialized,
    NotInitialized,
    NotAdmin,
    TriggerNotFound,
    TriggerNotActive,
    NotTriggerOwner,
    InvalidAmount,
    InvalidTriggerPrice,
    InvalidSlippageBounds,
    OraclePriceUnavailable,
    TriggerPriceNotVerified,
    TriggerConditionNotMet,
    SlippageExceeded,
    InsufficientLiquidity,
    MathOverflow,
}

/// The numeric code the ledger reports for an error.
pub open spec fn error_code(e: ContractError) -> u32 {
    match e {
        ContractError::AlreadyInitialized => 1,
        ContractError::NotInitialized => 2,
        ContractError::NotAdmin => 3,
        ContractError::TriggerNotFound => 4,
        ContractError::TriggerNotActive => 5,
        ContractError::NotTriggerOwner => 6,
        ContractError::InvalidAmount => 7,
        ContractError::InvalidTriggerPrice => 8,
        ContractError::InvalidSlippageBounds => 9,
        ContractError::OraclePriceUnavailable => 10,
        ContractError::TriggerPriceNotVerified => 11,
        ContractError::TriggerConditionNotMet => 12,
        ContractError::SlippageExceeded => 13,
        ContractError::InsufficientLiquidity => 14,
        ContractError::MathOverflow => 15,
    }
}

impl ContractError {
    /// The numeric code the ledger reports for the error.
    pub fn code(&self) -> (r: u32)
        ensures
            r == error_code(*self),
    {
        match self {
            ContractError::AlreadyInitialized => 1,
            ContractError::NotInitialized => 2,
            ContractError::NotAdmin => 3,
            ContractError::TriggerNotFound => 4,
            ContractError::TriggerNotActive => 5,
            ContractError::NotTriggerOwner => 6,
            ContractError::InvalidAmount => 7,
            ContractError::InvalidTriggerPrice => 8,
            ContractError::InvalidSlippageBounds => 9,
            ContractError::OraclePriceUnavailable => 10,
            ContractError::TriggerPriceNotVerified => 11,
            ContractError::TriggerConditionNotMet => 12,
            ContractError::SlippageExceeded => 13,
            ContractError::InsufficientLiquidity => 14,
            ContractError::MathOverflow => 15,
        }
    }
}

/// Direction in which the oracle price breaches the stop price.
#[derive(Clone, Copy, Debug, PartialEq, Eq, Structural)]
pub enum TriggerCondition {
    PriceBelow,
    PriceAbove,
}

/// A registered stop-loss trigger.
#[derive(Clone, Debug)]
pub struct StopLossTrigger {
    pub id: u64,
    pub owner: Address,
    pub sell_asset: Address,
    pub buy_asset: Address,
    pub oracle_symbol: String,
    pub sell_amount: i128,
    pub stop_price: i128,
    pub condition: TriggerCondition,
    pub min_fill_price: i128,
    pub max_fill_price: i128,
    pub min_amount_out: i128,
    pub created_at: u64,
    pub active: bool,
}

/// The outcome of an executed trigger.
#[derive(Clone, Copy, Debug, PartialEq, Eq, Structural)]
pub struct ExecutionResult {
    pub trigger_id: u64,
    pub executed_at: u64,
    pub twap_price: i128,
    pub fill_price: i128,
    pub proceeds: i128,
}

/// The contract's admin and price oracle.
#[derive(Clone, Copy, Debug, PartialEq, Eq, Structural)]
pub struct Config {
    pub admin: Address,
    pub oracle: Address,
}

/// Storage keys of the contract.
#[derive(Clone, Copy, Debug, PartialEq, Eq, Structural)]
pub enum DataKey {
    Config,
    NextTriggerId,
    Trigger(u64),
}

/// The stop-loss trigger contract.
pub struct StopLossTriggerContract;

/// The refusal of trigger parameters, if any.
pub open spec fn trigger_params_error(
    sell_amount: i128,
    stop_price: i128,
    min_fill_price: i128,
    max_fill_price: i128,
    min_amount_out: i128,
) -> Option<ContractError> {
    if sell_amount <= 0 {
        Some(ContractError::InvalidAmount)
    } else if stop_price <= 0 {
        Some(ContractError::InvalidTriggerPrice)
    } else if min_fill_price <= 0 || max_fill_price < min_fill_price || min_amount_out < 0 {
        Some(ContractError::InvalidSlippageBounds)
    } else {
        None
    }
}

/// Whether the TWAP breaches the stop price in the trigger's direction.
pub open spec fn breached(condition: TriggerCondition, twap: i128, stop_price: i128) -> bool {
    match condition {
        TriggerCondition::PriceBelow => twap <= stop_price,
        TriggerCondition::PriceAbove => twap >= stop_price,
    }
}

/// The outcome of executing an active trigger `t` against the oracle TWAP
/// `oracle_twap` (`None` when unavailable), the keeper's claimed TWAP and the
/// contract's balance of the buy asset.
pub open spec fn execution_outcome(
    t: StopLossTrigger,
    oracle_twap: Option<i128>,
    claimed_twap: i128,
    pool_balance: i128,
) -> Result<i128, ContractError> {
    match oracle_twap {
        None => Err(ContractError::OraclePriceUnavailable),
        Some(twap) => if claimed_twap != twap {
            Err(ContractError::TriggerPriceNotVerified)
        } else if !breached(t.condition, twap, t.stop_price) {
            Err(ContractError::TriggerConditionNotMet)
        } else if twap < t.min_fill_price || twap > t.max_fill_price {
            Err(ContractError::SlippageExceeded)
        } else if t.sell_amount * twap < i128::MIN || t.sell_amount * twap > i128::MAX {
            Err(ContractError::MathOverflow)
        } else {
            let proceeds = trunc_div(t.sell_amount * twap, PRICE_SCALE as int);
            if proceeds < t.min_amount_out {
                Err(ContractError::SlippageExceeded)
            } else if pool_balance < proceeds {
                Err(ContractError::InsufficientLiquidity)
            } else {
                Ok(proceeds as i128)
            }
        },
    }
}

/// What executing a trigger gives: the result, and the trigger stored
/// afterwards (deactivated on success, unchanged otherwise).
pub open spec fn trigger_execution(
    config: Option<Config>,
    trigger: Option<StopLossTrigger>,
    trigger_id: u64,
    claimed_twap: i128,
    oracle_twap: Option<i128>,
    pool_balance: i128,
    now: u64,
) -> (Result<ExecutionResult, ContractError>, Option<StopLossTrigger>) {
    if config is None {
        (Err(ContractError::NotInitialized), trigger)
    } else {
        match trigger {
            None => (Err(ContractError::TriggerNotFound), trigger),
            Some(t) => if !t.active {
                (Err(ContractError::TriggerNotActive), trigger)
            } else {
                match execution_outcome(t, oracle_twap, claimed_twap, pool_balance) {
                    Err(e) => (Err(e), trigger),
                    Ok(proceeds) => (
                        Ok(ExecutionResult {
                            trigger_id,
                            executed_at: now,
                            twap_price: oracle_twap->0,
                            fill_price: oracle_twap->0,
                            proceeds,
                        }),
                        Some(StopLossTrigger { active: false, ..t }),
                    ),
                }
            },
        }
    }
}

/// What cancelling a trigger by `owner` gives: the refund, and the trigger
/// stored afterwards (deactivated on success, unchanged otherwise).
pub open spec fn trigger_cancellation(trigger: Option<StopLossTrigger>, owner: Address) -> (
    Result<i128, ContractError>,
    Option<StopLossTrigger>,
) {
    match trigger {
        None => (Err(ContractError::TriggerNotFound), trigger),
        Some(t) => if t.owner != owner {
            (Err(ContractError::NotTriggerOwner), trigger)
        } else if !t.active {
            (Err(ContractError::TriggerNotActive), trigger)
        } else {
            (Ok(t.sell_amount), Some(StopLossTrigger { active: false, ..t }))
        },
    }
}

/// A trigger pays out at most once: after a successful execution, every
/// later execution of it fails (as not active, once configured).
pub proof fn lemma_trigger_executes_once(
    config: Option<Config>,
    later_config: Option<Config>,
    trigger: Option<StopLossTrigger>,
    trigger_id: u64,
    claimed_twap: i128,
    oracle_twap: Option<i128>,
    pool_balance: i128,
    now: u64,
    later_claimed_twap: i128,
    later_oracle_twap: Option<i128>,
    later_pool_balance: i128,
    later: u64,
)
    requires
        trigger_execution(config, trigger, trigger_id, claimed_twap, oracle_twap, pool_balance, now).0 is Ok,
    ensures
        ({
            let stored = trigger_execution(config, trigger, trigger_id, claimed_twap, oracle_twap, pool_balance, now).1;
            let again = trigger_execution(
                later_config,
                stored,
                trigger_id,
                later_claimed_twap,
                later_oracle_twap,
                later_pool_balance,
                later,
            ).0;
            &&& again is Err
            &&& later_config is Some ==> again == Err::<ExecutionResult, ContractError>(ContractError::TriggerNotActive)
        }),
{
}

/// A cancelled trigger never executes, and cannot be cancelled again.
pub proof fn lemma_cancelled_trigger_is_inert(
    trigger: Option<StopLossTrigger>,
    owner: Address,
    config: Option<Config>,
    trigger_id: u64,
    claimed_twap: i128,
    oracle_twap: Option<i128>,
    pool_balance: i128,
    now: u64,
    other: Address,
)
    requires
        trigger_cancellation(trigger, owner).0 is Ok,
    ensures
        trigger_execution(config, trigger_cancellation(trigger, owner).1, trigger_id, claimed_twap, oracle_twap, pool_balance, now).0 is Err,
        trigger_cancellation(trigger_cancellation(trigger, owner).1, other).0 is Err,
{
}

/// Division rounded toward zero.
pub open spec fn trunc_div(a: int, b: int) -> int {
    if a >= 0 {
        a / b
    } else {
        -((-a) / b)
    }
}

impl StopLossTriggerContract {
    /// Validates the economic parameters of a trigger.
    pub fn validate_trigger_params(
        sell_amount: i128,
        stop_price: i128,
        min_fill_price: i128,
        max_fill_price: i128,
        min_amount_out: i128,
    ) -> (r: Result<(), ContractError>)
        ensures
            match trigger_params_error(sell_amount, stop_price, min_fill_price, max_fill_price, min_amount_out) {
                Some(e) => r == Err::<(), ContractError>(e),
                None => r is Ok,
            },
    {
        if sell_amount <= 0 {
            return Err(ContractError::InvalidAmount);
        }
        if stop_price <= 0 {
            return Err(ContractError::InvalidTriggerPrice);
        }
        if min_fill_price <= 0 || max_fill_price < min_fill_price || min_amount_out < 0 {
            return Err(ContractError::InvalidSlippageBounds);
        }
        Ok(())
    }

    /// The configuration written at initialization; `exists` says whether
    /// one is set.
    pub fn initialize(exists: bool, admin: Address, oracle: Address) -> (r: Result<Config, ContractError>)
        ensures
            r == (if exists {
                Err::<Config, ContractError>(ContractError::AlreadyInitialized)
            } else {
                Ok::<Config, ContractError>(Config { admin, oracle })
            }),
    {
        if exists {
            return Err(ContractError::AlreadyInitialized);
        }
        Ok(Config { admin, oracle })
    }

    /// Points the contract at a new oracle, as the admin.
    pub fn set_oracle(config: Option<Config>, admin: Address, oracle: Address) -> (r: Result<Config, ContractError>)
        ensures
            r == (match config {
                None => Err::<Config, ContractError>(ContractError::NotInitialized),
                Some(c) => if c.admin != admin {
                    Err::<Config, ContractError>(ContractError::NotAdmin)
                } else {
                    Ok::<Config, ContractError>(Config { oracle, ..c })
                },
            }),
    {
        match config {
            None => Err(ContractError::NotInitialized),
            Some(c) => if c.admin != admin {
                Err(ContractError::NotAdmin)
            } else {
                Ok(Config { oracle, ..c })
            },
        }
    }

    /// Registers an active trigger with identifier `next_id` at `now`,
    /// returning it and the next identifier; the owner's sell amount is then
    /// escrowed.
    pub fn register_trigger(
        next_id: u64,
        owner: Address,
        sell_asset: Address,
        buy_asset: Address,
        oracle_symbol: String,
        sell_amount: i128,
        stop_price: i128,
        condition: TriggerCondition,
        min_fill_price: i128,
        max_fill_price: i128,
        min_amount_out: i128,
        now: u64,
    ) -> (r: Result<(StopLossTrigger, u64), ContractError>)
        requires
            trigger_params_error(sell_amount, stop_price, min_fill_price, max_fill_price, min_amount_out) is None
                ==> next_id < u64::MAX,
        ensures
            match trigger_params_error(sell_amount, stop_price, min_fill_price, max_fill_price, min_amount_out) {
                Some(e) => r == Err::<(StopLossTrigger, u64), ContractError>(e),
                None => r is Ok && {
                    let (t, n) = r->Ok_0;
                    &&& n == next_id + 1
                    &&& t.id == next_id
                    &&& t.owner == owner
                    &&& t.sell_asset == sell_asset
                    &&& t.buy_asset == buy_asset
                    &&& t.oracle_symbol@ == oracle_symbol@
                    &&& t.sell_amount == sell_amount
                    &&& t.stop_price == stop_price
                    &&& t.condition == condition
                    &&& t.min_fill_price == min_fill_price
                    &&& t.max_fill_price == max_fill_price
                    &&& t.min_amount_out == min_amount_out
                    &&& t.created_at == now
                    &&& t.active
                },
            },
    {
        match Self::validate_trigger_params(sell_amount, stop_price, min_fill_price, max_fill_price, min_amount_out) {
            Ok(()) => {},
            Err(e) => return Err(e),
        }
        let trigger = StopLossTrigger {
            id: next_id,
            owner,
            sell_asset,
            buy_asset,
            oracle_symbol,
            sell_amount,
            stop_price,
            condition,
            min_fill_price,
            max_fill_price,
            min_amount_out,
            created_at: now,
            active: true,
        };
        Ok((trigger, next_id + 1))
    }

    /// Executes trigger `trigger_id` at `now` for a keeper who claims the
    /// oracle TWAP is `claimed_twap`. `oracle_twap` is the oracle's reply and
    /// `pool_balance` the contract's balance of the trigger's buy asset. On
    /// success the trigger is deactivated and the proceeds are paid to its
    /// owner.
    pub fn execute_trigger(
        config: Option<Config>,
        trigger: &mut Option<StopLossTrigger>,
        trigger_id: u64,
        claimed_twap: i128,
        oracle_twap: Option<i128>,
        pool_balance: i128,
        now: u64,
    ) -> (r: Result<ExecutionResult, ContractError>)
        ensures
            (r, *final(trigger)) == trigger_execution(config, *old(trigger), trigger_id, claimed_twap, oracle_twap, pool_balance, now),
            r is Err ==> *final(trigger) == *old(trigger),
            config is None ==> r == Err::<ExecutionResult, ContractError>(ContractError::NotInitialized),
            config is Some && (*old(trigger)) is None ==> r == Err::<ExecutionResult, ContractError>(
                ContractError::TriggerNotFound,
            ),
            config is Some ==> (*old(trigger) matches Some(t) ==> (!t.active ==> r == Err::<ExecutionResult, ContractError>(
                ContractError::TriggerNotActive,
            ))),
            config is Some ==> (*old(trigger) matches Some(t) ==> (t.active ==> match execution_outcome(
                t,
                oracle_twap,
                claimed_twap,
                pool_balance,
            ) {
                Err(e) => r == Err::<ExecutionResult, ContractError>(e),
                Ok(proceeds) => r == Ok::<ExecutionResult, ContractError>(
                    ExecutionResult {
                        trigger_id,
                        executed_at: now,
                        twap_price: oracle_twap->0,
                        fill_price: oracle_twap->0,
                        proceeds,
                    },
                ) && *final(trigger) == Some(StopLossTrigger { active: false, ..t }),
            })),
    {
        if config.is_none() {
            return Err(ContractError::NotInitialized);
        }
        let t = match trigger {
            None => return Err(ContractError::TriggerNotFound),
            Some(t) => t,
        };
        if !t.active {
            return Err(ContractError::TriggerNotActive);
        }
        let twap = match oracle_twap {
            Some(p) => p,
            None => return Err(ContractError::OraclePriceUnavailable),
        };
        if claimed_twap != twap {
            return Err(ContractError::TriggerPriceNotVerified);
        }
        let is_breached = match t.condition {
            TriggerCondition::PriceBelow => twap <= t.stop_price,
            TriggerCondition::PriceAbove => twap >= t.stop_price,
        };
        if !is_breached {
            return Err(ContractError::TriggerConditionNotMet);
        }
        if twap < t.min_fill_price || twap > t.max_fill_price {
            return Err(ContractError::SlippageExceeded);
        }
        let product = match t.sell_amount.checked_mul(twap) {
            Some(p) => p,
            None => return Err(ContractError::MathOverflow),
        };
        let proceeds = if product >= 0 {
            product / PRICE_SCALE
        } else {
            let t = -(product + 1);
            let q = t / PRICE_SCALE + if t % PRICE_SCALE == PRICE_SCALE - 1 { 1 } else { 0 };
            proof {
                let ti = t as int;
                vstd::arithmetic::div_mod::lemma_fundamental_div_mod(ti, 10_000_000);
                vstd::arithmetic::div_mod::lemma_mod_bound(ti, 10_000_000);
                if ti % 10_000_000 == 10_000_000 - 1 {
                    vstd::arithmetic::div_mod::lemma_fundamental_div_mod_converse(ti + 1, 10_000_000, ti / 10_000_000 + 1, 0);
                } else {
                    vstd::arithmetic::div_mod::lemma_fundamental_div_mod_converse(
                        ti + 1,
                        10_000_000,
                        ti / 10_000_000,
                        ti % 10_000_000 + 1,
                    );
                }
            }
            -q
        };
        assert(proceeds == trunc_div(product as int, PRICE_SCALE as int));
        if proceeds < t.min_amount_out {
            return Err(ContractError::SlippageExceeded);
        }
        if pool_balance < proceeds {
            return Err(ContractError::InsufficientLiquidity);
        }
        t.active = false;
        Ok(ExecutionResult { trigger_id, executed_at: now, twap_price: twap, fill_price: twap, proceeds })
    }

    /// Cancels the owner's active trigger, refunding its sell amount.
    pub fn cancel_trigger(trigger: &mut Option<StopLossTrigger>, owner: Address) -> (r: Result<i128, ContractError>)
        ensures
            (r, *final(trigger)) == trigger_cancellation(*old(trigger), owner),
            r is Err ==> *final(trigger) == *old(trigger),
            (*old(trigger)) is None ==> r == Err::<i128, ContractError>(ContractError::TriggerNotFound),
            *old(trigger) matches Some(t) ==> (if t.owner != owner {
                r == Err::<i128, ContractError>(ContractError::NotTriggerOwner)
            } else if !t.active {
                r == Err::<i128, ContractError>(ContractError::TriggerNotActive)
            } else {
                r == Ok::<i128, ContractError>(t.sell_amount) && *final(trigger) == Some(
                    StopLossTrigger { active: false, ..t },
                )
            }),
    {
        let t = match trigger {
            None => return Err(ContractError::TriggerNotFound),
            Some(t) => t,
        };
        if t.owner != owner {
            return Err(ContractError::NotTriggerOwner);
        }
        if !t.active {
            return Err(ContractError::TriggerNotActive);
        }
        let refund = t.sell_amount;
        t.active = false;
        Ok(refund)
    }

    /// Accepts a positive amount into the contract's liquidity pool.
    pub fn fund_pool(amount: i128) -> (r: Result<i128, ContractError>)
        ensures
            r == (if amount <= 0 {
                Err::<i128, ContractError>(ContractError::InvalidAmount)
            } else {
                Ok::<i128, ContractError>(amount)
            }),
    {
        if amount <= 0 {
            return Err(ContractError::InvalidAmount);
        }
        Ok(amount)
    }
}

} // verus!
