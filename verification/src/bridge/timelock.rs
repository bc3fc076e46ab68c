//! Timelocked large withdrawals and the bridge validator set.
//!
//! A withdrawal above one billion units may execute only six hours after it
//! was queued; smaller ones may execute at once. A cancelled withdrawal can
//! never execute.
use vstd::prelude::*;

use crate::error::ContractError;
use crate::Address;

verus! {

/// Amount above which a withdrawal waits the timelock.
pub const LARGE_TRANSFER_THRESHOLD: u128 = 1_000_000_000;
/// Timelock of large withdrawals: 6 hours.
pub const TIMELOCK_SECONDS: u64 = 21_600;

/// A queued withdrawal.
#[derive(Clone, Copy, Debug, PartialEq, Eq, Structural)]
pub struct TimelockedWithdrawal {
    pub receiver: Address,
    pub amount: u128,
    pub queued_at: u64,
    pub execute_after: u64,
    pub cancelled: bool,
}

/// The bridge validator set and its rotation sequence.
#[derive(Clone, Debug)]
pub struct ValidatorSet {
    pub sequence: u64,
    pub keys: Vec<[u8; 32]>,
}

/// Queues a withdrawal at `now`; a large one waits `TIMELOCK_SECONDS`.
pub fn queue_withdrawal(receiver: Address, amount: u128, now: u64) -> (r: TimelockedWithdrawal)
    requires
        amount > LARGE_TRANSFER_THRESHOLD ==> now + TIMELOCK_SECONDS <= u64::MAX,
    ensures
        r == (TimelockedWithdrawal {
            receiver,
            amount,
            queued_at: now,
            execute_after: (if amount > LARGE_TRANSFER_THRESHOLD { now + TIMELOCK_SECONDS } else { now as int })
                as u64,
            cancelled: false,
        }),
{
    let execute_after = if amount > LARGE_TRANSFER_THRESHOLD { now + TIMELOCK_SECONDS } else { now };
    TimelockedWithdrawal { receiver, amount, queued_at: now, execute_after, cancelled: false }
}

/// Marks the receiver's queued withdrawal cancelled.
pub fn cancel_withdrawal(withdrawal: Option<TimelockedWithdrawal>) -> (r: Result<TimelockedWithdrawal, ContractError>)
    ensures
        withdrawal is None ==> r == Err::<TimelockedWithdrawal, ContractError>(ContractError::NoPendingUpgrade),
        withdrawal matches Some(w) ==> r == Ok::<TimelockedWithdrawal, ContractError>(
            TimelockedWithdrawal { cancelled: true, ..w },
        ),
{
    match withdrawal {
        None => Err(ContractError::NoPendingUpgrade),
        Some(mut w) => {
            w.cancelled = true;
            Ok(w)
        },
    }
}

/// The outcome of executing a withdrawal at `now`.
pub open spec fn withdrawal_outcome(withdrawal: Option<TimelockedWithdrawal>, now: u64) -> Result<
    TimelockedWithdrawal,
    ContractError,
> {
    match withdrawal {
        None => Err(ContractError::NoPendingUpgrade),
        Some(w) => if w.cancelled {
            Err(ContractError::NoPendingUpgrade)
        } else if now < w.execute_after {
            Err(ContractError::UpgradeTimelockNotSatisfied)
        } else {
            Ok(w)
        },
    }
}

/// Executes the receiver's queued withdrawal at `now`, if it is not
/// cancelled and its timelock has passed.
pub fn execute_withdrawal(withdrawal: Option<TimelockedWithdrawal>, now: u64) -> (r: Result<
    TimelockedWithdrawal,
    ContractError,
>)
    ensures
        r == withdrawal_outcome(withdrawal, now),
{
    match withdrawal {
        None => Err(ContractError::NoPendingUpgrade),
        Some(w) => if w.cancelled {
            Err(ContractError::NoPendingUpgrade)
        } else if now < w.execute_after {
            Err(ContractError::UpgradeTimelockNotSatisfied)
        } else {
            Ok(w)
        },
    }
}

/// A large withdrawal cannot execute before its timelock has run from its
/// queue time, and a cancelled withdrawal never executes.
pub proof fn lemma_withdrawal_timelock(receiver: Address, amount: u128, queued_at: u64, now: u64)
    requires
        amount > LARGE_TRANSFER_THRESHOLD,
        queued_at + TIMELOCK_SECONDS <= u64::MAX,
    ensures
        ({
            let w = TimelockedWithdrawal {
                receiver,
                amount,
                queued_at,
                execute_after: (queued_at + TIMELOCK_SECONDS) as u64,
                cancelled: false,
            };
            &&& withdrawal_outcome(Some(w), now) is Ok <==> now >= queued_at + TIMELOCK_SECONDS
            &&& withdrawal_outcome(Some(TimelockedWithdrawal { cancelled: true, ..w }), now) is Err
        }),
{
}

/// Records the governance address once; `exists` says whether one is set.
pub fn initialize_governance(exists: bool, governance: Address) -> (r: Result<Address, ContractError>)
    ensures
        r == (if exists {
            Err::<Address, ContractError>(ContractError::NoPendingUpgrade)
        } else {
            Ok::<Address, ContractError>(governance)
        }),
{
    if exists {
        return Err(ContractError::NoPendingUpgrade);
    }
    Ok(governance)
}

/// Records the initial validator set once; `exists` says whether one is
/// set.
pub fn initialize_validator_set(exists: bool, keys: Vec<[u8; 32]>) -> (r: Result<ValidatorSet, ContractError>)
    ensures
        exists ==> (r matches Err(e) && e == ContractError::NoPendingUpgrade),
        !exists ==> (r matches Ok(v) && v.sequence == 0 && v.keys@ == keys@),
{
    if exists {
        return Err(ContractError::NoPendingUpgrade);
    }
    Ok(ValidatorSet { sequence: 0, keys })
}

/// Replaces the validator keys as the governance address, advancing the
/// sequence.
pub fn rotate_validators(
    governance: Option<Address>,
    caller: Address,
    current: Option<ValidatorSet>,
    new_keys: Vec<[u8; 32]>,
) -> (r: Result<ValidatorSet, ContractError>)
    requires
        governance == Some(caller) && current is Some ==> current->0.sequence < u64::MAX,
    ensures
        governance != Some(caller) ==> (r matches Err(e) && e == ContractError::NoPendingUpgrade),
        governance == Some(caller) && current is None ==> (r matches Err(e) && e == ContractError::NoPendingUpgrade),
        governance == Some(caller) && current is Some ==> (r matches Ok(v) && v.sequence == current->0.sequence + 1
            && v.keys@ == new_keys@),
{
    match governance {
        None => return Err(ContractError::NoPendingUpgrade),
        Some(g) => {
            if g != caller {
                return Err(ContractError::NoPendingUpgrade);
            }
        },
    }
    match current {
        None => Err(ContractError::NoPendingUpgrade),
        Some(mut v) => {
            v.sequence = v.sequence + 1;
            v.keys = new_keys;
            Ok(v)
        },
    }
}

} // verus!
