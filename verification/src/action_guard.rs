//! Timelock and payload guard for queued governance actions.
//!
//! A queued action may run only once the current time exceeds (not merely
//! reaches) `queued_timestamp + TIMELOCK_DELAY`, and only against a
//! transaction hash identical to the SHA-256 hash of the payload that was
//! queued.
use vstd::prelude::*;

use crate::crypto::{bytes32_eq, sha256, sha256_digest};
use crate::error::ContractError;

verus! {

/// Mandatory delay between queueing an action and running it: 48 hours.
pub const TIMELOCK_DELAY: u64 = 172_800;

/// A governance action waiting for its timelock window.
#[derive(Clone, Copy, Debug, PartialEq, Eq)]
pub struct QueuedAction {
    /// SHA-256 hash of the payload committed at queue time.
    pub payload_hash: [u8; 32],
    /// Time at which the action was queued.
    pub queued_timestamp: u64,
    /// `queued_timestamp + TIMELOCK_DELAY`.
    pub execute_at: u64,
    pub cancelled: bool,
}

impl QueuedAction {
    /// The SHA-256 digest of a raw proposal payload.
    pub fn hash_payload(env: &soroban_sdk::Env, payload: &[u8]) -> (r: [u8; 32])
        ensures
            r@ == sha256_digest(payload@),
    {
        sha256(env, payload)
    }
}

/// `queued_timestamp + TIMELOCK_DELAY`, or `None` when it overflows.
pub fn execution_timestamp(queued_timestamp: u64) -> (r: Option<u64>)
    ensures
        queued_timestamp + TIMELOCK_DELAY <= u64::MAX ==> r == Some((queued_timestamp + TIMELOCK_DELAY) as u64),
        queued_timestamp + TIMELOCK_DELAY > u64::MAX ==> r is None,
{
    queued_timestamp.checked_add(TIMELOCK_DELAY)
}

/// Queues an action at time `now`, bound to the hash of its payload.
pub fn queue_action(env: &soroban_sdk::Env, payload: &[u8], now: u64) -> (r: Result<QueuedAction, ContractError>)
    ensures
        now + TIMELOCK_DELAY > u64::MAX ==> r == Err::<QueuedAction, ContractError>(ContractError::Overflow),
        now + TIMELOCK_DELAY <= u64::MAX ==> r is Ok && r->Ok_0.payload_hash@ == sha256_digest(payload@)
            && r->Ok_0.queued_timestamp == now && r->Ok_0.execute_at == now + TIMELOCK_DELAY
            && !r->Ok_0.cancelled,
{
    let payload_hash = QueuedAction::hash_payload(env, payload);
    let execute_at = match execution_timestamp(now) {
        Some(t) => t,
        None => return Err(ContractError::Overflow),
    };
    Ok(QueuedAction { payload_hash, queued_timestamp: now, execute_at, cancelled: false })
}

/// Succeeds only once `current_timestamp` exceeds the action's deadline.
pub fn assert_timelock_expired(action: &QueuedAction, current_timestamp: u64) -> (r: Result<(), ContractError>)
    ensures
        current_timestamp > action.execute_at ==> r is Ok,
        current_timestamp <= action.execute_at ==> r == Err::<(), ContractError>(ContractError::TimelockNotExpired),
{
    if current_timestamp <= action.execute_at {
        return Err(ContractError::TimelockNotExpired);
    }
    Ok(())
}

/// Succeeds only when `tx_hash` equals the queued payload hash.
pub fn assert_payload_matches(action: &QueuedAction, tx_hash: &[u8; 32]) -> (r: Result<(), ContractError>)
    ensures
        tx_hash@ == action.payload_hash@ ==> r is Ok,
        tx_hash@ != action.payload_hash@ ==> r == Err::<(), ContractError>(ContractError::PayloadHashMismatch),
{
    if !bytes32_eq(tx_hash, &action.payload_hash) {
        return Err(ContractError::PayloadHashMismatch);
    }
    Ok(())
}

/// Whether the current time exceeds the queued deadline.
pub fn is_timelock_expired(action: &QueuedAction, current_timestamp: u64) -> (r: bool)
    ensures
        r == (current_timestamp > action.execute_at),
{
    current_timestamp > action.execute_at
}

/// Seconds left until the action may run; zero once the deadline passed.
pub fn timelock_remaining(action: &QueuedAction, current_timestamp: u64) -> (r: u64)
    ensures
        r == (if action.execute_at > current_timestamp { action.execute_at - current_timestamp } else { 0 }),
{
    action.execute_at.saturating_sub(current_timestamp)
}

/// The combined gate run before a queued action's effects: something must
/// be queued and not cancelled, the timelock must have expired, and the
/// offered hash must be the queued one (checked in that order).
pub fn verify_action_execution(action: Option<QueuedAction>, tx_hash: &[u8; 32], now: u64) -> (r: Result<
    QueuedAction,
    ContractError,
>)
    ensures
        r == execution_outcome(action, tx_hash@, now),
        r is Ok <==> (action matches Some(a) && !a.cancelled && now > a.execute_at && tx_hash@
            == a.payload_hash@),
{
    let a = match action {
        None => return Err(ContractError::NotInitialized),
        Some(a) => a,
    };
    if a.cancelled {
        return Err(ContractError::NoPendingUpgrade);
    }
    match assert_timelock_expired(&a, now) {
        Ok(()) => {},
        Err(e) => return Err(e),
    }
    match assert_payload_matches(&a, tx_hash) {
        Ok(()) => {},
        Err(e) => return Err(e),
    }
    Ok(a)
}

/// The outcome of the execution gate.
pub open spec fn execution_outcome(action: Option<QueuedAction>, tx_hash: Seq<u8>, now: u64) -> Result<
    QueuedAction,
    ContractError,
> {
    match action {
        None => Err(ContractError::NotInitialized),
        Some(a) => if a.cancelled {
            Err(ContractError::NoPendingUpgrade)
        } else if now <= a.execute_at {
            Err(ContractError::TimelockNotExpired)
        } else if tx_hash != a.payload_hash@ {
            Err(ContractError::PayloadHashMismatch)
        } else {
            Ok(a)
        },
    }
}

/// The execution gate opens for a pending action only once more than
/// `TIMELOCK_DELAY` seconds separate `now` from its queue time, and only
/// for the hash recorded with it.
pub proof fn lemma_queued_action_gate(a: QueuedAction, tx_hash: Seq<u8>, now: u64)
    requires
        a.execute_at == a.queued_timestamp + TIMELOCK_DELAY,
    ensures
        execution_outcome(Some(a), tx_hash, now) is Ok ==> now > a.queued_timestamp + TIMELOCK_DELAY
            && tx_hash == a.payload_hash@,
        execution_outcome(Some(a), tx_hash, a.queued_timestamp) is Err,
{
}

} // verus!
