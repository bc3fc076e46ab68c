//! Vote-escrowed token locks.
//!
//! A user locks tokens for a duration (in ledgers) within
//! `[MIN_LOCK_DURATION_LEDGERS, max_duration]`; while the lock runs they may
//! add tokens or extend it, and after it expires they may withdraw. A lock's
//! voting power for a proposal made before its expiry is its amount scaled
//! by `duration / max_duration` (the whole amount at the maximum duration).
use vstd::prelude::*;

use crate::Address;

verus! {

/// Seconds per ledger used to derive timestamps from ledger counts.
pub const SECONDS_PER_LEDGER: u64 = 60;
/// Shortest lock: one week of ledgers.
pub const MIN_LOCK_DURATION_LEDGERS: u64 = 10_080;
/// Default longest lock: four years of ledgers.
pub const MAX_LOCK_DURATION_LEDGERS: u64 = 2_102_400;

/// Errors of the lock contract.
#[derive(Clone, Copy, Debug, PartialEq, Eq, Structural)]
pub enum VeflowLockError {
    AlreadyInitialized,
    NotInitialized,
    NotAdmin,
    NoLock,
    LockNotExpired,
    InvalidAmount,
    InvalidDuration,
    LockExpired,
    DurationNotExtended,
    WeightOverflow,
}

/// A user's lock.
#[derive(Clone, Copy, Debug, PartialEq, Eq, Structural)]
pub struct Lock {
    pub amount: i128,
    pub start_ledger: u32,
    pub expiry_ledger: u32,
    pub start_timestamp: u64,
    pub expiry_timestamp: u64,
    pub duration: u64,
}

/// The contract's settings, written together at initialization.
#[derive(Clone, Copy, Debug, PartialEq, Eq, Structural)]
pub struct VeflowConfig {
    pub admin: Address,
    pub token: Address,
    pub max_duration: u64,
}

/// Storage keys of the contract.
#[derive(Clone, Copy, Debug, PartialEq, Eq, Structural)]
pub enum DataKey {
    Admin,
    Token,
    MaxDuration,
    Lock(Address),
}

/// The vote-escrow lock contract.
pub struct VeflowLock;

/// `a · b`, saturated at `u64::MAX`.
pub open spec fn sat_mul(a: u64, b: u64) -> u64 {
    if a * b > u64::MAX {
        u64::MAX
    } else {
        (a * b) as u64
    }
}

fn saturating_mul_u64(a: u64, b: u64) -> (r: u64)
    ensures
        r == sat_mul(a, b),
{
    match a.checked_mul(b) {
        Some(v) => v,
        None => u64::MAX,
    }
}

/// The outcome of adding `amount` to a running lock.
pub open spec fn added(lock: Lock, amount: i128) -> Result<Lock, VeflowLockError> {
    if lock.amount + amount > i128::MAX {
        Err(VeflowLockError::WeightOverflow)
    } else {
        Ok(Lock { amount: (lock.amount + amount) as i128, ..lock })
    }
}

impl VeflowLock {
    /// Validates a lock duration against the bounds.
    pub fn validate_duration(duration: u64, max_duration: u64) -> (r: Result<(), VeflowLockError>)
        ensures
            r == (if duration < MIN_LOCK_DURATION_LEDGERS || duration > max_duration {
                Err::<(), VeflowLockError>(VeflowLockError::InvalidDuration)
            } else {
                Ok::<(), VeflowLockError>(())
            }),
    {
        if duration < MIN_LOCK_DURATION_LEDGERS || duration > max_duration {
            return Err(VeflowLockError::InvalidDuration);
        }
        Ok(())
    }

    /// The settings written at initialization (`max_duration` zero selects
    /// the default); `exists` says whether the contract is initialized.
    pub fn initialize(exists: bool, admin: Address, token: Address, max_duration: u64) -> (r: Result<
        VeflowConfig,
        VeflowLockError,
    >)
        ensures
            r == (if exists {
                Err::<VeflowConfig, VeflowLockError>(VeflowLockError::AlreadyInitialized)
            } else {
                let m = if max_duration == 0 { MAX_LOCK_DURATION_LEDGERS } else { max_duration };
                if m < MIN_LOCK_DURATION_LEDGERS {
                    Err::<VeflowConfig, VeflowLockError>(VeflowLockError::InvalidDuration)
                } else {
                    Ok::<VeflowConfig, VeflowLockError>(VeflowConfig { admin, token, max_duration: m })
                }
            }),
    {
        if exists {
            return Err(VeflowLockError::AlreadyInitialized);
        }
        let m = if max_duration == 0 { MAX_LOCK_DURATION_LEDGERS } else { max_duration };
        if m < MIN_LOCK_DURATION_LEDGERS {
            return Err(VeflowLockError::InvalidDuration);
        }
        Ok(VeflowConfig { admin, token, max_duration: m })
    }

    /// Locks `amount` for `duration` ledgers at ledger `ledger` and time
    /// `now`; with a running lock, the amount is added to it instead.
    /// `existing` is the user's lock. The tokens are then transferred in.
    pub fn lock(
        config: Option<VeflowConfig>,
        existing: Option<Lock>,
        amount: i128,
        duration: u64,
        ledger: u32,
        now: u64,
    ) -> (r: Result<Lock, VeflowLockError>)
        ensures
            config is None ==> r == Err::<Lock, VeflowLockError>(VeflowLockError::NotInitialized),
            config is Some && amount <= 0 ==> r == Err::<Lock, VeflowLockError>(VeflowLockError::InvalidAmount),
            config is Some && amount > 0 ==> (existing matches Some(l) ==> r == (if ledger >= l.expiry_ledger {
                Err::<Lock, VeflowLockError>(VeflowLockError::LockExpired)
            } else {
                added(l, amount)
            })),
            config matches Some(c) ==> (amount > 0 && existing is None ==> r == (if duration
                < MIN_LOCK_DURATION_LEDGERS || duration > c.max_duration {
                Err::<Lock, VeflowLockError>(VeflowLockError::InvalidDuration)
            } else if ledger + (duration as u32) > u32::MAX || now + sat_mul(duration, SECONDS_PER_LEDGER)
                > u64::MAX {
                Err::<Lock, VeflowLockError>(VeflowLockError::InvalidDuration)
            } else {
                Ok::<Lock, VeflowLockError>(
                    Lock {
                        amount,
                        start_ledger: ledger,
                        expiry_ledger: (ledger + (duration as u32)) as u32,
                        start_timestamp: now,
                        expiry_timestamp: (now + sat_mul(duration, SECONDS_PER_LEDGER)) as u64,
                        duration,
                    },
                )
            })),
    {
        let c = match config {
            None => return Err(VeflowLockError::NotInitialized),
            Some(c) => c,
        };
        if amount <= 0 {
            return Err(VeflowLockError::InvalidAmount);
        }
        match existing {
            Some(l) => {
                if ledger >= l.expiry_ledger {
                    return Err(VeflowLockError::LockExpired);
                }
                let total = match l.amount.checked_add(amount) {
                    Some(t) => t,
                    None => return Err(VeflowLockError::WeightOverflow),
                };
                return Ok(Lock { amount: total, ..l });
            },
            None => {},
        }
        match Self::validate_duration(duration, c.max_duration) {
            Ok(()) => {},
            Err(e) => return Err(e),
        }
        let expiry_ledger = match ledger.checked_add(#[verifier::truncate] (duration as u32)) {
            Some(e) => e,
            None => return Err(VeflowLockError::InvalidDuration),
        };
        let expiry_timestamp = match now.checked_add(saturating_mul_u64(duration, SECONDS_PER_LEDGER)) {
            Some(e) => e,
            None => return Err(VeflowLockError::InvalidDuration),
        };
        Ok(Lock {
            amount,
            start_ledger: ledger,
            expiry_ledger,
            start_timestamp: now,
            expiry_timestamp,
            duration,
        })
    }

    /// Extends the user's running lock to `new_duration` ledgers, restarting
    /// it at ledger `ledger` and time `now`; the expiry moves by the added
    /// duration.
    pub fn extend_lock(config: Option<VeflowConfig>, existing: Option<Lock>, new_duration: u64, ledger: u32, now: u64) -> (r:
        Result<Lock, VeflowLockError>)
        ensures
            config is None ==> r == Err::<Lock, VeflowLockError>(VeflowLockError::NotInitialized),
            config matches Some(c) ==> r == (if new_duration < MIN_LOCK_DURATION_LEDGERS || new_duration
                > c.max_duration {
                Err::<Lock, VeflowLockError>(VeflowLockError::InvalidDuration)
            } else {
                match existing {
                    None => Err::<Lock, VeflowLockError>(VeflowLockError::NoLock),
                    Some(l) => if ledger >= l.expiry_ledger {
                        Err::<Lock, VeflowLockError>(VeflowLockError::LockExpired)
                    } else if new_duration <= l.duration {
                        Err::<Lock, VeflowLockError>(VeflowLockError::DurationNotExtended)
                    } else {
                        let delta = (new_duration - l.duration) as u64;
                        if l.expiry_ledger + (delta as u32) > u32::MAX || l.expiry_timestamp + sat_mul(
                            delta,
                            SECONDS_PER_LEDGER,
                        ) > u64::MAX {
                            Err::<Lock, VeflowLockError>(VeflowLockError::InvalidDuration)
                        } else {
                            Ok::<Lock, VeflowLockError>(
                                Lock {
                                    amount: l.amount,
                                    duration: new_duration,
                                    expiry_ledger: (l.expiry_ledger + (delta as u32)) as u32,
                                    expiry_timestamp: (l.expiry_timestamp + sat_mul(delta, SECONDS_PER_LEDGER)) as u64,
                                    start_ledger: ledger,
                                    start_timestamp: now,
                                },
                            )
                        }
                    },
                }
            }),
    {
        let c = match config {
            None => return Err(VeflowLockError::NotInitialized),
            Some(c) => c,
        };
        match Self::validate_duration(new_duration, c.max_duration) {
            Ok(()) => {},
            Err(e) => return Err(e),
        }
        let mut l = match existing {
            None => return Err(VeflowLockError::NoLock),
            Some(l) => l,
        };
        if ledger >= l.expiry_ledger {
            return Err(VeflowLockError::LockExpired);
        }
        if new_duration <= l.duration {
            return Err(VeflowLockError::DurationNotExtended);
        }
        let delta: u64 = new_duration - l.duration;
        l.duration = new_duration;
        l.expiry_ledger = match l.expiry_ledger.checked_add(#[verifier::truncate] (delta as u32)) {
            Some(e) => e,
            None => return Err(VeflowLockError::InvalidDuration),
        };
        l.expiry_timestamp = match l.expiry_timestamp.checked_add(saturating_mul_u64(delta, SECONDS_PER_LEDGER)) {
            Some(e) => e,
            None => return Err(VeflowLockError::InvalidDuration),
        };
        l.start_ledger = ledger;
        l.start_timestamp = now;
        Ok(l)
    }

    /// Adds `amount` to the user's running lock at ledger `ledger`.
    pub fn add_amount(config: Option<VeflowConfig>, existing: Option<Lock>, amount: i128, ledger: u32) -> (r: Result<
        Lock,
        VeflowLockError,
    >)
        ensures
            r == (if config is None {
                Err::<Lock, VeflowLockError>(VeflowLockError::NotInitialized)
            } else if amount <= 0 {
                Err::<Lock, VeflowLockError>(VeflowLockError::InvalidAmount)
            } else {
                match existing {
                    None => Err::<Lock, VeflowLockError>(VeflowLockError::NoLock),
                    Some(l) => if ledger >= l.expiry_ledger {
                        Err::<Lock, VeflowLockError>(VeflowLockError::LockExpired)
                    } else {
                        added(l, amount)
                    },
                }
            }),
    {
        if config.is_none() {
            return Err(VeflowLockError::NotInitialized);
        }
        if amount <= 0 {
            return Err(VeflowLockError::InvalidAmount);
        }
        let mut l = match existing {
            None => return Err(VeflowLockError::NoLock),
            Some(l) => l,
        };
        if ledger >= l.expiry_ledger {
            return Err(VeflowLockError::LockExpired);
        }
        l.amount = match l.amount.checked_add(amount) {
            Some(a) => a,
            None => return Err(VeflowLockError::WeightOverflow),
        };
        Ok(l)
    }

    /// Withdraws the user's expired lock at ledger `ledger`, returning the
    /// amount paid out; the lock is then removed.
    pub fn withdraw(config: Option<VeflowConfig>, existing: Option<Lock>, ledger: u32) -> (r: Result<
        i128,
        VeflowLockError,
    >)
        ensures
            r == (if config is None {
                Err::<i128, VeflowLockError>(VeflowLockError::NotInitialized)
            } else {
                match existing {
                    None => Err::<i128, VeflowLockError>(VeflowLockError::NoLock),
                    Some(l) => if ledger < l.expiry_ledger {
                        Err::<i128, VeflowLockError>(VeflowLockError::LockNotExpired)
                    } else {
                        Ok::<i128, VeflowLockError>(l.amount)
                    },
                }
            }),
    {
        if config.is_none() {
            return Err(VeflowLockError::NotInitialized);
        }
        let l = match existing {
            None => return Err(VeflowLockError::NoLock),
            Some(l) => l,
        };
        if ledger < l.expiry_ledger {
            return Err(VeflowLockError::LockNotExpired);
        }
        Ok(l.amount)
    }

    /// The voting power of a lock for a proposal made at `proposed_at`:
    /// zero without a lock, a configuration, or once the lock expired;
    /// otherwise `amount * duration / max_duration`, rounded down, and the
    /// whole amount at or beyond the maximum.
    pub fn get_voting_power(lock: Option<Lock>, max_duration: Option<u64>, proposed_at: u64) -> (r: i128)
        requires
            lock matches Some(l) ==> l.amount >= 0,
        ensures
            r == (match (lock, max_duration) {
                (Some(l), Some(m)) => if proposed_at >= l.expiry_timestamp {
                    0
                } else if l.duration >= m {
                    l.amount as int
                } else {
                    l.amount * l.duration / (m as int)
                },
                _ => 0,
            }),
    {
        let l = match lock {
            None => return 0,
            Some(l) => l,
        };
        if proposed_at >= l.expiry_timestamp {
            return 0;
        }
        let m = match max_duration {
            None => return 0,
            Some(m) => m,
        };
        if l.duration >= m {
            return l.amount;
        }
        let amount: u128 = l.amount as u128;
        let d: u128 = l.duration as u128;
        let mm: u128 = m as u128;
        let q: u128 = amount / mm;
        let rem: u128 = amount % mm;
        proof {
            lemma_scaled_split(amount as int, d as int, mm as int);
        }
        let whole: u128 = q * d;
        let part: u128 = (rem * d) / mm;
        (whole + part) as i128
    }
}

/// Splitting `a * d / m` into the part of whole multiples of `m` and the
/// part of the remainder, with both parts bounded so that each product fits
/// in 128 bits.
proof fn lemma_scaled_split(a: int, d: int, m: int)
    requires
        0 <= a <= i128::MAX,
        0 <= d < m,
        m <= u64::MAX,
    ensures
        (a / m) * d <= a,
        (a % m) * d < m * m,
        m * m <= u128::MAX,
        (a / m) * d + ((a % m) * d) / m == a * d / m,
        a * d / m <= a,
{
    vstd::arithmetic::div_mod::lemma_fundamental_div_mod(a, m);
    let q = a / m;
    let r = a % m;
    assert(0 <= r < m);
    assert(q >= 0) by {
        vstd::arithmetic::div_mod::lemma_div_pos_is_pos(a, m);
    }
    assert(q * d <= q * m) by (nonlinear_arith)
        requires
            q >= 0,
            0 <= d < m,
    ;
    assert(q * m == m * q) by (nonlinear_arith);
    assert(r * d < m * m) by (nonlinear_arith)
        requires
            0 <= r < m,
            0 <= d < m,
    ;
    assert(m * m <= u64::MAX * u64::MAX) by (nonlinear_arith)
        requires
            0 < m <= u64::MAX,
    ;
    assert(a * d == r * d + (q * d) * m) by (nonlinear_arith)
        requires
            a == m * q + r,
    ;
    vstd::arithmetic::div_mod::lemma_hoist_over_denominator(r * d, q * d, m as nat);
    assert(a * d <= a * m) by (nonlinear_arith)
        requires
            a >= 0,
            0 <= d < m,
    ;
    vstd::arithmetic::div_mod::lemma_div_is_ordered(a * d, a * m, m);
    assert(a * m / m == a) by (nonlinear_arith)
        requires
            m > 0,
    ;
}

/// A lock's voting power never exceeds its amount and is never negative.
pub proof fn lemma_voting_power_bounded(amount: i128, duration: u64, max_duration: u64)
    requires
        amount >= 0,
        duration < max_duration,
    ensures
        0 <= amount * duration / (max_duration as int) <= amount,
{
    assert(amount * duration <= amount * max_duration) by (nonlinear_arith)
        requires
            amount >= 0,
            duration < max_duration,
    ;
    assert(amount * duration >= 0) by (nonlinear_arith)
        requires
            amount >= 0,
    ;
    vstd::arithmetic::div_mod::lemma_div_is_ordered(amount * duration, amount * max_duration, max_duration as int);
    vstd::arithmetic::div_mod::lemma_div_pos_is_pos(amount * duration, max_duration as int);
    assert(amount * max_duration / (max_duration as int) == amount) by (nonlinear_arith)
        requires
            max_duration > 0,
    ;
}

} // verus!
