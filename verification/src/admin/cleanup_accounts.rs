//! Reclaiming storage of long-inactive user accounts.
//!
//! An account whose last activity is more than 500 000 ledgers behind the
//! current ledger is removed, as is an entry that cannot be read as an
//! account but still has a time-to-live. Each removal reclaims an estimated
//! 128 bytes and earns the caller a reward of 10.
use vstd::prelude::*;

use crate::Address;

verus! {

/// Ledgers of inactivity after which an account is reclaimed.
pub const INACTIVITY_LEDGERS: u32 = 500_000;
/// Estimated bytes reclaimed per removed account.
pub const BYTES_PER_ACCOUNT: i32 = 128;
/// Reward per removed account.
pub const REWARD_PER_ACCOUNT: u32 = 10;

/// A user account record.
#[derive(Clone, Copy, Debug, PartialEq, Eq, Structural)]
pub struct UserAccount {
    pub last_active_ledger: u32,
    pub is_idle: bool,
    pub balance: u64,
}

/// What is stored under an account key.
#[derive(Clone, Copy, Debug, PartialEq, Eq, Structural)]
pub enum AccountRecord {
    /// A readable account.
    Account(UserAccount),
    /// An entry that is not a readable account; `has_ttl` says whether the
    /// ledger reports a time-to-live for it.
    Unreadable { has_ttl: bool },
}

/// A stored account entry; `present` is false once removed.
#[derive(Clone, Copy, Debug, PartialEq, Eq, Structural)]
pub struct AccountEntry {
    pub address: Address,
    pub record: AccountRecord,
    pub present: bool,
}

/// The outcome of an inactive-account sweep.
#[derive(Clone, Copy, Debug, PartialEq, Eq, Structural)]
pub struct AccountCleanupReport {
    pub accounts_cleaned: u32,
    pub bytes_reclaimed: i32,
    /// Reward owed to the caller (published only when something was cleaned).
    pub reward: u32,
}

/// Whether the record under an account key is reclaimed at `current_ledger`.
pub open spec fn reclaimable(r: AccountRecord, current_ledger: u32) -> bool {
    match r {
        AccountRecord::Account(a) => (if current_ledger >= a.last_active_ledger {
            current_ledger - a.last_active_ledger
        } else {
            0
        }) > INACTIVITY_LEDGERS,
        AccountRecord::Unreadable { has_ttl } => has_ttl,
    }
}

/// The index of `a` among the entries, or -1.
pub open spec fn account_index(entries: Seq<AccountEntry>, a: Address) -> int {
    if exists|i: int| 0 <= i < entries.len() && entries[i].address == a {
        choose|i: int| 0 <= i < entries.len() && entries[i].address == a
    } else {
        -1
    }
}

/// Distinct addresses.
pub open spec fn accounts_wf(entries: Seq<AccountEntry>) -> bool {
    forall|i: int, j: int| 0 <= i < j < entries.len() ==> entries[i].address != entries[j].address
}

/// The entries and count after sweeping `targets` in order.
pub open spec fn sweep(entries: Seq<AccountEntry>, targets: Seq<Address>, current_ledger: u32) -> (Seq<AccountEntry>, nat)
    decreases targets.len(),
{
    if targets.len() == 0 {
        (entries, 0)
    } else {
        let (e, n) = sweep(entries, targets.drop_last(), current_ledger);
        let i = account_index(e, targets.last());
        if i >= 0 && e[i].present && reclaimable(e[i].record, current_ledger) {
            (e.update(i, AccountEntry { present: false, ..e[i] }), n + 1)
        } else {
            (e, n)
        }
    }
}

proof fn lemma_sweep_count_grows(entries: Seq<AccountEntry>, targets: Seq<Address>, current_ledger: u32, i: int)
    requires
        0 <= i <= targets.len(),
    ensures
        sweep(entries, targets.take(i), current_ledger).1 <= sweep(entries, targets, current_ledger).1,
    decreases targets.len() - i,
{
    if i < targets.len() {
        lemma_sweep_count_grows(entries, targets, current_ledger, i + 1);
        assert(targets.take(i + 1).drop_last() =~= targets.take(i));
    } else {
        assert(targets.take(i) =~= targets);
    }
}

/// Sweeps `targets`, removing reclaimable accounts.
pub fn cleanup_inactive_accounts(entries: &mut Vec<AccountEntry>, targets: &Vec<Address>, current_ledger: u32) -> (r:
    AccountCleanupReport)
    requires
        accounts_wf(old(entries)@),
        sweep(old(entries)@, targets@, current_ledger).1 <= 16_777_215,
    ensures
        accounts_wf(final(entries)@),
        (final(entries)@, r.accounts_cleaned as nat) == sweep(old(entries)@, targets@, current_ledger),
        r.bytes_reclaimed == r.accounts_cleaned * BYTES_PER_ACCOUNT,
        r.reward == r.accounts_cleaned * REWARD_PER_ACCOUNT,
{
    let ghost init = entries@;
    let mut cleaned: u32 = 0;
    let mut bytes: i32 = 0;
    let mut i: usize = 0;
    while i < targets.len()
        invariant
            i <= targets@.len(),
            sweep(init, targets@, current_ledger).1 <= 16_777_215,
            bytes == cleaned * 128,
            accounts_wf(entries@),
            (entries@, cleaned as nat) == sweep(init, targets@.take(i as int), current_ledger),
        decreases targets.len() - i,
    {
        assert(targets@.take(i as int + 1).drop_last() =~= targets@.take(i as int));
        proof {
            lemma_sweep_count_grows(init, targets@, current_ledger, i as int + 1);
        }
        let a = targets[i];
        let mut k: usize = 0;
        let mut found: Option<usize> = None;
        while k < entries.len()
            invariant
                k <= entries@.len(),
                accounts_wf(entries@),
                found is None ==> forall|m: int| 0 <= m < k ==> entries@[m].address != a,
                found matches Some(f) ==> f < entries@.len() && entries@[f as int].address == a,
            decreases entries.len() - k,
        {
            if found.is_none() && entries[k].address == a {
                found = Some(k);
            }
            k = k + 1;
        }
        match found {
            Some(f) => {
                proof {
                    let c = account_index(entries@, a);
                    assert(0 <= c < entries@.len() && entries@[c].address == a);
                    if c != f {
                        assert(entries@[c].address != entries@[f as int].address);
                    }
                }
                let e = entries[f];
                let stale = match e.record {
                    AccountRecord::Account(acc) => current_ledger.saturating_sub(acc.last_active_ledger)
                        > INACTIVITY_LEDGERS,
                    AccountRecord::Unreadable { has_ttl } => has_ttl,
                };
                if e.present && stale {
                    let ghost before = entries@;
                    entries.set(f, AccountEntry { present: false, ..e });
                    proof {
                        assert forall|x: int, y: int| 0 <= x < y < entries@.len() implies entries@[x].address
                            != entries@[y].address by {
                            assert(before[x].address != before[y].address);
                        }
                    }
                    cleaned = cleaned + 1;
                    bytes = bytes + BYTES_PER_ACCOUNT;
                }
            },
            None => {
                proof {
                    assert(account_index(entries@, a) == -1);
                }
            },
        }
        i = i + 1;
    }
    assert(targets@.take(targets@.len() as int) =~= targets@);
    AccountCleanupReport { accounts_cleaned: cleaned, bytes_reclaimed: bytes, reward: cleaned * REWARD_PER_ACCOUNT }
}

} // verus!
