//! Rolling 24-hour bridge mint and unlock rate limiter.
//!
//! Every accepted amount is recorded with its timestamp; a new amount is
//! accepted only while the amounts recorded within the last 24 hours plus
//! the new one stay within the cap.
use vstd::prelude::*;

use crate::contract::ContractData;
use crate::error::ContractError;
use crate::Address;

verus! {

/// Length of the rolling window: 24 hours.
pub const WINDOW_SECONDS: u64 = 86_400;

/// The asset a rate limit applies to.
#[derive(Clone, Debug)]
pub enum RateLimitAsset {
    /// A wrapped asset by code.
    Wrapped(String),
    /// A native token by contract.
    Native(Address),
}

/// An accepted amount and when it was accepted.
#[derive(Clone, Copy, Debug, PartialEq, Eq, Structural)]
pub struct MintWindowEntry {
    pub timestamp: u64,
    pub amount: i128,
}

/// A configured rolling cap.
#[derive(Clone, Debug)]
pub struct MintRateLimit {
    pub asset: RateLimitAsset,
    pub max_rolling_amount: i128,
    pub window_seconds: u64,
}

/// Sets the rolling cap of `asset` as the contract admin.
pub fn set_limit(
    data: Option<ContractData>,
    admin: Address,
    asset: RateLimitAsset,
    max_rolling_amount: i128,
) -> (r: Result<MintRateLimit, ContractError>)
    ensures
        data is None ==> (r matches Err(e) && e == ContractError::NotInitialized),
        data matches Some(d) ==> (d.admin != admin ==> (r matches Err(e) && e == ContractError::NotAdmin)),
        data matches Some(d) ==> (d.admin == admin && max_rolling_amount <= 0 ==> (r matches Err(e) && e
            == ContractError::InvalidBridgeRateLimit)),
        data matches Some(d) ==> (d.admin == admin && max_rolling_amount > 0 ==> (r matches Ok(l)
            && l.max_rolling_amount == max_rolling_amount && l.window_seconds == WINDOW_SECONDS)),
{
    match data {
        None => return Err(ContractError::NotInitialized),
        Some(d) => {
            if d.admin != admin {
                return Err(ContractError::NotAdmin);
            }
        },
    }
    if max_rolling_amount <= 0 {
        return Err(ContractError::InvalidBridgeRateLimit);
    }
    Ok(MintRateLimit { asset, max_rolling_amount, window_seconds: WINDOW_SECONDS })
}

/// Every recorded amount is positive.
pub open spec fn window_wf(entries: Seq<MintWindowEntry>) -> bool {
    forall|i: int| 0 <= i < entries.len() ==> #[trigger] entries[i].amount > 0
}

/// The entries recorded after `cutoff`, in order.
pub open spec fn in_window(entries: Seq<MintWindowEntry>, cutoff: u64) -> Seq<MintWindowEntry>
    decreases entries.len(),
{
    if entries.len() == 0 {
        entries
    } else {
        let rest = in_window(entries.drop_last(), cutoff);
        if entries.last().timestamp > cutoff {
            rest.push(entries.last())
        } else {
            rest
        }
    }
}

/// Sum of the recorded amounts.
pub open spec fn sum_amounts(entries: Seq<MintWindowEntry>) -> int
    decreases entries.len(),
{
    if entries.len() == 0 {
        0
    } else {
        sum_amounts(entries.drop_last()) + entries.last().amount
    }
}

/// The start of the window ending at `now`.
pub open spec fn window_cutoff(now: u64) -> u64 {
    if now >= WINDOW_SECONDS {
        (now - WINDOW_SECONDS) as u64
    } else {
        0
    }
}

proof fn lemma_window_facts(entries: Seq<MintWindowEntry>, cutoff: u64, i: int)
    requires
        window_wf(entries),
        0 <= i <= entries.len(),
    ensures
        window_wf(in_window(entries.take(i), cutoff)),
        0 <= sum_amounts(in_window(entries.take(i), cutoff)) <= sum_amounts(in_window(entries, cutoff)),
    decreases entries.len() - i,
{
    lemma_window_lower(entries, cutoff, i);
    if i == entries.len() {
        assert(entries.take(i) =~= entries);
    } else {
        lemma_window_facts(entries, cutoff, i + 1);
        assert(entries.take(i + 1).drop_last() =~= entries.take(i));
        lemma_window_lower(entries, cutoff, i + 1);
        let w = in_window(entries.take(i), cutoff);
        assert(w.push(entries[i]).drop_last() =~= w);
        assert(entries[i].amount > 0);
    }
}

proof fn lemma_window_lower(entries: Seq<MintWindowEntry>, cutoff: u64, i: int)
    requires
        window_wf(entries),
        0 <= i <= entries.len(),
    ensures
        window_wf(in_window(entries.take(i), cutoff)),
        sum_amounts(in_window(entries.take(i), cutoff)) >= 0,
    decreases i,
{
    if i > 0 {
        lemma_window_lower(entries, cutoff, i - 1);
        assert(entries.take(i).drop_last() =~= entries.take(i - 1));
        let w = in_window(entries.take(i - 1), cutoff);
        assert(w.push(entries[i - 1]).drop_last() =~= w);
        assert(entries[i - 1].amount > 0);
        if entries[i - 1].timestamp > cutoff {
            assert forall|k: int| 0 <= k < w.push(entries[i - 1]).len() implies #[trigger] w.push(
                entries[i - 1],
            )[k].amount > 0 by {
                if k < w.len() {
                    assert(w[k].amount > 0);
                }
            }
        }
    } else {
        assert(entries.take(0) =~= Seq::<MintWindowEntry>::empty());
    }
}

/// The outcome of checking `amount` against the rolling cap at `now`.
pub open spec fn rate_limit_outcome(entries: Seq<MintWindowEntry>, cap: i128, amount: i128, now: u64) -> Result<
    (),
    ContractError,
> {
    let total = sum_amounts(in_window(entries, window_cutoff(now)));
    if amount <= 0 {
        Err(ContractError::AmountTooLow)
    } else if cap <= 0 {
        Err(ContractError::InvalidBridgeRateLimit)
    } else if total > i128::MAX || total + amount > i128::MAX {
        Err(ContractError::Overflow)
    } else if total + amount > cap {
        Err(ContractError::BridgeRateLimitExceeded)
    } else {
        Ok(())
    }
}

/// Checks `amount` against the rolling cap of its asset (`limit`, or
/// `fallback_cap` when none is configured) at time `now`. When accepted,
/// entries outside the window are dropped and the amount is recorded;
/// otherwise the entries are unchanged.
pub fn enforce_and_record(
    entries: &mut Vec<MintWindowEntry>,
    limit: Option<i128>,
    amount: i128,
    fallback_cap: i128,
    now: u64,
) -> (r: Result<(), ContractError>)
    requires
        window_wf(old(entries)@),
    ensures
        window_wf(final(entries)@),
        r == rate_limit_outcome(old(entries)@, (if limit is Some { limit->0 } else { fallback_cap }), amount, now),
        r is Err ==> final(entries)@ == old(entries)@,
        r is Ok ==> final(entries)@ == in_window(old(entries)@, window_cutoff(now)).push(
            MintWindowEntry { timestamp: now, amount },
        ),
{
    if amount <= 0 {
        return Err(ContractError::AmountTooLow);
    }
    let cap = match limit {
        Some(c) => c,
        None => fallback_cap,
    };
    if cap <= 0 {
        return Err(ContractError::InvalidBridgeRateLimit);
    }
    let cutoff = now.saturating_sub(WINDOW_SECONDS);
    let ghost s = entries@;
    let mut pruned: Vec<MintWindowEntry> = Vec::new();
    let mut rolling_total: i128 = 0;
    let mut i: usize = 0;
    while i < entries.len()
        invariant
            s == entries@,
            s == old(entries)@,
            amount > 0,
            cap > 0,
            cap == (if limit is Some { limit->0 } else { fallback_cap }),
            window_wf(s),
            i <= s.len(),
            cutoff == window_cutoff(now),
            pruned@ == in_window(s.take(i as int), cutoff),
            rolling_total == sum_amounts(pruned@),
        decreases entries.len() - i,
    {
        assert(s.take(i as int + 1).drop_last() =~= s.take(i as int));
        proof {
            lemma_window_facts(s, cutoff, i as int + 1);
        }
        let e = entries[i];
        if e.timestamp > cutoff {
            let ghost before = pruned@;
            assert(before.push(e).drop_last() =~= before);
            rolling_total = match rolling_total.checked_add(e.amount) {
                Some(v) => v,
                None => {
                    proof {
                        assert(s.take(i as int + 1).last() == e);
                        assert(in_window(s.take(i as int + 1), cutoff) == before.push(e));
                        assert(sum_amounts(before.push(e)) == sum_amounts(before) + e.amount);
                        lemma_window_facts(s, cutoff, i as int + 1);
                    }
                    return Err(ContractError::Overflow);
                },
            };
            pruned.push(e);
        }
        i = i + 1;
    }
    assert(s.take(s.len() as int) =~= s);
    proof {
        lemma_window_facts(s, cutoff, s.len() as int);
    }
    let next_total = match rolling_total.checked_add(amount) {
        Some(v) => v,
        None => return Err(ContractError::Overflow),
    };
    if next_total > cap {
        return Err(ContractError::BridgeRateLimitExceeded);
    }
    let ghost w = pruned@;
    pruned.push(MintWindowEntry { timestamp: now, amount });
    proof {
        assert forall|k: int| 0 <= k < pruned@.len() implies #[trigger] pruned@[k].amount > 0 by {
            if k < w.len() {
                assert(w[k].amount > 0);
            }
        }
    }
    *entries = pruned;
    Ok(())
}

/// Once an amount is accepted, the amounts recorded within the window that
/// ends at the same instant never exceed the cap.
pub proof fn lemma_accepted_window_within_cap(entries: Seq<MintWindowEntry>, cap: i128, amount: i128, now: u64)
    requires
        window_wf(entries),
        rate_limit_outcome(entries, cap, amount, now) is Ok,
    ensures
        sum_amounts(
            in_window(
                in_window(entries, window_cutoff(now)).push(MintWindowEntry { timestamp: now, amount }),
                window_cutoff(now),
            ),
        ) <= cap,
{
    let c = window_cutoff(now);
    let w = in_window(entries, c);
    lemma_window_idempotent(entries, c);
    let pushed = w.push(MintWindowEntry { timestamp: now, amount });
    assert(pushed.drop_last() =~= w);
}

proof fn lemma_window_idempotent(entries: Seq<MintWindowEntry>, cutoff: u64)
    ensures
        in_window(in_window(entries, cutoff), cutoff) == in_window(entries, cutoff),
        forall|k: int| 0 <= k < in_window(entries, cutoff).len() ==> #[trigger] in_window(entries, cutoff)[k].timestamp
            > cutoff,
    decreases entries.len(),
{
    if entries.len() > 0 {
        lemma_window_idempotent(entries.drop_last(), cutoff);
        let rest = in_window(entries.drop_last(), cutoff);
        if entries.last().timestamp > cutoff {
            let p = rest.push(entries.last());
            assert(p.drop_last() =~= rest);
            assert forall|k: int| 0 <= k < p.len() implies #[trigger] p[k].timestamp > cutoff by {
                if k < rest.len() {
                    assert(rest[k].timestamp > cutoff);
                }
            }
        }
    }
}

} // verus!
