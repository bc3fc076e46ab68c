//! Records and rules of the main time-locked upgrade contract: its admin
//! record, the node stake registry, data freshness, emergency admin
//! revocation, cross-border fiat settlement escrows, the pool fee tier
//! controller and the asset identifiers of currency symbols.
use vstd::prelude::*;

use crate::error::ContractError;
use crate::fees::{calculate_and_deduct_fee, spec_calculate_and_deduct_fee};
use crate::governance::PROPOSAL_TTL_SECONDS;
use crate::{Address, AssetId};

verus! {

/// Default interval within which a heartbeat keeps data fresh: 5 minutes.
pub const DEFAULT_HEARTBEAT_INTERVAL: u64 = 300;
/// Window within which an anchor must settle a locked fiat escrow: 24 hours.
pub const FIAT_PAYOUT_TIMEOUT_SECS: u64 = 86_400;
/// Initial protocol fee ceiling: 10 000 bps.
pub const INITIAL_MAX_FEE_CEILING: u64 = 10_000;
/// LP share of pool swap fees (80 %).
pub const LP_SHARE_BPS: u32 = 8000;
/// Treasury share of pool swap fees (20 %).
pub const TREASURY_SHARE_BPS: u32 = 2000;
pub const FEE_TIER_005_BPS: u32 = 5;
pub const FEE_TIER_030_BPS: u32 = 30;
pub const FEE_TIER_100_BPS: u32 = 100;
pub const DEFAULT_FEE_TIER_BPS: u32 = 30;

/// Asset identifiers of the supported currencies.
pub const ID_NGN: AssetId = 3897123275;
pub const ID_KES: AssetId = 2654435761;
pub const ID_GHS: AssetId = 4026531840;
pub const ID_CFA: AssetId = 4160749568;
pub const ID_ZAR: AssetId = 3219226362;
pub const ID_UGX: AssetId = 2863311530;
pub const ID_STAKE: AssetId = 0;
pub const ID_VALUE: AssetId = 1;

/// The contract's core record: its admin and the protocol fee ceiling.
#[derive(Clone, Copy, Debug, PartialEq, Eq, Structural)]
pub struct ContractData {
    pub admin: Address,
    pub value: u64,
    pub max_fee_ceiling: u64,
}

/// The main time-locked upgrade contract.
pub struct TimeLockedUpgradeContract;

impl TimeLockedUpgradeContract {
    /// Splits `amount` into what remains after a `fee_bps` fee, and the fee.
    pub fn calculate_and_deduct_fee(amount: u128, fee_bps: u32) -> (r: Result<(u128, u128), ContractError>)
        ensures
            r == spec_calculate_and_deduct_fee(amount, fee_bps),
            r is Ok ==> r->Ok_0.0 + r->Ok_0.1 == amount,
    {
        calculate_and_deduct_fee(amount, fee_bps)
    }
}

/// The contract record written at initialization; `initialized` says
/// whether one exists.
pub fn initialize(initialized: bool, admin: Address) -> (r: Result<ContractData, ContractError>)
    ensures
        r == (if initialized {
            Err::<ContractData, ContractError>(ContractError::AlreadyInitialized)
        } else {
            Ok::<ContractData, ContractError>(ContractData { admin, value: 0, max_fee_ceiling: INITIAL_MAX_FEE_CEILING })
        }),
{
    if initialized {
        return Err(ContractError::AlreadyInitialized);
    }
    Ok(ContractData { admin, value: 0, max_fee_ceiling: INITIAL_MAX_FEE_CEILING })
}

// ── Stake registry ───────────────────────────────────────────────────────────

/// A node's registered stake.
#[derive(Clone, Copy, Debug, PartialEq, Eq, Structural)]
pub struct StakeRecord {
    pub node: Address,
    pub amount: u64,
    pub registered_at: u64,
}

/// Registers `node` with `amount` staked at `now`; `revoked` says whether
/// the node's address was revoked, `registered` whether it already is
/// registered and `total` is the total stake. Returns the record and the
/// new total.
pub fn stake_and_register(
    revoked: bool,
    registered: bool,
    total: u64,
    node: Address,
    amount: u64,
    now: u64,
) -> (r: Result<(StakeRecord, u64), ContractError>)
    ensures
        r == (if amount == 0 {
            Err::<(StakeRecord, u64), ContractError>(ContractError::InvalidStakeAmount)
        } else if revoked {
            Err::<(StakeRecord, u64), ContractError>(ContractError::RevokedAddress)
        } else if registered {
            Err::<(StakeRecord, u64), ContractError>(ContractError::AlreadyRegistered)
        } else if total + amount > u64::MAX {
            Err::<(StakeRecord, u64), ContractError>(ContractError::Overflow)
        } else {
            Ok::<(StakeRecord, u64), ContractError>(
                (StakeRecord { node, amount, registered_at: now }, (total + amount) as u64),
            )
        }),
{
    if amount == 0 {
        return Err(ContractError::InvalidStakeAmount);
    }
    match crate::admin::revocation::check_not_revoked(revoked) {
        Err(e) => return Err(e),
        Ok(()) => {},
    }
    if registered {
        return Err(ContractError::AlreadyRegistered);
    }
    let new_total = match total.checked_add(amount) {
        Some(t) => t,
        None => return Err(ContractError::Overflow),
    };
    Ok((StakeRecord { node, amount, registered_at: now }, new_total))
}

/// Withdraws a node's whole stake (`stake`, `None` when not registered) from
/// the total. Returns the withdrawn amount and the new total.
pub fn unstake(stake: Option<u64>, total: u64) -> (r: Result<(u64, u64), ContractError>)
    ensures
        r == (match stake {
            None => Err::<(u64, u64), ContractError>(ContractError::NotRegistered),
            Some(a) => Ok::<(u64, u64), ContractError>((a, if total >= a { (total - a) as u64 } else { 0 })),
        }),
{
    match stake {
        None => Err(ContractError::NotRegistered),
        Some(a) => Ok((a, total.saturating_sub(a))),
    }
}

/// The stake bookkeeping after a feed registration: the node's total stake
/// across feeds and the total staked.
#[derive(Clone, Copy, Debug, PartialEq, Eq, Structural)]
pub struct FeedStakeTotals {
    pub node_total: u64,
    pub total: u64,
}

/// Outcome of registering `amount` for a feed on top of the node's stake
/// `node_total` and the total staked `total`.
pub open spec fn spec_stake_for_feed(
    revoked: bool,
    feed_registered: bool,
    required: u64,
    node_total: u64,
    total: u64,
    amount: u64,
) -> Result<FeedStakeTotals, ContractError> {
    if amount == 0 {
        Err(ContractError::InvalidStakeAmount)
    } else if revoked {
        Err(ContractError::RevokedAddress)
    } else if feed_registered {
        Err(ContractError::FeedAlreadyRegistered)
    } else if amount < required {
        Err(ContractError::InsufficientStakeForTier)
    } else if node_total + amount > u64::MAX || total + amount > u64::MAX {
        Err(ContractError::Overflow)
    } else {
        Ok(FeedStakeTotals { node_total: (node_total + amount) as u64, total: (total + amount) as u64 })
    }
}

/// Registers a node for a currency feed with `amount` of collateral, which
/// must reach `required`, the minimum of the feed's staking tier;
/// `revoked` says whether the node's address was revoked,
/// `feed_registered` whether the node is registered for the feed
/// already, `node_total` is its stake across feeds (zero when it has none)
/// and `total` the total staked. Returns the new totals; the feed stake
/// stored is `amount`.
pub fn stake_and_register_for_feed(
    revoked: bool,
    feed_registered: bool,
    required: u64,
    node_total: u64,
    total: u64,
    amount: u64,
) -> (r: Result<FeedStakeTotals, ContractError>)
    ensures
        r == spec_stake_for_feed(revoked, feed_registered, required, node_total, total, amount),
{
    if amount == 0 {
        return Err(ContractError::InvalidStakeAmount);
    }
    match crate::admin::revocation::check_not_revoked(revoked) {
        Err(e) => return Err(e),
        Ok(()) => {},
    }
    if feed_registered {
        return Err(ContractError::FeedAlreadyRegistered);
    }
    if amount < required {
        return Err(ContractError::InsufficientStakeForTier);
    }
    let new_node_total = match node_total.checked_add(amount) {
        Some(v) => v,
        None => return Err(ContractError::Overflow),
    };
    let new_total = match total.checked_add(amount) {
        Some(v) => v,
        None => return Err(ContractError::Overflow),
    };
    Ok(FeedStakeTotals { node_total: new_node_total, total: new_total })
}

/// What leaving a feed leaves: the collateral returned, the node's stake
/// across feeds (`None`: its entry is removed) and the total staked.
#[derive(Clone, Copy, Debug, PartialEq, Eq, Structural)]
pub struct FeedUnstake {
    pub amount: u64,
    pub node_total: Option<u64>,
    pub total: u64,
}

/// `a - b`, floored at zero.
pub open spec fn sat_sub(a: u64, b: u64) -> u64 {
    if a >= b {
        (a - b) as u64
    } else {
        0
    }
}

/// Outcome of leaving a feed with collateral `feed_stake`.
pub open spec fn spec_unstake_from_feed(feed_stake: Option<u64>, node_total: u64, total: u64) -> Result<
    FeedUnstake,
    ContractError,
> {
    match feed_stake {
        None => Err(ContractError::NotRegistered),
        Some(a) => Ok(
            FeedUnstake {
                amount: a,
                node_total: if sat_sub(node_total, a) == 0 {
                    None
                } else {
                    Some(sat_sub(node_total, a))
                },
                total: sat_sub(total, a),
            },
        ),
    }
}

/// Withdraws a node's collateral from a feed (`feed_stake`, `None` when it
/// is not registered for the feed) out of its stake across feeds
/// `node_total` and the total staked `total`, both floored at zero.
pub fn unstake_from_feed(feed_stake: Option<u64>, node_total: u64, total: u64) -> (r: Result<
    FeedUnstake,
    ContractError,
>)
    ensures
        r == spec_unstake_from_feed(feed_stake, node_total, total),
{
    match feed_stake {
        None => Err(ContractError::NotRegistered),
        Some(a) => {
            let rest = node_total.saturating_sub(a);
            let node_entry = if rest == 0 {
                None
            } else {
                Some(rest)
            };
            Ok(FeedUnstake { amount: a, node_total: node_entry, total: total.saturating_sub(a) })
        },
    }
}

/// Registering for a feed and leaving it again gives the collateral back
/// and restores the node's stake (its entry is dropped if it had none) and
/// the total staked.
pub proof fn lemma_feed_stake_round_trip(required: u64, node_total: u64, total: u64, amount: u64)
    requires
        spec_stake_for_feed(false, false, required, node_total, total, amount) is Ok,
    ensures
        spec_unstake_from_feed(
            Some(amount),
            spec_stake_for_feed(false, false, required, node_total, total, amount)->Ok_0.node_total,
            spec_stake_for_feed(false, false, required, node_total, total, amount)->Ok_0.total,
        ) == Ok::<FeedUnstake, ContractError>(
            FeedUnstake {
                amount,
                node_total: if node_total == 0 {
                    None
                } else {
                    Some(node_total)
                },
                total,
            },
        ),
{
}

// ── Signers ──────────────────────────────────────────────────────────────────

/// The signer set after `caller`, who must be the admin and not revoked
/// (`revoked`), registers `signer`; a signer already present is not added
/// twice.
pub fn register_signer(
    revoked: bool,
    data: Option<ContractData>,
    caller: Address,
    signers: &mut Vec<Address>,
    signer: Address,
) -> (r: Result<(), ContractError>)
    requires
        !crate::config::has_duplicates(old(signers)@),
    ensures
        !crate::config::has_duplicates(final(signers)@),
        revoked ==> r == Err::<(), ContractError>(ContractError::RevokedAddress) && final(signers)@ == old(signers)@,
        !revoked ==> match crate::admin::action_queue::admin_error(data, caller) {
            Some(e) => r == Err::<(), ContractError>(e) && final(signers)@ == old(signers)@,
            None => r == Ok::<(), ContractError>(()) && final(signers)@ == (if old(signers)@.contains(signer) {
                old(signers)@
            } else {
                old(signers)@.push(signer)
            }),
        },
{
    match crate::admin::revocation::check_not_revoked(revoked) {
        Err(e) => return Err(e),
        Ok(()) => {},
    }
    match crate::admin::action_queue::check_admin(data, caller) {
        Err(e) => return Err(e),
        Ok(_) => {},
    }
    let mut i: usize = 0;
    while i < signers.len()
        invariant
            signers@ == old(signers)@,
            !revoked,
            !crate::config::has_duplicates(old(signers)@),
            crate::admin::action_queue::admin_error(data, caller) is None,
            i <= signers@.len(),
            forall|k: int| 0 <= k < i ==> signers@[k] != signer,
        decreases signers.len() - i,
    {
        if signers[i] == signer {
            return Ok(());
        }
        i = i + 1;
    }
    let ghost before = signers@;
    signers.push(signer);
    proof {
        assert(!before.contains(signer));
        assert forall|a: int, b: int| 0 <= a < b < signers@.len() implies signers@[a] != signers@[b] by {
            if b == before.len() {
                assert(before[a] != signer);
            } else {
                assert(!(before[a] == before[b]));
            }
        }
    }
    Ok(())
}

/// The signer set after `caller`, who must be the admin, removes `signer`.
pub fn remove_signer(data: Option<ContractData>, caller: Address, signers: &mut Vec<Address>, signer: Address) -> (r:
    Result<(), ContractError>)
    requires
        !crate::config::has_duplicates(old(signers)@),
    ensures
        !crate::config::has_duplicates(final(signers)@),
        match crate::admin::action_queue::admin_error(data, caller) {
            Some(e) => r == Err::<(), ContractError>(e) && final(signers)@ == old(signers)@,
            None => r == Ok::<(), ContractError>(()) && final(signers)@ == old(signers)@.filter(
                |a: Address| a != signer,
            ),
        },
{
    match crate::admin::action_queue::check_admin(data, caller) {
        Err(e) => return Err(e),
        Ok(_) => {},
    }
    let ghost before = signers@;
    let mut kept: Vec<Address> = Vec::new();
    let mut i: usize = 0;
    while i < signers.len()
        invariant
            signers@ == before,
            i <= before.len(),
            kept@ == before.take(i as int).filter(|a: Address| a != signer),
            !crate::config::has_duplicates(before),
        decreases signers.len() - i,
    {
        let a = signers[i];
        proof {
            before.take(i as int).lemma_filter_push(before[i as int], |a: Address| a != signer);
            assert(before.take(i + 1) =~= before.take(i as int).push(before[i as int]));
        }
        if a != signer {
            kept.push(a);
        }
        i = i + 1;
    }
    proof {
        assert(before.take(before.len() as int) =~= before);
        lemma_filter_keeps_distinct(before, signer);
    }
    *signers = kept;
    Ok(())
}

/// Filtering a sequence without duplicates leaves none.
proof fn lemma_filter_keeps_distinct(s: Seq<Address>, x: Address)
    requires
        !crate::config::has_duplicates(s),
    ensures
        !crate::config::has_duplicates(s.filter(|a: Address| a != x)),
    decreases s.len(),
{
    let f = |a: Address| a != x;
    if s.len() > 0 {
        let init = s.drop_last();
        assert(!crate::config::has_duplicates(init)) by {
            assert forall|a: int, b: int| 0 <= a < b < init.len() implies init[a] != init[b] by {
                assert(s[a] != s[b]);
            }
        }
        lemma_filter_keeps_distinct(init, x);
        assert(s =~= init.push(s.last()));
        init.lemma_filter_push(s.last(), f);
        if f(s.last()) {
            let fi = init.filter(f);
            assert(!init.contains(s.last())) by {
                if init.contains(s.last()) {
                    let j = choose|j: int| 0 <= j < init.len() && init[j] == s.last();
                    assert(s[j] == s[s.len() - 1]);
                }
            }
            assert(!fi.contains(s.last())) by {
                if fi.contains(s.last()) {
                    init.lemma_filter_contains_rev(f, s.last());
                }
            }
            assert forall|a: int, b: int| 0 <= a < b < fi.push(s.last()).len() implies fi.push(s.last())[a]
                != fi.push(s.last())[b] by {
                if b == fi.len() {
                    assert(fi[a] != s.last());
                } else {
                    assert(!(fi[a] == fi[b]));
                }
            }
        }
    }
}

// ── Contract upgrades ────────────────────────────────────────────────────────

/// Delay between staging an upgrade and executing it: 48 hours.
pub const UPGRADE_DELAY_SECONDS: u64 = 172_800;

/// A staged contract upgrade.
#[derive(Clone, Copy, Debug, PartialEq, Eq)]
pub struct StagedUpgrade {
    pub new_wasm_hash: [u8; 32],
    pub proposer: Address,
    pub staged_at: u64,
    /// Earliest time at which the upgrade may execute.
    pub execute_at: u64,
}

/// The checks of an upgrade proposal or execution by `caller` at `now`, in
/// order: the signature must not have expired, the caller must be the
/// admin, and the nonce must be fresh (`nonce_check`, the outcome of
/// consuming it).
pub open spec fn upgrade_gate(
    data: Option<ContractData>,
    caller: Address,
    now: u64,
    sig_expires_at: u64,
    nonce_check: Result<(), ContractError>,
) -> Option<ContractError> {
    if now > sig_expires_at {
        Some(ContractError::SignatureExpired)
    } else {
        match crate::admin::action_queue::admin_error(data, caller) {
            Some(e) => Some(e),
            None => match nonce_check {
                Err(e) => Some(e),
                Ok(_) => None,
            },
        }
    }
}

fn check_upgrade_gate(
    data: Option<ContractData>,
    caller: Address,
    now: u64,
    sig_expires_at: u64,
    nonce_check: Result<(), ContractError>,
) -> (r: Result<(), ContractError>)
    ensures
        match upgrade_gate(data, caller, now, sig_expires_at, nonce_check) {
            Some(e) => r == Err::<(), ContractError>(e),
            None => r == Ok::<(), ContractError>(()),
        },
{
    if now > sig_expires_at {
        return Err(ContractError::SignatureExpired);
    }
    match crate::admin::action_queue::check_admin(data, caller) {
        Err(e) => return Err(e),
        Ok(_) => {},
    }
    match nonce_check {
        Err(e) => Err(e),
        Ok(()) => Ok(()),
    }
}

/// The checks of an upgrade proposal by `proposer` at `now`: those of
/// [`upgrade_gate`], with the proposer's address refused, once the
/// signature is known unexpired, when it was revoked (`revoked`).
pub open spec fn proposal_gate(
    revoked: bool,
    data: Option<ContractData>,
    proposer: Address,
    now: u64,
    sig_expires_at: u64,
    nonce_check: Result<(), ContractError>,
) -> Option<ContractError> {
    if now > sig_expires_at {
        Some(ContractError::SignatureExpired)
    } else if revoked {
        Some(ContractError::RevokedAddress)
    } else {
        upgrade_gate(data, proposer, now, sig_expires_at, nonce_check)
    }
}

/// Stages an upgrade to `new_wasm_hash` proposed by the admin at `now`.
/// `revoked` says whether the proposer's address was revoked,
/// `collected_weight` is the multi-sig weight of the co-signers and
/// `required_weight` the configured quorum; the upgrade may execute
/// `UPGRADE_DELAY_SECONDS` later.
pub fn propose_upgrade(
    revoked: bool,
    data: Option<ContractData>,
    new_wasm_hash: [u8; 32],
    proposer: Address,
    now: u64,
    sig_expires_at: u64,
    nonce_check: Result<(), ContractError>,
    collected_weight: u32,
    required_weight: u32,
) -> (r: Result<StagedUpgrade, ContractError>)
    requires
        proposal_gate(revoked, data, proposer, now, sig_expires_at, nonce_check) is None && collected_weight
            >= required_weight ==> now + UPGRADE_DELAY_SECONDS <= u64::MAX,
    ensures
        r == (match proposal_gate(revoked, data, proposer, now, sig_expires_at, nonce_check) {
            Some(e) => Err::<StagedUpgrade, ContractError>(e),
            None => if collected_weight < required_weight {
                Err::<StagedUpgrade, ContractError>(ContractError::ThresholdNotReached)
            } else {
                Ok::<StagedUpgrade, ContractError>(
                    StagedUpgrade {
                        new_wasm_hash,
                        proposer,
                        staged_at: now,
                        execute_at: (now + UPGRADE_DELAY_SECONDS) as u64,
                    },
                )
            },
        }),
{
    if now <= sig_expires_at {
        match crate::admin::revocation::check_not_revoked(revoked) {
            Err(e) => return Err(e),
            Ok(()) => {},
        }
    }
    match check_upgrade_gate(data, proposer, now, sig_expires_at, nonce_check) {
        Err(e) => return Err(e),
        Ok(()) => {},
    }
    if collected_weight < required_weight {
        return Err(ContractError::ThresholdNotReached);
    }
    Ok(StagedUpgrade { new_wasm_hash, proposer, staged_at: now, execute_at: now + UPGRADE_DELAY_SECONDS })
}

/// What executing the pending upgrade by `executor` at `now` gives: the
/// checks of [`upgrade_gate`], then a pending upgrade whose delay has passed;
/// on success the WASM hash to install and the new, empty, pending slot.
pub open spec fn upgrade_execution(
    data: Option<ContractData>,
    executor: Address,
    now: u64,
    sig_expires_at: u64,
    nonce_check: Result<(), ContractError>,
    pending: Option<StagedUpgrade>,
) -> Result<([u8; 32], Option<StagedUpgrade>), ContractError> {
    match upgrade_gate(data, executor, now, sig_expires_at, nonce_check) {
        Some(e) => Err(e),
        None => match pending {
            None => Err(ContractError::NoPendingUpgrade),
            Some(u) => if now < u.staged_at || now - u.staged_at < UPGRADE_DELAY_SECONDS {
                Err(ContractError::UpgradeTimelockNotSatisfied)
            } else {
                Ok((u.new_wasm_hash, None))
            },
        },
    }
}

/// Executes the staged upgrade by the admin at `now`, once its delay has
/// passed; returns the WASM hash to install and the pending slot after the
/// execution, which is empty.
pub fn execute_upgrade(
    data: Option<ContractData>,
    executor: Address,
    now: u64,
    sig_expires_at: u64,
    nonce_check: Result<(), ContractError>,
    pending: Option<StagedUpgrade>,
) -> (r: Result<([u8; 32], Option<StagedUpgrade>), ContractError>)
    ensures
        r == upgrade_execution(data, executor, now, sig_expires_at, nonce_check, pending),
{
    match check_upgrade_gate(data, executor, now, sig_expires_at, nonce_check) {
        Err(e) => return Err(e),
        Ok(()) => {},
    }
    let u = match pending {
        None => return Err(ContractError::NoPendingUpgrade),
        Some(u) => u,
    };
    if !crate::governance::verify_staged_delay_seconds(u.staged_at, now, UPGRADE_DELAY_SECONDS) {
        return Err(ContractError::UpgradeTimelockNotSatisfied);
    }
    Ok((u.new_wasm_hash, None))
}

/// An executed upgrade leaves nothing pending, so executing again from the
/// state it left fails, whoever calls and whenever.
pub proof fn lemma_executed_upgrade_runs_once(
    data: Option<ContractData>,
    executor: Address,
    now: u64,
    sig_expires_at: u64,
    nonce_check: Result<(), ContractError>,
    pending: Option<StagedUpgrade>,
    later_executor: Address,
    later: u64,
    later_sig_expires_at: u64,
    later_nonce_check: Result<(), ContractError>,
)
    requires
        upgrade_execution(data, executor, now, sig_expires_at, nonce_check, pending) is Ok,
    ensures
        ({
            let after = upgrade_execution(data, executor, now, sig_expires_at, nonce_check, pending)->Ok_0.1;
            &&& after is None
            &&& upgrade_execution(data, later_executor, later, later_sig_expires_at, later_nonce_check, after) is Err
        }),
{
}

/// A staged upgrade cannot execute before its delay has passed since it was
/// staged.
pub proof fn lemma_upgrade_waits_for_delay(
    data: Option<ContractData>,
    proposer: Address,
    executor: Address,
    new_wasm_hash: [u8; 32],
    staged_at: u64,
    now: u64,
    sig_expires_at: u64,
    nonce_check: Result<(), ContractError>,
)
    requires
        staged_at + UPGRADE_DELAY_SECONDS <= u64::MAX,
        now < staged_at + UPGRADE_DELAY_SECONDS,
    ensures
        ({
            let u = StagedUpgrade {
                new_wasm_hash,
                proposer,
                staged_at,
                execute_at: (staged_at + UPGRADE_DELAY_SECONDS) as u64,
            };
            upgrade_execution(data, executor, now, sig_expires_at, nonce_check, Some(u)) is Err
        }),
{
}

/// The delay still holding back an upgrade staged at `u.staged_at`, at
/// `now`: zero once `UPGRADE_DELAY_SECONDS` have passed.
pub open spec fn upgrade_delay_left(u: StagedUpgrade, now: u64) -> int {
    if now >= u.staged_at && now - u.staged_at >= UPGRADE_DELAY_SECONDS {
        0
    } else if now >= u.staged_at {
        UPGRADE_DELAY_SECONDS - (now - u.staged_at)
    } else {
        UPGRADE_DELAY_SECONDS as int
    }
}

/// Seconds left before the pending upgrade may execute at `now` (zero once
/// the delay has passed), or `None` when no upgrade is pending.
pub fn get_upgrade_timelock_remaining(pending: Option<StagedUpgrade>, now: u64) -> (r: Option<u64>)
    ensures
        r == (match pending {
            None => None::<u64>,
            Some(u) => Some(upgrade_delay_left(u, now) as u64),
        }),
{
    match pending {
        None => None,
        Some(u) => Some(UPGRADE_DELAY_SECONDS.saturating_sub(now.saturating_sub(u.staged_at))),
    }
}

/// The remaining delay of a pending upgrade is zero exactly when the delay
/// no longer holds back its execution by [`execute_upgrade`].
pub proof fn lemma_remaining_zero_iff_executable(u: StagedUpgrade, now: u64)
    ensures
        (upgrade_delay_left(u, now) == 0) == !(now < u.staged_at || now - u.staged_at < UPGRADE_DELAY_SECONDS),
{
}

/// Cancels the pending upgrade as the admin: the pending slot becomes empty.
pub fn cancel_upgrade(data: Option<ContractData>, canceller: Address) -> (r: Result<
    Option<StagedUpgrade>,
    ContractError,
>)
    ensures
        r == (match crate::admin::action_queue::admin_error(data, canceller) {
            Some(e) => Err::<Option<StagedUpgrade>, ContractError>(e),
            None => Ok::<Option<StagedUpgrade>, ContractError>(None),
        }),
{
    match crate::admin::action_queue::check_admin(data, canceller) {
        Err(e) => Err(e),
        Ok(_) => Ok(None),
    }
}

/// Once the admin cancels the pending upgrade, no execution installs
/// anything: whoever calls, whenever, execution fails.
pub proof fn lemma_cancelled_upgrade_never_executes(
    data: Option<ContractData>,
    canceller: Address,
    executor: Address,
    now: u64,
    sig_expires_at: u64,
    nonce_check: Result<(), ContractError>,
)
    requires
        crate::admin::action_queue::admin_error(data, canceller) is None,
    ensures
        ({
            let cancelled: Option<StagedUpgrade> = None;
            upgrade_execution(data, executor, now, sig_expires_at, nonce_check, cancelled) is Err
        }),
{
}

/// Sets the contract value as the admin, under the same signature-expiry
/// and nonce checks as an upgrade.
pub fn set_value(
    data: Option<ContractData>,
    new_value: u64,
    caller: Address,
    now: u64,
    sig_expires_at: u64,
    nonce_check: Result<(), ContractError>,
) -> (r: Result<ContractData, ContractError>)
    ensures
        r == (match upgrade_gate(data, caller, now, sig_expires_at, nonce_check) {
            Some(e) => Err::<ContractData, ContractError>(e),
            None => Ok::<ContractData, ContractError>(ContractData { value: new_value, ..data->0 }),
        }),
{
    match check_upgrade_gate(data, caller, now, sig_expires_at, nonce_check) {
        Err(e) => return Err(e),
        Ok(()) => {},
    }
    let mut d = match data {
        Some(d) => d,
        None => return Err(ContractError::NotInitialized),
    };
    d.value = new_value;
    Ok(d)
}

// ── Heartbeats ───────────────────────────────────────────────────────────────

/// Storage key of an asset's heartbeat.
#[derive(Clone, Copy, Debug, PartialEq, Eq, Structural)]
pub struct HeartbeatKey(pub AssetId);

/// Storage key of an asset's feed metrics.
#[derive(Clone, Copy, Debug, PartialEq, Eq, Structural)]
pub struct AssetMetricsKey(pub AssetId);

/// Sets the heartbeat interval as the admin; zero is refused.
pub fn set_heartbeat_interval(data: Option<ContractData>, interval: u64, admin: Address) -> (r: Result<
    u64,
    ContractError,
>)
    ensures
        r == (if interval == 0 {
            Err::<u64, ContractError>(ContractError::InvalidHeartbeatInterval)
        } else {
            match data {
                None => Err::<u64, ContractError>(ContractError::NotInitialized),
                Some(d) => if d.admin != admin {
                    Err::<u64, ContractError>(ContractError::NotAdmin)
                } else {
                    Ok::<u64, ContractError>(interval)
                },
            }
        }),
{
    if interval == 0 {
        return Err(ContractError::InvalidHeartbeatInterval);
    }
    match data {
        None => Err(ContractError::NotInitialized),
        Some(d) => if d.admin != admin {
            Err(ContractError::NotAdmin)
        } else {
            Ok(interval)
        },
    }
}

/// Whether an asset's data is fresh at `now`: it had a heartbeat no more
/// than `interval` seconds ago.
pub fn is_data_fresh(last_update: Option<u64>, now: u64, interval: u64) -> (r: bool)
    ensures
        r == (last_update matches Some(t) && (if now >= t { now - t } else { 0 }) <= interval),
{
    match last_update {
        Some(t) => now.saturating_sub(t) <= interval,
        None => false,
    }
}

/// Records a heartbeat as the admin: returns the timestamp to store for the
/// asset.
pub fn update_heartbeat(data: Option<ContractData>, updater: Address, now: u64) -> (r: Result<u64, ContractError>)
    ensures
        r == (match crate::admin::action_queue::admin_error(data, updater) {
            Some(e) => Err::<u64, ContractError>(e),
            None => Ok::<u64, ContractError>(now),
        }),
{
    match crate::admin::action_queue::check_admin(data, updater) {
        Err(e) => Err(e),
        Ok(_) => Ok(now),
    }
}

// ── Node profiles ────────────────────────────────────────────────────────────

/// A relayer node's latest published rate and its confidence.
#[derive(Clone, Copy, Debug, PartialEq, Eq, Structural)]
pub struct NodeProfile {
    pub node: Address,
    pub rate: u64,
    pub confidence: u32,
    pub updated_at: u64,
}

/// The profile the admin records for `node` at `now`.
pub fn upsert_node_profile(data: Option<ContractData>, admin: Address, node: Address, rate: u64, confidence: u32, now: u64)
    -> (r: Result<NodeProfile, ContractError>)
    ensures
        r == (match crate::admin::action_queue::admin_error(data, admin) {
            Some(e) => Err::<NodeProfile, ContractError>(e),
            None => Ok::<NodeProfile, ContractError>(NodeProfile { node, rate, confidence, updated_at: now }),
        }),
{
    match crate::admin::action_queue::check_admin(data, admin) {
        Err(e) => Err(e),
        Ok(_) => Ok(NodeProfile { node, rate, confidence, updated_at: now }),
    }
}

/// A node's latest rate: it must have a profile with non-zero confidence.
pub fn get_latest_rate(profile: Option<NodeProfile>) -> (r: Result<u64, ContractError>)
    ensures
        r == (match profile {
            Some(p) => if p.confidence == 0 {
                Err::<u64, ContractError>(ContractError::NotRegistered)
            } else {
                Ok::<u64, ContractError>(p.rate)
            },
            None => Err::<u64, ContractError>(ContractError::NotRegistered),
        }),
{
    match profile {
        Some(p) => if p.confidence == 0 {
            Err(ContractError::NotRegistered)
        } else {
            Ok(p.rate)
        },
        None => Err(ContractError::NotRegistered),
    }
}

// ── Feed metrics ─────────────────────────────────────────────────────────────

/// The volume and volatility profile of a currency feed.
#[derive(Clone, Copy, Debug, PartialEq, Eq, Structural)]
pub struct AssetFeedMetrics {
    /// Volume score, capped at 100.
    pub volume_score: u32,
    pub volatility_bps: u32,
}

/// The feed metrics the admin records: the volume score floor is capped at
/// 100.
pub fn set_asset_feed_metrics(data: Option<ContractData>, admin: Address, volume_score_floor: u32, volatility_bps: u32)
    -> (r: Result<AssetFeedMetrics, ContractError>)
    ensures
        r == (match crate::admin::action_queue::admin_error(data, admin) {
            Some(e) => Err::<AssetFeedMetrics, ContractError>(e),
            None => Ok::<AssetFeedMetrics, ContractError>(AssetFeedMetrics {
                volume_score: if volume_score_floor < 100 { volume_score_floor } else { 100 },
                volatility_bps,
            }),
        }),
{
    match crate::admin::action_queue::check_admin(data, admin) {
        Err(e) => Err(e),
        Ok(_) => Ok(AssetFeedMetrics {
            volume_score: if volume_score_floor < 100 { volume_score_floor } else { 100 },
            volatility_bps,
        }),
    }
}

// ── Emergency admin revocation ───────────────────────────────────────────────

/// A proposal to replace the admin.
#[derive(Clone, Debug)]
pub struct RevocationProposal {
    pub target: Address,
    pub replacement: Address,
    pub proposer: Address,
    pub proposed_at: u64,
    /// Distinct voters so far.
    pub votes: Vec<Address>,
}

/// Votes needed to replace the admin with `signer_count` signers: one with
/// none, otherwise a simple majority.
pub fn revocation_threshold(signer_count: u32) -> (r: u32)
    ensures
        r == (if signer_count == 0 { 1 } else { signer_count / 2 + 1 }),
{
    if signer_count == 0 {
        1
    } else {
        signer_count / 2 + 1
    }
}

/// What a revocation vote leads to.
#[derive(Clone, Debug)]
pub enum RevocationOutcome {
    /// The quorum was reached: the contract record with the new admin; the
    /// proposal is closed.
    AdminReplaced(ContractData),
    /// The proposal with the vote recorded.
    Pending(RevocationProposal),
}

/// Records `voter`'s vote on the admin revocation proposal before the
/// voter's signature expires. `revoked` says whether the voter's address
/// was revoked, `is_signer` whether the voter is a registered signer and
/// `signer_count` how many there are.
#[verifier::loop_isolation(false)]
pub fn vote_revocation(
    revoked: bool,
    data: Option<ContractData>,
    proposal: Option<RevocationProposal>,
    voter: Address,
    is_signer: bool,
    signer_count: u32,
    sig_expires_at: u64,
    now: u64,
) -> (r: Result<RevocationOutcome, ContractError>)
    requires
        proposal matches Some(p) ==> !crate::config::has_duplicates(p.votes@) && p.votes@.len() < u32::MAX,
    ensures
        now > sig_expires_at ==> (r matches Err(e) && e == ContractError::SignatureExpired),
        now <= sig_expires_at && revoked ==> (r matches Err(e) && e == ContractError::RevokedAddress),
        now <= sig_expires_at && !revoked && data is None ==> (r matches Err(e) && e == ContractError::NotInitialized),
        now <= sig_expires_at && !revoked ==> (data matches Some(d) ==> (!is_signer && d.admin != voter ==> (r matches Err(e)
            && e == ContractError::Unauthorized))),
        now <= sig_expires_at && !revoked ==> (data matches Some(d) ==> ((is_signer || d.admin == voter) ==> (proposal is None
            ==> (r matches Err(e) && e == ContractError::NoActiveProposal)))),
        now <= sig_expires_at && !revoked ==> (data matches Some(d) ==> ((is_signer || d.admin == voter) ==> (proposal matches Some(
            p,
        ) ==> (p.votes@.contains(voter) ==> (r matches Err(e) && e == ContractError::AlreadyVoted))))),
        now <= sig_expires_at && !revoked ==> (data matches Some(d) ==> ((is_signer || d.admin == voter) ==> (proposal matches Some(
            p,
        ) ==> (!p.votes@.contains(voter) ==> (if p.votes@.len() + 1 >= (if signer_count == 0 {
            1
        } else {
            signer_count / 2 + 1
        }) {
            r matches Ok(RevocationOutcome::AdminReplaced(nd)) && nd == ContractData { admin: p.replacement, ..d }
        } else {
            r matches Ok(RevocationOutcome::Pending(q)) && q.votes@ == p.votes@.push(voter) && q.target == p.target
                && q.replacement == p.replacement && q.proposer == p.proposer && q.proposed_at == p.proposed_at
                && !crate::config::has_duplicates(q.votes@)
        }))))),
{
    if now > sig_expires_at {
        return Err(ContractError::SignatureExpired);
    }
    match crate::admin::revocation::check_not_revoked(revoked) {
        Err(e) => return Err(e),
        Ok(()) => {},
    }
    let d = match data {
        None => return Err(ContractError::NotInitialized),
        Some(d) => d,
    };
    if !is_signer && d.admin != voter {
        return Err(ContractError::Unauthorized);
    }
    let mut p = match proposal {
        None => return Err(ContractError::NoActiveProposal),
        Some(p) => p,
    };
    let mut i: usize = 0;
    while i < p.votes.len()
        invariant
            i <= p.votes@.len(),
            forall|k: int| 0 <= k < i ==> p.votes@[k] != voter,
        decreases p.votes.len() - i,
    {
        if p.votes[i] == voter {
            return Err(ContractError::AlreadyVoted);
        }
        i = i + 1;
    }
    let ghost before = p.votes@;
    p.votes.push(voter);
    proof {
        assert forall|a: int, b: int| 0 <= a < b < p.votes@.len() implies p.votes@[a] != p.votes@[b] by {
            if b == before.len() {
                assert(before[a] != voter);
            } else {
                assert(!(before[a] == before[b]));
            }
        }
    }
    let threshold = revocation_threshold(signer_count);
    if p.votes.len() >= threshold as usize {
        Ok(RevocationOutcome::AdminReplaced(ContractData { admin: p.replacement, ..d }))
    } else {
        Ok(RevocationOutcome::Pending(p))
    }
}

// ── Governance proposal bookkeeping ──────────────────────────────────────────

/// Status of a tracked governance proposal.
#[derive(Clone, Copy, Debug, PartialEq, Eq, Structural)]
pub enum ProposalStatus {
    Active,
    Approved,
    Expired,
}

/// A tracked governance proposal.
#[derive(Clone, Copy, Debug, PartialEq, Eq, Structural)]
pub struct ProposalState {
    pub proposed_at: u64,
    pub status: ProposalStatus,
}

/// A tracked proposal marked expired (status only).
pub fn mark_proposal_expired(state: ProposalState) -> (r: ProposalState)
    ensures
        r == (ProposalState { status: ProposalStatus::Expired, ..state }),
{
    ProposalState { status: ProposalStatus::Expired, ..state }
}

/// Whether a tracked proposal is still active after its 7-day lifetime.
pub open spec fn proposal_stale(state: ProposalState, now: u64) -> bool {
    state.status == ProposalStatus::Active && now >= state.proposed_at && now - state.proposed_at
        >= PROPOSAL_TTL_SECONDS
}

/// A tracked proposal after a cleanup at `now`.
pub open spec fn after_cleanup(state: ProposalState, now: u64) -> ProposalState {
    if proposal_stale(state, now) {
        ProposalState { status: ProposalStatus::Expired, ..state }
    } else {
        state
    }
}

/// The topics, in order, of the stale proposals among `states`.
pub open spec fn stale_topics(states: Seq<(u64, ProposalState)>, now: u64) -> Seq<u64>
    decreases states.len(),
{
    if states.len() == 0 {
        Seq::empty()
    } else {
        let prefix = stale_topics(states.drop_last(), now);
        if proposal_stale(states.last().1, now) {
            prefix.push(states.last().0)
        } else {
            prefix
        }
    }
}

/// Expires every tracked proposal (keyed by topic) that stayed active for
/// its whole 7-day lifetime without approval, and returns their topics in
/// order, so that the state each one holds can be released.
pub fn cleanup_expired_proposals(states: &mut Vec<(u64, ProposalState)>, now: u64) -> (expired: Vec<u64>)
    ensures
        final(states)@.len() == old(states)@.len(),
        forall|i: int| 0 <= i < old(states)@.len() ==> #[trigger] final(states)@[i] == (
            old(states)@[i].0,
            after_cleanup(old(states)@[i].1, now),
        ),
        expired@ == stale_topics(old(states)@, now),
{
    let ghost before = states@;
    let mut expired: Vec<u64> = Vec::new();
    let mut i: usize = 0;
    while i < states.len()
        invariant
            i <= states@.len(),
            states@.len() == before.len(),
            forall|k: int| 0 <= k < i ==> #[trigger] states@[k] == (before[k].0, after_cleanup(before[k].1, now)),
            forall|k: int| i <= k < states@.len() ==> #[trigger] states@[k] == before[k],
            expired@ == stale_topics(before.take(i as int), now),
        decreases states@.len() - i,
    {
        let (topic, state) = states[i];
        proof {
            assert(before.take(i as int + 1).drop_last() =~= before.take(i as int));
        }
        if state.status == ProposalStatus::Active && now.saturating_sub(state.proposed_at) >= PROPOSAL_TTL_SECONDS {
            states.set(i, (topic, mark_proposal_expired(state)));
            expired.push(topic);
        }
        i = i + 1;
    }
    proof {
        assert(before.take(before.len() as int) =~= before);
    }
    expired
}

// ── Cross-border fiat settlement escrow ──────────────────────────────────────

/// Lifecycle of a fiat settlement escrow.
#[derive(Clone, Copy, Debug, PartialEq, Eq, Structural)]
pub enum FiatSettlementState {
    Pending,
    Locked,
    Dispatched,
    Settled,
    Refunded,
}

/// A cross-border fiat settlement escrow.
#[derive(Clone, Copy, Debug, PartialEq, Eq, Structural)]
pub struct FiatEscrow {
    pub id: u64,
    pub sender: Address,
    pub anchor: Address,
    pub amount: u64,
    pub asset: AssetId,
    pub state: FiatSettlementState,
    pub created_at: u64,
    /// When the funds were locked (zero while never locked).
    pub locked_at: u64,
    pub timeout_secs: u64,
}

/// Storage keys of the fiat escrows.
#[derive(Clone, Copy, Debug, PartialEq, Eq, Structural)]
pub enum FiatEscrowKey {
    Escrow(u64),
    Counter,
}

/// Whether a locked escrow's anchor-claim window has elapsed at `now`;
/// never for an escrow that was never locked.
pub open spec fn fiat_escrow_expired(escrow: FiatEscrow, now: u64) -> bool {
    escrow.locked_at != 0 && (if now >= escrow.locked_at { now - escrow.locked_at } else { 0 })
        >= escrow.timeout_secs
}

fn fiat_expired(escrow: &FiatEscrow, now: u64) -> (r: bool)
    ensures
        r == fiat_escrow_expired(*escrow, now),
{
    if escrow.locked_at == 0 {
        return false;
    }
    now.saturating_sub(escrow.locked_at) >= escrow.timeout_secs
}

/// The outcome of the anchor settling an escrow at `now`.
pub open spec fn settle_outcome(escrow: Option<FiatEscrow>, anchor: Address, now: u64) -> Result<FiatEscrow, ContractError> {
    match escrow {
        None => Err::<FiatEscrow, ContractError>(ContractError::NotRegistered),
        Some(e) => if e.anchor != anchor || !(e.state == FiatSettlementState::Locked || e.state
            == FiatSettlementState::Dispatched) {
            Err::<FiatEscrow, ContractError>(ContractError::Unauthorized)
        } else if fiat_escrow_expired(e, now) {
            Err::<FiatEscrow, ContractError>(ContractError::DeadlineReached)
        } else {
            Ok::<FiatEscrow, ContractError>(FiatEscrow { state: FiatSettlementState::Settled, ..e })
        },
    }
}

/// The outcome of refunding an escrow at `now`.
pub open spec fn refund_outcome(escrow: Option<FiatEscrow>, now: u64) -> Result<FiatEscrow, ContractError> {
    match escrow {
        None => Err::<FiatEscrow, ContractError>(ContractError::NotRegistered),
        Some(e) => if !(e.state == FiatSettlementState::Locked || e.state == FiatSettlementState::Dispatched) {
            Err::<FiatEscrow, ContractError>(ContractError::Unauthorized)
        } else if !fiat_escrow_expired(e, now) {
            Err::<FiatEscrow, ContractError>(ContractError::DeadlineNotReached)
        } else {
            Ok::<FiatEscrow, ContractError>(FiatEscrow { state: FiatSettlementState::Refunded, ..e })
        },
    }
}

/// Opens a pending escrow of `amount`; `counter` is the next identifier.
/// Returns the escrow and the next counter.
pub fn open_fiat_escrow(counter: u64, sender: Address, anchor: Address, asset: AssetId, amount: u64, now: u64) -> (r:
    Result<(FiatEscrow, u64), ContractError>)
    ensures
        r == (if amount == 0 {
            Err::<(FiatEscrow, u64), ContractError>(ContractError::AmountTooLow)
        } else if counter == u64::MAX {
            Err::<(FiatEscrow, u64), ContractError>(ContractError::Overflow)
        } else {
            Ok::<(FiatEscrow, u64), ContractError>(
                (
                    FiatEscrow {
                        id: counter,
                        sender,
                        anchor,
                        amount,
                        asset,
                        state: FiatSettlementState::Pending,
                        created_at: now,
                        locked_at: 0,
                        timeout_secs: FIAT_PAYOUT_TIMEOUT_SECS,
                    },
                    (counter + 1) as u64,
                ),
            )
        }),
{
    if amount == 0 {
        return Err(ContractError::AmountTooLow);
    }
    let next = match counter.checked_add(1) {
        Some(n) => n,
        None => return Err(ContractError::Overflow),
    };
    let escrow = FiatEscrow {
        id: counter,
        sender,
        anchor,
        amount,
        asset,
        state: FiatSettlementState::Pending,
        created_at: now,
        locked_at: 0,
        timeout_secs: FIAT_PAYOUT_TIMEOUT_SECS,
    };
    Ok((escrow, next))
}

/// The sender locks a pending escrow at `now`, starting the claim window.
pub fn lock_fiat_escrow(escrow: Option<FiatEscrow>, sender: Address, now: u64) -> (r: Result<FiatEscrow, ContractError>)
    ensures
        r == (match escrow {
            None => Err::<FiatEscrow, ContractError>(ContractError::NotRegistered),
            Some(e) => if e.sender != sender || e.state != FiatSettlementState::Pending {
                Err::<FiatEscrow, ContractError>(ContractError::Unauthorized)
            } else {
                Ok::<FiatEscrow, ContractError>(
                    FiatEscrow { state: FiatSettlementState::Locked, locked_at: now, ..e },
                )
            },
        }),
{
    let mut e = match escrow {
        None => return Err(ContractError::NotRegistered),
        Some(e) => e,
    };
    if e.sender != sender {
        return Err(ContractError::Unauthorized);
    }
    if e.state != FiatSettlementState::Pending {
        return Err(ContractError::Unauthorized);
    }
    e.state = FiatSettlementState::Locked;
    e.locked_at = now;
    Ok(e)
}

/// The anchor marks a locked escrow's payout dispatched, within the window.
pub fn dispatch_fiat_payout(escrow: Option<FiatEscrow>, anchor: Address, now: u64) -> (r: Result<
    FiatEscrow,
    ContractError,
>)
    ensures
        r == (match escrow {
            None => Err::<FiatEscrow, ContractError>(ContractError::NotRegistered),
            Some(e) => if e.anchor != anchor || e.state != FiatSettlementState::Locked {
                Err::<FiatEscrow, ContractError>(ContractError::Unauthorized)
            } else if fiat_escrow_expired(e, now) {
                Err::<FiatEscrow, ContractError>(ContractError::DeadlineReached)
            } else {
                Ok::<FiatEscrow, ContractError>(FiatEscrow { state: FiatSettlementState::Dispatched, ..e })
            },
        }),
{
    let mut e = match escrow {
        None => return Err(ContractError::NotRegistered),
        Some(e) => e,
    };
    if e.anchor != anchor {
        return Err(ContractError::Unauthorized);
    }
    if e.state != FiatSettlementState::Locked {
        return Err(ContractError::Unauthorized);
    }
    if fiat_expired(&e, now) {
        return Err(ContractError::DeadlineReached);
    }
    e.state = FiatSettlementState::Dispatched;
    Ok(e)
}

/// The anchor settles a locked or dispatched escrow, within the window.
pub fn settle_fiat_escrow(escrow: Option<FiatEscrow>, anchor: Address, now: u64) -> (r: Result<
    FiatEscrow,
    ContractError,
>)
    ensures
        r == settle_outcome(escrow, anchor, now),
{
    let mut e = match escrow {
        None => return Err(ContractError::NotRegistered),
        Some(e) => e,
    };
    if e.anchor != anchor {
        return Err(ContractError::Unauthorized);
    }
    match e.state {
        FiatSettlementState::Locked | FiatSettlementState::Dispatched => {},
        _ => return Err(ContractError::Unauthorized),
    }
    if fiat_expired(&e, now) {
        return Err(ContractError::DeadlineReached);
    }
    e.state = FiatSettlementState::Settled;
    Ok(e)
}

/// Refunds a locked or dispatched escrow once its claim window elapsed.
pub fn refund_fiat_escrow(escrow: Option<FiatEscrow>, now: u64) -> (r: Result<FiatEscrow, ContractError>)
    ensures
        r == refund_outcome(escrow, now),
{
    let mut e = match escrow {
        None => return Err(ContractError::NotRegistered),
        Some(e) => e,
    };
    match e.state {
        FiatSettlementState::Locked | FiatSettlementState::Dispatched => {},
        _ => return Err(ContractError::Unauthorized),
    }
    if !fiat_expired(&e, now) {
        return Err(ContractError::DeadlineNotReached);
    }
    e.state = FiatSettlementState::Refunded;
    Ok(e)
}

/// At any instant an escrow can be settled or refunded, never both:
/// settlement needs the claim window open, a refund needs it elapsed.
pub proof fn lemma_settle_and_refund_exclusive(escrow: Option<FiatEscrow>, anchor: Address, now: u64)
    ensures
        !(settle_outcome(escrow, anchor, now) is Ok && refund_outcome(escrow, now) is Ok),
{
}

// ── Pool fee tier controller ─────────────────────────────────────────────────

/// Safety bounds and split of the liquidity pool fee tiers.
#[derive(Clone, Copy, Debug, PartialEq, Eq, Structural)]
pub struct FeeTierController {
    pub active_tier_bps: u32,
    pub min_tier_bps: u32,
    pub max_tier_bps: u32,
    pub lp_share_bps: u32,
    pub treasury_share_bps: u32,
}

impl FeeTierController {
    /// The split of collected fees between LP holders and the treasury
    /// covers the whole fee, as in every controller the contract creates.
    pub open spec fn wf(&self) -> bool {
        self.lp_share_bps + self.treasury_share_bps == 10000
    }
}

/// A pool's active fee tier.
#[derive(Clone, Copy, Debug, PartialEq, Eq, Structural)]
pub struct PoolFeeConfig {
    pub active_tier_bps: u32,
}

/// A pool's accumulated split fees.
#[derive(Clone, Copy, Debug, PartialEq, Eq, Structural)]
pub struct PoolFeeState {
    pub asset: AssetId,
    pub collected_lp_fees: u64,
    pub collected_treasury_fees: u64,
    pub last_updated: u64,
}

/// A pending pool fee tier change.
#[derive(Clone, Debug)]
pub struct PoolFeeTierProposal {
    pub asset: AssetId,
    pub new_tier_bps: u32,
    pub proposer: Address,
    pub votes: Vec<Address>,
    pub created_at: u64,
}

/// Storage keys of the pool fee subsystem.
#[derive(Clone, Copy, Debug, PartialEq, Eq, Structural)]
pub enum LiquidityPoolFeeKey {
    Controller,
    PoolConfig(AssetId),
    PoolState(AssetId),
    FeeTierProposal(AssetId),
}

/// Whether `bps` is one of the pool fee tiers (5, 30 or 100 bps).
pub open spec fn is_pool_fee_tier(bps: u32) -> bool {
    bps == FEE_TIER_005_BPS || bps == FEE_TIER_030_BPS || bps == FEE_TIER_100_BPS
}

/// The controller in effect before one is initialized.
pub open spec fn default_controller() -> FeeTierController {
    FeeTierController {
        active_tier_bps: DEFAULT_FEE_TIER_BPS,
        min_tier_bps: FEE_TIER_005_BPS,
        max_tier_bps: FEE_TIER_100_BPS,
        lp_share_bps: LP_SHARE_BPS,
        treasury_share_bps: TREASURY_SHARE_BPS,
    }
}

/// The controller in effect before one is initialized.
pub fn get_default_fee_tier_controller() -> (r: FeeTierController)
    ensures
        r == default_controller(),
{
    FeeTierController {
        active_tier_bps: DEFAULT_FEE_TIER_BPS,
        min_tier_bps: FEE_TIER_005_BPS,
        max_tier_bps: FEE_TIER_100_BPS,
        lp_share_bps: LP_SHARE_BPS,
        treasury_share_bps: TREASURY_SHARE_BPS,
    }
}

/// Initializes the controller with `default_tier_bps` as the admin;
/// `exists` says whether one is initialized. Every supported currency pool
/// then starts at that tier.
pub fn initialize_fee_tier_controller(
    data: Option<ContractData>,
    admin: Address,
    default_tier_bps: u32,
    exists: bool,
) -> (r: Result<FeeTierController, ContractError>)
    ensures
        r == (match data {
            None => Err::<FeeTierController, ContractError>(ContractError::NotInitialized),
            Some(d) => if d.admin != admin {
                Err::<FeeTierController, ContractError>(ContractError::NotAdmin)
            } else if !is_pool_fee_tier(default_tier_bps) {
                Err::<FeeTierController, ContractError>(ContractError::InvalidTierConfig)
            } else if exists {
                Err::<FeeTierController, ContractError>(ContractError::AlreadyInitialized)
            } else {
                Ok::<FeeTierController, ContractError>(
                    FeeTierController { active_tier_bps: default_tier_bps, ..default_controller() },
                )
            },
        }),
{
    let d = match data {
        None => return Err(ContractError::NotInitialized),
        Some(d) => d,
    };
    if d.admin != admin {
        return Err(ContractError::NotAdmin);
    }
    if default_tier_bps != FEE_TIER_005_BPS && default_tier_bps != FEE_TIER_030_BPS
        && default_tier_bps != FEE_TIER_100_BPS {
        return Err(ContractError::InvalidTierConfig);
    }
    if exists {
        return Err(ContractError::AlreadyInitialized);
    }
    Ok(FeeTierController {
        active_tier_bps: default_tier_bps,
        min_tier_bps: FEE_TIER_005_BPS,
        max_tier_bps: FEE_TIER_100_BPS,
        lp_share_bps: LP_SHARE_BPS,
        treasury_share_bps: TREASURY_SHARE_BPS,
    })
}

/// The supported currency pools.
pub fn supported_pools() -> (r: Vec<AssetId>)
    ensures
        r@ == seq![ID_NGN, ID_GHS, ID_CFA, ID_KES, ID_ZAR, ID_UGX],
{
    vec![ID_NGN, ID_GHS, ID_CFA, ID_KES, ID_ZAR, ID_UGX]
}

/// Opens a vote on changing `asset`'s pool tier to `new_tier_bps`, as the
/// admin; `pending` says whether one is open for the asset.
pub fn propose_pool_fee_tier_change(
    data: Option<ContractData>,
    controller: FeeTierController,
    proposer: Address,
    asset: AssetId,
    new_tier_bps: u32,
    pending: bool,
    now: u64,
) -> (r: Result<PoolFeeTierProposal, ContractError>)
    ensures
        data is None ==> (r matches Err(e) && e == ContractError::NotInitialized),
        data matches Some(d) ==> (d.admin != proposer ==> (r matches Err(e) && e == ContractError::NotAdmin)),
        data matches Some(d) ==> (d.admin == proposer ==> (if new_tier_bps < controller.min_tier_bps || new_tier_bps
            > controller.max_tier_bps {
            r matches Err(e) && e == ContractError::FeeCeilingExceeded
        } else if !is_pool_fee_tier(new_tier_bps) {
            r matches Err(e) && e == ContractError::InvalidTierConfig
        } else if pending {
            r matches Err(e) && e == ContractError::ProposalAlreadyActive
        } else {
            r matches Ok(p) && p.asset == asset && p.new_tier_bps == new_tier_bps && p.proposer == proposer
                && p.votes@.len() == 0 && p.created_at == now
        })),
{
    let d = match data {
        None => return Err(ContractError::NotInitialized),
        Some(d) => d,
    };
    if d.admin != proposer {
        return Err(ContractError::NotAdmin);
    }
    if new_tier_bps < controller.min_tier_bps || new_tier_bps > controller.max_tier_bps {
        return Err(ContractError::FeeCeilingExceeded);
    }
    if new_tier_bps != FEE_TIER_005_BPS && new_tier_bps != FEE_TIER_030_BPS && new_tier_bps != FEE_TIER_100_BPS {
        return Err(ContractError::InvalidTierConfig);
    }
    if pending {
        return Err(ContractError::ProposalAlreadyActive);
    }
    Ok(PoolFeeTierProposal { asset, new_tier_bps, proposer, votes: Vec::new(), created_at: now })
}

/// What a pool fee tier vote leads to.
#[derive(Clone, Debug)]
pub enum FeeTierVoteOutcome {
    /// The quorum was reached: the pool's new config and the controller with
    /// the new active tier; the proposal is closed.
    Applied(PoolFeeConfig, FeeTierController),
    /// The proposal with the vote recorded.
    Pending(PoolFeeTierProposal),
}

/// Records `voter`'s vote on a pending pool fee tier change. `is_signer`
/// says whether the voter is a registered signer and `signer_count` how
/// many there are; `controller` is the controller in effect.
#[verifier::loop_isolation(false)]
pub fn vote_pool_fee_tier_change(
    data: Option<ContractData>,
    proposal: Option<PoolFeeTierProposal>,
    controller: FeeTierController,
    voter: Address,
    is_signer: bool,
    signer_count: u32,
) -> (r: Result<FeeTierVoteOutcome, ContractError>)
    requires
        proposal matches Some(p) ==> p.votes@.len() < u32::MAX,
    ensures
        data is None ==> (r matches Err(e) && e == ContractError::NotInitialized),
        data matches Some(d) ==> (!is_signer && d.admin != voter ==> (r matches Err(e) && e
            == ContractError::Unauthorized)),
        data matches Some(d) ==> ((is_signer || d.admin == voter) && proposal is None ==> (r matches Err(e) && e
            == ContractError::NoActiveProposal)),
        data matches Some(d) ==> ((is_signer || d.admin == voter) ==> (proposal matches Some(p) ==> (if p.votes@.contains(
            voter,
        ) {
            r matches Err(e) && e == ContractError::AlreadyVoted
        } else if p.votes@.len() + 1 >= (if signer_count == 0 { 1 } else { signer_count / 2 + 1 }) {
            r matches Ok(FeeTierVoteOutcome::Applied(cfg, ctl)) && cfg.active_tier_bps == p.new_tier_bps && ctl
                == FeeTierController { active_tier_bps: p.new_tier_bps, ..controller }
        } else {
            r matches Ok(FeeTierVoteOutcome::Pending(q)) && q.votes@ == p.votes@.push(voter) && q.asset == p.asset
                && q.new_tier_bps == p.new_tier_bps && q.proposer == p.proposer && q.created_at == p.created_at
        }))),
{
    let d = match data {
        None => return Err(ContractError::NotInitialized),
        Some(d) => d,
    };
    if !is_signer && d.admin != voter {
        return Err(ContractError::Unauthorized);
    }
    let mut p = match proposal {
        None => return Err(ContractError::NoActiveProposal),
        Some(p) => p,
    };
    let mut i: usize = 0;
    while i < p.votes.len()
        invariant
            i <= p.votes@.len(),
            forall|k: int| 0 <= k < i ==> p.votes@[k] != voter,
        decreases p.votes.len() - i,
    {
        if p.votes[i] == voter {
            return Err(ContractError::AlreadyVoted);
        }
        i = i + 1;
    }
    p.votes.push(voter);
    let threshold = revocation_threshold(signer_count);
    if p.votes.len() >= threshold as usize {
        let cfg = PoolFeeConfig { active_tier_bps: p.new_tier_bps };
        let ctl = FeeTierController { active_tier_bps: p.new_tier_bps, ..controller };
        Ok(FeeTierVoteOutcome::Applied(cfg, ctl))
    } else {
        Ok(FeeTierVoteOutcome::Pending(p))
    }
}

/// Records a collected pool swap fee as the admin, split by the controller:
/// the LP share rounded down, the treasury the rest. `state` is the pool's
/// accumulated fees (`None` before the first one).
pub fn record_pool_swap_fee(
    data: Option<ContractData>,
    caller: Address,
    controller: FeeTierController,
    state: Option<PoolFeeState>,
    asset: AssetId,
    collected_fee: u64,
    now: u64,
) -> (r: Result<PoolFeeState, ContractError>)
    requires
        controller.wf(),
    ensures
        data is None ==> (r matches Err(e) && e == ContractError::NotInitialized),
        data matches Some(d) ==> (d.admin != caller ==> (r matches Err(e) && e == ContractError::NotAdmin)),
        data matches Some(d) ==> (d.admin == caller ==> {
            let lp = collected_fee * controller.lp_share_bps / 10000;
            let treasury = collected_fee - lp;
            let base = match state {
                Some(s) => s,
                None => PoolFeeState { asset, collected_lp_fees: 0, collected_treasury_fees: 0, last_updated: now },
            };
            if base.collected_lp_fees + lp > u64::MAX || base.collected_treasury_fees + treasury > u64::MAX {
                r matches Err(e) && e == ContractError::Overflow
            } else {
                r matches Ok(s) && s.collected_lp_fees == base.collected_lp_fees + lp && s.collected_treasury_fees
                    == base.collected_treasury_fees + treasury && s.asset == base.asset && s.last_updated == now
            }
        }),
        r matches Ok(s) ==> s.collected_lp_fees + s.collected_treasury_fees == collected_fee + (match state {
            Some(b) => b.collected_lp_fees + b.collected_treasury_fees,
            None => 0,
        }),
{
    let d = match data {
        None => return Err(ContractError::NotInitialized),
        Some(d) => d,
    };
    if d.admin != caller {
        return Err(ContractError::NotAdmin);
    }
    assert((collected_fee as u128) * (controller.lp_share_bps as u128) <= 0xFFFF_FFFF_FFFF_FFFF * 10000)
        by (nonlinear_arith)
        requires
            controller.lp_share_bps <= 10000,
    ;
    assert((collected_fee as u128) * (controller.lp_share_bps as u128) / 10000 <= collected_fee) by (nonlinear_arith)
        requires
            controller.lp_share_bps <= 10000,
    ;
    let lp_amount = ((collected_fee as u128) * (controller.lp_share_bps as u128) / 10000) as u64;
    let treasury_amount = collected_fee.saturating_sub(lp_amount);
    let mut s = match state {
        Some(s) => s,
        None => PoolFeeState { asset, collected_lp_fees: 0, collected_treasury_fees: 0, last_updated: now },
    };
    s.collected_lp_fees = match s.collected_lp_fees.checked_add(lp_amount) {
        Some(v) => v,
        None => return Err(ContractError::Overflow),
    };
    s.collected_treasury_fees = match s.collected_treasury_fees.checked_add(treasury_amount) {
        Some(v) => v,
        None => return Err(ContractError::Overflow),
    };
    s.last_updated = now;
    Ok(s)
}

/// The LP part of a swap fee lies between nothing and the whole fee, so
/// the treasury part (the rest) is never negative.
pub proof fn lemma_pool_fee_split_conserves(collected_fee: u64, lp_share_bps: u32)
    requires
        lp_share_bps <= 10000,
    ensures
        0 <= collected_fee * lp_share_bps / 10000 <= collected_fee,
{
    assert(collected_fee * lp_share_bps / 10000 <= collected_fee) by (nonlinear_arith)
        requires
            lp_share_bps <= 10000,
    ;
    assert(collected_fee * lp_share_bps / 10000 >= 0) by (nonlinear_arith);
}

// ── Asset identifiers ────────────────────────────────────────────────────────

/// The currency symbols with fixed asset identifiers.
#[derive(Clone, Copy, Debug, PartialEq, Eq, Structural)]
pub enum KnownSymbol {
    NGN,
    KES,
    GHS,
    CFA,
    ZAR,
    UGX,
    STAKE,
    VALUE,
}

/// The fixed asset identifier of a known symbol.
pub open spec fn known_asset_id(s: KnownSymbol) -> AssetId {
    match s {
        KnownSymbol::NGN => ID_NGN,
        KnownSymbol::KES => ID_KES,
        KnownSymbol::GHS => ID_GHS,
        KnownSymbol::CFA => ID_CFA,
        KnownSymbol::ZAR => ID_ZAR,
        KnownSymbol::UGX => ID_UGX,
        KnownSymbol::STAKE => ID_STAKE,
        KnownSymbol::VALUE => ID_VALUE,
    }
}

/// The little-endian bytes of a 64-bit value.
pub open spec fn le_bytes_u64(raw: u64) -> Seq<u8> {
    Seq::new(8, |i: int| (((raw as int) / pow256(i)) % 256) as u8)
}

/// `256^i`.
pub open spec fn pow256(i: int) -> int
    decreases i,
{
    if i <= 0 {
        1
    } else {
        256 * pow256(i - 1)
    }
}

/// FNV-1a (32-bit) over `bytes`, stopping at the first zero byte.
pub open spec fn fnv1a_until_zero(bytes: Seq<u8>, hash: u32) -> u32
    decreases bytes.len(),
{
    if bytes.len() == 0 || bytes[0] == 0 {
        hash
    } else {
        fnv1a_until_zero(bytes.drop_first(), (hash ^ (bytes[0] as u32)).wrapping_mul(16777619u32))
    }
}

/// The FNV-1a offset basis.
pub const FNV_OFFSET_BASIS: u32 = 2166136261;
/// The FNV-1a prime.
pub const FNV_PRIME: u32 = 16777619;

/// FNV-1a hash of the raw 64-bit value of a symbol, over its
/// little-endian bytes up to the first zero byte.
pub fn symbol_raw_hash(raw: u64) -> (r: u32)
    ensures
        r == fnv1a_until_zero(le_bytes_u64(raw), FNV_OFFSET_BASIS),
{
    let mut bytes: Vec<u8> = Vec::new();
    let mut v = raw;
    let mut k: usize = 0;
    while k < 8
        invariant
            k <= 8,
            bytes@.len() == k,
            v == (raw as int) / pow256(k as int),
            pow256(k as int) > 0,
            forall|j: int| 0 <= j < k ==> #[trigger] bytes@[j] == (((raw as int) / pow256(j)) % 256) as u8,
        decreases 8 - k,
    {
        bytes.push((v % 256) as u8);
        proof {
            vstd::arithmetic::div_mod::lemma_div_denominator(raw as int, pow256(k as int), 256);
            assert(pow256(k as int + 1) == 256 * pow256(k as int));
            assert(pow256(k as int) * 256 == 256 * pow256(k as int)) by (nonlinear_arith);
        }
        v = v / 256;
        k = k + 1;
    }
    assert(bytes@ =~= le_bytes_u64(raw));
    assert(bytes@.subrange(0, 8) =~= bytes@);
    let mut hash: u32 = FNV_OFFSET_BASIS;
    let mut i: usize = 0;
    while i < 8
        invariant
            i <= 8,
            bytes@.len() == 8,
            bytes@ == le_bytes_u64(raw),
            fnv1a_until_zero(bytes@.subrange(i as int, 8), hash) == fnv1a_until_zero(le_bytes_u64(raw), FNV_OFFSET_BASIS),
        decreases 8 - i,
    {
        let b = bytes[i];
        assert(bytes@.subrange(i as int, 8)[0] == b);
        assert(bytes@.subrange(i as int, 8).drop_first() =~= bytes@.subrange(i as int + 1, 8));
        if b == 0 {
            return hash;
        }
        hash = (hash ^ (b as u32)).wrapping_mul(FNV_PRIME);
        i = i + 1;
    }
    assert(bytes@.subrange(8, 8).len() == 0);
    hash
}

/// The asset identifier of a currency symbol: the fixed one of a known
/// symbol, otherwise the FNV-1a hash of the symbol's raw 64-bit value.
pub fn symbol_to_asset_id(known: Option<KnownSymbol>, raw: u64) -> (r: AssetId)
    ensures
        r == (match known {
            Some(s) => known_asset_id(s),
            None => fnv1a_until_zero(le_bytes_u64(raw), FNV_OFFSET_BASIS),
        }),
{
    match known {
        Some(KnownSymbol::NGN) => ID_NGN,
        Some(KnownSymbol::KES) => ID_KES,
        Some(KnownSymbol::GHS) => ID_GHS,
        Some(KnownSymbol::CFA) => ID_CFA,
        Some(KnownSymbol::ZAR) => ID_ZAR,
        Some(KnownSymbol::UGX) => ID_UGX,
        Some(KnownSymbol::STAKE) => ID_STAKE,
        Some(KnownSymbol::VALUE) => ID_VALUE,
        None => symbol_raw_hash(raw),
    }
}

/// The known symbol of an asset identifier, if any.
pub fn asset_id_to_symbol(id: AssetId) -> (r: Option<KnownSymbol>)
    ensures
        r matches Some(s) ==> known_asset_id(s) == id,
        r is None ==> forall|s: KnownSymbol| known_asset_id(s) != id,
{
    if id == ID_NGN {
        Some(KnownSymbol::NGN)
    } else if id == ID_KES {
        Some(KnownSymbol::KES)
    } else if id == ID_GHS {
        Some(KnownSymbol::GHS)
    } else if id == ID_CFA {
        Some(KnownSymbol::CFA)
    } else if id == ID_ZAR {
        Some(KnownSymbol::ZAR)
    } else if id == ID_UGX {
        Some(KnownSymbol::UGX)
    } else if id == ID_STAKE {
        Some(KnownSymbol::STAKE)
    } else if id == ID_VALUE {
        Some(KnownSymbol::VALUE)
    } else {
        None
    }
}

/// The fixed identifiers of the known symbols are distinct, so a known
/// symbol's identifier maps back to it.
pub proof fn lemma_known_ids_round_trip(s: KnownSymbol, t: KnownSymbol)
    ensures
        known_asset_id(s) == known_asset_id(t) ==> s == t,
{
}

} // verus!
