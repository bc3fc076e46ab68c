//! Governance proposals with an execution timelock and cancellation quorum,
//! plus the governance-owned fee tier and fee split settings.
//!
//! A proposal waits `MIN_LEDGER_DELAY` ledgers before it may execute. While
//! it waits, signers may vote to cancel it; once the votes reach the
//! cancellation threshold (a simple majority of the signers, at least one)
//! the proposal is cancelled for good. The admin may also cancel directly.
use vstd::prelude::*;

use crate::config::{has_duplicate_addresses, has_duplicates};
use crate::error::ContractError;
use crate::Address;

verus! {

/// Ledgers that must elapse between submission and eligible execution.
pub const MIN_LEDGER_DELAY: u32 = 5000;
/// Lifetime of an unapproved proposal: 7 days.
pub const PROPOSAL_TTL_SECONDS: u64 = 604_800;

pub const LOW_FEE_TIER_BPS: u32 = 5;
pub const MEDIUM_FEE_TIER_BPS: u32 = 30;
pub const HIGH_FEE_TIER_BPS: u32 = 100;
pub const DEFAULT_FEE_TIER_BPS: u32 = 30;
pub const LP_FEE_SHARE_BPS: u32 = 8000;
pub const TREASURY_FEE_SHARE_BPS: u32 = 2000;

/// Lifecycle status of a governance proposal.
#[derive(Clone, Copy, Debug, PartialEq, Eq, Structural)]
pub enum ProposalStatus {
    /// Active and inside its timelock window.
    Pending,
    /// Timelock elapsed; eligible for execution.
    Executable,
    /// Cancelled during the timelock window.
    Cancelled,
}

/// A governance proposal wrapping a contract upgrade.
#[derive(Clone, Debug)]
pub struct GovernanceProposal {
    pub proposal_id: u64,
    /// WASM hash of the proposed upgrade.
    pub wasm_hash: [u8; 32],
    pub proposer: Address,
    /// Ledger sequence of submission.
    pub staged_at: u32,
    pub status: ProposalStatus,
    /// Distinct addresses that voted to cancel.
    pub cancellation_votes: Vec<Address>,
}

impl GovernanceProposal {
    /// No address voted twice.
    pub open spec fn wf(&self) -> bool {
        !has_duplicates(self.cancellation_votes@)
    }
}

/// Whether at least `delay` units elapsed between `staged_at` and `current`,
/// counting zero elapsed while `current` is behind `staged_at`.
pub open spec fn staged_delay_elapsed(staged_at: int, current: int, delay: int) -> bool {
    (if current >= staged_at { current - staged_at } else { 0 }) >= delay
}

/// Whether at least `MIN_LEDGER_DELAY` ledgers elapsed since `staged_at`.
pub fn verify_staged_delay(staged_at: u32, current_ledger: u32) -> (r: bool)
    ensures
        r == staged_delay_elapsed(staged_at as int, current_ledger as int, MIN_LEDGER_DELAY as int),
{
    current_ledger.saturating_sub(staged_at) >= MIN_LEDGER_DELAY
}

/// Whether at least `delay_seconds` elapsed between `staged_at` and
/// `current_time` (zero elapsed when the clock is behind).
pub fn verify_staged_delay_seconds(staged_at: u64, current_time: u64, delay_seconds: u64) -> (r: bool)
    ensures
        r == staged_delay_elapsed(staged_at as int, current_time as int, delay_seconds as int),
{
    current_time.saturating_sub(staged_at) >= delay_seconds
}

/// Once a staged delay has elapsed it stays elapsed: if
/// [`verify_staged_delay_seconds`] passes at `earlier`, it passes at every
/// later moment.
pub proof fn lemma_staged_delay_stays_elapsed(staged_at: u64, earlier: u64, later: u64, delay: u64)
    requires
        earlier <= later,
    ensures
        staged_delay_elapsed(staged_at as int, earlier as int, delay as int) ==> staged_delay_elapsed(
            staged_at as int,
            later as int,
            delay as int,
        ),
{
}

/// The ledger form of the same law: once [`verify_staged_delay`] passes at
/// ledger `earlier`, it passes at every later ledger.
pub proof fn lemma_ledger_delay_stays_elapsed(staged_at: u32, earlier: u32, later: u32)
    requires
        earlier <= later,
    ensures
        staged_delay_elapsed(staged_at as int, earlier as int, MIN_LEDGER_DELAY as int) ==> staged_delay_elapsed(
            staged_at as int,
            later as int,
            MIN_LEDGER_DELAY as int,
        ),
{
}

/// Votes needed to cancel a proposal: one with fewer than two signers,
/// otherwise a simple majority `signers / 2 + 1`.
pub fn cancellation_threshold(signer_count: u32) -> (r: u32)
    ensures
        r == (if signer_count < 2 { 1 } else { signer_count / 2 + 1 }),
        r >= 1,
        signer_count >= 1 ==> r <= signer_count,
        2 * (r as int) > signer_count,
{
    if signer_count < 2 {
        1
    } else {
        signer_count / 2 + 1
    }
}

/// Whether an unapproved proposal has been open for at least 7 days.
pub fn is_proposal_expired(proposed_at: u64, current_time: u64, threshold_met: bool) -> (r: bool)
    ensures
        r == (!threshold_met && current_time >= proposed_at && current_time - proposed_at
            >= PROPOSAL_TTL_SECONDS),
{
    !threshold_met && current_time.saturating_sub(proposed_at) >= PROPOSAL_TTL_SECONDS
}

/// A revocation ballot: replace `target` by `replacement`, with the
/// distinct voters so far.
#[derive(Clone, Debug)]
pub struct VotingBallot {
    pub target: Address,
    pub replacement: Address,
    pub proposer: Address,
    pub proposed_at: u64,
    /// Content identifier of the proposal text.
    pub ipfs_cid: Vec<u8>,
    pub votes: Vec<Address>,
}

impl VotingBallot {
    /// No address voted twice.
    pub open spec fn wf(&self) -> bool {
        !has_duplicates(self.votes@)
    }
}

/// Opens a ballot under a proposal identifier; `active` says whether one is
/// already open under it. The ballot starts at `now` with no votes.
pub fn open_ballot(
    active: bool,
    target: Address,
    replacement: Address,
    proposer: Address,
    ipfs_cid: Vec<u8>,
    now: u64,
) -> (r: Result<VotingBallot, ContractError>)
    ensures
        active ==> r == Err::<VotingBallot, ContractError>(ContractError::ProposalAlreadyActive),
        !active ==> (r matches Ok(b) && b.target == target && b.replacement == replacement
            && b.proposer == proposer && b.proposed_at == now && b.ipfs_cid@ == ipfs_cid@
            && b.votes@ == Seq::<Address>::empty() && b.wf()),
{
    if active {
        return Err(ContractError::ProposalAlreadyActive);
    }
    let b = VotingBallot { target, replacement, proposer, proposed_at: now, ipfs_cid, votes: Vec::new() };
    assert(b.votes@ =~= Seq::<Address>::empty());
    Ok(b)
}

/// Records `voter`'s vote on the open ballot: there must be one, and each
/// address votes once.
pub fn cast_ballot_vote(ballot: Option<VotingBallot>, voter: Address) -> (r: Result<VotingBallot, ContractError>)
    requires
        ballot matches Some(b) ==> b.wf(),
    ensures
        ballot is None ==> r == Err::<VotingBallot, ContractError>(ContractError::NoActiveProposal),
        ballot matches Some(b) ==> if b.votes@.contains(voter) {
            r == Err::<VotingBallot, ContractError>(ContractError::AlreadyVoted)
        } else {
            (r matches Ok(n) && n.votes@ == b.votes@.push(voter) && n.wf() && n.target == b.target
                && n.replacement == b.replacement && n.proposer == b.proposer
                && n.proposed_at == b.proposed_at && n.ipfs_cid@ == b.ipfs_cid@)
        },
{
    let mut b = match ballot {
        None => return Err(ContractError::NoActiveProposal),
        Some(b) => b,
    };
    if contains_address(&b.votes, voter) {
        return Err(ContractError::AlreadyVoted);
    }
    let ghost old_votes = b.votes@;
    b.votes.push(voter);
    proof {
        assert forall|i: int, j: int| 0 <= i < j < b.votes@.len() implies b.votes@[i] != b.votes@[j] by {
            if j == old_votes.len() {
                assert(old_votes.contains(old_votes[i]));
            } else {
                assert(!has_duplicates(old_votes));
            }
        }
    }
    Ok(b)
}

/// Closes an expired ballot: it must exist; if the quorum was met or the
/// 7-day lifetime has not passed it stays (`None`), otherwise it is closed
/// and its proposer returned. `threshold_met` is whether its votes reach
/// the upgrade quorum.
pub fn cleanup_expired_proposal(ballot: &Option<VotingBallot>, threshold_met: bool, now: u64) -> (r: Result<
    Option<Address>,
    ContractError,
>)
    ensures
        ballot is None ==> r == Err::<Option<Address>, ContractError>(ContractError::NoActiveProposal),
        ballot matches Some(b) ==> r == Ok::<Option<Address>, ContractError>(
            if !threshold_met && now >= b.proposed_at && now - b.proposed_at >= PROPOSAL_TTL_SECONDS {
                Some(b.proposer)
            } else {
                None
            },
        ),
{
    match ballot {
        None => Err(ContractError::NoActiveProposal),
        Some(b) => {
            if !is_proposal_expired(b.proposed_at, now, threshold_met) {
                Ok(None)
            } else {
                Ok(Some(b.proposer))
            }
        },
    }
}

/// Whether the recorded proposal keeps a new one from being submitted: it
/// is pending or executable.
pub open spec fn blocks_submission(existing: Option<GovernanceProposal>) -> bool {
    existing matches Some(p) && (p.status == ProposalStatus::Pending || p.status == ProposalStatus::Executable)
}

/// Submits a proposal. `existing` is the recorded proposal, if any, and
/// `last_proposal_id` the last identifier issued. Only one proposal may be
/// pending or executable at a time; the new one gets the next identifier,
/// is staged at `current_ledger` and starts with no cancellation votes.
pub fn submit_governance_proposal(
    existing: &Option<GovernanceProposal>,
    last_proposal_id: u64,
    proposer: Address,
    wasm_hash: [u8; 32],
    current_ledger: u32,
) -> (r: Result<GovernanceProposal, ContractError>)
    ensures
        blocks_submission(*existing) ==> (r matches Err(e) && e == ContractError::ProposalAlreadyActive),
        !blocks_submission(*existing) && last_proposal_id == u64::MAX ==> (r matches Err(e) && e
            == ContractError::Overflow),
        !blocks_submission(*existing) && last_proposal_id < u64::MAX ==> (r matches Ok(p) && {
            &&& p.proposal_id == last_proposal_id + 1
            &&& p.wasm_hash == wasm_hash
            &&& p.proposer == proposer
            &&& p.staged_at == current_ledger
            &&& p.status == ProposalStatus::Pending
            &&& p.cancellation_votes@.len() == 0
            &&& p.wf()
        }),
{
    match existing {
        Some(p) => {
            if p.status == ProposalStatus::Pending || p.status == ProposalStatus::Executable {
                return Err(ContractError::ProposalAlreadyActive);
            }
        },
        None => {},
    }
    if last_proposal_id == u64::MAX {
        return Err(ContractError::Overflow);
    }
    Ok(GovernanceProposal {
        proposal_id: last_proposal_id + 1,
        wasm_hash,
        proposer,
        staged_at: current_ledger,
        status: ProposalStatus::Pending,
        cancellation_votes: Vec::new(),
    })
}

/// Whether `voters` holds `voter`.
pub(crate) fn contains_address(voters: &Vec<Address>, voter: Address) -> (r: bool)
    ensures
        r == voters@.contains(voter),
{
    let mut i: usize = 0;
    while i < voters.len()
        invariant
            i <= voters.len(),
            forall|k: int| 0 <= k < i ==> voters@[k] != voter,
        decreases voters.len() - i,
    {
        if voters[i] == voter {
            return true;
        }
        i = i + 1;
    }
    false
}

/// The error that refuses `proposal_id` on the recorded proposal, if any:
/// it must exist, carry that identifier and still be pending.
pub open spec fn pending_proposal_error(proposal: Option<GovernanceProposal>, proposal_id: u64) -> Option<
    ContractError,
> {
    match proposal {
        None => Some(ContractError::NoActiveProposal),
        Some(p) => if p.proposal_id != proposal_id {
            Some(ContractError::NoActiveProposal)
        } else if p.status != ProposalStatus::Pending {
            Some(ContractError::ProposalAlreadyCancelledOrExecuted)
        } else {
            None
        },
    }
}

/// Records `voter`'s vote to cancel the pending proposal `proposal_id`
/// before the voter's signature expires. Once the distinct votes reach the
/// cancellation threshold of `signer_count` signers, the proposal is
/// cancelled. The updated proposal is returned.
pub fn vote_cancel_proposal(
    proposal: Option<GovernanceProposal>,
    voter: Address,
    proposal_id: u64,
    sig_expires_at: u64,
    now: u64,
    signer_count: u32,
) -> (r: Result<GovernanceProposal, ContractError>)
    requires
        proposal matches Some(p) ==> p.wf() && p.cancellation_votes@.len() < u32::MAX,
    ensures
        now > sig_expires_at ==> (r matches Err(e) && e == ContractError::SignatureExpired),
        now <= sig_expires_at && pending_proposal_error(proposal, proposal_id) is Some ==> (r matches Err(
            e,
        ) && e == pending_proposal_error(proposal, proposal_id)->0),
        now <= sig_expires_at && pending_proposal_error(proposal, proposal_id) is None ==> {
            let p = proposal->0;
            if p.cancellation_votes@.contains(voter) {
                r matches Err(e) && e == ContractError::AlreadyVoted
            } else {
                r matches Ok(q) && {
                    &&& q.cancellation_votes@ == p.cancellation_votes@.push(voter)
                    &&& q.status == (if q.cancellation_votes@.len() >= (if signer_count < 2 {
                        1
                    } else {
                        signer_count / 2 + 1
                    }) {
                        ProposalStatus::Cancelled
                    } else {
                        ProposalStatus::Pending
                    })
                    &&& q.proposal_id == p.proposal_id
                    &&& q.wasm_hash == p.wasm_hash
                    &&& q.proposer == p.proposer
                    &&& q.staged_at == p.staged_at
                    &&& q.wf()
                }
            }
        },
{
    if now > sig_expires_at {
        return Err(ContractError::SignatureExpired);
    }
    let mut p = match proposal {
        None => return Err(ContractError::NoActiveProposal),
        Some(p) => p,
    };
    if p.proposal_id != proposal_id {
        return Err(ContractError::NoActiveProposal);
    }
    if p.status != ProposalStatus::Pending {
        return Err(ContractError::ProposalAlreadyCancelledOrExecuted);
    }
    if contains_address(&p.cancellation_votes, voter) {
        return Err(ContractError::AlreadyVoted);
    }
    let ghost before = p.cancellation_votes@;
    p.cancellation_votes.push(voter);
    proof {
        assert forall|i: int, j: int| 0 <= i < j < p.cancellation_votes@.len() implies p.cancellation_votes@[i]
            != p.cancellation_votes@[j] by {
            if j == before.len() {
                assert(before[i] == p.cancellation_votes@[i]);
            } else {
                assert(!(before[i] == before[j]));
            }
        }
    }
    let threshold = cancellation_threshold(signer_count);
    if p.cancellation_votes.len() >= threshold as usize {
        p.status = ProposalStatus::Cancelled;
    }
    Ok(p)
}

/// Cancels the pending proposal `proposal_id` directly (emergency path).
pub fn cancel_governance_proposal(proposal: Option<GovernanceProposal>, proposal_id: u64) -> (r: Result<
    GovernanceProposal,
    ContractError,
>)
    ensures
        pending_proposal_error(proposal, proposal_id) is Some ==> (r matches Err(e) && e
            == pending_proposal_error(proposal, proposal_id)->0),
        pending_proposal_error(proposal, proposal_id) is None ==> (r matches Ok(q) && {
            let p = proposal->0;
            &&& q.status == ProposalStatus::Cancelled
            &&& q.proposal_id == p.proposal_id
            &&& q.wasm_hash == p.wasm_hash
            &&& q.proposer == p.proposer
            &&& q.staged_at == p.staged_at
            &&& q.cancellation_votes@ == p.cancellation_votes@
        }),
{
    let mut p = match proposal {
        None => return Err(ContractError::NoActiveProposal),
        Some(p) => p,
    };
    if p.proposal_id != proposal_id {
        return Err(ContractError::NoActiveProposal);
    }
    if p.status != ProposalStatus::Pending {
        return Err(ContractError::ProposalAlreadyCancelledOrExecuted);
    }
    p.status = ProposalStatus::Cancelled;
    Ok(p)
}

/// Ledgers left before the recorded proposal `proposal_id` may execute, if
/// it is pending.
pub open spec fn proposal_timelock_remaining(proposal: Option<GovernanceProposal>, proposal_id: u64, current_ledger: u32) -> Option<u32> {
    match proposal {
        Some(p) => if p.proposal_id == proposal_id && p.status == ProposalStatus::Pending {
            let elapsed: int = if current_ledger >= p.staged_at {
                current_ledger - p.staged_at
            } else {
                0
            };
            Some((if elapsed >= MIN_LEDGER_DELAY { 0 } else { MIN_LEDGER_DELAY - elapsed }) as u32)
        } else {
            None
        },
        None => None,
    }
}

/// Ledgers left before the pending proposal `proposal_id` may execute;
/// `None` unless it is the recorded, pending proposal.
pub fn get_gov_proposal_tl_remaining(
    proposal: &Option<GovernanceProposal>,
    proposal_id: u64,
    current_ledger: u32,
) -> (r: Option<u32>)
    ensures
        r == proposal_timelock_remaining(*proposal, proposal_id, current_ledger),
{
    match proposal {
        Some(p) => {
            if p.proposal_id != proposal_id || p.status != ProposalStatus::Pending {
                return None;
            }
            let elapsed = current_ledger.saturating_sub(p.staged_at);
            Some(MIN_LEDGER_DELAY.saturating_sub(elapsed))
        },
        None => None,
    }
}

/// Whether the recorded proposal `proposal_id` may execute at
/// `current_ledger`.
pub open spec fn proposal_executable(proposal: Option<GovernanceProposal>, proposal_id: u64, current_ledger: u32) -> bool {
    proposal matches Some(p) && p.proposal_id == proposal_id && (p.status == ProposalStatus::Executable || (p.status
        == ProposalStatus::Pending && current_ledger >= p.staged_at && current_ledger - p.staged_at
        >= MIN_LEDGER_DELAY))
}

/// Whether the recorded proposal `proposal_id` may execute: it is marked
/// executable, or it is pending and its timelock has elapsed.
pub fn is_proposal_executable(proposal: &Option<GovernanceProposal>, proposal_id: u64, current_ledger: u32) -> (r:
    bool)
    ensures
        r == proposal_executable(*proposal, proposal_id, current_ledger),
{
    match proposal {
        Some(p) => {
            if p.proposal_id != proposal_id {
                return false;
            }
            p.status == ProposalStatus::Executable || (p.status == ProposalStatus::Pending
                && verify_staged_delay(p.staged_at, current_ledger))
        },
        None => false,
    }
}

/// A cancelled proposal never executes, at any ledger; it has no timelock
/// left to report, and it no longer keeps a new proposal from being
/// submitted.
pub proof fn lemma_cancelled_never_executes(p: GovernanceProposal)
    requires
        p.status == ProposalStatus::Cancelled,
    ensures
        forall|id: u64, ledger: u32| !proposal_executable(Some(p), id, ledger),
        forall|id: u64, ledger: u32| proposal_timelock_remaining(Some(p), id, ledger) is None,
        !blocks_submission(Some(p)),
{
}

// ── Admin key and validator rotation ─────────────────────────────────────────

/// The outcome of an admin key rotation.
#[derive(Clone, Debug)]
pub struct AdminKeyRotation {
    /// The distinct new signers, in first-seen order.
    pub signers: Vec<Address>,
    /// The new contract admin: the first listed signer.
    pub admin: Address,
    /// The new quorum threshold.
    pub quorum_threshold: u32,
    /// The multisig weight bound, at least one.
    pub max_signer_weight: u32,
}

/// The distinct entries of `s`, in first-seen order.
pub open spec fn distinct_in_order(s: Seq<Address>) -> Seq<Address>
    decreases s.len(),
{
    if s.len() == 0 {
        s
    } else {
        let rest = distinct_in_order(s.drop_last());
        if rest.contains(s.last()) {
            rest
        } else {
            rest.push(s.last())
        }
    }
}

proof fn lemma_distinct_in_order(s: Seq<Address>)
    ensures
        !has_duplicates(distinct_in_order(s)),
        forall|a: Address| distinct_in_order(s).contains(a) <==> s.contains(a),
        s.len() > 0 ==> distinct_in_order(s).len() > 0 && distinct_in_order(s)[0] == s[0],
    decreases s.len(),
{
    if s.len() > 0 {
        let init = s.drop_last();
        lemma_distinct_in_order(init);
        let rest = distinct_in_order(init);
        if !rest.contains(s.last()) {
            let out = rest.push(s.last());
            assert forall|i: int, j: int| 0 <= i < j < out.len() implies out[i] != out[j] by {
                if j == rest.len() {
                    assert(rest.contains(rest[i]));
                }
            }
        }
        assert forall|a: Address| distinct_in_order(s).contains(a) <==> s.contains(a) by {
            let d = distinct_in_order(s);
            if s.contains(a) {
                let k = choose|k: int| 0 <= k < s.len() && s[k] == a;
                if k < init.len() {
                    assert(init[k] == s[k]);
                    assert(init.contains(a));
                    assert(rest.contains(a));
                    if !rest.contains(s.last()) {
                        let w = choose|w: int| 0 <= w < rest.len() && rest[w] == a;
                        assert(rest.push(s.last())[w] == a);
                    }
                } else {
                    assert(a == s.last());
                    if !rest.contains(s.last()) {
                        assert(rest.push(s.last())[rest.len() as int] == a);
                    }
                }
                assert(d.contains(a));
            }
            if d.contains(a) {
                let w = choose|w: int| 0 <= w < d.len() && d[w] == a;
                if rest.contains(s.last()) || w < rest.len() {
                    if !rest.contains(s.last()) {
                        assert(rest[w] == a);
                    }
                    assert(rest.contains(a));
                    assert(init.contains(a));
                    let k = choose|k: int| 0 <= k < init.len() && init[k] == a;
                    assert(s[k] == a);
                } else {
                    assert(a == s.last());
                    assert(s[s.len() - 1] == a);
                }
                assert(s.contains(a));
            }
        }
        if init.len() > 0 {
            assert(init[0] == s[0]);
        } else {
            assert(rest.len() == 0);
        }
    }
}

/// Prepares an admin key rotation to `new_signers` with `new_threshold`
/// approvals: the threshold must lie between one and the number of distinct
/// signers. `max_signer_weight` is the current multisig weight bound.
pub fn rotate_admin_keys(new_signers: &Vec<Address>, new_threshold: u32, max_signer_weight: u32) -> (r: Result<
    AdminKeyRotation,
    ContractError,
>)
    ensures
        (new_threshold == 0 || new_threshold > distinct_in_order(new_signers@).len()) ==> (r matches Err(e) && e
            == ContractError::InvalidThreshold),
        !(new_threshold == 0 || new_threshold > distinct_in_order(new_signers@).len()) ==> (r matches Ok(k) && {
            &&& k.signers@ == distinct_in_order(new_signers@)
            &&& k.admin == new_signers@[0]
            &&& k.quorum_threshold == new_threshold
            &&& k.max_signer_weight == (if max_signer_weight >= 1 { max_signer_weight } else { 1 })
        }),
{
    let mut set: Vec<Address> = Vec::new();
    let mut i: usize = 0;
    while i < new_signers.len()
        invariant
            i <= new_signers.len(),
            set@ == distinct_in_order(new_signers@.take(i as int)),
        decreases new_signers.len() - i,
    {
        assert(new_signers@.take(i as int + 1).drop_last() =~= new_signers@.take(i as int));
        if !contains_address(&set, new_signers[i]) {
            set.push(new_signers[i]);
        }
        i = i + 1;
    }
    assert(new_signers@.take(new_signers.len() as int) =~= new_signers@);
    proof {
        lemma_distinct_in_order(new_signers@);
    }
    if new_threshold == 0 || new_threshold as usize > set.len() {
        return Err(ContractError::InvalidThreshold);
    }
    let admin = new_signers[0];
    let weight = if max_signer_weight >= 1 { max_signer_weight } else { 1 };
    Ok(AdminKeyRotation { signers: set, admin, quorum_threshold: new_threshold, max_signer_weight: weight })
}

/// The sequence number of the next validator set.
pub fn rotate_validators(current_sequence: u64) -> (r: Result<u64, ContractError>)
    ensures
        current_sequence == u64::MAX ==> (r matches Err(e) && e == ContractError::Overflow),
        current_sequence < u64::MAX ==> (r matches Ok(s) && s == current_sequence + 1),
{
    match current_sequence.checked_add(1) {
        Some(s) => Ok(s),
        None => Err(ContractError::Overflow),
    }
}

// ── Fee tier and fee split ───────────────────────────────────────────────────

/// The pool fee tier and the three tiers governance may choose from.
#[derive(Clone, Copy, Debug, PartialEq, Eq, Structural)]
pub struct FeeTierConfig {
    pub fee_tier_bps: u32,
    pub low_fee_tier_bps: u32,
    pub medium_fee_tier_bps: u32,
    pub high_fee_tier_bps: u32,
}

impl Default for FeeTierConfig {
    fn default() -> (r: Self)
        ensures
            r == (FeeTierConfig {
                fee_tier_bps: DEFAULT_FEE_TIER_BPS,
                low_fee_tier_bps: LOW_FEE_TIER_BPS,
                medium_fee_tier_bps: MEDIUM_FEE_TIER_BPS,
                high_fee_tier_bps: HIGH_FEE_TIER_BPS,
            }),
    {
        FeeTierConfig {
            fee_tier_bps: DEFAULT_FEE_TIER_BPS,
            low_fee_tier_bps: LOW_FEE_TIER_BPS,
            medium_fee_tier_bps: MEDIUM_FEE_TIER_BPS,
            high_fee_tier_bps: HIGH_FEE_TIER_BPS,
        }
    }
}

/// The split of collected fees between LPs and the treasury.
#[derive(Clone, Copy, Debug, PartialEq, Eq, Structural)]
pub struct FeeSplitConfig {
    pub lp_share_bps: u32,
    pub treasury_share_bps: u32,
}

impl Default for FeeSplitConfig {
    fn default() -> (r: Self)
        ensures
            r == (FeeSplitConfig { lp_share_bps: LP_FEE_SHARE_BPS, treasury_share_bps: TREASURY_FEE_SHARE_BPS }),
    {
        FeeSplitConfig { lp_share_bps: LP_FEE_SHARE_BPS, treasury_share_bps: TREASURY_FEE_SHARE_BPS }
    }
}

/// Selects one of the configured tiers as the active fee tier.
pub fn set_fee_tier(config: FeeTierConfig, new_fee_tier_bps: u32) -> (r: Result<FeeTierConfig, ContractError>)
    ensures
        new_fee_tier_bps != config.low_fee_tier_bps && new_fee_tier_bps != config.medium_fee_tier_bps
            && new_fee_tier_bps != config.high_fee_tier_bps ==> (r matches Err(e) && e
            == ContractError::InvalidThreshold),
        new_fee_tier_bps == config.low_fee_tier_bps || new_fee_tier_bps == config.medium_fee_tier_bps
            || new_fee_tier_bps == config.high_fee_tier_bps ==> r == Ok::<FeeTierConfig, ContractError>(
            FeeTierConfig { fee_tier_bps: new_fee_tier_bps, ..config },
        ),
{
    if new_fee_tier_bps != config.low_fee_tier_bps && new_fee_tier_bps != config.medium_fee_tier_bps
        && new_fee_tier_bps != config.high_fee_tier_bps {
        return Err(ContractError::InvalidThreshold);
    }
    Ok(FeeTierConfig { fee_tier_bps: new_fee_tier_bps, ..config })
}

/// A fee split whose shares add up to exactly 100 %.
pub fn set_fee_split_config(lp_share_bps: u32, treasury_share_bps: u32) -> (r: Result<FeeSplitConfig, ContractError>)
    ensures
        lp_share_bps + treasury_share_bps != 10000 ==> (r matches Err(e) && e == ContractError::InvalidThreshold),
        lp_share_bps + treasury_share_bps == 10000 ==> r == Ok::<FeeSplitConfig, ContractError>(
            FeeSplitConfig { lp_share_bps, treasury_share_bps },
        ),
{
    match lp_share_bps.checked_add(treasury_share_bps) {
        Some(total) => {
            if total != 10000 {
                return Err(ContractError::InvalidThreshold);
            }
        },
        None => return Err(ContractError::InvalidThreshold),
    }
    Ok(FeeSplitConfig { lp_share_bps, treasury_share_bps })
}

/// Splits collected fees into the LP and treasury amounts, each rounded
/// down.
pub fn split_collected_fees(config: &FeeSplitConfig, amount: u128) -> (r: Result<(u128, u128), ContractError>)
    ensures
        amount * config.lp_share_bps > u128::MAX || amount * config.treasury_share_bps > u128::MAX ==> (r matches Err(
            e,
        ) && e == ContractError::Overflow),
        amount * config.lp_share_bps <= u128::MAX && amount * config.treasury_share_bps <= u128::MAX ==> r
            == Ok::<(u128, u128), ContractError>(
            (
                (amount * config.lp_share_bps / 10000) as u128,
                (amount * config.treasury_share_bps / 10000) as u128,
            ),
        ),
{
    let lp = match amount.checked_mul(config.lp_share_bps as u128) {
        Some(v) => v / 10000,
        None => return Err(ContractError::Overflow),
    };
    let treasury = match amount.checked_mul(config.treasury_share_bps as u128) {
        Some(v) => v / 10000,
        None => return Err(ContractError::Overflow),
    };
    Ok((lp, treasury))
}

/// A split whose shares add up to 100 % never hands out more than was
/// collected.
pub proof fn lemma_split_never_exceeds_amount(config: FeeSplitConfig, amount: u128)
    requires
        config.lp_share_bps + config.treasury_share_bps == 10000,
    ensures
        amount * config.lp_share_bps / 10000 + amount * config.treasury_share_bps / 10000 <= amount,
{
    let a = amount as int;
    let l = config.lp_share_bps as int;
    let t = config.treasury_share_bps as int;
    assert(a * l / 10000 + a * t / 10000 <= a) by (nonlinear_arith)
        requires
            l + t == 10000,
            l >= 0,
            t >= 0,
            a >= 0,
    {
        assert(a * l + a * t == a * 10000);
        assert((a * l / 10000) * 10000 <= a * l);
        assert((a * t / 10000) * 10000 <= a * t);
    }
}

} // verus!
