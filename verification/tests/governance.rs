use stellarflow::error::ContractError;
use stellarflow::governance::{
    cancel_governance_proposal, cancellation_threshold, cast_ballot_vote, cleanup_expired_proposal, open_ballot, get_gov_proposal_tl_remaining, is_proposal_executable,
    is_proposal_expired, rotate_admin_keys, rotate_validators, set_fee_split_config, set_fee_tier,
    split_collected_fees, submit_governance_proposal, verify_staged_delay, verify_staged_delay_seconds,
    vote_cancel_proposal, FeeSplitConfig, FeeTierConfig, GovernanceProposal, ProposalStatus, MIN_LEDGER_DELAY,
    PROPOSAL_TTL_SECONDS,
};
use stellarflow::Address;

fn addr(n: u128) -> Address {
    Address { hi: 0, lo: n }
}

fn submit(existing: &Option<GovernanceProposal>, last_id: u64, ledger: u32) -> GovernanceProposal {
    submit_governance_proposal(existing, last_id, addr(1), [42u8; 32], ledger).unwrap()
}

#[test]
fn test_cancellation_threshold_formula() {
    assert_eq!(cancellation_threshold(0), 1);
    assert_eq!(cancellation_threshold(1), 1);
    assert_eq!(cancellation_threshold(2), 2);
    assert_eq!(cancellation_threshold(3), 2);
    assert_eq!(cancellation_threshold(5), 3);
    assert_eq!(cancellation_threshold(7), 4);
}

#[test]
fn test_staged_delay_verification() {
    assert!(verify_staged_delay(0, MIN_LEDGER_DELAY));
    assert!(verify_staged_delay(0, MIN_LEDGER_DELAY + 1));
    assert!(!verify_staged_delay(0, MIN_LEDGER_DELAY - 1));
    assert!(verify_staged_delay(100, 100 + MIN_LEDGER_DELAY));
    assert!(!verify_staged_delay(100, 100 + MIN_LEDGER_DELAY - 1));
}

#[test]
fn staged_delay_in_seconds() {
    assert!(verify_staged_delay_seconds(100, 200, 100));
    assert!(!verify_staged_delay_seconds(100, 199, 100));
    assert!(verify_staged_delay_seconds(100, 50, 0));
    assert!(!verify_staged_delay_seconds(100, 50, 1));
}

#[test]
fn test_submit_governance_proposal() {
    let p = submit(&None, 0, 7);
    assert_eq!(p.proposal_id, 1);
    assert_eq!(p.wasm_hash, [42u8; 32]);
    assert_eq!(p.status, ProposalStatus::Pending);
    assert_eq!(p.staged_at, 7);
    assert!(p.cancellation_votes.is_empty());
}

#[test]
fn test_submit_prevents_duplicate_active_proposals() {
    let p = submit(&None, 0, 7);
    let result = submit_governance_proposal(&Some(p), 1, addr(1), [99u8; 32], 8);
    assert_eq!(result.err(), Some(ContractError::ProposalAlreadyActive));
}

#[test]
fn test_submit_allows_new_proposal_after_cancellation() {
    let p = submit(&None, 0, 7);
    let cancelled = cancel_governance_proposal(Some(p), 1).unwrap();
    let p2 = submit_governance_proposal(&Some(cancelled), 1, addr(1), [99u8; 32], 8).unwrap();
    assert_eq!(p2.proposal_id, 2);
}

#[test]
fn test_cancel_governance_proposal_by_admin() {
    let p = submit(&None, 0, 7);
    let cancelled = cancel_governance_proposal(Some(p), 1).unwrap();
    assert_eq!(cancelled.status, ProposalStatus::Cancelled);
}

#[test]
fn test_cancel_nonexistent_proposal_fails() {
    assert_eq!(cancel_governance_proposal(None, 999).err(), Some(ContractError::NoActiveProposal));
    let p = submit(&None, 0, 7);
    assert_eq!(cancel_governance_proposal(Some(p), 999).err(), Some(ContractError::NoActiveProposal));
}

#[test]
fn test_cancel_already_cancelled_fails() {
    let p = submit(&None, 0, 7);
    let cancelled = cancel_governance_proposal(Some(p), 1).unwrap();
    let result = cancel_governance_proposal(Some(cancelled), 1);
    assert_eq!(result.err(), Some(ContractError::ProposalAlreadyCancelledOrExecuted));
}

#[test]
fn test_timelock_remaining_counts_down() {
    let p = Some(submit(&None, 0, 10));
    assert_eq!(get_gov_proposal_tl_remaining(&p, 1, 10), Some(MIN_LEDGER_DELAY));
    assert_eq!(get_gov_proposal_tl_remaining(&p, 1, 1010), Some(MIN_LEDGER_DELAY - 1000));
    assert_eq!(get_gov_proposal_tl_remaining(&p, 1, 10 + MIN_LEDGER_DELAY), Some(0));
}

#[test]
fn test_timelock_remaining_none_after_cancellation() {
    let p = submit(&None, 0, 10);
    let cancelled = cancel_governance_proposal(Some(p), 1).unwrap();
    assert_eq!(get_gov_proposal_tl_remaining(&Some(cancelled), 1, 20), None);
}

#[test]
fn test_is_proposal_executable_after_timelock() {
    let p = Some(submit(&None, 0, 10));
    assert!(!is_proposal_executable(&p, 1, 10));
    assert!(!is_proposal_executable(&p, 1, 10 + MIN_LEDGER_DELAY - 1));
    assert!(is_proposal_executable(&p, 1, 10 + MIN_LEDGER_DELAY));
    assert!(!is_proposal_executable(&p, 2, 10 + MIN_LEDGER_DELAY));
}

#[test]
fn test_is_proposal_executable_false_when_cancelled() {
    let p = submit(&None, 0, 10);
    let cancelled = cancel_governance_proposal(Some(p), 1).unwrap();
    assert!(!is_proposal_executable(&Some(cancelled), 1, u32::MAX));
}

#[test]
fn test_vote_cancel_reaches_threshold() {
    let p = submit(&None, 0, 10);
    // Two signers and the admin: three voters, threshold two.
    let p = vote_cancel_proposal(Some(p), addr(11), 1, u64::MAX, 0, 3).unwrap();
    assert_eq!(p.status, ProposalStatus::Pending);
    let p = vote_cancel_proposal(Some(p), addr(12), 1, u64::MAX, 0, 3).unwrap();
    assert_eq!(p.status, ProposalStatus::Cancelled);
}

#[test]
fn test_double_vote_rejected() {
    let p = submit(&None, 0, 10);
    let p = vote_cancel_proposal(Some(p), addr(11), 1, u64::MAX, 0, 3).unwrap();
    let result = vote_cancel_proposal(Some(p), addr(11), 1, u64::MAX, 0, 3);
    assert_eq!(result.err(), Some(ContractError::AlreadyVoted));
}

#[test]
fn expired_cancellation_signature_is_rejected() {
    let p = submit(&None, 0, 10);
    let result = vote_cancel_proposal(Some(p), addr(11), 1, 5, 6, 3);
    assert_eq!(result.err(), Some(ContractError::SignatureExpired));
}

#[test]
fn proposal_expiry_after_seven_days_without_quorum() {
    assert_eq!(PROPOSAL_TTL_SECONDS, 604_800);
    assert!(is_proposal_expired(0, PROPOSAL_TTL_SECONDS, false));
    assert!(!is_proposal_expired(0, PROPOSAL_TTL_SECONDS - 1, false));
    assert!(!is_proposal_expired(0, PROPOSAL_TTL_SECONDS, true));
}

#[test]
fn admin_key_rotation_dedups_and_checks_threshold() {
    let signers = vec![addr(1), addr(2), addr(1), addr(3)];
    let k = rotate_admin_keys(&signers, 2, 1).unwrap();
    assert_eq!(k.signers, vec![addr(1), addr(2), addr(3)]);
    assert_eq!(k.admin, addr(1));
    assert_eq!(k.quorum_threshold, 2);
    assert_eq!(rotate_admin_keys(&signers, 4, 1).err(), Some(ContractError::InvalidThreshold));
    assert_eq!(rotate_admin_keys(&signers, 0, 1).err(), Some(ContractError::InvalidThreshold));
}

#[test]
fn validator_rotation_increments_sequence() {
    assert_eq!(rotate_validators(4), Ok(5));
    assert_eq!(rotate_validators(u64::MAX), Err(ContractError::Overflow));
}

#[test]
fn fee_tier_and_split_configuration() {
    let cfg = FeeTierConfig::default();
    assert_eq!(set_fee_tier(cfg, 100).unwrap().fee_tier_bps, 100);
    assert_eq!(set_fee_tier(cfg, 31).err(), Some(ContractError::InvalidThreshold));
    assert_eq!(set_fee_split_config(7000, 3000), Ok(FeeSplitConfig { lp_share_bps: 7000, treasury_share_bps: 3000 }));
    assert_eq!(set_fee_split_config(7000, 2000).err(), Some(ContractError::InvalidThreshold));
    let (lp, treasury) = split_collected_fees(&FeeSplitConfig::default(), 1_000).unwrap();
    assert_eq!((lp, treasury), (800, 200));
}

#[test]
fn test_proposal_id_increments() {
    let p1 = submit(&None, 0, 10);
    assert_eq!(p1.proposal_id, 1);
    let c1 = cancel_governance_proposal(Some(p1), 1).unwrap();
    let p2 = submit(&Some(c1), 1, 11);
    assert_eq!(p2.proposal_id, 2);
    assert_eq!(submit_governance_proposal(&None, u64::MAX, addr(1), [0u8; 32], 1).err(), Some(ContractError::Overflow));
}

#[test]
fn ballot_opens_once_and_counts_each_voter_once() {
    assert_eq!(
        open_ballot(true, addr(7), addr(8), addr(1), vec![1, 2], 100).unwrap_err(),
        ContractError::ProposalAlreadyActive
    );
    let ballot = open_ballot(false, addr(7), addr(8), addr(1), vec![1, 2], 100).unwrap();
    assert_eq!((ballot.target, ballot.replacement, ballot.proposer, ballot.proposed_at), (addr(7), addr(8), addr(1), 100));
    assert!(ballot.votes.is_empty());
    assert_eq!(ballot.ipfs_cid, vec![1, 2]);
    let ballot = cast_ballot_vote(Some(ballot), addr(2)).unwrap();
    let ballot = cast_ballot_vote(Some(ballot), addr(3)).unwrap();
    assert_eq!(ballot.votes, vec![addr(2), addr(3)]);
    assert_eq!(cast_ballot_vote(Some(ballot), addr(2)).unwrap_err(), ContractError::AlreadyVoted);
    assert_eq!(cast_ballot_vote(None, addr(2)).unwrap_err(), ContractError::NoActiveProposal);
}

#[test]
fn expired_ballot_is_closed_and_returns_its_proposer() {
    let ballot = open_ballot(false, addr(7), addr(8), addr(1), vec![], 100).unwrap();
    let expiry = 100 + PROPOSAL_TTL_SECONDS;
    assert_eq!(cleanup_expired_proposal(&Some(ballot.clone()), false, expiry - 1), Ok(None));
    assert_eq!(cleanup_expired_proposal(&Some(ballot.clone()), false, expiry), Ok(Some(addr(1))));
    assert_eq!(cleanup_expired_proposal(&Some(ballot), true, expiry + 1), Ok(None));
    assert_eq!(cleanup_expired_proposal(&None, false, expiry), Err(ContractError::NoActiveProposal));
}

#[test]
fn staged_delay_stays_elapsed_once_reached() {
    for t in [200u64, 201, 1_000, u64::MAX] {
        assert!(verify_staged_delay_seconds(100, t, 100));
    }
    for l in [MIN_LEDGER_DELAY + 5, MIN_LEDGER_DELAY + 6, u32::MAX] {
        assert!(verify_staged_delay(5, l));
    }
}
