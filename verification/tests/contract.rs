use stellarflow::contract::{
    cancel_upgrade, cleanup_expired_proposals, execute_upgrade, get_latest_rate, get_upgrade_timelock_remaining,
    set_asset_feed_metrics, set_value, update_heartbeat, upsert_node_profile, NodeProfile, mark_proposal_expired, propose_upgrade, ProposalState,
    ProposalStatus, UPGRADE_DELAY_SECONDS,
    asset_id_to_symbol, dispatch_fiat_payout, get_default_fee_tier_controller, initialize,
    initialize_fee_tier_controller, is_data_fresh, lock_fiat_escrow, open_fiat_escrow, propose_pool_fee_tier_change,
    record_pool_swap_fee, refund_fiat_escrow, register_signer, remove_signer, revocation_threshold,
    set_heartbeat_interval, settle_fiat_escrow, stake_and_register, stake_and_register_for_feed,
    supported_pools, symbol_raw_hash, symbol_to_asset_id, unstake, unstake_from_feed, vote_pool_fee_tier_change,
    vote_revocation, ContractData, FeeTierVoteOutcome, FiatSettlementState, KnownSymbol, RevocationOutcome,
    RevocationProposal, TimeLockedUpgradeContract, DEFAULT_HEARTBEAT_INTERVAL, ID_KES, ID_NGN,
};
use stellarflow::error::ContractError;
use stellarflow::Address;

const ADMIN: Address = Address { hi: 0, lo: 1 };
const NODE: Address = Address { hi: 0, lo: 2 };
const SENDER: Address = Address { hi: 0, lo: 3 };
const ANCHOR: Address = Address { hi: 0, lo: 4 };
const SIGNER: Address = Address { hi: 0, lo: 5 };

fn data() -> Option<ContractData> {
    Some(initialize(false, ADMIN).unwrap())
}

#[test]
fn test_get_data_before_and_after_init() {
    let d = initialize(false, ADMIN).unwrap();
    assert_eq!(d.admin, ADMIN);
    assert_eq!(d.value, 0u64);
    assert_eq!(d.max_fee_ceiling, 10_000);
    assert_eq!(initialize(true, ADMIN), Err(ContractError::AlreadyInitialized));
}

#[test]
fn test_get_data_is_idempotent() {
    let first = initialize(false, ADMIN).unwrap();
    let second = initialize(false, ADMIN).unwrap();
    assert_eq!(first, second);
    assert_eq!(first.value, 0);
}

#[test]
fn test_is_data_fresh_unknown_asset_returns_false() {
    assert!(!is_data_fresh(None, 1_000, DEFAULT_HEARTBEAT_INTERVAL));
}

#[test]
fn test_is_data_fresh_transitions_on_staleness() {
    let beat = update_heartbeat(data(), ADMIN, 1_000).unwrap();
    assert_eq!(beat, 1_000);
    assert!(is_data_fresh(Some(beat), 1_000, DEFAULT_HEARTBEAT_INTERVAL));
    assert!(is_data_fresh(Some(1_000), 1_000 + DEFAULT_HEARTBEAT_INTERVAL, DEFAULT_HEARTBEAT_INTERVAL));
    assert!(!is_data_fresh(Some(1_000), 1_001 + DEFAULT_HEARTBEAT_INTERVAL, DEFAULT_HEARTBEAT_INTERVAL));
}

#[test]
fn test_is_data_fresh_does_not_mutate_heartbeat() {
    let heartbeat = Some(1_000);
    assert!(is_data_fresh(heartbeat, 1_100, DEFAULT_HEARTBEAT_INTERVAL));
    assert!(is_data_fresh(heartbeat, 1_100, DEFAULT_HEARTBEAT_INTERVAL));
    assert!(!is_data_fresh(heartbeat, 2_000, DEFAULT_HEARTBEAT_INTERVAL));
}

#[test]
fn test_query_methods_do_not_interfere() {
    let d = data().unwrap();
    let _ = is_data_fresh(Some(5), 6, 1);
    assert_eq!(d, data().unwrap());
}

#[test]
fn heartbeat_interval_must_be_positive_and_set_by_admin() {
    assert_eq!(set_heartbeat_interval(data(), 0, ADMIN), Err(ContractError::InvalidHeartbeatInterval));
    assert_eq!(set_heartbeat_interval(data(), 60, NODE), Err(ContractError::NotAdmin));
    assert_eq!(set_heartbeat_interval(data(), 60, ADMIN), Ok(60));
}

#[test]
fn main_fee_deduction_matches_fee_module() {
    assert_eq!(TimeLockedUpgradeContract::calculate_and_deduct_fee(10_000, 30), Ok((9_970, 30)));
}

#[test]
fn stake_registry_bookkeeping() {
    let (rec, total) = stake_and_register(false, false, 100, NODE, 50, 7).unwrap();
    assert_eq!((rec.node, rec.amount, rec.registered_at, total), (NODE, 50, 7, 150));
    assert_eq!(stake_and_register(false, true, 100, NODE, 50, 7).err(), Some(ContractError::AlreadyRegistered));
    assert_eq!(stake_and_register(false, false, 100, NODE, 0, 7).err(), Some(ContractError::InvalidStakeAmount));
    assert_eq!(stake_and_register(false, false, u64::MAX, NODE, 1, 7).err(), Some(ContractError::Overflow));
    assert_eq!(unstake(Some(50), 150), Ok((50, 100)));
    assert_eq!(unstake(Some(50), 10), Ok((50, 0)));
    assert_eq!(unstake(None, 10), Err(ContractError::NotRegistered));
}

#[test]
fn feed_stake_round_trip_restores_totals() {
    let t = stake_and_register_for_feed(false, false, 100, 40, 500, 150).unwrap();
    assert_eq!((t.node_total, t.total), (190, 650));
    let u = unstake_from_feed(Some(150), t.node_total, t.total).unwrap();
    assert_eq!((u.amount, u.node_total, u.total), (150, Some(40), 500));
    let fresh = stake_and_register_for_feed(false, false, 100, 0, 0, 150).unwrap();
    let back = unstake_from_feed(Some(150), fresh.node_total, fresh.total).unwrap();
    assert_eq!(back.node_total, None);
}

#[test]
fn feed_stake_errors() {
    assert_eq!(stake_and_register_for_feed(false, false, 100, 0, 0, 0), Err(ContractError::InvalidStakeAmount));
    assert_eq!(stake_and_register_for_feed(false, true, 100, 0, 0, 150), Err(ContractError::FeedAlreadyRegistered));
    assert_eq!(stake_and_register_for_feed(false, false, 100, 0, 0, 99), Err(ContractError::InsufficientStakeForTier));
    assert_eq!(stake_and_register_for_feed(false, false, 100, u64::MAX, 0, 150), Err(ContractError::Overflow));
    assert_eq!(unstake_from_feed(None, 0, 0), Err(ContractError::NotRegistered));
}

#[test]
fn signer_set_registration_and_removal() {
    let mut signers: Vec<Address> = vec![];
    assert_eq!(register_signer(false, data(), ADMIN, &mut signers, SIGNER), Ok(()));
    assert_eq!(register_signer(false, data(), ADMIN, &mut signers, SIGNER), Ok(()));
    assert_eq!(signers, vec![SIGNER]);
    assert_eq!(register_signer(false, data(), NODE, &mut signers, NODE), Err(ContractError::NotAdmin));
    register_signer(false, data(), ADMIN, &mut signers, NODE).unwrap();
    assert_eq!(remove_signer(data(), ADMIN, &mut signers, SIGNER), Ok(()));
    assert_eq!(signers, vec![NODE]);
    assert_eq!(remove_signer(None, ADMIN, &mut signers, NODE), Err(ContractError::NotInitialized));
}

#[test]
fn revocation_replaces_admin_at_majority() {
    assert_eq!(revocation_threshold(0), 1);
    assert_eq!(revocation_threshold(4), 3);
    let p = RevocationProposal { target: ADMIN, replacement: NODE, proposer: SIGNER, proposed_at: 0, votes: vec![] };
    match vote_revocation(false, data(), Some(p.clone()), SIGNER, true, 2, 10, 5).unwrap() {
        RevocationOutcome::Pending(q) => assert_eq!(q.votes, vec![SIGNER]),
        RevocationOutcome::AdminReplaced(_) => panic!("one vote of two signers is no majority"),
    }
    let p2 = RevocationProposal { votes: vec![SIGNER], ..p.clone() };
    match vote_revocation(false, data(), Some(p2.clone()), ADMIN, false, 2, 10, 5).unwrap() {
        RevocationOutcome::AdminReplaced(d) => assert_eq!(d.admin, NODE),
        RevocationOutcome::Pending(_) => panic!("two votes of two signers replace the admin"),
    }
    assert_eq!(vote_revocation(false, data(), Some(p2), SIGNER, true, 2, 10, 5).err(), Some(ContractError::AlreadyVoted));
    assert_eq!(vote_revocation(false, data(), Some(p.clone()), SIGNER, true, 2, 10, 11).err(), Some(ContractError::SignatureExpired));
    assert_eq!(vote_revocation(false, data(), Some(p), SENDER, false, 2, 10, 5).err(), Some(ContractError::Unauthorized));
    assert_eq!(vote_revocation(false, data(), None, SIGNER, true, 2, 10, 5).err(), Some(ContractError::NoActiveProposal));
}

#[test]
fn fiat_escrow_lifecycle() {
    let (e, next) = open_fiat_escrow(0, SENDER, ANCHOR, ID_NGN, 500, 100).unwrap();
    assert_eq!((e.id, next, e.state), (0, 1, FiatSettlementState::Pending));
    assert_eq!(open_fiat_escrow(0, SENDER, ANCHOR, ID_NGN, 0, 100).err(), Some(ContractError::AmountTooLow));
    let locked = lock_fiat_escrow(Some(e), SENDER, 200).unwrap();
    assert_eq!((locked.state, locked.locked_at), (FiatSettlementState::Locked, 200));
    assert_eq!(lock_fiat_escrow(Some(e), ANCHOR, 200).err(), Some(ContractError::Unauthorized));
    let dispatched = dispatch_fiat_payout(Some(locked), ANCHOR, 300).unwrap();
    assert_eq!(dispatched.state, FiatSettlementState::Dispatched);
    let settled = settle_fiat_escrow(Some(dispatched), ANCHOR, 400).unwrap();
    assert_eq!(settled.state, FiatSettlementState::Settled);
    assert_eq!(refund_fiat_escrow(Some(locked), 400).err(), Some(ContractError::DeadlineNotReached));
}

#[test]
fn expired_fiat_escrow_refunds_and_cannot_settle() {
    let (e, _) = open_fiat_escrow(0, SENDER, ANCHOR, ID_NGN, 500, 100).unwrap();
    let locked = lock_fiat_escrow(Some(e), SENDER, 200).unwrap();
    let late = 200 + locked.timeout_secs;
    assert_eq!(settle_fiat_escrow(Some(locked), ANCHOR, late).err(), Some(ContractError::DeadlineReached));
    assert_eq!(refund_fiat_escrow(Some(locked), late).unwrap().state, FiatSettlementState::Refunded);
}

#[test]
fn fee_tier_controller_governance() {
    let ctl = initialize_fee_tier_controller(data(), ADMIN, 30, false).unwrap();
    assert_eq!(ctl, get_default_fee_tier_controller());
    assert_eq!(initialize_fee_tier_controller(data(), ADMIN, 31, false).err(), Some(ContractError::InvalidTierConfig));
    assert_eq!(initialize_fee_tier_controller(data(), ADMIN, 30, true).err(), Some(ContractError::AlreadyInitialized));
    assert_eq!(supported_pools().len(), 6);
    let p = propose_pool_fee_tier_change(data(), ctl, ADMIN, ID_KES, 100, false, 9).unwrap();
    match vote_pool_fee_tier_change(data(), Some(p), ctl, ADMIN, false, 0).unwrap() {
        FeeTierVoteOutcome::Applied(cfg, new_ctl) => {
            assert_eq!(cfg.active_tier_bps, 100);
            assert_eq!(new_ctl.active_tier_bps, 100);
        }
        FeeTierVoteOutcome::Pending(_) => panic!("a single vote meets the threshold without signers"),
    }
}

#[test]
fn pool_swap_fee_splits_eighty_twenty() {
    let ctl = get_default_fee_tier_controller();
    let s = record_pool_swap_fee(data(), ADMIN, ctl, None, ID_KES, 1_001, 5).unwrap();
    assert_eq!((s.collected_lp_fees, s.collected_treasury_fees), (800, 201));
    assert_eq!(record_pool_swap_fee(data(), NODE, ctl, None, ID_KES, 1, 5).err(), Some(ContractError::NotAdmin));
}

#[test]
fn symbol_identifiers() {
    assert_eq!(symbol_to_asset_id(Some(KnownSymbol::NGN), 0), ID_NGN);
    assert_eq!(asset_id_to_symbol(ID_KES), Some(KnownSymbol::KES));
    assert_eq!(asset_id_to_symbol(12345), None);
    assert_eq!(symbol_raw_hash(0x0044_4342), 4185066306);
    assert_eq!(symbol_to_asset_id(None, 0x0044_4342), 4185066306);
    assert_eq!(symbol_raw_hash(0), 2166136261);
}

#[test]
fn upgrade_is_staged_and_waits_for_delay() {
    let staged = propose_upgrade(false, data(), [4u8; 32], ADMIN, 1_000, 2_000, Ok(()), 3, 2).unwrap();
    assert_eq!(staged.execute_at, 1_000 + UPGRADE_DELAY_SECONDS);
    assert_eq!(
        execute_upgrade(data(), ADMIN, 1_000 + UPGRADE_DELAY_SECONDS - 1, u64::MAX, Ok(()), Some(staged)),
        Err(ContractError::UpgradeTimelockNotSatisfied)
    );
    assert_eq!(execute_upgrade(data(), ADMIN, 1_000 + UPGRADE_DELAY_SECONDS, u64::MAX, Ok(()), Some(staged)), Ok(([4u8; 32], None)));
    assert_eq!(execute_upgrade(data(), ADMIN, 5, u64::MAX, Ok(()), None), Err(ContractError::NoPendingUpgrade));
}

#[test]
fn upgrade_proposal_checks_in_order() {
    assert_eq!(propose_upgrade(false, data(), [4u8; 32], ADMIN, 3_000, 2_000, Ok(()), 3, 2).err(), Some(ContractError::SignatureExpired));
    assert_eq!(propose_upgrade(false, data(), [4u8; 32], NODE, 1_000, 2_000, Ok(()), 3, 2).err(), Some(ContractError::NotAdmin));
    assert_eq!(
        propose_upgrade(false, data(), [4u8; 32], ADMIN, 1_000, 2_000, Err(ContractError::InvalidProof), 3, 2).err(),
        Some(ContractError::InvalidProof)
    );
    assert_eq!(propose_upgrade(false, data(), [4u8; 32], ADMIN, 1_000, 2_000, Ok(()), 1, 2).err(), Some(ContractError::ThresholdNotReached));
}

#[test]
fn cleanup_expires_only_stale_active_proposals() {
    let week: u64 = 604_800;
    let now: u64 = 2 * week;
    let active = |at: u64| ProposalState { proposed_at: at, status: ProposalStatus::Active };
    let mut states = vec![
        (10, active(now - week)),
        (11, active(now - week + 1)),
        (12, ProposalState { proposed_at: 0, status: ProposalStatus::Approved }),
        (13, active(0)),
    ];
    let expired = cleanup_expired_proposals(&mut states, now);
    assert_eq!(expired, vec![10, 13]);
    assert_eq!(states[0].1.status, ProposalStatus::Expired);
    assert_eq!(states[1].1, active(now - week + 1));
    assert_eq!(states[2].1.status, ProposalStatus::Approved);
    assert_eq!(states[3].1, mark_proposal_expired(active(0)));
    // A second pass finds nothing left to expire.
    assert!(cleanup_expired_proposals(&mut states, now).is_empty());
}

#[test]
fn heartbeat_is_recorded_by_the_admin_only() {
    assert_eq!(update_heartbeat(data(), ADMIN, 77), Ok(77));
    assert_eq!(update_heartbeat(data(), NODE, 77), Err(ContractError::NotAdmin));
    assert_eq!(update_heartbeat(None, ADMIN, 77), Err(ContractError::NotInitialized));
}

#[test]
fn upgrade_timelock_remaining_counts_down_to_zero() {
    let staged = propose_upgrade(false, data(), [4u8; 32], ADMIN, 1_000, 2_000, Ok(()), 3, 2).unwrap();
    assert_eq!(get_upgrade_timelock_remaining(None, 1_000), None);
    assert_eq!(get_upgrade_timelock_remaining(Some(staged), 1_000), Some(UPGRADE_DELAY_SECONDS));
    assert_eq!(get_upgrade_timelock_remaining(Some(staged), 1_100), Some(UPGRADE_DELAY_SECONDS - 100));
    assert_eq!(get_upgrade_timelock_remaining(Some(staged), 1_000 + UPGRADE_DELAY_SECONDS), Some(0));
    assert_eq!(get_upgrade_timelock_remaining(Some(staged), u64::MAX), Some(0));
    // Zero remaining is exactly when execution goes through.
    assert!(execute_upgrade(data(), ADMIN, 1_000 + UPGRADE_DELAY_SECONDS, u64::MAX, Ok(()), Some(staged)).is_ok());
}

#[test]
fn cancel_upgrade_and_set_value_are_admin_only() {
    assert_eq!(cancel_upgrade(data(), ADMIN), Ok(None));
    assert_eq!(cancel_upgrade(data(), NODE), Err(ContractError::NotAdmin));
    let updated = set_value(data(), 42, ADMIN, 10, 20, Ok(())).unwrap();
    assert_eq!(updated.value, 42);
    assert_eq!(updated.admin, ADMIN);
    assert_eq!(set_value(data(), 42, ADMIN, 21, 20, Ok(())), Err(ContractError::SignatureExpired));
    assert_eq!(set_value(data(), 42, NODE, 10, 20, Ok(())), Err(ContractError::NotAdmin));
    assert_eq!(set_value(data(), 42, ADMIN, 10, 20, Err(ContractError::InvalidNonce)), Err(ContractError::InvalidNonce));
}

#[test]
fn node_profile_rate_needs_confidence() {
    let profile = upsert_node_profile(data(), ADMIN, NODE, 1_500, 80, 9).unwrap();
    assert_eq!(profile, NodeProfile { node: NODE, rate: 1_500, confidence: 80, updated_at: 9 });
    assert_eq!(get_latest_rate(Some(profile)), Ok(1_500));
    assert_eq!(get_latest_rate(Some(NodeProfile { confidence: 0, ..profile })), Err(ContractError::NotRegistered));
    assert_eq!(get_latest_rate(None), Err(ContractError::NotRegistered));
    assert_eq!(upsert_node_profile(data(), NODE, NODE, 1, 1, 1), Err(ContractError::NotAdmin));
}

#[test]
fn feed_metrics_cap_the_volume_score() {
    let m = set_asset_feed_metrics(data(), ADMIN, 250, 40).unwrap();
    assert_eq!((m.volume_score, m.volatility_bps), (100, 40));
    assert_eq!(set_asset_feed_metrics(data(), ADMIN, 35, 40).unwrap().volume_score, 35);
    assert_eq!(set_asset_feed_metrics(data(), NODE, 35, 40), Err(ContractError::NotAdmin));
}

#[test]
fn cancelled_upgrade_cannot_execute() {
    let staged = propose_upgrade(false, data(), [4u8; 32], ADMIN, 1_000, 2_000, Ok(()), 3, 2).unwrap();
    let pending = cancel_upgrade(data(), ADMIN).unwrap();
    assert_eq!(pending, None);
    let late = staged.execute_at + 1;
    assert_eq!(execute_upgrade(data(), ADMIN, late, u64::MAX, Ok(()), pending), Err(ContractError::NoPendingUpgrade));
    // Before the cancellation the same call would have installed it.
    assert_eq!(execute_upgrade(data(), ADMIN, late, u64::MAX, Ok(()), Some(staged)), Ok(([4u8; 32], None)));
}

#[test]
fn executed_upgrade_cannot_run_twice() {
    let staged = propose_upgrade(false, data(), [4u8; 32], ADMIN, 1_000, 2_000, Ok(()), 3, 2).unwrap();
    let (hash, after) = execute_upgrade(data(), ADMIN, staged.execute_at, u64::MAX, Ok(()), Some(staged)).unwrap();
    assert_eq!(hash, [4u8; 32]);
    assert_eq!(after, None);
    assert_eq!(
        execute_upgrade(data(), ADMIN, staged.execute_at + 10, u64::MAX, Ok(()), after),
        Err(ContractError::NoPendingUpgrade)
    );
}

#[test]
fn revoked_addresses_are_refused_in_order() {
    // A zero stake is refused before the revocation is looked at.
    assert_eq!(stake_and_register(true, false, 100, NODE, 0, 7).err(), Some(ContractError::InvalidStakeAmount));
    assert_eq!(stake_and_register(true, false, 100, NODE, 50, 7).err(), Some(ContractError::RevokedAddress));
    assert_eq!(stake_and_register(true, true, 100, NODE, 50, 7).err(), Some(ContractError::RevokedAddress));
    assert_eq!(stake_and_register_for_feed(true, false, 100, 0, 0, 0), Err(ContractError::InvalidStakeAmount));
    assert_eq!(stake_and_register_for_feed(true, true, 100, 0, 0, 150), Err(ContractError::RevokedAddress));

    let mut signers: Vec<Address> = vec![];
    assert_eq!(register_signer(true, data(), ADMIN, &mut signers, SIGNER), Err(ContractError::RevokedAddress));
    assert!(signers.is_empty());

    // An expired signature is reported before the revocation.
    assert_eq!(
        propose_upgrade(true, data(), [4u8; 32], ADMIN, 3_000, 2_000, Ok(()), 3, 2).err(),
        Some(ContractError::SignatureExpired)
    );
    assert_eq!(
        propose_upgrade(true, data(), [4u8; 32], ADMIN, 1_000, 2_000, Ok(()), 3, 2).err(),
        Some(ContractError::RevokedAddress)
    );
    assert_eq!(vote_revocation(true, None, None, SIGNER, true, 2, 10, 11).err(), Some(ContractError::SignatureExpired));
    assert_eq!(vote_revocation(true, None, None, SIGNER, true, 2, 10, 5).err(), Some(ContractError::RevokedAddress));
}
