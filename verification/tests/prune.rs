use stellarflow::admin::prune::{
    cleanup_expired_proposals, cleanup_zero_balances, prune_expired_keys, MultisigProposal, MultisigProposalStatus, require_cleanup_quorum, CleanupTarget, HtlcState, PruneEntry,
    PruneRecord, PruneStore, PruneTarget, StakeEntry,
};
use stellarflow::contract::ContractData;
use stellarflow::error::ContractError;
use stellarflow::Address;

const ADMIN: Address = Address { hi: 0, lo: 1 };
const MAKER: Address = Address { hi: 0, lo: 2 };
const NODE: Address = Address { hi: 0, lo: 3 };
const SIGNER_A: Address = Address { hi: 0, lo: 4 };
const SIGNER_B: Address = Address { hi: 0, lo: 5 };
const NOW: u64 = 1_000_000;
const RENT: u32 = 100_000;

fn data() -> Option<ContractData> {
    Some(ContractData { admin: ADMIN, value: 0, max_fee_ceiling: 10_000 })
}

fn entry(target: PruneTarget, record: PruneRecord) -> PruneEntry {
    PruneEntry { target, record, present: true }
}

fn order(id: u64, active: bool, remaining_amount: i128) -> PruneEntry {
    entry(PruneTarget::Order(id), PruneRecord::Order { maker: MAKER, active, remaining_amount })
}

fn htlc(id: u64, state: HtlcState) -> PruneEntry {
    entry(PruneTarget::Htlc(id), PruneRecord::Htlc { depositor: MAKER, state })
}

fn escrow(id: u64, released: bool) -> PruneEntry {
    entry(PruneTarget::Escrow(id), PruneRecord::Escrow { depositor: MAKER, released })
}

fn feed(node: Address, asset: u32, amount: u64, last_active: u64) -> PruneEntry {
    entry(PruneTarget::FeedStake(node, asset), PruneRecord::FeedStake { amount, last_active })
}

fn pool(asset: u32, collected: u64, variable_pool: u64) -> PruneEntry {
    entry(PruneTarget::CorridorPool(asset), PruneRecord::CorridorPool { collected, variable_pool })
}

fn store(entries: Vec<PruneEntry>) -> PruneStore {
    PruneStore { entries, stakes: vec![StakeEntry { node: NODE, amount: 500 }], total_staked: 500 }
}

fn present(s: &PruneStore, t: PruneTarget) -> bool {
    s.entries.iter().any(|e| e.target == t && e.present)
}

fn prune(s: &mut PruneStore, targets: Vec<PruneTarget>) -> u32 {
    prune_expired_keys(data(), ADMIN, s, &targets, NOW, RENT).unwrap().0
}

#[test]
fn test_prune_spent_and_cancelled_orders_deletes_storage() {
    let mut s = store(vec![order(0, true, 0), order(1, false, 400)]);
    assert_eq!(prune(&mut s, vec![PruneTarget::Order(0), PruneTarget::Order(1)]), 2);
    assert!(!present(&s, PruneTarget::Order(0)));
    assert!(!present(&s, PruneTarget::Order(1)));
}

#[test]
fn test_prune_preserves_active_orders() {
    let mut s = store(vec![order(0, true, 500), order(1, true, 600)]);
    assert_eq!(prune(&mut s, vec![PruneTarget::Order(0), PruneTarget::Order(1)]), 0);
    assert!(present(&s, PruneTarget::Order(0)));
    assert!(present(&s, PruneTarget::Order(1)));
    assert_eq!(s.entries[1].record, PruneRecord::Order { maker: MAKER, active: true, remaining_amount: 600 });
}

#[test]
fn test_prune_bridge_lock_deletes_storage() {
    let mut s = store(vec![entry(PruneTarget::BridgeLock(0), PruneRecord::BridgeLock { depositor: MAKER })]);
    assert_eq!(prune(&mut s, vec![PruneTarget::BridgeLock(0)]), 1);
    assert!(!present(&s, PruneTarget::BridgeLock(0)));
}

#[test]
fn test_prune_htlc_claimed_and_refunded() {
    let mut s = store(vec![htlc(1, HtlcState::Claimed), htlc(2, HtlcState::Refunded), htlc(3, HtlcState::Active)]);
    assert_eq!(prune(&mut s, vec![PruneTarget::Htlc(1), PruneTarget::Htlc(2), PruneTarget::Htlc(3)]), 2);
    assert!(!present(&s, PruneTarget::Htlc(1)));
    assert!(!present(&s, PruneTarget::Htlc(2)));
    assert!(present(&s, PruneTarget::Htlc(3)));
}

#[test]
fn test_prune_released_escrow() {
    let mut s = store(vec![escrow(10, true), escrow(11, false)]);
    assert_eq!(prune(&mut s, vec![PruneTarget::Escrow(10), PruneTarget::Escrow(11)]), 1);
    assert!(!present(&s, PruneTarget::Escrow(10)));
    assert!(present(&s, PruneTarget::Escrow(11)));
}

#[test]
fn test_prune_feed_stake_and_corridor_pool() {
    let mut s = store(vec![feed(NODE, 1, 0, NOW), pool(1, 0, 0)]);
    assert_eq!(prune(&mut s, vec![PruneTarget::FeedStake(NODE, 1), PruneTarget::CorridorPool(1)]), 2);
    assert!(!present(&s, PruneTarget::FeedStake(NODE, 1)));
    assert!(!present(&s, PruneTarget::CorridorPool(1)));
}

#[test]
fn stale_feed_stake_is_released_from_totals() {
    let mut s = store(vec![feed(NODE, 1, 200, 0), feed(NODE, 2, 100, NOW)]);
    assert_eq!(prune(&mut s, vec![PruneTarget::FeedStake(NODE, 1), PruneTarget::FeedStake(NODE, 2)]), 1);
    assert_eq!(s.stakes[0].amount, 300);
    assert_eq!(s.total_staked, 300);
    assert!(present(&s, PruneTarget::FeedStake(NODE, 2)));
}

#[test]
fn test_prune_non_admin_fails() {
    let mut s = store(vec![order(1, false, 0)]);
    let res = prune_expired_keys(data(), MAKER, &mut s, &vec![PruneTarget::Order(1)], NOW, RENT);
    assert_eq!(res.err(), Some(ContractError::NotAdmin));
    assert!(present(&s, PruneTarget::Order(1)));
}

#[test]
fn test_batch_prune_heterogeneous_targets() {
    let mut s = store(vec![order(0, false, 0), order(1, true, 100), escrow(100, true), htlc(200, HtlcState::Claimed)]);
    let (count, evicted) = prune_expired_keys(
        data(),
        ADMIN,
        &mut s,
        &vec![PruneTarget::Order(0), PruneTarget::Order(1), PruneTarget::Escrow(100), PruneTarget::Htlc(200)],
        NOW,
        RENT,
    )
    .unwrap();
    assert_eq!(count, 3);
    assert_eq!(evicted, vec![PruneTarget::Order(0), PruneTarget::Escrow(100), PruneTarget::Htlc(200)]);
    assert!(present(&s, PruneTarget::Order(1)));
}

#[test]
fn test_prune_gas_and_storage_recovery() {
    let mut s = store((0..10).map(|i| order(i, false, 0)).collect());
    let targets: Vec<PruneTarget> = (0..10).map(PruneTarget::Order).collect();
    assert_eq!(prune(&mut s, targets.clone()), 10);
    assert!(s.entries.iter().all(|e| !e.present));
    // A second pass finds nothing left to evict.
    assert_eq!(prune(&mut s, targets), 0);
}

fn quorum_store() -> PruneStore {
    store(vec![feed(NODE, 1, 0, NOW), feed(NODE, 2, 50, NOW), pool(10, 0, 0), pool(11, 0, 5)])
}

fn cleanup(s: &mut PruneStore, signers: Vec<Address>, targets: Vec<CleanupTarget>) -> Result<u32, ContractError> {
    cleanup_zero_balances(data(), &vec![SIGNER_A, SIGNER_B], &signers, s, &targets)
}

#[test]
fn test_cleanup_removes_zero_amount_feed_stake() {
    let mut s = quorum_store();
    assert_eq!(cleanup(&mut s, vec![SIGNER_A, SIGNER_B], vec![CleanupTarget::FeedStake(NODE, 1)]), Ok(1));
    assert!(!present(&s, PruneTarget::FeedStake(NODE, 1)));
}

#[test]
fn test_cleanup_preserves_nonzero_feed_stake() {
    let mut s = quorum_store();
    assert_eq!(cleanup(&mut s, vec![SIGNER_A, SIGNER_B], vec![CleanupTarget::FeedStake(NODE, 2)]), Ok(0));
    assert!(present(&s, PruneTarget::FeedStake(NODE, 2)));
}

#[test]
fn test_cleanup_removes_empty_corridor_pool() {
    let mut s = quorum_store();
    assert_eq!(cleanup(&mut s, vec![SIGNER_A, SIGNER_B], vec![CleanupTarget::CorridorPool(10)]), Ok(1));
    assert!(!present(&s, PruneTarget::CorridorPool(10)));
}

#[test]
fn test_cleanup_preserves_corridor_pool_with_variable_pool() {
    let mut s = quorum_store();
    assert_eq!(cleanup(&mut s, vec![SIGNER_A, SIGNER_B], vec![CleanupTarget::CorridorPool(11)]), Ok(0));
    assert!(present(&s, PruneTarget::CorridorPool(11)));
}

#[test]
fn test_cleanup_rejects_single_signer() {
    let mut s = quorum_store();
    let r = cleanup(&mut s, vec![SIGNER_A], vec![CleanupTarget::FeedStake(NODE, 1)]);
    assert_eq!(r, Err(ContractError::ThresholdNotReached));
    assert!(present(&s, PruneTarget::FeedStake(NODE, 1)));
    // The same signer twice is still one.
    assert_eq!(
        require_cleanup_quorum(data(), &vec![SIGNER_A], &vec![SIGNER_A, SIGNER_A]),
        Err(ContractError::ThresholdNotReached)
    );
    // The admin counts as a co-signer.
    assert_eq!(require_cleanup_quorum(data(), &vec![SIGNER_A], &vec![SIGNER_A, ADMIN]), Ok(()));
}

#[test]
fn test_cleanup_rejects_unregistered_signers() {
    let strangers = vec![Address { hi: 9, lo: 1 }, Address { hi: 9, lo: 2 }];
    assert_eq!(require_cleanup_quorum(data(), &vec![], &strangers), Err(ContractError::ThresholdNotReached));
}

#[test]
fn test_cleanup_noop_on_empty_target_list() {
    let mut s = quorum_store();
    assert_eq!(cleanup(&mut s, vec![SIGNER_A, SIGNER_B], vec![]), Ok(0));
}

#[test]
fn test_cleanup_skips_absent_keys() {
    let mut s = quorum_store();
    let r = cleanup(&mut s, vec![SIGNER_A, SIGNER_B], vec![CleanupTarget::FeedStake(NODE, 99), CleanupTarget::CorridorPool(99)]);
    assert_eq!(r, Ok(0));
}

#[test]
fn test_cleanup_mixed_batch_removes_only_zero_entries() {
    let mut s = quorum_store();
    let r = cleanup(
        &mut s,
        vec![SIGNER_A, SIGNER_B],
        vec![
            CleanupTarget::FeedStake(NODE, 1),
            CleanupTarget::FeedStake(NODE, 2),
            CleanupTarget::CorridorPool(10),
            CleanupTarget::CorridorPool(11),
        ],
    );
    assert_eq!(r, Ok(2));
}

#[test]
fn test_cleanup_fails_when_not_initialized() {
    assert_eq!(require_cleanup_quorum(None, &vec![SIGNER_A], &vec![SIGNER_A, SIGNER_B]), Err(ContractError::NotInitialized));
    let mut s = quorum_store();
    let r = cleanup_zero_balances(None, &vec![SIGNER_A], &vec![SIGNER_A, SIGNER_B], &mut s, &vec![CleanupTarget::FeedStake(NODE, 1)]);
    assert_eq!(r, Err(ContractError::NotInitialized));
    assert!(present(&s, PruneTarget::FeedStake(NODE, 1)));
}

#[test]
fn multisig_proposals_expire_after_seven_days_without_threshold() {
    let week: u64 = 604_800;
    let now: u64 = 2 * week;
    let pending = |created_at: u64, approvals: u32| MultisigProposal {
        created_at,
        approvals,
        threshold: 3,
        status: MultisigProposalStatus::Pending,
    };
    let mut proposals = vec![pending(now - week, 0), pending(now - week + 1, 0), pending(0, 3), pending(u64::MAX - 5, 0)];
    let signers = vec![SIGNER_A, SIGNER_B];
    assert_eq!(cleanup_expired_proposals(data(), &vec![SIGNER_A, SIGNER_B], &signers, &mut proposals, now), Ok(1));
    assert_eq!(proposals[0].status, MultisigProposalStatus::Expired);
    assert_eq!(proposals[1].status, MultisigProposalStatus::Pending);
    assert_eq!(proposals[2].status, MultisigProposalStatus::Pending);
    assert_eq!(proposals[3].status, MultisigProposalStatus::Pending);
    // Expired proposals are not counted twice.
    assert_eq!(cleanup_expired_proposals(data(), &vec![SIGNER_A, SIGNER_B], &signers, &mut proposals, now), Ok(0));
    // A single co-signer is refused and nothing changes.
    let mut fresh = vec![pending(0, 0)];
    assert_eq!(
        cleanup_expired_proposals(data(), &vec![SIGNER_A, SIGNER_B], &vec![SIGNER_A], &mut fresh, now),
        Err(ContractError::ThresholdNotReached)
    );
    assert_eq!(fresh[0].status, MultisigProposalStatus::Pending);
}

#[test]
fn fully_released_node_leaves_the_stake_registry() {
    let mut s = store(vec![feed(NODE, 1, 500, 0)]);
    assert_eq!(prune(&mut s, vec![PruneTarget::FeedStake(NODE, 1)]), 1);
    assert!(s.stakes.is_empty());
    assert_eq!(s.total_staked, 0);
    // More released than the node holds: floored at zero and removed too.
    let mut s = store(vec![feed(NODE, 1, 700, 0)]);
    assert_eq!(prune(&mut s, vec![PruneTarget::FeedStake(NODE, 1)]), 1);
    assert!(s.stakes.is_empty());
}
