use soroban_sdk::Env;
use stellarflow::action_guard::{
    assert_payload_matches, assert_timelock_expired, execution_timestamp, is_timelock_expired, queue_action,
    timelock_remaining, verify_action_execution, QueuedAction, TIMELOCK_DELAY,
};
use stellarflow::error::ContractError;

const GOVERNANCE_ACTION_V1_SHA256: [u8; 32] = [
    8, 5, 58, 77, 145, 211, 96, 74, 126, 117, 206, 50, 241, 255, 91, 119, 29, 250, 190, 38, 199, 113, 215, 45, 175,
    226, 17, 200, 101, 132, 92, 158,
];

#[test]
fn queue_binds_payload_hash_and_deadline() {
    let env = Env::default();
    let payload = b"governance-action-v1";
    let expected_hash = QueuedAction::hash_payload(&env, payload);
    assert_eq!(expected_hash, GOVERNANCE_ACTION_V1_SHA256);

    let action = queue_action(&env, payload, 1_000).unwrap();
    assert_eq!(action.payload_hash, expected_hash);
    assert_eq!(action.queued_timestamp, 1_000);
    assert_eq!(action.execute_at, 1_000 + TIMELOCK_DELAY);
    assert!(!action.cancelled);
}

#[test]
fn empty_payload_hashes_to_sha256_of_nothing() {
    let env = Env::default();
    let h = QueuedAction::hash_payload(&env, b"");
    assert_eq!(h[0..4], [227, 176, 196, 66]);
    assert_eq!(h[28..32], [120, 82, 184, 85]);
}

#[test]
fn execution_deadline_flows_from_queued_timestamp() {
    let action = QueuedAction {
        payload_hash: [1u8; 32],
        queued_timestamp: 1_000,
        execute_at: execution_timestamp(1_000).unwrap(),
        cancelled: false,
    };
    assert_eq!(action.execute_at, 1_000 + TIMELOCK_DELAY);
}

#[test]
fn deadline_overflow_rejected() {
    assert_eq!(execution_timestamp(u64::MAX), None);
}

#[test]
fn queue_overflow_is_rejected() {
    let env = Env::default();
    assert_eq!(queue_action(&env, b"x", u64::MAX), Err(ContractError::Overflow));
}

#[test]
fn requires_timestamp_to_exceed_deadline() {
    let queued_timestamp = 0;
    let execute_at = queued_timestamp + TIMELOCK_DELAY;
    let action = QueuedAction { payload_hash: [1u8; 32], queued_timestamp, execute_at, cancelled: false };
    assert_eq!(assert_timelock_expired(&action, execute_at), Err(ContractError::TimelockNotExpired));
    assert!(!is_timelock_expired(&action, execute_at));
    assert_eq!(assert_timelock_expired(&action, execute_at + 1), Ok(()));
    assert!(is_timelock_expired(&action, execute_at + 1));
    assert_eq!(timelock_remaining(&action, 100), TIMELOCK_DELAY - 100);
    assert_eq!(timelock_remaining(&action, execute_at + 5), 0);
}

#[test]
fn hash_mismatch_reverts() {
    let queued = [7u8; 32];
    let offered = [9u8; 32];
    let action = QueuedAction { payload_hash: queued, queued_timestamp: 0, execute_at: 0, cancelled: false };
    assert_eq!(assert_payload_matches(&action, &offered), Err(ContractError::PayloadHashMismatch));
    assert_eq!(assert_payload_matches(&action, &queued), Ok(()));
}

#[test]
fn verify_gates_on_timelock_then_hash() {
    let env = Env::default();
    let hash = [3u8; 32];
    assert_eq!(verify_action_execution(None, &hash, 0), Err(ContractError::NotInitialized));

    let queued = queue_action(&env, b"payload", 0).unwrap();
    assert_eq!(verify_action_execution(Some(queued), &hash, 0), Err(ContractError::TimelockNotExpired));

    let now = TIMELOCK_DELAY + 1;
    assert_eq!(verify_action_execution(Some(queued), &hash, now), Err(ContractError::PayloadHashMismatch));

    let correct_hash = queued.payload_hash;
    assert_eq!(correct_hash[0..4], [35, 159, 89, 237]);
    assert_eq!(verify_action_execution(Some(queued), &correct_hash, now), Ok(queued));

    let cancelled = QueuedAction { cancelled: true, ..queued };
    assert_eq!(verify_action_execution(Some(cancelled), &correct_hash, now), Err(ContractError::NoPendingUpgrade));
}
