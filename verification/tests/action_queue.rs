use stellarflow::admin::action_queue::{
    cancel_action, execute_action, get_action_timelock_remaining, get_queued_action, queue_admin_action,
    AdminActionQueue, AppliedAdminAction, DynamicFeeConfigParams, FeeCeilingUpdateParams, QueuedActionPayload,
    ADMIN_ACTION_DELAY_SECONDS,
};
use stellarflow::contract::ContractData;
use stellarflow::error::ContractError;
use stellarflow::Address;

const ADMIN: Address = Address { hi: 0, lo: 1 };
const T0: u64 = 1_000;

fn data() -> Option<ContractData> {
    Some(ContractData { admin: ADMIN, value: 0, max_fee_ceiling: 10_000 })
}

fn ceiling_payload(new_ceiling: u64) -> QueuedActionPayload {
    QueuedActionPayload::UpdateFeeCeiling(FeeCeilingUpdateParams { new_ceiling })
}

#[test]
fn queue_fee_ceiling_stores_pending_record() {
    let mut q = AdminActionQueue::new();
    let queued = queue_admin_action(data(), &mut q, ADMIN, ceiling_payload(5_000), T0).expect("should queue");
    assert_eq!(queued.proposer, ADMIN);
    assert_eq!(queued.execute_not_before, queued.queued_at + ADMIN_ACTION_DELAY_SECONDS);
    assert!(get_queued_action(&q, ceiling_payload(0)).is_some());
}

#[test]
fn duplicate_queue_returns_pending_error() {
    let mut q = AdminActionQueue::new();
    queue_admin_action(data(), &mut q, ADMIN, ceiling_payload(5_000), T0).expect("first queue");
    let err = queue_admin_action(data(), &mut q, ADMIN, ceiling_payload(3_000), T0).unwrap_err();
    assert_eq!(err, ContractError::AdminChangePending);
}

#[test]
fn cancel_action_clears_proposal() {
    let mut q = AdminActionQueue::new();
    queue_admin_action(data(), &mut q, ADMIN, ceiling_payload(5_000), T0).expect("queue");
    cancel_action(data(), &mut q, ADMIN, ceiling_payload(0)).expect("cancel");
    assert!(get_queued_action(&q, ceiling_payload(0)).is_none());
    assert_eq!(cancel_action(data(), &mut q, ADMIN, ceiling_payload(0)), Err(ContractError::NoAdminChangePending));
}

#[test]
fn execute_before_delay_returns_timelock_error() {
    let mut q = AdminActionQueue::new();
    queue_admin_action(data(), &mut q, ADMIN, ceiling_payload(5_000), T0).expect("queue");
    let err = execute_action(data(), &mut q, ADMIN, ceiling_payload(0), T0, None).unwrap_err();
    assert_eq!(err, ContractError::AdminTimelockNotSatisfied);
    assert!(get_queued_action(&q, ceiling_payload(0)).is_some());
}

#[test]
fn execute_after_delay_updates_fee_ceiling() {
    let mut q = AdminActionQueue::new();
    queue_admin_action(data(), &mut q, ADMIN, ceiling_payload(5_000), T0).expect("queue");
    let applied = execute_action(data(), &mut q, ADMIN, ceiling_payload(0), T0 + ADMIN_ACTION_DELAY_SECONDS + 1, None)
        .expect("execute should succeed after timelock");
    match applied {
        AppliedAdminAction::FeeCeiling(d) => assert_eq!(d.max_fee_ceiling, 5_000),
        AppliedAdminAction::DynamicFee(..) => panic!("a fee ceiling update was queued"),
    }
    assert!(get_queued_action(&q, ceiling_payload(0)).is_none());
}

#[test]
fn timelock_remaining_decreases_over_time() {
    let mut q = AdminActionQueue::new();
    queue_admin_action(data(), &mut q, ADMIN, ceiling_payload(2_000), T0).expect("queue");
    let remaining = get_action_timelock_remaining(&q, ceiling_payload(0), T0).expect("should have remaining");
    assert_eq!(remaining, ADMIN_ACTION_DELAY_SECONDS);
    let remaining_after = get_action_timelock_remaining(&q, ceiling_payload(0), T0 + 3600).expect("still queued");
    assert_eq!(remaining_after, ADMIN_ACTION_DELAY_SECONDS - 3600);
}

#[test]
fn non_admin_cannot_queue_action() {
    let mut q = AdminActionQueue::new();
    let outsider = Address { hi: 5, lo: 5 };
    let err = queue_admin_action(data(), &mut q, outsider, ceiling_payload(5_000), T0).unwrap_err();
    assert_eq!(err, ContractError::NotAdmin);
}

#[test]
fn fee_config_action_applies_to_dynamic_fee_state() {
    let mut q = AdminActionQueue::new();
    let payload = QueuedActionPayload::UpdateDynamicFeeConfig(DynamicFeeConfigParams {
        asset: 7,
        min_fee_bps: 10,
        max_fee_bps: 50,
        period_seconds: 600,
    });
    queue_admin_action(data(), &mut q, ADMIN, payload, T0).unwrap();
    // The two action types queue independently.
    queue_admin_action(data(), &mut q, ADMIN, ceiling_payload(4_000), T0).unwrap();
    let applied = execute_action(data(), &mut q, ADMIN, payload, T0 + ADMIN_ACTION_DELAY_SECONDS + 1, None).unwrap();
    match applied {
        AppliedAdminAction::DynamicFee(asset, s) => {
            assert_eq!(asset, 7);
            assert_eq!((s.min_fee_bps, s.max_fee_bps, s.period_seconds, s.current_fee_bps), (10, 50, 600, 5));
        }
        AppliedAdminAction::FeeCeiling(_) => panic!("a fee config update was queued"),
    }
    assert!(get_queued_action(&q, ceiling_payload(0)).is_some());
}

#[test]
fn over_cap_ceiling_is_refused_at_execution() {
    let mut q = AdminActionQueue::new();
    queue_admin_action(data(), &mut q, ADMIN, ceiling_payload(20_000), T0).unwrap();
    let r = execute_action(data(), &mut q, ADMIN, ceiling_payload(0), T0 + ADMIN_ACTION_DELAY_SECONDS + 1, None);
    assert_eq!(r, Err(ContractError::FeeCeilingExceeded));
}
