//! 48-hour timelock queue for critical administrative actions.
//!
//! A fee-ceiling change or a dynamic fee reconfiguration is queued with
//! `execute_not_before = queued_at + 48h`, may be cancelled by the admin at
//! any time before it runs, and takes effect only when executed after that
//! instant. Each action type has its own queue slot, so different types may
//! be pending together while a second action of a pending type is refused.
use vstd::prelude::*;

use crate::contract::ContractData;
use crate::error::ContractError;
use crate::fees::DynamicFeeState;
use crate::{Address, AssetId};

verus! {

/// Mandatory delay between queueing and executing an admin action: 48 hours.
pub const ADMIN_ACTION_DELAY_SECONDS: u64 = 172_800;
/// Hard cap of the protocol fee ceiling: 10 000 bps.
pub const FEE_CEILING_HARD_CAP: u64 = 10_000;
/// Shortest dynamic fee period accepted at execution: 5 minutes.
pub const MIN_DYNAMIC_FEE_PERIOD_SECONDS: u64 = 300;

/// Parameters of a fee-ceiling update.
#[derive(Clone, Copy, Debug, PartialEq, Eq, Structural)]
pub struct FeeCeilingUpdateParams {
    pub new_ceiling: u64,
}

/// Parameters of a dynamic fee configuration update.
#[derive(Clone, Copy, Debug, PartialEq, Eq, Structural)]
pub struct DynamicFeeConfigParams {
    pub asset: AssetId,
    pub min_fee_bps: u32,
    pub max_fee_bps: u32,
    pub period_seconds: u64,
}

/// The kind of a queued admin action, with its parameters.
#[derive(Clone, Copy, Debug, PartialEq, Eq, Structural)]
pub enum QueuedActionPayload {
    UpdateFeeCeiling(FeeCeilingUpdateParams),
    UpdateDynamicFeeConfig(DynamicFeeConfigParams),
}

/// A queued action with its timelock.
#[derive(Clone, Copy, Debug, PartialEq, Eq, Structural)]
pub struct QueuedAdminAction {
    pub payload: QueuedActionPayload,
    pub proposer: Address,
    pub queued_at: u64,
    /// `queued_at + ADMIN_ACTION_DELAY_SECONDS`.
    pub execute_not_before: u64,
}

/// The queue slot of an action type.
#[derive(Clone, Copy, Debug, PartialEq, Eq, Structural)]
pub enum QueueSlot {
    FeeCeiling,
    FeeChange,
}

/// Both queue slots.
#[derive(Clone, Copy, Debug, PartialEq, Eq, Structural)]
pub struct AdminActionQueue {
    pub fee_ceiling: Option<QueuedAdminAction>,
    pub fee_change: Option<QueuedAdminAction>,
}

impl AdminActionQueue {
    /// Every slot holds only actions of its own type.
    pub open spec fn wf(&self) -> bool {
        &&& (self.fee_ceiling matches Some(a) ==> queue_slot_of(a.payload) == QueueSlot::FeeCeiling)
        &&& (self.fee_change matches Some(a) ==> queue_slot_of(a.payload) == QueueSlot::FeeChange)
    }

    /// The slot holding actions of `payload`'s type.
    pub open spec fn slot(&self, payload: QueuedActionPayload) -> Option<QueuedAdminAction> {
        match queue_slot_of(payload) {
            QueueSlot::FeeCeiling => self.fee_ceiling,
            QueueSlot::FeeChange => self.fee_change,
        }
    }

    /// The queue with `payload`'s slot set to `v`.
    pub open spec fn with_slot(self, payload: QueuedActionPayload, v: Option<QueuedAdminAction>) -> Self {
        match queue_slot_of(payload) {
            QueueSlot::FeeCeiling => AdminActionQueue { fee_ceiling: v, ..self },
            QueueSlot::FeeChange => AdminActionQueue { fee_change: v, ..self },
        }
    }

    /// An empty queue.
    pub fn new() -> (r: Self)
        ensures
            r.fee_ceiling is None,
            r.fee_change is None,
            r.wf(),
    {
        AdminActionQueue { fee_ceiling: None, fee_change: None }
    }

    fn get(&self, slot: QueueSlot) -> (r: Option<QueuedAdminAction>)
        ensures
            r == (match slot {
                QueueSlot::FeeCeiling => self.fee_ceiling,
                QueueSlot::FeeChange => self.fee_change,
            }),
    {
        match slot {
            QueueSlot::FeeCeiling => self.fee_ceiling,
            QueueSlot::FeeChange => self.fee_change,
        }
    }

    fn set(&mut self, slot: QueueSlot, v: Option<QueuedAdminAction>)
        ensures
            *final(self) == (match slot {
                QueueSlot::FeeCeiling => AdminActionQueue { fee_ceiling: v, ..*old(self) },
                QueueSlot::FeeChange => AdminActionQueue { fee_change: v, ..*old(self) },
            }),
    {
        match slot {
            QueueSlot::FeeCeiling => self.fee_ceiling = v,
            QueueSlot::FeeChange => self.fee_change = v,
        }
    }
}

/// The queue slot of a payload's action type.
pub open spec fn queue_slot_of(payload: QueuedActionPayload) -> QueueSlot {
    match payload {
        QueuedActionPayload::UpdateFeeCeiling(_) => QueueSlot::FeeCeiling,
        QueuedActionPayload::UpdateDynamicFeeConfig(_) => QueueSlot::FeeChange,
    }
}

/// The queue slot of a payload's action type.
pub fn queue_storage_key(payload: &QueuedActionPayload) -> (r: QueueSlot)
    ensures
        r == queue_slot_of(*payload),
{
    match payload {
        QueuedActionPayload::UpdateFeeCeiling(_) => QueueSlot::FeeCeiling,
        QueuedActionPayload::UpdateDynamicFeeConfig(_) => QueueSlot::FeeChange,
    }
}

/// The error refusing `caller` as the admin of `data`, if any.
pub open spec fn admin_error(data: Option<ContractData>, caller: Address) -> Option<ContractError> {
    match data {
        None => Some(ContractError::NotInitialized),
        Some(d) => if d.admin != caller {
            Some(ContractError::NotAdmin)
        } else {
            None
        },
    }
}

pub(crate) fn check_admin(data: Option<ContractData>, caller: Address) -> (r: Result<ContractData, ContractError>)
    ensures
        match admin_error(data, caller) {
            Some(e) => r == Err::<ContractData, ContractError>(e),
            None => r == Ok::<ContractData, ContractError>(data->0),
        },
{
    match data {
        None => Err(ContractError::NotInitialized),
        Some(d) => if d.admin != caller {
            Err(ContractError::NotAdmin)
        } else {
            Ok(d)
        },
    }
}

/// Queues an admin action at `now` with the 48-hour timelock.
pub fn queue_admin_action(
    data: Option<ContractData>,
    queue: &mut AdminActionQueue,
    admin: Address,
    payload: QueuedActionPayload,
    now: u64,
) -> (r: Result<QueuedAdminAction, ContractError>)
    requires
        old(queue).wf(),
    ensures
        final(queue).wf(),
        admin_error(data, admin) is Some ==> r == Err::<QueuedAdminAction, ContractError>(
            admin_error(data, admin)->0,
        ) && *final(queue) == *old(queue),
        admin_error(data, admin) is None && old(queue).slot(payload) is Some ==> r == Err::<
            QueuedAdminAction,
            ContractError,
        >(ContractError::AdminChangePending) && *final(queue) == *old(queue),
        admin_error(data, admin) is None && old(queue).slot(payload) is None && now
            + ADMIN_ACTION_DELAY_SECONDS > u64::MAX ==> r == Err::<QueuedAdminAction, ContractError>(
            ContractError::Overflow,
        ) && *final(queue) == *old(queue),
        admin_error(data, admin) is None && old(queue).slot(payload) is None && now
            + ADMIN_ACTION_DELAY_SECONDS <= u64::MAX ==> {
            let a = QueuedAdminAction {
                payload,
                proposer: admin,
                queued_at: now,
                execute_not_before: (now + ADMIN_ACTION_DELAY_SECONDS) as u64,
            };
            r == Ok::<QueuedAdminAction, ContractError>(a) && *final(queue) == old(queue).with_slot(payload, Some(a))
        },
{
    match check_admin(data, admin) {
        Ok(_) => {},
        Err(e) => return Err(e),
    }
    let slot = queue_storage_key(&payload);
    if queue.get(slot).is_some() {
        return Err(ContractError::AdminChangePending);
    }
    let execute_not_before = match now.checked_add(ADMIN_ACTION_DELAY_SECONDS) {
        Some(t) => t,
        None => return Err(ContractError::Overflow),
    };
    let queued = QueuedAdminAction { payload, proposer: admin, queued_at: now, execute_not_before };
    queue.set(slot, Some(queued));
    Ok(queued)
}

/// Cancels the pending action of `payload_type`'s type.
pub fn cancel_action(
    data: Option<ContractData>,
    queue: &mut AdminActionQueue,
    admin: Address,
    payload_type: QueuedActionPayload,
) -> (r: Result<(), ContractError>)
    requires
        old(queue).wf(),
    ensures
        final(queue).wf(),
        admin_error(data, admin) is Some ==> r == Err::<(), ContractError>(admin_error(data, admin)->0)
            && *final(queue) == *old(queue),
        admin_error(data, admin) is None && old(queue).slot(payload_type) is None ==> r == Err::<
            (),
            ContractError,
        >(ContractError::NoAdminChangePending) && *final(queue) == *old(queue),
        admin_error(data, admin) is None && old(queue).slot(payload_type) is Some ==> r is Ok && *final(queue)
            == old(queue).with_slot(payload_type, None),
{
    match check_admin(data, admin) {
        Ok(_) => {},
        Err(e) => return Err(e),
    }
    let slot = queue_storage_key(&payload_type);
    if queue.get(slot).is_none() {
        return Err(ContractError::NoAdminChangePending);
    }
    queue.set(slot, None);
    Ok(())
}

/// The state change an executed admin action makes.
#[derive(Clone, Copy, Debug, PartialEq, Eq, Structural)]
pub enum AppliedAdminAction {
    /// The contract record with its new fee ceiling.
    FeeCeiling(ContractData),
    /// The new dynamic fee state of an asset.
    DynamicFee(AssetId, DynamicFeeState),
}

/// The error that refuses applying `payload`, if any.
pub open spec fn payload_error(payload: QueuedActionPayload) -> Option<ContractError> {
    match payload {
        QueuedActionPayload::UpdateFeeCeiling(p) => if p.new_ceiling > FEE_CEILING_HARD_CAP {
            Some(ContractError::FeeCeilingExceeded)
        } else {
            None
        },
        QueuedActionPayload::UpdateDynamicFeeConfig(p) => if p.min_fee_bps < 1 || p.max_fee_bps > 100
            || p.min_fee_bps >= p.max_fee_bps || p.period_seconds < MIN_DYNAMIC_FEE_PERIOD_SECONDS {
            Some(ContractError::InvalidVarianceConfig)
        } else {
            None
        },
    }
}

/// The state change of a valid payload, applied to the contract record and
/// to the asset's dynamic fee state (`None` when it has none yet).
pub open spec fn applied_change(
    payload: QueuedActionPayload,
    data: ContractData,
    fee_state: Option<DynamicFeeState>,
) -> AppliedAdminAction {
    match payload {
        QueuedActionPayload::UpdateFeeCeiling(p) => AppliedAdminAction::FeeCeiling(
            ContractData { max_fee_ceiling: p.new_ceiling, ..data },
        ),
        QueuedActionPayload::UpdateDynamicFeeConfig(p) => {
            let base = match fee_state {
                Some(s) => s,
                None => DynamicFeeState { min_fee_bps: 5, max_fee_bps: 30, current_fee_bps: 5, period_seconds: 3600 },
            };
            AppliedAdminAction::DynamicFee(
                p.asset,
                DynamicFeeState {
                    min_fee_bps: p.min_fee_bps,
                    max_fee_bps: p.max_fee_bps,
                    period_seconds: p.period_seconds,
                    ..base
                },
            )
        },
    }
}

/// The outcome of `admin` executing the pending action of `payload_type`'s
/// type at `now`.
pub open spec fn execute_outcome(
    data: Option<ContractData>,
    queue: AdminActionQueue,
    admin: Address,
    payload_type: QueuedActionPayload,
    now: u64,
    fee_state: Option<DynamicFeeState>,
) -> Result<AppliedAdminAction, ContractError> {
    match admin_error(data, admin) {
        Some(e) => Err(e),
        None => match queue.slot(payload_type) {
            None => Err(ContractError::NoAdminChangePending),
            Some(q) => if now < q.execute_not_before {
                Err(ContractError::AdminTimelockNotSatisfied)
            } else {
                match payload_error(q.payload) {
                    Some(e) => Err(e),
                    None => Ok(applied_change(q.payload, data->0, fee_state)),
                }
            },
        },
    }
}

/// Executes the pending action of `payload_type`'s type once its timelock
/// has passed. `fee_state` is the dynamic fee state of the asset a fee
/// reconfiguration targets. On success the slot is emptied and the change to
/// store is returned; on failure the queue is unchanged.
pub fn execute_action(
    data: Option<ContractData>,
    queue: &mut AdminActionQueue,
    admin: Address,
    payload_type: QueuedActionPayload,
    now: u64,
    fee_state: Option<DynamicFeeState>,
) -> (r: Result<AppliedAdminAction, ContractError>)
    requires
        old(queue).wf(),
    ensures
        final(queue).wf(),
        r is Err ==> *final(queue) == *old(queue),
        r == execute_outcome(data, *old(queue), admin, payload_type, now, fee_state),
        r is Ok ==> *final(queue) == old(queue).with_slot(payload_type, None),
{
    let d = match check_admin(data, admin) {
        Ok(d) => d,
        Err(e) => return Err(e),
    };
    let slot = queue_storage_key(&payload_type);
    let queued = match queue.get(slot) {
        Some(q) => q,
        None => return Err(ContractError::NoAdminChangePending),
    };
    if now < queued.execute_not_before {
        return Err(ContractError::AdminTimelockNotSatisfied);
    }
    let applied = match apply_queued_action(&queued.payload, d, fee_state) {
        Ok(a) => a,
        Err(e) => return Err(e),
    };
    queue.set(slot, None);
    Ok(applied)
}

/// The state change of a payload, or its refusal.
fn apply_queued_action(
    payload: &QueuedActionPayload,
    data: ContractData,
    fee_state: Option<DynamicFeeState>,
) -> (r: Result<AppliedAdminAction, ContractError>)
    ensures
        match payload_error(*payload) {
            Some(e) => r == Err::<AppliedAdminAction, ContractError>(e),
            None => r == Ok::<AppliedAdminAction, ContractError>(applied_change(*payload, data, fee_state)),
        },
{
    match payload {
        QueuedActionPayload::UpdateFeeCeiling(p) => {
            if p.new_ceiling > FEE_CEILING_HARD_CAP {
                return Err(ContractError::FeeCeilingExceeded);
            }
            Ok(AppliedAdminAction::FeeCeiling(ContractData { max_fee_ceiling: p.new_ceiling, ..data }))
        },
        QueuedActionPayload::UpdateDynamicFeeConfig(p) => {
            if p.min_fee_bps < 1 || p.max_fee_bps > 100 || p.min_fee_bps >= p.max_fee_bps {
                return Err(ContractError::InvalidVarianceConfig);
            }
            if p.period_seconds < MIN_DYNAMIC_FEE_PERIOD_SECONDS {
                return Err(ContractError::InvalidVarianceConfig);
            }
            let mut state = match fee_state {
                Some(s) => s,
                None => DynamicFeeState::new(),
            };
            state.min_fee_bps = p.min_fee_bps;
            state.max_fee_bps = p.max_fee_bps;
            state.period_seconds = p.period_seconds;
            Ok(AppliedAdminAction::DynamicFee(p.asset, state))
        },
    }
}

/// The pending action of `payload_type`'s type.
pub fn get_queued_action(queue: &AdminActionQueue, payload_type: QueuedActionPayload) -> (r: Option<QueuedAdminAction>)
    ensures
        r == queue.slot(payload_type),
{
    queue.get(queue_storage_key(&payload_type))
}

/// Seconds left at `now` before a queued action may execute: zero once it
/// may.
pub open spec fn action_delay_left(q: QueuedAdminAction, now: u64) -> int {
    if q.execute_not_before > now {
        q.execute_not_before - now
    } else {
        0
    }
}

/// Seconds before the pending action of `payload_type`'s type may execute
/// (zero once it may); `None` when none is pending.
pub fn get_action_timelock_remaining(queue: &AdminActionQueue, payload_type: QueuedActionPayload, now: u64) -> (r:
    Option<u64>)
    ensures
        match queue.slot(payload_type) {
            None => r is None,
            Some(q) => r == Some(action_delay_left(q, now) as u64),
        },
{
    match get_queued_action(queue, payload_type) {
        Some(q) => Some(q.execute_not_before.saturating_sub(now)),
        None => None,
    }
}

/// A queued action waits its full delay: before 48 hours have passed since
/// it was queued, the admin's execution of it is refused.
pub proof fn lemma_queued_action_waits_full_delay(
    data: Option<ContractData>,
    queue: AdminActionQueue,
    admin: Address,
    a: QueuedAdminAction,
    now: u64,
    fee_state: Option<DynamicFeeState>,
)
    requires
        admin_error(data, admin) is None,
        queue.slot(a.payload) == Some(a),
        a.execute_not_before == a.queued_at + ADMIN_ACTION_DELAY_SECONDS,
        now < a.queued_at + ADMIN_ACTION_DELAY_SECONDS,
    ensures
        execute_outcome(data, queue, admin, a.payload, now, fee_state) == Err::<AppliedAdminAction, ContractError>(
            ContractError::AdminTimelockNotSatisfied,
        ),
{
}

/// Queueing one action type leaves the other type's slot untouched, so
/// actions of different types can be pending together.
pub proof fn lemma_slots_independent(queue: AdminActionQueue, p: QueuedActionPayload, other: QueuedActionPayload, v: Option<
    QueuedAdminAction,
>)
    requires
        queue_slot_of(p) != queue_slot_of(other),
    ensures
        queue.with_slot(p, v).slot(other) == queue.slot(other),
        queue.with_slot(p, v).slot(p) == v,
{
}

/// A cancelled action can no longer be executed: with its slot emptied,
/// the admin's execution is refused as having nothing pending.
pub proof fn lemma_cancelled_action_is_gone(
    data: Option<ContractData>,
    queue: AdminActionQueue,
    admin: Address,
    p: QueuedActionPayload,
    now: u64,
    fee_state: Option<DynamicFeeState>,
)
    requires
        admin_error(data, admin) is None,
    ensures
        execute_outcome(data, queue.with_slot(p, None), admin, p, now, fee_state) == Err::<
            AppliedAdminAction,
            ContractError,
        >(ContractError::NoAdminChangePending),
{
}

/// The remaining delay of a queued action only shrinks as time passes, and
/// it reaches zero exactly when the timelock no longer refuses the admin's
/// execution.
pub proof fn lemma_remaining_delay_counts_down(
    data: Option<ContractData>,
    queue: AdminActionQueue,
    admin: Address,
    q: QueuedAdminAction,
    earlier: u64,
    later: u64,
    fee_state: Option<DynamicFeeState>,
)
    requires
        earlier <= later,
        admin_error(data, admin) is None,
        queue.slot(q.payload) == Some(q),
    ensures
        action_delay_left(q, later) <= action_delay_left(q, earlier),
        (action_delay_left(q, later) == 0) == (execute_outcome(data, queue, admin, q.payload, later, fee_state)
            != Err::<AppliedAdminAction, ContractError>(ContractError::AdminTimelockNotSatisfied)),
{
}

} // verus!
