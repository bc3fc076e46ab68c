//! Eviction of obsolete persistent storage entries.
//!
//! Spent or cancelled limit orders, bridge locks, claimed or refunded HTLCs,
//! released escrows, zero-balance or long-inactive feed stakes and empty
//! corridor fee pools can be pruned to reclaim storage rent. Active orders,
//! unreleased escrows, active HTLCs, live stakes and non-empty pools are
//! never removed. Pruning a feed stake with a balance also releases that
//! balance from the node's registered stake and from the total stake.
//!
//! The entries a batch may touch are held in a [`PruneStore`]: each known
//! record with a `present` flag, the per-node stake registry (a node without
//! stake has amount zero) and the total stake.
use vstd::prelude::*;

use crate::governance::contains_address;

use crate::contract::ContractData;
use crate::error::ContractError;
use crate::{Address, AssetId};

verus! {

/// Settlement state of an HTLC.
#[derive(Clone, Copy, Debug, PartialEq, Eq, Structural)]
pub enum HtlcState {
    Active,
    Claimed,
    Refunded,
}

/// A storage entry considered for eviction.
#[derive(Clone, Copy, Debug, PartialEq, Eq, Structural)]
pub enum PruneTarget {
    /// Limit order by identifier.
    Order(u64),
    /// Bridge token lock by identifier.
    BridgeLock(u64),
    /// Settlement HTLC by identifier.
    Htlc(u64),
    /// Settlement timelock escrow by identifier.
    Escrow(u64),
    /// Regional feed stake of a node for an asset.
    FeedStake(Address, AssetId),
    /// Corridor fee pool of an asset.
    CorridorPool(AssetId),
}

/// What the eviction rules read of a stored record.
#[derive(Clone, Copy, Debug, PartialEq, Eq, Structural)]
pub enum PruneRecord {
    Order { maker: Address, active: bool, remaining_amount: i128 },
    BridgeLock { depositor: Address },
    Htlc { depositor: Address, state: HtlcState },
    Escrow { depositor: Address, released: bool },
    FeedStake { amount: u64, last_active: u64 },
    CorridorPool { collected: u64, variable_pool: u64 },
}

/// A known storage entry; `present` is false once it has been evicted.
#[derive(Clone, Copy, Debug, PartialEq, Eq, Structural)]
pub struct PruneEntry {
    pub target: PruneTarget,
    pub record: PruneRecord,
    pub present: bool,
}

/// A node's registered stake.
#[derive(Clone, Copy, Debug, PartialEq, Eq, Structural)]
pub struct StakeEntry {
    pub node: Address,
    pub amount: u64,
}

/// The storage a prune batch reads and changes.
#[derive(Clone, Debug)]
pub struct PruneStore {
    pub entries: Vec<PruneEntry>,
    pub stakes: Vec<StakeEntry>,
    pub total_staked: u64,
}

/// Which rule a batch evicts by.
#[derive(Clone, Copy, Debug, PartialEq, Eq, Structural)]
pub enum PruneMode {
    /// Obsolete entries: a stake is also stale once inactive for more than
    /// `rent_threshold` seconds at time `now`.
    Obsolete { now: u64, rent_threshold: u32 },
    /// Only zero-balance stakes and empty corridor pools.
    ZeroBalance,
}

/// Whether a record is of the kind its target names.
pub open spec fn record_matches(t: PruneTarget, r: PruneRecord) -> bool {
    match (t, r) {
        (PruneTarget::Order(_), PruneRecord::Order { .. }) => true,
        (PruneTarget::BridgeLock(_), PruneRecord::BridgeLock { .. }) => true,
        (PruneTarget::Htlc(_), PruneRecord::Htlc { .. }) => true,
        (PruneTarget::Escrow(_), PruneRecord::Escrow { .. }) => true,
        (PruneTarget::FeedStake(_, _), PruneRecord::FeedStake { .. }) => true,
        (PruneTarget::CorridorPool(_), PruneRecord::CorridorPool { .. }) => true,
        _ => false,
    }
}

/// Whether `r` may be evicted under `mode`.
pub open spec fn evictable(mode: PruneMode, r: PruneRecord) -> bool {
    match mode {
        PruneMode::Obsolete { now, rent_threshold } => match r {
            PruneRecord::Order { active, remaining_amount, .. } => !active || remaining_amount == 0,
            PruneRecord::BridgeLock { .. } => true,
            PruneRecord::Htlc { state, .. } => state == HtlcState::Claimed || state == HtlcState::Refunded,
            PruneRecord::Escrow { released, .. } => released,
            PruneRecord::FeedStake { amount, last_active } => amount == 0 || (if now >= last_active {
                now - last_active
            } else {
                0
            }) > rent_threshold,
            PruneRecord::CorridorPool { collected, variable_pool } => collected == 0 && variable_pool == 0,
        },
        PruneMode::ZeroBalance => match r {
            PruneRecord::FeedStake { amount, .. } => amount == 0,
            PruneRecord::CorridorPool { collected, variable_pool } => collected == 0 && variable_pool == 0,
            _ => false,
        },
    }
}

/// Distinct targets, each with a record of its kind; distinct stake nodes.
pub open spec fn store_wf(entries: Seq<PruneEntry>, stakes: Seq<StakeEntry>) -> bool {
    &&& forall|i: int, j: int| 0 <= i < j < entries.len() ==> entries[i].target != entries[j].target
    &&& forall|i: int| 0 <= i < entries.len() ==> record_matches(entries[i].target, #[trigger] entries[i].record)
    &&& forall|i: int, j: int| 0 <= i < j < stakes.len() ==> stakes[i].node != stakes[j].node
}

impl PruneStore {
    pub open spec fn wf(&self) -> bool {
        store_wf(self.entries@, self.stakes@)
    }
}

/// The index of `t` among the entries, or -1.
pub open spec fn entry_index(entries: Seq<PruneEntry>, t: PruneTarget) -> int {
    if exists|i: int| 0 <= i < entries.len() && entries[i].target == t {
        choose|i: int| 0 <= i < entries.len() && entries[i].target == t
    } else {
        -1
    }
}

/// The index of `node` in the stake registry, or -1.
pub open spec fn stake_index(stakes: Seq<StakeEntry>, node: Address) -> int {
    if exists|i: int| 0 <= i < stakes.len() && stakes[i].node == node {
        choose|i: int| 0 <= i < stakes.len() && stakes[i].node == node
    } else {
        -1
    }
}

/// `a - b`, floored at zero.
pub open spec fn sat_sub(a: u64, b: u64) -> u64 {
    if a >= b {
        (a - b) as u64
    } else {
        0
    }
}

/// The registry after releasing `amount` from `node`'s stake: the node's
/// entry is lowered, floored at zero, and dropped once nothing is left.
pub open spec fn release_stake(stakes: Seq<StakeEntry>, node: Address, amount: u64) -> Seq<StakeEntry> {
    let j = stake_index(stakes, node);
    if j < 0 {
        stakes
    } else if sat_sub(stakes[j].amount, amount) == 0 {
        stakes.remove(j)
    } else {
        stakes.update(j, StakeEntry { node, amount: sat_sub(stakes[j].amount, amount) })
    }
}

/// The prune state: entries, stake registry, total stake, and the targets
/// evicted so far, in order.
pub type PruneState = (Seq<PruneEntry>, Seq<StakeEntry>, u64, Seq<PruneTarget>);

/// One target of a batch: a present, evictable entry is evicted; evicting a
/// stake with a balance releases it from its node and from the total.
pub open spec fn prune_step(st: PruneState, t: PruneTarget, mode: PruneMode) -> PruneState {
    let (entries, stakes, total, evicted) = st;
    let i = entry_index(entries, t);
    if i < 0 || !entries[i].present || !evictable(mode, entries[i].record) {
        st
    } else {
        let entries2 = entries.update(i, PruneEntry { present: false, ..entries[i] });
        match (t, entries[i].record) {
            (PruneTarget::FeedStake(node, _), PruneRecord::FeedStake { amount, .. }) => if amount > 0 {
                (entries2, release_stake(stakes, node, amount), sat_sub(total, amount), evicted.push(t))
            } else {
                (entries2, stakes, total, evicted.push(t))
            },
            _ => (entries2, stakes, total, evicted.push(t)),
        }
    }
}

/// A batch of targets processed in order.
pub open spec fn prune_fold(st: PruneState, targets: Seq<PruneTarget>, mode: PruneMode) -> PruneState
    decreases targets.len(),
{
    if targets.len() == 0 {
        st
    } else {
        prune_step(prune_fold(st, targets.drop_last(), mode), targets.last(), mode)
    }
}

fn find_entry(entries: &Vec<PruneEntry>, t: PruneTarget) -> (r: Option<usize>)
    requires
        forall|i: int, j: int| 0 <= i < j < entries@.len() ==> entries@[i].target != entries@[j].target,
    ensures
        match r {
            Some(i) => i < entries@.len() && i == entry_index(entries@, t),
            None => entry_index(entries@, t) == -1,
        },
{
    let mut i: usize = 0;
    while i < entries.len()
        invariant
            i <= entries@.len(),
            forall|k: int| 0 <= k < i ==> entries@[k].target != t,
            forall|a: int, b: int| 0 <= a < b < entries@.len() ==> entries@[a].target != entries@[b].target,
        decreases entries.len() - i,
    {
        if entries[i].target == t {
            proof {
                let c = entry_index(entries@, t);
                assert(0 <= c < entries@.len() && entries@[c].target == t);
                if c != i {
                    if c < i {
                    } else {
                        assert(entries@[i as int].target != entries@[c].target);
                    }
                }
            }
            return Some(i);
        }
        i = i + 1;
    }
    None
}

fn find_stake(stakes: &Vec<StakeEntry>, node: Address) -> (r: Option<usize>)
    requires
        forall|i: int, j: int| 0 <= i < j < stakes@.len() ==> stakes@[i].node != stakes@[j].node,
    ensures
        match r {
            Some(i) => i < stakes@.len() && i == stake_index(stakes@, node),
            None => stake_index(stakes@, node) == -1,
        },
{
    let mut i: usize = 0;
    while i < stakes.len()
        invariant
            i <= stakes@.len(),
            forall|k: int| 0 <= k < i ==> stakes@[k].node != node,
            forall|a: int, b: int| 0 <= a < b < stakes@.len() ==> stakes@[a].node != stakes@[b].node,
        decreases stakes.len() - i,
    {
        if stakes[i].node == node {
            proof {
                let c = stake_index(stakes@, node);
                assert(0 <= c < stakes@.len() && stakes@[c].node == node);
                if c > i {
                    assert(stakes@[i as int].node != stakes@[c].node);
                }
            }
            return Some(i);
        }
        i = i + 1;
    }
    None
}

/// Whether `r` may be evicted under `mode`.
pub fn is_evictable(mode: PruneMode, r: &PruneRecord) -> (b: bool)
    ensures
        b == evictable(mode, *r),
{
    match mode {
        PruneMode::Obsolete { now, rent_threshold } => match r {
            PruneRecord::Order { active, remaining_amount, .. } => !*active || *remaining_amount == 0,
            PruneRecord::BridgeLock { .. } => true,
            PruneRecord::Htlc { state, .. } => *state == HtlcState::Claimed || *state == HtlcState::Refunded,
            PruneRecord::Escrow { released, .. } => *released,
            PruneRecord::FeedStake { amount, last_active } => *amount == 0 || now.saturating_sub(*last_active)
                > rent_threshold as u64,
            PruneRecord::CorridorPool { collected, variable_pool } => *collected == 0 && *variable_pool == 0,
        },
        PruneMode::ZeroBalance => match r {
            PruneRecord::FeedStake { amount, .. } => *amount == 0,
            PruneRecord::CorridorPool { collected, variable_pool } => *collected == 0 && *variable_pool == 0,
            _ => false,
        },
    }
}

/// Processes one target against the store, recording it in `evicted` when
/// it is evicted.
fn prune_one(store: &mut PruneStore, evicted: &mut Vec<PruneTarget>, t: PruneTarget, mode: PruneMode)
    requires
        old(store).wf(),
    ensures
        final(store).wf(),
        (final(store).entries@, final(store).stakes@, final(store).total_staked, final(evicted)@) == prune_step(
            (old(store).entries@, old(store).stakes@, old(store).total_staked, old(evicted)@),
            t,
            mode,
        ),
{
    let i = match find_entry(&store.entries, t) {
        Some(i) => i,
        None => return,
    };
    let e = store.entries[i];
    if !e.present || !is_evictable(mode, &e.record) {
        return;
    }
    let ghost old_entries = store.entries@;
    store.entries.set(i, PruneEntry { present: false, ..e });
    proof {
        assert forall|a: int, b: int| 0 <= a < b < store.entries@.len() implies store.entries@[a].target
            != store.entries@[b].target by {
            assert(old_entries[a].target != old_entries[b].target);
        }
        assert forall|a: int| 0 <= a < store.entries@.len() implies record_matches(
            store.entries@[a].target,
            #[trigger] store.entries@[a].record,
        ) by {
            assert(record_matches(old_entries[a].target, old_entries[a].record));
        }
    }
    evicted.push(t);
    match (t, e.record) {
        (PruneTarget::FeedStake(node, _), PruneRecord::FeedStake { amount, .. }) => {
            if amount > 0 {
                match find_stake(&store.stakes, node) {
                    Some(j) => {
                        let rest = store.stakes[j].amount.saturating_sub(amount);
                        let ghost old_stakes = store.stakes@;
                        if rest == 0 {
                            store.stakes.remove(j);
                            proof {
                                assert forall|a: int, b: int| 0 <= a < b < store.stakes@.len() implies store.stakes@[a].node
                                    != store.stakes@[b].node by {
                                    let oa = if a < j { a } else { a + 1 };
                                    let ob = if b < j { b } else { b + 1 };
                                    assert(store.stakes@[a] == old_stakes[oa]);
                                    assert(store.stakes@[b] == old_stakes[ob]);
                                    assert(old_stakes[oa].node != old_stakes[ob].node);
                                }
                            }
                        } else {
                            store.stakes.set(j, StakeEntry { node, amount: rest });
                            proof {
                                assert forall|a: int, b: int| 0 <= a < b < store.stakes@.len() implies store.stakes@[a].node
                                    != store.stakes@[b].node by {
                                    assert(old_stakes[a].node != old_stakes[b].node);
                                }
                            }
                        }
                    },
                    None => {},
                }
                store.total_staked = store.total_staked.saturating_sub(amount);
            }
        },
        _ => {},
    }
}

/// Runs a batch of targets over the store. On success the store holds the
/// result of processing the targets in order, and the evicted targets are
/// returned in eviction order together with their number.
fn prune_batch(store: &mut PruneStore, targets: &Vec<PruneTarget>, mode: PruneMode) -> (r: (u32, Vec<PruneTarget>))
    requires
        old(store).wf(),
        targets@.len() <= u32::MAX,
    ensures
        final(store).wf(),
        (final(store).entries@, final(store).stakes@, final(store).total_staked, r.1@) == prune_fold(
            (old(store).entries@, old(store).stakes@, old(store).total_staked, Seq::empty()),
            targets@,
            mode,
        ),
        r.0 == r.1@.len(),
{
    let mut evicted: Vec<PruneTarget> = Vec::new();
    let ghost init: PruneState = (store.entries@, store.stakes@, store.total_staked, Seq::empty());
    let mut i: usize = 0;
    while i < targets.len()
        invariant
            i <= targets@.len(),
            targets@.len() <= u32::MAX,
            store.wf(),
            evicted@.len() <= i,
            (store.entries@, store.stakes@, store.total_staked, evicted@) == prune_fold(
                init,
                targets@.take(i as int),
                mode,
            ),
        decreases targets.len() - i,
    {
        assert(targets@.take(i as int + 1).drop_last() =~= targets@.take(i as int));
        prune_one(store, &mut evicted, targets[i], mode);
        i = i + 1;
    }
    assert(targets@.take(targets@.len() as int) =~= targets@);
    (evicted.len() as u32, evicted)
}

/// Prunes obsolete storage entries as the contract admin. `rent_threshold`
/// is the inactivity (seconds) after which a feed stake is stale. Returns
/// the number of evicted entries and the evicted targets, in order.
pub fn prune_expired_keys(
    data: Option<ContractData>,
    admin: Address,
    store: &mut PruneStore,
    targets: &Vec<PruneTarget>,
    now: u64,
    rent_threshold: u32,
) -> (r: Result<(u32, Vec<PruneTarget>), ContractError>)
    requires
        old(store).wf(),
        targets@.len() <= u32::MAX,
    ensures
        final(store).wf(),
        data is None ==> (r matches Err(e) && e == ContractError::NotInitialized && *final(store) == *old(store)),
        data matches Some(d) ==> (d.admin != admin ==> (r matches Err(e) && e == ContractError::NotAdmin
            && *final(store) == *old(store))),
        data matches Some(d) ==> (d.admin == admin ==> (r matches Ok(res) && {
            let mode = PruneMode::Obsolete { now, rent_threshold };
            &&& (final(store).entries@, final(store).stakes@, final(store).total_staked, res.1@) == prune_fold(
                (old(store).entries@, old(store).stakes@, old(store).total_staked, Seq::empty()),
                targets@,
                mode,
            )
            &&& res.0 == res.1@.len()
        })),
{
    match data {
        None => return Err(ContractError::NotInitialized),
        Some(d) => {
            if d.admin != admin {
                return Err(ContractError::NotAdmin);
            }
        },
    }
    Ok(prune_batch(store, targets, PruneMode::Obsolete { now, rent_threshold }))
}

/// Whether `s` may co-sign a cleanup: the admin or a registered signer.
pub open spec fn valid_cosigner(admin: Address, registered: Seq<Address>, s: Address) -> bool {
    s == admin || registered.contains(s)
}

/// Whether `signers` holds two distinct valid co-signers.
pub open spec fn cleanup_quorum_met(admin: Address, registered: Seq<Address>, signers: Seq<Address>) -> bool {
    exists|i: int, j: int|
        0 <= i < j < signers.len() && signers[i] != signers[j] && #[trigger] valid_cosigner(
            admin,
            registered,
            signers[i],
        ) && #[trigger] valid_cosigner(admin, registered, signers[j])
}

/// The quorum a zero-balance cleanup needs: the contract must be
/// initialized and at least two distinct co-signers must be the admin or
/// registered signers.
pub fn require_cleanup_quorum(data: Option<ContractData>, registered: &Vec<Address>, signers: &Vec<Address>) -> (r:
    Result<(), ContractError>)
    ensures
        r == (match data {
            None => Err::<(), ContractError>(ContractError::NotInitialized),
            Some(d) => if cleanup_quorum_met(d.admin, registered@, signers@) {
                Ok::<(), ContractError>(())
            } else {
                Err::<(), ContractError>(ContractError::ThresholdNotReached)
            },
        }),
{
    let d = match data {
        None => return Err(ContractError::NotInitialized),
        Some(d) => d,
    };
    let ghost reg = registered@;
    let ghost sg = signers@;
    // The first valid co-signer.
    let mut a: usize = 0;
    while a < signers.len()
        invariant_except_break
            sg == signers@,
            reg == registered@,
            a <= sg.len(),
            forall|k: int| 0 <= k < a ==> !valid_cosigner(d.admin, reg, #[trigger] sg[k]),
        ensures
            sg == signers@,
            reg == registered@,
            a <= sg.len(),
            forall|k: int| 0 <= k < a ==> !valid_cosigner(d.admin, reg, #[trigger] sg[k]),
            a < sg.len() ==> valid_cosigner(d.admin, reg, sg[a as int]),
        decreases signers.len() - a,
    {
        if signers[a] == d.admin || contains_address(registered, signers[a]) {
            break;
        }
        a = a + 1;
    }
    if a == signers.len() {
        proof {
            assert(!cleanup_quorum_met(d.admin, reg, sg)) by {
                if cleanup_quorum_met(d.admin, reg, sg) {
                    let (i, j) = choose|i: int, j: int|
                        0 <= i < j < sg.len() && sg[i] != sg[j] && #[trigger] valid_cosigner(d.admin, reg, sg[i])
                            && #[trigger] valid_cosigner(d.admin, reg, sg[j]);
                    assert(!valid_cosigner(d.admin, reg, sg[i]));
                }
            }
        }
        return Err(ContractError::ThresholdNotReached);
    }
    assert(valid_cosigner(d.admin, reg, sg[a as int]));
    let first = signers[a];
    let mut b: usize = a + 1;
    while b < signers.len()
        invariant
            data == Some(d),
            a < b <= sg.len(),
            sg == signers@,
            reg == registered@,
            first == sg[a as int],
            valid_cosigner(d.admin, reg, first),
            forall|k: int| 0 <= k < a ==> !valid_cosigner(d.admin, reg, #[trigger] sg[k]),
            forall|k: int| a < k < b ==> !(#[trigger] valid_cosigner(d.admin, reg, sg[k]) && sg[k] != first),
        decreases signers.len() - b,
    {
        if signers[b] != first && (signers[b] == d.admin || contains_address(registered, signers[b])) {
            assert(valid_cosigner(d.admin, reg, sg[b as int]));
            assert(valid_cosigner(d.admin, reg, sg[a as int]));
            assert(cleanup_quorum_met(d.admin, reg, sg));
            return Ok(());
        }
        b = b + 1;
    }
    proof {
        assert(!cleanup_quorum_met(d.admin, reg, sg)) by {
            if cleanup_quorum_met(d.admin, reg, sg) {
                let (i, j) = choose|i: int, j: int|
                    0 <= i < j < sg.len() && sg[i] != sg[j] && #[trigger] valid_cosigner(d.admin, reg, sg[i])
                        && #[trigger] valid_cosigner(d.admin, reg, sg[j]);
                if i < a {
                } else if i == a {
                    assert(valid_cosigner(d.admin, reg, sg[j]) && sg[j] != first);
                } else {
                    if sg[j] == first {
                        assert(sg[i] != first);
                    }
                }
            }
        }
    }
    Err(ContractError::ThresholdNotReached)
}

/// A zero-balance cleanup target.
#[derive(Clone, Copy, Debug, PartialEq, Eq, Structural)]
pub enum CleanupTarget {
    FeedStake(Address, AssetId),
    CorridorPool(AssetId),
}

/// The prune target a cleanup target names.
pub open spec fn cleanup_as_prune(t: CleanupTarget) -> PruneTarget {
    match t {
        CleanupTarget::FeedStake(node, asset) => PruneTarget::FeedStake(node, asset),
        CleanupTarget::CorridorPool(asset) => PruneTarget::CorridorPool(asset),
    }
}

/// Removes zero-amount feed stakes and empty corridor pools. Returns how
/// many entries were removed.
fn evict_zero_balances(store: &mut PruneStore, targets: &Vec<CleanupTarget>) -> (r: u32)
    requires
        old(store).wf(),
        targets@.len() <= u32::MAX,
    ensures
        final(store).wf(),
        (final(store).entries@, final(store).stakes@, final(store).total_staked) == ({
            let st = prune_fold(
                (old(store).entries@, old(store).stakes@, old(store).total_staked, Seq::empty()),
                targets@.map_values(|t: CleanupTarget| cleanup_as_prune(t)),
                PruneMode::ZeroBalance,
            );
            (st.0, st.1, st.2)
        }),
        r == prune_fold(
            (old(store).entries@, old(store).stakes@, old(store).total_staked, Seq::empty()),
            targets@.map_values(|t: CleanupTarget| cleanup_as_prune(t)),
            PruneMode::ZeroBalance,
        ).3.len(),
{
    let mut converted: Vec<PruneTarget> = Vec::new();
    let mut i: usize = 0;
    while i < targets.len()
        invariant
            i <= targets@.len(),
            converted@ == targets@.take(i as int).map_values(|t: CleanupTarget| cleanup_as_prune(t)),
        decreases targets.len() - i,
    {
        let t = match targets[i] {
            CleanupTarget::FeedStake(node, asset) => PruneTarget::FeedStake(node, asset),
            CleanupTarget::CorridorPool(asset) => PruneTarget::CorridorPool(asset),
        };
        converted.push(t);
        proof {
            assert(targets@.take(i as int + 1).map_values(|t: CleanupTarget| cleanup_as_prune(t))
                =~= targets@.take(i as int).map_values(|t: CleanupTarget| cleanup_as_prune(t)).push(t));
        }
        i = i + 1;
    }
    assert(targets@.take(targets@.len() as int) =~= targets@);
    let (count, _) = prune_batch(store, &converted, PruneMode::ZeroBalance);
    count
}

/// Batch-evicts zero-amount feed stakes and empty corridor pools, under the
/// multi-signature quorum of [`require_cleanup_quorum`] (`registered` are
/// the registered signers, `signers` the co-signers of the call). Returns
/// how many entries were removed; when refused, nothing changes.
pub fn cleanup_zero_balances(
    data: Option<ContractData>,
    registered: &Vec<Address>,
    signers: &Vec<Address>,
    store: &mut PruneStore,
    targets: &Vec<CleanupTarget>,
) -> (r: Result<u32, ContractError>)
    requires
        old(store).wf(),
        targets@.len() <= u32::MAX,
    ensures
        final(store).wf(),
        match data {
            None => r == Err::<u32, ContractError>(ContractError::NotInitialized) && *final(store) == *old(store),
            Some(d) => if !cleanup_quorum_met(d.admin, registered@, signers@) {
                r == Err::<u32, ContractError>(ContractError::ThresholdNotReached) && *final(store) == *old(store)
            } else {
                let st = prune_fold(
                    (old(store).entries@, old(store).stakes@, old(store).total_staked, Seq::empty()),
                    targets@.map_values(|t: CleanupTarget| cleanup_as_prune(t)),
                    PruneMode::ZeroBalance,
                );
                &&& (final(store).entries@, final(store).stakes@, final(store).total_staked) == (st.0, st.1, st.2)
                &&& r == Ok::<u32, ContractError>(st.3.len() as u32)
            },
        },
{
    match require_cleanup_quorum(data, registered, signers) {
        Err(e) => return Err(e),
        Ok(()) => {},
    }
    Ok(evict_zero_balances(store, targets))
}

/// Lifecycle of a multi-signature proposal's approval state.
#[derive(Clone, Copy, Debug, PartialEq, Eq, Structural)]
pub enum MultisigProposalStatus {
    Pending,
    Expired,
}

/// The approval state of a multi-signature proposal.
#[derive(Clone, Copy, Debug, PartialEq, Eq, Structural)]
pub struct MultisigProposal {
    pub created_at: u64,
    pub approvals: u32,
    pub threshold: u32,
    pub status: MultisigProposalStatus,
}

/// Seven days, in seconds.
pub const MULTISIG_PROPOSAL_LIFETIME: u64 = 604_800;

/// Whether a proposal is still pending at `now` after its seven-day
/// lifetime (counted with saturation) without reaching its threshold.
pub open spec fn multisig_stale(p: MultisigProposal, now: u64) -> bool {
    &&& p.status == MultisigProposalStatus::Pending
    &&& now >= (if p.created_at + MULTISIG_PROPOSAL_LIFETIME > u64::MAX {
        u64::MAX as int
    } else {
        p.created_at + MULTISIG_PROPOSAL_LIFETIME
    })
    &&& p.approvals < p.threshold
}

/// How many of `proposals` are stale at `now`.
pub open spec fn count_multisig_stale(proposals: Seq<MultisigProposal>, now: u64) -> nat
    decreases proposals.len(),
{
    if proposals.len() == 0 {
        0
    } else {
        count_multisig_stale(proposals.drop_last(), now) + if multisig_stale(proposals.last(), now) {
            1nat
        } else {
            0nat
        }
    }
}

/// Expires, under the multi-signature quorum, every listed proposal that
/// stayed pending for seven days without reaching its threshold, and
/// returns how many were expired; when refused, nothing changes.
pub fn cleanup_expired_proposals(
    data: Option<ContractData>,
    registered: &Vec<Address>,
    signers: &Vec<Address>,
    proposals: &mut Vec<MultisigProposal>,
    now: u64,
) -> (r: Result<u32, ContractError>)
    requires
        old(proposals)@.len() <= u32::MAX,
    ensures
        final(proposals)@.len() == old(proposals)@.len(),
        match data {
            None => r == Err::<u32, ContractError>(ContractError::NotInitialized) && final(proposals)@ == old(proposals)@,
            Some(d) => if !cleanup_quorum_met(d.admin, registered@, signers@) {
                r == Err::<u32, ContractError>(ContractError::ThresholdNotReached) && final(proposals)@ == old(proposals)@
            } else {
                &&& r == Ok::<u32, ContractError>(count_multisig_stale(old(proposals)@, now) as u32)
                &&& forall|i: int| 0 <= i < old(proposals)@.len() ==> #[trigger] final(proposals)@[i] == (
                    if multisig_stale(old(proposals)@[i], now) {
                        MultisigProposal { status: MultisigProposalStatus::Expired, ..old(proposals)@[i] }
                    } else {
                        old(proposals)@[i]
                    })
            },
        },
{
    match require_cleanup_quorum(data, registered, signers) {
        Err(e) => return Err(e),
        Ok(()) => {},
    }
    let ghost before = proposals@;
    let mut expired: u32 = 0;
    let mut i: usize = 0;
    while i < proposals.len()
        invariant
            i <= proposals@.len(),
            proposals@.len() == before.len(),
            before.len() <= u32::MAX,
            forall|k: int| 0 <= k < i ==> #[trigger] proposals@[k] == (if multisig_stale(before[k], now) {
                MultisigProposal { status: MultisigProposalStatus::Expired, ..before[k] }
            } else {
                before[k]
            }),
            forall|k: int| i <= k < proposals@.len() ==> #[trigger] proposals@[k] == before[k],
            expired == count_multisig_stale(before.take(i as int), now),
            expired <= i,
        decreases proposals@.len() - i,
    {
        let p = proposals[i];
        proof {
            assert(before.take(i as int + 1).drop_last() =~= before.take(i as int));
        }
        if p.status == MultisigProposalStatus::Pending && now >= p.created_at.saturating_add(MULTISIG_PROPOSAL_LIFETIME)
            && p.approvals < p.threshold {
            proposals.set(i, MultisigProposal { status: MultisigProposalStatus::Expired, ..p });
            expired = expired + 1;
        }
        i = i + 1;
    }
    proof {
        assert(before.take(before.len() as int) =~= before);
    }
    Ok(expired)
}

/// Pruning never evicts what its rule protects: after any batch, an entry
/// that was present and not evictable is still present with the same
/// record, no evicted entry comes back, and every record is unchanged.
pub proof fn lemma_prune_preserves_protected(st: PruneState, targets: Seq<PruneTarget>, mode: PruneMode)
    requires
        store_wf(st.0, st.1),
    ensures
        prune_fold(st, targets, mode).0.len() == st.0.len(),
        forall|i: int| 0 <= i < st.0.len() ==> (#[trigger] prune_fold(st, targets, mode).0[i]).target == st.0[i].target
            && prune_fold(st, targets, mode).0[i].record == st.0[i].record,
        forall|i: int| 0 <= i < st.0.len() && st.0[i].present && !evictable(mode, st.0[i].record) ==> (
        #[trigger] prune_fold(st, targets, mode).0[i]).present,
        forall|i: int| 0 <= i < st.0.len() && !st.0[i].present ==> !(#[trigger] prune_fold(st, targets, mode).0[i]).present,
    decreases targets.len(),
{
    if targets.len() > 0 {
        lemma_prune_preserves_protected(st, targets.drop_last(), mode);
    }
}

} // verus!
