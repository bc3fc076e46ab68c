//! Depth-32 incremental Merkle tree of private remittance commitments.
//!
//! Each inserted commitment becomes the next leaf; the nodes on its path to
//! the root are recomputed from the stored siblings (an unset node is the
//! zero hash of its level), and the new root joins a ring of the last 100
//! roots, any of which is a known root.
use vstd::prelude::*;

use crate::crypto::{bytes32_eq, sha256, sha256_digest};
use crate::error::ContractError;

verus! {

/// Depth of the tree.
pub const TREE_DEPTH: u32 = 32;
/// Number of recent roots remembered.
pub const ROOT_HISTORY_SIZE: u32 = 100;
/// Number of leaves: 2^32.
pub const TREE_CAPACITY: u64 = 0x1_0000_0000;

/// Storage keys of the tree.
#[derive(Clone, Copy, Debug, PartialEq, Eq, Structural)]
pub enum MerkleStorageKey {
    State,
    Node(u32, u64),
    Zero(u32),
    Root(u32),
}

/// The tree's summary state.
#[derive(Clone, Copy, Debug, PartialEq, Eq)]
pub struct MerkleTreeState {
    pub next_index: u64,
    pub current_root: [u8; 32],
    /// Number of remembered roots (at most `ROOT_HISTORY_SIZE`).
    pub root_count: u32,
    /// Ring slot the next root is written to.
    pub root_cursor: u32,
}

impl MerkleTreeState {
    /// The counters stay within the tree and the ring.
    pub open spec fn wf(&self) -> bool {
        &&& self.next_index <= TREE_CAPACITY
        &&& self.root_count <= ROOT_HISTORY_SIZE
        &&& self.root_cursor < ROOT_HISTORY_SIZE
    }
}

/// The parent of two nodes: SHA-256 of their concatenation.
pub open spec fn hash_pair_spec(left: Seq<u8>, right: Seq<u8>) -> Seq<u8> {
    sha256_digest(left + right)
}

/// The hash of an empty subtree of height `level`.
pub open spec fn zero_node(level: nat) -> Seq<u8>
    decreases level,
{
    if level == 0 {
        Seq::new(32, |i: int| 0u8)
    } else {
        hash_pair_spec(zero_node((level - 1) as nat), zero_node((level - 1) as nat))
    }
}

fn hash_pair(env: &soroban_sdk::Env, left: &[u8; 32], right: &[u8; 32]) -> (r: [u8; 32])
    ensures
        r@ == hash_pair_spec(left@, right@),
{
    let mut payload: Vec<u8> = Vec::new();
    let mut i: usize = 0;
    while i < 32
        invariant
            i <= 32,
            left@.len() == 32,
            payload@ == left@.take(i as int),
        decreases 32 - i,
    {
        payload.push(left[i]);
        i = i + 1;
        assert(left@.take(i as int) =~= left@.take(i as int - 1).push(left@[i as int - 1]));
    }
    assert(left@.take(32) =~= left@);
    let mut j: usize = 0;
    while j < 32
        invariant
            j <= 32,
            right@.len() == 32,
            left@.len() == 32,
            payload@ == left@ + right@.take(j as int),
        decreases 32 - j,
    {
        payload.push(right[j]);
        j = j + 1;
        assert(right@.take(j as int) =~= right@.take(j as int - 1).push(right@[j as int - 1]));
    }
    assert(right@.take(32) =~= right@);
    sha256(env, payload.as_slice())
}

/// The hash of an empty subtree of height `level`.
pub fn zero_hash(env: &soroban_sdk::Env, level: u32) -> (r: [u8; 32])
    ensures
        r@ == zero_node(level as nat),
{
    let mut h: [u8; 32] = [0u8; 32];
    assert(h@ =~= zero_node(0));
    let mut l: u32 = 0;
    while l < level
        invariant
            l <= level,
            h@ == zero_node(l as nat),
        decreases level - l,
    {
        h = hash_pair(env, &h, &h);
        l = l + 1;
    }
    h
}

/// The state of a tree with no leaf.
pub fn empty_state(env: &soroban_sdk::Env) -> (r: MerkleTreeState)
    ensures
        r.wf(),
        r.next_index == 0,
        r.current_root@ == zero_node(TREE_DEPTH as nat),
        r.root_count == 0,
        r.root_cursor == 0,
{
    MerkleTreeState { next_index: 0, current_root: zero_hash(env, TREE_DEPTH), root_count: 0, root_cursor: 0 }
}

/// The node and node index reached after climbing `k` levels from a leaf
/// at `index`, hashing with `siblings[level]` at each level (on the right
/// when the current index is even).
pub open spec fn climb(leaf: Seq<u8>, index: int, siblings: Seq<Seq<u8>>, k: nat) -> (Seq<u8>, int)
    decreases k,
{
    if k == 0 {
        (leaf, index)
    } else {
        let (node, i) = climb(leaf, index, siblings, (k - 1) as nat);
        let sib = siblings[k - 1];
        (if i % 2 == 0 { hash_pair_spec(node, sib) } else { hash_pair_spec(sib, node) }, i / 2)
    }
}

/// The index of the sibling of the node at `index`.
pub open spec fn sibling_of(index: int) -> int {
    if index % 2 == 0 {
        index + 1
    } else {
        index - 1
    }
}

/// For each level, the index of the sibling on the path of leaf `leaf_index`.
pub fn sibling_indices(leaf_index: u64) -> (r: Vec<u64>)
    ensures
        r@.len() == TREE_DEPTH,
        forall|k: int| 0 <= k < TREE_DEPTH ==> #[trigger] r@[k] == sibling_of(
            climb(Seq::empty(), leaf_index as int, Seq::new(32, |i: int| Seq::<u8>::empty()), k as nat).1,
        ),
{
    let ghost sibs = Seq::new(32, |i: int| Seq::<u8>::empty());
    let mut out: Vec<u64> = Vec::new();
    let mut index = leaf_index;
    let mut level: u32 = 0;
    while level < TREE_DEPTH
        invariant
            level <= TREE_DEPTH,
            out@.len() == level,
            index == climb(Seq::empty(), leaf_index as int, sibs, level as nat).1,
            forall|k: int| 0 <= k < level ==> #[trigger] out@[k] == sibling_of(
                climb(Seq::empty(), leaf_index as int, sibs, k as nat).1,
            ),
        decreases TREE_DEPTH - level,
    {
        let s = if index % 2 == 0 { index + 1 } else { index - 1 };
        proof {
            assert(index < u64::MAX || index % 2 == 1);
        }
        out.push(s);
        index = index / 2;
        level = level + 1;
    }
    out
}

/// The outcome of inserting a commitment.
#[derive(Clone, Debug)]
pub struct MerkleInsertion {
    pub leaf_index: u64,
    pub root: [u8; 32],
    /// The recomputed nodes of the path: entry `k` is the node at level
    /// `k + 1`, with its index.
    pub path: Vec<(u64, [u8; 32])>,
    /// The ring slot the new root is written to.
    pub root_slot: u32,
    pub state: MerkleTreeState,
}

/// Inserts `commitment` as the next leaf. `siblings[level]` is the stored
/// node (or the zero hash) at the sibling of the path at that level.
pub fn insert(
    env: &soroban_sdk::Env,
    state: MerkleTreeState,
    commitment: [u8; 32],
    siblings: &Vec<[u8; 32]>,
) -> (r: Result<MerkleInsertion, ContractError>)
    requires
        state.wf(),
        siblings@.len() == TREE_DEPTH,
    ensures
        state.next_index >= TREE_CAPACITY ==> (r matches Err(e) && e == ContractError::MerkleTreeFull),
        state.next_index < TREE_CAPACITY ==> (r matches Ok(ins) && {
            let sibs = siblings@.map_values(|s: [u8; 32]| s@);
            let (root, _) = climb(commitment@, state.next_index as int, sibs, TREE_DEPTH as nat);
            &&& ins.leaf_index == state.next_index
            &&& ins.root@ == root
            &&& ins.path@.len() == TREE_DEPTH
            &&& forall|k: int| 0 <= k < TREE_DEPTH ==> (#[trigger] ins.path@[k]).1@ == climb(
                commitment@,
                state.next_index as int,
                sibs,
                (k + 1) as nat,
            ).0 && ins.path@[k].0 == climb(commitment@, state.next_index as int, sibs, (k + 1) as nat).1
            &&& ins.root_slot == state.root_cursor
            &&& ins.state.wf()
            &&& ins.state.next_index == state.next_index + 1
            &&& ins.state.current_root == ins.root
            &&& ins.state.root_count == (if state.root_count + 1 < ROOT_HISTORY_SIZE {
                state.root_count + 1
            } else {
                ROOT_HISTORY_SIZE as int
            })
            &&& ins.state.root_cursor == (state.root_cursor + 1) % (ROOT_HISTORY_SIZE as int)
        }),
{
    if state.next_index >= TREE_CAPACITY {
        return Err(ContractError::MerkleTreeFull);
    }
    let ghost sibs = siblings@.map_values(|s: [u8; 32]| s@);
    let leaf_index = state.next_index;
    let mut index = leaf_index;
    let mut current = commitment;
    let mut path: Vec<(u64, [u8; 32])> = Vec::new();
    let mut level: u32 = 0;
    while level < TREE_DEPTH
        invariant
            level <= TREE_DEPTH,
            siblings@.len() == TREE_DEPTH,
            sibs == siblings@.map_values(|s: [u8; 32]| s@),
            (current@, index as int) == climb(commitment@, leaf_index as int, sibs, level as nat),
            path@.len() == level,
            forall|k: int| 0 <= k < level ==> (#[trigger] path@[k]).1@ == climb(
                commitment@,
                leaf_index as int,
                sibs,
                (k + 1) as nat,
            ).0 && path@[k].0 == climb(commitment@, leaf_index as int, sibs, (k + 1) as nat).1,
        decreases TREE_DEPTH - level,
    {
        let sibling = siblings[level as usize];
        assert(sibs[level as int] == sibling@);
        current = if index % 2 == 0 {
            hash_pair(env, &current, &sibling)
        } else {
            hash_pair(env, &sibling, &current)
        };
        index = index / 2;
        path.push((index, current));
        level = level + 1;
    }
    let root_slot = state.root_cursor;
    let root_count = if state.root_count + 1 < ROOT_HISTORY_SIZE { state.root_count + 1 } else { ROOT_HISTORY_SIZE };
    let new_state = MerkleTreeState {
        next_index: state.next_index + 1,
        current_root: current,
        root_count,
        root_cursor: (root_slot + 1) % ROOT_HISTORY_SIZE,
    };
    Ok(MerkleInsertion { leaf_index, root: current, path, root_slot, state: new_state })
}

/// The ring slot of the root `offset` places back from the newest.
pub open spec fn history_slot(cursor: u32, offset: int) -> int {
    (cursor + ROOT_HISTORY_SIZE - 1 - offset) % (ROOT_HISTORY_SIZE as int)
}

/// Whether a ring slot holds `root`.
pub open spec fn slot_holds(slot: Option<[u8; 32]>, root: Seq<u8>) -> bool {
    slot matches Some(x) && x@ == root
}

/// Whether `root` is among the remembered roots; `roots[slot]` is the root
/// stored in each ring slot (`None` when unset).
pub fn is_known_root(state: &MerkleTreeState, roots: &Vec<Option<[u8; 32]>>, root: &[u8; 32]) -> (r: bool)
    requires
        state.wf(),
        roots@.len() == ROOT_HISTORY_SIZE,
    ensures
        r == exists|offset: int| 0 <= offset < state.root_count && slot_holds(
            #[trigger] roots@[history_slot(state.root_cursor, offset)],
            root@,
        ),
{
    let mut offset: u32 = 0;
    while offset < state.root_count
        invariant
            offset <= state.root_count,
            state.wf(),
            roots@.len() == ROOT_HISTORY_SIZE,
            forall|o: int| 0 <= o < offset ==> !slot_holds(
                #[trigger] roots@[history_slot(state.root_cursor, o)],
                root@,
            ),
        decreases state.root_count - offset,
    {
        let slot = (state.root_cursor + ROOT_HISTORY_SIZE - 1 - offset) % ROOT_HISTORY_SIZE;
        assert(slot as int == history_slot(state.root_cursor, offset as int));
        match &roots[slot as usize] {
            Some(x) => {
                if bytes32_eq(x, root) {
                    assert(slot_holds(roots@[history_slot(state.root_cursor, offset as int)], root@));
                    return true;
                }
            },
            None => {},
        }
        offset = offset + 1;
    }
    false
}

/// Whether `x` is stored in one of the remembered ring slots.
pub open spec fn remembered(state: MerkleTreeState, roots: Seq<Option<[u8; 32]>>, x: [u8; 32]) -> bool {
    exists|o: int| 0 <= o < state.root_count && #[trigger] roots[history_slot(state.root_cursor, o)] == Some(x)
}

/// The roots held by the `n` newest ring slots, newest first, unset slots
/// skipped.
pub open spec fn newest_roots(state: MerkleTreeState, roots: Seq<Option<[u8; 32]>>, n: int) -> Seq<[u8; 32]>
    decreases n,
{
    if n <= 0 {
        Seq::empty()
    } else {
        let prefix = newest_roots(state, roots, n - 1);
        match roots[history_slot(state.root_cursor, n - 1)] {
            Some(x) => prefix.push(x),
            None => prefix,
        }
    }
}

/// The remembered roots from newest to oldest (unset slots skipped).
pub fn root_history(state: &MerkleTreeState, roots: &Vec<Option<[u8; 32]>>) -> (r: Vec<[u8; 32]>)
    requires
        state.wf(),
        roots@.len() == ROOT_HISTORY_SIZE,
    ensures
        r@ == newest_roots(*state, roots@, state.root_count as int),
        r@.len() <= state.root_count,
        forall|k: int| 0 <= k < r@.len() ==> remembered(*state, roots@, #[trigger] r@[k]),
{
    let mut out: Vec<[u8; 32]> = Vec::new();
    let mut offset: u32 = 0;
    while offset < state.root_count
        invariant
            offset <= state.root_count,
            out@.len() <= offset,
            out@ == newest_roots(*state, roots@, offset as int),
            state.wf(),
            roots@.len() == ROOT_HISTORY_SIZE,
            forall|k: int| 0 <= k < out@.len() ==> remembered(*state, roots@, #[trigger] out@[k]),
        decreases state.root_count - offset,
    {
        let slot = (state.root_cursor + ROOT_HISTORY_SIZE - 1 - offset) % ROOT_HISTORY_SIZE;
        assert(slot as int == history_slot(state.root_cursor, offset as int));
        match roots[slot as usize] {
            Some(x) => {
                assert(roots@[history_slot(state.root_cursor, offset as int)] == Some(x));
                assert(remembered(*state, roots@, x));
                out.push(x);
            },
            None => {},
        }
        offset = offset + 1;
    }
    out
}

/// A root just written by an insertion is a known root of the new state:
/// it sits in the newest ring slot.
pub proof fn lemma_inserted_root_is_known(
    old_state: MerkleTreeState,
    new_state: MerkleTreeState,
    roots: Seq<Option<[u8; 32]>>,
    root: [u8; 32],
)
    requires
        old_state.wf(),
        roots.len() == ROOT_HISTORY_SIZE,
        new_state.root_count == (if old_state.root_count + 1 < ROOT_HISTORY_SIZE {
            old_state.root_count + 1
        } else {
            ROOT_HISTORY_SIZE as int
        }),
        new_state.root_cursor == (old_state.root_cursor + 1) % (ROOT_HISTORY_SIZE as int),
    ensures
        exists|offset: int| 0 <= offset < new_state.root_count && slot_holds(
            #[trigger] roots.update(old_state.root_cursor as int, Some(root))[history_slot(new_state.root_cursor, offset)],
            root@,
        ),
{
    let updated = roots.update(old_state.root_cursor as int, Some(root));
    assert(history_slot(new_state.root_cursor, 0) == old_state.root_cursor);
    assert(updated[history_slot(new_state.root_cursor, 0)] == Some(root));
    assert(slot_holds(updated[history_slot(new_state.root_cursor, 0)], root@));
}

} // verus!
