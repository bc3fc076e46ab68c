//! Relayer quorum for cross-chain unlock payloads.
//!
//! A payload `(source chain, nonce, proof hash, recipient, amount)` is
//! approved when at least `threshold` distinct registered validators signed
//! its SHA-256 digest; every nonce of a source chain is accepted once.
//!
//! The library selects, in order, the signature entries that count: a
//! registered validator not counted before, until the threshold is reached.
//! Each counted signature is then checked with ed25519 against the digest,
//! and any invalid one aborts the whole invocation.
use vstd::prelude::*;

use crate::contract::ContractData;
use crate::crypto::{bytes32_eq, sha256, sha256_digest};
use crate::error::ContractError;
use crate::Address;

verus! {

/// Sets the number of validator signatures a payload needs, as the
/// contract admin; zero is refused.
pub fn configure_threshold(data: Option<ContractData>, admin: Address, threshold: u32) -> (r: Result<
    u32,
    ContractError,
>)
    ensures
        data is None ==> r == Err::<u32, ContractError>(ContractError::NotInitialized),
        data matches Some(d) ==> r == (if d.admin != admin {
            Err::<u32, ContractError>(ContractError::NotAdmin)
        } else if threshold == 0 {
            Err::<u32, ContractError>(ContractError::InvalidProof)
        } else {
            Ok::<u32, ContractError>(threshold)
        }),
{
    match data {
        None => Err(ContractError::NotInitialized),
        Some(d) => if d.admin != admin {
            Err(ContractError::NotAdmin)
        } else if threshold == 0 {
            Err(ContractError::InvalidProof)
        } else {
            Ok(threshold)
        },
    }
}

/// Registers a validator key as the contract admin; `registered` says
/// whether it already is.
pub fn add_validator(data: Option<ContractData>, admin: Address, registered: bool) -> (r: Result<(), ContractError>)
    ensures
        data is None ==> r == Err::<(), ContractError>(ContractError::NotInitialized),
        data matches Some(d) ==> r == (if d.admin != admin {
            Err::<(), ContractError>(ContractError::NotAdmin)
        } else if registered {
            Err::<(), ContractError>(ContractError::AlreadyRegistered)
        } else {
            Ok::<(), ContractError>(())
        }),
{
    match data {
        None => Err(ContractError::NotInitialized),
        Some(d) => if d.admin != admin {
            Err(ContractError::NotAdmin)
        } else if registered {
            Err(ContractError::AlreadyRegistered)
        } else {
            Ok(())
        },
    }
}

/// Removes a validator key as the contract admin; `registered` says
/// whether it is registered.
pub fn remove_validator(data: Option<ContractData>, admin: Address, registered: bool) -> (r: Result<
    (),
    ContractError,
>)
    ensures
        data is None ==> r == Err::<(), ContractError>(ContractError::NotInitialized),
        data matches Some(d) ==> r == (if d.admin != admin {
            Err::<(), ContractError>(ContractError::NotAdmin)
        } else if !registered {
            Err::<(), ContractError>(ContractError::NotRegistered)
        } else {
            Ok::<(), ContractError>(())
        }),
{
    match data {
        None => Err(ContractError::NotInitialized),
        Some(d) => if d.admin != admin {
            Err(ContractError::NotAdmin)
        } else if !registered {
            Err(ContractError::NotRegistered)
        } else {
            Ok(())
        },
    }
}

/// The `n` low bytes of `x`, most significant first.
pub open spec fn be_bytes(x: int, n: nat) -> Seq<u8>
    decreases n,
{
    if n == 0 {
        Seq::empty()
    } else {
        be_bytes(x / 256, (n - 1) as nat).push((x % 256) as u8)
    }
}

/// Big-endian encoding of the `n` low bytes of `x`.
fn be_encode(x: u128, n: usize) -> (r: Vec<u8>)
    ensures
        r@ == be_bytes(x as int, n as nat),
    decreases n,
{
    if n == 0 {
        Vec::new()
    } else {
        let mut v = be_encode(x / 256, n - 1);
        v.push((x % 256) as u8);
        v
    }
}

/// The domain tag that opens every unlock message.
pub open spec fn unlock_domain_tag() -> Seq<u8> {
    seq![
        115u8, 116, 101, 108, 108, 97, 114, 102, 108, 111, 119, 58, 98, 114, 105, 100, 103, 101, 58, 117, 110, 108,
        111, 99, 107, 58, 118, 49,
    ]
}

/// The two's complement bit pattern of an `i128`.
pub open spec fn i128_bits(x: i128) -> int {
    if x >= 0 {
        x as int
    } else {
        x + 0x1_0000_0000_0000_0000_0000_0000_0000_0000
    }
}

/// The signed message of an unlock payload: the domain tag, the source
/// chain (4 bytes), the nonce (8 bytes), the proof hash, the SHA-256 of the
/// recipient's XDR encoding and the amount (16 bytes), all big-endian.
pub open spec fn unlock_message(
    source_chain_id: u32,
    nonce: u64,
    proof_hash: Seq<u8>,
    recipient_xdr: Seq<u8>,
    amount: i128,
) -> Seq<u8> {
    unlock_domain_tag() + be_bytes(source_chain_id as int, 4) + be_bytes(nonce as int, 8) + proof_hash
        + sha256_digest(recipient_xdr) + be_bytes(i128_bits(amount), 16)
}

/// `256^n`: the bound of the values `be_bytes` encodes in `n` bytes.
pub open spec fn byte_bound(n: nat) -> int
    decreases n,
{
    if n == 0 {
        1
    } else {
        256 * byte_bound((n - 1) as nat)
    }
}

proof fn lemma_be_bytes_len(x: int, n: nat)
    ensures
        be_bytes(x, n).len() == n,
    decreases n,
{
    if n > 0 {
        lemma_be_bytes_len(x / 256, (n - 1) as nat);
    }
}

proof fn lemma_be_bytes_injective(x: int, y: int, n: nat)
    requires
        0 <= x < byte_bound(n),
        0 <= y < byte_bound(n),
        be_bytes(x, n) == be_bytes(y, n),
    ensures
        x == y,
    decreases n,
{
    if n > 0 {
        let m = (n - 1) as nat;
        lemma_be_bytes_len(x / 256, m);
        lemma_be_bytes_len(y / 256, m);
        let bx = be_bytes(x, n);
        let by = be_bytes(y, n);
        assert(be_bytes(x / 256, m) =~= bx.drop_last());
        assert(be_bytes(y / 256, m) =~= by.drop_last());
        assert(bx.last() == by.last());
        assert(x % 256 == y % 256);
        assert(0 <= x / 256 < byte_bound(m)) by (nonlinear_arith)
            requires
                0 <= x < 256 * byte_bound(m),
                byte_bound(m) >= 1,
        ;
        assert(0 <= y / 256 < byte_bound(m)) by (nonlinear_arith)
            requires
                0 <= y < 256 * byte_bound(m),
                byte_bound(m) >= 1,
        ;
        lemma_be_bytes_injective(x / 256, y / 256, m);
        assert(x == 256 * (x / 256) + x % 256) by (nonlinear_arith);
        assert(y == 256 * (y / 256) + y % 256) by (nonlinear_arith);
    }
}

proof fn lemma_byte_bound_positive(n: nat)
    ensures
        byte_bound(n) >= 1,
    decreases n,
{
    if n > 0 {
        lemma_byte_bound_positive((n - 1) as nat);
    }
}

/// The signed message of an unlock binds its payload: two payloads for the
/// same recipient whose messages agree come from the same source chain,
/// carry the same nonce and proof hash, and move the same amount. So
/// signatures over one payload authorize no payload that differs in any of
/// them.
pub proof fn lemma_unlock_message_binds_payload(
    chain_a: u32,
    chain_b: u32,
    nonce_a: u64,
    nonce_b: u64,
    hash_a: Seq<u8>,
    hash_b: Seq<u8>,
    recipient_xdr: Seq<u8>,
    amount_a: i128,
    amount_b: i128,
)
    requires
        hash_a.len() == 32,
        hash_b.len() == 32,
        unlock_message(chain_a, nonce_a, hash_a, recipient_xdr, amount_a) == unlock_message(
            chain_b,
            nonce_b,
            hash_b,
            recipient_xdr,
            amount_b,
        ),
    ensures
        chain_a == chain_b,
        nonce_a == nonce_b,
        hash_a == hash_b,
        amount_a == amount_b,
{
    let t = unlock_domain_tag();
    assert(t.len() == 28);
    let d = sha256_digest(recipient_xdr);
    lemma_be_bytes_len(chain_a as int, 4);
    lemma_be_bytes_len(chain_b as int, 4);
    lemma_be_bytes_len(nonce_a as int, 8);
    lemma_be_bytes_len(nonce_b as int, 8);
    lemma_be_bytes_len(i128_bits(amount_a), 16);
    lemma_be_bytes_len(i128_bits(amount_b), 16);
    let ma = unlock_message(chain_a, nonce_a, hash_a, recipient_xdr, amount_a);
    let mb = unlock_message(chain_b, nonce_b, hash_b, recipient_xdr, amount_b);
    let end: int = 72 + d.len() as int;
    assert(ma.len() == end + 16);
    assert(ma.subrange(28, 32) =~= be_bytes(chain_a as int, 4));
    assert(mb.subrange(28, 32) =~= be_bytes(chain_b as int, 4));
    assert(ma.subrange(32, 40) =~= be_bytes(nonce_a as int, 8));
    assert(mb.subrange(32, 40) =~= be_bytes(nonce_b as int, 8));
    assert(ma.subrange(40, 72) =~= hash_a);
    assert(mb.subrange(40, 72) =~= hash_b);
    assert(ma.subrange(end, end + 16) =~= be_bytes(i128_bits(amount_a), 16));
    assert(mb.subrange(end, end + 16) =~= be_bytes(i128_bits(amount_b), 16));
    assert(byte_bound(4) == 0x1_0000_0000 && byte_bound(8) == 0x1_0000_0000_0000_0000 && byte_bound(16)
        == 0x1_0000_0000_0000_0000_0000_0000_0000_0000) by {
        reveal_with_fuel(byte_bound, 17);
    }
    lemma_be_bytes_injective(chain_a as int, chain_b as int, 4);
    lemma_be_bytes_injective(nonce_a as int, nonce_b as int, 8);
    lemma_be_bytes_injective(i128_bits(amount_a), i128_bits(amount_b), 16);
}

fn append(dst: &mut Vec<u8>, src: &[u8])
    ensures
        final(dst)@ == old(dst)@ + src@,
{
    let ghost start = dst@;
    let mut i: usize = 0;
    while i < src.len()
        invariant
            i <= src@.len(),
            dst@ == start + src@.take(i as int),
        decreases src.len() - i,
    {
        dst.push(src[i]);
        i = i + 1;
        assert(src@.take(i as int) =~= src@.take(i as int - 1).push(src@[i as int - 1]));
    }
    assert(src@.take(src@.len() as int) =~= src@);
}

/// The SHA-256 digest of an unlock payload's message; `recipient_xdr` is
/// the XDR encoding of the recipient address.
pub fn bridge_message_digest(
    env: &soroban_sdk::Env,
    source_chain_id: u32,
    nonce: u64,
    proof_hash: &[u8; 32],
    recipient_xdr: &[u8],
    amount: i128,
) -> (r: [u8; 32])
    ensures
        r@ == sha256_digest(unlock_message(source_chain_id, nonce, proof_hash@, recipient_xdr@, amount)),
{
    let mut payload: Vec<u8> = vec![
        115u8, 116, 101, 108, 108, 97, 114, 102, 108, 111, 119, 58, 98, 114, 105, 100, 103, 101, 58, 117, 110, 108,
        111, 99, 107, 58, 118, 49,
    ];
    assert(payload@ =~= unlock_domain_tag());
    let chain = be_encode(source_chain_id as u128, 4);
    append(&mut payload, chain.as_slice());
    let nonce_bytes = be_encode(nonce as u128, 8);
    append(&mut payload, nonce_bytes.as_slice());
    append(&mut payload, proof_hash.as_slice());
    let recipient_hash = sha256(env, recipient_xdr);
    append(&mut payload, recipient_hash.as_slice());
    let bits: u128 = if amount >= 0 {
        amount as u128
    } else {
        (amount + 1 + i128::MAX) as u128 + 0x8000_0000_0000_0000_0000_0000_0000_0000u128
    };
    let amount_bytes = be_encode(bits, 16);
    append(&mut payload, amount_bytes.as_slice());
    assert(payload@ =~= unlock_message(source_chain_id, nonce, proof_hash@, recipient_xdr@, amount));
    sha256(env, payload.as_slice())
}

/// The signature entries counted among the first `k`: in order, a
/// registered validator key not counted before, until `threshold` are.
pub open spec fn counted_prefix(keys: Seq<[u8; 32]>, registered: Seq<bool>, threshold: u32, k: int) -> Seq<int>
    decreases k,
{
    if k <= 0 {
        Seq::empty()
    } else {
        let s = counted_prefix(keys, registered, threshold, k - 1);
        if s.len() >= threshold || !registered[k - 1] || exists|j: int| 0 <= j < s.len() && keys[s[j]]@
            == keys[k - 1]@ {
            s
        } else {
            s.push(k - 1)
        }
    }
}

/// The distinct keys among the first `n` signature entries that belong to
/// registered validators, in order of first appearance.
pub open spec fn registered_signers(keys: Seq<[u8; 32]>, registered: Seq<bool>, n: int) -> Seq<Seq<u8>>
    decreases n,
{
    if n <= 0 {
        Seq::empty()
    } else {
        let d = registered_signers(keys, registered, n - 1);
        if registered[n - 1] && !d.contains(keys[n - 1]@) {
            d.push(keys[n - 1]@)
        } else {
            d
        }
    }
}

/// The validator keys of the counted signature entries `c`.
pub open spec fn counted_keys(keys: Seq<[u8; 32]>, c: Seq<int>) -> Seq<Seq<u8>> {
    c.map_values(|i: int| keys[i]@)
}

/// [`registered_signers`] holds each key once, and exactly the keys of the
/// registered entries among the first `n`; its length is the number of
/// distinct registered keys.
pub proof fn lemma_registered_signers_are_the_distinct_registered_keys(
    keys: Seq<[u8; 32]>,
    registered: Seq<bool>,
    n: int,
)
    requires
        0 <= n <= keys.len(),
        registered.len() == keys.len(),
    ensures
        registered_signers(keys, registered, n).no_duplicates(),
        forall|x: Seq<u8>|
            #![trigger registered_signers(keys, registered, n).contains(x)]
            registered_signers(keys, registered, n).contains(x) <==> exists|i: int|
                0 <= i < n && registered[i] && keys[i]@ == x,
        registered_signers(keys, registered, n).to_set().len() == registered_signers(keys, registered, n).len(),
    decreases n,
{
    let d = registered_signers(keys, registered, n);
    if n > 0 {
        lemma_registered_signers_are_the_distinct_registered_keys(keys, registered, n - 1);
        let p = registered_signers(keys, registered, n - 1);
        assert forall|x: Seq<u8>| d.contains(x) <==> exists|i: int| 0 <= i < n && registered[i] && keys[i]@ == x by {
            if d.contains(x) {
                if p.contains(x) {
                    let i = choose|i: int| 0 <= i < n - 1 && registered[i] && keys[i]@ == x;
                    assert(0 <= i < n && registered[i] && keys[i]@ == x);
                } else {
                    assert(d == p.push(keys[n - 1]@));
                    let j = choose|j: int| 0 <= j < d.len() && d[j] == x;
                    assert(j == p.len());
                    assert(registered[n - 1] && keys[n - 1]@ == x);
                }
            }
            if exists|i: int| 0 <= i < n && registered[i] && keys[i]@ == x {
                let i = choose|i: int| 0 <= i < n && registered[i] && keys[i]@ == x;
                if i < n - 1 {
                    assert(p.contains(x));
                    let j = choose|j: int| 0 <= j < p.len() && p[j] == x;
                    assert(d[j] == x);
                } else if !p.contains(x) {
                    assert(d[p.len() as int] == x);
                } else {
                    let j = choose|j: int| 0 <= j < p.len() && p[j] == x;
                    assert(d[j] == x);
                }
            }
        }
    }
    d.unique_seq_to_set();
}

/// The counted entries are exactly the first registered signers up to the
/// threshold: as many as the threshold or as the distinct registered keys,
/// whichever is fewer, with the keys of those signers in their order.
pub proof fn lemma_counted_are_first_registered_signers(
    keys: Seq<[u8; 32]>,
    registered: Seq<bool>,
    threshold: u32,
    k: int,
)
    requires
        0 <= k <= keys.len(),
        registered.len() == keys.len(),
    ensures
        ({
            let c = counted_prefix(keys, registered, threshold, k);
            let d = registered_signers(keys, registered, k);
            &&& c.len() == (if d.len() < threshold { d.len() } else { threshold as nat })
            &&& counted_keys(keys, c) == d.take(c.len() as int)
        }),
    decreases k,
{
    if k > 0 {
        lemma_counted_are_first_registered_signers(keys, registered, threshold, k - 1);
        let c = counted_prefix(keys, registered, threshold, k - 1);
        let d = registered_signers(keys, registered, k - 1);
        let c2 = counted_prefix(keys, registered, threshold, k);
        let d2 = registered_signers(keys, registered, k);
        let x = keys[k - 1]@;
        let ck = counted_keys(keys, c);
        assert(ck.len() == c.len());
        if c.len() >= threshold {
            assert(c2 == c);
            assert(d2.take(c.len() as int) =~= d.take(c.len() as int));
        } else {
            assert(ck =~= d);
            let seen = exists|j: int| 0 <= j < c.len() && keys[c[j]]@ == x;
            assert(seen <==> d.contains(x)) by {
                if seen {
                    let j = choose|j: int| 0 <= j < c.len() && keys[c[j]]@ == x;
                    assert(ck[j] == x);
                    assert(d[j] == x);
                }
                if d.contains(x) {
                    let j = choose|j: int| 0 <= j < d.len() && d[j] == x;
                    assert(ck[j] == keys[c[j]]@);
                }
            }
            if registered[k - 1] && !seen {
                assert(c2 == c.push(k - 1));
                assert(d2 == d.push(x));
                assert(counted_keys(keys, c2) =~= d2);
                assert(d2.take(c2.len() as int) =~= d2);
            } else {
                assert(c2 == c);
                assert(d2 == d);
                assert(d.take(c.len() as int) =~= d);
            }
        }
    } else {
        assert(counted_keys(keys, counted_prefix(keys, registered, threshold, k)) =~= Seq::<Seq<u8>>::empty());
    }
}

/// The relayer quorum: a payload that passes the first checks is approved
/// exactly when the distinct registered keys among its signature entries
/// reach the threshold; duplicates and unregistered keys add nothing.
pub proof fn lemma_quorum_is_distinct_registered_signers(keys: Seq<[u8; 32]>, registered: Seq<bool>, threshold: u32)
    requires
        registered.len() == keys.len(),
    ensures
        (counted_prefix(keys, registered, threshold, keys.len() as int).len() >= threshold) <==> (registered_signers(
            keys,
            registered,
            keys.len() as int,
        ).to_set().len() >= threshold),
{
    lemma_counted_are_first_registered_signers(keys, registered, threshold, keys.len() as int);
    lemma_registered_signers_are_the_distinct_registered_keys(keys, registered, keys.len() as int);
}

/// A nonce once spent is refused: whatever payload is sent again with it,
/// the first checks refuse it. Since an approval spends its nonce, an
/// approved payload cannot be approved a second time.
pub proof fn lemma_spent_nonce_is_refused(amount: i128, threshold: u32, signature_count: int)
    ensures
        payload_precheck(amount, threshold, signature_count, true) is Some,
{
}

/// An approved payload: its digest and the signature entries to check
/// against it, in order.
#[derive(Clone, Debug)]
pub struct CrossChainApproval {
    pub digest: [u8; 32],
    pub counted: Vec<usize>,
}

/// The refusal of a payload before any signature is counted, if any.
pub open spec fn payload_precheck(amount: i128, threshold: u32, signature_count: int, nonce_spent: bool) -> Option<
    ContractError,
> {
    if amount <= 0 {
        Some(ContractError::AmountTooLow)
    } else if threshold == 0 || signature_count < threshold || nonce_spent {
        Some(ContractError::InvalidProof)
    } else {
        None
    }
}

/// Checks an unlock payload against the relayer quorum. `threshold` is the
/// configured threshold (zero when unset), `nonce_spent` whether the nonce
/// of the source chain was used, `signer_keys` the validator keys of the
/// signature entries and `registered` whether each is a registered
/// validator. An approval spends the nonce (`nonce_spent` becomes true); a
/// refusal leaves it as it was. The signatures of the counted entries must
/// then each verify against the digest, or the whole invocation aborts.
pub fn verify_cross_chain_payload(
    env: &soroban_sdk::Env,
    threshold: u32,
    nonce_spent: &mut bool,
    source_chain_id: u32,
    nonce: u64,
    proof_hash: &[u8; 32],
    recipient_xdr: &[u8],
    amount: i128,
    signer_keys: &Vec<[u8; 32]>,
    registered: &Vec<bool>,
) -> (r: Result<CrossChainApproval, ContractError>)
    requires
        registered@.len() == signer_keys@.len(),
    ensures
        payload_precheck(amount, threshold, signer_keys@.len() as int, *old(nonce_spent)) is Some ==> r == Err::<
            CrossChainApproval,
            ContractError,
        >(payload_precheck(amount, threshold, signer_keys@.len() as int, *old(nonce_spent))->0),
        payload_precheck(amount, threshold, signer_keys@.len() as int, *old(nonce_spent)) is None ==> {
            let counted = counted_prefix(signer_keys@, registered@, threshold, signer_keys@.len() as int);
            if counted.len() < threshold {
                r == Err::<CrossChainApproval, ContractError>(ContractError::InvalidProof)
            } else {
                r is Ok && r->Ok_0.digest@ == sha256_digest(
                    unlock_message(source_chain_id, nonce, proof_hash@, recipient_xdr@, amount),
                ) && r->Ok_0.counted@.map_values(|i: usize| i as int) == counted
            }
        },
        payload_precheck(amount, threshold, signer_keys@.len() as int, *old(nonce_spent)) is None ==> (r is Ok
            <==> registered_signers(signer_keys@, registered@, signer_keys@.len() as int).to_set().len()
            >= threshold),
        r is Ok ==> *final(nonce_spent),
        r is Err ==> *final(nonce_spent) == *old(nonce_spent),
        r is Ok ==> payload_precheck(amount, threshold, signer_keys@.len() as int, *final(nonce_spent)) == Some(
            ContractError::InvalidProof,
        ),
{
    if amount <= 0 {
        return Err(ContractError::BridgeInvalidAmount);
    }
    if threshold == 0 {
        return Err(ContractError::InvalidProof);
    }
    if signer_keys.len() < threshold as usize {
        return Err(ContractError::InvalidProof);
    }
    if *nonce_spent {
        return Err(ContractError::InvalidProof);
    }
    let digest = bridge_message_digest(env, source_chain_id, nonce, proof_hash, recipient_xdr, amount);
    let mut counted: Vec<usize> = Vec::new();
    let mut i: usize = 0;
    while i < signer_keys.len()
        invariant
            i <= signer_keys@.len(),
            registered@.len() == signer_keys@.len(),
            counted@.map_values(|x: usize| x as int) == counted_prefix(
                signer_keys@,
                registered@,
                threshold,
                i as int,
            ),
            forall|j: int| 0 <= j < counted@.len() ==> #[trigger] counted@[j] < i,
        decreases signer_keys.len() - i,
    {
        let ghost s = counted_prefix(signer_keys@, registered@, threshold, i as int);
        if counted.len() < threshold as usize && registered[i] {
            let mut seen = false;
            let mut j: usize = 0;
            while j < counted.len()
                invariant
                    j <= counted@.len(),
                    i < signer_keys@.len(),
                    forall|m: int| 0 <= m < counted@.len() ==> #[trigger] counted@[m] < i,
                    seen == (exists|m: int| 0 <= m < j && signer_keys@[counted@[m] as int]@ == signer_keys@[i as int]@),
                decreases counted.len() - j,
            {
                if bytes32_eq(&signer_keys[counted[j]], &signer_keys[i]) {
                    seen = true;
                }
                j = j + 1;
            }
            proof {
                assert forall|m: int| 0 <= m < s.len() implies s[m] == counted@[m] as int by {
                    assert(counted@.map_values(|x: usize| x as int)[m] == counted@[m] as int);
                }
                if seen {
                    let m = choose|m: int| 0 <= m < counted@.len() && signer_keys@[counted@[m] as int]@
                        == signer_keys@[i as int]@;
                    assert(s[m] == counted@[m] as int);
                } else {
                    assert forall|m: int| 0 <= m < s.len() implies !(signer_keys@[s[m]]@ == signer_keys@[i as int]@) by {
                        assert(s[m] == counted@[m] as int);
                    }
                }
                assert(seen == (exists|m: int| 0 <= m < s.len() && signer_keys@[s[m]]@ == signer_keys@[i as int]@));
            }
            if !seen {
                counted.push(i);
            }
        }
        proof {
            assert(counted@.map_values(|x: usize| x as int) =~= counted_prefix(
                signer_keys@,
                registered@,
                threshold,
                i as int + 1,
            ));
        }
        i = i + 1;
    }
    proof {
        lemma_quorum_is_distinct_registered_signers(signer_keys@, registered@, threshold);
    }
    if counted.len() < threshold as usize {
        return Err(ContractError::InvalidProof);
    }
    *nonce_spent = true;
    Ok(CrossChainApproval { digest, counted })
}

/// The counted entries name registered validators, each key at most once,
/// in increasing entry order, and never more than the threshold.
pub proof fn lemma_counted_signers_distinct(keys: Seq<[u8; 32]>, registered: Seq<bool>, threshold: u32, k: int)
    requires
        0 <= k <= keys.len(),
        registered.len() == keys.len(),
    ensures
        ({
            let c = counted_prefix(keys, registered, threshold, k);
            &&& c.len() <= threshold
            &&& forall|a: int| 0 <= a < c.len() ==> 0 <= #[trigger] c[a] < k && registered[c[a]]
            &&& forall|a: int, b: int| 0 <= a < b < c.len() ==> c[a] < c[b] && keys[c[a]]@ != keys[c[b]]@
        }),
    decreases k,
{
    if k > 0 {
        lemma_counted_signers_distinct(keys, registered, threshold, k - 1);
        let s = counted_prefix(keys, registered, threshold, k - 1);
        let c = counted_prefix(keys, registered, threshold, k);
        if c != s {
            assert forall|a: int, b: int| 0 <= a < b < c.len() implies c[a] < c[b] && keys[c[a]]@ != keys[c[b]]@ by {
                if b == s.len() {
                    assert(c[a] == s[a]);
                    assert(!(keys[s[a]]@ == keys[k - 1]@));
                } else {
                    assert(c[a] == s[a] && c[b] == s[b]);
                }
            }
        }
    }
}

} // verus!
