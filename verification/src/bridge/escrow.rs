//! Native token escrow of the bridge.
//!
//! Locking moves tokens into the vault and records a lock for the target
//! chain; unlocking, once the relayer quorum has approved the proof, pays
//! tokens out. The tracked vault balance grows by every locked amount and
//! shrinks by every unlocked amount, and can never go negative.
use vstd::prelude::*;

use crate::contract::ContractData;
use crate::error::ContractError;
use crate::Address;

verus! {

/// The escrowed native token.
#[derive(Clone, Copy, Debug, PartialEq, Eq, Structural)]
pub struct BridgeEscrowConfig {
    pub native_token: Address,
}

/// A lock of tokens for delivery on another chain.
#[derive(Clone, Copy, Debug, PartialEq, Eq, Structural)]
pub struct TokenLock {
    pub id: u64,
    pub depositor: Address,
    pub token: Address,
    pub amount: i128,
    pub target_chain_id: u32,
    pub recipient_address: Address,
    pub locked_at_ledger: u32,
}

/// A relayed proof that tokens may be released.
#[derive(Clone, Copy, Debug, PartialEq, Eq)]
pub struct UnlockProof {
    pub proof_hash: [u8; 32],
    pub source_chain_id: u32,
    pub recipient: Address,
    pub amount: i128,
}

/// Storage keys of the escrow.
#[derive(Clone, Copy, Debug, PartialEq, Eq, Structural)]
pub enum BridgeEscrowStorageKey {
    Config,
    NextLockId,
    Lock(u64),
    VaultBalance(Address),
}

/// The tracked vault balance and the next lock identifier.
#[derive(Clone, Copy, Debug, PartialEq, Eq, Structural)]
pub struct EscrowVault {
    pub balance: i128,
    pub next_lock_id: u64,
}

/// `current + delta`, refusing overflow.
pub fn checked_add_balance(current: i128, delta: i128) -> (r: Result<i128, ContractError>)
    ensures
        i128::MIN <= current + delta <= i128::MAX ==> r == Ok::<i128, ContractError>((current + delta) as i128),
        !(i128::MIN <= current + delta <= i128::MAX) ==> r == Err::<i128, ContractError>(ContractError::Overflow),
{
    match current.checked_add(delta) {
        Some(v) => Ok(v),
        None => Err(ContractError::MathOverflow),
    }
}

/// `current - delta`, refusing to take more than is there.
pub fn checked_sub_balance(current: i128, delta: i128) -> (r: Result<i128, ContractError>)
    ensures
        delta > current ==> r == Err::<i128, ContractError>(ContractError::Overflow),
        delta <= current && current - delta <= i128::MAX ==> r == Ok::<i128, ContractError>((current - delta) as i128),
        delta <= current && current - delta > i128::MAX ==> r == Err::<i128, ContractError>(ContractError::Overflow),
{
    if delta > current {
        return Err(ContractError::BridgeInsufficientBalance);
    }
    match current.checked_sub(delta) {
        Some(v) => Ok(v),
        None => Err(ContractError::MathOverflow),
    }
}

/// Sets the escrowed native token as the contract admin.
pub fn configure(data: Option<ContractData>, admin: Address, native_token: Address) -> (r: Result<
    BridgeEscrowConfig,
    ContractError,
>)
    ensures
        data is None ==> r == Err::<BridgeEscrowConfig, ContractError>(ContractError::NotInitialized),
        data matches Some(d) ==> r == (if d.admin != admin {
            Err::<BridgeEscrowConfig, ContractError>(ContractError::NotAdmin)
        } else {
            Ok::<BridgeEscrowConfig, ContractError>(BridgeEscrowConfig { native_token })
        }),
{
    match data {
        None => Err(ContractError::NotInitialized),
        Some(d) => if d.admin != admin {
            Err(ContractError::NotAdmin)
        } else {
            Ok(BridgeEscrowConfig { native_token })
        },
    }
}

/// Locks `amount` of the native token from `depositor` for
/// `recipient_address` on `target_chain_id` at ledger `ledger`.
pub fn lock_tokens(
    config: Option<BridgeEscrowConfig>,
    vault: &mut EscrowVault,
    depositor: Address,
    amount: i128,
    target_chain_id: u32,
    recipient_address: Address,
    ledger: u32,
) -> (r: Result<TokenLock, ContractError>)
    requires
        amount > 0 && config is Some && old(vault).balance + amount <= i128::MAX ==> old(vault).next_lock_id
            < u64::MAX,
    ensures
        r is Err ==> *final(vault) == *old(vault),
        amount <= 0 ==> r == Err::<TokenLock, ContractError>(ContractError::AmountTooLow),
        amount > 0 && config is None ==> r == Err::<TokenLock, ContractError>(ContractError::NotInitialized),
        amount > 0 && config is Some && old(vault).balance + amount > i128::MAX ==> r == Err::<
            TokenLock,
            ContractError,
        >(ContractError::Overflow),
        amount > 0 && config is Some && old(vault).balance + amount <= i128::MAX ==> {
            &&& r == Ok::<TokenLock, ContractError>(
                TokenLock {
                    id: old(vault).next_lock_id,
                    depositor,
                    token: config->0.native_token,
                    amount,
                    target_chain_id,
                    recipient_address,
                    locked_at_ledger: ledger,
                },
            )
            &&& final(vault).balance == old(vault).balance + amount
            &&& final(vault).next_lock_id == old(vault).next_lock_id + 1
        },
{
    if amount <= 0 {
        return Err(ContractError::BridgeInvalidAmount);
    }
    let cfg = match config {
        Some(c) => c,
        None => return Err(ContractError::BridgeEscrowNotConfigured),
    };
    let new_balance = match checked_add_balance(vault.balance, amount) {
        Ok(b) => b,
        Err(e) => return Err(e),
    };
    vault.balance = new_balance;
    let id = vault.next_lock_id;
    vault.next_lock_id = id + 1;
    Ok(TokenLock {
        id,
        depositor,
        token: cfg.native_token,
        amount,
        target_chain_id,
        recipient_address,
        locked_at_ledger: ledger,
    })
}

/// Releases the proof's amount from the vault once the relayer quorum's
/// verdict `approval` on the proof is known. Returns the new vault balance.
pub fn unlock_tokens(
    config: Option<BridgeEscrowConfig>,
    vault: &mut EscrowVault,
    proof: &UnlockProof,
    approval: Result<(), ContractError>,
) -> (r: Result<i128, ContractError>)
    ensures
        r is Err ==> *final(vault) == *old(vault),
        proof.amount <= 0 ==> r == Err::<i128, ContractError>(ContractError::AmountTooLow),
        proof.amount > 0 && approval is Err ==> r == Err::<i128, ContractError>(approval->Err_0),
        proof.amount > 0 && approval is Ok && config is None ==> r == Err::<i128, ContractError>(
            ContractError::NotInitialized,
        ),
        proof.amount > 0 && approval is Ok && config is Some && proof.amount > old(vault).balance ==> r == Err::<
            i128,
            ContractError,
        >(ContractError::Overflow),
        proof.amount > 0 && approval is Ok && config is Some && proof.amount <= old(vault).balance ==> {
            &&& r == Ok::<i128, ContractError>((old(vault).balance - proof.amount) as i128)
            &&& final(vault).balance == old(vault).balance - proof.amount
            &&& final(vault).next_lock_id == old(vault).next_lock_id
        },
{
    if proof.amount <= 0 {
        return Err(ContractError::BridgeInvalidAmount);
    }
    match approval {
        Ok(()) => {},
        Err(e) => return Err(e),
    }
    if config.is_none() {
        return Err(ContractError::BridgeEscrowNotConfigured);
    }
    let new_balance = match checked_sub_balance(vault.balance, proof.amount) {
        Ok(b) => b,
        Err(e) => return Err(e),
    };
    vault.balance = new_balance;
    Ok(new_balance)
}

} // verus!
