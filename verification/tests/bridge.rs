use soroban_sdk::Env;
use stellarflow::bridge::escrow::{
    checked_add_balance, checked_sub_balance, configure, lock_tokens, unlock_tokens, EscrowVault, UnlockProof,
};
use stellarflow::bridge::mint::{balance_of, burn, mint, register_wrapped_asset, set_bridge_controller, WrappedAsset};
use stellarflow::bridge::rate_limit::{enforce_and_record, set_limit, MintWindowEntry, RateLimitAsset};
use stellarflow::bridge::relayer::{
    add_validator, bridge_message_digest, configure_threshold, remove_validator, verify_cross_chain_payload,
};
use stellarflow::bridge::timelock::{
    cancel_withdrawal, execute_withdrawal, initialize_validator_set, queue_withdrawal, rotate_validators,
};
use stellarflow::contract::ContractData;
use stellarflow::error::ContractError;
use stellarflow::Address;

const ADMIN: Address = Address { hi: 0, lo: 1 };
const CONTROLLER: Address = Address { hi: 0, lo: 2 };
const USER: Address = Address { hi: 0, lo: 3 };
const ATTACKER: Address = Address { hi: 0, lo: 4 };
const TOKEN: Address = Address { hi: 0, lo: 5 };

fn data() -> Option<ContractData> {
    Some(ContractData { admin: ADMIN, value: 0, max_fee_ceiling: 10_000 })
}

fn wrapped(max_supply: i128) -> Option<WrappedAsset> {
    Some(register_wrapped_asset(data(), ADMIN, "wBTC".to_string(), CONTROLLER, max_supply, false).unwrap())
}

fn mint_to(asset: &mut Option<WrappedAsset>, controller: Address, to: Address, amount: i128) -> Result<i128, ContractError> {
    let mut window: Vec<MintWindowEntry> = Vec::new();
    mint(asset, &mut window, None, controller, to, amount, 1_000)
}

#[test]
fn register_and_mint_within_cap_succeeds() {
    let mut asset = wrapped(1_000_000);
    let new_supply = mint_to(&mut asset, CONTROLLER, USER, 500).unwrap();
    assert_eq!(new_supply, 500);
    assert_eq!(balance_of(asset.as_ref().unwrap(), USER), 500);
}

#[test]
fn mint_beyond_max_supply_is_rejected() {
    let mut asset = wrapped(1_000);
    assert_eq!(mint_to(&mut asset, CONTROLLER, USER, 1_001), Err(ContractError::BridgeSupplyCapExceeded));
}

#[test]
fn mint_by_non_controller_is_rejected() {
    let mut asset = wrapped(1_000);
    assert_eq!(mint_to(&mut asset, ATTACKER, USER, 100), Err(ContractError::BridgeNotController));
}

#[test]
fn burn_reduces_balance_and_total_supply() {
    let mut asset = wrapped(1_000);
    mint_to(&mut asset, CONTROLLER, USER, 400).unwrap();
    let new_supply = burn(&mut asset, CONTROLLER, USER, 150).unwrap();
    assert_eq!(new_supply, 250);
    assert_eq!(balance_of(asset.as_ref().unwrap(), USER), 250);
}

#[test]
fn burn_more_than_balance_is_rejected() {
    let mut asset = wrapped(1_000);
    mint_to(&mut asset, CONTROLLER, USER, 100).unwrap();
    assert_eq!(burn(&mut asset, CONTROLLER, USER, 101), Err(ContractError::BridgeInsufficientBalance));
}

#[test]
fn rotating_controller_revokes_old_controller_access() {
    let mut asset = wrapped(1_000);
    let new_controller = Address { hi: 0, lo: 9 };
    set_bridge_controller(data(), ADMIN, &mut asset, new_controller).unwrap();
    assert_eq!(mint_to(&mut asset, CONTROLLER, USER, 10), Err(ContractError::BridgeNotController));
    assert_eq!(mint_to(&mut asset, new_controller, USER, 10), Ok(10));
}

#[test]
fn registering_with_non_positive_max_supply_is_rejected() {
    let r = register_wrapped_asset(data(), ADMIN, "wBTC".to_string(), CONTROLLER, 0, false);
    assert_eq!(r.err(), Some(ContractError::BridgeInvalidMaxSupply));
    let r = register_wrapped_asset(data(), ADMIN, "wBTC".to_string(), CONTROLLER, 10, true);
    assert_eq!(r.err(), Some(ContractError::BridgeAssetAlreadyRegistered));
}

#[test]
fn mint_to_unknown_asset_is_rejected() {
    let mut none: Option<WrappedAsset> = None;
    assert_eq!(mint_to(&mut none, CONTROLLER, USER, 1), Err(ContractError::NotRegistered));
    assert_eq!(mint_to(&mut wrapped(10), CONTROLLER, USER, 0), Err(ContractError::AmountTooLow));
}

#[test]
fn rolling_cap_limits_mints_within_window() {
    let mut entries: Vec<MintWindowEntry> = Vec::new();
    assert_eq!(enforce_and_record(&mut entries, Some(100), 60, 1_000, 10_000), Ok(()));
    assert_eq!(enforce_and_record(&mut entries, Some(100), 50, 1_000, 10_001), Err(ContractError::BridgeRateLimitExceeded));
    assert_eq!(entries.len(), 1);
    assert_eq!(enforce_and_record(&mut entries, Some(100), 40, 1_000, 10_002), Ok(()));
    assert_eq!(entries.len(), 2);
    assert_eq!(set_limit(data(), ATTACKER, RateLimitAsset::Native(TOKEN), 10).err(), Some(ContractError::NotAdmin));
}

#[test]
fn lock_tokens_transfers_to_vault_and_emits_event() {
    let cfg = Some(configure(data(), ADMIN, TOKEN).unwrap());
    let mut vault = EscrowVault { balance: 0, next_lock_id: 0 };
    let lock = lock_tokens(cfg, &mut vault, USER, 1_500, 42, ATTACKER, 9).unwrap();
    assert_eq!(lock.id, 0);
    assert_eq!(lock.amount, 1_500);
    assert_eq!(lock.token, TOKEN);
    assert_eq!(vault.balance, 1_500);
    assert_eq!(vault.next_lock_id, 1);
}

#[test]
fn lock_tokens_rejects_non_positive_amount() {
    let cfg = Some(configure(data(), ADMIN, TOKEN).unwrap());
    let mut vault = EscrowVault { balance: 0, next_lock_id: 0 };
    assert_eq!(lock_tokens(cfg, &mut vault, USER, 0, 42, ATTACKER, 9), Err(ContractError::BridgeInvalidAmount));
    assert_eq!(vault, EscrowVault { balance: 0, next_lock_id: 0 });
}

#[test]
fn configured_lock_can_be_queried() {
    let cfg = Some(configure(data(), ADMIN, TOKEN).unwrap());
    let mut vault = EscrowVault { balance: 0, next_lock_id: 0 };
    let stored = lock_tokens(cfg, &mut vault, USER, 500, 7, ATTACKER, 9).unwrap();
    assert_eq!(stored.depositor, USER);
    assert_eq!(stored.target_chain_id, 7);
    assert_eq!(stored.recipient_address, ATTACKER);
    assert_eq!(configure(data(), ATTACKER, TOKEN).err(), Some(ContractError::NotAdmin));
}

#[test]
fn unlock_releases_approved_amount() {
    let cfg = Some(configure(data(), ADMIN, TOKEN).unwrap());
    let mut vault = EscrowVault { balance: 1_000, next_lock_id: 3 };
    let proof = UnlockProof { proof_hash: [1u8; 32], source_chain_id: 1, recipient: USER, amount: 400 };
    assert_eq!(unlock_tokens(cfg, &mut vault, &proof, Err(ContractError::InvalidProof)), Err(ContractError::InvalidProof));
    assert_eq!(vault.balance, 1_000);
    assert_eq!(unlock_tokens(cfg, &mut vault, &proof, Ok(())), Ok(600));
    assert_eq!(vault.balance, 600);
    assert_eq!(checked_add_balance(i128::MAX, 1), Err(ContractError::Overflow));
    assert_eq!(checked_sub_balance(i128::MIN, 1), Err(ContractError::MathOverflow));
}

fn keys(n: u8) -> Vec<[u8; 32]> {
    (0..n).map(|i| [i + 1; 32]).collect()
}

#[test]
fn valid_three_of_five_threshold_is_accepted() {
    let env = Env::default();
    let signers = keys(3);
    let approval =
        verify_cross_chain_payload(&env, 3, &mut false, 8, 42, &[9u8; 32], b"recipient", 1_000, &signers, &vec![true; 3])
            .unwrap();
    assert_eq!(approval.counted, vec![0, 1, 2]);
    assert_eq!(approval.digest, bridge_message_digest(&env, 8, 42, &[9u8; 32], b"recipient", 1_000));
}

#[test]
fn two_of_five_is_insufficient_for_three_of_five_threshold() {
    let env = Env::default();
    let r = verify_cross_chain_payload(&env, 3, &mut false, 8, 42, &[9u8; 32], b"r", 1_000, &keys(2), &vec![true; 2]);
    assert_eq!(r.err(), Some(ContractError::InvalidProof));
}

#[test]
fn duplicate_validator_does_not_count_twice() {
    let env = Env::default();
    let signers = vec![[1u8; 32], [1u8; 32], [2u8; 32]];
    let r = verify_cross_chain_payload(&env, 3, &mut false, 8, 42, &[9u8; 32], b"r", 1_000, &signers, &vec![true; 3]);
    assert_eq!(r.err(), Some(ContractError::InvalidProof));
    let approval =
        verify_cross_chain_payload(&env, 2, &mut false, 8, 42, &[9u8; 32], b"r", 1_000, &signers, &vec![true; 3]).unwrap();
    assert_eq!(approval.counted, vec![0, 2]);
}

#[test]
fn unauthorized_valid_signature_does_not_count() {
    let env = Env::default();
    let r = verify_cross_chain_payload(
        &env, 3, &mut false, 8, 42, &[9u8; 32], b"r", 1_000, &keys(3), &vec![true, false, true],
    );
    assert_eq!(r.err(), Some(ContractError::InvalidProof));
}

#[test]
fn failed_verification_does_not_consume_nonce() {
    let env = Env::default();
    // A refused payload leaves the nonce unspent, so a valid one still passes.
    let mut spent = false;
    let refused = verify_cross_chain_payload(&env, 3, &mut spent, 8, 42, &[9u8; 32], b"r", 1_000, &keys(2), &vec![true; 2]);
    assert!(refused.is_err());
    assert!(!spent);
    let accepted = verify_cross_chain_payload(&env, 3, &mut spent, 8, 42, &[9u8; 32], b"r", 1_000, &keys(3), &vec![true; 3]);
    assert!(accepted.is_ok());
    assert!(spent);
    // The same payload again is refused: its nonce is spent.
    let again = verify_cross_chain_payload(&env, 3, &mut spent, 8, 42, &[9u8; 32], b"r", 1_000, &keys(3), &vec![true; 3]);
    assert_eq!(again.err(), Some(ContractError::InvalidProof));
    assert!(spent);
}

#[test]
fn replayed_nonce_is_rejected() {
    let env = Env::default();
    let r = verify_cross_chain_payload(&env, 3, &mut true, 8, 42, &[9u8; 32], b"r", 1_000, &keys(3), &vec![true; 3]);
    assert_eq!(r.err(), Some(ContractError::InvalidProof));
}

#[test]
fn source_chain_is_bound_to_signature_digest() {
    let env = Env::default();
    assert_ne!(
        bridge_message_digest(&env, 8, 42, &[9u8; 32], b"r", 1_000),
        bridge_message_digest(&env, 9, 42, &[9u8; 32], b"r", 1_000)
    );
}

#[test]
fn changed_recipient_invalidates_existing_signatures() {
    let env = Env::default();
    assert_ne!(
        bridge_message_digest(&env, 8, 42, &[9u8; 32], b"alice", 1_000),
        bridge_message_digest(&env, 8, 42, &[9u8; 32], b"bob", 1_000)
    );
}

#[test]
fn changed_amount_invalidates_existing_signatures() {
    let env = Env::default();
    assert_ne!(
        bridge_message_digest(&env, 8, 42, &[9u8; 32], b"r", 1_000),
        bridge_message_digest(&env, 8, 42, &[9u8; 32], b"r", 2_000)
    );
    let r = verify_cross_chain_payload(&env, 3, &mut false, 8, 42, &[9u8; 32], b"r", 0, &keys(3), &vec![true; 3]);
    assert_eq!(r.err(), Some(ContractError::BridgeInvalidAmount));
}

#[test]
fn zero_threshold_is_rejected() {
    assert_eq!(configure_threshold(data(), ADMIN, 0), Err(ContractError::InvalidProof));
    assert_eq!(configure_threshold(data(), ADMIN, 3), Ok(3));
}

#[test]
fn duplicate_validator_registration_is_rejected() {
    assert_eq!(add_validator(data(), ADMIN, true), Err(ContractError::AlreadyRegistered));
    assert_eq!(add_validator(data(), ADMIN, false), Ok(()));
    assert_eq!(remove_validator(data(), ADMIN, false), Err(ContractError::NotRegistered));
}

#[test]
fn non_admin_cannot_modify_validator_set() {
    assert_eq!(add_validator(data(), ATTACKER, false), Err(ContractError::NotAdmin));
    assert_eq!(configure_threshold(data(), ATTACKER, 2), Err(ContractError::NotAdmin));
}

#[test]
fn withdrawal_waits_for_timelock() {
    let small = queue_withdrawal(USER, 500, 1_000);
    assert_eq!(small.execute_after, 1_000);
    let w = queue_withdrawal(USER, 2_000_000_000, 1_000);
    assert_eq!(w.execute_after, 1_000 + 21_600);
    assert_eq!(execute_withdrawal(Some(w), 1_000), Err(ContractError::UpgradeTimelockNotSatisfied));
    let done = execute_withdrawal(Some(w), w.execute_after).unwrap();
    assert_eq!(done.amount, 2_000_000_000);
    let cancelled = cancel_withdrawal(Some(w)).unwrap();
    assert!(cancelled.cancelled);
    assert!(execute_withdrawal(Some(cancelled), u64::MAX).is_err());
}

#[test]
fn validator_rotation_requires_governance() {
    let set = initialize_validator_set(false, vec![[1u8; 32]]).unwrap();
    let rotated = rotate_validators(Some(ADMIN), ADMIN, Some(set.clone()), vec![[2u8; 32]]).unwrap();
    assert_eq!(rotated.sequence, set.sequence + 1);
    assert_eq!(rotated.keys, vec![[2u8; 32]]);
    assert!(rotate_validators(Some(ADMIN), ATTACKER, Some(set), vec![[3u8; 32]]).is_err());
}

#[test]
fn quorum_counts_distinct_registered_keys_only() {
    let env = Env::default();
    // Distinct registered keys: [1], [3], [4]; [2] is unregistered and [1] repeats.
    let signers = vec![[1u8; 32], [2u8; 32], [1u8; 32], [3u8; 32], [3u8; 32], [4u8; 32]];
    let registered = vec![true, false, true, true, true, true];
    let approval =
        verify_cross_chain_payload(&env, 3, &mut false, 8, 42, &[9u8; 32], b"r", 1_000, &signers, &registered).unwrap();
    assert_eq!(approval.counted, vec![0, 3, 5]);
    let r = verify_cross_chain_payload(&env, 4, &mut false, 8, 42, &[9u8; 32], b"r", 1_000, &signers, &registered);
    assert_eq!(r.err(), Some(ContractError::InvalidProof));
}
