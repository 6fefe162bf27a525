use jamid::events::JIDRegistered;
use jamid::registry::Jamid;
use jamid::types::{AccountId, Action, Error, H256};

const FEE: u128 = 1_000_000_000_000;

fn alice() -> AccountId {
    AccountId([0x01; 32])
}

fn bob() -> AccountId {
    AccountId([0x02; 32])
}

fn charlie() -> AccountId {
    AccountId([0x03; 32])
}

fn registry_address() -> AccountId {
    AccountId([0x0a; 32])
}

fn deploy(chain_id: &str) -> Jamid {
    Jamid::new(String::from(chain_id), H256::default(), alice(), registry_address())
}

/// A structurally valid envelope: sr25519 tag, a dummy signature and the
/// account's bytes as public key.
fn envelope_for(account: &AccountId) -> Vec<u8> {
    let mut signature = vec![0x00];
    signature.extend_from_slice(&[0u8; 64]);
    signature.extend_from_slice(&account.0);
    signature
}

#[test]
fn new_works() {
    let contract = deploy("paseo");
    assert_eq!(contract.total_jids(), 0);
    assert!(!contract.is_paused());
    assert_eq!(contract.get_chain_id(), String::from("paseo"));
    assert_eq!(contract.get_registration_fee(), 1_000_000_000_000);
}

#[test]
fn register_with_payment_works() {
    let mut contract = deploy("paseo");
    let jid = String::from("alice.jid");
    let signature = envelope_for(&alice());
    let nonce = 0;

    let result = contract.register(alice(), FEE, 0, jid.clone(), signature, nonce, 0);
    assert!(result.is_ok());
    assert_eq!(contract.total_jids(), 1);
    assert!(contract.jid_exists(jid.clone()));
    assert_eq!(contract.get_total_fees_collected(), 1_000_000_000_000);
}

#[test]
fn register_insufficient_payment_fails() {
    let mut contract = deploy("paseo");
    let jid = String::from("alice.jid");
    let signature = envelope_for(&alice());

    let result = contract.register(alice(), FEE / 2, 0, jid, signature, 0, 0);
    assert_eq!(result, Err(Error::InsufficientPayment));
}

#[test]
fn invalid_jid_fails() {
    let mut contract = deploy("paseo");
    let sig = envelope_for(&alice());

    // Too short
    assert_eq!(
        contract.register(alice(), FEE, 0, String::from("ab"), sig.clone(), 0, 0),
        Err(Error::InvalidJID)
    );
    // Invalid characters
    assert_eq!(
        contract.register(alice(), FEE, 0, String::from("alice@test"), sig.clone(), 0, 0),
        Err(Error::InvalidJID)
    );
    // Starts with dot
    assert_eq!(
        contract.register(alice(), FEE, 0, String::from(".alice"), sig.clone(), 0, 0),
        Err(Error::InvalidJID)
    );
    // Consecutive dots
    assert_eq!(
        contract.register(alice(), FEE, 0, String::from("alice..jid"), sig.clone(), 0, 0),
        Err(Error::InvalidJID)
    );
    // Consecutive hyphens
    assert_eq!(
        contract.register(alice(), FEE, 0, String::from("alice--jid"), sig.clone(), 0, 0),
        Err(Error::InvalidJID)
    );
    // Dot followed by hyphen
    assert_eq!(
        contract.register(alice(), FEE, 0, String::from("alice.-jid"), sig.clone(), 0, 0),
        Err(Error::InvalidJID)
    );
    // Hyphen followed by dot
    assert_eq!(
        contract.register(alice(), FEE, 0, String::from("alice-.jid"), sig.clone(), 0, 0),
        Err(Error::InvalidJID)
    );
}

#[test]
fn duplicate_jid_fails() {
    let mut contract = deploy("paseo");
    let jid = String::from("alice.jid");

    assert!(contract.register(alice(), FEE, 0, jid.clone(), envelope_for(&alice()), 0, 0).is_ok());
    assert_eq!(
        contract.register(bob(), FEE, 0, jid, envelope_for(&bob()), 0, 0),
        Err(Error::JIDAlreadyExists)
    );
}

#[test]
fn case_normalization_works() {
    let mut contract = deploy("paseo");

    assert!(contract
        .register(alice(), FEE, 0, String::from("Alice.JID"), envelope_for(&alice()), 0, 0)
        .is_ok());
    // Should fail with different case
    assert_eq!(
        contract.register(bob(), FEE, 0, String::from("alice.jid"), envelope_for(&bob()), 0, 0),
        Err(Error::JIDAlreadyExists)
    );
}

#[test]
fn resolve_works() {
    let mut contract = deploy("paseo");
    let jid = String::from("alice.jid");

    contract.register(alice(), FEE, 0, jid.clone(), envelope_for(&alice()), 0, 0).unwrap();

    let record = contract.resolve(0, jid).unwrap();
    assert_eq!(record.owner, alice());
    assert!(record.is_active);
}

#[test]
fn nonce_replay_protection_works() {
    let mut contract = deploy("paseo");
    let sig = envelope_for(&alice());

    // Wrong nonce
    assert_eq!(
        contract.register(alice(), FEE, 0, String::from("alice.jid"), sig.clone(), 5, 0),
        Err(Error::InvalidNonce)
    );
    // Correct nonce
    assert!(contract.register(alice(), FEE, 0, String::from("alice.jid"), sig, 0, 0).is_ok());
    // Nonce should be incremented
    assert_eq!(contract.get_nonce(alice()), 1);
}

#[test]
fn pause_works() {
    let mut contract = deploy("paseo");

    // Owner can pause
    assert_eq!(contract.set_paused(alice(), true).map(|e| e.paused), Ok(true));
    assert!(contract.is_paused());

    // Cannot register when paused
    assert_eq!(
        contract.register(alice(), FEE, 0, String::from("test.jid"), envelope_for(&alice()), 0, 0),
        Err(Error::ContractPaused)
    );
}

#[test]
fn blacklist_works() {
    let mut contract = deploy("paseo");

    // Owner blacklists a JID
    assert_eq!(contract.blacklist_jid(alice(), String::from("spam.jid")), Ok(()));

    // Cannot register blacklisted JID
    assert_eq!(
        contract.register(alice(), FEE, 0, String::from("spam.jid"), envelope_for(&alice()), 0, 0),
        Err(Error::JIDBlacklisted)
    );
}

#[test]
fn metadata_size_limit_works() {
    let mut contract = deploy("paseo");
    let jid = String::from("alice.jid");

    contract.register(alice(), FEE, 0, jid.clone(), envelope_for(&alice()), 0, 0).unwrap();

    // Too large metadata
    let large_metadata = vec![0u8; 256 + 1];
    assert_eq!(
        contract.update_metadata(alice(), 0, jid.clone(), large_metadata),
        Err(Error::MetadataTooLarge)
    );

    // Valid size
    let valid_metadata = vec![0u8; 100];
    assert!(contract.update_metadata(alice(), 0, jid, valid_metadata).is_ok());
}

#[test]
fn revoke_works() {
    let mut contract = deploy("paseo");
    let jid = String::from("alice.jid");

    contract.register(alice(), FEE, 0, jid.clone(), envelope_for(&alice()), 0, 0).unwrap();
    assert!(contract.revoke(alice(), 0, jid.clone()).is_ok());

    // Should fail to resolve revoked JID
    assert_eq!(contract.resolve(0, jid), Err(Error::JIDRevoked));
}

#[test]
fn revoke_frees_account_for_new_registration() {
    let mut contract = deploy("paseo");
    let jid1 = String::from("alice.jid");
    let jid2 = String::from("alice2.jid");

    // Register first JID
    contract.register(alice(), FEE, 0, jid1.clone(), envelope_for(&alice()), 0, 0).unwrap();
    // Revoke it
    contract.revoke(alice(), 0, jid1).unwrap();

    // Now account should be free to register new JID
    let result = contract.register(alice(), FEE, 0, jid2.clone(), envelope_for(&alice()), 1, 0);
    assert!(result.is_ok());
    assert!(contract.jid_exists(jid2));
}

#[test]
fn set_registration_fee_works() {
    let mut contract = deploy("paseo");
    assert_eq!(contract.get_registration_fee(), 1_000_000_000_000);

    let new_fee = 2 * 1_000_000_000_000;
    assert_eq!(contract.set_registration_fee(alice(), new_fee), Ok(()));
    assert_eq!(contract.get_registration_fee(), new_fee);
}

#[test]
fn set_registration_fee_zero_fails() {
    let mut contract = deploy("paseo");
    let result = contract.set_registration_fee(alice(), 0);
    assert_eq!(result, Err(Error::InvalidFeeAmount));
}

#[test]
fn set_registration_fee_unauthorized_fails() {
    let mut contract = deploy("paseo");

    // Try with non-owner
    let result = contract.set_registration_fee(bob(), 1000);
    assert_eq!(result, Err(Error::Unauthorized));
}

#[test]
fn fee_tracking_works() {
    let mut contract = deploy("paseo");
    assert_eq!(contract.get_total_fees_collected(), 0);
    assert_eq!(contract.get_total_fees_withdrawn(), 0);

    // Register JID
    let jid = String::from("alice.jid");
    contract.register(alice(), FEE, 0, jid, envelope_for(&alice()), 0, 0).unwrap();

    // Check fees collected
    assert_eq!(contract.get_total_fees_collected(), 1_000_000_000_000);
    assert_eq!(contract.get_total_fees_withdrawn(), 0);
}

#[test]
fn chain_id_works() {
    let contract = deploy("pop");
    assert_eq!(contract.get_chain_id(), String::from("pop"));

    let contract2 = deploy("jam");
    assert_eq!(contract2.get_chain_id(), String::from("jam"));
}

#[test]
fn genesis_hash_is_set() {
    let contract = deploy("paseo");
    let genesis = contract.get_genesis_hash();

    // The getter hands back what the constructor was given.
    assert!(genesis == H256::default() || genesis != H256::default());
    assert_eq!(genesis, H256::default());
}

#[test]
fn nonce_namespacing_works() {
    let contract = deploy("paseo");

    // Register and Transfer actions have separate nonces
    assert_eq!(contract.get_nonce_for_action(alice(), Action::Register), 0);
    assert_eq!(contract.get_nonce_for_action(alice(), Action::Transfer), 0);

    // They are independent!
    assert_eq!(contract.get_nonce(alice()), 0); // Defaults to Register
}

#[test]
fn metadata_limit_reduced() {
    let mut contract = deploy("paseo");
    let jid = String::from("alice.jid");

    contract.register(alice(), FEE, 0, jid.clone(), envelope_for(&alice()), 0, 0).unwrap();

    // Metadata exactly at limit should work
    let metadata_256 = vec![0u8; 256];
    assert!(contract.update_metadata(alice(), 0, jid.clone(), metadata_256).is_ok());

    // Metadata above limit should fail
    let metadata_257 = vec![0u8; 257];
    assert_eq!(
        contract.update_metadata(alice(), 0, jid, metadata_257),
        Err(Error::MetadataTooLarge)
    );
}

#[test]
fn transfer_to_zero_address_fails() {
    let mut contract = deploy("paseo");
    let jid = String::from("alice.jid");
    let sig = envelope_for(&alice());

    // Register JID
    contract.register(alice(), FEE, 0, jid.clone(), sig.clone(), 0, 0).unwrap();

    // Attempt transfer to zero address (should fail)
    let zero_address = AccountId([0u8; 32]);
    let result = contract.transfer(alice(), 0, jid, zero_address, sig, 0);

    // Should reject transfer to zero address
    assert_eq!(result, Err(Error::Unauthorized));
}

#[test]
fn admin_revoke_works() {
    let mut contract = deploy("paseo");
    let jid = String::from("alice.jid");

    // Alice registers JID
    contract.register(alice(), FEE, 0, jid.clone(), envelope_for(&alice()), 0, 0).unwrap();
    assert!(contract.jid_exists(jid.clone()));

    // Admin (alice deployed the registry) revokes alice's JID
    let reason = b"Policy violation".to_vec();
    assert!(contract.admin_revoke(alice(), 0, jid.clone(), reason).is_ok());

    // JID should still exist but be inactive
    assert!(contract.jid_exists(jid.clone()));
    let result = contract.resolve(0, jid.clone());
    assert!(result.is_err()); // resolve returns error for inactive JIDs

    // Alice should be able to register a new JID now
    let new_jid = String::from("alice2.jid");
    assert!(contract.register(alice(), FEE, 0, new_jid, envelope_for(&alice()), 1, 0).is_ok());
}

#[test]
fn admin_revoke_fails_if_not_owner() {
    let mut contract = deploy("paseo");
    let jid = String::from("alice.jid");

    // Alice registers JID
    contract.register(alice(), FEE, 0, jid.clone(), envelope_for(&alice()), 0, 0).unwrap();

    // Bob tries to admin revoke (should fail - not owner)
    let reason = b"Unauthorized attempt".to_vec();
    let result = contract.admin_revoke(bob(), 0, jid, reason);

    assert_eq!(result, Err(Error::Unauthorized));
}

#[test]
fn admin_revoke_fails_if_already_revoked() {
    let mut contract = deploy("paseo");
    let jid = String::from("alice.jid");

    // Alice registers JID
    contract.register(alice(), FEE, 0, jid.clone(), envelope_for(&alice()), 0, 0).unwrap();

    // Admin revokes once
    let reason = b"First revocation".to_vec();
    assert!(contract.admin_revoke(alice(), 0, jid.clone(), reason).is_ok());

    // Try to revoke again (should fail - already revoked)
    let reason2 = b"Second revocation".to_vec();
    let result = contract.admin_revoke(alice(), 0, jid, reason2);

    assert_eq!(result, Err(Error::AlreadyRevoked));
}

#[test]
fn admin_revoke_fails_with_large_reason() {
    let mut contract = deploy("paseo");
    let jid = String::from("alice.jid");

    // Alice registers JID
    contract.register(alice(), FEE, 0, jid.clone(), envelope_for(&alice()), 0, 0).unwrap();

    // Try to revoke with reason > 256 bytes
    let reason = vec![0u8; 257];
    let result = contract.admin_revoke(alice(), 0, jid, reason);

    assert_eq!(result, Err(Error::MetadataTooLarge));
}

// ----- further cases -----

#[test]
fn register_event_carries_hash_owner_and_time() {
    let mut contract = deploy("paseo");
    let event = contract
        .register(alice(), FEE, 42, String::from("Alice.JID"), envelope_for(&alice()), 0, 0)
        .unwrap();
    let expected_hash = jamid::jid::hash_jid("alice.jid");
    assert_eq!(
        event,
        JIDRegistered { jid_hash: expected_hash, owner: alice(), registered_at: 42 }
    );
    let record = contract.resolve(42, String::from("alice.jid")).unwrap();
    assert_eq!(record.registered_at, 42);
    assert_eq!(record.updated_at, 42);
    assert!(record.metadata.is_empty());
}

#[test]
fn second_identifier_for_same_account_fails() {
    let mut contract = deploy("paseo");
    contract.register(alice(), FEE, 0, String::from("alice.jid"), envelope_for(&alice()), 0, 0).unwrap();
    assert_eq!(
        contract.register(alice(), FEE, 0, String::from("other.jid"), envelope_for(&alice()), 1, 0),
        Err(Error::AccountAlreadyRegistered)
    );
    assert_eq!(contract.get_nonce(alice()), 1);
}

#[test]
fn failed_attempts_leave_nonce_alone() {
    let mut contract = deploy("paseo");
    let bad_tag = {
        let mut s = envelope_for(&alice());
        s[0] = 2;
        s
    };
    assert_eq!(
        contract.register(alice(), FEE, 0, String::from("alice.jid"), bad_tag, 0, 0),
        Err(Error::InvalidProof)
    );
    assert_eq!(contract.get_nonce(alice()), 0);
    assert_eq!(contract.get_total_fees_collected(), 0);
    assert!(!contract.jid_exists(String::from("alice.jid")));
}

#[test]
fn invalid_proof_variants_fail() {
    let mut contract = deploy("paseo");
    let short = vec![0u8; 96];
    assert_eq!(
        contract.register(alice(), FEE, 0, String::from("alice.jid"), short, 0, 0),
        Err(Error::InvalidProof)
    );
    // Bob's key does not match Alice.
    assert_eq!(
        contract.register(alice(), FEE, 0, String::from("alice.jid"), envelope_for(&bob()), 0, 0),
        Err(Error::InvalidProof)
    );
    // The ed25519 tag is accepted too, and trailing bytes are ignored.
    let mut ed = envelope_for(&alice());
    ed[0] = 1;
    ed.push(7);
    assert!(contract.register(alice(), FEE, 0, String::from("alice.jid"), ed, 0, 0).is_ok());
}

#[test]
fn transfer_moves_identifier_and_transfer_nonce() {
    let mut contract = deploy("paseo");
    let jid = String::from("alice.jid");
    contract.register(alice(), FEE, 0, jid.clone(), envelope_for(&alice()), 0, 0).unwrap();

    // Wrong transfer nonce: the registration nonce is 1, the transfer one 0.
    assert_eq!(
        contract.transfer(alice(), 5, jid.clone(), bob(), envelope_for(&alice()), 1),
        Err(Error::InvalidNonce)
    );
    let event = contract.transfer(alice(), 5, jid.clone(), bob(), envelope_for(&alice()), 0).unwrap();
    assert_eq!(event.from, alice());
    assert_eq!(event.to, bob());
    assert_eq!(event.transferred_at, 5);

    assert_eq!(contract.get_nonce_for_action(alice(), Action::Transfer), 1);
    assert_eq!(contract.get_nonce_for_action(alice(), Action::Register), 1);
    assert_eq!(contract.resolve(5, jid.clone()).unwrap().owner, bob());
    assert_eq!(contract.resolve_by_account(5, bob()), Some(String::from("alice.jid")));
    assert_eq!(contract.resolve_by_account(5, alice()), None);

    // Alice no longer owns it.
    assert_eq!(
        contract.transfer(alice(), 6, jid, charlie(), envelope_for(&alice()), 1),
        Err(Error::Unauthorized)
    );
}

#[test]
fn transfer_to_account_holding_identifier_fails() {
    let mut contract = deploy("paseo");
    contract.register(alice(), FEE, 0, String::from("alice.jid"), envelope_for(&alice()), 0, 0).unwrap();
    contract.register(bob(), FEE, 0, String::from("bob.jid"), envelope_for(&bob()), 0, 0).unwrap();
    assert_eq!(
        contract.transfer(alice(), 0, String::from("alice.jid"), bob(), envelope_for(&alice()), 0),
        Err(Error::AccountAlreadyRegistered)
    );
    assert_eq!(
        contract.transfer(alice(), 0, String::from("nobody.jid"), charlie(), envelope_for(&alice()), 0),
        Err(Error::JIDNotFound)
    );
}

#[test]
fn expiry_boundaries() {
    let mut contract = deploy("paseo");
    let jid = String::from("alice.jid");
    contract.register(alice(), FEE, 10, jid.clone(), envelope_for(&alice()), 0, 100).unwrap();

    assert!(contract.resolve(100, jid.clone()).is_ok());
    assert_eq!(contract.resolve(101, jid.clone()), Err(Error::JIDExpired));
    // Resolution by account follows the same policy as resolution by name.
    assert_eq!(contract.resolve_by_account(99, alice()), Some(String::from("alice.jid")));
    assert_eq!(contract.resolve_by_account(100, alice()), Some(String::from("alice.jid")));
    assert_eq!(contract.resolve_by_account(101, alice()), None);
    assert_eq!(contract.resolve(0, String::from("missing.jid")), Err(Error::JIDNotFound));
}

#[test]
fn revoked_identifier_exists_but_does_not_resolve() {
    let mut contract = deploy("paseo");
    let jid = String::from("alice.jid");
    contract.register(alice(), FEE, 0, jid.clone(), envelope_for(&alice()), 0, 0).unwrap();
    let event = contract.revoke(alice(), 7, jid.clone()).unwrap();
    assert_eq!(event.revoked_at, 7);
    assert!(contract.jid_exists(jid.clone()));
    assert_eq!(contract.resolve(7, jid.clone()), Err(Error::JIDRevoked));
    assert_eq!(contract.resolve_by_account(7, alice()), None);
    // Historical count is not decremented.
    assert_eq!(contract.total_jids(), 1);
    // Metadata of a revoked identifier cannot change, nor can it move.
    assert_eq!(
        contract.update_metadata(alice(), 8, jid.clone(), vec![1, 2, 3]),
        Err(Error::JIDRevoked)
    );
    assert_eq!(
        contract.transfer(alice(), 8, jid, bob(), envelope_for(&alice()), 0),
        Err(Error::JIDRevoked)
    );
}

#[test]
fn revoke_by_stranger_fails() {
    let mut contract = deploy("paseo");
    let jid = String::from("alice.jid");
    contract.register(alice(), FEE, 0, jid.clone(), envelope_for(&alice()), 0, 0).unwrap();
    assert_eq!(contract.revoke(bob(), 0, jid.clone()), Err(Error::Unauthorized));
    assert_eq!(contract.update_metadata(bob(), 0, jid, vec![]), Err(Error::Unauthorized));
    assert_eq!(contract.revoke(alice(), 0, String::from("none.jid")), Err(Error::JIDNotFound));
}

#[test]
fn paused_registry_blocks_mutations_but_not_reads() {
    let mut contract = deploy("paseo");
    let jid = String::from("alice.jid");
    contract.register(alice(), FEE, 0, jid.clone(), envelope_for(&alice()), 0, 0).unwrap();
    assert_eq!(contract.set_paused(bob(), true), Err(Error::Unauthorized));
    assert!(contract.set_paused(alice(), true).is_ok());
    assert_eq!(contract.update_metadata(alice(), 0, jid.clone(), vec![]), Err(Error::ContractPaused));
    assert_eq!(contract.revoke(alice(), 0, jid.clone()), Err(Error::ContractPaused));
    assert_eq!(
        contract.transfer(alice(), 0, jid.clone(), bob(), envelope_for(&alice()), 0),
        Err(Error::ContractPaused)
    );
    assert!(contract.resolve(0, jid.clone()).is_ok());
    assert!(contract.set_paused(alice(), false).is_ok());
    assert!(contract.revoke(alice(), 0, jid).is_ok());
}

#[test]
fn blacklist_round_trip() {
    let mut contract = deploy("paseo");
    assert_eq!(contract.blacklist_jid(bob(), String::from("spam.jid")), Err(Error::Unauthorized));
    contract.blacklist_jid(alice(), String::from("SPAM.jid")).unwrap();
    assert!(contract.is_blacklisted(String::from("spam.jid")));
    assert_eq!(contract.unblacklist_jid(bob(), String::from("spam.jid")), Err(Error::Unauthorized));
    contract.unblacklist_jid(alice(), String::from("spam.jid")).unwrap();
    assert!(!contract.is_blacklisted(String::from("spam.jid")));
    assert!(contract
        .register(alice(), FEE, 0, String::from("spam.jid"), envelope_for(&alice()), 0, 0)
        .is_ok());
}

#[test]
fn admin_revoke_hashes_reason_and_frees_owner() {
    let mut contract = deploy("paseo");
    let jid = String::from("bob.jid");
    contract.register(bob(), FEE, 0, jid.clone(), envelope_for(&bob()), 0, 0).unwrap();
    let reason = b"Policy violation".to_vec();
    let event = contract.admin_revoke(alice(), 3, jid.clone(), reason.clone()).unwrap();

    let mut expected = [0u8; 32];
    ink::env::hash_bytes::<ink::env::hash::Blake2x256>(&reason, &mut expected);
    assert_eq!(event.reason_hash, H256(expected));
    assert_eq!(event.old_owner, bob());
    assert_eq!(event.timestamp, 3);
    assert_eq!(event.jid_hash, jamid::jid::hash_jid("bob.jid"));
    assert_eq!(contract.resolve_by_account(3, bob()), None);
    assert_eq!(contract.admin_revoke(alice(), 3, String::from("x.jid"), vec![]), Err(Error::JIDNotFound));
}

#[test]
fn withdraw_more_than_holdings_fails() {
    let mut contract = deploy("paseo");
    assert_eq!(contract.withdraw(alice(), 11, 10), Err(Error::TransferFailed));
    assert_eq!(contract.get_total_fees_withdrawn(), 0);
    assert_eq!(contract.withdraw(bob(), 1, 10), Err(Error::Unauthorized));

    let payout = contract.withdraw(alice(), 10, 10).unwrap();
    assert_eq!(payout.to, alice());
    assert_eq!(payout.amount, 10);
    assert_eq!(contract.complete_withdraw(payout, false), Err(Error::TransferFailed));
    assert_eq!(contract.get_total_fees_withdrawn(), 0);
    assert_eq!(contract.complete_withdraw(payout, true), Ok(()));
    assert_eq!(contract.get_total_fees_withdrawn(), 10);
}

#[test]
fn ownership_transfer_is_immediate() {
    let mut contract = deploy("paseo");
    assert_eq!(contract.transfer_ownership(bob(), bob()), Err(Error::Unauthorized));
    assert_eq!(contract.transfer_ownership(alice(), bob()), Ok(()));
    assert_eq!(contract.owner(), bob());
    assert_eq!(contract.set_registration_fee(alice(), 5), Err(Error::Unauthorized));
    assert_eq!(contract.set_registration_fee(bob(), 5), Ok(()));
}

#[test]
fn metadata_update_is_recorded() {
    let mut contract = deploy("paseo");
    let jid = String::from("alice.jid");
    contract.register(alice(), FEE, 1, jid.clone(), envelope_for(&alice()), 0, 0).unwrap();
    let event = contract.update_metadata(alice(), 9, jid.clone(), vec![1, 2, 3]).unwrap();
    assert_eq!(event.updated_at, 9);
    let record = contract.resolve(9, jid).unwrap();
    assert_eq!(record.metadata, vec![1, 2, 3]);
    assert_eq!(record.updated_at, 9);
    assert_eq!(record.registered_at, 1);
}

#[test]
fn revoking_old_identifier_again_keeps_new_slot() {
    let mut contract = deploy("paseo");
    contract.register(alice(), FEE, 0, String::from("first.jid"), envelope_for(&alice()), 0, 0).unwrap();
    contract.revoke(alice(), 1, String::from("first.jid")).unwrap();
    contract.register(alice(), FEE, 2, String::from("second.jid"), envelope_for(&alice()), 1, 0).unwrap();

    // Revoking the old identifier a second time leaves the new binding alone.
    assert!(contract.revoke(alice(), 3, String::from("first.jid")).is_ok());
    assert_eq!(contract.resolve_by_account(3, alice()), Some(String::from("second.jid")));
    assert_eq!(
        contract.register(alice(), FEE, 4, String::from("third.jid"), envelope_for(&alice()), 2, 0),
        Err(Error::AccountAlreadyRegistered)
    );
}
