use jamid::envelope::{build_registration_message, build_transfer_message, compare_pubkey};
use jamid::hex::{hex_char, push_decimal, push_hex};
use jamid::jid::{hash_jid, normalize_jid, validate_jid};
use jamid::types::{AccountId, Error, H256};

#[test]
fn identifier_length_boundaries() {
    assert_eq!(validate_jid("ab"), Err(Error::InvalidJID));
    assert_eq!(validate_jid("abc"), Ok(()));
    let longest = "a".repeat(64);
    assert_eq!(validate_jid(&longest), Ok(()));
    let too_long = "a".repeat(65);
    assert_eq!(validate_jid(&too_long), Err(Error::InvalidJID));
    assert_eq!(validate_jid(""), Err(Error::InvalidJID));
}

#[test]
fn identifier_syntax_violations() {
    for bad in [
        ".alice", "-alice", "alice.", "alice-", "al..ice", "al--ice", "al.-ice", "al-.ice",
        "al ice", "al_ice", "alice@x", "café.jid",
    ] {
        assert_eq!(validate_jid(bad), Err(Error::InvalidJID), "{}", bad);
    }
    for good in ["a.b-c", "alice.jid", "x1-y2.z3", "ABC"] {
        assert_eq!(validate_jid(good), Ok(()), "{}", good);
    }
}

#[test]
fn normalization_lowercases_and_hashes() {
    let (normalized, key) = normalize_jid("Alice.JID");
    assert_eq!(normalized, "alice.jid");
    assert_eq!(key, hash_jid("alice.jid"));
}

#[test]
fn identifier_hash_is_sha2_256() {
    let expected: [u8; 32] = [
        0xba, 0x78, 0x16, 0xbf, 0x8f, 0x01, 0xcf, 0xea, 0x41, 0x41, 0x40, 0xde, 0x5d, 0xae, 0x22,
        0x23, 0xb0, 0x03, 0x61, 0xa3, 0x96, 0x17, 0x7a, 0x9c, 0xb4, 0x10, 0xff, 0x61, 0xf2, 0x00,
        0x15, 0xad,
    ];
    assert_eq!(hash_jid("abc"), H256(expected));
}

#[test]
fn hex_digits() {
    assert_eq!(hex_char(0), b'0');
    assert_eq!(hex_char(9), b'9');
    assert_eq!(hex_char(10), b'a');
    assert_eq!(hex_char(15), b'f');
    assert_eq!(hex_char(16), b'0');
    let mut out = b"x".to_vec();
    push_hex(&mut out, &[0x00, 0x9f, 0xa5, 0xff]);
    assert_eq!(out, b"x009fa5ff".to_vec());
}

#[test]
fn decimal_digits() {
    let mut out = Vec::new();
    push_decimal(&mut out, 0);
    assert_eq!(out, b"0".to_vec());
    let mut out = Vec::new();
    push_decimal(&mut out, 1234);
    assert_eq!(out, b"1234".to_vec());
    let mut out = Vec::new();
    push_decimal(&mut out, u64::MAX);
    assert_eq!(out, b"18446744073709551615".to_vec());
}

#[test]
fn registration_message_layout() {
    let genesis = H256([0x11; 32]);
    let registry = AccountId([0xab; 32]);
    let message = build_registration_message(&genesis, "alice.jid", 7, &registry);
    let expected = format!("JAMID:{}:register:alice.jid:7:{}", "11".repeat(32), "ab".repeat(32));
    assert_eq!(message, expected.into_bytes());
}

#[test]
fn transfer_message_layout() {
    let genesis = H256([0x00; 32]);
    let registry = AccountId([0x01; 32]);
    let new_owner = AccountId([0xfe; 32]);
    let message = build_transfer_message(&genesis, "bob.jid", &new_owner, 12, &registry);
    let expected = format!(
        "JAMID:{}:transfer:bob.jid:{}:12:{}",
        "00".repeat(32),
        "fe".repeat(32),
        "01".repeat(32)
    );
    assert_eq!(message, expected.into_bytes());
}

#[test]
fn public_key_correlation_layers() {
    let key = [0x42u8; 32];
    assert!(compare_pubkey(&key, &key));
    assert!(!compare_pubkey(&[0x43u8; 32], &key));

    // A longer account matches on its first 32 bytes.
    let mut long_account = key.to_vec();
    long_account.extend_from_slice(&[9, 9, 9]);
    assert!(compare_pubkey(&long_account, &key));

    // A 32-byte account that is the BLAKE2b-256 digest of the key.
    let mut digest = [0u8; 32];
    ink::env::hash_bytes::<ink::env::hash::Blake2x256>(&key, &mut digest);
    assert!(compare_pubkey(&digest, &key));
    assert!(!compare_pubkey(&key[..31], &key));
}
