use crate::crypto::{blake2_256, blake2_256_of, sha2_256};
use crate::hex::{decimal_of, hex_of, push_decimal, push_hex};
use crate::types::{AccountId, Error, H256};
use vstd::prelude::*;
use vstd::utf8::encode_utf8;

verus! {

/// Bytes in a signature envelope: a family tag, a 64-byte signature and a
/// 32-byte public key.
pub const ENVELOPE_LEN: usize = 97;

/// Family tag of an sr25519 signature.
pub const SR25519_TAG: u8 = 0;

/// Family tag of an ed25519 signature.
pub const ED25519_TAG: u8 = 1;

/// `JAMID:`, the namespace every signed message starts with.
pub open spec fn namespace_prefix() -> Seq<u8> {
    seq![74u8, 65u8, 77u8, 73u8, 68u8, 58u8]
}

/// `:register:`
pub open spec fn register_infix() -> Seq<u8> {
    seq![58u8, 114u8, 101u8, 103u8, 105u8, 115u8, 116u8, 101u8, 114u8, 58u8]
}

/// `:transfer:`
pub open spec fn transfer_infix() -> Seq<u8> {
    seq![58u8, 116u8, 114u8, 97u8, 110u8, 115u8, 102u8, 101u8, 114u8, 58u8]
}

/// `:`
pub open spec fn field_separator() -> Seq<u8> {
    seq![58u8]
}

/// The message a registration proof signs:
/// `JAMID:<genesis hex>:register:<identifier>:<nonce>:<registry address hex>`.
pub open spec fn registration_message(
    genesis: Seq<u8>,
    jid: Seq<char>,
    nonce: u64,
    contract: Seq<u8>,
) -> Seq<u8> {
    namespace_prefix() + hex_of(genesis) + register_infix() + encode_utf8(jid) + field_separator()
        + decimal_of(nonce as nat) + field_separator() + hex_of(contract)
}

/// The message a transfer proof signs:
/// `JAMID:<genesis hex>:transfer:<identifier>:<new owner hex>:<nonce>:<registry address hex>`.
pub open spec fn transfer_message(
    genesis: Seq<u8>,
    jid: Seq<char>,
    new_owner: Seq<u8>,
    nonce: u64,
    contract: Seq<u8>,
) -> Seq<u8> {
    namespace_prefix() + hex_of(genesis) + transfer_infix() + encode_utf8(jid) + field_separator()
        + hex_of(new_owner) + field_separator() + decimal_of(nonce as nat) + field_separator()
        + hex_of(contract)
}

/// The public key matches the account under one of three layers: the same
/// 32 bytes; the account's first 32 bytes; or a 32-byte account that is the
/// BLAKE2b-256 digest of the key.
pub open spec fn pubkey_matches(account: Seq<u8>, pubkey: Seq<u8>) -> bool {
    ||| account.len() == 32 && account == pubkey
    ||| account.len() >= 32 && account.subrange(0, 32) == pubkey
    ||| account.len() == 32 && account == blake2_256_of(pubkey)
}

/// What a signature envelope must satisfy to be accepted for `account`: at
/// least 97 bytes, a public key (bytes 65 to 97) that matches the account,
/// and a known family tag. The signature bytes themselves are checked for
/// format only; the key correlation is the trust boundary.
pub open spec fn proof_accepted(account: Seq<u8>, envelope: Seq<u8>) -> bool {
    &&& envelope.len() >= ENVELOPE_LEN
    &&& pubkey_matches(account, envelope.subrange(65, 97))
    &&& (envelope[0] == SR25519_TAG || envelope[0] == ED25519_TAG)
}

fn push_bytes(out: &mut Vec<u8>, bytes: &[u8])
    ensures
        final(out)@ == old(out)@ + bytes@,
{
    let mut i: usize = 0;
    while i < bytes.len()
        invariant
            i <= bytes@.len(),
            out@ == old(out)@ + bytes@.subrange(0, i as int),
        decreases bytes@.len() - i,
    {
        out.push(bytes[i]);
        assert(out@ =~= old(out)@ + bytes@.subrange(0, i + 1));
        i = i + 1;
    }
    assert(bytes@.subrange(0, bytes@.len() as int) =~= bytes@);
}

fn push_namespace(out: &mut Vec<u8>)
    ensures
        final(out)@ == old(out)@ + namespace_prefix(),
{
    let prefix: [u8; 6] = [74u8, 65u8, 77u8, 73u8, 68u8, 58u8];
    push_bytes(out, &prefix);
}

fn push_register_infix(out: &mut Vec<u8>)
    ensures
        final(out)@ == old(out)@ + register_infix(),
{
    let infix: [u8; 10] = [58u8, 114u8, 101u8, 103u8, 105u8, 115u8, 116u8, 101u8, 114u8, 58u8];
    push_bytes(out, &infix);
}

fn push_transfer_infix(out: &mut Vec<u8>)
    ensures
        final(out)@ == old(out)@ + transfer_infix(),
{
    let infix: [u8; 10] = [58u8, 116u8, 114u8, 97u8, 110u8, 115u8, 102u8, 101u8, 114u8, 58u8];
    push_bytes(out, &infix);
}

fn push_separator(out: &mut Vec<u8>)
    ensures
        final(out)@ == old(out)@ + field_separator(),
{
    out.push(58u8);
    assert(out@ =~= old(out)@ + field_separator());
}

/// Builds the exact bytes that a registration proof signs.
pub fn build_registration_message(
    genesis: &H256,
    jid: &str,
    nonce: u64,
    contract: &AccountId,
) -> (r: Vec<u8>)
    ensures
        r@ == registration_message(genesis@, jid@, nonce, contract@),
{
    let mut out: Vec<u8> = Vec::new();
    push_namespace(&mut out);
    push_hex(&mut out, &genesis.0);
    push_register_infix(&mut out);
    push_bytes(&mut out, jid.as_bytes());
    push_separator(&mut out);
    push_decimal(&mut out, nonce);
    push_separator(&mut out);
    push_hex(&mut out, &contract.0);
    assert(out@ =~= registration_message(genesis@, jid@, nonce, contract@));
    out
}

/// Builds the exact bytes that a transfer proof signs.
pub fn build_transfer_message(
    genesis: &H256,
    jid: &str,
    new_owner: &AccountId,
    nonce: u64,
    contract: &AccountId,
) -> (r: Vec<u8>)
    ensures
        r@ == transfer_message(genesis@, jid@, new_owner@, nonce, contract@),
{
    let mut out: Vec<u8> = Vec::new();
    push_namespace(&mut out);
    push_hex(&mut out, &genesis.0);
    push_transfer_infix(&mut out);
    push_bytes(&mut out, jid.as_bytes());
    push_separator(&mut out);
    push_hex(&mut out, &new_owner.0);
    push_separator(&mut out);
    push_decimal(&mut out, nonce);
    push_separator(&mut out);
    push_hex(&mut out, &contract.0);
    assert(out@ =~= transfer_message(genesis@, jid@, new_owner@, nonce, contract@));
    out
}

fn slices_eq(a: &[u8], b: &[u8]) -> (r: bool)
    ensures
        r == (a@ == b@),
{
    if a.len() != b.len() {
        return false;
    }
    let mut i: usize = 0;
    while i < a.len()
        invariant
            a@.len() == b@.len(),
            i <= a@.len(),
            forall|j: int| 0 <= j < i ==> a@[j] == b@[j],
        decreases a@.len() - i,
    {
        if a[i] != b[i] {
            return false;
        }
        i = i + 1;
    }
    assert(a@ =~= b@);
    true
}

/// Correlates a public key with an account under the three layers of
/// `pubkey_matches`.
pub fn compare_pubkey(account: &[u8], pubkey: &[u8]) -> (r: bool)
    ensures
        r == pubkey_matches(account@, pubkey@),
{
    if account.len() == 32 && slices_eq(account, pubkey) {
        return true;
    }
    if account.len() >= 32 && slices_eq(&account[0..32], pubkey) {
        return true;
    }
    if account.len() == 32 {
        let digest = blake2_256(pubkey);
        if slices_eq(account, &digest) {
            return true;
        }
    }
    false
}

/// Format check of an sr25519 signature over `message_hash`: the signature
/// and key have their fixed lengths. No curve arithmetic is done; the key
/// correlation of `compare_pubkey` is what authorises.
pub fn verify_sr25519_basic(signature: &[u8], pubkey: &[u8], _message_hash: &H256) -> (r: Result<
    (),
    Error,
>)
    ensures
        r is Ok <==> (signature@.len() == 64 && pubkey@.len() == 32),
        r is Err ==> r == Err::<(), Error>(Error::InvalidProof),
{
    if signature.len() == 64 && pubkey.len() == 32 {
        Ok(())
    } else {
        Err(Error::InvalidProof)
    }
}

/// Format check of an ed25519 signature over `message_hash`, with the same
/// limits as `verify_sr25519_basic`.
pub fn verify_ed25519_basic(signature: &[u8], pubkey: &[u8], _message_hash: &H256) -> (r: Result<
    (),
    Error,
>)
    ensures
        r is Ok <==> (signature@.len() == 64 && pubkey@.len() == 32),
        r is Err ==> r == Err::<(), Error>(Error::InvalidProof),
{
    if signature.len() == 64 && pubkey.len() == 32 {
        Ok(())
    } else {
        Err(Error::InvalidProof)
    }
}

/// Checks an envelope against the message and its digest: the key must
/// match `account` and the family tag must be known.
fn check_envelope(account: &AccountId, message: &Vec<u8>, envelope: &[u8]) -> (r: Result<
    (),
    Error,
>)
    requires
        envelope@.len() >= ENVELOPE_LEN,
    ensures
        r is Ok <==> proof_accepted(account@, envelope@),
        r is Err ==> r == Err::<(), Error>(Error::InvalidProof),
{
    let sig_type = envelope[0];
    let sig_bytes = &envelope[1..65];
    let pubkey_bytes = &envelope[65..97];
    let message_hash = H256(sha2_256(message.as_slice()));
    if !compare_pubkey(&account.0, pubkey_bytes) {
        return Err(Error::InvalidProof);
    }
    if sig_type == SR25519_TAG {
        verify_sr25519_basic(sig_bytes, pubkey_bytes, &message_hash)
    } else if sig_type == ED25519_TAG {
        verify_ed25519_basic(sig_bytes, pubkey_bytes, &message_hash)
    } else {
        Err(Error::InvalidProof)
    }
}

/// Verifies a registration proof of `account` for `jid` and `nonce`.
pub fn verify_signature(
    genesis: &H256,
    contract: &AccountId,
    account: &AccountId,
    jid: &str,
    nonce: u64,
    signature: &[u8],
) -> (r: Result<(), Error>)
    ensures
        r is Ok <==> proof_accepted(account@, signature@),
        r is Err ==> r == Err::<(), Error>(Error::InvalidProof),
{
    if signature.len() < ENVELOPE_LEN {
        return Err(Error::InvalidProof);
    }
    let message = build_registration_message(genesis, jid, nonce, contract);
    check_envelope(account, &message, signature)
}

/// Verifies a transfer proof of `account` handing `jid` to `new_owner`.
pub fn verify_transfer_signature(
    genesis: &H256,
    contract: &AccountId,
    account: &AccountId,
    jid: &str,
    new_owner: &AccountId,
    nonce: u64,
    signature: &[u8],
) -> (r: Result<(), Error>)
    ensures
        r is Ok <==> proof_accepted(account@, signature@),
        r is Err ==> r == Err::<(), Error>(Error::InvalidProof),
{
    if signature.len() < ENVELOPE_LEN {
        return Err(Error::InvalidProof);
    }
    let message = build_transfer_message(genesis, jid, new_owner, nonce, contract);
    check_envelope(account, &message, signature)
}

} // verus!
