use ink::env::hash::{Blake2x256, HashOutput, Sha2x256};
use vstd::prelude::*;

verus! {

/// The SHA2-256 digest of a byte string.
pub uninterp spec fn sha2_256_of(input: Seq<u8>) -> Seq<u8>;

/// The BLAKE2b-256 digest of a byte string.
pub uninterp spec fn blake2_256_of(input: Seq<u8>) -> Seq<u8>;

/// Relies on `ink::env::hash_bytes::<Sha2x256>`: it writes the SHA2-256
/// digest of `input` into a 32-byte buffer, a function of `input` alone.
#[verifier::external_body]
pub(crate) fn sha2_256(input: &[u8]) -> (r: [u8; 32])
    ensures
        r@ == sha2_256_of(input@),
{
    let mut output = <Sha2x256 as HashOutput>::Type::default();
    ink::env::hash_bytes::<Sha2x256>(input, &mut output);
    output
}

/// Relies on `ink::env::hash_bytes::<Blake2x256>`: it writes the
/// BLAKE2b-256 digest of `input` into a 32-byte buffer, a function of
/// `input` alone.
#[verifier::external_body]
pub(crate) fn blake2_256(input: &[u8]) -> (r: [u8; 32])
    ensures
        r@ == blake2_256_of(input@),
{
    let mut output = <Blake2x256 as HashOutput>::Type::default();
    ink::env::hash_bytes::<Blake2x256>(input, &mut output);
    output
}

} // verus!
