use crate::crypto::{sha2_256, sha2_256_of};
use crate::types::{Error, H256};
use vstd::prelude::*;
use vstd::utf8::encode_utf8;

verus! {

/// Shortest identifier accepted, in characters.
pub const MIN_JID_LENGTH: usize = 3;

/// Longest identifier accepted, in characters.
pub const MAX_JID_LENGTH: usize = 64;

/// The lower-cased form of a string, as Unicode case mapping defines it.
pub uninterp spec fn lower_of(s: Seq<char>) -> Seq<char>;

/// Relies on `str::to_lowercase`: the lowercase equivalent of `s`, which
/// depends on the characters of `s` alone.
#[verifier::external_body]
pub(crate) fn lowercase(s: &str) -> (r: String)
    ensures
        r@ == lower_of(s@),
{
    s.to_lowercase()
}

/// A dot or a hyphen: the two separators an identifier may hold.
pub open spec fn is_separator(c: char) -> bool {
    c == '.' || c == '-'
}

/// An ASCII letter or digit, or a separator.
pub open spec fn is_jid_char(c: char) -> bool {
    ('a' <= c && c <= 'z') || ('A' <= c && c <= 'Z') || ('0' <= c && c <= '9') || is_separator(c)
}

/// The syntax of an identifier: between 3 and 64 characters, each an ASCII
/// letter, digit, `.` or `-`; neither the first nor the last a separator;
/// and no two separators next to each other (`..`, `--`, `.-`, `-.`).
pub open spec fn valid_jid(s: Seq<char>) -> bool {
    &&& MIN_JID_LENGTH <= s.len() <= MAX_JID_LENGTH
    &&& forall|i: int| 0 <= i < s.len() ==> is_jid_char(#[trigger] s[i])
    &&& !is_separator(s[0])
    &&& !is_separator(s[s.len() - 1])
    &&& forall|i: int|
        0 <= i < s.len() - 1 ==> !(is_separator(#[trigger] s[i]) && is_separator(s[i + 1]))
}

/// The storage key of an identifier as a caller writes it: the SHA2-256
/// digest of the UTF-8 bytes of its lower-cased form.
pub open spec fn jid_key(jid: Seq<char>) -> Seq<u8> {
    sha2_256_of(encode_utf8(lower_of(jid)))
}

fn is_jid_char_exec(c: char) -> (r: bool)
    ensures
        r == is_jid_char(c),
{
    ('a' <= c && c <= 'z') || ('A' <= c && c <= 'Z') || ('0' <= c && c <= '9') || c == '.' || c
        == '-'
}

fn is_separator_exec(c: char) -> (r: bool)
    ensures
        r == is_separator(c),
{
    c == '.' || c == '-'
}

/// Checks the syntax of an already normalized identifier.
pub fn validate_jid(jid: &str) -> (r: Result<(), Error>)
    ensures
        r is Ok <==> valid_jid(jid@),
        r is Err ==> r == Err::<(), Error>(Error::InvalidJID),
{
    let len = jid.unicode_len();
    if len < MIN_JID_LENGTH || len > MAX_JID_LENGTH {
        return Err(Error::InvalidJID);
    }
    if is_separator_exec(jid.get_char(0)) || is_separator_exec(jid.get_char(len - 1)) {
        return Err(Error::InvalidJID);
    }
    let mut i: usize = 0;
    while i < len
        invariant
            len == jid@.len(),
            MIN_JID_LENGTH <= len <= MAX_JID_LENGTH,
            i <= len,
            !is_separator(jid@[0]),
            !is_separator(jid@[len - 1]),
            forall|j: int| 0 <= j < i ==> is_jid_char(#[trigger] jid@[j]),
            forall|j: int|
                0 <= j < i && j + 1 < len ==> !(is_separator(#[trigger] jid@[j]) && is_separator(
                    jid@[j + 1],
                )),
        decreases len - i,
    {
        let c = jid.get_char(i);
        if !is_jid_char_exec(c) {
            return Err(Error::InvalidJID);
        }
        if i + 1 < len && is_separator_exec(c) && is_separator_exec(jid.get_char(i + 1)) {
            return Err(Error::InvalidJID);
        }
        i = i + 1;
    }
    Ok(())
}

/// The SHA2-256 digest of the identifier's UTF-8 bytes.
pub fn hash_jid(jid: &str) -> (r: H256)
    ensures
        r@ == sha2_256_of(encode_utf8(jid@)),
{
    H256(sha2_256(jid.as_bytes()))
}

/// Lower-cases an identifier and computes its storage key.
pub fn normalize_jid(jid: &str) -> (r: (String, H256))
    ensures
        r.0@ == lower_of(jid@),
        r.1@ == jid_key(jid@),
{
    let normalized = lowercase(jid);
    let key = hash_jid(normalized.as_str());
    (normalized, key)
}

} // verus!
