//! Properties of the registry that relate several operations, stated over
//! the model that the operations' own contracts use.
use crate::envelope::proof_accepted;
use crate::jid::{jid_key, lower_of, valid_jid};
use crate::model::{
    admin_revoke_effect, admin_revoke_error, is_listed, is_zero_account, register_effect,
    register_error, resolve_error, revoke_effect, revoke_error, transfer_effect, transfer_error,
    update_effect, withdraw_error, JamidView, MAX_METADATA_SIZE,
};
use crate::nonce::nonce_in;
use crate::types::{Action, Error};
use vstd::prelude::*;

verus! {

/// Once an identifier is registered, registering it again fails with
/// `JIDAlreadyExists`, whoever the caller and whatever the payment, proof
/// or nonce, and so does registering any spelling with the same lower-case
/// form.
pub proof fn lemma_register_twice(
    v: JamidView,
    caller: Seq<u8>,
    value: u128,
    now: u64,
    jid: Seq<char>,
    envelope: Seq<u8>,
    nonce: u64,
    expires_at: u64,
    caller2: Seq<u8>,
    value2: u128,
    jid2: Seq<char>,
    envelope2: Seq<u8>,
    nonce2: u64,
)
    requires
        register_error(v, caller, value, jid, envelope, nonce) is None,
        lower_of(jid2) == lower_of(jid),
    ensures
        register_error(
            register_effect(v, caller, value, now, jid, nonce, expires_at),
            caller2,
            value2,
            jid2,
            envelope2,
            nonce2,
        ) == Some(Error::JIDAlreadyExists),
{
    assert(jid_key(jid2) == jid_key(jid));
}

/// After a successful registration the account cannot register a second
/// identifier: the attempt fails, and with `AccountAlreadyRegistered` once
/// the identifier itself passes the earlier checks.
pub proof fn lemma_one_identifier_per_account(
    v: JamidView,
    caller: Seq<u8>,
    value: u128,
    now: u64,
    jid: Seq<char>,
    envelope: Seq<u8>,
    nonce: u64,
    expires_at: u64,
    value2: u128,
    jid2: Seq<char>,
    envelope2: Seq<u8>,
    nonce2: u64,
)
    requires
        register_error(v, caller, value, jid, envelope, nonce) is None,
    ensures
        ({
            let after = register_effect(v, caller, value, now, jid, nonce, expires_at);
            &&& register_error(after, caller, value2, jid2, envelope2, nonce2) is Some
            &&& (valid_jid(lower_of(jid2)) && !is_listed(after, jid_key(jid2))
                && !after.records.contains_key(jid_key(jid2))) ==> register_error(
                after,
                caller,
                value2,
                jid2,
                envelope2,
                nonce2,
            ) == Some(Error::AccountAlreadyRegistered)
        }),
{
}

/// Revoking the registered identifier frees the account: right after the
/// revocation it can register a new identifier (one with no record, not
/// blacklisted, well formed, paid for and proved) with the next nonce, the
/// previous one plus one.
pub proof fn lemma_revoke_frees_account(
    v: JamidView,
    caller: Seq<u8>,
    value: u128,
    now: u64,
    jid: Seq<char>,
    envelope: Seq<u8>,
    nonce: u64,
    expires_at: u64,
    revoked_at: u64,
    value2: u128,
    jid2: Seq<char>,
    envelope2: Seq<u8>,
)
    requires
        register_error(v, caller, value, jid, envelope, nonce) is None,
        valid_jid(lower_of(jid2)),
        !is_listed(v, jid_key(jid2)),
        !v.records.contains_key(jid_key(jid2)),
        jid_key(jid2) != jid_key(jid),
        value2 >= v.registration_fee,
        proof_accepted(caller, envelope2),
        nonce + 1 < u64::MAX,
    ensures
        ({
            let registered = register_effect(v, caller, value, now, jid, nonce, expires_at);
            let revoked = revoke_effect(registered, caller, revoked_at, jid);
            &&& revoke_error(registered, caller, jid) is None
            &&& register_error(revoked, caller, value2, jid2, envelope2, (nonce + 1) as u64) is None
        }),
{
}

/// Revoking an identifier, even one revoked before, frees only a slot that
/// holds that identifier: a slot of the caller holding another identifier,
/// and every other account's slot, stay as they were.
pub proof fn lemma_revoke_keeps_other_slots(
    v: JamidView,
    caller: Seq<u8>,
    now: u64,
    jid: Seq<char>,
    account: Seq<u8>,
)
    requires
        revoke_error(v, caller, jid) is None,
        v.accounts.contains_key(account),
        account != caller || v.accounts[account] != jid_key(jid),
    ensures
        revoke_effect(v, caller, now, jid).accounts.contains_key(account),
        revoke_effect(v, caller, now, jid).accounts[account] == v.accounts[account],
{
}

/// A successful registration moves the caller's registration nonce on by
/// exactly one and leaves every other counter, the caller's transfer
/// counter included, as it was.
pub proof fn lemma_register_nonce_step(
    v: JamidView,
    caller: Seq<u8>,
    value: u128,
    now: u64,
    jid: Seq<char>,
    envelope: Seq<u8>,
    nonce: u64,
    expires_at: u64,
    account: Seq<u8>,
    action: Action,
)
    requires
        register_error(v, caller, value, jid, envelope, nonce) is None,
    ensures
        ({
            let after = register_effect(v, caller, value, now, jid, nonce, expires_at);
            &&& nonce_in(after.nonces, caller, Action::Register) == nonce_in(
                v.nonces,
                caller,
                Action::Register,
            ) + 1
            &&& (account, action) != (caller, Action::Register) ==> nonce_in(
                after.nonces,
                account,
                action,
            ) == nonce_in(v.nonces, account, action)
        }),
{
}

/// A successful transfer moves the caller's transfer nonce on by exactly
/// one and leaves every other counter, the caller's registration counter
/// included, as it was.
pub proof fn lemma_transfer_nonce_step(
    v: JamidView,
    caller: Seq<u8>,
    now: u64,
    jid: Seq<char>,
    new_owner: Seq<u8>,
    envelope: Seq<u8>,
    nonce: u64,
    account: Seq<u8>,
    action: Action,
)
    requires
        transfer_error(v, caller, jid, new_owner, envelope, nonce) is None,
    ensures
        ({
            let after = transfer_effect(v, caller, now, jid, new_owner, nonce);
            &&& nonce_in(after.nonces, caller, Action::Transfer) == nonce_in(
                v.nonces,
                caller,
                Action::Transfer,
            ) + 1
            &&& (account, action) != (caller, Action::Transfer) ==> nonce_in(
                after.nonces,
                account,
                action,
            ) == nonce_in(v.nonces, account, action)
        }),
{
}

/// Revocation, administrative revocation and metadata updates leave every
/// nonce counter as it was.
pub proof fn lemma_other_operations_keep_nonces(
    v: JamidView,
    caller: Seq<u8>,
    now: u64,
    jid: Seq<char>,
    metadata: Seq<u8>,
)
    ensures
        revoke_effect(v, caller, now, jid).nonces == v.nonces,
        admin_revoke_effect(v, now, jid).nonces == v.nonces,
        update_effect(v, now, jid, metadata).nonces == v.nonces,
{
}

/// After a revocation the identifier still exists, yet resolving it fails
/// with `JIDRevoked`, at any time.
pub proof fn lemma_revoked_exists_but_does_not_resolve(
    v: JamidView,
    caller: Seq<u8>,
    now: u64,
    jid: Seq<char>,
    later: u64,
)
    requires
        revoke_error(v, caller, jid) is None,
    ensures
        revoke_effect(v, caller, now, jid).records.contains_key(jid_key(jid)),
        resolve_error(revoke_effect(v, caller, now, jid), later, jid) == Some(Error::JIDRevoked),
{
}

/// After an administrative revocation the identifier still exists, yet
/// resolving it fails with `JIDRevoked`, at any time.
pub proof fn lemma_admin_revoked_exists_but_does_not_resolve(
    v: JamidView,
    now: u64,
    jid: Seq<char>,
    later: u64,
)
    requires
        v.records.contains_key(jid_key(jid)),
    ensures
        admin_revoke_effect(v, now, jid).records.contains_key(jid_key(jid)),
        resolve_error(admin_revoke_effect(v, now, jid), later, jid) == Some(Error::JIDRevoked),
{
}

/// The administrator revoking the same identifier twice: the first call
/// succeeds, the second fails with `AlreadyRevoked` (given a reason within
/// the size bound).
pub proof fn lemma_admin_revoke_twice(
    v: JamidView,
    caller: Seq<u8>,
    jid: Seq<char>,
    reason_size: nat,
    now: u64,
    reason_size2: nat,
)
    requires
        admin_revoke_error(v, caller, jid, reason_size) is None,
        reason_size2 <= MAX_METADATA_SIZE,
    ensures
        admin_revoke_error(admin_revoke_effect(v, now, jid), caller, jid, reason_size2) == Some(
            Error::AlreadyRevoked,
        ),
{
}

/// While the registry is not paused, a transfer to the all-zero address
/// fails with `Unauthorized`, whatever the proof and nonce.
pub proof fn lemma_transfer_to_zero_fails(
    v: JamidView,
    caller: Seq<u8>,
    jid: Seq<char>,
    new_owner: Seq<u8>,
    envelope: Seq<u8>,
    nonce: u64,
)
    requires
        !v.paused,
        is_zero_account(new_owner),
    ensures
        transfer_error(v, caller, jid, new_owner, envelope, nonce) == Some(Error::Unauthorized),
{
}

/// A registration that passes every check before payment but attaches less
/// than the fee fails with `InsufficientPayment`, whatever the proof and
/// nonce.
pub proof fn lemma_underpaid_registration_fails(
    v: JamidView,
    caller: Seq<u8>,
    value: u128,
    jid: Seq<char>,
    envelope: Seq<u8>,
    nonce: u64,
)
    requires
        !v.paused,
        valid_jid(lower_of(jid)),
        !is_listed(v, jid_key(jid)),
        !v.records.contains_key(jid_key(jid)),
        !v.accounts.contains_key(caller),
        value < v.registration_fee,
    ensures
        register_error(v, caller, value, jid, envelope, nonce) == Some(Error::InsufficientPayment),
{
}

/// The administrator asking for more than the registry holds is refused
/// with `TransferFailed`; no payout is handed out, so the withdrawn total
/// cannot move.
pub proof fn lemma_overdrawn_withdrawal_fails(
    v: JamidView,
    caller: Seq<u8>,
    amount: u128,
    holdings: u128,
)
    requires
        caller == v.owner,
        amount > holdings,
    ensures
        withdraw_error(v, caller, amount, holdings) == Some(Error::TransferFailed),
{
}

} // verus!
