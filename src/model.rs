use crate::envelope::proof_accepted;
use crate::jid::{jid_key, lower_of, valid_jid};
use crate::nonce::nonce_in;
use crate::record::RecordView;
use crate::types::{Action, Error};
use vstd::prelude::*;

verus! {

/// Largest metadata blob, and largest revocation reason, in bytes.
pub const MAX_METADATA_SIZE: usize = 256;

/// The registration fee a new registry starts with.
pub const DEFAULT_REGISTRATION_FEE: u128 = 1_000_000_000_000;

/// The registry's whole state as plain values. Identifiers are keyed by
/// `jid_key`, accounts by their bytes.
#[verifier::ext_equal]
pub struct JamidView {
    /// Identifier key to record; records are never deleted.
    pub records: Map<Seq<u8>, RecordView>,
    /// Identifier key to the normalized identifier.
    pub names: Map<Seq<u8>, Seq<char>>,
    /// Account to the key of the identifier it holds.
    pub accounts: Map<Seq<u8>, Seq<u8>>,
    /// Stored nonce counters.
    pub nonces: Map<(Seq<u8>, Action), u64>,
    /// The administrator.
    pub owner: Seq<u8>,
    pub paused: bool,
    /// Blacklisted identifier keys.
    pub blacklist: Map<Seq<u8>, bool>,
    /// Registrations ever made; never decremented.
    pub total_jids: u64,
    pub registration_fee: u128,
    pub total_fees_collected: u128,
    pub total_fees_withdrawn: u128,
    /// Display label of the chain.
    pub chain_id: Seq<char>,
    /// Genesis fingerprint, part of every signed message.
    pub genesis_hash: Seq<u8>,
    /// The registry's own address, part of every signed message.
    pub contract_address: Seq<u8>,
}

/// A blacklist entry for `key` is set.
pub open spec fn is_listed(v: JamidView, key: Seq<u8>) -> bool {
    v.blacklist.contains_key(key) && v.blacklist[key]
}

/// The all-zero address, which can never own an identifier.
pub open spec fn is_zero_account(a: Seq<u8>) -> bool {
    forall|i: int| 0 <= i < a.len() ==> a[i] == 0
}

/// The record of the identifier that `jid` names.
pub open spec fn record_of(v: JamidView, jid: Seq<char>) -> RecordView {
    v.records[jid_key(jid)]
}

/// Why `register` fails, checked cheapest first; `None` when it succeeds.
pub open spec fn register_error(
    v: JamidView,
    caller: Seq<u8>,
    value: u128,
    jid: Seq<char>,
    envelope: Seq<u8>,
    nonce: u64,
) -> Option<Error> {
    let key = jid_key(jid);
    if v.paused {
        Some(Error::ContractPaused)
    } else if !valid_jid(lower_of(jid)) {
        Some(Error::InvalidJID)
    } else if is_listed(v, key) {
        Some(Error::JIDBlacklisted)
    } else if v.records.contains_key(key) {
        Some(Error::JIDAlreadyExists)
    } else if v.accounts.contains_key(caller) {
        Some(Error::AccountAlreadyRegistered)
    } else if value < v.registration_fee {
        Some(Error::InsufficientPayment)
    } else if nonce != nonce_in(v.nonces, caller, Action::Register) {
        Some(Error::InvalidNonce)
    } else if !proof_accepted(caller, envelope) {
        Some(Error::InvalidProof)
    } else if nonce == u64::MAX {
        Some(Error::NonceOverflow)
    } else {
        None
    }
}

/// The state after a successful `register`.
pub open spec fn register_effect(
    v: JamidView,
    caller: Seq<u8>,
    value: u128,
    now: u64,
    jid: Seq<char>,
    nonce: u64,
    expires_at: u64,
) -> JamidView {
    let key = jid_key(jid);
    let record = RecordView {
        owner: caller,
        registered_at: now,
        updated_at: now,
        metadata: Seq::empty(),
        is_active: true,
        expires_at,
    };
    JamidView {
        records: v.records.insert(key, record),
        names: v.names.insert(key, lower_of(jid)),
        accounts: v.accounts.insert(caller, key),
        nonces: v.nonces.insert((caller, Action::Register), (nonce + 1) as u64),
        total_jids: v.total_jids.saturating_add(1),
        total_fees_collected: v.total_fees_collected.saturating_add(value),
        ..v
    }
}

/// Why `resolve` fails: absent, then revoked, then expired.
pub open spec fn resolve_error(v: JamidView, now: u64, jid: Seq<char>) -> Option<Error> {
    let key = jid_key(jid);
    if !v.records.contains_key(key) {
        Some(Error::JIDNotFound)
    } else if !v.records[key].is_active {
        Some(Error::JIDRevoked)
    } else if v.records[key].expires_at > 0 && v.records[key].expires_at < now {
        Some(Error::JIDExpired)
    } else {
        None
    }
}

/// What `resolve_by_account` returns: the identifier the account holds,
/// under the same policy as `resolve`: its record is active and not
/// expired.
pub open spec fn account_name(v: JamidView, now: u64, account: Seq<u8>) -> Option<Seq<char>> {
    if !v.accounts.contains_key(account) {
        None
    } else {
        let key = v.accounts[account];
        if !v.records.contains_key(key) {
            None
        } else if !v.records[key].is_active {
            None
        } else if v.records[key].expires_at > 0 && v.records[key].expires_at < now {
            None
        } else if v.names.contains_key(key) {
            Some(v.names[key])
        } else {
            None
        }
    }
}

/// Why `update_metadata` fails.
pub open spec fn update_error(v: JamidView, caller: Seq<u8>, jid: Seq<char>, size: nat) -> Option<
    Error,
> {
    let key = jid_key(jid);
    if v.paused {
        Some(Error::ContractPaused)
    } else if size > MAX_METADATA_SIZE {
        Some(Error::MetadataTooLarge)
    } else if !v.records.contains_key(key) {
        Some(Error::JIDNotFound)
    } else if v.records[key].owner != caller {
        Some(Error::Unauthorized)
    } else if !v.records[key].is_active {
        Some(Error::JIDRevoked)
    } else {
        None
    }
}

/// The state after a successful `update_metadata`.
pub open spec fn update_effect(v: JamidView, now: u64, jid: Seq<char>, metadata: Seq<u8>) -> JamidView {
    let key = jid_key(jid);
    JamidView {
        records: v.records.insert(
            key,
            RecordView { metadata, updated_at: now, ..v.records[key] },
        ),
        ..v
    }
}

/// Why `transfer` fails.
pub open spec fn transfer_error(
    v: JamidView,
    caller: Seq<u8>,
    jid: Seq<char>,
    new_owner: Seq<u8>,
    envelope: Seq<u8>,
    nonce: u64,
) -> Option<Error> {
    let key = jid_key(jid);
    if v.paused {
        Some(Error::ContractPaused)
    } else if is_zero_account(new_owner) {
        Some(Error::Unauthorized)
    } else if !v.records.contains_key(key) {
        Some(Error::JIDNotFound)
    } else if v.records[key].owner != caller {
        Some(Error::Unauthorized)
    } else if !v.records[key].is_active {
        Some(Error::JIDRevoked)
    } else if v.accounts.contains_key(new_owner) {
        Some(Error::AccountAlreadyRegistered)
    } else if nonce != nonce_in(v.nonces, caller, Action::Transfer) {
        Some(Error::InvalidNonce)
    } else if !proof_accepted(caller, envelope) {
        Some(Error::InvalidProof)
    } else if nonce == u64::MAX {
        Some(Error::NonceOverflow)
    } else {
        None
    }
}

/// The state after a successful `transfer`.
pub open spec fn transfer_effect(
    v: JamidView,
    caller: Seq<u8>,
    now: u64,
    jid: Seq<char>,
    new_owner: Seq<u8>,
    nonce: u64,
) -> JamidView {
    let key = jid_key(jid);
    JamidView {
        records: v.records.insert(
            key,
            RecordView { owner: new_owner, updated_at: now, ..v.records[key] },
        ),
        accounts: v.accounts.remove(caller).insert(new_owner, key),
        nonces: v.nonces.insert((caller, Action::Transfer), (nonce + 1) as u64),
        ..v
    }
}

/// Why `revoke` fails.
pub open spec fn revoke_error(v: JamidView, caller: Seq<u8>, jid: Seq<char>) -> Option<Error> {
    let key = jid_key(jid);
    if v.paused {
        Some(Error::ContractPaused)
    } else if !v.records.contains_key(key) {
        Some(Error::JIDNotFound)
    } else if v.records[key].owner != caller {
        Some(Error::Unauthorized)
    } else {
        None
    }
}

/// The record of `key` made inactive at `now`.
pub open spec fn revoked_record(v: JamidView, now: u64, key: Seq<u8>) -> RecordView {
    RecordView { is_active: false, updated_at: now, ..v.records[key] }
}

/// The account index with `account`'s slot freed, if that slot holds `key`;
/// a slot holding another identifier stays.
pub open spec fn release_slot(accounts: Map<Seq<u8>, Seq<u8>>, account: Seq<u8>, key: Seq<u8>) -> Map<
    Seq<u8>,
    Seq<u8>,
> {
    if accounts.contains_key(account) && accounts[account] == key {
        accounts.remove(account)
    } else {
        accounts
    }
}

/// The state after a successful `revoke`: the record is inactive and the
/// caller's account slot is free if it held this identifier.
pub open spec fn revoke_effect(v: JamidView, caller: Seq<u8>, now: u64, jid: Seq<char>) -> JamidView {
    let key = jid_key(jid);
    JamidView {
        records: v.records.insert(key, revoked_record(v, now, key)),
        accounts: release_slot(v.accounts, caller, key),
        ..v
    }
}

/// Why `admin_revoke` fails.
pub open spec fn admin_revoke_error(
    v: JamidView,
    caller: Seq<u8>,
    jid: Seq<char>,
    reason_size: nat,
) -> Option<Error> {
    let key = jid_key(jid);
    if caller != v.owner {
        Some(Error::Unauthorized)
    } else if reason_size > MAX_METADATA_SIZE {
        Some(Error::MetadataTooLarge)
    } else if !v.records.contains_key(key) {
        Some(Error::JIDNotFound)
    } else if !v.records[key].is_active {
        Some(Error::AlreadyRevoked)
    } else {
        None
    }
}

/// The state after a successful `admin_revoke`: the record is inactive and
/// its owner's account slot is free if it held this identifier.
pub open spec fn admin_revoke_effect(v: JamidView, now: u64, jid: Seq<char>) -> JamidView {
    let key = jid_key(jid);
    JamidView {
        records: v.records.insert(key, revoked_record(v, now, key)),
        accounts: release_slot(v.accounts, v.records[key].owner, key),
        ..v
    }
}

/// `Unauthorized` unless the caller is the administrator.
pub open spec fn admin_error(v: JamidView, caller: Seq<u8>) -> Option<Error> {
    if caller != v.owner {
        Some(Error::Unauthorized)
    } else {
        None
    }
}

/// Why `withdraw` refuses: not the administrator, or more than the
/// registry holds.
pub open spec fn withdraw_error(v: JamidView, caller: Seq<u8>, amount: u128, holdings: u128) -> Option<
    Error,
> {
    if caller != v.owner {
        Some(Error::Unauthorized)
    } else if amount > holdings {
        Some(Error::TransferFailed)
    } else {
        None
    }
}

/// Why `set_registration_fee` fails.
pub open spec fn fee_error(v: JamidView, caller: Seq<u8>, fee: u128) -> Option<Error> {
    if caller != v.owner {
        Some(Error::Unauthorized)
    } else if fee == 0 {
        Some(Error::InvalidFeeAmount)
    } else {
        None
    }
}

} // verus!
