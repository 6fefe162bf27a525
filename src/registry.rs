use crate::crypto::{blake2_256, blake2_256_of};
use crate::envelope::{verify_signature, verify_transfer_signature};
use crate::events::{
    ContractPaused, JIDRegistered, JIDRevoked, JIDTransferred, JIDUpdated, JidAdminRevoked,
};
use crate::jid::{jid_key, normalize_jid, validate_jid};
use crate::model::{
    account_name, admin_error, admin_revoke_effect, admin_revoke_error, fee_error, is_listed,
    is_zero_account, register_effect, register_error, release_slot, resolve_error, revoke_effect,
    revoke_error, transfer_effect, transfer_error, update_effect, update_error, withdraw_error,
    JamidView, DEFAULT_REGISTRATION_FEE, MAX_METADATA_SIZE,
};
use crate::nonce::{nonce_in, NonceLedger};
use crate::record::JIDRecord;
use crate::table::{bytes32_eq, Table};
use crate::types::{AccountId, Action, Balance, Error, Timestamp, H256};
use vstd::prelude::*;

verus! {

/// A withdrawal the host is to carry out: pay `amount` to `to`.
#[derive(Debug, Clone, Copy, PartialEq, Eq)]
pub struct Payout {
    pub to: AccountId,
    pub amount: Balance,
}

/// The identity registry. Host-supplied facts (the caller, the attached
/// value, the current time, the registry's holdings) are parameters of the
/// operations that need them.
pub struct Jamid {
    jid_registry: Table<JIDRecord>,
    hash_to_jid: Table<String>,
    account_to_jid: Table<H256>,
    nonces: NonceLedger,
    owner: AccountId,
    paused: bool,
    blacklist: Table<bool>,
    total_jids: u64,
    registration_fee: Balance,
    total_fees_collected: Balance,
    total_fees_withdrawn: Balance,
    chain_id: String,
    genesis_hash: H256,
    contract_address: AccountId,
}

impl View for Jamid {
    type V = JamidView;

    closed spec fn view(&self) -> JamidView {
        JamidView {
            records: self.jid_registry@,
            names: self.hash_to_jid@,
            accounts: self.account_to_jid@,
            nonces: self.nonces@,
            owner: self.owner@,
            paused: self.paused,
            blacklist: self.blacklist@,
            total_jids: self.total_jids,
            registration_fee: self.registration_fee,
            total_fees_collected: self.total_fees_collected,
            total_fees_withdrawn: self.total_fees_withdrawn,
            chain_id: self.chain_id@,
            genesis_hash: self.genesis_hash@,
            contract_address: self.contract_address@,
        }
    }
}

fn same_account(a: &AccountId, b: &AccountId) -> (r: bool)
    ensures
        r == (a@ == b@),
{
    bytes32_eq(&a.0, &b.0)
}

fn is_zero(account: &AccountId) -> (r: bool)
    ensures
        r == is_zero_account(account@),
{
    let mut i: usize = 0;
    while i < 32
        invariant
            i <= 32,
            forall|j: int| 0 <= j < i ==> account@[j] == 0,
        decreases 32 - i,
    {
        if account.0[i] != 0 {
            return false;
        }
        i = i + 1;
    }
    true
}

impl Jamid {
    /// The internal tables are well formed.
    pub closed spec fn wf(&self) -> bool {
        &&& self.jid_registry.wf()
        &&& self.hash_to_jid.wf()
        &&& self.account_to_jid.wf()
        &&& self.nonces.wf()
        &&& self.blacklist.wf()
    }

    /// A new, empty, unpaused registry administered by `deployer`, for the
    /// chain labelled `chain_id` whose genesis fingerprint is `genesis_hash`,
    /// living at `contract_address`.
    pub fn new(chain_id: String, genesis_hash: H256, deployer: AccountId, contract_address: AccountId) -> (r: Jamid)
        ensures
            r.wf(),
            r@.records.is_empty(),
            r@.names.is_empty(),
            r@.accounts.is_empty(),
            r@.nonces.is_empty(),
            r@.blacklist.is_empty(),
            r@.owner == deployer@,
            !r@.paused,
            r@.total_jids == 0,
            r@.registration_fee == DEFAULT_REGISTRATION_FEE,
            r@.total_fees_collected == 0,
            r@.total_fees_withdrawn == 0,
            r@.chain_id == chain_id@,
            r@.genesis_hash == genesis_hash@,
            r@.contract_address == contract_address@,
    {
        Jamid {
            jid_registry: Table::new(),
            hash_to_jid: Table::new(),
            account_to_jid: Table::new(),
            nonces: NonceLedger::new(),
            owner: deployer,
            paused: false,
            blacklist: Table::new(),
            total_jids: 0,
            registration_fee: DEFAULT_REGISTRATION_FEE,
            total_fees_collected: 0,
            total_fees_withdrawn: 0,
            chain_id,
            genesis_hash,
            contract_address,
        }
    }

    /// Registers `jid` for `caller`, who attached `transferred` and proves
    /// possession with the envelope `signature` under `nonce`. Checks run
    /// cheapest first; any failure leaves the state as it was.
    pub fn register(
        &mut self,
        caller: AccountId,
        transferred: Balance,
        now: Timestamp,
        jid: String,
        signature: Vec<u8>,
        nonce: u64,
        expires_at: Timestamp,
    ) -> (r: Result<JIDRegistered, Error>)
        requires
            old(self).wf(),
        ensures
            final(self).wf(),
            match register_error(old(self)@, caller@, transferred, jid@, signature@, nonce) {
                Some(e) => r == Err::<JIDRegistered, Error>(e) && final(self)@ == old(self)@,
                None => {
                    &&& final(self)@ == register_effect(
                        old(self)@,
                        caller@,
                        transferred,
                        now,
                        jid@,
                        nonce,
                        expires_at,
                    )
                    &&& r is Ok
                    &&& r->Ok_0.jid_hash@ == jid_key(jid@)
                    &&& r->Ok_0.owner == caller
                    &&& r->Ok_0.registered_at == now
                },
            },
    {
        if self.paused {
            return Err(Error::ContractPaused);
        }
        let (normalized, jid_hash) = normalize_jid(jid.as_str());
        if validate_jid(normalized.as_str()).is_err() {
            return Err(Error::InvalidJID);
        }
        let listed = match self.blacklist.get(&jid_hash.0) {
            Some(flag) => *flag,
            None => false,
        };
        if listed {
            return Err(Error::JIDBlacklisted);
        }
        if self.jid_registry.contains(&jid_hash.0) {
            return Err(Error::JIDAlreadyExists);
        }
        if self.account_to_jid.contains(&caller.0) {
            return Err(Error::AccountAlreadyRegistered);
        }
        if transferred < self.registration_fee {
            return Err(Error::InsufficientPayment);
        }
        let expected = self.get_nonce_of(&caller, Action::Register);
        if nonce != expected {
            return Err(Error::InvalidNonce);
        }
        if verify_signature(
            &self.genesis_hash,
            &self.contract_address,
            &caller,
            normalized.as_str(),
            nonce,
            signature.as_slice(),
        ).is_err() {
            return Err(Error::InvalidProof);
        }
        if self.bump_nonce_of(&caller, Action::Register).is_err() {
            return Err(Error::NonceOverflow);
        }
        let record = JIDRecord {
            owner: caller,
            registered_at: now,
            updated_at: now,
            metadata: Vec::new(),
            is_active: true,
            expires_at,
        };
        self.jid_registry.insert(jid_hash.0, record);
        self.hash_to_jid.insert(jid_hash.0, normalized);
        self.account_to_jid.insert(caller.0, jid_hash);
        self.total_jids = self.total_jids.saturating_add(1);
        self.total_fees_collected = self.total_fees_collected.saturating_add(transferred);
        proof {
            let expected_record = register_effect(
                old(self)@,
                caller@,
                transferred,
                now,
                jid@,
                nonce,
                expires_at,
            ).records[jid_key(jid@)];
            assert(self@.records[jid_key(jid@)] =~= expected_record);
            assert(self@ =~= register_effect(
                old(self)@,
                caller@,
                transferred,
                now,
                jid@,
                nonce,
                expires_at,
            ));
        }
        Ok(JIDRegistered { jid_hash, owner: caller, registered_at: now })
    }

    /// Hands `jid` from `caller` to `new_owner`, with a transfer proof of
    /// `caller` under its transfer nonce.
    pub fn transfer(
        &mut self,
        caller: AccountId,
        now: Timestamp,
        jid: String,
        new_owner: AccountId,
        signature: Vec<u8>,
        nonce: u64,
    ) -> (r: Result<JIDTransferred, Error>)
        requires
            old(self).wf(),
        ensures
            final(self).wf(),
            match transfer_error(old(self)@, caller@, jid@, new_owner@, signature@, nonce) {
                Some(e) => r == Err::<JIDTransferred, Error>(e) && final(self)@ == old(self)@,
                None => {
                    &&& final(self)@ == transfer_effect(
                        old(self)@,
                        caller@,
                        now,
                        jid@,
                        new_owner@,
                        nonce,
                    )
                    &&& r is Ok
                    &&& r->Ok_0.jid_hash@ == jid_key(jid@)
                    &&& r->Ok_0.from == caller
                    &&& r->Ok_0.to == new_owner
                    &&& r->Ok_0.transferred_at == now
                },
            },
    {
        if self.paused {
            return Err(Error::ContractPaused);
        }
        if is_zero(&new_owner) {
            return Err(Error::Unauthorized);
        }
        let (normalized, jid_hash) = normalize_jid(jid.as_str());
        let mut record = match self.jid_registry.get(&jid_hash.0) {
            Some(found) => found.duplicate(),
            None => {
                return Err(Error::JIDNotFound);
            },
        };
        if !same_account(&record.owner, &caller) {
            return Err(Error::Unauthorized);
        }
        if !record.is_active {
            return Err(Error::JIDRevoked);
        }
        if self.account_to_jid.contains(&new_owner.0) {
            return Err(Error::AccountAlreadyRegistered);
        }
        let expected = self.get_nonce_of(&caller, Action::Transfer);
        if nonce != expected {
            return Err(Error::InvalidNonce);
        }
        if verify_transfer_signature(
            &self.genesis_hash,
            &self.contract_address,
            &caller,
            normalized.as_str(),
            &new_owner,
            nonce,
            signature.as_slice(),
        ).is_err() {
            return Err(Error::InvalidProof);
        }
        if self.bump_nonce_of(&caller, Action::Transfer).is_err() {
            return Err(Error::NonceOverflow);
        }
        self.account_to_jid.remove(&caller.0);
        self.account_to_jid.insert(new_owner.0, jid_hash);
        record.owner = new_owner;
        record.updated_at = now;
        self.jid_registry.insert(jid_hash.0, record);
        proof {
            let expected_state = transfer_effect(old(self)@, caller@, now, jid@, new_owner@, nonce);
            assert(self@.records[jid_key(jid@)] =~= expected_state.records[jid_key(jid@)]);
            assert(self@ =~= expected_state);
        }
        Ok(JIDTransferred { jid_hash, from: caller, to: new_owner, transferred_at: now })
    }

    /// Revokes `jid` at its owner's request and frees the owner's account
    /// slot. Revocation is final.
    pub fn revoke(&mut self, caller: AccountId, now: Timestamp, jid: String) -> (r: Result<
        JIDRevoked,
        Error,
    >)
        requires
            old(self).wf(),
        ensures
            final(self).wf(),
            match revoke_error(old(self)@, caller@, jid@) {
                Some(e) => r == Err::<JIDRevoked, Error>(e) && final(self)@ == old(self)@,
                None => {
                    &&& final(self)@ == revoke_effect(old(self)@, caller@, now, jid@)
                    &&& r is Ok
                    &&& r->Ok_0.jid_hash@ == jid_key(jid@)
                    &&& r->Ok_0.revoked_at == now
                },
            },
    {
        if self.paused {
            return Err(Error::ContractPaused);
        }
        let (_normalized, jid_hash) = normalize_jid(jid.as_str());
        let mut record = match self.jid_registry.get(&jid_hash.0) {
            Some(found) => found.duplicate(),
            None => {
                return Err(Error::JIDNotFound);
            },
        };
        if !same_account(&record.owner, &caller) {
            return Err(Error::Unauthorized);
        }
        record.is_active = false;
        record.updated_at = now;
        self.jid_registry.insert(jid_hash.0, record);
        self.free_slot(&caller, &jid_hash);
        proof {
            let expected_state = revoke_effect(old(self)@, caller@, now, jid@);
            assert(self@.records[jid_key(jid@)] =~= expected_state.records[jid_key(jid@)]);
            assert(self@ =~= expected_state);
        }
        Ok(JIDRevoked { jid_hash, revoked_at: now })
    }

    /// Revokes `jid` by the administrator's decision. The reason, at most
    /// 256 bytes, reaches the log only as its BLAKE2b-256 digest.
    pub fn admin_revoke(&mut self, caller: AccountId, now: Timestamp, jid: String, reason: Vec<u8>) -> (r:
        Result<JidAdminRevoked, Error>)
        requires
            old(self).wf(),
        ensures
            final(self).wf(),
            match admin_revoke_error(old(self)@, caller@, jid@, reason@.len()) {
                Some(e) => r == Err::<JidAdminRevoked, Error>(e) && final(self)@ == old(self)@,
                None => {
                    &&& final(self)@ == admin_revoke_effect(old(self)@, now, jid@)
                    &&& r is Ok
                    &&& r->Ok_0.jid_hash@ == jid_key(jid@)
                    &&& r->Ok_0.old_owner@ == old(self)@.records[jid_key(jid@)].owner
                    &&& r->Ok_0.reason_hash@ == blake2_256_of(reason@)
                    &&& r->Ok_0.timestamp == now
                },
            },
    {
        if self.only_owner(&caller).is_err() {
            return Err(Error::Unauthorized);
        }
        if reason.len() > MAX_METADATA_SIZE {
            return Err(Error::MetadataTooLarge);
        }
        let (_normalized, jid_hash) = normalize_jid(jid.as_str());
        let mut record = match self.jid_registry.get(&jid_hash.0) {
            Some(found) => found.duplicate(),
            None => {
                return Err(Error::JIDNotFound);
            },
        };
        if !record.is_active {
            return Err(Error::AlreadyRevoked);
        }
        let old_owner = record.owner;
        record.is_active = false;
        record.updated_at = now;
        self.jid_registry.insert(jid_hash.0, record);
        self.free_slot(&old_owner, &jid_hash);
        let reason_hash = H256(blake2_256(reason.as_slice()));
        proof {
            let expected_state = admin_revoke_effect(old(self)@, now, jid@);
            assert(self@.records[jid_key(jid@)] =~= expected_state.records[jid_key(jid@)]);
            assert(self@ =~= expected_state);
        }
        Ok(JidAdminRevoked { jid_hash, old_owner, reason_hash, timestamp: now })
    }

    /// Replaces the metadata of `jid`, which `caller` must own and which
    /// must be active.
    pub fn update_metadata(&mut self, caller: AccountId, now: Timestamp, jid: String, metadata: Vec<u8>) -> (r:
        Result<JIDUpdated, Error>)
        requires
            old(self).wf(),
        ensures
            final(self).wf(),
            match update_error(old(self)@, caller@, jid@, metadata@.len()) {
                Some(e) => r == Err::<JIDUpdated, Error>(e) && final(self)@ == old(self)@,
                None => {
                    &&& final(self)@ == update_effect(old(self)@, now, jid@, metadata@)
                    &&& r is Ok
                    &&& r->Ok_0.jid_hash@ == jid_key(jid@)
                    &&& r->Ok_0.updated_at == now
                },
            },
    {
        if self.paused {
            return Err(Error::ContractPaused);
        }
        if metadata.len() > MAX_METADATA_SIZE {
            return Err(Error::MetadataTooLarge);
        }
        let (_normalized, jid_hash) = normalize_jid(jid.as_str());
        let mut record = match self.jid_registry.get(&jid_hash.0) {
            Some(found) => found.duplicate(),
            None => {
                return Err(Error::JIDNotFound);
            },
        };
        if !same_account(&record.owner, &caller) {
            return Err(Error::Unauthorized);
        }
        if !record.is_active {
            return Err(Error::JIDRevoked);
        }
        record.metadata = metadata;
        record.updated_at = now;
        self.jid_registry.insert(jid_hash.0, record);
        proof {
            let expected_state = update_effect(old(self)@, now, jid@, metadata@);
            assert(self@.records[jid_key(jid@)] =~= expected_state.records[jid_key(jid@)]);
            assert(self@ =~= expected_state);
        }
        Ok(JIDUpdated { jid_hash, updated_at: now })
    }

    /// The record of `jid` when it is active and not expired at `now`.
    pub fn resolve(&self, now: Timestamp, jid: String) -> (r: Result<JIDRecord, Error>)
        requires
            self.wf(),
        ensures
            match resolve_error(self@, now, jid@) {
                Some(e) => r == Err::<JIDRecord, Error>(e),
                None => r is Ok && r->Ok_0@ == self@.records[jid_key(jid@)],
            },
    {
        let (_normalized, jid_hash) = normalize_jid(jid.as_str());
        let record = match self.jid_registry.get(&jid_hash.0) {
            Some(found) => found,
            None => {
                return Err(Error::JIDNotFound);
            },
        };
        if !record.is_active {
            return Err(Error::JIDRevoked);
        }
        if record.expires_at > 0 && record.expires_at < now {
            return Err(Error::JIDExpired);
        }
        Ok(record.duplicate())
    }

    /// The identifier `account` holds, if its record is active and not
    /// expired at `now`; a lookup, so every failure is `None`.
    pub fn resolve_by_account(&self, now: Timestamp, account: AccountId) -> (r: Option<String>)
        requires
            self.wf(),
        ensures
            match account_name(self@, now, account@) {
                Some(name) => r is Some && r->Some_0@ == name,
                None => r is None,
            },
    {
        let jid_hash = match self.account_to_jid.get(&account.0) {
            Some(found) => found,
            None => {
                return None;
            },
        };
        let record = match self.jid_registry.get(&jid_hash.0) {
            Some(found) => found,
            None => {
                return None;
            },
        };
        if !record.is_active {
            return None;
        }
        if record.expires_at > 0 && record.expires_at < now {
            return None;
        }
        match self.hash_to_jid.get(&jid_hash.0) {
            Some(name) => Some(name.clone()),
            None => None,
        }
    }

    /// The registration nonce `account` must present next.
    pub fn get_nonce(&self, account: AccountId) -> (r: u64)
        requires
            self.wf(),
        ensures
            r == nonce_in(self@.nonces, account@, Action::Register),
    {
        self.get_nonce_of(&account, Action::Register)
    }

    /// The nonce `account` must present next for `action`.
    pub fn get_nonce_for_action(&self, account: AccountId, action: Action) -> (r: u64)
        requires
            self.wf(),
        ensures
            r == nonce_in(self@.nonces, account@, action),
    {
        self.get_nonce_of(&account, action)
    }

    /// Registrations ever made, revoked ones included.
    pub fn total_jids(&self) -> (r: u64)
        ensures
            r == self@.total_jids,
    {
        self.total_jids
    }

    /// Whether `jid` has a record, active or not.
    pub fn jid_exists(&self, jid: String) -> (r: bool)
        requires
            self.wf(),
        ensures
            r == self@.records.contains_key(jid_key(jid@)),
    {
        let (_normalized, jid_hash) = normalize_jid(jid.as_str());
        self.jid_registry.contains(&jid_hash.0)
    }

    /// Sets or clears the pause flag (administrator only).
    pub fn set_paused(&mut self, caller: AccountId, paused: bool) -> (r: Result<ContractPaused, Error>)
        requires
            old(self).wf(),
        ensures
            final(self).wf(),
            match admin_error(old(self)@, caller@) {
                Some(e) => r == Err::<ContractPaused, Error>(e) && final(self)@ == old(self)@,
                None => {
                    &&& final(self)@ == (JamidView { paused, ..old(self)@ })
                    &&& r == Ok::<ContractPaused, Error>(ContractPaused { paused })
                },
            },
    {
        if self.only_owner(&caller).is_err() {
            return Err(Error::Unauthorized);
        }
        self.paused = paused;
        Ok(ContractPaused { paused })
    }

    /// Bars `jid` from registration (administrator only).
    pub fn blacklist_jid(&mut self, caller: AccountId, jid: String) -> (r: Result<(), Error>)
        requires
            old(self).wf(),
        ensures
            final(self).wf(),
            match admin_error(old(self)@, caller@) {
                Some(e) => r == Err::<(), Error>(e) && final(self)@ == old(self)@,
                None => {
                    &&& final(self)@ == (JamidView {
                        blacklist: old(self)@.blacklist.insert(jid_key(jid@), true),
                        ..old(self)@
                    })
                    &&& r is Ok
                },
            },
    {
        if self.only_owner(&caller).is_err() {
            return Err(Error::Unauthorized);
        }
        let (_normalized, jid_hash) = normalize_jid(jid.as_str());
        self.blacklist.insert(jid_hash.0, true);
        Ok(())
    }

    /// Lifts the bar on `jid` (administrator only).
    pub fn unblacklist_jid(&mut self, caller: AccountId, jid: String) -> (r: Result<(), Error>)
        requires
            old(self).wf(),
        ensures
            final(self).wf(),
            match admin_error(old(self)@, caller@) {
                Some(e) => r == Err::<(), Error>(e) && final(self)@ == old(self)@,
                None => {
                    &&& final(self)@ == (JamidView {
                        blacklist: old(self)@.blacklist.remove(jid_key(jid@)),
                        ..old(self)@
                    })
                    &&& r is Ok
                },
            },
    {
        if self.only_owner(&caller).is_err() {
            return Err(Error::Unauthorized);
        }
        let (_normalized, jid_hash) = normalize_jid(jid.as_str());
        self.blacklist.remove(&jid_hash.0);
        Ok(())
    }

    /// Whether `jid` is barred from registration.
    pub fn is_blacklisted(&self, jid: String) -> (r: bool)
        requires
            self.wf(),
        ensures
            r == is_listed(self@, jid_key(jid@)),
    {
        let (_normalized, jid_hash) = normalize_jid(jid.as_str());
        match self.blacklist.get(&jid_hash.0) {
            Some(flag) => *flag,
            None => false,
        }
    }

    /// Decides a withdrawal of `amount` (administrator only) against the
    /// registry's current `holdings`. On success the host is to pay the
    /// returned payout and then report the outcome to
    /// `complete_withdraw`; nothing changes here.
    pub fn withdraw(&self, caller: AccountId, amount: Balance, holdings: Balance) -> (r: Result<Payout, Error>)
        ensures
            match withdraw_error(self@, caller@, amount, holdings) {
                Some(e) => r == Err::<Payout, Error>(e),
                None => r is Ok && r->Ok_0.to@ == self@.owner && r->Ok_0.amount == amount,
            },
    {
        if self.only_owner(&caller).is_err() {
            return Err(Error::Unauthorized);
        }
        if amount > holdings {
            return Err(Error::TransferFailed);
        }
        Ok(Payout { to: self.owner, amount })
    }

    /// Books a payout once the host has tried it: a failed transfer is
    /// `TransferFailed` and changes nothing; a completed one adds to the
    /// withdrawn total, saturating.
    pub fn complete_withdraw(&mut self, payout: Payout, transferred: bool) -> (r: Result<(), Error>)
        requires
            old(self).wf(),
        ensures
            final(self).wf(),
            !transferred ==> r == Err::<(), Error>(Error::TransferFailed) && final(self)@ == old(self)@,
            transferred ==> r is Ok && final(self)@ == (JamidView {
                total_fees_withdrawn: old(self)@.total_fees_withdrawn.saturating_add(payout.amount),
                ..old(self)@
            }),
    {
        if !transferred {
            return Err(Error::TransferFailed);
        }
        self.total_fees_withdrawn = self.total_fees_withdrawn.saturating_add(payout.amount);
        Ok(())
    }

    /// Sets the registration fee (administrator only); zero is refused.
    pub fn set_registration_fee(&mut self, caller: AccountId, new_fee: Balance) -> (r: Result<(), Error>)
        requires
            old(self).wf(),
        ensures
            final(self).wf(),
            match fee_error(old(self)@, caller@, new_fee) {
                Some(e) => r == Err::<(), Error>(e) && final(self)@ == old(self)@,
                None => r is Ok && final(self)@ == (JamidView {
                    registration_fee: new_fee,
                    ..old(self)@
                }),
            },
    {
        if self.only_owner(&caller).is_err() {
            return Err(Error::Unauthorized);
        }
        if new_fee == 0 {
            return Err(Error::InvalidFeeAmount);
        }
        self.registration_fee = new_fee;
        Ok(())
    }

    /// The current registration fee.
    pub fn get_registration_fee(&self) -> (r: Balance)
        ensures
            r == self@.registration_fee,
    {
        self.registration_fee
    }

    /// Fees collected so far.
    pub fn get_total_fees_collected(&self) -> (r: Balance)
        ensures
            r == self@.total_fees_collected,
    {
        self.total_fees_collected
    }

    /// Fees withdrawn so far.
    pub fn get_total_fees_withdrawn(&self) -> (r: Balance)
        ensures
            r == self@.total_fees_withdrawn,
    {
        self.total_fees_withdrawn
    }

    /// The chain's display label.
    pub fn get_chain_id(&self) -> (r: String)
        ensures
            r@ == self@.chain_id,
    {
        self.chain_id.clone()
    }

    /// The genesis fingerprint bound into every signed message.
    pub fn get_genesis_hash(&self) -> (r: H256)
        ensures
            r@ == self@.genesis_hash,
    {
        self.genesis_hash
    }

    /// Hands the administrator role to `new_owner` at once (administrator
    /// only).
    pub fn transfer_ownership(&mut self, caller: AccountId, new_owner: AccountId) -> (r: Result<(), Error>)
        requires
            old(self).wf(),
        ensures
            final(self).wf(),
            match admin_error(old(self)@, caller@) {
                Some(e) => r == Err::<(), Error>(e) && final(self)@ == old(self)@,
                None => r is Ok && final(self)@ == (JamidView { owner: new_owner@, ..old(self)@ }),
            },
    {
        if self.only_owner(&caller).is_err() {
            return Err(Error::Unauthorized);
        }
        self.owner = new_owner;
        Ok(())
    }

    /// The administrator.
    pub fn owner(&self) -> (r: AccountId)
        ensures
            r@ == self@.owner,
    {
        self.owner
    }

    /// Whether the registry is paused.
    pub fn is_paused(&self) -> (r: bool)
        ensures
            r == self@.paused,
    {
        self.paused
    }

    /// Frees `account`'s slot in the account index if it holds `key`.
    fn free_slot(&mut self, account: &AccountId, key: &H256)
        requires
            old(self).wf(),
        ensures
            final(self).wf(),
            final(self)@ == (JamidView {
                accounts: release_slot(old(self)@.accounts, account@, key@),
                ..old(self)@
            }),
    {
        let holds_key = match self.account_to_jid.get(&account.0) {
            Some(held) => bytes32_eq(&held.0, &key.0),
            None => false,
        };
        if holds_key {
            self.account_to_jid.remove(&account.0);
        }
        assert(self@ =~= (JamidView {
            accounts: release_slot(old(self)@.accounts, account@, key@),
            ..old(self)@
        }));
    }

    /// `Unauthorized` unless `caller` is the administrator.
    fn only_owner(&self, caller: &AccountId) -> (r: Result<(), Error>)
        ensures
            match admin_error(self@, caller@) {
                Some(e) => r == Err::<(), Error>(e),
                None => r is Ok,
            },
    {
        if !same_account(caller, &self.owner) {
            return Err(Error::Unauthorized);
        }
        Ok(())
    }

    /// The expected next nonce of `account` for `action`.
    fn get_nonce_of(&self, account: &AccountId, action: Action) -> (r: u64)
        requires
            self.wf(),
        ensures
            r == nonce_in(self@.nonces, account@, action),
    {
        self.nonces.current(account, action)
    }

    /// Advances the nonce of `account` for `action` by one, refusing to wrap.
    fn bump_nonce_of(&mut self, account: &AccountId, action: Action) -> (r: Result<u64, Error>)
        requires
            old(self).wf(),
        ensures
            final(self).wf(),
            nonce_in(old(self)@.nonces, account@, action) == u64::MAX ==> {
                &&& r == Err::<u64, Error>(Error::NonceOverflow)
                &&& final(self)@ == old(self)@
            },
            nonce_in(old(self)@.nonces, account@, action) < u64::MAX ==> {
                &&& r == Ok::<u64, Error>((nonce_in(old(self)@.nonces, account@, action) + 1) as u64)
                &&& final(self)@ == (JamidView {
                    nonces: old(self)@.nonces.insert(
                        (account@, action),
                        (nonce_in(old(self)@.nonces, account@, action) + 1) as u64,
                    ),
                    ..old(self)@
                })
            },
    {
        let r = self.nonces.advance(account, action);
        proof {
            assert(self@ =~= old(self)@ || r is Ok);
        }
        r
    }
}

} // verus!
