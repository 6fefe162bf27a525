use crate::types::{AccountId, H256, Timestamp};
use vstd::prelude::*;

verus! {

// Notifications for the public log. Identifiers and revocation reasons
// appear in them only as digests.

/// An identifier was registered.
#[derive(Debug, Clone, Copy, PartialEq, Eq)]
pub struct JIDRegistered {
    pub jid_hash: H256,
    pub owner: AccountId,
    pub registered_at: Timestamp,
}

/// An identifier changed hands.
#[derive(Debug, Clone, Copy, PartialEq, Eq)]
pub struct JIDTransferred {
    pub jid_hash: H256,
    pub from: AccountId,
    pub to: AccountId,
    pub transferred_at: Timestamp,
}

/// An identifier was revoked by its owner.
#[derive(Debug, Clone, Copy, PartialEq, Eq)]
pub struct JIDRevoked {
    pub jid_hash: H256,
    pub revoked_at: Timestamp,
}

/// An identifier was revoked by the administrator; the reason is given as
/// its BLAKE2b-256 digest.
#[derive(Debug, Clone, Copy, PartialEq, Eq)]
pub struct JidAdminRevoked {
    pub jid_hash: H256,
    pub old_owner: AccountId,
    pub reason_hash: H256,
    pub timestamp: Timestamp,
}

/// An identifier's metadata changed.
#[derive(Debug, Clone, Copy, PartialEq, Eq)]
pub struct JIDUpdated {
    pub jid_hash: H256,
    pub updated_at: Timestamp,
}

/// The pause flag was set or cleared.
#[derive(Debug, Clone, Copy, PartialEq, Eq)]
pub struct ContractPaused {
    pub paused: bool,
}

} // verus!
