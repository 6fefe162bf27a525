use crate::types::{AccountId, Timestamp};
use vstd::prelude::*;

verus! {

/// The record an identifier is bound to.
#[derive(Debug, Clone, PartialEq, Eq)]
pub struct JIDRecord {
    /// The account that controls the identifier.
    pub owner: AccountId,
    /// When the identifier was registered.
    pub registered_at: Timestamp,
    /// When the record last changed.
    pub updated_at: Timestamp,
    /// Opaque metadata, at most 256 bytes.
    pub metadata: Vec<u8>,
    /// False once the identifier has been revoked; revocation is final.
    pub is_active: bool,
    /// When the record expires; 0 means never.
    pub expires_at: Timestamp,
}

/// A record as plain values.
#[verifier::ext_equal]
pub struct RecordView {
    pub owner: Seq<u8>,
    pub registered_at: u64,
    pub updated_at: u64,
    pub metadata: Seq<u8>,
    pub is_active: bool,
    pub expires_at: u64,
}

impl View for JIDRecord {
    type V = RecordView;

    open spec fn view(&self) -> RecordView {
        RecordView {
            owner: self.owner@,
            registered_at: self.registered_at,
            updated_at: self.updated_at,
            metadata: self.metadata@,
            is_active: self.is_active,
            expires_at: self.expires_at,
        }
    }
}

impl JIDRecord {
    /// A copy of the record.
    pub fn duplicate(&self) -> (r: JIDRecord)
        ensures
            r@ == self@,
    {
        JIDRecord {
            owner: self.owner,
            registered_at: self.registered_at,
            updated_at: self.updated_at,
            metadata: self.metadata.clone(),
            is_active: self.is_active,
            expires_at: self.expires_at,
        }
    }
}

} // verus!
