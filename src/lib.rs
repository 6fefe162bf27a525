//! A registry that binds human-readable identifiers to accounts through
//! proof of possession, with replay-protected nonces and an
//! active / revoked lifecycle for every record.

pub mod crypto;
pub mod hex;
pub mod jid;
pub mod laws;
pub mod model;
pub mod nonce;
pub mod envelope;
pub mod events;
pub mod record;
pub mod registry;
mod table;
pub mod types;
