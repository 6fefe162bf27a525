use vstd::prelude::*;

verus! {

/// An amount of the chain's currency.
pub type Balance = u128;

/// A point in time as supplied by the host clock.
pub type Timestamp = u64;

/// A 32-byte account address.
#[derive(Clone, Copy, Debug, PartialEq, Eq)]
pub struct AccountId(pub [u8; 32]);

/// A 32-byte digest.
#[derive(Clone, Copy, Debug, PartialEq, Eq, Default)]
pub struct H256(pub [u8; 32]);

impl View for AccountId {
    type V = Seq<u8>;

    open spec fn view(&self) -> Seq<u8> {
        self.0@
    }
}

impl View for H256 {
    type V = Seq<u8>;

    open spec fn view(&self) -> Seq<u8> {
        self.0@
    }
}

/// The closed set of failures that the registry reports.
#[derive(Clone, Copy, Debug, PartialEq, Eq, Structural)]
pub enum Error {
    /// The identifier already has a record.
    JIDAlreadyExists,
    /// The account already holds an identifier.
    AccountAlreadyRegistered,
    /// The identifier has no record.
    JIDNotFound,
    /// The signature envelope does not prove possession.
    InvalidProof,
    /// The caller may not perform this operation.
    Unauthorized,
    /// The identifier breaks the syntax rules.
    InvalidJID,
    /// The identifier is on the blacklist.
    JIDBlacklisted,
    /// Metadata or a revocation reason is over the size bound.
    MetadataTooLarge,
    /// The registry is paused.
    ContractPaused,
    /// The nonce is not the expected one.
    InvalidNonce,
    /// The attached value is below the registration fee.
    InsufficientPayment,
    /// The identifier has been revoked.
    JIDRevoked,
    /// The identifier's record has expired.
    JIDExpired,
    /// A withdrawal could not be carried out.
    TransferFailed,
    /// A nonce counter would overflow.
    NonceOverflow,
    /// A registration fee of zero was requested.
    InvalidFeeAmount,
    /// The identifier is already revoked.
    AlreadyRevoked,
}

/// The kinds of action that carry their own nonce sequence.
#[derive(Clone, Copy, Debug, PartialEq, Eq, Structural)]
pub enum Action {
    Register,
    Transfer,
}

} // verus!
