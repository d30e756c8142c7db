//! The errors an instruction can end with.
use vstd::prelude::*;

verus! {

/// A rule of the delegation protocol that an instruction found violated.
#[derive(Clone, Copy, Debug, PartialEq, Eq, Structural)]
pub enum DelegationError {
    /// Non-matching delegated voter weight record governing token mint.
    InvalidGoverningTokenMint,
    /// Non-matching delegated voter weight record realm.
    InvalidRealm,
    /// Mismatched delegation record address provided.
    IncorrectDelegationAddress,
    /// Provided delegation record does not match the delegate provided.
    NonMatchingDelegationRecordProvided,
    /// Provided voter weight has already been delegated.
    VoterWeightAlreadyDelegated,
    /// Provided voter weight has not been delegated to provided delegate.
    VoterWeightNotDelegatedToDelegate,
    /// Only the realm authority can change voter weight settings.
    NotRealmAuthority,
    /// Invalid voter weight record source.
    InvalidVoterWeightRecordSource,
    /// Voter weight record must be expired to revoke.
    VoterWeightRecordMustBeExpired,
    /// Cannot manually create a revocation voter weight record.
    InvalidActionType,
    /// Did not provide a full set of delegator accounts.
    MissingDelegatorAccounts,
    /// Cannot close an account not owned by caller.
    VoterWeightRecordWrongOwner,
    /// Target is in the wrong state to reclaim lamports.
    ReclaimTargetWrongState,
    /// The voter weight record of a delegation record must be gone before the
    /// delegation record is reclaimed.
    CannotReclaimDelegationRecordYet,
}

/// Why account data does not yield the record it should hold.
#[derive(Clone, Copy, Debug, PartialEq, Eq, Structural)]
pub enum DataError {
    /// The data is too short to hold a discriminator.
    DiscriminatorNotFound,
    /// The data starts with the discriminator of another kind of record.
    DiscriminatorMismatch,
    /// The bytes after the discriminator do not encode the record's fields.
    DidNotDeserialize,
}

/// How an instruction failed. A failed instruction leaves every account as it was.
#[derive(Clone, Copy, Debug, PartialEq, Eq, Structural)]
pub enum Error {
    /// A rule of the protocol was violated.
    Delegation(DelegationError),
    /// The governance program refused a lookup, with its program error code.
    Governance(u64),
    /// An account did not hold the record the instruction needs.
    Data(DataError),
    /// The payer cannot fund the storage of a new record.
    InsufficientFunds,
    /// An account does not lie at the address derived for its record.
    InvalidAddress,
    /// An account that is to be created exists already.
    AccountInUse,
}

} // verus!
