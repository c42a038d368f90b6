//! Typed failures.  Every operation either commits all its effects or
//! returns one of these and commits none.

use vstd::prelude::*;

verus! {

/// Why an operation was refused.  Authorization and identity mismatches are
/// treated as potential spoofing and never auto-repaired; state conflicts are
/// expected terminal outcomes the caller can react to; arithmetic overflow
/// always fails closed.
#[derive(Clone, Copy, Debug, PartialEq, Eq, Structural)]
pub enum CoreError {
    /// Fewer records were supplied than the operation reads.
    NotEnoughRecords,
    /// The instruction payload does not decode to any known operation.
    InvalidInstructionData,
    /// The caller did not authenticate (sign) the operation.
    MissingRequiredSignature,
    /// A record that must belong to this program is owned by another program.
    WrongRecordOwner,
    /// A record's stored owner is not the calling identity.
    OwnerMismatch,
    /// The admin operation was not called by the configured authority.
    NotAuthority,
    /// The supplied token program identity is not the token program.
    IncorrectTokenProgram,
    /// A record's bytes do not decode to the expected layout.
    InvalidRecordData,
    /// The record has not been initialized yet.
    UninitializedRecord,
    /// The record was already initialized and may not be re-created.
    AlreadyInitialized,
    /// The record's address or bump does not match the canonical derivation.
    InvalidSeeds,
    /// A referenced vault is not the one the pool was configured with.
    WrongVault,
    /// A balance record is denominated in the wrong asset.
    WrongMint,
    /// A balance record does not belong to the calling identity.
    TokenOwnerMismatch,
    /// A stake or funding amount of zero was supplied.
    ZeroAmount,
    /// The rate table is not monotonically increasing over the lock classes.
    InvalidRates,
    /// The pool is paused and accepts no new positions.
    PoolPaused,
    /// The owner already has an open position.
    AlreadyStaked,
    /// No open position exists for the owner.
    NoActiveStake,
    /// The lock period has not ended yet.
    StillLocked,
    /// Nothing is claimable at this time.
    NothingToClaim,
    /// A balance is too small for the required transfer.
    InsufficientFunds,
    /// Reward or aggregate arithmetic overflowed; never silently wrapped.
    ArithmeticOverflow,
}

} // verus!
