//! Token-gated access tiering and time-locked staking accounting.
//!
//! Users lock a fungible balance for a fixed period in exchange for a
//! deterministic interest payout, and hold a minimum balance to unlock a
//! capability tier.  The library owns the staking state machine, the reward
//! accrual arithmetic, the tier classifier, the record validator and the
//! byte-level record codec; the host ledger (account storage, signatures,
//! token transfers, the clock) is an external collaborator that hands in
//! snapshots and carries out the transfer instructions the library emits.

pub mod access;
pub mod accrual;
pub mod codec;
pub mod errors;
pub mod ids;
pub mod laws;
pub mod ledger;
pub mod records;
pub mod staking;
pub mod tier;
pub mod validate;

pub use errors::CoreError;
pub use ids::Identity;
pub use records::{AccessAccount, AccessConfig, PoolConfig, RewardPolicy, StakeAccount, StakeTier};
pub use tier::AccessTier;
