//! The record types the two flows operate on, their mathematical views, and
//! the descriptors the operations hand back to the host ledger.

use vstd::prelude::*;

use crate::ids::Identity;

verus! {

/// A lock class: a fixed (duration, default rate) pair a position is opened
/// under.
#[derive(Clone, Copy, Debug, PartialEq, Eq, Structural)]
pub enum StakeTier {
    /// 30 days, 10% annual by default.
    Basic,
    /// 60 days, 15% annual by default.
    Pro,
    /// 90 days, 20% annual by default.
    Elite,
}

/// Lock duration of a class, in seconds.
pub open spec fn spec_lock_duration(t: StakeTier) -> u64 {
    match t {
        StakeTier::Basic => 2_592_000,
        StakeTier::Pro => 5_184_000,
        StakeTier::Elite => 7_776_000,
    }
}

/// Default annual rate of a class, in basis points (10000 = 100%).
pub open spec fn spec_default_rate(t: StakeTier) -> u64 {
    match t {
        StakeTier::Basic => 1000,
        StakeTier::Pro => 1500,
        StakeTier::Elite => 2000,
    }
}

impl StakeTier {
    /// How long a position of this class stays locked, in seconds.
    pub fn lock_duration(&self) -> (d: u64)
        ensures
            d == spec_lock_duration(*self),
    {
        match self {
            StakeTier::Basic => 30 * 24 * 60 * 60,
            StakeTier::Pro => 60 * 24 * 60 * 60,
            StakeTier::Elite => 90 * 24 * 60 * 60,
        }
    }

    /// The class's default annual rate in basis points.
    pub fn apy_basis_points(&self) -> (r: u64)
        ensures
            r == spec_default_rate(*self),
    {
        match self {
            StakeTier::Basic => 1000,
            StakeTier::Pro => 1500,
            StakeTier::Elite => 2000,
        }
    }
}

/// Which accrual policy a pool was deployed with.  The two are never mixed:
/// a pool picks one at initialization and keeps it.
#[derive(Clone, Copy, Debug, PartialEq, Eq, Structural)]
pub enum RewardPolicy {
    /// The reward is computed once at stake time over the full lock duration,
    /// frozen into the position, and becomes claimable at unlock.
    FixedAtStake,
    /// The reward is recomputed from elapsed time on every claim, enabling
    /// partial claims before unlock.
    Continuous,
}

/// A staking position.  `amount == 0` means the position is closed (or was
/// never opened); an open position always has `amount > 0`.
#[derive(Clone, Copy, Debug)]
pub struct StakeAccount {
    pub is_initialized: bool,
    pub owner: Identity,
    pub amount: u64,
    pub tier: StakeTier,
    pub stake_timestamp: u64,
    pub unlock_timestamp: u64,
    /// Reward frozen at stake time under the fixed policy; 0 under the
    /// continuous policy.
    pub frozen_reward: u64,
    pub claimed_rewards: u64,
    pub bump: u8,
}

/// Mathematical view of a staking position.
#[verifier::ext_equal]
pub struct StakeView {
    pub is_initialized: bool,
    pub owner: Seq<u8>,
    pub amount: u64,
    pub tier: StakeTier,
    pub stake_timestamp: u64,
    pub unlock_timestamp: u64,
    pub frozen_reward: u64,
    pub claimed_rewards: u64,
    pub bump: u8,
}

impl View for StakeAccount {
    type V = StakeView;

    open spec fn view(&self) -> StakeView {
        StakeView {
            is_initialized: self.is_initialized,
            owner: self.owner@,
            amount: self.amount,
            tier: self.tier,
            stake_timestamp: self.stake_timestamp,
            unlock_timestamp: self.unlock_timestamp,
            frozen_reward: self.frozen_reward,
            claimed_rewards: self.claimed_rewards,
            bump: self.bump,
        }
    }
}

/// The per-deployment pool registry: authority, reference asset, vaults,
/// pause flag, accrual policy, rate table and aggregate counters.
#[derive(Clone, Copy, Debug)]
pub struct PoolConfig {
    pub is_initialized: bool,
    pub authority: Identity,
    pub token_mint: Identity,
    pub stake_vault: Identity,
    pub reward_vault: Identity,
    pub is_paused: bool,
    pub reward_policy: RewardPolicy,
    pub rate_basic: u64,
    pub rate_pro: u64,
    pub rate_elite: u64,
    pub total_staked: u64,
    pub total_positions: u64,
    pub total_rewards_distributed: u64,
    pub bump: u8,
}

/// Mathematical view of the pool registry.
#[verifier::ext_equal]
pub struct PoolView {
    pub is_initialized: bool,
    pub authority: Seq<u8>,
    pub token_mint: Seq<u8>,
    pub stake_vault: Seq<u8>,
    pub reward_vault: Seq<u8>,
    pub is_paused: bool,
    pub reward_policy: RewardPolicy,
    pub rate_basic: u64,
    pub rate_pro: u64,
    pub rate_elite: u64,
    pub total_staked: u64,
    pub total_positions: u64,
    pub total_rewards_distributed: u64,
    pub bump: u8,
}

impl View for PoolConfig {
    type V = PoolView;

    open spec fn view(&self) -> PoolView {
        PoolView {
            is_initialized: self.is_initialized,
            authority: self.authority@,
            token_mint: self.token_mint@,
            stake_vault: self.stake_vault@,
            reward_vault: self.reward_vault@,
            is_paused: self.is_paused,
            reward_policy: self.reward_policy,
            rate_basic: self.rate_basic,
            rate_pro: self.rate_pro,
            rate_elite: self.rate_elite,
            total_staked: self.total_staked,
            total_positions: self.total_positions,
            total_rewards_distributed: self.total_rewards_distributed,
            bump: self.bump,
        }
    }
}

/// The pool's annual rate for a lock class, in basis points.
pub open spec fn spec_rate_for(p: PoolView, t: StakeTier) -> u64 {
    match t {
        StakeTier::Basic => p.rate_basic,
        StakeTier::Pro => p.rate_pro,
        StakeTier::Elite => p.rate_elite,
    }
}

impl PoolConfig {
    /// The pool's annual rate for a lock class.
    pub fn rate_for(&self, t: StakeTier) -> (r: u64)
        ensures
            r == spec_rate_for(self@, t),
    {
        match t {
            StakeTier::Basic => self.rate_basic,
            StakeTier::Pro => self.rate_pro,
            StakeTier::Elite => self.rate_elite,
        }
    }
}

/// The per-deployment access-control configuration.
#[derive(Clone, Copy, Debug)]
pub struct AccessConfig {
    pub is_initialized: bool,
    pub authority: Identity,
    pub token_mint: Identity,
    pub bump: u8,
}

/// Mathematical view of the access configuration.
#[verifier::ext_equal]
pub struct AccessConfigView {
    pub is_initialized: bool,
    pub authority: Seq<u8>,
    pub token_mint: Seq<u8>,
    pub bump: u8,
}

impl View for AccessConfig {
    type V = AccessConfigView;

    open spec fn view(&self) -> AccessConfigView {
        AccessConfigView {
            is_initialized: self.is_initialized,
            authority: self.authority@,
            token_mint: self.token_mint@,
            bump: self.bump,
        }
    }
}

/// A per-owner access record: the tier last derived from an authoritative
/// balance read, the balance that produced it, and when.
#[derive(Clone, Copy, Debug)]
pub struct AccessAccount {
    pub is_initialized: bool,
    pub owner: Identity,
    pub current_tier: crate::tier::AccessTier,
    pub last_verified_balance: u64,
    pub verification_timestamp: u64,
    pub bump: u8,
}

/// Mathematical view of an access record.
#[verifier::ext_equal]
pub struct AccessView {
    pub is_initialized: bool,
    pub owner: Seq<u8>,
    pub current_tier: crate::tier::AccessTier,
    pub last_verified_balance: u64,
    pub verification_timestamp: u64,
    pub bump: u8,
}

impl View for AccessAccount {
    type V = AccessView;

    open spec fn view(&self) -> AccessView {
        AccessView {
            is_initialized: self.is_initialized,
            owner: self.owner@,
            current_tier: self.current_tier,
            last_verified_balance: self.last_verified_balance,
            verification_timestamp: self.verification_timestamp,
            bump: self.bump,
        }
    }
}

/// A snapshot of one ledger record as handed in by the host: its address,
/// the program that owns it, whether its owner signed this call, and its raw
/// bytes.
#[derive(Clone, Debug)]
pub struct RecordRef {
    pub key: Identity,
    pub owner_program: Identity,
    pub is_signer: bool,
    pub data: Vec<u8>,
}

/// Mathematical view of a record snapshot.
#[verifier::ext_equal]
pub struct RecordView {
    pub key: Seq<u8>,
    pub owner_program: Seq<u8>,
    pub is_signer: bool,
    pub data: Seq<u8>,
}

impl View for RecordRef {
    type V = RecordView;

    open spec fn view(&self) -> RecordView {
        RecordView {
            key: self.key@,
            owner_program: self.owner_program@,
            is_signer: self.is_signer,
            data: self.data@,
        }
    }
}

/// The views of a sequence of record snapshots.
pub open spec fn views_of(rs: Seq<RecordRef>) -> Seq<RecordView> {
    rs.map_values(|r: RecordRef| r@)
}

/// What an authoritative balance record says: its asset, its owner and the
/// balance it holds.
#[derive(Clone, Copy, Debug)]
pub struct TokenBalance {
    pub mint: Identity,
    pub owner: Identity,
    pub amount: u64,
}

/// Mathematical view of a balance record.
#[verifier::ext_equal]
pub struct TokenView {
    pub mint: Seq<u8>,
    pub owner: Seq<u8>,
    pub amount: u64,
}

impl View for TokenBalance {
    type V = TokenView;

    open spec fn view(&self) -> TokenView {
        TokenView { mint: self.mint@, owner: self.owner@, amount: self.amount }
    }
}

/// An operation request for the staking flow, as decoded from an
/// instruction payload.
#[derive(Clone, Copy, Debug, PartialEq, Eq, Structural)]
pub enum StakeInstruction {
    /// Create the pool registry.
    /// Records: `[pool_config, authority, token_mint, stake_vault, reward_vault]`.
    InitializePool { bump: u8, policy: RewardPolicy },
    /// Create an owner's (empty) staking position record.
    /// Records: `[stake_account, owner]`.
    InitializeStake { bump: u8 },
    /// Open a position: lock `amount` under `tier`.
    /// Records: `[stake_account, owner, user_token_account, stake_vault, pool_config, token_program]`.
    Stake { amount: u64, tier: StakeTier },
    /// Close a position after its lock has ended and pay it out.
    /// Records: `[stake_account, owner, user_token_account, stake_vault, pool_config, vault_authority, token_program]`.
    Unstake,
    /// Pay out what is claimable now.
    /// Records: `[stake_account, owner, user_token_account, reward_vault, pool_config, vault_authority, token_program]`.
    ClaimRewards,
    /// Close a position early, forfeiting every unclaimed reward.
    /// Records: as for `Unstake`.
    EmergencyUnstake,
    /// Admin: pause or resume the opening of new positions.
    /// Records: `[pool_config, authority]`.
    SetPaused { paused: bool },
    /// Admin: replace the rate table.
    /// Records: `[pool_config, authority]`.
    UpdateRates { basic: u64, pro: u64, elite: u64 },
    /// Admin: move funding into the reward vault.
    /// Records: `[funder_token_account, authority, reward_vault, pool_config, token_program]`.
    FundRewards { amount: u64 },
}

/// An operation request for the access flow, as decoded from an
/// instruction payload.
#[derive(Clone, Copy, Debug, PartialEq, Eq, Structural)]
pub enum AccessInstruction {
    /// Create the access configuration.
    /// Records: `[config_account, authority, token_mint]`.
    InitializeConfig { bump: u8 },
    /// Create an owner's access record.
    /// Records: `[access_account, owner]`.
    InitializeAccess { bump: u8 },
    /// Re-derive the owner's tier from an authoritative balance read.
    /// Records: `[access_account, owner, user_token_account, config_account]`.
    VerifyAccess,
    /// Read-only projection of the stored tier.
    /// Records: `[access_account]`.
    CheckTier,
}

/// A balance transfer for the host ledger to execute: move `amount` from
/// `source` to `destination`, authorized by `authority`.  When
/// `authority_bump` is set, the authority is the pool's derived vault
/// authority and the host signs with that derivation.
#[derive(Clone, Copy, Debug, PartialEq, Eq)]
pub struct TransferInstruction {
    pub source: Identity,
    pub destination: Identity,
    pub authority: Identity,
    pub authority_bump: Option<u8>,
    pub amount: u64,
}

/// Mathematical view of a transfer instruction.
#[verifier::ext_equal]
pub struct TransferView {
    pub source: Seq<u8>,
    pub destination: Seq<u8>,
    pub authority: Seq<u8>,
    pub authority_bump: Option<u8>,
    pub amount: u64,
}

impl View for TransferInstruction {
    type V = TransferView;

    open spec fn view(&self) -> TransferView {
        TransferView {
            source: self.source@,
            destination: self.destination@,
            authority: self.authority@,
            authority_bump: self.authority_bump,
            amount: self.amount,
        }
    }
}

} // verus!
