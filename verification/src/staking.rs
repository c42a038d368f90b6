//! The staking state machine: open a locked position, claim accrued
//! rewards, close it at or after unlock (or early, forfeiting rewards), and
//! the pool's admin operations.  Every operation takes a snapshot of the
//! records it touches plus the clock, re-checks every precondition against
//! that snapshot, and either returns the full set of effects (new record
//! bytes, one transfer, an event) or a typed error and no effects.

use vstd::prelude::*;

use crate::accrual::{accrue, spec_accrue};
use crate::codec::{
    decode_pool_config, decode_stake_account, decode_stake_instruction, encode_pool_config,
    encode_stake_account, spec_decode_pool_config, spec_decode_stake_account,
    spec_decode_stake_instruction, spec_pool_config_bytes, spec_stake_account_bytes,
};
use crate::errors::CoreError;
use crate::ids::{identity_eq, Identity};
use crate::ledger::{is_token_program, spec_is_token_program_id, spec_unpack_token,
    unpack_token_account};
use crate::records::{
    spec_default_rate, spec_lock_duration, spec_rate_for, PoolConfig, PoolView, RecordRef,
    RecordView, RewardPolicy, StakeAccount, StakeInstruction, StakeTier, StakeView,
    TransferInstruction, TransferView, views_of,
};
use crate::validate::{
    check_canonical, check_vault_authority, owned_by_program, spec_canonical_ok, spec_stake_seed,
    spec_vault_authority, stake_seed,
};

verus! {

/// What a staking operation did, for the host to index and notify on.
#[derive(Clone, Copy, Debug, PartialEq, Eq, Structural)]
pub enum StakeEvent {
    PoolInitialized { policy: RewardPolicy },
    StakeRecordInitialized,
    Staked { amount: u64, tier: StakeTier, frozen_reward: u64, unlock_at: u64 },
    Unstaked { principal: u64, reward: u64 },
    EmergencyUnstaked { principal: u64 },
    RewardsClaimed { amount: u64 },
    PausedSet { paused: bool },
    RatesUpdated { basic: u64, pro: u64, elite: u64 },
    RewardsFunded { amount: u64 },
}

/// The committed effects of a staking operation: the new bytes of the
/// position and pool records (where mutated), at most one balance transfer
/// for the host to execute atomically with the writes, and an event.
#[derive(Clone, Debug, PartialEq, Eq)]
pub struct StakingOutcome {
    pub stake_data: Option<Vec<u8>>,
    pub pool_data: Option<Vec<u8>>,
    pub transfer: Option<TransferInstruction>,
    pub event: StakeEvent,
}

/// Mathematical view of a staking outcome.
#[verifier::ext_equal]
pub struct StakingOutcomeView {
    pub stake_data: Option<Seq<u8>>,
    pub pool_data: Option<Seq<u8>>,
    pub transfer: Option<TransferView>,
    pub event: StakeEvent,
}

impl View for StakingOutcome {
    type V = StakingOutcomeView;

    open spec fn view(&self) -> StakingOutcomeView {
        StakingOutcomeView {
            stake_data: match self.stake_data {
                Some(d) => Some(d@),
                None => None,
            },
            pool_data: match self.pool_data {
                Some(d) => Some(d@),
                None => None,
            },
            transfer: match self.transfer {
                Some(t) => Some(t@),
                None => None,
            },
            event: self.event,
        }
    }
}

// ---------------------------------------------------------------------------
// initialize the pool registry

/// What initializing the pool does.  Records: `[pool_config, authority,
/// token_mint, stake_vault, reward_vault]`.  The authority must sign, the
/// pool record must belong to the program and not be initialized yet; the
/// new registry starts unpaused with the default rate table and zero
/// counters.
pub open spec fn spec_initialize_pool(
    program: Seq<u8>,
    accs: Seq<RecordView>,
    bump: u8,
    policy: RewardPolicy,
) -> Result<StakingOutcomeView, CoreError> {
    if accs.len() < 5 {
        Err(CoreError::NotEnoughRecords)
    } else {
        let pool_rec = accs[0];
        let authority = accs[1];
        let token_mint = accs[2];
        let stake_vault = accs[3];
        let reward_vault = accs[4];
        if !authority.is_signer {
            Err(CoreError::MissingRequiredSignature)
        } else if pool_rec.owner_program != program {
            Err(CoreError::WrongRecordOwner)
        } else {
            match spec_decode_pool_config(pool_rec.data) {
                Option::None => Err(CoreError::InvalidRecordData),
                Option::Some(pc) => {
                    if pc.is_initialized {
                        Err(CoreError::AlreadyInitialized)
                    } else {
                        let new_pool = PoolView {
                            is_initialized: true,
                            authority: authority.key,
                            token_mint: token_mint.key,
                            stake_vault: stake_vault.key,
                            reward_vault: reward_vault.key,
                            is_paused: false,
                            reward_policy: policy,
                            rate_basic: spec_default_rate(StakeTier::Basic),
                            rate_pro: spec_default_rate(StakeTier::Pro),
                            rate_elite: spec_default_rate(StakeTier::Elite),
                            total_staked: 0,
                            total_positions: 0,
                            total_rewards_distributed: 0,
                            bump,
                        };
                        Ok(
                            StakingOutcomeView {
                                stake_data: Option::None,
                                pool_data: Option::Some(spec_pool_config_bytes(new_pool)),
                                transfer: Option::None,
                                event: StakeEvent::PoolInitialized { policy },
                            },
                        )
                    }
                },
            }
        }
    }
}

/// Create the pool registry.
pub fn initialize_pool(
    program_id: &Identity,
    accounts: &Vec<RecordRef>,
    bump: u8,
    policy: RewardPolicy,
) -> (r: Result<StakingOutcome, CoreError>)
    ensures
        match r {
            Ok(out) => spec_initialize_pool(program_id@, views_of(accounts@), bump, policy)
                == Result::<StakingOutcomeView, CoreError>::Ok(out@),
            Err(e) => spec_initialize_pool(program_id@, views_of(accounts@), bump, policy)
                == Result::<StakingOutcomeView, CoreError>::Err(e),
        },
{
    if accounts.len() < 5 {
        return Err(CoreError::NotEnoughRecords);
    }
    let pool_rec = &accounts[0];
    let authority = &accounts[1];
    let token_mint = &accounts[2];
    let stake_vault = &accounts[3];
    let reward_vault = &accounts[4];
    if !authority.is_signer {
        return Err(CoreError::MissingRequiredSignature);
    }
    if !owned_by_program(pool_rec, program_id) {
        return Err(CoreError::WrongRecordOwner);
    }
    let existing = match decode_pool_config(&pool_rec.data) {
        Option::Some(pc) => pc,
        Option::None => {
            return Err(CoreError::InvalidRecordData);
        },
    };
    if existing.is_initialized {
        return Err(CoreError::AlreadyInitialized);
    }
    let new_pool = PoolConfig {
        is_initialized: true,
        authority: authority.key,
        token_mint: token_mint.key,
        stake_vault: stake_vault.key,
        reward_vault: reward_vault.key,
        is_paused: false,
        reward_policy: policy,
        rate_basic: StakeTier::Basic.apy_basis_points(),
        rate_pro: StakeTier::Pro.apy_basis_points(),
        rate_elite: StakeTier::Elite.apy_basis_points(),
        total_staked: 0,
        total_positions: 0,
        total_rewards_distributed: 0,
        bump,
    };
    let out = StakingOutcome {
        stake_data: Option::None,
        pool_data: Option::Some(encode_pool_config(&new_pool)),
        transfer: Option::None,
        event: StakeEvent::PoolInitialized { policy },
    };
    proof {
        let s = spec_initialize_pool(program_id@, views_of(accounts@), bump, policy);
        assert(s matches Ok(o) && o =~~= out@);
    }
    Ok(out)
}

// ---------------------------------------------------------------------------
// initialize a position record

/// What initializing a position record does.  Records: `[stake_account,
/// owner]`.  The owner must sign, the record must belong to the program,
/// sit at the canonical address derived from `("stake", owner)` with the
/// given bump, and not be initialized yet; the fresh record is an empty,
/// closed position owned by the caller.
pub open spec fn spec_initialize_stake(
    program: Seq<u8>,
    accs: Seq<RecordView>,
    bump: u8,
) -> Result<StakingOutcomeView, CoreError> {
    if accs.len() < 2 {
        Err(CoreError::NotEnoughRecords)
    } else {
        let stake_rec = accs[0];
        let owner = accs[1];
        if !owner.is_signer {
            Err(CoreError::MissingRequiredSignature)
        } else if stake_rec.owner_program != program {
            Err(CoreError::WrongRecordOwner)
        } else if !spec_canonical_ok(stake_rec.key, spec_stake_seed(), owner.key, program, bump) {
            Err(CoreError::InvalidSeeds)
        } else {
            match spec_decode_stake_account(stake_rec.data) {
                Option::None => Err(CoreError::InvalidRecordData),
                Option::Some(sd) => {
                    if sd.is_initialized {
                        Err(CoreError::AlreadyInitialized)
                    } else {
                        let fresh = StakeView {
                            is_initialized: true,
                            owner: owner.key,
                            amount: 0,
                            tier: StakeTier::Basic,
                            stake_timestamp: 0,
                            unlock_timestamp: 0,
                            frozen_reward: 0,
                            claimed_rewards: 0,
                            bump,
                        };
                        Ok(
                            StakingOutcomeView {
                                stake_data: Option::Some(spec_stake_account_bytes(fresh)),
                                pool_data: Option::None,
                                transfer: Option::None,
                                event: StakeEvent::StakeRecordInitialized,
                            },
                        )
                    }
                },
            }
        }
    }
}

/// Create an owner's position record at its canonical address.
pub fn initialize_stake(program_id: &Identity, accounts: &Vec<RecordRef>, bump: u8) -> (r: Result<
    StakingOutcome,
    CoreError,
>)
    ensures
        match r {
            Ok(out) => spec_initialize_stake(program_id@, views_of(accounts@), bump)
                == Result::<StakingOutcomeView, CoreError>::Ok(out@),
            Err(e) => spec_initialize_stake(program_id@, views_of(accounts@), bump)
                == Result::<StakingOutcomeView, CoreError>::Err(e),
        },
{
    if accounts.len() < 2 {
        return Err(CoreError::NotEnoughRecords);
    }
    let stake_rec = &accounts[0];
    let owner = &accounts[1];
    if !owner.is_signer {
        return Err(CoreError::MissingRequiredSignature);
    }
    if !owned_by_program(stake_rec, program_id) {
        return Err(CoreError::WrongRecordOwner);
    }
    if !check_canonical(stake_rec, stake_seed(), &owner.key, program_id, bump) {
        return Err(CoreError::InvalidSeeds);
    }
    let existing = match decode_stake_account(&stake_rec.data) {
        Option::Some(sd) => sd,
        Option::None => {
            return Err(CoreError::InvalidRecordData);
        },
    };
    if existing.is_initialized {
        return Err(CoreError::AlreadyInitialized);
    }
    let fresh = StakeAccount {
        is_initialized: true,
        owner: owner.key,
        amount: 0,
        tier: StakeTier::Basic,
        stake_timestamp: 0,
        unlock_timestamp: 0,
        frozen_reward: 0,
        claimed_rewards: 0,
        bump,
    };
    let out = StakingOutcome {
        stake_data: Option::Some(encode_stake_account(&fresh)),
        pool_data: Option::None,
        transfer: Option::None,
        event: StakeEvent::StakeRecordInitialized,
    };
    proof {
        let s = spec_initialize_stake(program_id@, views_of(accounts@), bump);
        assert(s matches Ok(o) && o =~~= out@);
    }
    Ok(out)
}

// ---------------------------------------------------------------------------
// open a position

/// What staking does.  Records: `[stake_account, owner, user_token_account,
/// stake_vault, pool_config, token_program]`.  After validation (owner
/// signed, records owned by the program, real token program, both records
/// initialized, position owned by the caller, the configured stake vault,
/// pool not paused, a positive amount, no position already open, and an
/// authoritative balance record that belongs to the caller, is denominated
/// in the configured asset and covers the amount), the position opens for
/// `amount` under `tier`: it locks until `now + duration`, the frozen
/// reward is the full-duration accrual under the fixed policy and zero
/// under the continuous one, the pool aggregates grow, and `amount` moves
/// from the caller's balance record to the stake vault.
pub open spec fn spec_stake(
    program: Seq<u8>,
    accs: Seq<RecordView>,
    amount: u64,
    tier: StakeTier,
    now: u64,
) -> Result<StakingOutcomeView, CoreError> {
    if accs.len() < 6 {
        Err(CoreError::NotEnoughRecords)
    } else {
        let stake_rec = accs[0];
        let owner = accs[1];
        let user_token = accs[2];
        let stake_vault = accs[3];
        let pool_rec = accs[4];
        let token_program = accs[5];
        if !owner.is_signer {
            Err(CoreError::MissingRequiredSignature)
        } else if stake_rec.owner_program != program || pool_rec.owner_program != program {
            Err(CoreError::WrongRecordOwner)
        } else if !spec_is_token_program_id(token_program.key) {
            Err(CoreError::IncorrectTokenProgram)
        } else {
            match (spec_decode_stake_account(stake_rec.data), spec_decode_pool_config(
                pool_rec.data,
            )) {
                (Option::Some(sd), Option::Some(pc)) => {
                    if !sd.is_initialized || !pc.is_initialized {
                        Err(CoreError::UninitializedRecord)
                    } else if sd.owner != owner.key {
                        Err(CoreError::OwnerMismatch)
                    } else if stake_vault.key != pc.stake_vault {
                        Err(CoreError::WrongVault)
                    } else if pc.is_paused {
                        Err(CoreError::PoolPaused)
                    } else if amount == 0 {
                        Err(CoreError::ZeroAmount)
                    } else if sd.amount > 0 {
                        Err(CoreError::AlreadyStaked)
                    } else {
                        match spec_unpack_token(user_token.data) {
                            Option::None => Err(CoreError::InvalidRecordData),
                            Option::Some(tok) => {
                                if tok.owner != owner.key {
                                    Err(CoreError::TokenOwnerMismatch)
                                } else if tok.mint != pc.token_mint {
                                    Err(CoreError::WrongMint)
                                } else if tok.amount < amount {
                                    Err(CoreError::InsufficientFunds)
                                } else {
                                    spec_stake_effects(sd, pc, user_token, stake_vault, owner,
                                        amount, tier, now)
                                }
                            },
                        }
                    }
                },
                _ => Err(CoreError::InvalidRecordData),
            }
        }
    }
}

/// The effects of a validated stake: the opened position, the grown
/// aggregates and the funding transfer, or an overflow failing closed.
pub open spec fn spec_stake_effects(
    sd: StakeView,
    pc: PoolView,
    user_token: RecordView,
    stake_vault: RecordView,
    owner: RecordView,
    amount: u64,
    tier: StakeTier,
    now: u64,
) -> Result<StakingOutcomeView, CoreError> {
    let duration = spec_lock_duration(tier);
    let rate = spec_rate_for(pc, tier);
    if now + duration > u64::MAX {
        Err(CoreError::ArithmeticOverflow)
    } else {
        let frozen_opt = if pc.reward_policy is FixedAtStake {
            spec_accrue(amount, rate, duration)
        } else {
            Option::Some(0u64)
        };
        match frozen_opt {
            Option::None => Err(CoreError::ArithmeticOverflow),
            Option::Some(frozen) => {
                if pc.total_staked + amount > u64::MAX || pc.total_positions + 1 > u64::MAX {
                    Err(CoreError::ArithmeticOverflow)
                } else {
                    let new_stake = StakeView {
                        is_initialized: true,
                        owner: sd.owner,
                        amount,
                        tier,
                        stake_timestamp: now,
                        unlock_timestamp: (now + duration) as u64,
                        frozen_reward: frozen,
                        claimed_rewards: 0,
                        bump: sd.bump,
                    };
                    let new_pool = PoolView {
                        total_staked: (pc.total_staked + amount) as u64,
                        total_positions: (pc.total_positions + 1) as u64,
                        ..pc
                    };
                    Ok(
                        StakingOutcomeView {
                            stake_data: Option::Some(spec_stake_account_bytes(new_stake)),
                            pool_data: Option::Some(spec_pool_config_bytes(new_pool)),
                            transfer: Option::Some(
                                TransferView {
                                    source: user_token.key,
                                    destination: stake_vault.key,
                                    authority: owner.key,
                                    authority_bump: Option::None,
                                    amount,
                                },
                            ),
                            event: StakeEvent::Staked {
                                amount,
                                tier,
                                frozen_reward: frozen,
                                unlock_at: (now + duration) as u64,
                            },
                        },
                    )
                }
            },
        }
    }
}

/// Open a position: lock `amount` under `tier` until its unlock time.
pub fn stake(
    program_id: &Identity,
    accounts: &Vec<RecordRef>,
    amount: u64,
    tier: StakeTier,
    now: u64,
) -> (r: Result<StakingOutcome, CoreError>)
    ensures
        match r {
            Ok(out) => spec_stake(program_id@, views_of(accounts@), amount, tier, now)
                == Result::<StakingOutcomeView, CoreError>::Ok(out@),
            Err(e) => spec_stake(program_id@, views_of(accounts@), amount, tier, now)
                == Result::<StakingOutcomeView, CoreError>::Err(e),
        },
{
    if accounts.len() < 6 {
        return Err(CoreError::NotEnoughRecords);
    }
    let stake_rec = &accounts[0];
    let owner = &accounts[1];
    let user_token = &accounts[2];
    let stake_vault = &accounts[3];
    let pool_rec = &accounts[4];
    let token_program = &accounts[5];
    if !owner.is_signer {
        return Err(CoreError::MissingRequiredSignature);
    }
    if !owned_by_program(stake_rec, program_id) || !owned_by_program(pool_rec, program_id) {
        return Err(CoreError::WrongRecordOwner);
    }
    if !is_token_program(&token_program.key) {
        return Err(CoreError::IncorrectTokenProgram);
    }
    let sd = match decode_stake_account(&stake_rec.data) {
        Option::Some(sd) => sd,
        Option::None => {
            return Err(CoreError::InvalidRecordData);
        },
    };
    let pc = match decode_pool_config(&pool_rec.data) {
        Option::Some(pc) => pc,
        Option::None => {
            return Err(CoreError::InvalidRecordData);
        },
    };
    if !sd.is_initialized || !pc.is_initialized {
        return Err(CoreError::UninitializedRecord);
    }
    if !identity_eq(&sd.owner, &owner.key) {
        return Err(CoreError::OwnerMismatch);
    }
    if !identity_eq(&stake_vault.key, &pc.stake_vault) {
        return Err(CoreError::WrongVault);
    }
    if pc.is_paused {
        return Err(CoreError::PoolPaused);
    }
    if amount == 0 {
        return Err(CoreError::ZeroAmount);
    }
    if sd.amount > 0 {
        return Err(CoreError::AlreadyStaked);
    }
    let tok = match unpack_token_account(&user_token.data) {
        Ok(t) => t,
        Err(e) => {
            return Err(e);
        },
    };
    if !identity_eq(&tok.owner, &owner.key) {
        return Err(CoreError::TokenOwnerMismatch);
    }
    if !identity_eq(&tok.mint, &pc.token_mint) {
        return Err(CoreError::WrongMint);
    }
    if tok.amount < amount {
        return Err(CoreError::InsufficientFunds);
    }
    let duration = tier.lock_duration();
    let rate = pc.rate_for(tier);
    let unlock_at = match now.checked_add(duration) {
        Option::Some(u) => u,
        Option::None => {
            return Err(CoreError::ArithmeticOverflow);
        },
    };
    let frozen = match pc.reward_policy {
        RewardPolicy::FixedAtStake => match accrue(amount, rate, duration) {
            Ok(v) => v,
            Err(e) => {
                return Err(e);
            },
        },
        RewardPolicy::Continuous => 0,
    };
    let new_total = match pc.total_staked.checked_add(amount) {
        Option::Some(v) => v,
        Option::None => {
            return Err(CoreError::ArithmeticOverflow);
        },
    };
    let new_positions = match pc.total_positions.checked_add(1) {
        Option::Some(v) => v,
        Option::None => {
            return Err(CoreError::ArithmeticOverflow);
        },
    };
    let new_stake = StakeAccount {
        is_initialized: true,
        owner: sd.owner,
        amount,
        tier,
        stake_timestamp: now,
        unlock_timestamp: unlock_at,
        frozen_reward: frozen,
        claimed_rewards: 0,
        bump: sd.bump,
    };
    let new_pool = PoolConfig { total_staked: new_total, total_positions: new_positions, ..pc };
    let out = StakingOutcome {
        stake_data: Option::Some(encode_stake_account(&new_stake)),
        pool_data: Option::Some(encode_pool_config(&new_pool)),
        transfer: Option::Some(
            TransferInstruction {
                source: user_token.key,
                destination: stake_vault.key,
                authority: owner.key,
                authority_bump: Option::None,
                amount,
            },
        ),
        event: StakeEvent::Staked { amount, tier, frozen_reward: frozen, unlock_at },
    };
    proof {
        let s = spec_stake(program_id@, views_of(accounts@), amount, tier, now);
        assert(new_pool@ =~= PoolView {
            total_staked: new_total,
            total_positions: new_positions,
            ..pc@
        });
        assert(s matches Ok(o) && o =~~= out@);
    }
    Ok(out)
}

// ---------------------------------------------------------------------------
// close a position

/// A position record reset to closed: the owner, class, bump and
/// initialization flag survive, everything else returns to zero.
pub open spec fn spec_closed_position(sd: StakeView) -> StakeView {
    StakeView {
        amount: 0,
        stake_timestamp: 0,
        unlock_timestamp: 0,
        frozen_reward: 0,
        claimed_rewards: 0,
        ..sd
    }
}

/// What unstaking does.  Records: `[stake_account, owner,
/// user_token_account, stake_vault, pool_config, vault_authority,
/// token_program]`.  After validation (owner signed, records owned by the
/// program, real token program, records initialized, position owned by the
/// caller and open, the configured stake vault, lock ended, vault authority
/// at its canonical derivation), the position closes and a single transfer
/// pays out the principal plus, under the fixed policy, the frozen reward
/// not yet claimed; the pool aggregates shrink accordingly.
pub open spec fn spec_unstake(program: Seq<u8>, accs: Seq<RecordView>, now: u64) -> Result<
    StakingOutcomeView,
    CoreError,
> {
    if accs.len() < 7 {
        Err(CoreError::NotEnoughRecords)
    } else {
        let stake_rec = accs[0];
        let owner = accs[1];
        let user_token = accs[2];
        let stake_vault = accs[3];
        let pool_rec = accs[4];
        let vault_authority = accs[5];
        let token_program = accs[6];
        if !owner.is_signer {
            Err(CoreError::MissingRequiredSignature)
        } else if stake_rec.owner_program != program || pool_rec.owner_program != program {
            Err(CoreError::WrongRecordOwner)
        } else if !spec_is_token_program_id(token_program.key) {
            Err(CoreError::IncorrectTokenProgram)
        } else {
            match (spec_decode_stake_account(stake_rec.data), spec_decode_pool_config(
                pool_rec.data,
            )) {
                (Option::Some(sd), Option::Some(pc)) => {
                    if !sd.is_initialized || !pc.is_initialized {
                        Err(CoreError::UninitializedRecord)
                    } else if sd.owner != owner.key {
                        Err(CoreError::OwnerMismatch)
                    } else if sd.amount == 0 {
                        Err(CoreError::NoActiveStake)
                    } else if stake_vault.key != pc.stake_vault {
                        Err(CoreError::WrongVault)
                    } else if now < sd.unlock_timestamp {
                        Err(CoreError::StillLocked)
                    } else {
                        match spec_vault_authority(program) {
                            Option::Some(va) => {
                                if va.0 != vault_authority.key {
                                    Err(CoreError::InvalidSeeds)
                                } else {
                                    spec_unstake_effects(sd, pc, user_token, stake_vault, va.1)
                                }
                            },
                            Option::None => Err(CoreError::InvalidSeeds),
                        }
                    }
                },
                _ => Err(CoreError::InvalidRecordData),
            }
        }
    }
}

/// The effects of a validated unstake: the closed position, the shrunk
/// aggregates and the payout transfer, or an overflow failing closed.
pub open spec fn spec_unstake_effects(
    sd: StakeView,
    pc: PoolView,
    user_token: RecordView,
    stake_vault: RecordView,
    vault_bump: u8,
) -> Result<StakingOutcomeView, CoreError> {
    let reward_due: u64 = if pc.reward_policy is FixedAtStake {
        if sd.frozen_reward >= sd.claimed_rewards {
            (sd.frozen_reward - sd.claimed_rewards) as u64
        } else {
            0u64
        }
    } else {
        0u64
    };
    if sd.amount + reward_due > u64::MAX || pc.total_rewards_distributed + reward_due > u64::MAX {
        Err(CoreError::ArithmeticOverflow)
    } else {
        let payout = (sd.amount + reward_due) as u64;
        let new_pool = PoolView {
            total_staked: if pc.total_staked >= sd.amount {
                (pc.total_staked - sd.amount) as u64
            } else {
                0u64
            },
            total_positions: if pc.total_positions >= 1 {
                (pc.total_positions - 1) as u64
            } else {
                0u64
            },
            total_rewards_distributed: (pc.total_rewards_distributed + reward_due) as u64,
            ..pc
        };
        Ok(
            StakingOutcomeView {
                stake_data: Option::Some(spec_stake_account_bytes(spec_closed_position(sd))),
                pool_data: Option::Some(spec_pool_config_bytes(new_pool)),
                transfer: Option::Some(
                    TransferView {
                        source: stake_vault.key,
                        destination: user_token.key,
                        authority: sd.owner,
                        authority_bump: Option::Some(vault_bump),
                        amount: payout,
                    },
                ),
                event: StakeEvent::Unstaked { principal: sd.amount, reward: reward_due },
            },
        )
    }
}

/// Close a position whose lock has ended and pay it out in one transfer.
pub fn unstake(program_id: &Identity, accounts: &Vec<RecordRef>, now: u64) -> (r: Result<
    StakingOutcome,
    CoreError,
>)
    ensures
        match r {
            Ok(out) => spec_unstake(program_id@, views_of(accounts@), now)
                == Result::<StakingOutcomeView, CoreError>::Ok(out@),
            Err(e) => spec_unstake(program_id@, views_of(accounts@), now)
                == Result::<StakingOutcomeView, CoreError>::Err(e),
        },
{
    if accounts.len() < 7 {
        return Err(CoreError::NotEnoughRecords);
    }
    let stake_rec = &accounts[0];
    let owner = &accounts[1];
    let user_token = &accounts[2];
    let stake_vault = &accounts[3];
    let pool_rec = &accounts[4];
    let vault_authority = &accounts[5];
    let token_program = &accounts[6];
    if !owner.is_signer {
        return Err(CoreError::MissingRequiredSignature);
    }
    if !owned_by_program(stake_rec, program_id) || !owned_by_program(pool_rec, program_id) {
        return Err(CoreError::WrongRecordOwner);
    }
    if !is_token_program(&token_program.key) {
        return Err(CoreError::IncorrectTokenProgram);
    }
    let sd = match decode_stake_account(&stake_rec.data) {
        Option::Some(sd) => sd,
        Option::None => {
            return Err(CoreError::InvalidRecordData);
        },
    };
    let pc = match decode_pool_config(&pool_rec.data) {
        Option::Some(pc) => pc,
        Option::None => {
            return Err(CoreError::InvalidRecordData);
        },
    };
    if !sd.is_initialized || !pc.is_initialized {
        return Err(CoreError::UninitializedRecord);
    }
    if !identity_eq(&sd.owner, &owner.key) {
        return Err(CoreError::OwnerMismatch);
    }
    if sd.amount == 0 {
        return Err(CoreError::NoActiveStake);
    }
    if !identity_eq(&stake_vault.key, &pc.stake_vault) {
        return Err(CoreError::WrongVault);
    }
    if now < sd.unlock_timestamp {
        return Err(CoreError::StillLocked);
    }
    let vault_bump = match check_vault_authority(vault_authority, program_id) {
        Option::Some(b) => b,
        Option::None => {
            return Err(CoreError::InvalidSeeds);
        },
    };
    let reward_due: u64 = match pc.reward_policy {
        RewardPolicy::FixedAtStake => sd.frozen_reward.saturating_sub(sd.claimed_rewards),
        RewardPolicy::Continuous => 0,
    };
    let payout = match sd.amount.checked_add(reward_due) {
        Option::Some(v) => v,
        Option::None => {
            return Err(CoreError::ArithmeticOverflow);
        },
    };
    let new_distributed = match pc.total_rewards_distributed.checked_add(reward_due) {
        Option::Some(v) => v,
        Option::None => {
            return Err(CoreError::ArithmeticOverflow);
        },
    };
    let new_stake = StakeAccount {
        amount: 0,
        stake_timestamp: 0,
        unlock_timestamp: 0,
        frozen_reward: 0,
        claimed_rewards: 0,
        ..sd
    };
    let new_pool = PoolConfig {
        total_staked: pc.total_staked.saturating_sub(sd.amount),
        total_positions: pc.total_positions.saturating_sub(1),
        total_rewards_distributed: new_distributed,
        ..pc
    };
    let out = StakingOutcome {
        stake_data: Option::Some(encode_stake_account(&new_stake)),
        pool_data: Option::Some(encode_pool_config(&new_pool)),
        transfer: Option::Some(
            TransferInstruction {
                source: stake_vault.key,
                destination: user_token.key,
                authority: sd.owner,
                authority_bump: Option::Some(vault_bump),
                amount: payout,
            },
        ),
        event: StakeEvent::Unstaked { principal: sd.amount, reward: reward_due },
    };
    proof {
        let s = spec_unstake(program_id@, views_of(accounts@), now);
        assert(new_stake@ =~= spec_closed_position(sd@));
        assert(s matches Ok(o) && o =~~= out@);
    }
    Ok(out)
}

/// What an emergency unstake does: the same validation as `spec_unstake`
/// except that the lock is ignored, then the position closes and a single
/// transfer returns exactly the principal — every unclaimed reward is
/// forfeited.  This is a deliberate early-exit escape valve with an
/// explicit penalty.
pub open spec fn spec_emergency_unstake(program: Seq<u8>, accs: Seq<RecordView>) -> Result<
    StakingOutcomeView,
    CoreError,
> {
    if accs.len() < 7 {
        Err(CoreError::NotEnoughRecords)
    } else {
        let stake_rec = accs[0];
        let owner = accs[1];
        let user_token = accs[2];
        let stake_vault = accs[3];
        let pool_rec = accs[4];
        let vault_authority = accs[5];
        let token_program = accs[6];
        if !owner.is_signer {
            Err(CoreError::MissingRequiredSignature)
        } else if stake_rec.owner_program != program || pool_rec.owner_program != program {
            Err(CoreError::WrongRecordOwner)
        } else if !spec_is_token_program_id(token_program.key) {
            Err(CoreError::IncorrectTokenProgram)
        } else {
            match (spec_decode_stake_account(stake_rec.data), spec_decode_pool_config(
                pool_rec.data,
            )) {
                (Option::Some(sd), Option::Some(pc)) => {
                    if !sd.is_initialized || !pc.is_initialized {
                        Err(CoreError::UninitializedRecord)
                    } else if sd.owner != owner.key {
                        Err(CoreError::OwnerMismatch)
                    } else if sd.amount == 0 {
                        Err(CoreError::NoActiveStake)
                    } else if stake_vault.key != pc.stake_vault {
                        Err(CoreError::WrongVault)
                    } else {
                        match spec_vault_authority(program) {
                            Option::Some(va) => {
                                if va.0 != vault_authority.key {
                                    Err(CoreError::InvalidSeeds)
                                } else {
                                    let new_pool = PoolView {
                                        total_staked: if pc.total_staked >= sd.amount {
                                            (pc.total_staked - sd.amount) as u64
                                        } else {
                                            0u64
                                        },
                                        total_positions: if pc.total_positions >= 1 {
                                            (pc.total_positions - 1) as u64
                                        } else {
                                            0u64
                                        },
                                        ..pc
                                    };
                                    Ok(
                                        StakingOutcomeView {
                                            stake_data: Option::Some(
                                                spec_stake_account_bytes(spec_closed_position(sd)),
                                            ),
                                            pool_data: Option::Some(
                                                spec_pool_config_bytes(new_pool),
                                            ),
                                            transfer: Option::Some(
                                                TransferView {
                                                    source: stake_vault.key,
                                                    destination: user_token.key,
                                                    authority: sd.owner,
                                                    authority_bump: Option::Some(va.1),
                                                    amount: sd.amount,
                                                },
                                            ),
                                            event: StakeEvent::EmergencyUnstaked {
                                                principal: sd.amount,
                                            },
                                        },
                                    )
                                }
                            },
                            Option::None => Err(CoreError::InvalidSeeds),
                        }
                    }
                },
                _ => Err(CoreError::InvalidRecordData),
            }
        }
    }
}

/// Close a position at any time, returning only the principal and
/// forfeiting every unclaimed reward.
pub fn emergency_unstake(program_id: &Identity, accounts: &Vec<RecordRef>) -> (r: Result<
    StakingOutcome,
    CoreError,
>)
    ensures
        match r {
            Ok(out) => spec_emergency_unstake(program_id@, views_of(accounts@))
                == Result::<StakingOutcomeView, CoreError>::Ok(out@),
            Err(e) => spec_emergency_unstake(program_id@, views_of(accounts@))
                == Result::<StakingOutcomeView, CoreError>::Err(e),
        },
{
    if accounts.len() < 7 {
        return Err(CoreError::NotEnoughRecords);
    }
    let stake_rec = &accounts[0];
    let owner = &accounts[1];
    let user_token = &accounts[2];
    let stake_vault = &accounts[3];
    let pool_rec = &accounts[4];
    let vault_authority = &accounts[5];
    let token_program = &accounts[6];
    if !owner.is_signer {
        return Err(CoreError::MissingRequiredSignature);
    }
    if !owned_by_program(stake_rec, program_id) || !owned_by_program(pool_rec, program_id) {
        return Err(CoreError::WrongRecordOwner);
    }
    if !is_token_program(&token_program.key) {
        return Err(CoreError::IncorrectTokenProgram);
    }
    let sd = match decode_stake_account(&stake_rec.data) {
        Option::Some(sd) => sd,
        Option::None => {
            return Err(CoreError::InvalidRecordData);
        },
    };
    let pc = match decode_pool_config(&pool_rec.data) {
        Option::Some(pc) => pc,
        Option::None => {
            return Err(CoreError::InvalidRecordData);
        },
    };
    if !sd.is_initialized || !pc.is_initialized {
        return Err(CoreError::UninitializedRecord);
    }
    if !identity_eq(&sd.owner, &owner.key) {
        return Err(CoreError::OwnerMismatch);
    }
    if sd.amount == 0 {
        return Err(CoreError::NoActiveStake);
    }
    if !identity_eq(&stake_vault.key, &pc.stake_vault) {
        return Err(CoreError::WrongVault);
    }
    let vault_bump = match check_vault_authority(vault_authority, program_id) {
        Option::Some(b) => b,
        Option::None => {
            return Err(CoreError::InvalidSeeds);
        },
    };
    let new_stake = StakeAccount {
        amount: 0,
        stake_timestamp: 0,
        unlock_timestamp: 0,
        frozen_reward: 0,
        claimed_rewards: 0,
        ..sd
    };
    let new_pool = PoolConfig {
        total_staked: pc.total_staked.saturating_sub(sd.amount),
        total_positions: pc.total_positions.saturating_sub(1),
        ..pc
    };
    let out = StakingOutcome {
        stake_data: Option::Some(encode_stake_account(&new_stake)),
        pool_data: Option::Some(encode_pool_config(&new_pool)),
        transfer: Option::Some(
            TransferInstruction {
                source: stake_vault.key,
                destination: user_token.key,
                authority: sd.owner,
                authority_bump: Option::Some(vault_bump),
                amount: sd.amount,
            },
        ),
        event: StakeEvent::EmergencyUnstaked { principal: sd.amount },
    };
    proof {
        let s = spec_emergency_unstake(program_id@, views_of(accounts@));
        assert(new_stake@ =~= spec_closed_position(sd@));
        assert(s matches Ok(o) && o =~~= out@);
    }
    Ok(out)
}

// ---------------------------------------------------------------------------
// claim rewards

/// The total reward a position has earned by `now`: recomputed from
/// elapsed time under the continuous policy; the frozen amount once the
/// lock has ended (else nothing) under the fixed policy.
pub open spec fn spec_total_owed(sd: StakeView, pc: PoolView, now: u64) -> Result<u64, CoreError> {
    match pc.reward_policy {
        RewardPolicy::Continuous => crate::accrual::spec_calculate_rewards(
            sd,
            now,
            spec_rate_for(pc, sd.tier),
        ),
        RewardPolicy::FixedAtStake => Ok(
            if now >= sd.unlock_timestamp {
                sd.frozen_reward
            } else {
                0u64
            },
        ),
    }
}

/// What claiming does.  Records: `[stake_account, owner,
/// user_token_account, reward_vault, pool_config, vault_authority,
/// token_program]`.  After validation (owner signed, records owned by the
/// program, real token program, records initialized, position owned by the
/// caller and open, the configured reward vault), the claimable amount is
/// what is owed by `now` minus what was already claimed; nothing claimable
/// is a no-effect failure, and otherwise the claim must be covered by the
/// reward vault's balance and the vault authority must sit at its
/// canonical derivation.  The position then records the new claimed total
/// and the claimable amount moves from the reward vault to the caller.
pub open spec fn spec_claim_rewards(program: Seq<u8>, accs: Seq<RecordView>, now: u64) -> Result<
    StakingOutcomeView,
    CoreError,
> {
    if accs.len() < 7 {
        Err(CoreError::NotEnoughRecords)
    } else {
        let stake_rec = accs[0];
        let owner = accs[1];
        let user_token = accs[2];
        let reward_vault = accs[3];
        let pool_rec = accs[4];
        let vault_authority = accs[5];
        let token_program = accs[6];
        if !owner.is_signer {
            Err(CoreError::MissingRequiredSignature)
        } else if stake_rec.owner_program != program || pool_rec.owner_program != program {
            Err(CoreError::WrongRecordOwner)
        } else if !spec_is_token_program_id(token_program.key) {
            Err(CoreError::IncorrectTokenProgram)
        } else {
            match (spec_decode_stake_account(stake_rec.data), spec_decode_pool_config(
                pool_rec.data,
            )) {
                (Option::Some(sd), Option::Some(pc)) => {
                    if !sd.is_initialized || !pc.is_initialized {
                        Err(CoreError::UninitializedRecord)
                    } else if sd.owner != owner.key {
                        Err(CoreError::OwnerMismatch)
                    } else if sd.amount == 0 {
                        Err(CoreError::NoActiveStake)
                    } else if reward_vault.key != pc.reward_vault {
                        Err(CoreError::WrongVault)
                    } else {
                        match spec_total_owed(sd, pc, now) {
                            Err(e) => Err(e),
                            Ok(total_owed) => {
                                let claimable: u64 = if total_owed >= sd.claimed_rewards {
                                    (total_owed - sd.claimed_rewards) as u64
                                } else {
                                    0u64
                                };
                                if claimable == 0 {
                                    Err(CoreError::NothingToClaim)
                                } else {
                                    match spec_unpack_token(reward_vault.data) {
                                        Option::None => Err(CoreError::InvalidRecordData),
                                        Option::Some(rv) => {
                                            if rv.amount < claimable {
                                                Err(CoreError::InsufficientFunds)
                                            } else {
                                                match spec_vault_authority(program) {
                                                    Option::Some(va) => {
                                                        if va.0 != vault_authority.key {
                                                            Err(CoreError::InvalidSeeds)
                                                        } else {
                                                            spec_claim_effects(sd, pc, user_token,
                                                                reward_vault, va.1, total_owed,
                                                                claimable)
                                                        }
                                                    },
                                                    Option::None => Err(CoreError::InvalidSeeds),
                                                }
                                            }
                                        },
                                    }
                                }
                            },
                        }
                    }
                },
                _ => Err(CoreError::InvalidRecordData),
            }
        }
    }
}

/// The effects of a validated claim: the position records the new claimed
/// total, the distribution counter grows, and the claimable amount is
/// transferred, or an overflow fails closed.
pub open spec fn spec_claim_effects(
    sd: StakeView,
    pc: PoolView,
    user_token: RecordView,
    reward_vault: RecordView,
    vault_bump: u8,
    total_owed: u64,
    claimable: u64,
) -> Result<StakingOutcomeView, CoreError> {
    if pc.total_rewards_distributed + claimable > u64::MAX {
        Err(CoreError::ArithmeticOverflow)
    } else {
        let new_stake = StakeView { claimed_rewards: total_owed, ..sd };
        let new_pool = PoolView {
            total_rewards_distributed: (pc.total_rewards_distributed + claimable) as u64,
            ..pc
        };
        Ok(
            StakingOutcomeView {
                stake_data: Option::Some(spec_stake_account_bytes(new_stake)),
                pool_data: Option::Some(spec_pool_config_bytes(new_pool)),
                transfer: Option::Some(
                    TransferView {
                        source: reward_vault.key,
                        destination: user_token.key,
                        authority: sd.owner,
                        authority_bump: Option::Some(vault_bump),
                        amount: claimable,
                    },
                ),
                event: StakeEvent::RewardsClaimed { amount: claimable },
            },
        )
    }
}

/// Pay out what a position can claim at `now`.  Claiming never closes the
/// position; claim and unstake are independent.
pub fn claim_rewards(program_id: &Identity, accounts: &Vec<RecordRef>, now: u64) -> (r: Result<
    StakingOutcome,
    CoreError,
>)
    ensures
        match r {
            Ok(out) => spec_claim_rewards(program_id@, views_of(accounts@), now)
                == Result::<StakingOutcomeView, CoreError>::Ok(out@),
            Err(e) => spec_claim_rewards(program_id@, views_of(accounts@), now)
                == Result::<StakingOutcomeView, CoreError>::Err(e),
        },
{
    if accounts.len() < 7 {
        return Err(CoreError::NotEnoughRecords);
    }
    let stake_rec = &accounts[0];
    let owner = &accounts[1];
    let user_token = &accounts[2];
    let reward_vault = &accounts[3];
    let pool_rec = &accounts[4];
    let vault_authority = &accounts[5];
    let token_program = &accounts[6];
    if !owner.is_signer {
        return Err(CoreError::MissingRequiredSignature);
    }
    if !owned_by_program(stake_rec, program_id) || !owned_by_program(pool_rec, program_id) {
        return Err(CoreError::WrongRecordOwner);
    }
    if !is_token_program(&token_program.key) {
        return Err(CoreError::IncorrectTokenProgram);
    }
    let sd = match decode_stake_account(&stake_rec.data) {
        Option::Some(sd) => sd,
        Option::None => {
            return Err(CoreError::InvalidRecordData);
        },
    };
    let pc = match decode_pool_config(&pool_rec.data) {
        Option::Some(pc) => pc,
        Option::None => {
            return Err(CoreError::InvalidRecordData);
        },
    };
    if !sd.is_initialized || !pc.is_initialized {
        return Err(CoreError::UninitializedRecord);
    }
    if !identity_eq(&sd.owner, &owner.key) {
        return Err(CoreError::OwnerMismatch);
    }
    if sd.amount == 0 {
        return Err(CoreError::NoActiveStake);
    }
    if !identity_eq(&reward_vault.key, &pc.reward_vault) {
        return Err(CoreError::WrongVault);
    }
    let total_owed = match pc.reward_policy {
        RewardPolicy::Continuous => match sd.calculate_rewards(now, pc.rate_for(sd.tier)) {
            Ok(v) => v,
            Err(e) => {
                return Err(e);
            },
        },
        RewardPolicy::FixedAtStake => {
            if now >= sd.unlock_timestamp {
                sd.frozen_reward
            } else {
                0
            }
        },
    };
    let claimable = total_owed.saturating_sub(sd.claimed_rewards);
    if claimable == 0 {
        return Err(CoreError::NothingToClaim);
    }
    let rv = match unpack_token_account(&reward_vault.data) {
        Ok(t) => t,
        Err(e) => {
            return Err(e);
        },
    };
    if rv.amount < claimable {
        return Err(CoreError::InsufficientFunds);
    }
    let vault_bump = match check_vault_authority(vault_authority, program_id) {
        Option::Some(b) => b,
        Option::None => {
            return Err(CoreError::InvalidSeeds);
        },
    };
    let new_distributed = match pc.total_rewards_distributed.checked_add(claimable) {
        Option::Some(v) => v,
        Option::None => {
            return Err(CoreError::ArithmeticOverflow);
        },
    };
    let new_stake = StakeAccount { claimed_rewards: total_owed, ..sd };
    let new_pool = PoolConfig { total_rewards_distributed: new_distributed, ..pc };
    let out = StakingOutcome {
        stake_data: Option::Some(encode_stake_account(&new_stake)),
        pool_data: Option::Some(encode_pool_config(&new_pool)),
        transfer: Option::Some(
            TransferInstruction {
                source: reward_vault.key,
                destination: user_token.key,
                authority: sd.owner,
                authority_bump: Option::Some(vault_bump),
                amount: claimable,
            },
        ),
        event: StakeEvent::RewardsClaimed { amount: claimable },
    };
    proof {
        let s = spec_claim_rewards(program_id@, views_of(accounts@), now);
        assert(new_stake@ =~= StakeView { claimed_rewards: total_owed, ..sd@ });
        assert(new_pool@ =~= PoolView { total_rewards_distributed: new_distributed, ..pc@ });
        assert(s matches Ok(o) && o =~~= out@);
    }
    Ok(out)
}

// ---------------------------------------------------------------------------
// admin operations on the registry

/// What pausing or resuming does.  Records: `[pool_config, authority]`.
/// The configured authority must sign; only the pause flag changes.
pub open spec fn spec_set_paused(program: Seq<u8>, accs: Seq<RecordView>, paused: bool) -> Result<
    StakingOutcomeView,
    CoreError,
> {
    if accs.len() < 2 {
        Err(CoreError::NotEnoughRecords)
    } else {
        let pool_rec = accs[0];
        let authority = accs[1];
        if !authority.is_signer {
            Err(CoreError::MissingRequiredSignature)
        } else if pool_rec.owner_program != program {
            Err(CoreError::WrongRecordOwner)
        } else {
            match spec_decode_pool_config(pool_rec.data) {
                Option::None => Err(CoreError::InvalidRecordData),
                Option::Some(pc) => {
                    if !pc.is_initialized {
                        Err(CoreError::UninitializedRecord)
                    } else if pc.authority != authority.key {
                        Err(CoreError::NotAuthority)
                    } else {
                        let new_pool = PoolView { is_paused: paused, ..pc };
                        Ok(
                            StakingOutcomeView {
                                stake_data: Option::None,
                                pool_data: Option::Some(spec_pool_config_bytes(new_pool)),
                                transfer: Option::None,
                                event: StakeEvent::PausedSet { paused },
                            },
                        )
                    }
                },
            }
        }
    }
}

/// Pause or resume the opening of new positions.
pub fn set_paused(program_id: &Identity, accounts: &Vec<RecordRef>, paused: bool) -> (r: Result<
    StakingOutcome,
    CoreError,
>)
    ensures
        match r {
            Ok(out) => spec_set_paused(program_id@, views_of(accounts@), paused)
                == Result::<StakingOutcomeView, CoreError>::Ok(out@),
            Err(e) => spec_set_paused(program_id@, views_of(accounts@), paused)
                == Result::<StakingOutcomeView, CoreError>::Err(e),
        },
{
    if accounts.len() < 2 {
        return Err(CoreError::NotEnoughRecords);
    }
    let pool_rec = &accounts[0];
    let authority = &accounts[1];
    if !authority.is_signer {
        return Err(CoreError::MissingRequiredSignature);
    }
    if !owned_by_program(pool_rec, program_id) {
        return Err(CoreError::WrongRecordOwner);
    }
    let pc = match decode_pool_config(&pool_rec.data) {
        Option::Some(pc) => pc,
        Option::None => {
            return Err(CoreError::InvalidRecordData);
        },
    };
    if !pc.is_initialized {
        return Err(CoreError::UninitializedRecord);
    }
    if !identity_eq(&pc.authority, &authority.key) {
        return Err(CoreError::NotAuthority);
    }
    let new_pool = PoolConfig { is_paused: paused, ..pc };
    let out = StakingOutcome {
        stake_data: Option::None,
        pool_data: Option::Some(encode_pool_config(&new_pool)),
        transfer: Option::None,
        event: StakeEvent::PausedSet { paused },
    };
    proof {
        let s = spec_set_paused(program_id@, views_of(accounts@), paused);
        assert(new_pool@ =~= PoolView { is_paused: paused, ..pc@ });
        assert(s matches Ok(o) && o =~~= out@);
    }
    Ok(out)
}

/// What replacing the rate table does.  Records: `[pool_config,
/// authority]`.  The configured authority must sign and the new rates must
/// be monotonically non-decreasing over the lock classes.
pub open spec fn spec_update_rates(
    program: Seq<u8>,
    accs: Seq<RecordView>,
    basic: u64,
    pro: u64,
    elite: u64,
) -> Result<StakingOutcomeView, CoreError> {
    if accs.len() < 2 {
        Err(CoreError::NotEnoughRecords)
    } else {
        let pool_rec = accs[0];
        let authority = accs[1];
        if !authority.is_signer {
            Err(CoreError::MissingRequiredSignature)
        } else if pool_rec.owner_program != program {
            Err(CoreError::WrongRecordOwner)
        } else {
            match spec_decode_pool_config(pool_rec.data) {
                Option::None => Err(CoreError::InvalidRecordData),
                Option::Some(pc) => {
                    if !pc.is_initialized {
                        Err(CoreError::UninitializedRecord)
                    } else if pc.authority != authority.key {
                        Err(CoreError::NotAuthority)
                    } else if !(basic <= pro && pro <= elite) {
                        Err(CoreError::InvalidRates)
                    } else {
                        let new_pool = PoolView {
                            rate_basic: basic,
                            rate_pro: pro,
                            rate_elite: elite,
                            ..pc
                        };
                        Ok(
                            StakingOutcomeView {
                                stake_data: Option::None,
                                pool_data: Option::Some(spec_pool_config_bytes(new_pool)),
                                transfer: Option::None,
                                event: StakeEvent::RatesUpdated { basic, pro, elite },
                            },
                        )
                    }
                },
            }
        }
    }
}

/// Replace the rate table with a monotonically non-decreasing one.
pub fn update_rates(
    program_id: &Identity,
    accounts: &Vec<RecordRef>,
    basic: u64,
    pro: u64,
    elite: u64,
) -> (r: Result<StakingOutcome, CoreError>)
    ensures
        match r {
            Ok(out) => spec_update_rates(program_id@, views_of(accounts@), basic, pro, elite)
                == Result::<StakingOutcomeView, CoreError>::Ok(out@),
            Err(e) => spec_update_rates(program_id@, views_of(accounts@), basic, pro, elite)
                == Result::<StakingOutcomeView, CoreError>::Err(e),
        },
{
    if accounts.len() < 2 {
        return Err(CoreError::NotEnoughRecords);
    }
    let pool_rec = &accounts[0];
    let authority = &accounts[1];
    if !authority.is_signer {
        return Err(CoreError::MissingRequiredSignature);
    }
    if !owned_by_program(pool_rec, program_id) {
        return Err(CoreError::WrongRecordOwner);
    }
    let pc = match decode_pool_config(&pool_rec.data) {
        Option::Some(pc) => pc,
        Option::None => {
            return Err(CoreError::InvalidRecordData);
        },
    };
    if !pc.is_initialized {
        return Err(CoreError::UninitializedRecord);
    }
    if !identity_eq(&pc.authority, &authority.key) {
        return Err(CoreError::NotAuthority);
    }
    if !(basic <= pro && pro <= elite) {
        return Err(CoreError::InvalidRates);
    }
    let new_pool = PoolConfig { rate_basic: basic, rate_pro: pro, rate_elite: elite, ..pc };
    let out = StakingOutcome {
        stake_data: Option::None,
        pool_data: Option::Some(encode_pool_config(&new_pool)),
        transfer: Option::None,
        event: StakeEvent::RatesUpdated { basic, pro, elite },
    };
    proof {
        let s = spec_update_rates(program_id@, views_of(accounts@), basic, pro, elite);
        assert(new_pool@ =~= PoolView {
            rate_basic: basic,
            rate_pro: pro,
            rate_elite: elite,
            ..pc@
        });
        assert(s matches Ok(o) && o =~~= out@);
    }
    Ok(out)
}

/// What funding the reward vault does.  Records: `[funder_token_account,
/// authority, reward_vault, pool_config, token_program]`.  The configured
/// authority must sign and fund a positive amount from its own balance
/// record, denominated in the configured asset, into the configured reward
/// vault; no record of the pool changes.
pub open spec fn spec_fund_rewards(program: Seq<u8>, accs: Seq<RecordView>, amount: u64) -> Result<
    StakingOutcomeView,
    CoreError,
> {
    if accs.len() < 5 {
        Err(CoreError::NotEnoughRecords)
    } else {
        let funder_token = accs[0];
        let authority = accs[1];
        let reward_vault = accs[2];
        let pool_rec = accs[3];
        let token_program = accs[4];
        if !authority.is_signer {
            Err(CoreError::MissingRequiredSignature)
        } else if pool_rec.owner_program != program {
            Err(CoreError::WrongRecordOwner)
        } else if !spec_is_token_program_id(token_program.key) {
            Err(CoreError::IncorrectTokenProgram)
        } else {
            match spec_decode_pool_config(pool_rec.data) {
                Option::None => Err(CoreError::InvalidRecordData),
                Option::Some(pc) => {
                    if !pc.is_initialized {
                        Err(CoreError::UninitializedRecord)
                    } else if pc.authority != authority.key {
                        Err(CoreError::NotAuthority)
                    } else if reward_vault.key != pc.reward_vault {
                        Err(CoreError::WrongVault)
                    } else if amount == 0 {
                        Err(CoreError::ZeroAmount)
                    } else {
                        match spec_unpack_token(funder_token.data) {
                            Option::None => Err(CoreError::InvalidRecordData),
                            Option::Some(tok) => {
                                if tok.owner != authority.key {
                                    Err(CoreError::TokenOwnerMismatch)
                                } else if tok.mint != pc.token_mint {
                                    Err(CoreError::WrongMint)
                                } else if tok.amount < amount {
                                    Err(CoreError::InsufficientFunds)
                                } else {
                                    Ok(
                                        StakingOutcomeView {
                                            stake_data: Option::None,
                                            pool_data: Option::None,
                                            transfer: Option::Some(
                                                TransferView {
                                                    source: funder_token.key,
                                                    destination: reward_vault.key,
                                                    authority: authority.key,
                                                    authority_bump: Option::None,
                                                    amount,
                                                },
                                            ),
                                            event: StakeEvent::RewardsFunded { amount },
                                        },
                                    )
                                }
                            },
                        }
                    }
                },
            }
        }
    }
}

/// Move funding from the authority's balance record into the reward vault.
pub fn fund_rewards(program_id: &Identity, accounts: &Vec<RecordRef>, amount: u64) -> (r: Result<
    StakingOutcome,
    CoreError,
>)
    ensures
        match r {
            Ok(out) => spec_fund_rewards(program_id@, views_of(accounts@), amount)
                == Result::<StakingOutcomeView, CoreError>::Ok(out@),
            Err(e) => spec_fund_rewards(program_id@, views_of(accounts@), amount)
                == Result::<StakingOutcomeView, CoreError>::Err(e),
        },
{
    if accounts.len() < 5 {
        return Err(CoreError::NotEnoughRecords);
    }
    let funder_token = &accounts[0];
    let authority = &accounts[1];
    let reward_vault = &accounts[2];
    let pool_rec = &accounts[3];
    let token_program = &accounts[4];
    if !authority.is_signer {
        return Err(CoreError::MissingRequiredSignature);
    }
    if !owned_by_program(pool_rec, program_id) {
        return Err(CoreError::WrongRecordOwner);
    }
    if !is_token_program(&token_program.key) {
        return Err(CoreError::IncorrectTokenProgram);
    }
    let pc = match decode_pool_config(&pool_rec.data) {
        Option::Some(pc) => pc,
        Option::None => {
            return Err(CoreError::InvalidRecordData);
        },
    };
    if !pc.is_initialized {
        return Err(CoreError::UninitializedRecord);
    }
    if !identity_eq(&pc.authority, &authority.key) {
        return Err(CoreError::NotAuthority);
    }
    if !identity_eq(&reward_vault.key, &pc.reward_vault) {
        return Err(CoreError::WrongVault);
    }
    if amount == 0 {
        return Err(CoreError::ZeroAmount);
    }
    let tok = match unpack_token_account(&funder_token.data) {
        Ok(t) => t,
        Err(e) => {
            return Err(e);
        },
    };
    if !identity_eq(&tok.owner, &authority.key) {
        return Err(CoreError::TokenOwnerMismatch);
    }
    if !identity_eq(&tok.mint, &pc.token_mint) {
        return Err(CoreError::WrongMint);
    }
    if tok.amount < amount {
        return Err(CoreError::InsufficientFunds);
    }
    let out = StakingOutcome {
        stake_data: Option::None,
        pool_data: Option::None,
        transfer: Option::Some(
            TransferInstruction {
                source: funder_token.key,
                destination: reward_vault.key,
                authority: authority.key,
                authority_bump: Option::None,
                amount,
            },
        ),
        event: StakeEvent::RewardsFunded { amount },
    };
    proof {
        let s = spec_fund_rewards(program_id@, views_of(accounts@), amount);
        assert(s matches Ok(o) && o =~~= out@);
    }
    Ok(out)
}

// ---------------------------------------------------------------------------
// instruction dispatch

/// What the staking entry point does: decode the instruction payload, then
/// run the operation it selects on the given record snapshots at time
/// `now`.
pub open spec fn spec_staking_process(
    program: Seq<u8>,
    accs: Seq<RecordView>,
    data: Seq<u8>,
    now: u64,
) -> Result<StakingOutcomeView, CoreError> {
    match spec_decode_stake_instruction(data) {
        Option::None => Err(CoreError::InvalidInstructionData),
        Option::Some(ins) => match ins {
            StakeInstruction::InitializePool { bump, policy } => spec_initialize_pool(
                program,
                accs,
                bump,
                policy,
            ),
            StakeInstruction::InitializeStake { bump } => spec_initialize_stake(
                program,
                accs,
                bump,
            ),
            StakeInstruction::Stake { amount, tier } => spec_stake(program, accs, amount, tier,
                now),
            StakeInstruction::Unstake => spec_unstake(program, accs, now),
            StakeInstruction::ClaimRewards => spec_claim_rewards(program, accs, now),
            StakeInstruction::EmergencyUnstake => spec_emergency_unstake(program, accs),
            StakeInstruction::SetPaused { paused } => spec_set_paused(program, accs, paused),
            StakeInstruction::UpdateRates { basic, pro, elite } => spec_update_rates(
                program,
                accs,
                basic,
                pro,
                elite,
            ),
            StakeInstruction::FundRewards { amount } => spec_fund_rewards(program, accs, amount),
        },
    }
}

/// The staking entry point: decode the instruction payload and dispatch.
/// `now` is the host clock's reading for this invocation.
pub fn process_instruction(
    program_id: &Identity,
    accounts: &Vec<RecordRef>,
    instruction_data: &Vec<u8>,
    now: u64,
) -> (r: Result<StakingOutcome, CoreError>)
    ensures
        match r {
            Ok(out) => spec_staking_process(program_id@, views_of(accounts@), instruction_data@,
                now) == Result::<StakingOutcomeView, CoreError>::Ok(out@),
            Err(e) => spec_staking_process(program_id@, views_of(accounts@), instruction_data@,
                now) == Result::<StakingOutcomeView, CoreError>::Err(e),
        },
{
    let ins = match decode_stake_instruction(instruction_data) {
        Option::Some(ins) => ins,
        Option::None => {
            return Err(CoreError::InvalidInstructionData);
        },
    };
    match ins {
        StakeInstruction::InitializePool { bump, policy } => initialize_pool(
            program_id,
            accounts,
            bump,
            policy,
        ),
        StakeInstruction::InitializeStake { bump } => initialize_stake(program_id, accounts, bump),
        StakeInstruction::Stake { amount, tier } => stake(program_id, accounts, amount, tier, now),
        StakeInstruction::Unstake => unstake(program_id, accounts, now),
        StakeInstruction::ClaimRewards => claim_rewards(program_id, accounts, now),
        StakeInstruction::EmergencyUnstake => emergency_unstake(program_id, accounts),
        StakeInstruction::SetPaused { paused } => set_paused(program_id, accounts, paused),
        StakeInstruction::UpdateRates { basic, pro, elite } => update_rates(
            program_id,
            accounts,
            basic,
            pro,
            elite,
        ),
        StakeInstruction::FundRewards { amount } => fund_rewards(program_id, accounts, amount),
    }
}

} // verus!
