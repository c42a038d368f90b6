//! The library's laws: classifier monotonicity, accrual bounds,
//! verification idempotence, exactly-once claiming, no early unlock, and
//! conservation of the pool aggregate over the open positions.  Each law is
//! stated over the same spec functions the operations' contracts use.

use vstd::prelude::*;

use crate::accrual::{spec_accrue, BPS_DENOMINATOR, SECONDS_PER_YEAR};
use crate::codec::{
    lemma_access_account_round_trip, lemma_pool_config_round_trip, lemma_stake_account_round_trip,
    spec_decode_access_account, spec_decode_pool_config, spec_decode_stake_account,
};
use crate::errors::CoreError;
use crate::records::{RecordView, StakeView};
use crate::staking::{spec_claim_rewards, spec_emergency_unstake, spec_stake, spec_unstake};
use crate::access::spec_verify_access;
use crate::tier::{spec_classify, spec_tier_level};

verus! {

// ---------------------------------------------------------------------------
// the classifier is monotonic

/// A larger balance never yields a lower tier: the classifier is monotonic
/// non-decreasing, and every balance maps to exactly one tier of the fixed
/// set (the classifier is a total function into the tier enum).
pub proof fn lemma_classify_monotonic(b1: u64, b2: u64)
    requires
        b1 <= b2,
    ensures
        spec_tier_level(spec_classify(b1)) <= spec_tier_level(spec_classify(b2)),
{
}

// ---------------------------------------------------------------------------
// accrual is non-negative and zero at zero elapsed time

/// Accrual never owes a negative reward, and zero elapsed time owes
/// exactly zero, for every principal and rate.
pub proof fn lemma_accrue_bounds(principal: u64, rate_bps: u64, elapsed: u64)
    ensures
        spec_accrue(principal, rate_bps, 0) == Some(0u64),
        spec_accrue(principal, rate_bps, elapsed) matches Some(v) ==> v >= 0,
{
    let d = (SECONDS_PER_YEAR * BPS_DENOMINATOR) as int;
    assert((principal as int) * (rate_bps as int) * 0 == 0);
    vstd::arithmetic::div_mod::lemma_div_of0(d);
}

// ---------------------------------------------------------------------------
// verification is idempotent

/// Running verification twice against an unchanged authoritative balance
/// record leaves the stored tier and balance unchanged; only the
/// verification timestamp moves.
pub proof fn lemma_verify_idempotent(
    program: Seq<u8>,
    accs: Seq<RecordView>,
    now1: u64,
    now2: u64,
)
    requires
        spec_verify_access(program, accs, now1) is Ok,
    ensures
        ({
            let out1 = spec_verify_access(program, accs, now1)->Ok_0;
            let d1 = out1.access_data->Some_0;
            let accs2 = accs.update(0, RecordView { data: d1, ..accs[0] });
            let r2 = spec_verify_access(program, accs2, now2);
            &&& r2 is Ok
            &&& ({
                let ad1 = spec_decode_access_account(d1)->Some_0;
                let ad2 = spec_decode_access_account(r2->Ok_0.access_data->Some_0)->Some_0;
                &&& ad2.current_tier == ad1.current_tier
                &&& ad2.last_verified_balance == ad1.last_verified_balance
                &&& ad2.verification_timestamp == now2
            })
        }),
{
    let ad = spec_decode_access_account(accs[0].data)->Some_0;
    let out1 = spec_verify_access(program, accs, now1)->Ok_0;
    let d1 = out1.access_data->Some_0;
    let new1 = spec_decode_access_account(d1);
    lemma_access_account_round_trip(
        crate::records::AccessView {
            current_tier: spec_classify(
                crate::ledger::spec_unpack_token(accs[2].data)->Some_0.amount,
            ),
            last_verified_balance: crate::ledger::spec_unpack_token(accs[2].data)->Some_0.amount,
            verification_timestamp: now1,
            ..ad
        },
    );
    let accs2 = accs.update(0, RecordView { data: d1, ..accs[0] });
    assert(accs2.len() == accs.len());
    assert(accs2[1] == accs[1] && accs2[2] == accs[2] && accs2[3] == accs[3]);
    let sd2 = spec_decode_access_account(accs2[0].data)->Some_0;
    let r2 = spec_verify_access(program, accs2, now2);
    let new2v = crate::records::AccessView {
        current_tier: spec_classify(crate::ledger::spec_unpack_token(accs2[2].data)->Some_0.amount),
        last_verified_balance: crate::ledger::spec_unpack_token(accs2[2].data)->Some_0.amount,
        verification_timestamp: now2,
        ..sd2
    };
    lemma_access_account_round_trip(new2v);
}

// ---------------------------------------------------------------------------
// claiming is exactly-once

/// After a successful claim drains what is claimable, an immediate second
/// claim at the same time against the updated records yields "nothing to
/// claim" — never a second transfer.
pub proof fn lemma_no_double_claim(program: Seq<u8>, accs: Seq<RecordView>, now: u64)
    requires
        spec_claim_rewards(program, accs, now) is Ok,
    ensures
        ({
            let out1 = spec_claim_rewards(program, accs, now)->Ok_0;
            let accs2 = accs.update(0, RecordView { data: out1.stake_data->Some_0, ..accs[0] })
                .update(4, RecordView { data: out1.pool_data->Some_0, ..accs[4] });
            spec_claim_rewards(program, accs2, now) == Result::<
                crate::staking::StakingOutcomeView,
                CoreError,
            >::Err(CoreError::NothingToClaim)
        }),
{
    let sd = spec_decode_stake_account(accs[0].data)->Some_0;
    let pc = spec_decode_pool_config(accs[4].data)->Some_0;
    let out1 = spec_claim_rewards(program, accs, now)->Ok_0;
    let total_owed = crate::staking::spec_total_owed(sd, pc, now)->Ok_0;
    let claimable: u64 = if total_owed >= sd.claimed_rewards {
        (total_owed - sd.claimed_rewards) as u64
    } else {
        0u64
    };
    let new_sd = StakeView { claimed_rewards: total_owed, ..sd };
    let new_pc = crate::records::PoolView {
        total_rewards_distributed: (pc.total_rewards_distributed + claimable) as u64,
        ..pc
    };
    lemma_stake_account_round_trip(new_sd);
    lemma_pool_config_round_trip(new_pc);
    let accs2 = accs.update(0, RecordView { data: out1.stake_data->Some_0, ..accs[0] }).update(
        4,
        RecordView { data: out1.pool_data->Some_0, ..accs[4] },
    );
    assert(accs2.len() == accs.len());
    assert(accs2[1] == accs[1] && accs2[2] == accs[2] && accs2[3] == accs[3] && accs2[5] == accs[5]
        && accs2[6] == accs[6]);
    assert(spec_decode_stake_account(accs2[0].data) == Some(new_sd));
    assert(spec_decode_pool_config(accs2[4].data) == Some(new_pc));
    assert(crate::staking::spec_total_owed(new_sd, new_pc, now) == Result::<u64, CoreError>::Ok(
        total_owed,
    ));
}

// ---------------------------------------------------------------------------
// no early unlock

/// Unstaking never succeeds before the unlock time, and an
/// otherwise-valid unstake attempted before the unlock time fails with
/// exactly the lock-still-active error — and therefore with no transfer.
pub proof fn lemma_no_early_unlock(program: Seq<u8>, accs: Seq<RecordView>, now: u64)
    ensures
        spec_unstake(program, accs, now) is Ok ==> now >= spec_decode_stake_account(
            accs[0].data,
        )->Some_0.unlock_timestamp,
        ({
            let r = spec_unstake(program, accs, now);
            accs.len() >= 7 ==> match (spec_decode_stake_account(accs[0].data),
            spec_decode_pool_config(accs[4].data)) {
                (Some(sd), Some(pc)) => {
                    (accs[1].is_signer && accs[0].owner_program == program
                        && accs[4].owner_program == program
                        && crate::ledger::spec_is_token_program_id(accs[6].key)
                        && sd.is_initialized && pc.is_initialized && sd.owner == accs[1].key
                        && sd.amount > 0 && accs[3].key == pc.stake_vault
                        && now < sd.unlock_timestamp) ==> r == Result::<
                        crate::staking::StakingOutcomeView,
                        CoreError,
                    >::Err(CoreError::StillLocked)
                },
                _ => true,
            }
        }),
{
}

// ---------------------------------------------------------------------------
// conservation of the pool aggregate

/// The total principal of a population of positions: the sum of their
/// `amount` fields (a closed position holds zero).
pub open spec fn spec_sum_staked(ps: Seq<StakeView>) -> int
    decreases ps.len(),
{
    if ps.len() == 0 {
        0
    } else {
        spec_sum_staked(ps.drop_last()) + ps.last().amount
    }
}

/// Replacing one position changes the sum by the difference of the two
/// amounts.
pub proof fn lemma_sum_update(ps: Seq<StakeView>, i: int, x: StakeView)
    requires
        0 <= i < ps.len(),
    ensures
        spec_sum_staked(ps.update(i, x)) == spec_sum_staked(ps) - ps[i].amount + x.amount,
    decreases ps.len(),
{
    if i == ps.len() - 1 {
        assert(ps.update(i, x).drop_last() =~= ps.drop_last());
    } else {
        assert(ps.update(i, x).drop_last() =~= ps.drop_last().update(i, x));
        lemma_sum_update(ps.drop_last(), i, x);
    }
}

/// Every position's principal is at most the population's sum.
pub proof fn lemma_element_le_sum(ps: Seq<StakeView>, i: int)
    requires
        0 <= i < ps.len(),
    ensures
        ps[i].amount <= spec_sum_staked(ps),
    decreases ps.len(),
{
    lemma_sum_nonneg(ps.drop_last());
    if i < ps.len() - 1 {
        lemma_element_le_sum(ps.drop_last(), i);
    }
}

/// A sum of principals is never negative.
pub proof fn lemma_sum_nonneg(ps: Seq<StakeView>)
    ensures
        spec_sum_staked(ps) >= 0,
    decreases ps.len(),
{
    if ps.len() > 0 {
        lemma_sum_nonneg(ps.drop_last());
    }
}

/// Conservation under staking: when the pool aggregate equals the summed
/// principal of all positions and one of them is the record being staked
/// into, a successful stake leaves the new aggregate equal to the new sum.
pub proof fn lemma_stake_conserves(
    program: Seq<u8>,
    accs: Seq<RecordView>,
    amount: u64,
    tier: crate::records::StakeTier,
    now: u64,
    ps: Seq<StakeView>,
    i: int,
)
    requires
        spec_stake(program, accs, amount, tier, now) is Ok,
        0 <= i < ps.len(),
        ps[i] == spec_decode_stake_account(accs[0].data)->Some_0,
        spec_sum_staked(ps) == spec_decode_pool_config(accs[4].data)->Some_0.total_staked,
    ensures
        ({
            let out = spec_stake(program, accs, amount, tier, now)->Ok_0;
            let new_sd = spec_decode_stake_account(out.stake_data->Some_0)->Some_0;
            let new_pc = spec_decode_pool_config(out.pool_data->Some_0)->Some_0;
            spec_sum_staked(ps.update(i, new_sd)) == new_pc.total_staked
        }),
{
    let sd = spec_decode_stake_account(accs[0].data)->Some_0;
    let pc = spec_decode_pool_config(accs[4].data)->Some_0;
    let out = spec_stake(program, accs, amount, tier, now)->Ok_0;
    let duration = crate::records::spec_lock_duration(tier);
    let frozen = if pc.reward_policy is FixedAtStake {
        spec_accrue(amount, crate::records::spec_rate_for(pc, tier), duration)->Some_0
    } else {
        0u64
    };
    let new_sd = StakeView {
        is_initialized: true,
        owner: sd.owner,
        amount,
        tier,
        stake_timestamp: now,
        unlock_timestamp: (now + duration) as u64,
        frozen_reward: frozen,
        claimed_rewards: 0,
        bump: sd.bump,
    };
    let new_pc = crate::records::PoolView {
        total_staked: (pc.total_staked + amount) as u64,
        total_positions: (pc.total_positions + 1) as u64,
        ..pc
    };
    lemma_stake_account_round_trip(new_sd);
    lemma_pool_config_round_trip(new_pc);
    lemma_sum_update(ps, i, new_sd);
}

/// Conservation under unstaking: a successful unstake removes exactly the
/// closed position's principal from the aggregate.
pub proof fn lemma_unstake_conserves(
    program: Seq<u8>,
    accs: Seq<RecordView>,
    now: u64,
    ps: Seq<StakeView>,
    i: int,
)
    requires
        spec_unstake(program, accs, now) is Ok,
        0 <= i < ps.len(),
        ps[i] == spec_decode_stake_account(accs[0].data)->Some_0,
        spec_sum_staked(ps) == spec_decode_pool_config(accs[4].data)->Some_0.total_staked,
    ensures
        ({
            let out = spec_unstake(program, accs, now)->Ok_0;
            let new_sd = spec_decode_stake_account(out.stake_data->Some_0)->Some_0;
            let new_pc = spec_decode_pool_config(out.pool_data->Some_0)->Some_0;
            spec_sum_staked(ps.update(i, new_sd)) == new_pc.total_staked
        }),
{
    let sd = spec_decode_stake_account(accs[0].data)->Some_0;
    let pc = spec_decode_pool_config(accs[4].data)->Some_0;
    let out = spec_unstake(program, accs, now)->Ok_0;
    let reward_due: u64 = if pc.reward_policy is FixedAtStake {
        if sd.frozen_reward >= sd.claimed_rewards {
            (sd.frozen_reward - sd.claimed_rewards) as u64
        } else {
            0u64
        }
    } else {
        0u64
    };
    let new_sd = crate::staking::spec_closed_position(sd);
    let new_pc = crate::records::PoolView {
        total_staked: if pc.total_staked >= sd.amount {
            (pc.total_staked - sd.amount) as u64
        } else {
            0u64
        },
        total_positions: if pc.total_positions >= 1 {
            (pc.total_positions - 1) as u64
        } else {
            0u64
        },
        total_rewards_distributed: (pc.total_rewards_distributed + reward_due) as u64,
        ..pc
    };
    lemma_stake_account_round_trip(new_sd);
    lemma_pool_config_round_trip(new_pc);
    lemma_element_le_sum(ps, i);
    lemma_sum_update(ps, i, new_sd);
}

/// Conservation under an emergency unstake: the same accounting as a
/// regular unstake, whatever the clock says.
pub proof fn lemma_emergency_unstake_conserves(
    program: Seq<u8>,
    accs: Seq<RecordView>,
    ps: Seq<StakeView>,
    i: int,
)
    requires
        spec_emergency_unstake(program, accs) is Ok,
        0 <= i < ps.len(),
        ps[i] == spec_decode_stake_account(accs[0].data)->Some_0,
        spec_sum_staked(ps) == spec_decode_pool_config(accs[4].data)->Some_0.total_staked,
    ensures
        ({
            let out = spec_emergency_unstake(program, accs)->Ok_0;
            let new_sd = spec_decode_stake_account(out.stake_data->Some_0)->Some_0;
            let new_pc = spec_decode_pool_config(out.pool_data->Some_0)->Some_0;
            spec_sum_staked(ps.update(i, new_sd)) == new_pc.total_staked
        }),
{
    let sd = spec_decode_stake_account(accs[0].data)->Some_0;
    let pc = spec_decode_pool_config(accs[4].data)->Some_0;
    let new_sd = crate::staking::spec_closed_position(sd);
    let new_pc = crate::records::PoolView {
        total_staked: if pc.total_staked >= sd.amount {
            (pc.total_staked - sd.amount) as u64
        } else {
            0u64
        },
        total_positions: if pc.total_positions >= 1 {
            (pc.total_positions - 1) as u64
        } else {
            0u64
        },
        ..pc
    };
    lemma_stake_account_round_trip(new_sd);
    lemma_pool_config_round_trip(new_pc);
    lemma_element_le_sum(ps, i);
    lemma_sum_update(ps, i, new_sd);
}

/// Claiming never moves principal: the aggregate and every position's
/// principal are unchanged by a successful claim.
pub proof fn lemma_claim_conserves(
    program: Seq<u8>,
    accs: Seq<RecordView>,
    now: u64,
    ps: Seq<StakeView>,
    i: int,
)
    requires
        spec_claim_rewards(program, accs, now) is Ok,
        0 <= i < ps.len(),
        ps[i] == spec_decode_stake_account(accs[0].data)->Some_0,
        spec_sum_staked(ps) == spec_decode_pool_config(accs[4].data)->Some_0.total_staked,
    ensures
        ({
            let out = spec_claim_rewards(program, accs, now)->Ok_0;
            let new_sd = spec_decode_stake_account(out.stake_data->Some_0)->Some_0;
            let new_pc = spec_decode_pool_config(out.pool_data->Some_0)->Some_0;
            spec_sum_staked(ps.update(i, new_sd)) == new_pc.total_staked
        }),
{
    let sd = spec_decode_stake_account(accs[0].data)->Some_0;
    let pc = spec_decode_pool_config(accs[4].data)->Some_0;
    let out = spec_claim_rewards(program, accs, now)->Ok_0;
    let total_owed = crate::staking::spec_total_owed(sd, pc, now)->Ok_0;
    let claimable: u64 = if total_owed >= sd.claimed_rewards {
        (total_owed - sd.claimed_rewards) as u64
    } else {
        0u64
    };
    let new_sd = StakeView { claimed_rewards: total_owed, ..sd };
    let new_pc = crate::records::PoolView {
        total_rewards_distributed: (pc.total_rewards_distributed + claimable) as u64,
        ..pc
    };
    lemma_stake_account_round_trip(new_sd);
    lemma_pool_config_round_trip(new_pc);
    lemma_sum_update(ps, i, new_sd);
}

} // verus!
