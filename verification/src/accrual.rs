//! Reward accrual: interest owed for a locked position as a function of
//! principal, annual rate in basis points, and elapsed seconds, with
//! floor division and overflow failing closed.

use vstd::prelude::*;

use crate::errors::CoreError;
use crate::records::{StakeAccount, StakeView};

verus! {

/// Basis-point denominator: 10000 basis points = 100%.
pub const BPS_DENOMINATOR: u64 = 10_000;

/// Seconds in the 365-day year the rates are quoted against.
pub const SECONDS_PER_YEAR: u64 = 31_536_000;

/// The reward owed: `floor(principal * rate * elapsed / (10000 * seconds
/// per year))`, or nothing when that value does not fit in 64 bits.
pub open spec fn spec_accrue(principal: u64, rate_bps: u64, elapsed: u64) -> Option<u64> {
    let v = (principal * rate_bps * elapsed) / ((SECONDS_PER_YEAR * BPS_DENOMINATOR) as int);
    if v > u64::MAX {
        None
    } else {
        Some(v as u64)
    }
}

/// Compute the reward owed, accumulating in 128 bits so that no realistic
/// input overflows; a result that does not fit in 64 bits fails closed.
pub fn accrue(principal: u64, rate_bps: u64, elapsed: u64) -> (r: Result<u64, CoreError>)
    ensures
        r == match spec_accrue(principal, rate_bps, elapsed) {
            Some(v) => Result::<u64, CoreError>::Ok(v),
            None => Result::<u64, CoreError>::Err(CoreError::ArithmeticOverflow),
        },
{
    let denom: u128 = (SECONDS_PER_YEAR as u128) * (BPS_DENOMINATOR as u128);
    proof {
        assert(SECONDS_PER_YEAR == 31_536_000u64);
        assert(BPS_DENOMINATOR == 10_000u64);
        assert(31_536_000u128 * 10_000u128 == 315_360_000_000u128) by (nonlinear_arith);
        assert(denom == 315_360_000_000u128);
        assert((principal as int) * (rate_bps as int) <= (u64::MAX as int) * (u64::MAX as int))
            by (nonlinear_arith)
            requires
                principal <= u64::MAX,
                rate_bps <= u64::MAX,
        ;
    }
    let pr: u128 = (principal as u128) * (rate_bps as u128);
    match pr.checked_mul(elapsed as u128) {
        Option::None => {
            proof {
                lemma_accrue_overflow(principal, rate_bps, elapsed);
            }
            Err(CoreError::ArithmeticOverflow)
        },
        Option::Some(product) => {
            let v: u128 = product / denom;
            if v > u64::MAX as u128 {
                Err(CoreError::ArithmeticOverflow)
            } else {
                Ok(v as u64)
            }
        },
    }
}

/// When the 128-bit product overflows, the quotient would not have fit in
/// 64 bits either, so failing closed agrees with the mathematical value.
proof fn lemma_accrue_overflow(principal: u64, rate_bps: u64, elapsed: u64)
    requires
        (principal as int) * (rate_bps as int) * (elapsed as int) > u128::MAX,
    ensures
        spec_accrue(principal, rate_bps, elapsed) is None,
{
    let p = (principal as int) * (rate_bps as int) * (elapsed as int);
    let d = (SECONDS_PER_YEAR * BPS_DENOMINATOR) as int;
    let m = u64::MAX as int + 1;
    assert(d * m <= u128::MAX as int + 1);
    vstd::arithmetic::div_mod::lemma_div_is_ordered(d * m, p, d);
    vstd::arithmetic::div_mod::lemma_div_multiples_vanish(m, d);
}

/// Total reward accrued by `current_time` under the continuous policy at
/// `rate_bps`: zero for a closed or never-opened position, otherwise the
/// accrual over the clamped elapsed time since the stake was opened.
pub open spec fn spec_calculate_rewards(s: StakeView, current_time: u64, rate_bps: u64) -> Result<
    u64,
    CoreError,
> {
    if s.amount == 0 || s.stake_timestamp == 0 {
        Ok(0u64)
    } else {
        match spec_accrue(s.amount, rate_bps, spec_elapsed(current_time, s.stake_timestamp)) {
            Some(v) => Ok(v),
            None => Err(CoreError::ArithmeticOverflow),
        }
    }
}

/// Elapsed seconds since `since`, clamped at zero so that clock skew never
/// yields a negative duration.
pub open spec fn spec_elapsed(now: u64, since: u64) -> u64 {
    if now >= since {
        (now - since) as u64
    } else {
        0
    }
}

/// Elapsed seconds since `since`, clamped at zero.
pub fn elapsed_since(now: u64, since: u64) -> (r: u64)
    ensures
        r == spec_elapsed(now, since),
{
    if now >= since {
        now - since
    } else {
        0
    }
}

impl StakeAccount {
    /// Total reward this position has accrued by `current_time` at
    /// `rate_bps`, under the continuous policy.
    pub fn calculate_rewards(&self, current_time: u64, rate_bps: u64) -> (r: Result<
        u64,
        CoreError,
    >)
        ensures
            r == spec_calculate_rewards(self@, current_time, rate_bps),
    {
        if self.amount == 0 || self.stake_timestamp == 0 {
            return Ok(0);
        }
        accrue(self.amount, rate_bps, elapsed_since(current_time, self.stake_timestamp))
    }
}

} // verus!
