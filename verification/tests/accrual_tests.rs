use dregan::accrual::{accrue, elapsed_since};
use dregan::errors::CoreError;
use dregan::ids::Identity;
use dregan::records::{StakeAccount, StakeTier};

const DAY: u64 = 24 * 60 * 60;

#[test]
fn thirty_days_at_ten_percent_on_a_thousand_pays_eight() {
    // 1000 * 1000 * 2592000 / (31536000 * 10000) = 8 (floor)
    assert_eq!(accrue(1000, 1000, 30 * DAY), Ok(8));
}

#[test]
fn zero_elapsed_time_accrues_nothing() {
    assert_eq!(accrue(1000, 1000, 0), Ok(0));
    assert_eq!(accrue(u64::MAX, u64::MAX, 0), Ok(0));
}

#[test]
fn zero_principal_accrues_nothing() {
    assert_eq!(accrue(0, 2000, 365 * DAY), Ok(0));
}

#[test]
fn one_year_at_full_rate_pays_the_principal() {
    // 10000 basis points over exactly one year of seconds.
    assert_eq!(accrue(123_456, 10_000, 365 * DAY), Ok(123_456));
}

#[test]
fn a_result_beyond_sixty_four_bits_fails_closed() {
    assert_eq!(accrue(u64::MAX, u64::MAX, u64::MAX), Err(CoreError::ArithmeticOverflow));
}

#[test]
fn elapsed_time_is_clamped_at_zero_on_clock_skew() {
    assert_eq!(elapsed_since(100, 250), 0);
    assert_eq!(elapsed_since(250, 100), 150);
    assert_eq!(elapsed_since(100, 100), 0);
}

#[test]
fn calculate_rewards_matches_the_accrual_formula() {
    let position = StakeAccount {
        is_initialized: true,
        owner: Identity { bytes: [7; 32] },
        amount: 1000,
        tier: StakeTier::Basic,
        stake_timestamp: 1_000_000,
        unlock_timestamp: 1_000_000 + 30 * DAY,
        frozen_reward: 0,
        claimed_rewards: 0,
        bump: 255,
    };
    assert_eq!(position.calculate_rewards(1_000_000 + 30 * DAY, 1000), Ok(8));
    // A clock behind the stake time owes nothing rather than underflowing.
    assert_eq!(position.calculate_rewards(999_999, 1000), Ok(0));
}

#[test]
fn calculate_rewards_of_a_closed_position_is_zero() {
    let closed = StakeAccount {
        is_initialized: true,
        owner: Identity { bytes: [7; 32] },
        amount: 0,
        tier: StakeTier::Elite,
        stake_timestamp: 0,
        unlock_timestamp: 0,
        frozen_reward: 0,
        claimed_rewards: 0,
        bump: 255,
    };
    assert_eq!(closed.calculate_rewards(5_000_000, 2000), Ok(0));
}

#[test]
fn lock_durations_and_default_rates() {
    assert_eq!(StakeTier::Basic.lock_duration(), 30 * DAY);
    assert_eq!(StakeTier::Pro.lock_duration(), 60 * DAY);
    assert_eq!(StakeTier::Elite.lock_duration(), 90 * DAY);
    assert_eq!(StakeTier::Basic.apy_basis_points(), 1000);
    assert_eq!(StakeTier::Pro.apy_basis_points(), 1500);
    assert_eq!(StakeTier::Elite.apy_basis_points(), 2000);
}
