//! Exact-value checks of the engine's arithmetic helpers.

use bawls_staking::error::StakingError;
use bawls_staking::math::{compute_reward_share, compute_tax, split_tax};

#[test]
fn tax_is_floor_of_percentage() {
    assert_eq!(compute_tax(1_000_000, 5), 50_000);
    assert_eq!(compute_tax(999, 5), 49);
    assert_eq!(compute_tax(19, 5), 0);
    assert_eq!(compute_tax(0, 5), 0);
    assert_eq!(compute_tax(1_000_000, 0), 0);
    assert_eq!(compute_tax(1_000_000, 100), 1_000_000);
    // The 128-bit intermediate keeps the largest balances exact.
    assert_eq!(compute_tax(u64::MAX, 100), u64::MAX);
    assert_eq!(compute_tax(u64::MAX, 5), u64::MAX / 20);
}

#[test]
fn tax_split_is_three_fifths_to_the_pool() {
    assert_eq!(split_tax(50_000), (30_000, 20_000));
    assert_eq!(split_tax(0), (0, 0));
    assert_eq!(split_tax(1), (0, 1));
    assert_eq!(split_tax(4), (2, 2));
    assert_eq!(split_tax(5), (3, 2));
    let (to_pool, to_community) = split_tax(u64::MAX);
    assert_eq!(to_pool as u128, (u64::MAX as u128) * 3 / 5);
    assert_eq!(to_pool + to_community, u64::MAX);
}

#[test]
fn reward_share_is_floored_pro_rata() {
    assert_eq!(compute_reward_share(2_000_000, 30_000, 2_000_000), Ok(30_000));
    assert_eq!(compute_reward_share(1_000_000, 30_000, 3_000_000), Ok(10_000));
    assert_eq!(compute_reward_share(1, 9, 1_000_001), Ok(0));
    assert_eq!(compute_reward_share(650, 7, 750), Ok(6));
    // The wide product is exact even when it exceeds 64 bits.
    assert_eq!(compute_reward_share(u64::MAX, u64::MAX, u64::MAX), Ok(u64::MAX));
}

#[test]
fn reward_share_overflow_is_reported_not_truncated() {
    assert_eq!(
        compute_reward_share(u64::MAX, 3, 1),
        Err(StakingError::MathOverflow)
    );
    assert_eq!(
        compute_reward_share(u64::MAX, u64::MAX, 2),
        Err(StakingError::MathOverflow)
    );
}
