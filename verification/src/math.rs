//! Arithmetic of the staking engine: the exit tax, its split between the
//! pool and the community wallet, and the pro-rata reward share. All
//! executable computations use 128-bit intermediates so that no product
//! can overflow, and are proved equal to the mathematical formulas here.

use vstd::prelude::*;
use vstd::arithmetic::div_mod::{lemma_div_is_ordered, lemma_div_multiples_vanish};
use vstd::arithmetic::mul::{lemma_mul_inequality, lemma_mul_upper_bound};
use crate::error::StakingError;

verus! {

/// Exit tax on withdrawing `amount` staked for `duration` seconds:
/// nothing once the stake has aged past `min_stake_duration`, otherwise
/// `tax_percentage` percent of the amount, rounded down.
pub open spec fn tax_on_unstake(
    amount: u64,
    tax_percentage: u8,
    duration: int,
    min_stake_duration: i64,
) -> int {
    if duration >= min_stake_duration {
        0
    } else {
        ((amount as int) * (tax_percentage as int)) / 100
    }
}

/// Share of a collected tax that stays in the pool for redistribution:
/// three fifths, rounded down.
pub open spec fn pool_share_of_tax(tax: int) -> int {
    (tax * 3) / 5
}

/// Share of a collected tax routed to the community wallet: the remainder
/// of the three-fifths split.
pub open spec fn community_share_of_tax(tax: int) -> int {
    tax - pool_share_of_tax(tax)
}

/// Reward entitlement of a staker holding `user_stake` out of
/// `total_staked` when `new_rewards` have accrued since their snapshot:
/// the pro-rata share, rounded down.
pub open spec fn reward_share(user_stake: u64, new_rewards: u64, total_staked: u64) -> int {
    ((user_stake as int) * (new_rewards as int)) / (total_staked as int)
}

/// A percentage of an amount, rounded down, never exceeds the amount.
pub proof fn lemma_percentage_bound(amount: int, pct: int)
    requires
        0 <= amount,
        0 <= pct <= 100,
    ensures
        amount * pct / 100 <= amount,
        0 <= amount * pct / 100,
{
    lemma_mul_inequality(pct, 100, amount);
    assert(pct * amount == amount * pct) by (nonlinear_arith);
    assert(100 * amount == amount * 100) by (nonlinear_arith);
    lemma_div_is_ordered(amount * pct, amount * 100, 100);
    lemma_div_multiples_vanish(amount, 100);
    assert(amount * pct >= 0) by (nonlinear_arith)
        requires
            0 <= amount,
            0 <= pct,
    ;
    lemma_div_is_ordered(0, amount * pct, 100);
}

/// The exit tax is never negative and never exceeds the amount being
/// withdrawn, whatever the stake's age.
pub proof fn lemma_tax_bounds(amount: u64, tax_percentage: u8, duration: int, min_stake_duration: i64)
    requires
        tax_percentage <= 100,
    ensures
        0 <= tax_on_unstake(amount, tax_percentage, duration, min_stake_duration) <= amount,
{
    if duration < min_stake_duration {
        lemma_percentage_bound(amount as int, tax_percentage as int);
    }
}

/// Exit tax for an early withdrawal, `tax_percentage` percent of
/// `amount` rounded down, computed with a 128-bit intermediate. The tax
/// never exceeds the taxed amount.
pub fn compute_tax(amount: u64, tax_percentage: u8) -> (tax: u64)
    requires
        tax_percentage <= 100,
    ensures
        tax == ((amount as int) * (tax_percentage as int)) / 100,
        tax <= amount,
{
    proof {
        lemma_percentage_bound(amount as int, tax_percentage as int);
    }
    let wide: u128 = (amount as u128) * (tax_percentage as u128) / 100;
    wide as u64
}

/// Three fifths of a tax, rounded down, never exceeds the tax.
pub proof fn lemma_pool_share_bound(tax: int)
    requires
        0 <= tax,
    ensures
        0 <= pool_share_of_tax(tax) <= tax,
{
    lemma_mul_inequality(3, 5, tax);
    assert(3 * tax == tax * 3) by (nonlinear_arith);
    assert(5 * tax == tax * 5) by (nonlinear_arith);
    lemma_div_is_ordered(tax * 3, tax * 5, 5);
    lemma_div_multiples_vanish(tax, 5);
    assert(tax * 3 >= 0) by (nonlinear_arith)
        requires
            0 <= tax,
    ;
    lemma_div_is_ordered(0, tax * 3, 5);
}

/// Splits a collected tax between the pool and the community wallet:
/// three fifths (rounded down) stay in the pool, the rest goes to the
/// community. The two shares always add back up to the whole tax.
pub fn split_tax(tax: u64) -> (shares: (u64, u64))
    ensures
        shares.0 == pool_share_of_tax(tax as int),
        shares.1 == community_share_of_tax(tax as int),
        shares.0 + shares.1 == tax,
        shares.0 <= tax,
{
    proof {
        lemma_pool_share_bound(tax as int);
    }
    let to_pool: u128 = (tax as u128) * 3 / 5;
    let to_pool64: u64 = to_pool as u64;
    (to_pool64, tax - to_pool64)
}

/// Pro-rata reward share, `user_stake * new_rewards / total_staked` with
/// a 128-bit intermediate. Fails with `MathOverflow` exactly when the
/// quotient does not fit back into 64 bits; it never silently truncates.
pub fn compute_reward_share(user_stake: u64, new_rewards: u64, total_staked: u64) -> (r: Result<
    u64,
    StakingError,
>)
    requires
        total_staked > 0,
    ensures
        reward_share(user_stake, new_rewards, total_staked) <= u64::MAX ==> r == Ok::<
            u64,
            StakingError,
        >((reward_share(user_stake, new_rewards, total_staked)) as u64),
        reward_share(user_stake, new_rewards, total_staked) > u64::MAX ==> r == Err::<
            u64,
            StakingError,
        >(StakingError::MathOverflow),
{
    proof {
        lemma_mul_upper_bound(user_stake as int, u64::MAX as int, new_rewards as int, u64::MAX as int);
    }
    let wide: u128 = (user_stake as u128) * (new_rewards as u128);
    let share: u128 = wide / (total_staked as u128);
    if share > u64::MAX as u128 {
        Err(StakingError::MathOverflow)
    } else {
        Ok(share as u64)
    }
}

} // verus!
