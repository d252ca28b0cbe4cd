//! System-level laws of the staking engine, proved over the transition
//! specifications in `engine`. Each law speaks of whole-system states:
//! the pool singleton together with the sequence of all user ledger
//! entries, one per participant.

use vstd::prelude::*;
use crate::engine::{
    claim_transition, claimable_amount, new_rewards_of, stake_fits, stake_transition,
    unstake_transition, UnstakeReceipt,
};
use crate::events::{ClaimRewardsEvent, StakeEvent};
use crate::error::StakingError;
use crate::math::{
    lemma_pool_share_bound, lemma_tax_bounds, pool_share_of_tax, reward_share, tax_on_unstake,
};
use vstd::arithmetic::div_mod::lemma_div_multiples_vanish;
use crate::state::{AccountKey, Config, StakingPool, UserState};

verus! {

/// Sum of the staked balances over all user ledger entries.
pub open spec fn total_user_stake(users: Seq<UserState>) -> int
    decreases users.len(),
{
    if users.len() == 0 {
        0
    } else {
        total_user_stake(users.drop_last()) + users.last().amount
    }
}

/// The global accounting invariant, checked between operations and
/// never mid-flight: the pool's total equals the sum of all individual
/// stakes.
pub open spec fn pool_covers_users(pool: StakingPool, users: Seq<UserState>) -> bool {
    pool.total_staked == total_user_stake(users)
}

/// The sum of staked balances is never negative.
proof fn lemma_total_user_stake_nonneg(users: Seq<UserState>)
    ensures
        total_user_stake(users) >= 0,
    decreases users.len(),
{
    if users.len() > 0 {
        lemma_total_user_stake_nonneg(users.drop_last());
    }
}

/// No single staked balance exceeds the sum of all of them.
proof fn lemma_user_stake_le_total(users: Seq<UserState>, i: int)
    requires
        0 <= i < users.len(),
    ensures
        users[i].amount <= total_user_stake(users),
    decreases users.len(),
{
    if i == users.len() - 1 {
        lemma_total_user_stake_nonneg(users.drop_last());
    } else {
        lemma_user_stake_le_total(users.drop_last(), i);
    }
}

/// Replacing one entry changes the sum by exactly that entry's change
/// of balance.
proof fn lemma_total_user_stake_update(users: Seq<UserState>, i: int, u: UserState)
    requires
        0 <= i < users.len(),
    ensures
        total_user_stake(users.update(i, u)) == total_user_stake(users) - users[i].amount
            + u.amount,
    decreases users.len(),
{
    let updated = users.update(i, u);
    if i == users.len() - 1 {
        assert(updated.drop_last() =~= users.drop_last());
    } else {
        assert(updated.drop_last() =~= users.drop_last().update(i, u));
        assert(updated.last() == users.last());
        lemma_total_user_stake_update(users.drop_last(), i, u);
    }
}

/// A successful stake by one participant preserves the global
/// accounting invariant: the pool total and that participant's balance
/// grow by the same amount, and nobody else's entry is touched.
pub proof fn lemma_stake_preserves_accounting(
    cfg: Config,
    pool0: StakingPool,
    users: Seq<UserState>,
    i: int,
    caller: AccountKey,
    now: i64,
    amount: u64,
    pool1: StakingPool,
    u1: UserState,
    ev: StakeEvent,
)
    requires
        pool_covers_users(pool0, users),
        0 <= i < users.len(),
        stake_fits(pool0, users[i], amount),
        stake_transition(cfg, pool0, users[i], caller, now, amount) == Ok::<
            (StakingPool, UserState, StakeEvent),
            StakingError,
        >((pool1, u1, ev)),
    ensures
        pool_covers_users(pool1, users.update(i, u1)),
{
    lemma_total_user_stake_update(users, i, u1);
}

/// A successful unstake by one participant preserves the global
/// accounting invariant: their whole balance leaves both the pool total
/// and their entry.
pub proof fn lemma_unstake_preserves_accounting(
    cfg: Config,
    pool0: StakingPool,
    users: Seq<UserState>,
    i: int,
    caller: AccountKey,
    now: i64,
    vault_balance: u64,
    pool1: StakingPool,
    u1: UserState,
    receipt: UnstakeReceipt,
)
    requires
        pool_covers_users(pool0, users),
        0 <= i < users.len(),
        pool0.total_tax_collected + pool_share_of_tax(
            tax_on_unstake(
                users[i].amount,
                cfg.tax_percentage,
                now - users[i].start_time,
                cfg.min_stake_duration,
            ),
        ) <= u64::MAX,
        unstake_transition(cfg, pool0, users[i], caller, now, vault_balance) == Ok::<
            (StakingPool, UserState, UnstakeReceipt),
            StakingError,
        >((pool1, u1, receipt)),
    ensures
        pool_covers_users(pool1, users.update(i, u1)),
{
    lemma_user_stake_le_total(users, i);
    lemma_total_user_stake_update(users, i, u1);
}

/// A successful claim preserves the global accounting invariant: it
/// moves rewards, never stakes, so neither the pool total nor any
/// balance changes.
pub proof fn lemma_claim_preserves_accounting(
    cfg: Config,
    pool0: StakingPool,
    users: Seq<UserState>,
    i: int,
    caller: AccountKey,
    now: i64,
    vault_balance: u64,
    pool1: StakingPool,
    u1: UserState,
    ev: ClaimRewardsEvent,
)
    requires
        pool_covers_users(pool0, users),
        0 <= i < users.len(),
        claim_transition(cfg, pool0, users[i], caller, now, vault_balance) == Ok::<
            (StakingPool, UserState, ClaimRewardsEvent),
            StakingError,
        >((pool1, u1, ev)),
    ensures
        pool_covers_users(pool1, users.update(i, u1)),
{
    lemma_total_user_stake_update(users, i, u1);
}

/// Staking and then unstaking once the stake has aged past the
/// threshold is a clean round trip: no tax is charged, the staker is
/// paid back exactly the staked amount, and the pool total returns to
/// its pre-stake value.
pub proof fn lemma_mature_round_trip(
    cfg: Config,
    pool0: StakingPool,
    u0: UserState,
    caller: AccountKey,
    stake_time: i64,
    amount: u64,
    unstake_time: i64,
    vault_balance: u64,
    pool1: StakingPool,
    u1: UserState,
    ev: StakeEvent,
)
    requires
        u0.amount == 0,
        !u0.locked,
        pool0.total_staked + amount <= u64::MAX,
        stake_transition(cfg, pool0, u0, caller, stake_time, amount) == Ok::<
            (StakingPool, UserState, StakeEvent),
            StakingError,
        >((pool1, u1, ev)),
        unstake_time - stake_time >= cfg.min_stake_duration,
        vault_balance >= amount,
    ensures
        ({
            let r = unstake_transition(cfg, pool1, u1, caller, unstake_time, vault_balance);
            &&& r is Ok
            &&& r->Ok_0.2.event.tax == 0
            &&& r->Ok_0.2.payout_to_user == amount
            &&& r->Ok_0.2.payout_to_community == 0
            &&& r->Ok_0.0.total_staked == pool0.total_staked
            &&& r->Ok_0.0.total_tax_collected == pool0.total_tax_collected
        }),
{
    assert(pool_share_of_tax(0) == 0);
}

/// Invariant of a pool whose entire stake belongs to one participant:
/// lifetime payouts never exceed lifetime tax revenue, and while the
/// participant is staked, payouts so far do not exceed their snapshot.
/// Under it, the cumulative counters keep the documented order
/// `total_rewards_distributed <= total_tax_collected` across every
/// operation; with several stakers the order can be lost when one
/// unstakes between another's accrual and claim.
pub open spec fn solo_pool_inv(pool: StakingPool, user: UserState) -> bool {
    &&& pool.total_rewards_distributed <= pool.total_tax_collected
    &&& pool.total_staked == user.amount
    &&& user.amount > 0 ==> pool.total_rewards_distributed <= user.last_tax_snapshot
        && user.last_tax_snapshot <= pool.total_tax_collected
}

/// A successful stake preserves the solo-pool invariant: the snapshot
/// advances to the pool's current cumulative tax, which the payouts so
/// far never exceed.
pub proof fn lemma_stake_keeps_solo_inv(
    cfg: Config,
    pool0: StakingPool,
    u0: UserState,
    caller: AccountKey,
    now: i64,
    amount: u64,
    pool1: StakingPool,
    u1: UserState,
    ev: StakeEvent,
)
    requires
        solo_pool_inv(pool0, u0),
        stake_fits(pool0, u0, amount),
        stake_transition(cfg, pool0, u0, caller, now, amount) == Ok::<
            (StakingPool, UserState, StakeEvent),
            StakingError,
        >((pool1, u1, ev)),
    ensures
        solo_pool_inv(pool1, u1),
{
}

/// A successful unstake preserves the solo-pool invariant: revenue only
/// grows, and the emptied pool matches the emptied entry.
pub proof fn lemma_unstake_keeps_solo_inv(
    cfg: Config,
    pool0: StakingPool,
    u0: UserState,
    caller: AccountKey,
    now: i64,
    vault_balance: u64,
    pool1: StakingPool,
    u1: UserState,
    receipt: UnstakeReceipt,
)
    requires
        cfg.wf(),
        solo_pool_inv(pool0, u0),
        pool0.total_tax_collected + pool_share_of_tax(
            tax_on_unstake(
                u0.amount,
                cfg.tax_percentage,
                now - u0.start_time,
                cfg.min_stake_duration,
            ),
        ) <= u64::MAX,
        unstake_transition(cfg, pool0, u0, caller, now, vault_balance) == Ok::<
            (StakingPool, UserState, UnstakeReceipt),
            StakingError,
        >((pool1, u1, receipt)),
    ensures
        solo_pool_inv(pool1, u1),
{
    let tax = tax_on_unstake(u0.amount, cfg.tax_percentage, now - u0.start_time, cfg.min_stake_duration);
    lemma_tax_bounds(u0.amount, cfg.tax_percentage, now - u0.start_time, cfg.min_stake_duration);
    lemma_pool_share_bound(tax);
}

/// A successful claim preserves the solo-pool invariant. The sole
/// staker's share of the accrued rewards is the whole accrual, the
/// payout is clamped to the vault balance, and the advanced snapshot
/// covers everything paid so far, so payouts never overtake revenue.
pub proof fn lemma_claim_keeps_solo_inv(
    cfg: Config,
    pool0: StakingPool,
    u0: UserState,
    caller: AccountKey,
    now: i64,
    vault_balance: u64,
    pool1: StakingPool,
    u1: UserState,
    ev: ClaimRewardsEvent,
)
    requires
        solo_pool_inv(pool0, u0),
        pool0.total_rewards_distributed + claimable_amount(pool0, u0, vault_balance) <= u64::MAX,
        claim_transition(cfg, pool0, u0, caller, now, vault_balance) == Ok::<
            (StakingPool, UserState, ClaimRewardsEvent),
            StakingError,
        >((pool1, u1, ev)),
    ensures
        solo_pool_inv(pool1, u1),
{
    let new_rewards = new_rewards_of(pool0, u0);
    lemma_div_multiples_vanish(new_rewards, u0.amount as int);
    assert(reward_share(u0.amount, new_rewards as u64, pool0.total_staked) == new_rewards);
}

} // verus!
