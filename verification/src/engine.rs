//! The staking engine: verified state transitions for `stake`,
//! `unstake`, `claim_rewards` and `set_paused`.
//!
//! Each operation runs as one atomic unit of work under the host ledger
//! runtime: the runtime performs the token transfers the engine decides
//! on and rolls everything back if any of them fails. The engine receives
//! the clock reading and the vault's custodial balance for the unit as
//! plain arguments, mutates the ledger records, and returns the transfer
//! amounts and the event to publish. Each transition is specified as a
//! spec-level function of the pre-state, and the executable operation is
//! proved to realize it exactly.

use vstd::prelude::*;
use crate::error::StakingError;
use crate::events::{ClaimRewardsEvent, PausedEvent, StakeEvent, UnstakeEvent};
use crate::math::{
    community_share_of_tax, compute_reward_share, compute_tax, pool_share_of_tax, reward_share,
    split_tax, tax_on_unstake,
};
use crate::state::{keys_equal, AccountKey, Config, StakingPool, UserState, EXPECTED_VERSION};

verus! {

/// What the runtime must pay out after a successful unstake: the taxed
/// remainder back to the staker, the community share of the tax to the
/// community wallet. The pool's share of the tax never leaves the vault.
#[derive(Clone, Copy, Debug, PartialEq, Eq)]
pub struct UnstakeReceipt {
    /// Amount transferred from the vault back to the staker.
    pub payout_to_user: u64,
    /// Amount transferred from the vault to the community wallet.
    pub payout_to_community: u64,
    /// The record to publish.
    pub event: UnstakeEvent,
}

/// What every mutating user operation checks first: the record's
/// version must match this engine, and the instance must not be paused.
/// Returns the error the operation fails with, if any.
pub open spec fn admission_error(cfg: Config) -> Option<StakingError> {
    if cfg.version != EXPECTED_VERSION {
        Some(StakingError::VersionMismatch)
    } else if cfg.paused {
        Some(StakingError::ContractPaused)
    } else {
        None
    }
}

/// What the lock-guarded operations (`unstake`, `claim_rewards`)
/// check first: the common admission checks, then the reentrancy guard.
pub open spec fn guarded_admission_error(cfg: Config, user: UserState) -> Option<StakingError> {
    match admission_error(cfg) {
        Some(e) => Some(e),
        None => if user.locked {
            Some(StakingError::AlreadyProcessing)
        } else {
            None
        },
    }
}

/// The stake transition: after the admission checks, a positive `amount` moves from
/// the staker into the vault; the stake balance and the pool total grow
/// by it, the tax-free clock restarts at `now`, and the reward snapshot
/// advances to the pool's current cumulative tax, forfeiting any reward
/// accrued but not yet claimed.
pub open spec fn stake_transition(
    cfg: Config,
    pool: StakingPool,
    user: UserState,
    caller: AccountKey,
    now: i64,
    amount: u64,
) -> Result<(StakingPool, UserState, StakeEvent), StakingError> {
    match admission_error(cfg) {
        Some(e) => Err(e),
        None => if amount == 0 {
            Err(StakingError::InvalidStakeAmount)
        } else {
            Ok(
                (
                    StakingPool {
                        total_tax_collected: pool.total_tax_collected,
                        total_rewards_distributed: pool.total_rewards_distributed,
                        total_staked: (pool.total_staked + amount) as u64,
                        bump: pool.bump,
                    },
                    UserState {
                        amount: (user.amount + amount) as u64,
                        start_time: now,
                        authority: user.authority,
                        last_tax_snapshot: pool.total_tax_collected,
                        locked: user.locked,
                    },
                    StakeEvent { user: caller, amount, time: now },
                ),
            )
        },
    }
}

/// Machine limits under which the stake transition's balances fit in 64
/// bits; the host ledger cannot represent larger balances.
pub open spec fn stake_fits(pool: StakingPool, user: UserState, amount: u64) -> bool {
    &&& user.amount + amount <= u64::MAX
    &&& pool.total_staked + amount <= u64::MAX
}

/// Stakes `amount` for `caller` into the vault. The runtime must
/// transfer `amount` from the staker's source account into the vault in
/// the same atomic unit; the transition records the new balances.
pub fn stake(
    cfg: &Config,
    pool: &mut StakingPool,
    user_state: &mut UserState,
    caller: AccountKey,
    now: i64,
    amount: u64,
) -> (r: Result<StakeEvent, StakingError>)
    requires
        stake_transition(*cfg, *old(pool), *old(user_state), caller, now, amount) is Ok
            ==> stake_fits(*old(pool), *old(user_state), amount),
    ensures
        match stake_transition(*cfg, *old(pool), *old(user_state), caller, now, amount) {
            Ok(out) => {
                &&& r == Ok::<StakeEvent, StakingError>(out.2)
                &&& *final(pool) == out.0
                &&& *final(user_state) == out.1
            },
            Err(e) => {
                &&& r == Err::<StakeEvent, StakingError>(e)
                &&& *final(pool) == *old(pool)
                &&& *final(user_state) == *old(user_state)
            },
        },
        final(pool).total_tax_collected == old(pool).total_tax_collected,
        final(pool).total_rewards_distributed == old(pool).total_rewards_distributed,
        final(user_state).locked == old(user_state).locked,
        final(user_state).authority == old(user_state).authority,
{
    if cfg.version != EXPECTED_VERSION {
        return Err(StakingError::VersionMismatch);
    }
    if cfg.paused {
        return Err(StakingError::ContractPaused);
    }
    if amount == 0 {
        return Err(StakingError::InvalidStakeAmount);
    }
    user_state.amount = user_state.amount + amount;
    user_state.start_time = now;
    user_state.last_tax_snapshot = pool.total_tax_collected;
    pool.total_staked = pool.total_staked + amount;
    Ok(StakeEvent { user: caller, amount, time: now })
}

/// The unstake transition: after the admission checks and the reentrancy guard, the
/// whole staked balance leaves the pool. A stake younger than
/// `min_stake_duration` pays the exit tax; three fifths of it stay in the
/// vault as pool revenue, the rest goes to the community wallet. The
/// user's entry is zeroed and the guard is released.
pub open spec fn unstake_transition(
    cfg: Config,
    pool: StakingPool,
    user: UserState,
    caller: AccountKey,
    now: i64,
    vault_balance: u64,
) -> Result<(StakingPool, UserState, UnstakeReceipt), StakingError> {
    match guarded_admission_error(cfg, user) {
        Some(e) => Err(e),
        None => if user.amount == 0 {
            Err(StakingError::NothingToUnstake)
        } else if vault_balance < user.amount {
            Err(StakingError::VaultInsufficientBalance)
        } else {
            let tax = tax_on_unstake(
                user.amount,
                cfg.tax_percentage,
                now - user.start_time,
                cfg.min_stake_duration,
            );
            let to_pool = pool_share_of_tax(tax);
            let to_community = community_share_of_tax(tax);
            let payout = user.amount - tax;
            Ok(
                (
                    StakingPool {
                        total_tax_collected: (pool.total_tax_collected + to_pool) as u64,
                        total_rewards_distributed: pool.total_rewards_distributed,
                        total_staked: (pool.total_staked - user.amount) as u64,
                        bump: pool.bump,
                    },
                    UserState {
                        amount: 0,
                        start_time: 0,
                        authority: user.authority,
                        last_tax_snapshot: 0,
                        locked: false,
                    },
                    UnstakeReceipt {
                        payout_to_user: payout as u64,
                        payout_to_community: to_community as u64,
                        event: UnstakeEvent {
                            user: caller,
                            unstaked_amount: payout as u64,
                            tax: tax as u64,
                            timestamp: now,
                        },
                    },
                ),
            )
        },
    }
}

/// Machine limits under which the unstake transition's balances fit in
/// 64 bits: the leaving stake is covered by the pool total (which holds
/// whenever the pool total is the sum of all stakes), and the cumulative
/// tax counter does not wrap.
pub open spec fn unstake_fits(cfg: Config, pool: StakingPool, user: UserState, now: i64) -> bool {
    let tax = tax_on_unstake(
        user.amount,
        cfg.tax_percentage,
        now - user.start_time,
        cfg.min_stake_duration,
    );
    &&& user.amount <= pool.total_staked
    &&& pool.total_tax_collected + pool_share_of_tax(tax) <= u64::MAX
}

/// Body of `unstake`, run with the reentrancy guard held; the caller
/// releases the guard on every exit path. Leaves the guard bit itself
/// untouched.
fn unstake_locked(
    cfg: &Config,
    pool: &mut StakingPool,
    user_state: &mut UserState,
    caller: AccountKey,
    now: i64,
    vault_balance: u64,
) -> (r: Result<UnstakeReceipt, StakingError>)
    requires
        cfg.wf(),
        old(user_state).wf(),
        old(user_state).amount > 0 && vault_balance >= old(user_state).amount ==> now
            >= old(user_state).start_time && unstake_fits(*cfg, *old(pool), *old(user_state), now),
    ensures
        old(user_state).amount == 0 ==> {
            &&& r == Err::<UnstakeReceipt, StakingError>(StakingError::NothingToUnstake)
            &&& *final(pool) == *old(pool)
            &&& *final(user_state) == *old(user_state)
        },
        old(user_state).amount > 0 && vault_balance < old(user_state).amount ==> {
            &&& r == Err::<UnstakeReceipt, StakingError>(StakingError::VaultInsufficientBalance)
            &&& *final(pool) == *old(pool)
            &&& *final(user_state) == *old(user_state)
        },
        old(user_state).amount > 0 && vault_balance >= old(user_state).amount ==> {
            let tax = tax_on_unstake(
                old(user_state).amount,
                cfg.tax_percentage,
                now - old(user_state).start_time,
                cfg.min_stake_duration,
            );
            &&& r matches Ok(receipt) && receipt == (UnstakeReceipt {
                payout_to_user: (old(user_state).amount - tax) as u64,
                payout_to_community: community_share_of_tax(tax) as u64,
                event: UnstakeEvent {
                    user: caller,
                    unstaked_amount: (old(user_state).amount - tax) as u64,
                    tax: tax as u64,
                    timestamp: now,
                },
            })
            &&& final(pool).total_tax_collected == old(pool).total_tax_collected
                + pool_share_of_tax(tax)
            &&& final(pool).total_staked == old(pool).total_staked - old(user_state).amount
            &&& final(pool).total_rewards_distributed == old(pool).total_rewards_distributed
            &&& final(pool).bump == old(pool).bump
            &&& *final(user_state) == (UserState {
                amount: 0,
                start_time: 0,
                authority: old(user_state).authority,
                last_tax_snapshot: 0,
                locked: old(user_state).locked,
            })
        },
{
    let amount = user_state.amount;
    if amount == 0 {
        return Err(StakingError::NothingToUnstake);
    }
    if vault_balance < amount {
        return Err(StakingError::VaultInsufficientBalance);
    }
    let duration = now - user_state.start_time;
    let tax = if duration >= cfg.min_stake_duration {
        0
    } else {
        compute_tax(amount, cfg.tax_percentage)
    };
    let (tax_to_pool, tax_to_community) = split_tax(tax);
    let user_amount = amount - tax;
    pool.total_tax_collected = pool.total_tax_collected + tax_to_pool;
    pool.total_staked = pool.total_staked - amount;
    user_state.amount = 0;
    user_state.start_time = 0;
    user_state.last_tax_snapshot = 0;
    Ok(
        UnstakeReceipt {
            payout_to_user: user_amount,
            payout_to_community: tax_to_community,
            event: UnstakeEvent { user: caller, unstaked_amount: user_amount, tax, timestamp: now },
        },
    )
}

/// Unstakes `caller`'s whole balance. The runtime must transfer
/// `payout_to_user` from the vault to the staker and
/// `payout_to_community` from the vault to the community wallet in the
/// same atomic unit. The reentrancy guard is taken before any arithmetic
/// and released on every exit path, success or failure: a caller that
/// enters with the guard free always leaves with the guard free.
pub fn unstake(
    cfg: &Config,
    pool: &mut StakingPool,
    user_state: &mut UserState,
    caller: AccountKey,
    now: i64,
    vault_balance: u64,
) -> (r: Result<UnstakeReceipt, StakingError>)
    requires
        cfg.wf(),
        old(user_state).wf(),
        unstake_transition(*cfg, *old(pool), *old(user_state), caller, now, vault_balance) is Ok
            ==> now >= old(user_state).start_time && unstake_fits(
            *cfg,
            *old(pool),
            *old(user_state),
            now,
        ),
    ensures
        match unstake_transition(*cfg, *old(pool), *old(user_state), caller, now, vault_balance) {
            Ok(out) => {
                &&& r == Ok::<UnstakeReceipt, StakingError>(out.2)
                &&& *final(pool) == out.0
                &&& *final(user_state) == out.1
            },
            Err(e) => {
                &&& r == Err::<UnstakeReceipt, StakingError>(e)
                &&& *final(pool) == *old(pool)
                &&& *final(user_state) == *old(user_state)
            },
        },
        final(pool).total_tax_collected >= old(pool).total_tax_collected,
        final(pool).total_rewards_distributed == old(pool).total_rewards_distributed,
        !old(user_state).locked ==> !final(user_state).locked,
        final(user_state).authority == old(user_state).authority,
{
    if cfg.version != EXPECTED_VERSION {
        return Err(StakingError::VersionMismatch);
    }
    if cfg.paused {
        return Err(StakingError::ContractPaused);
    }
    if user_state.locked {
        return Err(StakingError::AlreadyProcessing);
    }
    user_state.locked = true;
    let result = unstake_locked(cfg, pool, user_state, caller, now, vault_balance);
    user_state.locked = false;
    result
}

/// Rewards newly accrued to a user: the pool's cumulative tax beyond the
/// user's last snapshot.
pub open spec fn new_rewards_of(pool: StakingPool, user: UserState) -> int {
    pool.total_tax_collected - user.last_tax_snapshot
}

/// What a claim actually pays: the pro-rata share, clamped to the
/// vault's real custodial balance.
pub open spec fn claimable_amount(pool: StakingPool, user: UserState, vault_balance: u64) -> int {
    let share = reward_share(
        user.amount,
        new_rewards_of(pool, user) as u64,
        pool.total_staked,
    );
    if share <= vault_balance {
        share
    } else {
        vault_balance as int
    }
}

/// The claim transition: after the admission checks and the reentrancy guard, a
/// staker with a positive balance in a non-empty pool is paid the
/// pro-rata share of the tax accrued since their snapshot, rounded down
/// and clamped to the vault balance. The snapshot always advances to the
/// pool's full current cumulative tax, even when the payout was clamped
/// below the computed share: the shortfall is forfeited, never
/// claimable again.
pub open spec fn claim_transition(
    cfg: Config,
    pool: StakingPool,
    user: UserState,
    caller: AccountKey,
    now: i64,
    vault_balance: u64,
) -> Result<(StakingPool, UserState, ClaimRewardsEvent), StakingError> {
    match guarded_admission_error(cfg, user) {
        Some(e) => Err(e),
        None => if user.amount == 0 || pool.total_staked == 0 {
            Err(StakingError::NothingToClaim)
        } else if new_rewards_of(pool, user) == 0 {
            Err(StakingError::InsufficientFundsInPool)
        } else {
            let share = reward_share(
                user.amount,
                new_rewards_of(pool, user) as u64,
                pool.total_staked,
            );
            if share > u64::MAX {
                Err(StakingError::MathOverflow)
            } else if share == 0 {
                Err(StakingError::InsufficientFundsInPool)
            } else {
                let claimable = claimable_amount(pool, user, vault_balance);
                Ok(
                    (
                        StakingPool {
                            total_tax_collected: pool.total_tax_collected,
                            total_rewards_distributed: (pool.total_rewards_distributed
                                + claimable) as u64,
                            total_staked: pool.total_staked,
                            bump: pool.bump,
                        },
                        UserState {
                            amount: user.amount,
                            start_time: user.start_time,
                            authority: user.authority,
                            last_tax_snapshot: pool.total_tax_collected,
                            locked: false,
                        },
                        ClaimRewardsEvent { user: caller, reward: claimable as u64, timestamp: now },
                    ),
                )
            }
        },
    }
}

/// Bookkeeping soundness a claim relies on: the user's snapshot never
/// runs ahead of the pool's cumulative tax (the pool counter is
/// monotone and the snapshot was read from it), and the cumulative
/// payout counter does not wrap.
pub open spec fn claim_fits(pool: StakingPool, user: UserState, vault_balance: u64) -> bool {
    &&& user.last_tax_snapshot <= pool.total_tax_collected
    &&& pool.total_rewards_distributed + claimable_amount(pool, user, vault_balance) <= u64::MAX
}

/// Body of `claim_rewards`, run with the reentrancy guard held; the
/// caller releases the guard on every exit path. Leaves the guard bit
/// itself untouched.
fn claim_rewards_locked(
    cfg: &Config,
    pool: &mut StakingPool,
    user_state: &mut UserState,
    caller: AccountKey,
    now: i64,
    vault_balance: u64,
) -> (r: Result<ClaimRewardsEvent, StakingError>)
    requires
        old(user_state).amount > 0 && old(pool).total_staked > 0 ==> old(
            user_state,
        ).last_tax_snapshot <= old(pool).total_tax_collected,
        old(user_state).amount > 0 && old(pool).total_staked > 0 && new_rewards_of(
            *old(pool),
            *old(user_state),
        ) > 0 && 0 < reward_share(
            old(user_state).amount,
            new_rewards_of(*old(pool), *old(user_state)) as u64,
            old(pool).total_staked,
        ) <= u64::MAX ==> claim_fits(*old(pool), *old(user_state), vault_balance),
    ensures
        ({
            let pre_pool = *old(pool);
            let pre_user = *old(user_state);
            let share = reward_share(
                pre_user.amount,
                new_rewards_of(pre_pool, pre_user) as u64,
                pre_pool.total_staked,
            );
            if pre_user.amount == 0 || pre_pool.total_staked == 0 {
                &&& r == Err::<ClaimRewardsEvent, StakingError>(StakingError::NothingToClaim)
                &&& *final(pool) == pre_pool
                &&& *final(user_state) == pre_user
            } else if new_rewards_of(pre_pool, pre_user) == 0 {
                &&& r == Err::<ClaimRewardsEvent, StakingError>(
                    StakingError::InsufficientFundsInPool,
                )
                &&& *final(pool) == pre_pool
                &&& *final(user_state) == pre_user
            } else if share > u64::MAX {
                &&& r == Err::<ClaimRewardsEvent, StakingError>(StakingError::MathOverflow)
                &&& *final(pool) == pre_pool
                &&& *final(user_state) == pre_user
            } else if share == 0 {
                &&& r == Err::<ClaimRewardsEvent, StakingError>(
                    StakingError::InsufficientFundsInPool,
                )
                &&& *final(pool) == pre_pool
                &&& *final(user_state) == pre_user
            } else {
                let claimable = claimable_amount(pre_pool, pre_user, vault_balance);
                &&& r == Ok::<ClaimRewardsEvent, StakingError>(
                    ClaimRewardsEvent { user: caller, reward: claimable as u64, timestamp: now },
                )
                &&& final(pool).total_rewards_distributed == pre_pool.total_rewards_distributed
                    + claimable
                &&& final(pool).total_tax_collected == pre_pool.total_tax_collected
                &&& final(pool).total_staked == pre_pool.total_staked
                &&& final(pool).bump == pre_pool.bump
                &&& *final(user_state) == (UserState {
                    amount: pre_user.amount,
                    start_time: pre_user.start_time,
                    authority: pre_user.authority,
                    last_tax_snapshot: pre_pool.total_tax_collected,
                    locked: pre_user.locked,
                })
            }
        }),
{
    let user_stake = user_state.amount;
    let total_staked = pool.total_staked;
    if user_stake == 0 || total_staked == 0 {
        return Err(StakingError::NothingToClaim);
    }
    let new_rewards = pool.total_tax_collected - user_state.last_tax_snapshot;
    if new_rewards == 0 {
        return Err(StakingError::InsufficientFundsInPool);
    }
    let user_reward = match compute_reward_share(user_stake, new_rewards, total_staked) {
        Ok(share) => share,
        Err(e) => {
            return Err(e);
        },
    };
    if user_reward == 0 {
        return Err(StakingError::InsufficientFundsInPool);
    }
    let claimable = if user_reward <= vault_balance {
        user_reward
    } else {
        vault_balance
    };
    pool.total_rewards_distributed = pool.total_rewards_distributed + claimable;
    user_state.last_tax_snapshot = pool.total_tax_collected;
    Ok(ClaimRewardsEvent { user: caller, reward: claimable, timestamp: now })
}

/// Pays `caller` their accrued pro-rata rewards. The runtime must
/// transfer the event's `reward` from the vault to the staker in the
/// same atomic unit. The reentrancy guard is taken before any
/// arithmetic and released on every exit path, success or failure: a
/// caller that enters with the guard free always leaves with the guard
/// free.
pub fn claim_rewards(
    cfg: &Config,
    pool: &mut StakingPool,
    user_state: &mut UserState,
    caller: AccountKey,
    now: i64,
    vault_balance: u64,
) -> (r: Result<ClaimRewardsEvent, StakingError>)
    requires
        guarded_admission_error(*cfg, *old(user_state)) is None && old(user_state).amount > 0 && old(
            pool,
        ).total_staked > 0 ==> old(user_state).last_tax_snapshot <= old(pool).total_tax_collected,
        claim_transition(*cfg, *old(pool), *old(user_state), caller, now, vault_balance) is Ok
            ==> claim_fits(*old(pool), *old(user_state), vault_balance),
    ensures
        match claim_transition(*cfg, *old(pool), *old(user_state), caller, now, vault_balance) {
            Ok(out) => {
                &&& r == Ok::<ClaimRewardsEvent, StakingError>(out.2)
                &&& *final(pool) == out.0
                &&& *final(user_state) == out.1
            },
            Err(e) => {
                &&& r == Err::<ClaimRewardsEvent, StakingError>(e)
                &&& *final(pool) == *old(pool)
                &&& *final(user_state) == *old(user_state)
            },
        },
        final(pool).total_rewards_distributed >= old(pool).total_rewards_distributed,
        final(pool).total_tax_collected == old(pool).total_tax_collected,
        final(pool).total_staked == old(pool).total_staked,
        !old(user_state).locked ==> !final(user_state).locked,
        final(user_state).amount == old(user_state).amount,
        final(user_state).authority == old(user_state).authority,
        r is Ok ==> final(user_state).last_tax_snapshot == old(pool).total_tax_collected,
{
    if cfg.version != EXPECTED_VERSION {
        return Err(StakingError::VersionMismatch);
    }
    if cfg.paused {
        return Err(StakingError::ContractPaused);
    }
    if user_state.locked {
        return Err(StakingError::AlreadyProcessing);
    }
    user_state.locked = true;
    let result = claim_rewards_locked(cfg, pool, user_state, caller, now, vault_balance);
    user_state.locked = false;
    result
}

/// The pause-switch transition: the version check, then the signer must
/// be the configured authority; no reentrancy guard is involved, so
/// pausing stays possible whatever state any user entry is in.
pub open spec fn set_paused_transition(
    cfg: Config,
    caller: AccountKey,
    paused: bool,
    now: i64,
) -> Result<(Config, PausedEvent), StakingError> {
    if cfg.version != EXPECTED_VERSION {
        Err(StakingError::VersionMismatch)
    } else if caller != cfg.authority {
        Err(StakingError::Unauthorized)
    } else {
        Ok(
            (
                Config {
                    community_wallet: cfg.community_wallet,
                    token_mint: cfg.token_mint,
                    tax_percentage: cfg.tax_percentage,
                    min_stake_duration: cfg.min_stake_duration,
                    bump: cfg.bump,
                    paused,
                    authority: cfg.authority,
                    version: cfg.version,
                },
                PausedEvent { authority: caller, paused, timestamp: now },
            ),
        )
    }
}

/// Flips the pause switch. Only the configured authority may do so;
/// everything but the `paused` bit is left untouched.
pub fn set_paused(cfg: &mut Config, caller: AccountKey, paused: bool, now: i64) -> (r: Result<
    PausedEvent,
    StakingError,
>)
    ensures
        match set_paused_transition(*old(cfg), caller, paused, now) {
            Ok(out) => {
                &&& r == Ok::<PausedEvent, StakingError>(out.1)
                &&& *final(cfg) == out.0
            },
            Err(e) => {
                &&& r == Err::<PausedEvent, StakingError>(e)
                &&& *final(cfg) == *old(cfg)
            },
        },
        final(cfg).authority == old(cfg).authority,
        final(cfg).tax_percentage == old(cfg).tax_percentage,
        final(cfg).min_stake_duration == old(cfg).min_stake_duration,
        final(cfg).version == old(cfg).version,
        old(cfg).wf() ==> final(cfg).wf(),
{
    if cfg.version != EXPECTED_VERSION {
        return Err(StakingError::VersionMismatch);
    }
    if !keys_equal(&caller, &cfg.authority) {
        return Err(StakingError::Unauthorized);
    }
    cfg.paused = paused;
    Ok(PausedEvent { authority: caller, paused, timestamp: now })
}

} // verus!
