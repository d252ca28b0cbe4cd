//! Records the engine emits for observers after each successful
//! operation. They are observability, not correctness-critical state; the
//! host runtime publishes them.

use vstd::prelude::*;
use crate::state::AccountKey;

verus! {

/// Emitted once when the program instance is initialized.
#[derive(Clone, Copy, Debug, PartialEq, Eq)]
pub struct InitializedEvent {
    pub authority: AccountKey,
    pub mint: AccountKey,
    pub community_wallet: AccountKey,
    pub timestamp: i64,
}

/// Emitted after a successful stake.
#[derive(Clone, Copy, Debug, PartialEq, Eq)]
pub struct StakeEvent {
    pub user: AccountKey,
    pub amount: u64,
    pub time: i64,
}

/// Emitted after a successful unstake.
#[derive(Clone, Copy, Debug, PartialEq, Eq)]
pub struct UnstakeEvent {
    pub user: AccountKey,
    /// Amount paid back to the staker, after tax.
    pub unstaked_amount: u64,
    /// Total tax charged on the exit.
    pub tax: u64,
    pub timestamp: i64,
}

/// Emitted after a successful reward claim.
#[derive(Clone, Copy, Debug, PartialEq, Eq)]
pub struct ClaimRewardsEvent {
    pub user: AccountKey,
    /// Amount actually paid, after clamping to the vault balance.
    pub reward: u64,
    pub timestamp: i64,
}

/// Emitted when the admin reconfigures the instance.
#[derive(Clone, Copy, Debug, PartialEq, Eq)]
pub struct ConfigUpdatedEvent {
    pub authority: AccountKey,
    pub new_community_wallet: AccountKey,
    pub new_tax_percentage: u8,
    pub new_min_stake_duration: i64,
}

/// Emitted when the admin flips the pause switch.
#[derive(Clone, Copy, Debug, PartialEq, Eq)]
pub struct PausedEvent {
    pub authority: AccountKey,
    pub paused: bool,
    pub timestamp: i64,
}

} // verus!
