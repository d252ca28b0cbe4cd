//! Error taxonomy of the staking engine. Every error aborts the enclosing
//! atomic unit of work with no partial state change; the engine itself
//! never retries.

use vstd::prelude::*;

verus! {

/// Why a staking operation was refused.
#[derive(Clone, Copy, Debug, PartialEq, Eq, Structural)]
pub enum StakingError {
    /// Unstake requested with a zero staked balance.
    NothingToUnstake,
    /// Claim requested with a zero staked balance or an empty pool.
    NothingToClaim,
    /// No rewards accrued since the last snapshot, or the computed share
    /// rounds to zero.
    InsufficientFundsInPool,
    /// Stake requested with a zero amount.
    InvalidStakeAmount,
    /// The custody vault's balance is below the required payout: the
    /// bookkeeping has drifted from the real custodial balance.
    VaultInsufficientBalance,
    /// The supplied vault address does not match the derived expectation.
    VaultOwnershipMismatch,
    /// Reentrant call on a ledger entry that is already being processed.
    AlreadyProcessing,
    /// The operation is blocked by the admin pause switch.
    ContractPaused,
    /// The invoking identity does not match the required signer.
    Unauthorized,
    /// The record's version tag disagrees with the engine's expectation.
    VersionMismatch,
    /// Wide-arithmetic overflow or a failed narrowing in the reward
    /// computation.
    MathOverflow,
}

} // verus!
