//! Ledger records of the staking program: the global configuration, the
//! pool of aggregate totals, and one entry per participant.

use vstd::prelude::*;
use crate::error::StakingError;
use crate::events::InitializedEvent;

verus! {

broadcast use vstd::array::group_array_axioms;

/// Identity of a ledger account, as the raw bytes of its address.
pub type AccountKey = [u8; 32];

/// Compatibility tag that every mutating operation checks before touching
/// a record; mismatching records were laid out by an incompatible engine
/// revision and are refused.
pub const EXPECTED_VERSION: u8 = 1;

/// Exit tax rate installed at initialization, in percent.
pub const DEFAULT_TAX_PERCENTAGE: u8 = 5;

/// Seconds a stake must age before it can exit tax-free, installed at
/// initialization: ninety days.
pub const DEFAULT_MIN_STAKE_DURATION: i64 = 90 * 86400;

/// Global configuration singleton, created once by `initialize`.
#[derive(Clone, Copy, Debug, PartialEq, Eq)]
pub struct Config {
    /// Destination identity for the community share of collected tax.
    pub community_wallet: AccountKey,
    /// Identity of the token mint this instance operates on.
    pub token_mint: AccountKey,
    /// Exit tax rate in percent, applied to early unstakes; at most 100.
    pub tax_percentage: u8,
    /// Seconds a stake must age to avoid the exit tax.
    pub min_stake_duration: i64,
    /// Derivation nonce of the configuration record's own address.
    pub bump: u8,
    /// When true, `stake`, `unstake` and `claim_rewards` are rejected.
    pub paused: bool,
    /// Identity permitted to pause and reconfigure.
    pub authority: AccountKey,
    /// Compatibility tag, `EXPECTED_VERSION` for records this engine owns.
    pub version: u8,
}

impl Config {
    /// Well-formedness of a configuration record: the tax rate is a
    /// percentage and the aging threshold is a duration, not a point in
    /// time before the epoch.
    pub open spec fn wf(self) -> bool {
        &&& self.tax_percentage <= 100
        &&& self.min_stake_duration >= 0
    }
}

/// Pool singleton of aggregate totals.
#[derive(Clone, Copy, Debug, PartialEq, Eq)]
pub struct StakingPool {
    /// Lifetime cumulative tax routed to the pool for redistribution;
    /// never decreases.
    pub total_tax_collected: u64,
    /// Lifetime cumulative rewards actually paid out; never decreases.
    pub total_rewards_distributed: u64,
    /// Sum of all active user stakes.
    pub total_staked: u64,
    /// Derivation nonce of the pool record's own address.
    pub bump: u8,
}

/// Per-participant ledger entry, created once via `initialize_user_state`
/// and reused for the participant's whole lifetime.
#[derive(Clone, Copy, Debug, PartialEq, Eq)]
pub struct UserState {
    /// Currently staked balance; zero when not staking.
    pub amount: u64,
    /// Timestamp of the most recent stake affecting this balance.
    pub start_time: i64,
    /// Owner of this entry, bound permanently at creation.
    pub authority: AccountKey,
    /// Value of `pool.total_tax_collected` at this user's last stake or
    /// claim; rewards accrue on the difference to the current value.
    pub last_tax_snapshot: u64,
    /// Reentrancy guard: false before and after every completed call.
    pub locked: bool,
}

impl UserState {
    /// Well-formedness of a user entry: its clock fields never precede
    /// the epoch.
    pub open spec fn wf(self) -> bool {
        self.start_time >= 0
    }
}

/// Compares two account identities byte for byte.
pub fn keys_equal(a: &AccountKey, b: &AccountKey) -> (r: bool)
    ensures
        r == (*a == *b),
{
    let mut i: usize = 0;
    while i < 32
        invariant
            0 <= i <= 32,
            forall|j: int| 0 <= j < i ==> a@[j] == b@[j],
        decreases 32 - i,
    {
        if a[i] != b[i] {
            return false;
        }
        i += 1;
    }
    proof {
        assert(*a =~= *b);
    }
    true
}

/// Creates the two singletons of a fresh program instance: the global
/// configuration, owned by `authority`, and an empty pool. The invoking
/// payer must be the authority itself; anyone else is refused. The
/// `config_bump` and `pool_bump` nonces come from the runtime's address
/// derivation for the two records.
pub fn initialize(
    authority: AccountKey,
    payer: AccountKey,
    community_wallet: AccountKey,
    token_mint: AccountKey,
    config_bump: u8,
    pool_bump: u8,
    now: i64,
) -> (r: Result<(Config, StakingPool, InitializedEvent), StakingError>)
    ensures
        authority != payer ==> r == Err::<(Config, StakingPool, InitializedEvent), StakingError>(
            StakingError::Unauthorized,
        ),
        authority == payer ==> r == Ok::<(Config, StakingPool, InitializedEvent), StakingError>(
            (
                Config {
                    community_wallet,
                    token_mint,
                    tax_percentage: DEFAULT_TAX_PERCENTAGE,
                    min_stake_duration: DEFAULT_MIN_STAKE_DURATION,
                    bump: config_bump,
                    paused: false,
                    authority,
                    version: EXPECTED_VERSION,
                },
                StakingPool {
                    total_tax_collected: 0,
                    total_rewards_distributed: 0,
                    total_staked: 0,
                    bump: pool_bump,
                },
                InitializedEvent { authority, mint: token_mint, community_wallet, timestamp: now },
            ),
        ),
        r matches Ok(out) ==> out.0.wf(),
{
    if !keys_equal(&authority, &payer) {
        return Err(StakingError::Unauthorized);
    }
    let config = Config {
        community_wallet,
        token_mint,
        tax_percentage: DEFAULT_TAX_PERCENTAGE,
        min_stake_duration: DEFAULT_MIN_STAKE_DURATION,
        bump: config_bump,
        paused: false,
        authority,
        version: EXPECTED_VERSION,
    };
    let pool = StakingPool {
        total_tax_collected: 0,
        total_rewards_distributed: 0,
        total_staked: 0,
        bump: pool_bump,
    };
    let event = InitializedEvent { authority, mint: token_mint, community_wallet, timestamp: now };
    Ok((config, pool, event))
}

/// Creates the empty ledger entry of a new participant, bound to `owner`
/// for its whole lifetime: no stake, no snapshot, guard released.
pub fn initialize_user_state(owner: AccountKey) -> (u: UserState)
    ensures
        u == (UserState {
            amount: 0,
            start_time: 0,
            authority: owner,
            last_tax_snapshot: 0,
            locked: false,
        }),
        u.wf(),
{
    UserState { amount: 0, start_time: 0, authority: owner, last_tax_snapshot: 0, locked: false }
}

} // verus!
