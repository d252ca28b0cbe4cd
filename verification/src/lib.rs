//! Verified accounting core of a token staking program.
//!
//! Participants lock a fungible token into a custody vault, pay a time-based
//! exit tax on early withdrawal, and claim a pro-rata share of tax revenue
//! redistributed to remaining stakers. Every state transition of the engine
//! (`stake`, `unstake`, `claim_rewards`, `set_paused`) is specified and
//! verified here; the host ledger runtime performs the actual token
//! transfers and account writes around these transitions.

pub mod engine;
pub mod error;
pub mod events;
pub mod laws;
pub mod math;
pub mod state;
pub mod vault;
