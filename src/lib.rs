//! Reputation and stake-score accounting for Proof of Contract Stake.
//!
//! Each contract invocation reports the gas it used; the library turns that
//! into an evolving `(reputation, stake_score)` pair per contract and keeps
//! the contract's delegation (owner and delegate).
use vstd::prelude::*;

pub mod delegate_info;
pub mod ledger;
pub mod properties;
pub mod stake_info;
pub mod stake_request;

verus! {

/// Identity of an account or a contract.
pub type AccountId = u64;

/// Height of a block.
pub type BlockNumber = u32;

/// The reputation at which a contract becomes eligible for staking.
pub const MIN_REPUTATION: u32 = 3;

/// The step by which reputation grows, and its value at instantiation.
pub const REPUTATION_FACTOR: u32 = 1;

/// The stake score of a freshly instantiated contract.
pub const INITIAL_STAKE_SCORE: u128 = 0;

} // verus!
