use vstd::prelude::*;

use crate::ledger::{Ledger, StakeError};
use crate::{AccountId, BlockNumber, INITIAL_STAKE_SCORE, REPUTATION_FACTOR};

verus! {

/// `x` clamped to the range of `u128`.
pub open spec fn saturate_u128(x: int) -> u128 {
    if x > u128::MAX {
        u128::MAX
    } else {
        x as u128
    }
}

/// `x` clamped to the range of `u32`.
pub open spec fn saturate_u32(x: int) -> u32 {
    if x > u32::MAX {
        u32::MAX
    } else {
        x as u32
    }
}

/// The abstract content of a `StakeInfo`.
pub struct StakeState {
    pub reputation: u32,
    pub blockheight: BlockNumber,
    pub stake_score: u128,
}

impl StakeState {
    /// The record of a contract first seen at block `now`.
    pub open spec fn initial(now: BlockNumber) -> StakeState {
        StakeState {
            reputation: REPUTATION_FACTOR,
            blockheight: now,
            stake_score: INITIAL_STAKE_SCORE,
        }
    }

    /// The record with its score forfeited at block `now`; reputation is kept.
    pub open spec fn reset(self, now: BlockNumber) -> StakeState {
        StakeState { reputation: self.reputation, blockheight: now, stake_score: 0 }
    }

    /// The record after an invocation at block `now` that used `gas`.
    ///
    /// In a block later than the last one recorded, the gas is weighted by the
    /// current reputation and the reputation grows by one; within the same
    /// block the gas is added unweighted and the reputation stays.
    pub open spec fn updated(self, gas: u64, now: BlockNumber) -> StakeState {
        if now > self.blockheight {
            StakeState {
                reputation: saturate_u32(self.reputation + REPUTATION_FACTOR),
                blockheight: now,
                stake_score: saturate_u128(self.stake_score + gas * self.reputation),
            }
        } else {
            StakeState {
                reputation: self.reputation,
                blockheight: now,
                stake_score: saturate_u128(self.stake_score + gas),
            }
        }
    }
}

/// Tracks the gas usage of a contract for staking purposes.
///
/// `reputation` grows once per block in which the contract is used,
/// `blockheight` is the block of its most recent use, and `stake_score`
/// accumulates reputation-weighted gas.
#[derive(Clone, Copy, Debug, PartialEq, Eq, Structural)]
pub struct StakeInfo {
    reputation: u32,
    blockheight: BlockNumber,
    stake_score: u128,
}

impl View for StakeInfo {
    type V = StakeState;

    closed spec fn view(&self) -> StakeState {
        StakeState {
            reputation: self.reputation,
            blockheight: self.blockheight,
            stake_score: self.stake_score,
        }
    }
}

impl StakeInfo {
    /// The stake score of the contract.
    pub fn stake_score(&self) -> (r: u128)
        ensures
            r == self@.stake_score,
    {
        self.stake_score
    }

    /// The reputation of the contract.
    pub fn reputation(&self) -> (r: u32)
        ensures
            r == self@.reputation,
    {
        self.reputation
    }

    /// The block of the contract's most recent use.
    pub fn blockheight(&self) -> (r: BlockNumber)
        ensures
            r == self@.blockheight,
    {
        self.blockheight
    }

    /// A fresh record for a contract instantiated at block `now`.
    pub fn new(now: BlockNumber) -> (r: StakeInfo)
        ensures
            r@ == StakeState::initial(now),
    {
        StakeInfo {
            reputation: REPUTATION_FACTOR,
            blockheight: now,
            stake_score: INITIAL_STAKE_SCORE,
        }
    }

    /// The record with its stake score cleared at block `now`, keeping the reputation.
    pub fn reset(&self, now: BlockNumber) -> (r: StakeInfo)
        ensures
            r@ == self@.reset(now),
    {
        StakeInfo { reputation: self.reputation, blockheight: now, stake_score: 0 }
    }

    /// The record after an invocation at block `now` that used `gas`.
    pub fn update(&self, gas: &u64, now: BlockNumber) -> (r: StakeInfo)
        ensures
            r@ == self@.updated(*gas, now),
    {
        let current_reputation = self.reputation;
        let gas_cast = *gas as u128;
        if now > self.blockheight {
            assert(gas_cast * current_reputation <= u128::MAX) by (nonlinear_arith)
                requires
                    gas_cast <= u64::MAX,
                    current_reputation <= u32::MAX,
            ;
            let weighted = gas_cast * (current_reputation as u128);
            StakeInfo {
                reputation: current_reputation.saturating_add(REPUTATION_FACTOR),
                blockheight: now,
                stake_score: weighted.saturating_add(self.stake_score),
            }
        } else {
            StakeInfo {
                reputation: current_reputation,
                blockheight: now,
                stake_score: gas_cast.saturating_add(self.stake_score),
            }
        }
    }

    /// The stake record of `contract_addr` in `ledger`.
    pub fn get(ledger: &Ledger, contract_addr: &AccountId) -> (r: Result<StakeInfo, StakeError>)
        ensures
            match r {
                Ok(s) => ledger@.stakes.contains_key(*contract_addr)
                    && s@ == ledger@.stakes[*contract_addr],
                Err(e) => !ledger@.stakes.contains_key(*contract_addr)
                    && e == StakeError::NoStakeExists,
            },
    {
        match ledger.get_stake_info(contract_addr) {
            Some(s) => Ok(s),
            None => Err(StakeError::NoStakeExists),
        }
    }
}

} // verus!
