use vstd::prelude::*;

use crate::delegate_info::{DelegateInfo, DelegateState};
use crate::ledger::{Ledger, LedgerState, StakeError};
use crate::stake_info::{StakeInfo, StakeState};
use crate::{AccountId, BlockNumber, MIN_REPUTATION};

verus! {

/// A signal published by the stake protocol.
#[derive(Clone, Copy, Debug, PartialEq, Eq, Structural)]
pub enum Event {
    /// A delegated contract's stake score changed to `stake_score`.
    Staked { contract: AccountId, stake_score: u128 },
    /// The contract's reputation has just reached the staking threshold.
    ReadyToStake { contract: AccountId },
}

/// The gas that counts toward the score: none while the contract is self-delegated.
pub open spec fn effective_gas(d: DelegateState, gas: u64) -> u64 {
    if d.is_mature() {
        gas
    } else {
        0
    }
}

/// Whether an update from `before` to `after` is the one where the
/// reputation lands on the threshold.
pub open spec fn reaches_threshold(before: StakeState, after: StakeState) -> bool {
    after.reputation == MIN_REPUTATION && before.reputation != MIN_REPUTATION
}

/// The events of an update of `contract`, delegated as `d`, from `before` to `after`.
pub open spec fn update_events(
    contract: AccountId,
    d: DelegateState,
    before: StakeState,
    after: StakeState,
) -> Seq<Event> {
    let staked = if d.is_mature() {
        seq![Event::Staked { contract: contract, stake_score: after.stake_score }]
    } else {
        Seq::empty()
    };
    let ready = if reaches_threshold(before, after) {
        seq![Event::ReadyToStake { contract: contract }]
    } else {
        Seq::empty()
    };
    staked + ready
}

/// Whether a stake request for `contract` fails: it has a stake record but
/// no delegation record.
pub open spec fn stake_fails(m: LedgerState, contract: AccountId) -> bool {
    m.stakes.contains_key(contract) && !m.delegates.contains_key(contract)
}

/// The ledger and the events after `contract` is bootstrapped for `origin` at block `now`.
pub open spec fn bootstrapped(m: LedgerState, origin: AccountId, contract: AccountId, now: BlockNumber) -> (
    LedgerState,
    Seq<Event>,
) {
    (
        LedgerState {
            stakes: m.stakes.insert(contract, StakeState::initial(now)),
            delegates: m.delegates.insert(contract, DelegateState::initial(origin, now)),
        },
        Seq::empty(),
    )
}

/// The ledger and the events after an invocation of the known `contract`
/// that used `gas` at block `now`.
pub open spec fn updated(m: LedgerState, contract: AccountId, gas: u64, now: BlockNumber) -> (
    LedgerState,
    Seq<Event>,
) {
    let d = m.delegates[contract];
    let before = m.stakes[contract];
    let after = before.updated(effective_gas(d, gas), now);
    (
        LedgerState { stakes: m.stakes.insert(contract, after), delegates: m.delegates },
        update_events(contract, d, before, after),
    )
}

/// The ledger and the events after a successful stake request.
pub open spec fn staked(
    m: LedgerState,
    origin: AccountId,
    contract: AccountId,
    gas: u64,
    now: BlockNumber,
) -> (LedgerState, Seq<Event>) {
    if m.stakes.contains_key(contract) {
        updated(m, contract, gas, now)
    } else {
        bootstrapped(m, origin, contract, now)
    }
}

/// The ledger and the events after a stake request, whether it succeeds or
/// fails; a failed request changes nothing and publishes nothing.
pub open spec fn stake_outcome(
    m: LedgerState,
    origin: AccountId,
    contract: AccountId,
    gas: u64,
    now: BlockNumber,
) -> (LedgerState, Seq<Event>) {
    if stake_fails(m, contract) {
        (m, Seq::empty())
    } else {
        staked(m, origin, contract, gas, now)
    }
}

/// A stake request: the invoked `contract`, its `caller` (the transaction
/// origin or another contract) and the `gas` spent in that stack frame.
#[derive(Clone, Copy, Debug, PartialEq, Eq, Structural)]
pub struct StakeRequest {
    pub contract: AccountId,
    pub caller: AccountId,
    pub gas: u64,
}

impl StakeRequest {
    /// Accounts for an invocation of `contract_addr` by `origin` that used
    /// `gas` at block `now`, and returns the events to publish.
    ///
    /// A contract without a stake record is bootstrapped; otherwise its record
    /// is updated.
    pub fn stake(
        ledger: &mut Ledger,
        origin: &AccountId,
        contract_addr: &AccountId,
        gas: &u64,
        now: BlockNumber,
    ) -> (r: Result<Vec<Event>, StakeError>)
        ensures
            match r {
                Ok(events) => {
                    &&& !stake_fails(old(ledger)@, *contract_addr)
                    &&& (final(ledger)@, events@) == staked(
                        old(ledger)@,
                        *origin,
                        *contract_addr,
                        *gas,
                        now,
                    )
                },
                Err(e) => {
                    &&& stake_fails(old(ledger)@, *contract_addr)
                    &&& e == StakeError::NoStakeExists
                    &&& final(ledger)@ == old(ledger)@
                },
            },
            (final(ledger)@, match r {
                Ok(events) => events@,
                Err(_) => Seq::empty(),
            }) == stake_outcome(old(ledger)@, *origin, *contract_addr, *gas, now),
    {
        if ledger.contains_stake_info(contract_addr) {
            Self::new(ledger, contract_addr, gas, now)
        } else {
            Self::empty(ledger, origin, contract_addr, now);
            Ok(Vec::new())
        }
    }

    /// Creates the stake and delegation records of `contract_addr`, deployed
    /// by `origin`, at block `now`.
    pub fn empty(ledger: &mut Ledger, origin: &AccountId, contract_addr: &AccountId, now: BlockNumber)
        ensures
            final(ledger)@ == bootstrapped(old(ledger)@, *origin, *contract_addr, now).0,
    {
        let stake_info = StakeInfo::new(now);
        ledger.insert_stake_info(contract_addr, stake_info);
        let delegate_info = DelegateInfo::new(origin, now);
        ledger.insert_delegate_info(contract_addr, delegate_info);
    }

    /// Updates the stake record of `contract_addr` for an invocation that used
    /// `gas` at block `now`, and returns the events to publish.
    ///
    /// The gas counts only once the contract is delegated; `Staked` is
    /// published only then, and `ReadyToStake` on the update where the
    /// reputation lands on the threshold.
    pub fn new(ledger: &mut Ledger, contract_addr: &AccountId, gas: &u64, now: BlockNumber) -> (r:
        Result<Vec<Event>, StakeError>)
        ensures
            match r {
                Ok(events) => {
                    &&& old(ledger)@.stakes.contains_key(*contract_addr)
                    &&& old(ledger)@.delegates.contains_key(*contract_addr)
                    &&& (final(ledger)@, events@) == updated(
                        old(ledger)@,
                        *contract_addr,
                        *gas,
                        now,
                    )
                },
                Err(e) => {
                    &&& !(old(ledger)@.stakes.contains_key(*contract_addr)
                        && old(ledger)@.delegates.contains_key(*contract_addr))
                    &&& e == StakeError::NoStakeExists
                    &&& final(ledger)@ == old(ledger)@
                },
            },
    {
        let delegate_info = DelegateInfo::get(ledger, contract_addr)?;
        let stake_info = StakeInfo::get(ledger, contract_addr)?;

        let mature = delegate_info.is_mature();
        let effective: u64 = if mature {
            *gas
        } else {
            0
        };

        let new_stake_info = stake_info.update(&effective, now);
        ledger.insert_stake_info(contract_addr, new_stake_info);

        let mut events: Vec<Event> = Vec::new();
        if mature {
            events.push(
                Event::Staked { contract: *contract_addr, stake_score: new_stake_info.stake_score() },
            );
        }
        if new_stake_info.reputation() == MIN_REPUTATION && stake_info.reputation()
            != MIN_REPUTATION {
            events.push(Event::ReadyToStake { contract: *contract_addr });
        }
        assert(events@ =~= update_events(
            *contract_addr,
            delegate_info@,
            stake_info@,
            new_stake_info@,
        ));
        Ok(events)
    }
}

} // verus!
