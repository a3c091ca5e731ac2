use vstd::prelude::*;

use crate::ledger::{Ledger, StakeError};
use crate::{AccountId, BlockNumber};

verus! {

/// The abstract content of a `DelegateInfo`.
pub struct DelegateState {
    pub owner: AccountId,
    pub delegate_to: AccountId,
    pub delegate_at: BlockNumber,
}

impl DelegateState {
    /// The delegation of a contract deployed by `owner` at block `now`: self-delegated.
    pub open spec fn initial(owner: AccountId, now: BlockNumber) -> DelegateState {
        DelegateState { owner: owner, delegate_to: owner, delegate_at: now }
    }

    /// The delegation after stake is delegated to `delegate` at block `now`.
    pub open spec fn delegated(self, delegate: AccountId, now: BlockNumber) -> DelegateState {
        DelegateState { owner: self.owner, delegate_to: delegate, delegate_at: now }
    }

    /// The delegation after ownership passes to `new_owner` at block `now`.
    pub open spec fn transferred(self, new_owner: AccountId, now: BlockNumber) -> DelegateState {
        DelegateState { owner: new_owner, delegate_to: self.delegate_to, delegate_at: now }
    }

    /// A contract is mature once it is delegated to an account other than its owner.
    pub open spec fn is_mature(self) -> bool {
        self.owner != self.delegate_to
    }
}

/// The delegation of a deployed contract: its `owner`, the account
/// `delegate_to` that receives its stake, and the block `delegate_at` at
/// which this was last set.
#[derive(Clone, Copy, Debug, PartialEq, Eq, Structural)]
pub struct DelegateInfo {
    owner: AccountId,
    delegate_to: AccountId,
    delegate_at: BlockNumber,
}

impl View for DelegateInfo {
    type V = DelegateState;

    closed spec fn view(&self) -> DelegateState {
        DelegateState {
            owner: self.owner,
            delegate_to: self.delegate_to,
            delegate_at: self.delegate_at,
        }
    }
}

impl DelegateInfo {
    /// The owner of the contract.
    pub fn owner(&self) -> (r: AccountId)
        ensures
            r == self@.owner,
    {
        self.owner
    }

    /// The account to which the contract's stake is delegated.
    pub fn delegate_to(&self) -> (r: AccountId)
        ensures
            r == self@.delegate_to,
    {
        self.delegate_to
    }

    /// The block at which the delegation was last set.
    pub fn delegate_at(&self) -> (r: BlockNumber)
        ensures
            r == self@.delegate_at,
    {
        self.delegate_at
    }

    /// Whether the contract is delegated to an account other than its owner.
    pub fn is_mature(&self) -> (r: bool)
        ensures
            r == self@.is_mature(),
    {
        self.owner != self.delegate_to
    }

    /// The delegation record of `contract_addr` in `ledger`.
    pub fn get(ledger: &Ledger, contract_addr: &AccountId) -> (r: Result<DelegateInfo, StakeError>)
        ensures
            match r {
                Ok(d) => ledger@.delegates.contains_key(*contract_addr)
                    && d@ == ledger@.delegates[*contract_addr],
                Err(e) => !ledger@.delegates.contains_key(*contract_addr)
                    && e == StakeError::NoStakeExists,
            },
    {
        match ledger.get_delegate_info(contract_addr) {
            Some(d) => Ok(d),
            None => Err(StakeError::NoStakeExists),
        }
    }

    /// A record in which the deployer `owner` is both owner and delegate, set at block `now`.
    pub fn new(owner: &AccountId, now: BlockNumber) -> (r: DelegateInfo)
        ensures
            r@ == DelegateState::initial(*owner, now),
    {
        DelegateInfo { owner: *owner, delegate_to: *owner, delegate_at: now }
    }

    /// The record after the contract's stake is delegated to `delegate` at block `now`.
    pub fn update(&self, delegate: &AccountId, now: BlockNumber) -> (r: DelegateInfo)
        ensures
            r@ == self@.delegated(*delegate, now),
    {
        DelegateInfo { owner: self.owner, delegate_to: *delegate, delegate_at: now }
    }

    /// The record after ownership of the contract passes to `new_owner` at block `now`.
    pub fn update_owner(&self, new_owner: &AccountId, now: BlockNumber) -> (r: DelegateInfo)
        ensures
            r@ == self@.transferred(*new_owner, now),
    {
        DelegateInfo { owner: *new_owner, delegate_to: self.delegate_to, delegate_at: now }
    }
}

} // verus!
