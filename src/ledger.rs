use vstd::prelude::*;

use std::collections::HashMap;

use crate::delegate_info::{DelegateInfo, DelegateState};
use crate::stake_info::{StakeInfo, StakeState};
use crate::AccountId;

verus! {

broadcast use vstd::std_specs::hash::group_hash_axioms;

/// The failure of a lookup of a contract that has no record.
#[derive(Clone, Copy, Debug, PartialEq, Eq, Structural)]
pub enum StakeError {
    NoStakeExists,
}

/// The abstract content of a `Ledger`: the records of each contract.
pub struct LedgerState {
    pub stakes: Map<AccountId, StakeState>,
    pub delegates: Map<AccountId, DelegateState>,
}

/// The store of stake and delegation records, keyed by contract.
pub struct Ledger {
    stake_infos: HashMap<AccountId, StakeInfo>,
    delegate_infos: HashMap<AccountId, DelegateInfo>,
}

impl View for Ledger {
    type V = LedgerState;

    closed spec fn view(&self) -> LedgerState {
        LedgerState {
            stakes: self.stake_infos@.map_values(|s: StakeInfo| s@),
            delegates: self.delegate_infos@.map_values(|d: DelegateInfo| d@),
        }
    }
}

impl Ledger {
    /// A ledger that holds no records.
    pub fn new() -> (r: Ledger)
        ensures
            r@.stakes.is_empty(),
            r@.delegates.is_empty(),
    {
        let r = Ledger { stake_infos: HashMap::new(), delegate_infos: HashMap::new() };
        assert(r@.stakes =~= Map::empty());
        assert(r@.delegates =~= Map::empty());
        r
    }

    /// Whether `contract_addr` has a stake record.
    pub fn contains_stake_info(&self, contract_addr: &AccountId) -> (r: bool)
        ensures
            r == self@.stakes.contains_key(*contract_addr),
    {
        self.stake_infos.contains_key(contract_addr)
    }

    /// The stake record of `contract_addr`, if any.
    pub fn get_stake_info(&self, contract_addr: &AccountId) -> (r: Option<StakeInfo>)
        ensures
            match r {
                Some(s) => self@.stakes.contains_key(*contract_addr)
                    && s@ == self@.stakes[*contract_addr],
                None => !self@.stakes.contains_key(*contract_addr),
            },
    {
        match self.stake_infos.get(contract_addr) {
            Some(s) => Some(*s),
            None => None,
        }
    }

    /// The delegation record of `contract_addr`, if any.
    pub fn get_delegate_info(&self, contract_addr: &AccountId) -> (r: Option<DelegateInfo>)
        ensures
            match r {
                Some(d) => self@.delegates.contains_key(*contract_addr)
                    && d@ == self@.delegates[*contract_addr],
                None => !self@.delegates.contains_key(*contract_addr),
            },
    {
        match self.delegate_infos.get(contract_addr) {
            Some(d) => Some(*d),
            None => None,
        }
    }

    /// Stores `info` as the stake record of `contract_addr`.
    pub fn insert_stake_info(&mut self, contract_addr: &AccountId, info: StakeInfo)
        ensures
            final(self)@.stakes == old(self)@.stakes.insert(*contract_addr, info@),
            final(self)@.delegates == old(self)@.delegates,
    {
        self.stake_infos.insert(*contract_addr, info);
        assert(self@.stakes =~= old(self)@.stakes.insert(*contract_addr, info@));
    }

    /// Stores `info` as the delegation record of `contract_addr`.
    pub fn insert_delegate_info(&mut self, contract_addr: &AccountId, info: DelegateInfo)
        ensures
            final(self)@.delegates == old(self)@.delegates.insert(*contract_addr, info@),
            final(self)@.stakes == old(self)@.stakes,
    {
        self.delegate_infos.insert(*contract_addr, info);
        assert(self@.delegates =~= old(self)@.delegates.insert(*contract_addr, info@));
    }
}

} // verus!
