use pocs_stake::delegate_info::DelegateInfo;
use pocs_stake::ledger::{Ledger, StakeError};
use pocs_stake::stake_info::StakeInfo;
use pocs_stake::stake_request::{Event, StakeRequest};
use pocs_stake::{AccountId, BlockNumber, MIN_REPUTATION};

fn delegate(ledger: &mut Ledger, contract: AccountId, to: AccountId, now: BlockNumber) {
    let d = DelegateInfo::get(ledger, &contract).unwrap();
    ledger.insert_delegate_info(&contract, d.update(&to, now));
}

fn stake_of(ledger: &Ledger, contract: AccountId) -> StakeInfo {
    StakeInfo::get(ledger, &contract).unwrap()
}

#[test]
fn self_delegated_then_delegated() {
    let (c, o, v) = (100, 1, 2);
    let mut ledger = Ledger::new();

    assert_eq!(StakeRequest::stake(&mut ledger, &o, &c, &5, 10), Ok(vec![]));
    let s = stake_of(&ledger, c);
    assert_eq!((s.reputation(), s.stake_score(), s.blockheight()), (1, 0, 10));
    let d = DelegateInfo::get(&ledger, &c).unwrap();
    assert_eq!((d.owner(), d.delegate_to(), d.delegate_at()), (o, o, 10));

    assert_eq!(StakeRequest::stake(&mut ledger, &o, &c, &7, 11), Ok(vec![]));
    let s = stake_of(&ledger, c);
    assert_eq!((s.reputation(), s.stake_score(), s.blockheight()), (2, 0, 11));

    delegate(&mut ledger, c, v, 12);
    // The gas is weighted by the reputation held before this block's increment.
    assert_eq!(
        StakeRequest::stake(&mut ledger, &o, &c, &10, 12),
        Ok(vec![
            Event::Staked { contract: c, stake_score: 20 },
            Event::ReadyToStake { contract: c },
        ])
    );
    let s = stake_of(&ledger, c);
    assert_eq!((s.reputation(), s.stake_score(), s.blockheight()), (3, 20, 12));
}

#[test]
fn two_calls_in_one_block() {
    let (d_addr, o, v) = (200, 1, 2);
    let mut ledger = Ledger::new();
    StakeRequest::stake(&mut ledger, &o, &d_addr, &0, 18).unwrap();
    delegate(&mut ledger, d_addr, v, 18);
    assert_eq!(
        StakeRequest::stake(&mut ledger, &o, &d_addr, &100, 19),
        Ok(vec![Event::Staked { contract: d_addr, stake_score: 100 }])
    );
    let s = stake_of(&ledger, d_addr);
    assert_eq!((s.reputation(), s.stake_score(), s.blockheight()), (2, 100, 19));

    assert_eq!(
        StakeRequest::stake(&mut ledger, &o, &d_addr, &4, 20),
        Ok(vec![
            Event::Staked { contract: d_addr, stake_score: 108 },
            Event::ReadyToStake { contract: d_addr },
        ])
    );
    let s = stake_of(&ledger, d_addr);
    assert_eq!((s.reputation(), s.stake_score(), s.blockheight()), (3, 108, 20));

    assert_eq!(
        StakeRequest::stake(&mut ledger, &o, &d_addr, &6, 20),
        Ok(vec![Event::Staked { contract: d_addr, stake_score: 114 }])
    );
    let s = stake_of(&ledger, d_addr);
    assert_eq!((s.reputation(), s.stake_score(), s.blockheight()), (3, 114, 20));
}

#[test]
fn new_record_values() {
    let s = StakeInfo::new(42);
    assert_eq!((s.reputation(), s.stake_score(), s.blockheight()), (1, 0, 42));
    let d = DelegateInfo::new(&9, 42);
    assert_eq!((d.owner(), d.delegate_to(), d.delegate_at()), (9, 9, 42));
    assert!(!d.is_mature());
}

#[test]
fn update_in_new_block_weights_gas() {
    let s = StakeInfo::new(1).update(&7, 2).update(&5, 3);
    // 7 * 1, then 5 * 2
    assert_eq!((s.reputation(), s.stake_score(), s.blockheight()), (3, 17, 3));
}

#[test]
fn update_in_same_block_keeps_reputation() {
    let s = StakeInfo::new(1).update(&7, 2);
    let t = s.update(&9, 2).update(&11, 2);
    assert_eq!((t.reputation(), t.stake_score(), t.blockheight()), (2, 27, 2));
}

#[test]
fn update_with_largest_gas() {
    let s = StakeInfo::new(1).update(&0, 2).update(&0, 3);
    assert_eq!(s.reputation(), 3);
    let t = s.update(&u64::MAX, 4);
    assert_eq!(t.stake_score(), (u64::MAX as u128) * 3);
    assert_eq!(t.reputation(), 4);
}

#[test]
fn reset_keeps_reputation() {
    let s = StakeInfo::new(1).update(&7, 2).update(&5, 3);
    let r = s.reset(9);
    assert_eq!((r.reputation(), r.stake_score(), r.blockheight()), (3, 0, 9));
}

#[test]
fn delegate_update_and_owner_transfer() {
    let d = DelegateInfo::new(&1, 5);
    let e = d.update(&2, 6);
    assert_eq!((e.owner(), e.delegate_to(), e.delegate_at()), (1, 2, 6));
    assert!(e.is_mature());
    let f = e.update_owner(&3, 7);
    assert_eq!((f.owner(), f.delegate_to(), f.delegate_at()), (3, 2, 7));
    let g = f.update(&3, 8);
    assert_eq!((g.owner(), g.delegate_to(), g.delegate_at()), (3, 3, 8));
    assert!(!g.is_mature());
}

#[test]
fn bootstrap_is_immature_and_silent() {
    let mut ledger = Ledger::new();
    assert!(!ledger.contains_stake_info(&5));
    assert_eq!(StakeRequest::stake(&mut ledger, &77, &5, &1000, 3), Ok(vec![]));
    assert!(ledger.contains_stake_info(&5));
    let s = stake_of(&ledger, 5);
    assert_eq!((s.reputation(), s.stake_score(), s.blockheight()), (1, 0, 3));
    let d = DelegateInfo::get(&ledger, &5).unwrap();
    assert_eq!((d.owner(), d.delegate_to()), (77, 77));
}

#[test]
fn immature_contract_scores_nothing() {
    let mut ledger = Ledger::new();
    let c = 8;
    let mut events = Vec::new();
    for (i, gas) in [5u64, 100, u64::MAX, 1, 1, 42].iter().enumerate() {
        let now = 10 + (i as BlockNumber) / 2;
        events.extend(StakeRequest::stake(&mut ledger, &3, &c, gas, now).unwrap());
        assert_eq!(stake_of(&ledger, c).stake_score(), 0);
    }
    // Reputation still grows, and reaches the threshold without a Staked event.
    assert_eq!(stake_of(&ledger, c).reputation(), 3);
    assert_eq!(events, vec![Event::ReadyToStake { contract: c }]);
}

#[test]
fn ready_to_stake_fires_once() {
    let mut ledger = Ledger::new();
    let c = 9;
    StakeRequest::stake(&mut ledger, &1, &c, &0, 1).unwrap();
    delegate(&mut ledger, c, 2, 1);
    let mut ready_blocks = Vec::new();
    let mut last_score = 0;
    let mut last_rep = 1;
    for now in [1u32, 2, 2, 3, 3, 3, 4, 5, 5, 6] {
        let events = StakeRequest::stake(&mut ledger, &1, &c, &10, now).unwrap();
        if events.contains(&Event::ReadyToStake { contract: c }) {
            ready_blocks.push(now);
            assert_eq!(stake_of(&ledger, c).reputation(), MIN_REPUTATION);
        }
        let s = stake_of(&ledger, c);
        assert!(s.stake_score() >= last_score);
        assert!(s.reputation() >= last_rep);
        last_score = s.stake_score();
        last_rep = s.reputation();
    }
    assert_eq!(ready_blocks, vec![3]);
    assert_eq!(last_rep, 6);
}

#[test]
fn revert_to_self_delegation_stops_scoring() {
    let mut ledger = Ledger::new();
    let c = 11;
    StakeRequest::stake(&mut ledger, &1, &c, &0, 1).unwrap();
    delegate(&mut ledger, c, 2, 1);
    StakeRequest::stake(&mut ledger, &1, &c, &10, 2).unwrap();
    assert_eq!(stake_of(&ledger, c).stake_score(), 10);
    delegate(&mut ledger, c, 1, 2);
    assert_eq!(StakeRequest::stake(&mut ledger, &1, &c, &10, 2), Ok(vec![]));
    assert_eq!(stake_of(&ledger, c).stake_score(), 10);
}

#[test]
fn missing_delegation_fails() {
    let mut ledger = Ledger::new();
    ledger.insert_stake_info(&4, StakeInfo::new(1));
    assert_eq!(
        StakeRequest::stake(&mut ledger, &1, &4, &10, 2),
        Err(StakeError::NoStakeExists)
    );
    assert_eq!(stake_of(&ledger, 4), StakeInfo::new(1));
    assert_eq!(StakeRequest::new(&mut ledger, &4, &10, 2), Err(StakeError::NoStakeExists));
}

#[test]
fn lookups_of_unknown_contract_fail() {
    let ledger = Ledger::new();
    assert_eq!(StakeInfo::get(&ledger, &1), Err(StakeError::NoStakeExists));
    assert_eq!(DelegateInfo::get(&ledger, &1), Err(StakeError::NoStakeExists));
    assert_eq!(ledger.get_stake_info(&1), None);
    assert_eq!(ledger.get_delegate_info(&1), None);
}

#[test]
fn empty_overwrites_delegation() {
    let mut ledger = Ledger::new();
    ledger.insert_delegate_info(&6, DelegateInfo::new(&1, 1).update(&2, 1));
    StakeRequest::empty(&mut ledger, &3, &6, 4);
    let d = DelegateInfo::get(&ledger, &6).unwrap();
    assert_eq!((d.owner(), d.delegate_to(), d.delegate_at()), (3, 3, 4));
    assert_eq!(stake_of(&ledger, 6), StakeInfo::new(4));
}

#[test]
fn other_contracts_untouched() {
    let mut ledger = Ledger::new();
    StakeRequest::stake(&mut ledger, &1, &20, &0, 1).unwrap();
    StakeRequest::stake(&mut ledger, &1, &21, &0, 1).unwrap();
    delegate(&mut ledger, 20, 2, 1);
    StakeRequest::stake(&mut ledger, &1, &20, &50, 2).unwrap();
    assert_eq!(stake_of(&ledger, 20).stake_score(), 50);
    assert_eq!(stake_of(&ledger, 21), StakeInfo::new(1));
}
