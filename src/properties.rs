use vstd::prelude::*;

use crate::ledger::LedgerState;
use crate::stake_info::{saturate_u32, StakeState};
use crate::stake_request::{reaches_threshold, stake_fails, stake_outcome, Event};
use crate::{AccountId, BlockNumber, MIN_REPUTATION};

verus! {

/// The record after a sequence of updates, each a `(gas, block)` pair, applied in order.
pub open spec fn updated_by(s: StakeState, calls: Seq<(u64, BlockNumber)>) -> StakeState
    decreases calls.len(),
{
    if calls.len() == 0 {
        s
    } else {
        updated_by(s, calls.drop_last()).updated(calls.last().0, calls.last().1)
    }
}

/// The ledger after a sequence of stake requests for `contract`, each an
/// `(origin, gas, block)` triple, made in order.
pub open spec fn stake_run(
    m: LedgerState,
    contract: AccountId,
    calls: Seq<(AccountId, u64, BlockNumber)>,
) -> LedgerState
    decreases calls.len(),
{
    if calls.len() == 0 {
        m
    } else {
        let c = calls.last();
        stake_outcome(stake_run(m, contract, calls.drop_last()), c.0, contract, c.1, c.2).0
    }
}

/// The events of the `i`-th request of a run.
pub open spec fn run_events(
    m: LedgerState,
    contract: AccountId,
    calls: Seq<(AccountId, u64, BlockNumber)>,
    i: int,
) -> Seq<Event> {
    let c = calls[i];
    stake_outcome(stake_run(m, contract, calls.take(i)), c.0, contract, c.1, c.2).1
}

/// The reputation of `contract`, zero while it has no record.
pub open spec fn reputation_of(m: LedgerState, contract: AccountId) -> u32 {
    if m.stakes.contains_key(contract) {
        m.stakes[contract].reputation
    } else {
        0
    }
}

/// While `contract` is self-delegated, its score is zero.
pub open spec fn unscored_while_immature(m: LedgerState, contract: AccountId) -> bool {
    m.stakes.contains_key(contract) ==> {
        &&& m.stakes[contract].stake_score == 0
        &&& m.delegates.contains_key(contract) ==> !m.delegates[contract].is_mature()
    }
}

/// An update never lowers the stake score or the reputation, and at a block
/// no earlier than the last one recorded it does not move the block back.
pub proof fn lemma_update_monotone(s: StakeState, gas: u64, now: BlockNumber)
    ensures
        s.updated(gas, now).stake_score >= s.stake_score,
        s.updated(gas, now).reputation >= s.reputation,
        now >= s.blockheight ==> s.updated(gas, now).blockheight >= s.blockheight,
{
    assert(gas * s.reputation >= 0) by (nonlinear_arith);
}

proof fn lemma_updated_by_step(s: StakeState, calls: Seq<(u64, BlockNumber)>, i: int)
    requires
        0 <= i < calls.len(),
    ensures
        updated_by(s, calls.take(i + 1)) == updated_by(s, calls.take(i)).updated(
            calls[i].0,
            calls[i].1,
        ),
{
    assert(calls.take(i + 1).drop_last() =~= calls.take(i));
}

/// Along any sequence of updates at non-decreasing blocks, no later than
/// the start, the stake score, the reputation and the block never go down:
/// the record after `i` updates is below the record after `j >= i` updates.
pub proof fn lemma_updates_monotone(
    s: StakeState,
    calls: Seq<(u64, BlockNumber)>,
    i: int,
    j: int,
)
    requires
        forall|k: int| 0 <= k < calls.len() ==> s.blockheight <= #[trigger] calls[k].1,
        forall|k: int, l: int|
            0 <= k <= l < calls.len() ==> #[trigger] calls[k].1 <= #[trigger] calls[l].1,
        0 <= i <= j <= calls.len(),
    ensures
        updated_by(s, calls.take(i)).stake_score <= updated_by(s, calls.take(j)).stake_score,
        updated_by(s, calls.take(i)).reputation <= updated_by(s, calls.take(j)).reputation,
        updated_by(s, calls.take(i)).blockheight <= updated_by(s, calls.take(j)).blockheight,
    decreases j - i,
{
    if i < j {
        lemma_updates_monotone(s, calls, i, j - 1);
        lemma_updated_by_step(s, calls, j - 1);
        let prev = updated_by(s, calls.take(j - 1));
        lemma_update_monotone(prev, calls[j - 1].0, calls[j - 1].1);
        if j - 1 > 0 {
            lemma_updated_by_step(s, calls, j - 2);
            assert(prev.blockheight == calls[j - 2].1);
        } else {
            assert(calls.take(0) =~= Seq::<(u64, BlockNumber)>::empty());
        }
    }
}

/// A stake request never lowers the stake score or the reputation of any
/// contract that has a record.
pub proof fn lemma_stake_monotone(
    m: LedgerState,
    origin: AccountId,
    contract: AccountId,
    gas: u64,
    now: BlockNumber,
    k: AccountId,
)
    requires
        m.stakes.contains_key(k),
    ensures
        stake_outcome(m, origin, contract, gas, now).0.stakes.contains_key(k),
        stake_outcome(m, origin, contract, gas, now).0.stakes[k].stake_score
            >= m.stakes[k].stake_score,
        stake_outcome(m, origin, contract, gas, now).0.stakes[k].reputation
            >= m.stakes[k].reputation,
{
    if !stake_fails(m, contract) && m.stakes.contains_key(contract) {
        let d = m.delegates[contract];
        let g = if d.is_mature() { gas } else { 0 };
        lemma_update_monotone(m.stakes[contract], g, now);
    }
}

/// Two updates at the same block raise the reputation at most once: the
/// second leaves it as the first left it.
pub proof fn lemma_one_increment_per_block(s: StakeState, gas1: u64, gas2: u64, now: BlockNumber)
    ensures
        s.updated(gas1, now).updated(gas2, now).reputation == s.updated(gas1, now).reputation,
{
}

/// A request for a contract without a record always succeeds, gives it
/// reputation one, score zero and a delegation to the origin itself, and
/// publishes nothing.
pub proof fn lemma_bootstrap(
    m: LedgerState,
    origin: AccountId,
    contract: AccountId,
    gas: u64,
    now: BlockNumber,
)
    requires
        !m.stakes.contains_key(contract),
    ensures
        !stake_fails(m, contract),
        stake_outcome(m, origin, contract, gas, now).0.stakes[contract].reputation == 1,
        stake_outcome(m, origin, contract, gas, now).0.stakes[contract].stake_score == 0,
        stake_outcome(m, origin, contract, gas, now).0.delegates[contract].owner == origin,
        stake_outcome(m, origin, contract, gas, now).0.delegates[contract].delegate_to == origin,
        stake_outcome(m, origin, contract, gas, now).1 == Seq::<Event>::empty(),
{
}

proof fn lemma_stake_run_step(
    m: LedgerState,
    contract: AccountId,
    calls: Seq<(AccountId, u64, BlockNumber)>,
    i: int,
)
    requires
        0 <= i < calls.len(),
    ensures
        stake_run(m, contract, calls.take(i + 1)) == stake_outcome(
            stake_run(m, contract, calls.take(i)),
            calls[i].0,
            contract,
            calls[i].1,
            calls[i].2,
        ).0,
{
    assert(calls.take(i + 1).drop_last() =~= calls.take(i));
}

/// While a contract stays self-delegated, no sequence of stake requests
/// gives it a score: whatever the gas, its score stays zero.
pub proof fn lemma_maturity_gating(
    m: LedgerState,
    contract: AccountId,
    calls: Seq<(AccountId, u64, BlockNumber)>,
)
    requires
        unscored_while_immature(m, contract),
    ensures
        unscored_while_immature(stake_run(m, contract, calls), contract),
    decreases calls.len(),
{
    if calls.len() > 0 {
        lemma_maturity_gating(m, contract, calls.drop_last());
        let prev = stake_run(m, contract, calls.drop_last());
        if !stake_fails(prev, contract) && prev.stakes.contains_key(contract) {
            assert(prev.stakes[contract].stake_score * prev.stakes[contract].reputation == 0);
        }
    }
}

/// A request publishes `ReadyToStake` exactly when it brings the reputation
/// of the contract onto the threshold.
pub proof fn lemma_ready_iff_threshold(
    m: LedgerState,
    origin: AccountId,
    contract: AccountId,
    gas: u64,
    now: BlockNumber,
)
    ensures
        stake_outcome(m, origin, contract, gas, now).1.contains(
            Event::ReadyToStake { contract: contract },
        ) <==> (reputation_of(m, contract) != MIN_REPUTATION && reputation_of(
            stake_outcome(m, origin, contract, gas, now).0,
            contract,
        ) == MIN_REPUTATION),
{
    let out = stake_outcome(m, origin, contract, gas, now);
    let ready = Event::ReadyToStake { contract: contract };
    if !stake_fails(m, contract) && m.stakes.contains_key(contract) {
        let d = m.delegates[contract];
        let staked_event = Event::Staked {
            contract: contract,
            stake_score: out.0.stakes[contract].stake_score,
        };
        if d.is_mature() {
            if reaches_threshold(m.stakes[contract], out.0.stakes[contract]) {
                assert(out.1[1] == ready);
            } else {
                assert(out.1 =~= seq![staked_event]);
            }
        } else if reaches_threshold(m.stakes[contract], out.0.stakes[contract]) {
            assert(out.1 =~= seq![ready]);
            assert(out.1[0] == ready);
        } else {
            assert(out.1 =~= Seq::<Event>::empty());
        }
    }
}

/// Once the stake score is at the accumulator's maximum, an update leaves it there.
pub proof fn lemma_saturation(s: StakeState, gas: u64, now: BlockNumber)
    requires
        s.stake_score == u128::MAX,
    ensures
        s.updated(gas, now).stake_score == u128::MAX,
{
    assert(gas * s.reputation >= 0) by (nonlinear_arith);
}

proof fn lemma_reputation_step(
    m: LedgerState,
    origin: AccountId,
    contract: AccountId,
    gas: u64,
    now: BlockNumber,
)
    ensures
        reputation_of(m, contract) <= reputation_of(
            stake_outcome(m, origin, contract, gas, now).0,
            contract,
        ),
{
    if m.stakes.contains_key(contract) {
        lemma_stake_monotone(m, origin, contract, gas, now, contract);
    }
}

/// Along a sequence of stake requests the reputation of the contract never goes down.
pub proof fn lemma_run_reputation_monotone(
    m: LedgerState,
    contract: AccountId,
    calls: Seq<(AccountId, u64, BlockNumber)>,
    i: int,
    j: int,
)
    requires
        0 <= i <= j <= calls.len(),
    ensures
        reputation_of(stake_run(m, contract, calls.take(i)), contract) <= reputation_of(
            stake_run(m, contract, calls.take(j)),
            contract,
        ),
    decreases j - i,
{
    if i < j {
        lemma_run_reputation_monotone(m, contract, calls, i, j - 1);
        lemma_stake_run_step(m, contract, calls, j - 1);
        let c = calls[j - 1];
        lemma_reputation_step(stake_run(m, contract, calls.take(j - 1)), c.0, contract, c.1, c.2);
    }
}

/// In a sequence of stake requests for one contract, `ReadyToStake` is
/// published on the request that brings the reputation onto the threshold,
/// and on no other: no two requests both publish it.
pub proof fn lemma_ready_once(
    m: LedgerState,
    contract: AccountId,
    calls: Seq<(AccountId, u64, BlockNumber)>,
    i: int,
    j: int,
)
    requires
        0 <= i < j < calls.len(),
    ensures
        run_events(m, contract, calls, i).contains(Event::ReadyToStake { contract: contract })
            <==> (reputation_of(stake_run(m, contract, calls.take(i)), contract) != MIN_REPUTATION
            && reputation_of(stake_run(m, contract, calls.take(i + 1)), contract)
            == MIN_REPUTATION),
        !(run_events(m, contract, calls, i).contains(Event::ReadyToStake { contract: contract })
            && run_events(m, contract, calls, j).contains(
            Event::ReadyToStake { contract: contract },
        )),
{
    let ci = calls[i];
    let cj = calls[j];
    lemma_stake_run_step(m, contract, calls, i);
    lemma_stake_run_step(m, contract, calls, j);
    lemma_ready_iff_threshold(stake_run(m, contract, calls.take(i)), ci.0, contract, ci.1, ci.2);
    lemma_ready_iff_threshold(stake_run(m, contract, calls.take(j)), cj.0, contract, cj.1, cj.2);
    lemma_run_reputation_monotone(m, contract, calls, i + 1, j);
    lemma_run_reputation_monotone(m, contract, calls, j, j + 1);
}

/// How many of the first `k` requests came in a later block than the request before them.
pub open spec fn later_blocks(calls: Seq<(AccountId, u64, BlockNumber)>, k: int) -> nat
    decreases k,
{
    if k <= 1 {
        0
    } else if calls[k - 1].2 > calls[k - 2].2 {
        later_blocks(calls, k - 1) + 1
    } else {
        later_blocks(calls, k - 1)
    }
}

proof fn lemma_reputation_step_bound(
    m: LedgerState,
    origin: AccountId,
    contract: AccountId,
    gas: u64,
    now: BlockNumber,
)
    ensures
        reputation_of(stake_outcome(m, origin, contract, gas, now).0, contract)
            <= reputation_of(m, contract) + 1,
{
}

/// From a contract without a record, the reputation after `k >= 1` requests
/// is one more than the number of those requests made in a later block than
/// the one before.
proof fn lemma_run_reputation(
    m: LedgerState,
    contract: AccountId,
    calls: Seq<(AccountId, u64, BlockNumber)>,
    k: int,
)
    requires
        !m.stakes.contains_key(contract),
        1 <= k <= calls.len(),
    ensures
        stake_run(m, contract, calls.take(k)).stakes.contains_key(contract),
        stake_run(m, contract, calls.take(k)).delegates.contains_key(contract),
        stake_run(m, contract, calls.take(k)).stakes[contract].blockheight == calls[k - 1].2,
        reputation_of(stake_run(m, contract, calls.take(k)), contract) == saturate_u32(
            1 + later_blocks(calls, k) as int,
        ),
    decreases k,
{
    lemma_stake_run_step(m, contract, calls, k - 1);
    if k == 1 {
        assert(calls.take(0) =~= Seq::<(AccountId, u64, BlockNumber)>::empty());
    } else {
        lemma_run_reputation(m, contract, calls, k - 1);
    }
}

proof fn lemma_threshold_crossing(
    m: LedgerState,
    contract: AccountId,
    calls: Seq<(AccountId, u64, BlockNumber)>,
    k: int,
) -> (i: int)
    requires
        !m.stakes.contains_key(contract),
        0 <= k <= calls.len(),
        reputation_of(stake_run(m, contract, calls.take(k)), contract) >= MIN_REPUTATION,
    ensures
        0 <= i < k,
        reputation_of(stake_run(m, contract, calls.take(i)), contract) != MIN_REPUTATION,
        reputation_of(stake_run(m, contract, calls.take(i + 1)), contract) == MIN_REPUTATION,
    decreases k,
{
    if k == 0 {
        assert(calls.take(0) =~= Seq::<(AccountId, u64, BlockNumber)>::empty());
        assert(false);
    }
    lemma_stake_run_step(m, contract, calls, k - 1);
    let c = calls[k - 1];
    lemma_reputation_step_bound(stake_run(m, contract, calls.take(k - 1)), c.0, contract, c.1, c.2);
    if reputation_of(stake_run(m, contract, calls.take(k - 1)), contract) >= MIN_REPUTATION {
        lemma_threshold_crossing(m, contract, calls, k - 1)
    } else {
        k - 1
    }
}

/// A contract first seen in a sequence of requests, which then come in at
/// least two later blocks (at least three distinct blocks in all), gets
/// `ReadyToStake` published on one of them.
pub proof fn lemma_ready_reached(
    m: LedgerState,
    contract: AccountId,
    calls: Seq<(AccountId, u64, BlockNumber)>,
)
    requires
        !m.stakes.contains_key(contract),
        later_blocks(calls, calls.len() as int) >= 2,
    ensures
        exists|i: int|
            0 <= i < calls.len() && #[trigger] run_events(m, contract, calls, i).contains(
                Event::ReadyToStake { contract: contract },
            ),
{
    lemma_run_reputation(m, contract, calls, calls.len() as int);
    assert(calls.take(calls.len() as int) =~= calls);
    let i = lemma_threshold_crossing(m, contract, calls, calls.len() as int);
    lemma_stake_run_step(m, contract, calls, i);
    let c = calls[i];
    lemma_ready_iff_threshold(stake_run(m, contract, calls.take(i)), c.0, contract, c.1, c.2);
    assert(run_events(m, contract, calls, i).contains(Event::ReadyToStake { contract: contract }));
}

} // verus!
