//! What holds of settlement over time: a schedule never releases more than
//! its allocation, and a batch settled twice at one time moves nothing the
//! second time.

use vstd::prelude::*;
use crate::address::Address;
use crate::instructions::crank_vesting_schedules::{
    batch_outcomes,
    lemma_batch_outcomes_len,
    outcome_at,
    released_count,
    settled_earlier,
    smaller,
    PairOutcome,
    SettlementPair,
};
use crate::state::vesting_schedule::{lemma_unlocked_bounded, VestingSchedule};
use crate::token::TokenAccountState;

verus! {

impl VestingSchedule {
    /// The record after a settlement at `now` against a vault that holds
    /// `available`: what is transferable, as far as the vault holds it, is
    /// added to what has been released.
    pub open spec fn settled_at(self, now: int, available: nat) -> VestingSchedule {
        VestingSchedule {
            amount_transferred: (self.amount_transferred + smaller(
                self.transferable_at(now),
                available,
            )) as u64,
            ..self
        }
    }

    /// The record after a sequence of settlements, each given by its time and
    /// by what the vault held then.
    pub open spec fn settled_through(self, steps: Seq<(int, nat)>) -> VestingSchedule
        decreases steps.len(),
    {
        if steps.len() == 0 {
            self
        } else {
            self.settled_through(steps.drop_last()).settled_at(steps.last().0, steps.last().1)
        }
    }
}

/// One settlement moves no more than what is unlocked and not yet released,
/// so the record stays within its allocation and what it has released does
/// not shrink.
pub proof fn lemma_settlement_within_allocation(schedule: VestingSchedule, now: int, available: nat)
    requires
        schedule.amount_transferred <= schedule.total_amount,
    ensures
        schedule.settled_at(now, available).amount_transferred <= schedule.total_amount,
        schedule.settled_at(now, available).amount_transferred >= schedule.amount_transferred,
        schedule.settled_at(now, available).amount_transferred == schedule.amount_transferred
            + smaller(schedule.transferable_at(now), available),
        schedule.settled_at(now, available).total_amount == schedule.total_amount,
{
    lemma_unlocked_bounded(
        schedule.total_amount as nat,
        schedule.cliff_timestamp as int,
        schedule.vesting_start_timestamp as int,
        schedule.vesting_end_timestamp as int,
        now,
    );
}

/// Whatever the times of the settlements and whatever the vault holds at
/// each, a schedule never has released more than its allocation, and what it
/// has released never shrinks.
pub proof fn lemma_never_over_released(schedule: VestingSchedule, steps: Seq<(int, nat)>)
    requires
        schedule.amount_transferred <= schedule.total_amount,
    ensures
        schedule.settled_through(steps).amount_transferred <= schedule.total_amount,
        schedule.settled_through(steps).amount_transferred >= schedule.amount_transferred,
        schedule.settled_through(steps).total_amount == schedule.total_amount,
    decreases steps.len(),
{
    if steps.len() > 0 {
        lemma_never_over_released(schedule, steps.drop_last());
        lemma_settlement_within_allocation(
            schedule.settled_through(steps.drop_last()),
            steps.last().0,
            steps.last().1,
        );
    }
}

impl SettlementPair {
    /// The pair as it is read again once `outcome` has been carried out: a
    /// release has been added to what the schedule has released and taken out
    /// of the vault.
    pub open spec fn reread(self, outcome: PairOutcome) -> SettlementPair {
        match outcome {
            PairOutcome::Released { transfer, event } => SettlementPair {
                schedule: VestingSchedule { amount_transferred: event.total_released, ..self.schedule },
                vault: TokenAccountState {
                    amount: (self.vault.amount - transfer.amount) as u64,
                    ..self.vault
                },
                ..self
            },
            _ => self,
        }
    }
}

/// A release is a settlement of the schedule against the balance of the
/// vault; any other outcome leaves the schedule as it was.
pub proof fn lemma_decision_settles(pair: SettlementPair, hub: TokenAccountState, now: i64)
    ensures
        pair.decision(hub, now) is Released ==> pair.after(pair.decision(hub, now)).schedule
            == pair.schedule.settled_at(now as int, pair.vault.amount as nat),
        !(pair.decision(hub, now) is Released) ==> pair.after(pair.decision(hub, now)) == pair,
        pair.schedule.amount_transferred <= pair.schedule.total_amount ==> pair.after(
            pair.decision(hub, now),
        ).schedule.amount_transferred <= pair.schedule.total_amount,
{
    lemma_unlocked_bounded(
        pair.schedule.total_amount as nat,
        pair.schedule.cliff_timestamp as int,
        pair.schedule.vesting_start_timestamp as int,
        pair.schedule.vesting_end_timestamp as int,
        now as int,
    );
}

/// A pair that is decided again at the same time, after its outcome has been
/// carried out, releases nothing.
pub proof fn lemma_settled_pair_is_drained(pair: SettlementPair, hub: TokenAccountState, now: i64)
    ensures
        !(pair.reread(pair.decision(hub, now)).decision(hub, now) is Released),
{
    lemma_unlocked_bounded(
        pair.schedule.total_amount as nat,
        pair.schedule.cliff_timestamp as int,
        pair.schedule.vesting_start_timestamp as int,
        pair.schedule.vesting_end_timestamp as int,
        now as int,
    );
}

/// The pairs agree on what they show of one record: two that name the same
/// schedule show the same schedule record, and two that name the same vault
/// show the same vault.
pub open spec fn consistent(pairs: Seq<SettlementPair>) -> bool {
    forall|i: int, j: int|
        0 <= i < pairs.len() && 0 <= j < pairs.len() ==> {
            &&& (#[trigger] pairs[i]).schedule_key == (#[trigger] pairs[j]).schedule_key
                ==> pairs[i].schedule == pairs[j].schedule
            &&& pairs[i].vault.key == pairs[j].vault.key ==> pairs[i].vault == pairs[j].vault
        }
}

/// The pair at `j` has the schedule `key` and was released.
pub open spec fn releases_schedule(
    pairs: Seq<SettlementPair>,
    outcomes: Seq<PairOutcome>,
    j: int,
    key: Address,
) -> bool {
    0 <= j < outcomes.len() && j < pairs.len() && pairs[j].schedule_key == key
        && outcomes[j] is Released
}

/// The pair at `j` has the vault `vault_key` and was released.
pub open spec fn releases_from_vault(
    pairs: Seq<SettlementPair>,
    outcomes: Seq<PairOutcome>,
    j: int,
    vault_key: Address,
) -> bool {
    0 <= j < outcomes.len() && j < pairs.len() && pairs[j].vault.key == vault_key
        && outcomes[j] is Released
}

/// The pair at `i` as it is read again once all of `outcomes` have been
/// carried out: its schedule and its vault show the release that touched
/// them, wherever in the batch that release was made.
pub open spec fn reread_at(pairs: Seq<SettlementPair>, outcomes: Seq<PairOutcome>, i: int)
    -> SettlementPair {
    let pair = pairs[i];
    SettlementPair {
        schedule_key: pair.schedule_key,
        derived_key: pair.derived_key,
        schedule: if exists|j: int| releases_schedule(pairs, outcomes, j, pair.schedule_key) {
            let j = choose|j: int| releases_schedule(pairs, outcomes, j, pair.schedule_key);
            pairs[j].reread(outcomes[j]).schedule
        } else {
            pair.schedule
        },
        vault: if exists|j: int| releases_from_vault(pairs, outcomes, j, pair.vault.key) {
            let j = choose|j: int| releases_from_vault(pairs, outcomes, j, pair.vault.key);
            pairs[j].reread(outcomes[j]).vault
        } else {
            pair.vault
        },
    }
}

/// The batch as it is read again once all of `outcomes` have been carried out.
pub open spec fn reread_batch(pairs: Seq<SettlementPair>, outcomes: Seq<PairOutcome>) -> Seq<
    SettlementPair,
> {
    Seq::new(pairs.len(), |i: int| reread_at(pairs, outcomes, i))
}

/// The outcome of a pair depends on the pairs before it only.
pub proof fn lemma_outcome_of_prefix(
    pairs: Seq<SettlementPair>,
    hub: TokenAccountState,
    now: i64,
    count: nat,
    i: int,
)
    requires
        0 <= i < count,
    ensures
        batch_outcomes(pairs, hub, now, count).len() == count,
        batch_outcomes(pairs, hub, now, count)[i] == outcome_at(
            pairs,
            batch_outcomes(pairs, hub, now, i as nat),
            i,
            hub,
            now,
        ),
    decreases count,
{
    lemma_batch_outcomes_len(pairs, hub, now, count);
    lemma_batch_outcomes_len(pairs, hub, now, (count - 1) as nat);
    if i < count - 1 {
        lemma_outcome_of_prefix(pairs, hub, now, (count - 1) as nat, i);
    }
}

/// A pair is released only on its own decision, and only where its schedule
/// was not released earlier in the batch.
pub proof fn lemma_release_is_unguarded(
    pairs: Seq<SettlementPair>,
    hub: TokenAccountState,
    now: i64,
    count: nat,
    k: int,
)
    requires
        0 <= k < count,
        batch_outcomes(pairs, hub, now, count)[k] is Released,
    ensures
        batch_outcomes(pairs, hub, now, count)[k] == pairs[k].decision(hub, now),
        !settled_earlier(pairs, batch_outcomes(pairs, hub, now, k as nat), k, pairs[k].schedule_key),
{
    lemma_outcome_of_prefix(pairs, hub, now, count, k);
}

/// No schedule is released twice in one batch.
pub proof fn lemma_one_release_per_schedule(
    pairs: Seq<SettlementPair>,
    hub: TokenAccountState,
    now: i64,
    count: nat,
    j: int,
    k: int,
)
    requires
        count <= pairs.len(),
        0 <= j < count,
        0 <= k < count,
        batch_outcomes(pairs, hub, now, count)[j] is Released,
        batch_outcomes(pairs, hub, now, count)[k] is Released,
        pairs[j].schedule_key == pairs[k].schedule_key,
    ensures
        j == k,
{
    if j < k {
        lemma_release_is_unguarded(pairs, hub, now, count, k);
        lemma_outcome_of_prefix(pairs, hub, now, count, j);
        lemma_outcome_of_prefix(pairs, hub, now, k as nat, j);
        let earlier = batch_outcomes(pairs, hub, now, k as nat);
        assert(pairs[j].schedule_key == pairs[k].schedule_key && earlier[j] is Released);
        assert(settled_earlier(pairs, earlier, k, pairs[k].schedule_key));
    } else if k < j {
        lemma_release_is_unguarded(pairs, hub, now, count, j);
        lemma_outcome_of_prefix(pairs, hub, now, count, k);
        lemma_outcome_of_prefix(pairs, hub, now, j as nat, k);
        let earlier = batch_outcomes(pairs, hub, now, j as nat);
        assert(pairs[k].schedule_key == pairs[j].schedule_key && earlier[k] is Released);
        assert(settled_earlier(pairs, earlier, j, pairs[j].schedule_key));
    }
}

/// Once a batch has been settled, no pair of it, read again and decided at
/// the same time, releases anything.
pub proof fn lemma_reread_pair_is_drained(
    pairs: Seq<SettlementPair>,
    hub: TokenAccountState,
    now: i64,
    count: nat,
    i: int,
)
    requires
        count <= pairs.len(),
        consistent(pairs),
        0 <= i < count,
    ensures
        !(reread_at(pairs, batch_outcomes(pairs, hub, now, count), i).decision(hub, now)
            is Released),
{
    let first = batch_outcomes(pairs, hub, now, count);
    let pair = pairs[i];
    let again = reread_at(pairs, first, i);
    lemma_batch_outcomes_len(pairs, hub, now, count);
    lemma_outcome_of_prefix(pairs, hub, now, count, i);
    if exists|j: int| releases_schedule(pairs, first, j, pair.schedule_key) {
        let js = choose|j: int| releases_schedule(pairs, first, j, pair.schedule_key);
        lemma_release_is_unguarded(pairs, hub, now, count, js);
        assert(pairs[js].schedule == pairs[i].schedule);
        if pairs[js].vault.key == pair.vault.key {
            assert(releases_from_vault(pairs, first, js, pair.vault.key));
            let jv = choose|j: int| releases_from_vault(pairs, first, j, pair.vault.key);
            lemma_release_is_unguarded(pairs, hub, now, count, jv);
            assert(pairs[jv].vault == pairs[js].vault);
            lemma_one_release_per_schedule(pairs, hub, now, count, js, jv);
            if pair.derived_key == Some(pair.schedule_key) {
                assert(again == pairs[js].reread(first[js]));
                lemma_settled_pair_is_drained(pairs[js], hub, now);
            }
        } else {
            assert(again.schedule.token_vault != again.vault.key);
        }
    } else {
        assert(!releases_schedule(pairs, first, i, pair.schedule_key));
        if pair.decision(hub, now) is Released {
            let earlier = batch_outcomes(pairs, hub, now, i as nat);
            assert(settled_earlier(pairs, earlier, i, pair.schedule_key));
            let j = choose|j: int|
                0 <= j < i && j < earlier.len() && j < pairs.len() && (#[trigger] pairs[j]).schedule_key
                    == pair.schedule_key && earlier[j] is Released;
            lemma_outcome_of_prefix(pairs, hub, now, count, j);
            lemma_outcome_of_prefix(pairs, hub, now, i as nat, j);
            assert(releases_schedule(pairs, first, j, pair.schedule_key));
        }
        if exists|j: int| releases_from_vault(pairs, first, j, pair.vault.key) {
            let jv = choose|j: int| releases_from_vault(pairs, first, j, pair.vault.key);
            lemma_release_is_unguarded(pairs, hub, now, count, jv);
            assert(pairs[jv].vault == pairs[i].vault);
            assert(!releases_schedule(pairs, first, jv, pair.schedule_key));
            assert(again.vault.owner != again.schedule_key);
        } else {
            assert(again == pair);
        }
    }
}

/// Outcomes of which none is a release count no release.
pub proof fn lemma_no_release_counts_zero(outcomes: Seq<PairOutcome>)
    requires
        forall|i: int| 0 <= i < outcomes.len() ==> !(#[trigger] outcomes[i] is Released),
    ensures
        released_count(outcomes) == 0,
    decreases outcomes.len(),
{
    if outcomes.len() > 0 {
        lemma_no_release_counts_zero(outcomes.drop_last());
    }
}

/// Settling a batch twice in immediate succession, at the same time, moves
/// nothing the second time: read again after the first settlement, no pair is
/// released, none is counted as processed, and every schedule record stays as
/// the first settlement left it.
pub proof fn lemma_second_batch_moves_nothing(
    pairs: Seq<SettlementPair>,
    hub: TokenAccountState,
    now: i64,
    count: nat,
)
    requires
        count <= pairs.len(),
        consistent(pairs),
    ensures
        ({
            let first = batch_outcomes(pairs, hub, now, count);
            let again = reread_batch(pairs, first);
            let second = batch_outcomes(again, hub, now, count);
            &&& second.len() == count
            &&& released_count(second) == 0
            &&& forall|i: int| 0 <= i < count ==> !(#[trigger] second[i] is Released)
            &&& forall|i: int| 0 <= i < count ==> (#[trigger] again[i]).after(second[i]) == again[i]
        }),
{
    let first = batch_outcomes(pairs, hub, now, count);
    let again = reread_batch(pairs, first);
    let second = batch_outcomes(again, hub, now, count);
    lemma_batch_outcomes_len(again, hub, now, count);
    assert forall|i: int| 0 <= i < count implies !(#[trigger] second[i] is Released) by {
        lemma_reread_pair_is_drained(pairs, hub, now, count, i);
        lemma_outcome_of_prefix(again, hub, now, count, i);
        assert(again[i] == reread_at(pairs, first, i));
    }
    lemma_no_release_counts_zero(second);
}

} // verus!
