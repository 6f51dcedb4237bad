//! Batched settlement: releasing what has unlocked, schedule by schedule, to
//! the collection account.

use vstd::prelude::*;
use crate::address::Address;
use crate::constants::MAX_SCHEDULES_PER_CRANK;
use crate::derivation::{holds_identity, is_schedule_identity, schedule_address};
use crate::errors::VestingError;
use crate::events::TokensReleased;
use crate::state::program_config::ProgramConfig;
use crate::state::schedule_record::is_record_of;
use crate::state::vesting_schedule::VestingSchedule;
use crate::token::{TokenAccountState, TransferInstruction};

verus! {

/// The accounts that every settlement call presents.
#[derive(Clone, Copy, Debug, PartialEq, Eq)]
pub struct CrankVestingSchedules {
    /// The configuration record.
    pub program_config: ProgramConfig,
    /// The account that receives what is released.
    pub distribution_hub_token_account: TokenAccountState,
    /// The asset that is settled.
    pub mint: Address,
}

/// One schedule and its vault, as they were read when the call began.
#[derive(Clone, Copy, Debug, PartialEq, Eq)]
pub struct SettlementPair {
    /// Identity of the schedule record.
    pub schedule_key: Address,
    /// The identity derived from the record's identifier and derivation
    /// witness, if they derive one.
    pub derived_key: Option<Address>,
    /// The schedule record.
    pub schedule: VestingSchedule,
    /// The vault presented with it.
    pub vault: TokenAccountState,
}

/// Why a pair was passed over without an error.
#[derive(Clone, Copy, Debug, PartialEq, Eq, Structural)]
pub enum SkipReason {
    /// The schedule record is not initialized.
    Uninitialized,
    /// The whole allocation has been released already.
    FullyProcessed,
    /// Nothing has unlocked beyond what was released.
    NothingTransferable,
    /// The vault holds nothing.
    VaultEmpty,
    /// The schedule was settled earlier in the same call, so what was read of
    /// it is stale.
    ConcurrentModification,
}

/// What became of one pair.
#[derive(Clone, Copy, Debug, PartialEq, Eq)]
pub enum PairOutcome {
    /// Passed over; nothing changed.
    Skipped(SkipReason),
    /// Refused; nothing changed.
    Rejected(VestingError),
    /// Tokens are released: the transfer to perform and its audit record.
    Released { transfer: TransferInstruction, event: TokensReleased },
}

/// The result of a settlement call.
#[derive(Debug, PartialEq, Eq)]
pub struct BatchReport {
    /// Number of pairs that were looked at.
    pub attempted: usize,
    /// Number of pairs that released tokens.
    pub processed: u8,
    /// What became of each pair looked at, in order.
    pub outcomes: Vec<PairOutcome>,
}

/// The smaller of two amounts.
pub open spec fn smaller(a: nat, b: nat) -> nat {
    if a <= b {
        a
    } else {
        b
    }
}

impl CrankVestingSchedules {
    /// The error that refuses the whole call: no collection address set, or a
    /// collection account of another owner or another asset.
    pub open spec fn refusal(self) -> Option<VestingError> {
        if self.program_config.distribution_hub.is_unset() {
            Some(VestingError::DistributionHubNotSet)
        } else if self.distribution_hub_token_account.owner
            != self.program_config.distribution_hub {
            Some(VestingError::HubAccountOwnerMismatch)
        } else if self.distribution_hub_token_account.mint != self.mint {
            Some(VestingError::HubAccountMintMismatch)
        } else {
            None
        }
    }

    /// Checks what every settlement call requires of its accounts.
    pub fn validate(&self) -> (r: Result<(), VestingError>)
        ensures
            match self.refusal() {
                Some(e) => r == Err::<(), VestingError>(e),
                None => r is Ok,
            },
    {
        if self.program_config.distribution_hub.is_default() {
            return Err(VestingError::DistributionHubNotSet);
        }
        if !self.distribution_hub_token_account.owner.equals(&self.program_config.distribution_hub) {
            return Err(VestingError::HubAccountOwnerMismatch);
        }
        if !self.distribution_hub_token_account.mint.equals(&self.mint) {
            return Err(VestingError::HubAccountMintMismatch);
        }
        Ok(())
    }
}

/// Number of pairs that a call works through: no more than the caller allows,
/// than the program allows, or than were supplied.
pub open spec fn pairs_to_attempt(supplied: nat, max_schedules: u8) -> nat {
    smaller(smaller(max_schedules as nat, MAX_SCHEDULES_PER_CRANK as nat), supplied)
}

impl SettlementPair {
    /// The amount that a settlement at `now` moves: what is transferable,
    /// as far as the vault holds it.
    pub open spec fn release_amount(self, now: int) -> nat {
        smaller(self.schedule.transferable_at(now), self.vault.amount as nat)
    }

    /// What becomes of the pair when looked at alone: the first check that
    /// fails decides, and where none fails tokens are released to `hub`. The
    /// vault has to be under the authority of the schedule, and the schedule
    /// has to be presented under its derived identity.
    pub open spec fn decision(self, hub: TokenAccountState, now: i64) -> PairOutcome {
        if !self.schedule.is_initialized {
            PairOutcome::Skipped(SkipReason::Uninitialized)
        } else if !self.vault.is_initialized {
            PairOutcome::Rejected(VestingError::InvalidVaultState)
        } else if self.vault.owner != self.schedule_key || self.derived_key != Some(
            self.schedule_key,
        ) {
            PairOutcome::Rejected(VestingError::VaultAuthorityMismatch)
        } else if self.schedule.token_vault != self.vault.key {
            PairOutcome::Rejected(VestingError::VaultMismatch)
        } else if self.vault.mint != self.schedule.mint {
            PairOutcome::Rejected(VestingError::MintMismatch)
        } else if self.schedule.mint != hub.mint {
            PairOutcome::Rejected(VestingError::HubAccountMintMismatch)
        } else if self.schedule.amount_transferred >= self.schedule.total_amount {
            PairOutcome::Skipped(SkipReason::FullyProcessed)
        } else if self.schedule.span_overflows_at(now as int) {
            PairOutcome::Rejected(VestingError::MathOverflow)
        } else if self.schedule.transferable_at(now as int) == 0 {
            PairOutcome::Skipped(SkipReason::NothingTransferable)
        } else if self.release_amount(now as int) == 0 {
            PairOutcome::Skipped(SkipReason::VaultEmpty)
        } else {
            self.release(hub, now)
        }
    }

    /// The release of `release_amount` from the pair's vault to `hub`.
    pub open spec fn release(self, hub: TokenAccountState, now: i64) -> PairOutcome {
        let amount = self.release_amount(now as int);
        PairOutcome::Released {
            transfer: TransferInstruction {
                from: self.vault.key,
                to: hub.key,
                authority: self.schedule_key,
                amount: amount as u64,
            },
            event: TokensReleased {
                schedule_id: self.schedule.schedule_id,
                recipient: hub.owner,
                mint: self.schedule.mint,
                amount: amount as u64,
                source_category: self.schedule.source_category,
                timestamp: now,
                total_released: (self.schedule.amount_transferred + amount) as u64,
            },
        }
    }

    /// The pair after `outcome`: a release adds its amount to what the
    /// schedule has released, anything else changes nothing.
    pub open spec fn after(self, outcome: PairOutcome) -> SettlementPair {
        match outcome {
            PairOutcome::Released { transfer, event } => SettlementPair {
                schedule: VestingSchedule { amount_transferred: event.total_released, ..self.schedule },
                ..self
            },
            _ => self,
        }
    }

    /// The pair of the schedule stored as `schedule_data` under `schedule_key`
    /// and of `vault`, with the identity that `program_id` derives for the
    /// schedule. Storage that holds no schedule record gives a blank,
    /// uninitialized schedule, which settlement passes over.
    pub fn read(
        program_id: &Address,
        schedule_key: Address,
        schedule_data: &[u8],
        vault: TokenAccountState,
    ) -> (pair: SettlementPair)
        ensures
            pair.schedule_key == schedule_key,
            pair.vault == vault,
            is_record_of(schedule_data@, pair.schedule) || (pair.schedule
                == VestingSchedule::blank_record() && forall|schedule: VestingSchedule|
                !is_record_of(schedule_data@, schedule)),
            forall|key: Address|
                (pair.derived_key == Some(key)) == is_schedule_identity(
                    key,
                    *program_id,
                    pair.schedule.schedule_id,
                    pair.schedule.bump,
                ),
    {
        let schedule = match VestingSchedule::decode(schedule_data) {
            Ok(schedule) => schedule,
            Err(_) => VestingSchedule::blank(),
        };
        let derived_key = schedule_address(program_id, schedule.schedule_id, schedule.bump);
        SettlementPair { schedule_key, derived_key, schedule, vault }
    }

    /// Decides what becomes of the pair when looked at alone, at time `now`.
    pub fn evaluate(&self, hub: &TokenAccountState, now: i64) -> (r: PairOutcome)
        ensures
            r == self.decision(*hub, now),
            r matches PairOutcome::Released { transfer, event } ==> {
                &&& 0 < transfer.amount <= self.vault.amount
                &&& event.amount == transfer.amount
                &&& event.total_released == self.schedule.amount_transferred + transfer.amount
                &&& event.total_released <= self.schedule.total_amount
            },
    {
        if !self.schedule.is_initialized {
            return PairOutcome::Skipped(SkipReason::Uninitialized);
        }
        if !self.vault.is_initialized {
            return PairOutcome::Rejected(VestingError::InvalidVaultState);
        }
        if !self.vault.owner.equals(&self.schedule_key) {
            return PairOutcome::Rejected(VestingError::VaultAuthorityMismatch);
        }
        if !holds_identity(&self.derived_key, &self.schedule_key) {
            return PairOutcome::Rejected(VestingError::VaultAuthorityMismatch);
        }
        if !self.schedule.token_vault.equals(&self.vault.key) {
            return PairOutcome::Rejected(VestingError::VaultMismatch);
        }
        if !self.vault.mint.equals(&self.schedule.mint) {
            return PairOutcome::Rejected(VestingError::MintMismatch);
        }
        if !self.schedule.mint.equals(&hub.mint) {
            return PairOutcome::Rejected(VestingError::HubAccountMintMismatch);
        }
        if self.schedule.amount_transferred >= self.schedule.total_amount {
            return PairOutcome::Skipped(SkipReason::FullyProcessed);
        }
        let transferable: u64 = match self.schedule.get_transferable_amount(now) {
            Ok(t) => t,
            Err(e) => {
                return PairOutcome::Rejected(e);
            },
        };
        if transferable == 0 {
            return PairOutcome::Skipped(SkipReason::NothingTransferable);
        }
        let actual: u64 = if transferable <= self.vault.amount {
            transferable
        } else {
            self.vault.amount
        };
        if actual == 0 {
            return PairOutcome::Skipped(SkipReason::VaultEmpty);
        }
        let total_released: u64 = match self.schedule.amount_transferred.checked_add(actual) {
            Some(t) => t,
            None => {
                return PairOutcome::Rejected(VestingError::MathOverflow);
            },
        };
        PairOutcome::Released {
            transfer: TransferInstruction {
                from: self.vault.key,
                to: hub.key,
                authority: self.schedule_key,
                amount: actual,
            },
            event: TokensReleased {
                schedule_id: self.schedule.schedule_id,
                recipient: hub.owner,
                mint: self.schedule.mint,
                amount: actual,
                source_category: self.schedule.source_category,
                timestamp: now,
                total_released,
            },
        }
    }
}

/// Some pair among the first `upto` has the schedule `key` and was released.
pub open spec fn settled_earlier(
    pairs: Seq<SettlementPair>,
    outcomes: Seq<PairOutcome>,
    upto: int,
    key: Address,
) -> bool {
    exists|j: int|
        0 <= j < upto && j < outcomes.len() && j < pairs.len() && (#[trigger] pairs[j]).schedule_key
            == key && outcomes[j] is Released
}

/// What becomes of the pair at `index`, given the outcomes of the pairs
/// before it: its own decision, unless that is a release and the same
/// schedule was released earlier in the call.
pub open spec fn outcome_at(
    pairs: Seq<SettlementPair>,
    earlier: Seq<PairOutcome>,
    index: int,
    hub: TokenAccountState,
    now: i64,
) -> PairOutcome {
    let alone = pairs[index].decision(hub, now);
    if alone is Released && settled_earlier(pairs, earlier, index, pairs[index].schedule_key) {
        PairOutcome::Skipped(SkipReason::ConcurrentModification)
    } else {
        alone
    }
}

/// The outcomes of the first `count` pairs, in order.
pub open spec fn batch_outcomes(
    pairs: Seq<SettlementPair>,
    hub: TokenAccountState,
    now: i64,
    count: nat,
) -> Seq<PairOutcome>
    decreases count,
{
    if count == 0 {
        Seq::empty()
    } else {
        let earlier = batch_outcomes(pairs, hub, now, (count - 1) as nat);
        earlier.push(outcome_at(pairs, earlier, count - 1, hub, now))
    }
}

/// Number of releases among `outcomes`.
pub open spec fn released_count(outcomes: Seq<PairOutcome>) -> nat
    decreases outcomes.len(),
{
    if outcomes.len() == 0 {
        0
    } else {
        released_count(outcomes.drop_last()) + if outcomes.last() is Released {
            1nat
        } else {
            0nat
        }
    }
}

/// There are as many outcomes as pairs looked at.
pub proof fn lemma_batch_outcomes_len(
    pairs: Seq<SettlementPair>,
    hub: TokenAccountState,
    now: i64,
    count: nat,
)
    ensures
        batch_outcomes(pairs, hub, now, count).len() == count,
    decreases count,
{
    if count > 0 {
        lemma_batch_outcomes_len(pairs, hub, now, (count - 1) as nat);
    }
}

/// No more releases than outcomes.
pub proof fn lemma_released_count_bounded(outcomes: Seq<PairOutcome>)
    ensures
        released_count(outcomes) <= outcomes.len(),
    decreases outcomes.len(),
{
    if outcomes.len() > 0 {
        lemma_released_count_bounded(outcomes.drop_last());
    }
}

/// Whether one of the first `upto` pairs has the schedule `key` and was
/// released.
fn was_settled_earlier(
    pairs: &Vec<SettlementPair>,
    outcomes: &Vec<PairOutcome>,
    upto: usize,
    key: &Address,
) -> (r: bool)
    requires
        upto <= pairs.len(),
        upto <= outcomes.len(),
    ensures
        r == settled_earlier(pairs@, outcomes@, upto as int, *key),
{
    let mut j: usize = 0;
    while j < upto
        invariant
            j <= upto,
            upto <= pairs.len(),
            upto <= outcomes.len(),
            !settled_earlier(pairs@, outcomes@, j as int, *key),
        decreases upto - j,
    {
        let released: bool = match &outcomes[j] {
            PairOutcome::Released { .. } => true,
            _ => false,
        };
        if released && pairs[j].schedule_key.equals(key) {
            assert(pairs@[j as int].schedule_key == *key && outcomes@[j as int] is Released);
            return true;
        }
        j += 1;
    }
    false
}

/// Settles a batch of schedules at time `now`.
///
/// The call is refused as a whole where no collection address is set or the
/// collection account has another owner or asset. Otherwise the first
/// `pairs_to_attempt` pairs are looked at in order, each for itself: a pair
/// that cannot be settled is skipped or rejected and the next one is tried. A
/// pair whose schedule was released earlier in the same call is skipped. The
/// schedule record of each released pair has the amount added to what it has
/// released; everything else is left as it was.
pub fn handler(
    ctx: &CrankVestingSchedules,
    pairs: &mut Vec<SettlementPair>,
    max_schedules: u8,
    now: i64,
) -> (r: Result<BatchReport, VestingError>)
    ensures
        match ctx.refusal() {
            Some(e) => r == Err::<BatchReport, VestingError>(e) && final(pairs)@ == old(pairs)@,
            None => r is Ok,
        },
        r matches Ok(report) ==> {
            &&& report.attempted == pairs_to_attempt(old(pairs)@.len(), max_schedules)
            &&& report.outcomes@ == batch_outcomes(
                old(pairs)@,
                ctx.distribution_hub_token_account,
                now,
                report.attempted as nat,
            )
            &&& report.processed == released_count(report.outcomes@)
            &&& final(pairs)@.len() == old(pairs)@.len()
            &&& forall|i: int|
                0 <= i < report.attempted ==> #[trigger] final(pairs)@[i] == old(pairs)@[i].after(
                    report.outcomes@[i],
                )
            &&& forall|i: int|
                report.attempted <= i < old(pairs)@.len() ==> #[trigger] final(pairs)@[i] == old(
                    pairs,
                )@[i]
        },
        forall|i: int|
            0 <= i < old(pairs)@.len() && (#[trigger] old(pairs)@[i]).schedule.wf() ==> final(pairs)@[i]
                .schedule.wf(),
{
    match ctx.validate() {
        Err(e) => {
            return Err(e);
        },
        Ok(_) => {},
    }
    let hub = ctx.distribution_hub_token_account;
    let mut attempted: usize = pairs.len();
    if attempted > MAX_SCHEDULES_PER_CRANK as usize {
        attempted = MAX_SCHEDULES_PER_CRANK as usize;
    }
    if attempted > max_schedules as usize {
        attempted = max_schedules as usize;
    }
    let mut outcomes: Vec<PairOutcome> = Vec::new();
    let mut processed: u8 = 0;
    let mut i: usize = 0;
    while i < attempted
        invariant
            i <= attempted,
            attempted <= pairs.len(),
            attempted <= MAX_SCHEDULES_PER_CRANK,
            pairs@.len() == old(pairs)@.len(),
            outcomes@.len() == i,
            outcomes@ == batch_outcomes(old(pairs)@, hub, now, i as nat),
            processed == released_count(outcomes@),
            forall|k: int| 0 <= k < i ==> #[trigger] pairs@[k] == old(pairs)@[k].after(outcomes@[k]),
            forall|k: int| i <= k < pairs@.len() ==> #[trigger] pairs@[k] == old(pairs)@[k],
            forall|k: int| 0 <= k < pairs@.len() ==> (#[trigger] pairs@[k]).schedule_key == old(
                pairs,
            )@[k].schedule_key,
            forall|k: int|
                0 <= k < pairs@.len() && (#[trigger] old(pairs)@[k]).schedule.wf() ==> pairs@[k]
                    .schedule.wf(),
        decreases attempted - i,
    {
        let ghost earlier = outcomes@;
        let pair = pairs[i];
        let alone = pair.evaluate(&hub, now);
        let outcome = match alone {
            PairOutcome::Released { transfer, event } => {
                if was_settled_earlier(pairs, &outcomes, i, &pair.schedule_key) {
                    PairOutcome::Skipped(SkipReason::ConcurrentModification)
                } else {
                    let mut updated = pair;
                    updated.schedule.amount_transferred = event.total_released;
                    pairs[i] = updated;
                    proof {
                        lemma_released_count_bounded(earlier);
                    }
                    processed = processed + 1;
                    alone
                }
            },
            _ => alone,
        };
        proof {
            assert(settled_earlier(pairs@, earlier, i as int, pair.schedule_key)
                == settled_earlier(old(pairs)@, earlier, i as int, pair.schedule_key)) by {
                if settled_earlier(pairs@, earlier, i as int, pair.schedule_key) {
                    let j = choose|j: int|
                        0 <= j < i && j < earlier.len() && j < pairs@.len() && (
                        #[trigger] pairs@[j]).schedule_key == pair.schedule_key
                            && earlier[j] is Released;
                    assert(old(pairs)@[j].schedule_key == pair.schedule_key);
                }
                if settled_earlier(old(pairs)@, earlier, i as int, pair.schedule_key) {
                    let j = choose|j: int|
                        0 <= j < i && j < earlier.len() && j < old(pairs)@.len() && (
                        #[trigger] old(pairs)@[j]).schedule_key == pair.schedule_key
                            && earlier[j] is Released;
                    assert(pairs@[j].schedule_key == pair.schedule_key);
                }
            }
            assert(outcome == outcome_at(old(pairs)@, earlier, i as int, hub, now));
            assert(earlier.push(outcome).drop_last() =~= earlier);
        }
        outcomes.push(outcome);
        i += 1;
    }
    Ok(BatchReport { attempted, processed, outcomes })
}

} // verus!
