//! One beneficiary allocation and its unlock curve.

use vstd::prelude::*;
use crate::address::Address;
use crate::errors::VestingError;

verus! {

/// Accounting tag of an allocation. It has no effect on behaviour.
#[derive(Clone, Copy, Debug, PartialEq, Eq, Structural)]
pub enum SourceCategory {
    Public,
    Ecosystem,
    Team,
    Liquidity,
    Strategic,
    Foundation,
}

/// A fixed allocation that unlocks linearly between two timestamps, after a cliff.
#[derive(Clone, Copy, Debug, PartialEq, Eq)]
pub struct VestingSchedule {
    /// Sequence number of the schedule.
    pub schedule_id: u64,
    /// Beneficiary of the direct settlement mode.
    pub recipient: Address,
    /// Token account of the beneficiary, pinned at creation.
    pub recipient_token_account: Address,
    /// The asset that is vested.
    pub mint: Address,
    /// The vault that holds what has not been released yet.
    pub token_vault: Address,
    /// Who funded the schedule.
    pub depositor: Address,
    /// The whole allocation.
    pub total_amount: u64,
    /// Nothing unlocks before this time.
    pub cliff_timestamp: i64,
    /// Start of the linear segment.
    pub vesting_start_timestamp: i64,
    /// End of the linear segment: everything is unlocked from here on.
    pub vesting_end_timestamp: i64,
    /// Cumulative amount moved out of the vault so far.
    pub amount_transferred: u64,
    /// Accounting tag.
    pub source_category: SourceCategory,
    /// Guard against acting on a zeroed record.
    pub is_initialized: bool,
    /// Derivation witness of the schedule's own identity.
    pub bump: u8,
}

/// `cliff <= start < end`.
pub open spec fn timestamps_ordered(cliff: int, start: int, end: int) -> bool {
    cliff <= start && start < end
}

/// The amount of `total` that is unlocked at `now`.
pub open spec fn unlocked(total: nat, cliff: int, start: int, end: int, now: int) -> nat {
    if now < cliff {
        0
    } else if now >= end {
        total
    } else if start >= end || now < start {
        0
    } else {
        ((total * (now - start)) / (end - start)) as nat
    }
}

/// `a - b`, or zero where that would be negative.
pub open spec fn saturating_diff(a: nat, b: nat) -> nat {
    if a >= b {
        (a - b) as nat
    } else {
        0
    }
}

/// On the linear segment the quotient is a natural number no larger than the total.
pub proof fn lemma_linear_share_bounded(total: nat, elapsed: int, duration: int)
    requires
        0 <= elapsed < duration,
    ensures
        0 <= (total * elapsed) / duration <= total,
{
    assert(0 <= total * elapsed) by (nonlinear_arith)
        requires
            0 <= elapsed,
    ;
    assert(total * elapsed <= total * duration) by (nonlinear_arith)
        requires
            0 <= elapsed < duration,
    ;
    assert((total * elapsed) / duration <= (total * duration) / duration) by (nonlinear_arith)
        requires
            0 < duration,
            total * elapsed <= total * duration,
    ;
    assert((total * duration) / duration == total) by (nonlinear_arith)
        requires
            0 < duration,
    ;
    assert(0 <= (total * elapsed) / duration) by (nonlinear_arith)
        requires
            0 < duration,
            0 <= total * elapsed,
    ;
}

/// The linear share does not shrink as time passes.
pub proof fn lemma_linear_share_monotonic(total: nat, e1: int, e2: int, duration: int)
    requires
        0 <= e1 <= e2,
        0 < duration,
    ensures
        (total * e1) / duration <= (total * e2) / duration,
{
    assert(total * e1 <= total * e2) by (nonlinear_arith)
        requires
            0 <= e1 <= e2,
    ;
    assert((total * e1) / duration <= (total * e2) / duration) by (nonlinear_arith)
        requires
            0 < duration,
            total * e1 <= total * e2,
    ;
}

/// What is unlocked never exceeds the allocation.
pub proof fn lemma_unlocked_bounded(total: nat, cliff: int, start: int, end: int, now: int)
    ensures
        0 <= unlocked(total, cliff, start, end, now) <= total,
{
    if now >= cliff && now < end && start < end && now >= start {
        lemma_linear_share_bounded(total, now - start, end - start);
    }
}

/// What is unlocked never shrinks as time passes, whatever the schedule.
pub proof fn lemma_unlocked_monotonic(
    total: nat,
    cliff: int,
    start: int,
    end: int,
    earlier: int,
    later: int,
)
    requires
        earlier <= later,
    ensures
        unlocked(total, cliff, start, end, earlier) <= unlocked(total, cliff, start, end, later),
{
    lemma_unlocked_bounded(total, cliff, start, end, earlier);
    lemma_unlocked_bounded(total, cliff, start, end, later);
    if earlier >= cliff && earlier < end && start < end && earlier >= start && later < end {
        lemma_linear_share_monotonic(total, earlier - start, later - start, end - start);
    }
}

/// Nothing is unlocked one instant before the cliff.
pub proof fn lemma_nothing_before_cliff(total: nat, cliff: int, start: int, end: int)
    ensures
        unlocked(total, cliff, start, end, cliff - 1) == 0,
{
}

/// Everything is unlocked at the end of vesting, when the end is not before the cliff.
pub proof fn lemma_everything_at_end(total: nat, cliff: int, start: int, end: int)
    requires
        cliff <= end,
    ensures
        unlocked(total, cliff, start, end, end) == total,
{
}

/// Halfway through a linear segment of even length, half the allocation is
/// unlocked, rounded down.
pub proof fn lemma_half_at_midpoint(total: nat, cliff: int, start: int, end: int, half: int)
    requires
        timestamps_ordered(cliff, start, end),
        end - start == 2 * half,
    ensures
        unlocked(total, cliff, start, end, start + half) == total / 2,
        2 * unlocked(total, cliff, start, end, start + half) <= total,
        total <= 2 * unlocked(total, cliff, start, end, start + half) + 1,
{
    assert((total * half) / (2 * half) == total / 2) by (nonlinear_arith)
        requires
            0 < half,
    ;
}

impl VestingSchedule {
    /// Number of bytes of the stored record, its 8-byte tag included.
    pub const LEN: usize = 219;

    /// The record is initialized, its allocation is positive, its timestamps
    /// are ordered and it has not released more than its allocation.
    pub open spec fn wf(self) -> bool {
        &&& self.is_initialized
        &&& self.total_amount > 0
        &&& timestamps_ordered(
            self.cliff_timestamp as int,
            self.vesting_start_timestamp as int,
            self.vesting_end_timestamp as int,
        )
        &&& self.amount_transferred <= self.total_amount
    }

    /// The amount unlocked at `now`.
    pub open spec fn unlocked_at(self, now: int) -> nat {
        unlocked(
            self.total_amount as nat,
            self.cliff_timestamp as int,
            self.vesting_start_timestamp as int,
            self.vesting_end_timestamp as int,
            now,
        )
    }

    /// The amount unlocked at `now` and not released yet.
    pub open spec fn transferable_at(self, now: int) -> nat {
        saturating_diff(self.unlocked_at(now), self.amount_transferred as nat)
    }

    /// `now` lies on the linear segment.
    pub open spec fn on_linear_segment(self, now: int) -> bool {
        &&& self.cliff_timestamp <= now
        &&& self.vesting_start_timestamp <= now
        &&& now < self.vesting_end_timestamp
    }

    /// `now` lies on the linear segment and the segment is longer than a
    /// signed 64-bit number of seconds, so that the share cannot be computed.
    pub open spec fn span_overflows_at(self, now: int) -> bool {
        &&& self.on_linear_segment(now)
        &&& self.vesting_end_timestamp - self.vesting_start_timestamp > i64::MAX
    }

    /// Fills in every field of the record and marks it initialized, with
    /// nothing released.
    pub fn init(
        &mut self,
        schedule_id: u64,
        recipient: Address,
        recipient_token_account: Address,
        mint: Address,
        token_vault: Address,
        depositor: Address,
        total_amount: u64,
        cliff_timestamp: i64,
        vesting_start_timestamp: i64,
        vesting_end_timestamp: i64,
        source_category: SourceCategory,
        bump: u8,
    ) -> (r: Result<(), VestingError>)
        ensures
            r is Ok,
            *final(self) == (VestingSchedule {
                schedule_id,
                recipient,
                recipient_token_account,
                mint,
                token_vault,
                depositor,
                total_amount,
                cliff_timestamp,
                vesting_start_timestamp,
                vesting_end_timestamp,
                amount_transferred: 0,
                source_category,
                is_initialized: true,
                bump,
            }),
            final(self).wf() <==> total_amount > 0 && timestamps_ordered(
                cliff_timestamp as int,
                vesting_start_timestamp as int,
                vesting_end_timestamp as int,
            ),
    {
        self.schedule_id = schedule_id;
        self.recipient = recipient;
        self.recipient_token_account = recipient_token_account;
        self.mint = mint;
        self.token_vault = token_vault;
        self.depositor = depositor;
        self.total_amount = total_amount;
        self.cliff_timestamp = cliff_timestamp;
        self.vesting_start_timestamp = vesting_start_timestamp;
        self.vesting_end_timestamp = vesting_end_timestamp;
        self.amount_transferred = 0;
        self.source_category = source_category;
        self.is_initialized = true;
        self.bump = bump;
        Ok(())
    }

    /// The amount unlocked at `current_timestamp`.
    ///
    /// Refused with `InvalidVestingScheduleData` on an uninitialized record,
    /// and with `MathOverflow` where the linear segment is too long for the
    /// share to be computed.
    pub fn calculate_unlocked_amount(&self, current_timestamp: i64) -> (r: Result<u64, VestingError>)
        ensures
            !self.is_initialized ==> r == Err::<u64, VestingError>(
                VestingError::InvalidVestingScheduleData,
            ),
            self.is_initialized && self.span_overflows_at(current_timestamp as int) ==> r == Err::<
                u64,
                VestingError,
            >(VestingError::MathOverflow),
            self.is_initialized && !self.span_overflows_at(current_timestamp as int) ==> r is Ok,
            r matches Ok(amount) ==> amount == self.unlocked_at(current_timestamp as int),
            r matches Ok(amount) ==> amount <= self.total_amount,
    {
        if !self.is_initialized {
            return Err(VestingError::InvalidVestingScheduleData);
        }
        if current_timestamp < self.cliff_timestamp {
            return Ok(0);
        }
        if current_timestamp >= self.vesting_end_timestamp {
            return Ok(self.total_amount);
        }
        if self.vesting_start_timestamp >= self.vesting_end_timestamp || current_timestamp
            < self.vesting_start_timestamp {
            return Ok(0);
        }
        let elapsed: i64 = match current_timestamp.checked_sub(self.vesting_start_timestamp) {
            Some(e) => e,
            None => {
                return Err(VestingError::MathOverflow);
            },
        };
        let duration: i64 = match self.vesting_end_timestamp.checked_sub(
            self.vesting_start_timestamp,
        ) {
            Some(d) => d,
            None => {
                return Err(VestingError::MathOverflow);
            },
        };
        proof {
            lemma_linear_share_bounded(self.total_amount as nat, elapsed as int, duration as int);
            assert(self.total_amount * elapsed <= 0xffff_ffff_ffff_ffff * 0x7fff_ffff_ffff_ffff)
                by (nonlinear_arith)
                requires
                    0 <= self.total_amount <= 0xffff_ffff_ffff_ffff,
                    0 <= elapsed <= 0x7fff_ffff_ffff_ffff,
            ;
        }
        let product: u128 = (self.total_amount as u128) * (elapsed as u128);
        let share: u128 = product / (duration as u128);
        let share: u64 = share as u64;
        Ok(if share < self.total_amount {
            share
        } else {
            self.total_amount
        })
    }

    /// The amount unlocked at `current_timestamp` that has not been released
    /// yet; zero where more has been released than is unlocked.
    pub fn get_transferable_amount(&self, current_timestamp: i64) -> (r: Result<u64, VestingError>)
        ensures
            !self.is_initialized ==> r == Err::<u64, VestingError>(
                VestingError::InvalidVestingScheduleData,
            ),
            self.is_initialized && self.span_overflows_at(current_timestamp as int) ==> r == Err::<
                u64,
                VestingError,
            >(VestingError::MathOverflow),
            self.is_initialized && !self.span_overflows_at(current_timestamp as int) ==> r is Ok,
            r matches Ok(amount) ==> amount == self.transferable_at(current_timestamp as int),
            r matches Ok(amount) ==> self.amount_transferred + amount <= u64::MAX,
            r matches Ok(amount) ==> self.amount_transferred <= self.total_amount
                ==> self.amount_transferred + amount <= self.total_amount,
    {
        match self.calculate_unlocked_amount(current_timestamp) {
            Ok(unlocked_amount) => Ok(unlocked_amount.saturating_sub(self.amount_transferred)),
            Err(e) => Err(e),
        }
    }
}

} // verus!
