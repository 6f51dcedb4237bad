//! Creation and funding of a schedule.

use vstd::prelude::*;
use crate::address::Address;
use crate::errors::VestingError;
use crate::events::VestingScheduleCreated;
use crate::state::program_config::ProgramConfig;
use crate::state::vesting_schedule::{timestamps_ordered, SourceCategory, VestingSchedule};
use crate::token::{TokenAccountState, TransferInstruction};

verus! {

/// The parameters of a new schedule.
#[derive(Clone, Copy, Debug, PartialEq, Eq)]
pub struct CreateVestingScheduleParams {
    pub total_amount: u64,
    pub cliff_timestamp: i64,
    pub vesting_start_timestamp: i64,
    pub vesting_end_timestamp: i64,
    pub source_category: SourceCategory,
}

/// The accounts of a creating call.
#[derive(Clone, Copy, Debug, PartialEq, Eq)]
pub struct CreateVestingSchedule {
    /// The identity that signed the call.
    pub admin: Address,
    /// The configuration record.
    pub program_config: ProgramConfig,
    /// The asset to vest.
    pub mint: Address,
    /// The account that funds the schedule.
    pub depositor_token_account: TokenAccountState,
    /// The schedule record, which the call fills in.
    pub vesting_schedule: VestingSchedule,
    /// Derivation witness of the schedule's identity.
    pub vesting_schedule_bump: u8,
    /// Identity of the schedule's new vault.
    pub vesting_vault: Address,
}

/// What a successful creation asks for and records.
#[derive(Clone, Copy, Debug, PartialEq, Eq)]
pub struct ScheduleFunding {
    /// The deposit of the whole allocation into the vault.
    pub transfer: TransferInstruction,
    /// The audit record.
    pub event: VestingScheduleCreated,
}

/// The first reason to refuse funding from `depositor`: the signer is not the
/// admin, the funding account holds another asset, belongs to someone else, or
/// holds less than `total_amount`.
pub open spec fn funding_refusal(
    config: ProgramConfig,
    signer: Address,
    mint: Address,
    depositor: TokenAccountState,
    total_amount: u64,
) -> Option<VestingError> {
    if signer != config.admin {
        Some(VestingError::Unauthorized)
    } else if depositor.mint != mint {
        Some(VestingError::MintMismatch)
    } else if depositor.owner != signer {
        Some(VestingError::Unauthorized)
    } else if depositor.amount < total_amount {
        Some(VestingError::InsufficientFunds)
    } else {
        None
    }
}

/// The first reason to refuse the numbers of a new schedule: a zero amount,
/// timestamps out of order, an identifier that is not the next in sequence, or
/// a counter that cannot grow.
pub open spec fn terms_refusal(
    config: ProgramConfig,
    schedule_id: u64,
    total_amount: u64,
    cliff: i64,
    start: i64,
    end: i64,
) -> Option<VestingError> {
    if total_amount == 0 {
        Some(VestingError::InvalidAmount)
    } else if !timestamps_ordered(cliff as int, start as int, end as int) {
        Some(VestingError::InvalidTimestamps)
    } else if schedule_id != config.total_schedules {
        Some(VestingError::ScheduleIdConflict)
    } else if config.total_schedules == u64::MAX {
        Some(VestingError::MathOverflow)
    } else {
        None
    }
}

/// Checks the funding of a new schedule.
pub fn check_funding(
    config: &ProgramConfig,
    signer: &Address,
    mint: &Address,
    depositor: &TokenAccountState,
    total_amount: u64,
) -> (r: Result<(), VestingError>)
    ensures
        match funding_refusal(*config, *signer, *mint, *depositor, total_amount) {
            Some(e) => r == Err::<(), VestingError>(e),
            None => r is Ok,
        },
{
    if !config.is_admin(signer) {
        return Err(VestingError::Unauthorized);
    }
    if !depositor.mint.equals(mint) {
        return Err(VestingError::MintMismatch);
    }
    if !depositor.owner.equals(signer) {
        return Err(VestingError::Unauthorized);
    }
    if depositor.amount < total_amount {
        return Err(VestingError::InsufficientFunds);
    }
    Ok(())
}

/// Checks the numbers of a new schedule.
pub fn check_terms(
    config: &ProgramConfig,
    schedule_id: u64,
    total_amount: u64,
    cliff: i64,
    start: i64,
    end: i64,
) -> (r: Result<(), VestingError>)
    ensures
        match terms_refusal(*config, schedule_id, total_amount, cliff, start, end) {
            Some(e) => r == Err::<(), VestingError>(e),
            None => r is Ok,
        },
{
    if total_amount == 0 {
        return Err(VestingError::InvalidAmount);
    }
    if !(cliff <= start && start < end) {
        return Err(VestingError::InvalidTimestamps);
    }
    if schedule_id != config.total_schedules {
        return Err(VestingError::ScheduleIdConflict);
    }
    if config.total_schedules == u64::MAX {
        return Err(VestingError::MathOverflow);
    }
    Ok(())
}

impl CreateVestingSchedule {
    /// The first reason to refuse the call, if there is one.
    pub open spec fn refusal(self, schedule_id: u64, params: CreateVestingScheduleParams) -> Option<
        VestingError,
    > {
        match funding_refusal(
            self.program_config,
            self.admin,
            self.mint,
            self.depositor_token_account,
            params.total_amount,
        ) {
            Some(e) => Some(e),
            None => terms_refusal(
                self.program_config,
                schedule_id,
                params.total_amount,
                params.cliff_timestamp,
                params.vesting_start_timestamp,
                params.vesting_end_timestamp,
            ),
        }
    }

    /// The schedule record that a successful call writes.
    pub open spec fn new_schedule(self, schedule_id: u64, params: CreateVestingScheduleParams)
        -> VestingSchedule {
        VestingSchedule {
            schedule_id,
            recipient: Address::null(),
            recipient_token_account: Address::null(),
            mint: self.mint,
            token_vault: self.vesting_vault,
            depositor: self.admin,
            total_amount: params.total_amount,
            cliff_timestamp: params.cliff_timestamp,
            vesting_start_timestamp: params.vesting_start_timestamp,
            vesting_end_timestamp: params.vesting_end_timestamp,
            amount_transferred: 0,
            source_category: params.source_category,
            is_initialized: true,
            bump: self.vesting_schedule_bump,
        }
    }

    /// The deposit and the audit record of a successful call.
    pub open spec fn funding(self, schedule_id: u64, params: CreateVestingScheduleParams)
        -> ScheduleFunding {
        ScheduleFunding {
            transfer: TransferInstruction {
                from: self.depositor_token_account.key,
                to: self.vesting_vault,
                authority: self.admin,
                amount: params.total_amount,
            },
            event: VestingScheduleCreated {
                schedule_id,
                recipient: Address::null(),
                mint: self.mint,
                total_amount: params.total_amount,
                cliff_timestamp: params.cliff_timestamp,
                vesting_start_timestamp: params.vesting_start_timestamp,
                vesting_end_timestamp: params.vesting_end_timestamp,
                source_category: params.source_category,
                depositor: self.admin,
            },
        }
    }
}

/// Creates the schedule `schedule_id` on behalf of the signer.
///
/// Refused unless the signer is the admin, the funding account holds the
/// asset, belongs to the signer and covers the allocation, the allocation is
/// positive, the timestamps are ordered and `schedule_id` is the next
/// identifier. A refused call changes nothing. A successful one fills in the
/// schedule record with nothing released and no recipient, counts one more
/// schedule, and returns the deposit to perform and the audit record.
pub fn handler(
    ctx: &mut CreateVestingSchedule,
    schedule_id: u64,
    params: CreateVestingScheduleParams,
) -> (r: Result<ScheduleFunding, VestingError>)
    ensures
        match old(ctx).refusal(schedule_id, params) {
            Some(e) => r == Err::<ScheduleFunding, VestingError>(e) && *final(ctx) == *old(ctx),
            None => {
                &&& r == Ok::<ScheduleFunding, VestingError>(old(ctx).funding(schedule_id, params))
                &&& *final(ctx) == (CreateVestingSchedule {
                    program_config: ProgramConfig {
                        total_schedules: (schedule_id + 1) as u64,
                        ..old(ctx).program_config
                    },
                    vesting_schedule: old(ctx).new_schedule(schedule_id, params),
                    ..*old(ctx)
                })
                &&& final(ctx).vesting_schedule.wf()
            },
        },
{
    match check_funding(
        &ctx.program_config,
        &ctx.admin,
        &ctx.mint,
        &ctx.depositor_token_account,
        params.total_amount,
    ) {
        Err(e) => {
            return Err(e);
        },
        Ok(_) => {},
    }
    match check_terms(
        &ctx.program_config,
        schedule_id,
        params.total_amount,
        params.cliff_timestamp,
        params.vesting_start_timestamp,
        params.vesting_end_timestamp,
    ) {
        Err(e) => {
            return Err(e);
        },
        Ok(_) => {},
    }
    let recipient = Address::unset();
    let recipient_token_account = Address::unset();
    let mint = ctx.mint;
    let vault = ctx.vesting_vault;
    let admin = ctx.admin;
    let bump = ctx.vesting_schedule_bump;
    let _ = ctx.vesting_schedule.init(
        schedule_id,
        recipient,
        recipient_token_account,
        mint,
        vault,
        admin,
        params.total_amount,
        params.cliff_timestamp,
        params.vesting_start_timestamp,
        params.vesting_end_timestamp,
        params.source_category,
        bump,
    );
    let _ = ctx.program_config.increment_total_schedules();
    Ok(
        ScheduleFunding {
            transfer: TransferInstruction {
                from: ctx.depositor_token_account.key,
                to: vault,
                authority: admin,
                amount: params.total_amount,
            },
            event: VestingScheduleCreated {
                schedule_id,
                recipient,
                mint,
                total_amount: params.total_amount,
                cliff_timestamp: params.cliff_timestamp,
                vesting_start_timestamp: params.vesting_start_timestamp,
                vesting_end_timestamp: params.vesting_end_timestamp,
                source_category: params.source_category,
                depositor: admin,
            },
        },
    )
}

} // verus!
