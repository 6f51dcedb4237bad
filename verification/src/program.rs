//! The operations of the direct settlement mode, in which each schedule
//! releases to the token account of its own recipient.

use vstd::prelude::*;
use crate::address::Address;
use crate::derivation::{holds_identity, is_schedule_identity, schedule_address};
use crate::errors::VestingError;
use crate::events::{ProgramInitialized, TokensReleased, VestingScheduleCreated};
use crate::instructions::create_vesting_schedule::{
    check_funding,
    check_terms,
    funding_refusal,
    terms_refusal,
    ScheduleFunding,
};
use crate::instructions::crank_vesting_schedules::smaller;
use crate::state::program_config::{ProgramConfig, RotationState};
use crate::state::vesting_schedule::{lemma_unlocked_bounded, SourceCategory, VestingSchedule};
use crate::token::{TokenAccountState, TransferInstruction};

verus! {

/// The parameters of a new schedule with a recipient.
#[derive(Clone, Copy, Debug, PartialEq, Eq)]
pub struct CreateVestingScheduleParams {
    pub recipient: Address,
    pub total_amount: u64,
    pub cliff_timestamp: i64,
    pub vesting_start_timestamp: i64,
    pub vesting_end_timestamp: i64,
    pub source_category: SourceCategory,
}

/// The accounts of the initializing call.
#[derive(Clone, Copy, Debug, PartialEq, Eq)]
pub struct Initialize {
    /// The identity that signed the call and becomes the admin.
    pub admin: Address,
    /// Identity of the configuration record.
    pub program_config_key: Address,
    /// Derivation witness of that identity.
    pub program_config_bump: u8,
    /// The configuration record, which the call fills in.
    pub program_config: ProgramConfig,
}

/// The accounts of a creating call.
#[derive(Clone, Copy, Debug, PartialEq, Eq)]
pub struct CreateVestingSchedule {
    /// The identity that signed the call.
    pub admin: Address,
    /// The configuration record.
    pub program_config: ProgramConfig,
    /// The schedule record, which the call fills in.
    pub vesting_schedule: VestingSchedule,
    /// Derivation witness of the schedule's identity.
    pub vesting_schedule_bump: u8,
    /// The asset to vest.
    pub mint: Address,
    /// The account that funds the schedule.
    pub depositor_token_account: TokenAccountState,
    /// The account that will receive what is released.
    pub recipient_token_account: TokenAccountState,
    /// Identity of the schedule's new vault.
    pub vesting_vault: Address,
}

/// The accounts of a settling call on one schedule.
#[derive(Clone, Copy, Debug, PartialEq, Eq)]
pub struct CrankVestingSchedules {
    /// Identity of the program, from which schedule identities are derived.
    pub program_id: Address,
    /// The configuration record.
    pub program_config: ProgramConfig,
    /// Identity of the schedule record.
    pub vesting_schedule_key: Address,
    /// The schedule record.
    pub vesting_schedule: VestingSchedule,
    /// The schedule's vault.
    pub vesting_vault: TokenAccountState,
    /// The account presented as the recipient's.
    pub recipient_token_account: TokenAccountState,
    /// The asset presented.
    pub mint: Address,
}

/// The accounts of a closing call.
#[derive(Clone, Copy, Debug, PartialEq, Eq)]
pub struct CloseVestingSchedule {
    /// Identity of the program, from which schedule identities are derived.
    pub program_id: Address,
    /// The signer, who receives what the closed accounts held in storage fees.
    pub beneficiary: Address,
    /// Identity of the schedule record.
    pub vesting_schedule_key: Address,
    /// The schedule record.
    pub vesting_schedule: VestingSchedule,
    /// The schedule's vault.
    pub vesting_vault: TokenAccountState,
}

/// What a settling call on one schedule did.
#[derive(Clone, Copy, Debug, PartialEq, Eq)]
pub enum CrankOutcome {
    /// The whole allocation had been released before; nothing is recorded.
    AlreadyComplete,
    /// Nothing could be moved; the audit record has amount zero.
    NothingReleased(TokensReleased),
    /// Tokens are released: the transfer to perform and its audit record.
    Released { transfer: TransferInstruction, event: TokensReleased },
}

/// A request to the custody service to close an empty vault.
#[derive(Clone, Copy, Debug, PartialEq, Eq)]
pub struct VaultClosure {
    /// The vault to close.
    pub account: Address,
    /// Who receives its storage fees.
    pub destination: Address,
    /// The identity that authorizes the closing: the schedule itself.
    pub authority: Address,
}

impl CreateVestingSchedule {
    /// The first reason to refuse the call, if there is one.
    pub open spec fn refusal(self, schedule_id: u64, params: CreateVestingScheduleParams) -> Option<
        VestingError,
    > {
        match funding_refusal(
            self.program_config,
            self.admin,
            self.mint,
            self.depositor_token_account,
            params.total_amount,
        ) {
            Some(e) => Some(e),
            None => if self.recipient_token_account.mint != self.mint {
                Some(VestingError::RecipientAccountMintMismatch)
            } else if params.total_amount == 0 {
                Some(VestingError::InvalidAmount)
            } else if params.recipient.is_unset() {
                Some(VestingError::InvalidRecipient)
            } else if self.recipient_token_account.owner != params.recipient {
                Some(VestingError::RecipientAccountOwnerMismatch)
            } else {
                terms_refusal(
                    self.program_config,
                    schedule_id,
                    params.total_amount,
                    params.cliff_timestamp,
                    params.vesting_start_timestamp,
                    params.vesting_end_timestamp,
                )
            },
        }
    }

    /// The schedule record that a successful call writes.
    pub open spec fn new_schedule(self, schedule_id: u64, params: CreateVestingScheduleParams)
        -> VestingSchedule {
        VestingSchedule {
            schedule_id,
            recipient: params.recipient,
            recipient_token_account: self.recipient_token_account.key,
            mint: self.mint,
            token_vault: self.vesting_vault,
            depositor: self.admin,
            total_amount: params.total_amount,
            cliff_timestamp: params.cliff_timestamp,
            vesting_start_timestamp: params.vesting_start_timestamp,
            vesting_end_timestamp: params.vesting_end_timestamp,
            amount_transferred: 0,
            source_category: params.source_category,
            is_initialized: true,
            bump: self.vesting_schedule_bump,
        }
    }

    /// The deposit and the audit record of a successful call.
    pub open spec fn funding(self, schedule_id: u64, params: CreateVestingScheduleParams)
        -> ScheduleFunding {
        ScheduleFunding {
            transfer: TransferInstruction {
                from: self.depositor_token_account.key,
                to: self.vesting_vault,
                authority: self.admin,
                amount: params.total_amount,
            },
            event: VestingScheduleCreated {
                schedule_id,
                recipient: params.recipient,
                mint: self.mint,
                total_amount: params.total_amount,
                cliff_timestamp: params.cliff_timestamp,
                vesting_start_timestamp: params.vesting_start_timestamp,
                vesting_end_timestamp: params.vesting_end_timestamp,
                source_category: params.source_category,
                depositor: self.admin,
            },
        }
    }
}

impl CrankVestingSchedules {
    /// The schedule record is presented under the identity derived from its
    /// identifier and its derivation witness.
    pub open spec fn at_derived_identity(self) -> bool {
        is_schedule_identity(
            self.vesting_schedule_key,
            self.program_id,
            self.vesting_schedule.schedule_id,
            self.vesting_schedule.bump,
        )
    }

    /// The first account presented that is not the one it has to be, as the
    /// error that names it. `at_identity` says whether the schedule record is
    /// presented under its derived identity.
    pub open spec fn account_refusal(self, at_identity: bool) -> Option<VestingError> {
        let schedule = self.vesting_schedule;
        if !at_identity {
            Some(VestingError::InvalidVestingScheduleData)
        } else if self.vesting_vault.owner != self.vesting_schedule_key {
            Some(VestingError::VaultAuthorityMismatch)
        } else if self.vesting_vault.mint != schedule.mint {
            Some(VestingError::MintMismatch)
        } else if schedule.token_vault != self.vesting_vault.key {
            Some(VestingError::VaultMismatch)
        } else if self.recipient_token_account.key != schedule.recipient_token_account {
            Some(VestingError::RecipientAccountMismatch)
        } else if self.recipient_token_account.mint != schedule.mint {
            Some(VestingError::RecipientAccountMintMismatch)
        } else if self.recipient_token_account.owner != schedule.recipient {
            Some(VestingError::RecipientAccountOwnerMismatch)
        } else if self.mint != schedule.mint {
            Some(VestingError::MintMismatch)
        } else {
            None
        }
    }

    /// The first reason to refuse the call, if there is one: an account that
    /// is not the one it has to be, an uninitialized record or vault, or a
    /// linear segment too long to compute on.
    pub open spec fn refusal(self, at_identity: bool, now: i64) -> Option<VestingError> {
        let schedule = self.vesting_schedule;
        if self.account_refusal(at_identity) is Some {
            self.account_refusal(at_identity)
        } else if !schedule.is_initialized {
            Some(VestingError::InvalidVestingScheduleData)
        } else if !self.vesting_vault.is_initialized {
            Some(VestingError::InvalidVaultState)
        } else if schedule.amount_transferred < schedule.total_amount && schedule.span_overflows_at(
            now as int,
        ) {
            Some(VestingError::MathOverflow)
        } else {
            None
        }
    }

    /// The schedule record after a call that is not refused: what is moved is
    /// added to what has been released.
    pub open spec fn schedule_after(self, now: i64) -> VestingSchedule {
        let schedule = self.vesting_schedule;
        if schedule.amount_transferred >= schedule.total_amount {
            schedule
        } else {
            VestingSchedule {
                amount_transferred: (schedule.amount_transferred + self.release_amount(now as int)) as u64,
                ..schedule
            }
        }
    }

    /// The amount that a settlement at `now` moves.
    pub open spec fn release_amount(self, now: int) -> nat {
        smaller(self.vesting_schedule.transferable_at(now), self.vesting_vault.amount as nat)
    }

    /// The audit record of a settlement at `now` that moves `amount`.
    pub open spec fn audit_record(self, amount: nat, now: i64) -> TokensReleased {
        TokensReleased {
            schedule_id: self.vesting_schedule.schedule_id,
            recipient: self.vesting_schedule.recipient,
            mint: self.vesting_schedule.mint,
            amount: amount as u64,
            source_category: self.vesting_schedule.source_category,
            timestamp: now,
            total_released: (self.vesting_schedule.amount_transferred + amount) as u64,
        }
    }

    /// What a call that is not refused does.
    pub open spec fn outcome(self, now: i64) -> CrankOutcome {
        let amount = self.release_amount(now as int);
        if self.vesting_schedule.amount_transferred >= self.vesting_schedule.total_amount {
            CrankOutcome::AlreadyComplete
        } else if amount == 0 {
            CrankOutcome::NothingReleased(self.audit_record(0, now))
        } else {
            CrankOutcome::Released {
                transfer: TransferInstruction {
                    from: self.vesting_vault.key,
                    to: self.recipient_token_account.key,
                    authority: self.vesting_schedule_key,
                    amount: amount as u64,
                },
                event: self.audit_record(amount, now),
            }
        }
    }

    /// Checks that the accounts presented are the ones they have to be, given
    /// the identity `derived` for the schedule.
    pub fn validate(&self, derived: &Option<Address>) -> (r: Result<(), VestingError>)
        ensures
            match self.account_refusal(*derived == Some(self.vesting_schedule_key)) {
                Some(e) => r == Err::<(), VestingError>(e),
                None => r is Ok,
            },
    {
        let schedule = &self.vesting_schedule;
        if !holds_identity(derived, &self.vesting_schedule_key) {
            return Err(VestingError::InvalidVestingScheduleData);
        }
        if !self.vesting_vault.owner.equals(&self.vesting_schedule_key) {
            return Err(VestingError::VaultAuthorityMismatch);
        }
        if !self.vesting_vault.mint.equals(&schedule.mint) {
            return Err(VestingError::MintMismatch);
        }
        if !schedule.token_vault.equals(&self.vesting_vault.key) {
            return Err(VestingError::VaultMismatch);
        }
        if !self.recipient_token_account.key.equals(&schedule.recipient_token_account) {
            return Err(VestingError::RecipientAccountMismatch);
        }
        if !self.recipient_token_account.mint.equals(&schedule.mint) {
            return Err(VestingError::RecipientAccountMintMismatch);
        }
        if !self.recipient_token_account.owner.equals(&schedule.recipient) {
            return Err(VestingError::RecipientAccountOwnerMismatch);
        }
        if !self.mint.equals(&schedule.mint) {
            return Err(VestingError::MintMismatch);
        }
        Ok(())
    }
}

impl CloseVestingSchedule {
    /// The schedule record is presented under the identity derived from its
    /// identifier and its derivation witness.
    pub open spec fn at_derived_identity(self) -> bool {
        is_schedule_identity(
            self.vesting_schedule_key,
            self.program_id,
            self.vesting_schedule.schedule_id,
            self.vesting_schedule.bump,
        )
    }

    /// The first reason to refuse the closing, if there is one. `at_identity`
    /// says whether the schedule record is presented under its derived
    /// identity.
    pub open spec fn refusal(self, at_identity: bool) -> Option<VestingError> {
        if self.vesting_schedule.amount_transferred < self.vesting_schedule.total_amount {
            Some(VestingError::ScheduleNotFullyVested)
        } else if !at_identity {
            Some(VestingError::InvalidVestingScheduleData)
        } else if self.vesting_vault.amount != 0 {
            Some(VestingError::VaultNotEmpty)
        } else if self.vesting_vault.owner != self.vesting_schedule_key {
            Some(VestingError::VaultAuthorityMismatch)
        } else {
            None
        }
    }

    /// The closing of the vault that a call which is not refused asks for.
    pub open spec fn closure(self) -> VaultClosure {
        VaultClosure {
            account: self.vesting_vault.key,
            destination: self.beneficiary,
            authority: self.vesting_schedule_key,
        }
    }
}

/// A schedule settled once, and read again with its vault at the same time,
/// has nothing left to move: a second settlement changes nothing.
pub proof fn lemma_settled_schedule_is_drained(ctx: CrankVestingSchedules, now: i64)
    requires
        ctx.vesting_schedule.amount_transferred <= ctx.vesting_schedule.total_amount,
    ensures
        ({
            let again = CrankVestingSchedules {
                vesting_schedule: ctx.schedule_after(now),
                vesting_vault: TokenAccountState {
                    amount: if ctx.vesting_schedule.amount_transferred
                        >= ctx.vesting_schedule.total_amount {
                        ctx.vesting_vault.amount
                    } else {
                        (ctx.vesting_vault.amount - ctx.release_amount(now as int)) as u64
                    },
                    ..ctx.vesting_vault
                },
                ..ctx
            };
            &&& !(again.outcome(now) is Released)
            &&& again.schedule_after(now) == again.vesting_schedule
            &&& again.vesting_schedule.amount_transferred <= again.vesting_schedule.total_amount
        }),
{
    lemma_unlocked_bounded(
        ctx.vesting_schedule.total_amount as nat,
        ctx.vesting_schedule.cliff_timestamp as int,
        ctx.vesting_schedule.vesting_start_timestamp as int,
        ctx.vesting_schedule.vesting_end_timestamp as int,
        now as int,
    );
}

/// Fills in the configuration record: the signer is the admin, no schedule
/// exists, no collection address is set and none is pending.
pub fn initialize(ctx: &mut Initialize) -> (r: Result<ProgramInitialized, VestingError>)
    ensures
        r == Ok::<ProgramInitialized, VestingError>(
            ProgramInitialized { admin: old(ctx).admin, program_config: old(ctx).program_config_key },
        ),
        final(ctx).admin == old(ctx).admin,
        final(ctx).program_config_key == old(ctx).program_config_key,
        final(ctx).program_config_bump == old(ctx).program_config_bump,
        final(ctx).program_config.admin == old(ctx).admin,
        final(ctx).program_config.bump == old(ctx).program_config_bump,
        final(ctx).program_config.total_schedules == 0,
        final(ctx).program_config.pending_hub is None,
        final(ctx).program_config.hub_update_timelock is None,
        final(ctx).program_config.rotation_state() == RotationState::Unset,
        final(ctx).program_config.wf(),
{
    let admin = ctx.admin;
    let bump = ctx.program_config_bump;
    let _ = ctx.program_config.init(admin, bump);
    Ok(ProgramInitialized { admin, program_config: ctx.program_config_key })
}

/// Creates the schedule `schedule_id` for a recipient, on behalf of the signer.
///
/// Refused unless the signer is the admin, the funding account holds the
/// asset, belongs to the signer and covers the allocation, the recipient's
/// account holds the asset and belongs to the recipient, the recipient is not
/// the null identity, the allocation is positive, the timestamps are ordered
/// and `schedule_id` is the next identifier. A refused call changes nothing. A
/// successful one fills in the schedule record with nothing released and the
/// recipient's account pinned, counts one more schedule, and returns the
/// deposit to perform and the audit record.
pub fn create_vesting_schedule(
    ctx: &mut CreateVestingSchedule,
    schedule_id: u64,
    params: CreateVestingScheduleParams,
) -> (r: Result<ScheduleFunding, VestingError>)
    ensures
        match old(ctx).refusal(schedule_id, params) {
            Some(e) => r == Err::<ScheduleFunding, VestingError>(e) && *final(ctx) == *old(ctx),
            None => {
                &&& r == Ok::<ScheduleFunding, VestingError>(old(ctx).funding(schedule_id, params))
                &&& *final(ctx) == (CreateVestingSchedule {
                    program_config: ProgramConfig {
                        total_schedules: (schedule_id + 1) as u64,
                        ..old(ctx).program_config
                    },
                    vesting_schedule: old(ctx).new_schedule(schedule_id, params),
                    ..*old(ctx)
                })
                &&& final(ctx).vesting_schedule.wf()
            },
        },
{
    match check_funding(
        &ctx.program_config,
        &ctx.admin,
        &ctx.mint,
        &ctx.depositor_token_account,
        params.total_amount,
    ) {
        Err(e) => {
            return Err(e);
        },
        Ok(_) => {},
    }
    if !ctx.recipient_token_account.mint.equals(&ctx.mint) {
        return Err(VestingError::RecipientAccountMintMismatch);
    }
    if params.total_amount == 0 {
        return Err(VestingError::InvalidAmount);
    }
    if params.recipient.is_default() {
        return Err(VestingError::InvalidRecipient);
    }
    if !ctx.recipient_token_account.owner.equals(&params.recipient) {
        return Err(VestingError::RecipientAccountOwnerMismatch);
    }
    match check_terms(
        &ctx.program_config,
        schedule_id,
        params.total_amount,
        params.cliff_timestamp,
        params.vesting_start_timestamp,
        params.vesting_end_timestamp,
    ) {
        Err(e) => {
            return Err(e);
        },
        Ok(_) => {},
    }
    let recipient_token_account = ctx.recipient_token_account.key;
    let mint = ctx.mint;
    let vault = ctx.vesting_vault;
    let admin = ctx.admin;
    let bump = ctx.vesting_schedule_bump;
    let _ = ctx.vesting_schedule.init(
        schedule_id,
        params.recipient,
        recipient_token_account,
        mint,
        vault,
        admin,
        params.total_amount,
        params.cliff_timestamp,
        params.vesting_start_timestamp,
        params.vesting_end_timestamp,
        params.source_category,
        bump,
    );
    let _ = ctx.program_config.increment_total_schedules();
    Ok(
        ScheduleFunding {
            transfer: TransferInstruction {
                from: ctx.depositor_token_account.key,
                to: vault,
                authority: admin,
                amount: params.total_amount,
            },
            event: VestingScheduleCreated {
                schedule_id,
                recipient: params.recipient,
                mint,
                total_amount: params.total_amount,
                cliff_timestamp: params.cliff_timestamp,
                vesting_start_timestamp: params.vesting_start_timestamp,
                vesting_end_timestamp: params.vesting_end_timestamp,
                source_category: params.source_category,
                depositor: admin,
            },
        },
    )
}

/// Settles one schedule at time `now`, releasing to its recipient, where
/// `derived` is the identity that was derived for the schedule.
///
/// Refused where the schedule record is not presented under that identity,
/// where an account presented is not the one pinned on the schedule, where
/// the record or the vault is not initialized, or where the linear segment is
/// too long to compute on. Otherwise what is transferable, as far as the vault
/// holds it, is released and added to what the schedule has released. A call
/// that moves nothing changes nothing.
pub fn settle_schedule(ctx: &mut CrankVestingSchedules, derived: &Option<Address>, now: i64) -> (r:
    Result<CrankOutcome, VestingError>)
    ensures
        match old(ctx).refusal(*derived == Some(old(ctx).vesting_schedule_key), now) {
            Some(e) => r == Err::<CrankOutcome, VestingError>(e) && *final(ctx) == *old(ctx),
            None => {
                &&& r == Ok::<CrankOutcome, VestingError>(old(ctx).outcome(now))
                &&& *final(ctx) == (CrankVestingSchedules {
                    vesting_schedule: old(ctx).schedule_after(now),
                    ..*old(ctx)
                })
            },
        },
        old(ctx).vesting_schedule.amount_transferred <= final(ctx).vesting_schedule.amount_transferred,
        old(ctx).vesting_schedule.wf() ==> final(ctx).vesting_schedule.wf(),
{
    match ctx.validate(derived) {
        Err(e) => {
            return Err(e);
        },
        Ok(_) => {},
    }
    if !ctx.vesting_schedule.is_initialized {
        return Err(VestingError::InvalidVestingScheduleData);
    }
    if !ctx.vesting_vault.is_initialized {
        return Err(VestingError::InvalidVaultState);
    }
    if ctx.vesting_schedule.amount_transferred >= ctx.vesting_schedule.total_amount {
        return Ok(CrankOutcome::AlreadyComplete);
    }
    let transferable: u64 = match ctx.vesting_schedule.get_transferable_amount(now) {
        Ok(t) => t,
        Err(e) => {
            return Err(e);
        },
    };
    let actual: u64 = if transferable <= ctx.vesting_vault.amount {
        transferable
    } else {
        ctx.vesting_vault.amount
    };
    let total_released: u64 = match ctx.vesting_schedule.amount_transferred.checked_add(actual) {
        Some(t) => t,
        None => {
            return Err(VestingError::MathOverflow);
        },
    };
    let event = TokensReleased {
        schedule_id: ctx.vesting_schedule.schedule_id,
        recipient: ctx.vesting_schedule.recipient,
        mint: ctx.vesting_schedule.mint,
        amount: actual,
        source_category: ctx.vesting_schedule.source_category,
        timestamp: now,
        total_released,
    };
    if actual == 0 {
        return Ok(CrankOutcome::NothingReleased(event));
    }
    ctx.vesting_schedule.amount_transferred = total_released;
    Ok(
        CrankOutcome::Released {
            transfer: TransferInstruction {
                from: ctx.vesting_vault.key,
                to: ctx.recipient_token_account.key,
                authority: ctx.vesting_schedule_key,
                amount: actual,
            },
            event,
        },
    )
}

/// Settles one schedule at time `now`, releasing to its recipient.
///
/// The identity of the schedule is derived from its identifier and its
/// derivation witness; the rest is `settle_schedule`.
pub fn crank_vesting_schedule(ctx: &mut CrankVestingSchedules, now: i64) -> (r: Result<
    CrankOutcome,
    VestingError,
>)
    ensures
        match old(ctx).refusal(old(ctx).at_derived_identity(), now) {
            Some(e) => r == Err::<CrankOutcome, VestingError>(e) && *final(ctx) == *old(ctx),
            None => {
                &&& r == Ok::<CrankOutcome, VestingError>(old(ctx).outcome(now))
                &&& *final(ctx) == (CrankVestingSchedules {
                    vesting_schedule: old(ctx).schedule_after(now),
                    ..*old(ctx)
                })
            },
        },
        old(ctx).vesting_schedule.amount_transferred <= final(ctx).vesting_schedule.amount_transferred,
        old(ctx).vesting_schedule.wf() ==> final(ctx).vesting_schedule.wf(),
{
    let derived = schedule_address(
        &ctx.program_id,
        ctx.vesting_schedule.schedule_id,
        ctx.vesting_schedule.bump,
    );
    settle_schedule(ctx, &derived, now)
}

/// Closes a schedule and its vault on behalf of the signer, where `derived`
/// is the identity that was derived for the schedule.
///
/// Refused while the schedule has not released its whole allocation, where
/// the schedule record is not presented under that identity, while the vault
/// holds tokens, or where the vault is not under the schedule's authority.
/// Otherwise returns the closing of the vault to perform.
pub fn close_schedule(ctx: &CloseVestingSchedule, derived: &Option<Address>) -> (r: Result<
    VaultClosure,
    VestingError,
>)
    ensures
        match ctx.refusal(*derived == Some(ctx.vesting_schedule_key)) {
            Some(e) => r == Err::<VaultClosure, VestingError>(e),
            None => r == Ok::<VaultClosure, VestingError>(ctx.closure()),
        },
{
    if ctx.vesting_schedule.amount_transferred < ctx.vesting_schedule.total_amount {
        return Err(VestingError::ScheduleNotFullyVested);
    }
    if !holds_identity(derived, &ctx.vesting_schedule_key) {
        return Err(VestingError::InvalidVestingScheduleData);
    }
    if ctx.vesting_vault.amount != 0 {
        return Err(VestingError::VaultNotEmpty);
    }
    if !ctx.vesting_vault.owner.equals(&ctx.vesting_schedule_key) {
        return Err(VestingError::VaultAuthorityMismatch);
    }
    Ok(
        VaultClosure {
            account: ctx.vesting_vault.key,
            destination: ctx.beneficiary,
            authority: ctx.vesting_schedule_key,
        },
    )
}

/// Closes a schedule and its vault on behalf of the signer.
///
/// The identity of the schedule is derived from its identifier and its
/// derivation witness; the rest is `close_schedule`.
pub fn close_vesting_schedule(ctx: &CloseVestingSchedule) -> (r: Result<VaultClosure, VestingError>)
    ensures
        match ctx.refusal(ctx.at_derived_identity()) {
            Some(e) => r == Err::<VaultClosure, VestingError>(e),
            None => r == Ok::<VaultClosure, VestingError>(ctx.closure()),
        },
{
    let derived = schedule_address(
        &ctx.program_id,
        ctx.vesting_schedule.schedule_id,
        ctx.vesting_schedule.bump,
    );
    close_schedule(ctx, &derived)
}

} // verus!
