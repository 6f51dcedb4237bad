use anchor_lang::prelude::Pubkey;
use haio_vesting::address::Address;
use haio_vesting::program::{close_schedule, settle_schedule};
use haio_vesting::errors::VestingError;
use haio_vesting::events::{ProgramInitialized, TokensReleased, VestingScheduleCreated};
use haio_vesting::instructions::create_vesting_schedule::ScheduleFunding;
use haio_vesting::program::{
    close_vesting_schedule, crank_vesting_schedule, create_vesting_schedule, initialize,
    CloseVestingSchedule, CrankOutcome, CrankVestingSchedules, CreateVestingSchedule,
    CreateVestingScheduleParams, Initialize, VaultClosure,
};
use haio_vesting::state::program_config::ProgramConfig;
use haio_vesting::state::vesting_schedule::{SourceCategory, VestingSchedule};
use haio_vesting::token::{TokenAccountState, TransferInstruction};

fn addr(n: u8) -> Address {
    Address::new([n; 32])
}

const ADMIN: u8 = 1;
const MINT: u8 = 4;
const RECIPIENT: u8 = 20;
const RECIPIENT_ACCOUNT: u8 = 21;
const SCHEDULE: u8 = 30;
const VAULT: u8 = 31;
const PROGRAM: u8 = 40;

/// The identity and the derivation witness that the platform finds for schedule 0.
fn derived_schedule() -> (Address, u8) {
    let program = Pubkey::new_from_array([PROGRAM; 32]);
    let id: u64 = 0;
    let (key, bump) =
        Pubkey::find_program_address(&["vesting_schedule".as_bytes(), &id.to_le_bytes()], &program);
    (Address::new(key.to_bytes()), bump)
}

fn config(total_schedules: u64) -> ProgramConfig {
    ProgramConfig {
        admin: addr(ADMIN),
        distribution_hub: Address::unset(),
        pending_hub: None,
        hub_update_timelock: None,
        total_schedules,
        bump: 255,
    }
}

fn schedule(released: u64) -> VestingSchedule {
    VestingSchedule {
        schedule_id: 0,
        recipient: addr(RECIPIENT),
        recipient_token_account: addr(RECIPIENT_ACCOUNT),
        mint: addr(MINT),
        token_vault: addr(VAULT),
        depositor: addr(ADMIN),
        total_amount: 1_000,
        cliff_timestamp: 100,
        vesting_start_timestamp: 100,
        vesting_end_timestamp: 200,
        amount_transferred: released,
        source_category: SourceCategory::Strategic,
        is_initialized: true,
        bump: 250,
    }
}

fn account(key: u8, owner: u8, amount: u64) -> TokenAccountState {
    TokenAccountState { key: addr(key), mint: addr(MINT), owner: addr(owner), amount, is_initialized: true }
}

fn crank(released: u64, balance: u64) -> CrankVestingSchedules {
    CrankVestingSchedules {
        program_id: addr(PROGRAM),
        program_config: config(1),
        vesting_schedule_key: addr(SCHEDULE),
        vesting_schedule: schedule(released),
        vesting_vault: account(VAULT, SCHEDULE, balance),
        recipient_token_account: account(RECIPIENT_ACCOUNT, RECIPIENT, 0),
        mint: addr(MINT),
    }
}

fn event(amount: u64, total: u64, now: i64) -> TokensReleased {
    TokensReleased {
        schedule_id: 0,
        recipient: addr(RECIPIENT),
        mint: addr(MINT),
        amount,
        source_category: SourceCategory::Strategic,
        timestamp: now,
        total_released: total,
    }
}

fn creation() -> CreateVestingSchedule {
    CreateVestingSchedule {
        admin: addr(ADMIN),
        program_config: config(4),
        vesting_schedule: schedule(0),
        vesting_schedule_bump: 249,
        mint: addr(MINT),
        depositor_token_account: account(5, ADMIN, 5_000),
        recipient_token_account: account(RECIPIENT_ACCOUNT, RECIPIENT, 0),
        vesting_vault: addr(VAULT),
    }
}

fn params() -> CreateVestingScheduleParams {
    CreateVestingScheduleParams {
        recipient: addr(RECIPIENT),
        total_amount: 2_000,
        cliff_timestamp: 10,
        vesting_start_timestamp: 20,
        vesting_end_timestamp: 30,
        source_category: SourceCategory::Foundation,
    }
}

#[test]
fn direct_initialize() {
    let mut ctx = Initialize {
        admin: addr(ADMIN),
        program_config_key: addr(8),
        program_config_bump: 200,
        program_config: config(12),
    };
    assert_eq!(
        initialize(&mut ctx),
        Ok(ProgramInitialized { admin: addr(ADMIN), program_config: addr(8) })
    );
    assert_eq!(ctx.program_config.total_schedules, 0);
    assert_eq!(ctx.program_config.bump, 200);
    assert_eq!(ctx.program_config.admin, addr(ADMIN));
}

#[test]
fn direct_creation_pins_the_recipient() {
    let mut ctx = creation();
    assert_eq!(
        create_vesting_schedule(&mut ctx, 4, params()),
        Ok(ScheduleFunding {
            transfer: TransferInstruction {
                from: addr(5),
                to: addr(VAULT),
                authority: addr(ADMIN),
                amount: 2_000,
            },
            event: VestingScheduleCreated {
                schedule_id: 4,
                recipient: addr(RECIPIENT),
                mint: addr(MINT),
                total_amount: 2_000,
                cliff_timestamp: 10,
                vesting_start_timestamp: 20,
                vesting_end_timestamp: 30,
                source_category: SourceCategory::Foundation,
                depositor: addr(ADMIN),
            },
        })
    );
    assert_eq!(ctx.program_config.total_schedules, 5);
    assert_eq!(ctx.vesting_schedule.recipient, addr(RECIPIENT));
    assert_eq!(ctx.vesting_schedule.recipient_token_account, addr(RECIPIENT_ACCOUNT));
    assert_eq!(ctx.vesting_schedule.amount_transferred, 0);
    assert_eq!(ctx.vesting_schedule.total_amount, 2_000);
    assert_eq!(ctx.vesting_schedule.bump, 249);
    assert!(ctx.vesting_schedule.is_initialized);
}

#[test]
fn direct_creation_refusals() {
    let mut ctx = creation();
    let before = ctx;
    assert_eq!(create_vesting_schedule(&mut ctx, 5, params()), Err(VestingError::ScheduleIdConflict));
    assert_eq!(ctx, before);

    let mut null = params();
    null.recipient = Address::unset();
    assert_eq!(create_vesting_schedule(&mut ctx, 4, null), Err(VestingError::InvalidRecipient));

    let mut other = params();
    other.recipient = addr(99);
    assert_eq!(
        create_vesting_schedule(&mut ctx, 4, other),
        Err(VestingError::RecipientAccountOwnerMismatch)
    );

    let mut zero = params();
    zero.total_amount = 0;
    assert_eq!(create_vesting_schedule(&mut ctx, 4, zero), Err(VestingError::InvalidAmount));

    let mut unordered = params();
    unordered.vesting_start_timestamp = 30;
    assert_eq!(create_vesting_schedule(&mut ctx, 4, unordered), Err(VestingError::InvalidTimestamps));

    let mut wrong_mint = creation();
    wrong_mint.recipient_token_account.mint = addr(98);
    assert_eq!(
        create_vesting_schedule(&mut wrong_mint, 4, params()),
        Err(VestingError::RecipientAccountMintMismatch)
    );

    let mut stranger = creation();
    stranger.admin = addr(97);
    assert_eq!(create_vesting_schedule(&mut stranger, 4, params()), Err(VestingError::Unauthorized));

    let mut poor = creation();
    poor.depositor_token_account.amount = 1_999;
    assert_eq!(
        create_vesting_schedule(&mut poor, 4, params()),
        Err(VestingError::InsufficientFunds)
    );
    assert_eq!(ctx, before);
}

#[test]
fn direct_settlement_releases_to_the_recipient() {
    let mut ctx = crank(0, 1_000);
    assert_eq!(
        settle_schedule(&mut ctx, &Some(addr(SCHEDULE)), 150),
        Ok(CrankOutcome::Released {
            transfer: TransferInstruction {
                from: addr(VAULT),
                to: addr(RECIPIENT_ACCOUNT),
                authority: addr(SCHEDULE),
                amount: 500,
            },
            event: event(500, 500, 150),
        })
    );
    assert_eq!(ctx.vesting_schedule.amount_transferred, 500);

    ctx.vesting_vault.amount = 500;
    let settled = ctx;
    assert_eq!(
        settle_schedule(&mut ctx, &Some(addr(SCHEDULE)), 150),
        Ok(CrankOutcome::NothingReleased(event(0, 500, 150)))
    );
    assert_eq!(ctx, settled);

    assert_eq!(
        settle_schedule(&mut ctx, &Some(addr(SCHEDULE)), 1_000),
        Ok(CrankOutcome::Released {
            transfer: TransferInstruction {
                from: addr(VAULT),
                to: addr(RECIPIENT_ACCOUNT),
                authority: addr(SCHEDULE),
                amount: 500,
            },
            event: event(500, 1_000, 1_000),
        })
    );
    ctx.vesting_vault.amount = 0;
    assert_eq!(settle_schedule(&mut ctx, &Some(addr(SCHEDULE)), 1_000), Ok(CrankOutcome::AlreadyComplete));
    assert_eq!(ctx.vesting_schedule.amount_transferred, 1_000);
}

#[test]
fn direct_settlement_with_nothing_to_move() {
    let mut early = crank(0, 1_000);
    let before = early;
    assert_eq!(
        settle_schedule(&mut early, &Some(addr(SCHEDULE)), 100),
        Ok(CrankOutcome::NothingReleased(event(0, 0, 100)))
    );
    assert_eq!(early, before);

    let mut drained = crank(100, 0);
    assert_eq!(
        settle_schedule(&mut drained, &Some(addr(SCHEDULE)), 150),
        Ok(CrankOutcome::NothingReleased(event(0, 100, 150)))
    );
    assert_eq!(drained.vesting_schedule.amount_transferred, 100);

    let mut short = crank(100, 30);
    assert_eq!(
        settle_schedule(&mut short, &Some(addr(SCHEDULE)), 150),
        Ok(CrankOutcome::Released {
            transfer: TransferInstruction {
                from: addr(VAULT),
                to: addr(RECIPIENT_ACCOUNT),
                authority: addr(SCHEDULE),
                amount: 30,
            },
            event: event(30, 130, 150),
        })
    );
}

#[test]
fn direct_settlement_refusals() {
    let mut c = crank(0, 1_000);
    c.vesting_vault.owner = addr(90);
    let before = c;
    assert_eq!(settle_schedule(&mut c, &Some(addr(SCHEDULE)), 150), Err(VestingError::VaultAuthorityMismatch));
    assert_eq!(c, before);
    assert_eq!(c.validate(&Some(addr(SCHEDULE))), Err(VestingError::VaultAuthorityMismatch));

    let mut c = crank(0, 1_000);
    c.vesting_vault.key = addr(91);
    assert_eq!(settle_schedule(&mut c, &Some(addr(SCHEDULE)), 150), Err(VestingError::VaultMismatch));

    let mut c = crank(0, 1_000);
    c.vesting_vault.mint = addr(92);
    assert_eq!(settle_schedule(&mut c, &Some(addr(SCHEDULE)), 150), Err(VestingError::MintMismatch));

    let mut c = crank(0, 1_000);
    c.recipient_token_account.key = addr(93);
    assert_eq!(settle_schedule(&mut c, &Some(addr(SCHEDULE)), 150), Err(VestingError::RecipientAccountMismatch));

    let mut c = crank(0, 1_000);
    c.recipient_token_account.mint = addr(94);
    assert_eq!(settle_schedule(&mut c, &Some(addr(SCHEDULE)), 150), Err(VestingError::RecipientAccountMintMismatch));

    let mut c = crank(0, 1_000);
    c.recipient_token_account.owner = addr(95);
    assert_eq!(settle_schedule(&mut c, &Some(addr(SCHEDULE)), 150), Err(VestingError::RecipientAccountOwnerMismatch));

    let mut c = crank(0, 1_000);
    c.mint = addr(96);
    assert_eq!(settle_schedule(&mut c, &Some(addr(SCHEDULE)), 150), Err(VestingError::MintMismatch));

    let mut c = crank(0, 1_000);
    c.vesting_schedule.is_initialized = false;
    assert_eq!(settle_schedule(&mut c, &Some(addr(SCHEDULE)), 150), Err(VestingError::InvalidVestingScheduleData));

    let mut c = crank(0, 1_000);
    c.vesting_vault.is_initialized = false;
    assert_eq!(settle_schedule(&mut c, &Some(addr(SCHEDULE)), 150), Err(VestingError::InvalidVaultState));

    let mut c = crank(0, 1_000);
    c.vesting_schedule.cliff_timestamp = i64::MIN;
    c.vesting_schedule.vesting_start_timestamp = i64::MIN;
    c.vesting_schedule.vesting_end_timestamp = i64::MAX;
    let before = c;
    assert_eq!(settle_schedule(&mut c, &Some(addr(SCHEDULE)), 150), Err(VestingError::MathOverflow));
    assert_eq!(c, before);
    assert_eq!(crank(0, 1_000).validate(&Some(addr(SCHEDULE))), Ok(()));
}

#[test]
fn closing_needs_a_finished_schedule_and_an_empty_vault() {
    let done = CloseVestingSchedule {
        program_id: addr(PROGRAM),
        beneficiary: addr(ADMIN),
        vesting_schedule_key: addr(SCHEDULE),
        vesting_schedule: schedule(1_000),
        vesting_vault: account(VAULT, SCHEDULE, 0),
    };
    assert_eq!(
        close_schedule(&done, &Some(addr(SCHEDULE))),
        Ok(VaultClosure { account: addr(VAULT), destination: addr(ADMIN), authority: addr(SCHEDULE) })
    );

    let mut unfinished = done;
    unfinished.vesting_schedule.amount_transferred = 999;
    assert_eq!(close_schedule(&unfinished, &Some(addr(SCHEDULE))), Err(VestingError::ScheduleNotFullyVested));

    let mut holding = done;
    holding.vesting_vault.amount = 1;
    assert_eq!(close_schedule(&holding, &Some(addr(SCHEDULE))), Err(VestingError::VaultNotEmpty));

    let mut foreign = done;
    foreign.vesting_vault.owner = addr(60);
    assert_eq!(close_schedule(&foreign, &Some(addr(SCHEDULE))), Err(VestingError::VaultAuthorityMismatch));
}

#[test]
fn settlement_is_refused_under_a_foreign_identity() {
    let mut c = crank(0, 1_000);
    let before = c;
    assert_eq!(
        settle_schedule(&mut c, &None, 150),
        Err(VestingError::InvalidVestingScheduleData)
    );
    assert_eq!(
        settle_schedule(&mut c, &Some(addr(77)), 150),
        Err(VestingError::InvalidVestingScheduleData)
    );
    assert_eq!(c, before);
    assert_eq!(c.validate(&None), Err(VestingError::InvalidVestingScheduleData));

    let done = CloseVestingSchedule {
        program_id: addr(PROGRAM),
        beneficiary: addr(ADMIN),
        vesting_schedule_key: addr(SCHEDULE),
        vesting_schedule: schedule(1_000),
        vesting_vault: account(VAULT, SCHEDULE, 0),
    };
    assert_eq!(close_schedule(&done, &None), Err(VestingError::InvalidVestingScheduleData));
    assert_eq!(
        close_schedule(&done, &Some(addr(78))),
        Err(VestingError::InvalidVestingScheduleData)
    );
    let mut unfinished = done;
    unfinished.vesting_schedule.amount_transferred = 1;
    assert_eq!(close_schedule(&unfinished, &None), Err(VestingError::ScheduleNotFullyVested));
}

#[test]
fn settlement_derives_the_identity_of_the_schedule() {
    let (key, bump) = derived_schedule();
    let mut c = crank(0, 1_000);
    c.vesting_schedule_key = key;
    c.vesting_schedule.bump = bump;
    c.vesting_vault.owner = key;
    assert_eq!(
        crank_vesting_schedule(&mut c, 150),
        Ok(CrankOutcome::Released {
            transfer: TransferInstruction {
                from: addr(VAULT),
                to: addr(RECIPIENT_ACCOUNT),
                authority: key,
                amount: 500,
            },
            event: event(500, 500, 150),
        })
    );
    assert_eq!(c.vesting_schedule.amount_transferred, 500);

    let mut other_id = c;
    other_id.vesting_schedule.schedule_id = 1;
    assert_eq!(
        crank_vesting_schedule(&mut other_id, 160),
        Err(VestingError::InvalidVestingScheduleData)
    );

    let mut other_program = c;
    other_program.program_id = addr(PROGRAM + 1);
    assert_eq!(
        crank_vesting_schedule(&mut other_program, 160),
        Err(VestingError::InvalidVestingScheduleData)
    );

    let mut not_derived = crank(0, 1_000);
    assert_eq!(
        crank_vesting_schedule(&mut not_derived, 150),
        Err(VestingError::InvalidVestingScheduleData)
    );
}

#[test]
fn closing_derives_the_identity_of_the_schedule() {
    let (key, bump) = derived_schedule();
    let mut done = CloseVestingSchedule {
        program_id: addr(PROGRAM),
        beneficiary: addr(ADMIN),
        vesting_schedule_key: key,
        vesting_schedule: schedule(1_000),
        vesting_vault: TokenAccountState {
            key: addr(VAULT),
            mint: addr(MINT),
            owner: key,
            amount: 0,
            is_initialized: true,
        },
    };
    done.vesting_schedule.bump = bump;
    assert_eq!(
        close_vesting_schedule(&done),
        Ok(VaultClosure { account: addr(VAULT), destination: addr(ADMIN), authority: key })
    );
    done.vesting_schedule_key = addr(SCHEDULE);
    done.vesting_vault.owner = addr(SCHEDULE);
    assert_eq!(close_vesting_schedule(&done), Err(VestingError::InvalidVestingScheduleData));
}
