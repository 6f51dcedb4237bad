use haio_vesting::address::Address;
use haio_vesting::errors::VestingError;
use haio_vesting::events::TokensReleased;
use haio_vesting::instructions::crank_vesting_schedules::{
    handler, CrankVestingSchedules, PairOutcome, SettlementPair, SkipReason,
};
use haio_vesting::state::program_config::ProgramConfig;
use haio_vesting::state::vesting_schedule::{SourceCategory, VestingSchedule};
use haio_vesting::token::{TokenAccountState, TransferInstruction};

fn addr(n: u8) -> Address {
    Address::new([n; 32])
}

const ADMIN: u8 = 1;
const HUB: u8 = 2;
const HUB_ACCOUNT: u8 = 3;
const MINT: u8 = 4;

fn context() -> CrankVestingSchedules {
    CrankVestingSchedules {
        program_config: ProgramConfig {
            admin: addr(ADMIN),
            distribution_hub: addr(HUB),
            pending_hub: None,
            hub_update_timelock: None,
            total_schedules: 3,
            bump: 255,
        },
        distribution_hub_token_account: TokenAccountState {
            key: addr(HUB_ACCOUNT),
            mint: addr(MINT),
            owner: addr(HUB),
            amount: 0,
            is_initialized: true,
        },
        mint: addr(MINT),
    }
}

/// Schedule `n`: 1000 tokens, linear from 100 to 200, in a vault that holds `balance`.
fn pair(n: u8, released: u64, balance: u64) -> SettlementPair {
    SettlementPair {
        schedule_key: addr(100 + n),
        derived_key: Some(addr(100 + n)),
        schedule: VestingSchedule {
            schedule_id: n as u64,
            recipient: Address::unset(),
            recipient_token_account: Address::unset(),
            mint: addr(MINT),
            token_vault: addr(200 + n),
            depositor: addr(ADMIN),
            total_amount: 1_000,
            cliff_timestamp: 100,
            vesting_start_timestamp: 100,
            vesting_end_timestamp: 200,
            amount_transferred: released,
            source_category: SourceCategory::Public,
            is_initialized: true,
            bump: 254,
        },
        vault: TokenAccountState {
            key: addr(200 + n),
            mint: addr(MINT),
            owner: addr(100 + n),
            amount: balance,
            is_initialized: true,
        },
    }
}

fn released(n: u8, amount: u64, total: u64, now: i64) -> PairOutcome {
    PairOutcome::Released {
        transfer: TransferInstruction {
            from: addr(200 + n),
            to: addr(HUB_ACCOUNT),
            authority: addr(100 + n),
            amount,
        },
        event: TokensReleased {
            schedule_id: n as u64,
            recipient: addr(HUB),
            mint: addr(MINT),
            amount,
            source_category: SourceCategory::Public,
            timestamp: now,
            total_released: total,
        },
    }
}

/// The pairs as they are read again after the transfers of `outcomes` were made.
fn read_again(pairs: &Vec<SettlementPair>, outcomes: &Vec<PairOutcome>) -> Vec<SettlementPair> {
    let mut again = pairs.clone();
    for (i, o) in outcomes.iter().enumerate() {
        if let PairOutcome::Released { transfer, .. } = o {
            again[i].vault.amount -= transfer.amount;
        }
    }
    again
}

#[test]
fn batch_releases_what_is_transferable() {
    let mut pairs = vec![pair(0, 0, 1_000), pair(1, 200, 800)];
    let report = handler(&context(), &mut pairs, 10, 150).unwrap();
    assert_eq!(report.attempted, 2);
    assert_eq!(report.processed, 2);
    assert_eq!(
        report.outcomes,
        vec![released(0, 500, 500, 150), released(1, 300, 500, 150)]
    );
    assert_eq!(pairs[0].schedule.amount_transferred, 500);
    assert_eq!(pairs[1].schedule.amount_transferred, 500);
    assert_eq!(pairs[0].vault.amount, 1_000);
}

#[test]
fn evaluate_decides_one_pair() {
    let hub = context().distribution_hub_token_account;
    assert_eq!(pair(0, 0, 1_000).evaluate(&hub, 100), PairOutcome::Skipped(SkipReason::NothingTransferable));
    assert_eq!(pair(0, 0, 1_000).evaluate(&hub, 150), released(0, 500, 500, 150));
    assert_eq!(pair(0, 0, 1_000).evaluate(&hub, 200), released(0, 1_000, 1_000, 200));
    assert_eq!(pair(0, 0, 1_000).evaluate(&hub, 175), released(0, 750, 750, 175));
}

#[test]
fn second_batch_at_the_same_time_moves_nothing() {
    let mut pairs = vec![pair(0, 0, 1_000), pair(1, 0, 120), pair(2, 1_000, 0)];
    let first = handler(&context(), &mut pairs, 10, 150).unwrap();
    assert_eq!(first.processed, 2);
    assert_eq!(
        first.outcomes,
        vec![
            released(0, 500, 500, 150),
            released(1, 120, 120, 150),
            PairOutcome::Skipped(SkipReason::FullyProcessed),
        ]
    );
    let mut again = read_again(&pairs, &first.outcomes);
    let before = again.clone();
    let second = handler(&context(), &mut again, 10, 150).unwrap();
    assert_eq!(second.attempted, 3);
    assert_eq!(second.processed, 0);
    assert_eq!(
        second.outcomes,
        vec![
            PairOutcome::Skipped(SkipReason::NothingTransferable),
            PairOutcome::Skipped(SkipReason::VaultEmpty),
            PairOutcome::Skipped(SkipReason::FullyProcessed),
        ]
    );
    assert_eq!(again, before);
}

#[test]
fn duplicate_of_a_settled_schedule_is_skipped() {
    let mut pairs = vec![pair(0, 0, 1_000)];
    let first = handler(&context(), &mut pairs, 10, 150).unwrap();
    assert_eq!(first.processed, 1);
    let fresh = read_again(&pairs, &first.outcomes)[0];
    assert_eq!(fresh.schedule.amount_transferred, 500);
    assert_eq!(fresh.vault.amount, 500);

    let mut twice = vec![fresh, fresh];
    let second = handler(&context(), &mut twice, 10, 150).unwrap();
    assert_eq!(second.processed, 0);
    assert_eq!(
        second.outcomes,
        vec![
            PairOutcome::Skipped(SkipReason::NothingTransferable),
            PairOutcome::Skipped(SkipReason::NothingTransferable),
        ]
    );

    let mut later = vec![fresh, fresh];
    let third = handler(&context(), &mut later, 10, 160).unwrap();
    assert_eq!(third.processed, 1);
    assert_eq!(
        third.outcomes,
        vec![
            released(0, 100, 600, 160),
            PairOutcome::Skipped(SkipReason::ConcurrentModification),
        ]
    );
    assert_eq!(later[0].schedule.amount_transferred, 600);
    assert_eq!(later[1].schedule.amount_transferred, 500);
}

#[test]
fn duplicate_after_a_skipped_pair_is_still_settled_once() {
    let mut stale = pair(0, 0, 1_000);
    stale.vault.key = addr(77);
    let mut pairs = vec![stale, pair(0, 0, 1_000), pair(0, 0, 1_000)];
    let report = handler(&context(), &mut pairs, 10, 150).unwrap();
    assert_eq!(
        report.outcomes,
        vec![
            PairOutcome::Rejected(VestingError::VaultMismatch),
            released(0, 500, 500, 150),
            PairOutcome::Skipped(SkipReason::ConcurrentModification),
        ]
    );
    assert_eq!(report.processed, 1);
}

#[test]
fn release_is_clamped_to_the_vault() {
    let mut pairs = vec![pair(0, 0, 40), pair(1, 0, 0)];
    let report = handler(&context(), &mut pairs, 10, 200).unwrap();
    assert_eq!(
        report.outcomes,
        vec![
            released(0, 40, 40, 200),
            PairOutcome::Skipped(SkipReason::VaultEmpty),
        ]
    );
    assert_eq!(report.processed, 1);
    assert_eq!(pairs[0].schedule.amount_transferred, 40);
    assert_eq!(pairs[1].schedule.amount_transferred, 0);
}

#[test]
fn a_failing_pair_does_not_stop_the_batch() {
    let mut uninit = pair(0, 0, 1_000);
    uninit.schedule.is_initialized = false;
    let mut vault_uninit = pair(1, 0, 1_000);
    vault_uninit.vault.is_initialized = false;
    let mut wrong_authority = pair(2, 0, 1_000);
    wrong_authority.vault.owner = addr(99);
    let mut underived = pair(2, 0, 1_000);
    underived.derived_key = None;
    let mut elsewhere = pair(2, 0, 1_000);
    elsewhere.derived_key = Some(addr(55));
    let mut wrong_vault = pair(3, 0, 1_000);
    wrong_vault.schedule.token_vault = addr(98);
    let mut wrong_vault_mint = pair(4, 0, 1_000);
    wrong_vault_mint.vault.mint = addr(97);
    let mut wrong_mint = pair(5, 0, 1_000);
    wrong_mint.schedule.mint = addr(96);
    wrong_mint.vault.mint = addr(96);
    let mut overlong = pair(6, 0, 1_000);
    overlong.schedule.cliff_timestamp = i64::MIN;
    overlong.schedule.vesting_start_timestamp = i64::MIN;
    overlong.schedule.vesting_end_timestamp = i64::MAX;
    let mut pairs = vec![
        uninit,
        vault_uninit,
        wrong_authority,
        wrong_vault,
        wrong_vault_mint,
        wrong_mint,
        overlong,
        pair(7, 1_000, 0),
        pair(8, 0, 1_000),
    ];
    let mut unowned = vec![underived, elsewhere];
    let report = handler(&context(), &mut unowned, 255, 150).unwrap();
    assert_eq!(
        report.outcomes,
        vec![
            PairOutcome::Rejected(VestingError::VaultAuthorityMismatch),
            PairOutcome::Rejected(VestingError::VaultAuthorityMismatch),
        ]
    );
    let before = pairs.clone();
    let report = handler(&context(), &mut pairs, 255, 150).unwrap();
    assert_eq!(report.attempted, 9);
    assert_eq!(
        report.outcomes,
        vec![
            PairOutcome::Skipped(SkipReason::Uninitialized),
            PairOutcome::Rejected(VestingError::InvalidVaultState),
            PairOutcome::Rejected(VestingError::VaultAuthorityMismatch),
            PairOutcome::Rejected(VestingError::VaultMismatch),
            PairOutcome::Rejected(VestingError::MintMismatch),
            PairOutcome::Rejected(VestingError::HubAccountMintMismatch),
            PairOutcome::Rejected(VestingError::MathOverflow),
            PairOutcome::Skipped(SkipReason::FullyProcessed),
            released(8, 500, 500, 150),
        ]
    );
    assert_eq!(report.processed, 1);
    assert_eq!(&pairs[..8], &before[..8]);
    assert_eq!(pairs[8].schedule.amount_transferred, 500);
}

#[test]
fn no_more_pairs_than_allowed_are_looked_at() {
    let mut pairs: Vec<SettlementPair> = (0..12).map(|n| pair(n, 0, 1_000)).collect();
    let report = handler(&context(), &mut pairs, 255, 200).unwrap();
    assert_eq!(report.attempted, 10);
    assert_eq!(report.processed, 10);
    assert_eq!(report.outcomes.len(), 10);
    assert_eq!(pairs[9].schedule.amount_transferred, 1_000);
    assert_eq!(pairs[10].schedule.amount_transferred, 0);
    assert_eq!(pairs[11].schedule.amount_transferred, 0);

    let mut few: Vec<SettlementPair> = (0..5).map(|n| pair(n, 0, 1_000)).collect();
    let report = handler(&context(), &mut few, 3, 200).unwrap();
    assert_eq!(report.attempted, 3);
    assert_eq!(report.processed, 3);
    assert_eq!(few[3].schedule.amount_transferred, 0);

    let mut none: Vec<SettlementPair> = Vec::new();
    let report = handler(&context(), &mut none, 10, 200).unwrap();
    assert_eq!(report.attempted, 0);
    assert_eq!(report.processed, 0);

    let mut zero = vec![pair(0, 0, 1_000)];
    let report = handler(&context(), &mut zero, 0, 200).unwrap();
    assert_eq!(report.attempted, 0);
    assert_eq!(zero[0].schedule.amount_transferred, 0);
}

#[test]
fn batch_is_refused_without_a_hub() {
    let mut ctx = context();
    ctx.program_config.distribution_hub = Address::unset();
    let mut pairs = vec![pair(0, 0, 1_000)];
    let before = pairs.clone();
    assert_eq!(
        handler(&ctx, &mut pairs, 10, 150),
        Err(VestingError::DistributionHubNotSet)
    );
    assert_eq!(pairs, before);
    assert_eq!(ctx.validate(), Err(VestingError::DistributionHubNotSet));
}

#[test]
fn batch_is_refused_for_a_foreign_hub_account() {
    let mut ctx = context();
    ctx.distribution_hub_token_account.owner = addr(50);
    let mut pairs = vec![pair(0, 0, 1_000)];
    assert_eq!(
        handler(&ctx, &mut pairs, 10, 150),
        Err(VestingError::HubAccountOwnerMismatch)
    );
    let mut ctx = context();
    ctx.mint = addr(51);
    assert_eq!(
        handler(&ctx, &mut pairs, 10, 150),
        Err(VestingError::HubAccountMintMismatch)
    );
    assert_eq!(pairs[0].schedule.amount_transferred, 0);
    assert_eq!(context().validate(), Ok(()));
}

#[test]
fn released_never_exceeds_the_allocation() {
    let mut pairs = vec![pair(0, 0, 5_000)];
    let mut balance: u64 = 5_000;
    let mut total: u64 = 0;
    for now in [90, 100, 101, 150, 150, 199, 200, 200, 500] {
        pairs[0].vault.amount = balance;
        let report = handler(&context(), &mut pairs, 10, now).unwrap();
        if let PairOutcome::Released { transfer, .. } = report.outcomes[0] {
            balance -= transfer.amount;
            total += transfer.amount;
        }
        assert_eq!(pairs[0].schedule.amount_transferred, total);
        assert!(pairs[0].schedule.amount_transferred <= 1_000);
    }
    assert_eq!(total, 1_000);
    assert_eq!(balance, 4_000);
}
