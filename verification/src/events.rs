//! Audit records, one per state-changing operation.

use vstd::prelude::*;
use crate::address::Address;
use crate::state::vesting_schedule::SourceCategory;

verus! {

/// The configuration record was created.
#[derive(Clone, Copy, Debug, PartialEq, Eq)]
pub struct ProgramInitialized {
    pub admin: Address,
    pub program_config: Address,
}

/// A schedule was created and funded.
#[derive(Clone, Copy, Debug, PartialEq, Eq)]
pub struct VestingScheduleCreated {
    pub schedule_id: u64,
    pub recipient: Address,
    pub mint: Address,
    pub total_amount: u64,
    pub cliff_timestamp: i64,
    pub vesting_start_timestamp: i64,
    pub vesting_end_timestamp: i64,
    pub source_category: SourceCategory,
    pub depositor: Address,
}

/// Tokens left a schedule's vault, or a settlement found nothing to move.
#[derive(Clone, Copy, Debug, PartialEq, Eq)]
pub struct TokensReleased {
    pub schedule_id: u64,
    /// Where the tokens went.
    pub recipient: Address,
    pub mint: Address,
    /// The amount moved by this step.
    pub amount: u64,
    pub source_category: SourceCategory,
    pub timestamp: i64,
    /// The cumulative amount released after this step.
    pub total_released: u64,
}

/// A new collection address was proposed.
#[derive(Clone, Copy, Debug, PartialEq, Eq)]
pub struct DistributionHubUpdateProposed {
    pub admin: Address,
    pub current_hub: Address,
    pub proposed_hub: Address,
    pub timelock_expiry: i64,
}

/// The active collection address changed.
#[derive(Clone, Copy, Debug, PartialEq, Eq)]
pub struct DistributionHubUpdated {
    pub admin: Address,
    pub old_hub: Address,
    pub new_hub: Address,
    pub timestamp: i64,
}

} // verus!
