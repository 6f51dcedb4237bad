//! The operations of the collection-hub settlement mode.

pub mod crank_vesting_schedules;
pub mod create_vesting_schedule;
pub mod initialize;
pub mod update_distribution_hub;
pub mod settlement_laws;
