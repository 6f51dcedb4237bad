//! The records that the program keeps.

pub mod program_config;
pub mod schedule_record;
pub mod vesting_schedule;

pub use program_config::ProgramConfig;
pub use vesting_schedule::{SourceCategory, VestingSchedule};
