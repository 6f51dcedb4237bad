//! Cliff-and-linear token vesting: schedule accounting, batched settlement and
//! timelocked rotation of the collection address.

pub mod address;
pub mod constants;
pub mod derivation;
pub mod errors;
pub mod events;
pub mod instructions;
pub mod program;
pub mod state;
pub mod token;
