//! Fixed parameters of the program.

use vstd::prelude::*;

verus! {

/// Seed of the configuration record's derived identity.
pub const PROGRAM_CONFIG_SEED: [u8; 14] = [
    112, 114, 111, 103, 114, 97, 109, 95, 99, 111, 110, 102, 105, 103,
];

/// Seed of a schedule's derived identity.
pub const VESTING_SCHEDULE_SEED: [u8; 16] = [
    118, 101, 115, 116, 105, 110, 103, 95, 115, 99, 104, 101, 100, 117, 108, 101,
];

/// Seed of a vault's derived identity.
pub const VESTING_VAULT_SEED: [u8; 13] = [
    118, 101, 115, 116, 105, 110, 103, 95, 118, 97, 117, 108, 116,
];

/// Bytes of the tag in front of every stored record.
pub const DISCRIMINATOR_SIZE: usize = 8;

/// Bytes of a stored configuration record.
pub const PROGRAM_CONFIG_LEN: usize = 41;

/// Bytes of a stored schedule record.
pub const VESTING_SCHEDULE_LEN: usize = 219;

/// Largest number of schedule/vault pairs that one settlement call works through.
pub const MAX_SCHEDULES_PER_CRANK: u8 = 10;

/// Seconds between proposing a collection address and the first moment it
/// can be confirmed: 48 hours.
pub const HUB_UPDATE_TIMELOCK: i64 = 172_800;

} // verus!
