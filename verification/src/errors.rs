//! The ways an operation is refused.

use vstd::prelude::*;

verus! {

/// Why an operation, or one pair of a settlement batch, was refused.
#[derive(Clone, Copy, Debug, PartialEq, Eq, Structural)]
pub enum VestingError {
    /// The caller is not the admin, or does not own the funding account.
    Unauthorized,
    /// A checked arithmetic operation left its range.
    MathOverflow,
    /// The timestamps are not ordered as `cliff <= start < end`.
    InvalidTimestamps,
    /// A zero amount, or a null address where one is needed.
    InvalidAmount,
    /// The schedule has already released its whole allocation.
    ScheduleFullyProcessed,
    /// Nothing can be released at this time.
    NoTransferableAmount,
    /// The schedule record is not initialized.
    InvalidVestingScheduleData,
    /// Two accounts that must share an asset do not.
    MintMismatch,
    /// The vault is not under the authority of its schedule.
    VaultAuthorityMismatch,
    /// The schedule identifier is not the next one in sequence.
    ScheduleIdConflict,
    /// The vault account is not initialized.
    InvalidVaultState,
    /// The recipient is the null identity.
    InvalidRecipient,
    /// The recipient's token account is owned by someone else.
    RecipientAccountOwnerMismatch,
    /// The recipient's token account holds another asset.
    RecipientAccountMintMismatch,
    /// The token account presented is not the one recorded on the schedule.
    RecipientAccountMismatch,
    /// A schedule can be closed only once it is fully released.
    ScheduleNotFullyVested,
    /// A vault can be closed only once it is empty.
    VaultNotEmpty,
    /// The collection account holds another asset.
    HubAccountMintMismatch,
    /// The collection account is not owned by the active collection address.
    HubAccountOwnerMismatch,
    /// No collection address has been set yet.
    DistributionHubNotSet,
    /// More accounts were supplied than one call may process.
    TooManyAccountsToProcess,
    /// The vault presented is not the one recorded on the schedule.
    VaultMismatch,
    /// The pending collection address cannot be confirmed yet.
    TimelockNotExpired,
    /// The proposed collection address is the active one.
    HubAddressNotChanged,
    /// The funding account holds less than the allocation.
    InsufficientFunds,
}

} // verus!
