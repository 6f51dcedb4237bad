//! What the token custody service reports and what it is asked to do.

use vstd::prelude::*;
use crate::address::Address;

verus! {

/// A token account as the custody service reports it.
#[derive(Clone, Copy, Debug, PartialEq, Eq)]
pub struct TokenAccountState {
    /// Identity of the account itself.
    pub key: Address,
    /// The asset that the account holds.
    pub mint: Address,
    /// The authority over the account.
    pub owner: Address,
    /// The balance.
    pub amount: u64,
    /// Whether the account has been set up.
    pub is_initialized: bool,
}

/// A request to the custody service to move tokens between two accounts.
#[derive(Clone, Copy, Debug, PartialEq, Eq)]
pub struct TransferInstruction {
    /// The account that is debited.
    pub from: Address,
    /// The account that is credited.
    pub to: Address,
    /// The identity that authorizes the debit.
    pub authority: Address,
    /// The number of tokens to move.
    pub amount: u64,
}

} // verus!
