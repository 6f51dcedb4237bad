//! Derived identities: addresses that no key pair stands behind, computed
//! from seeds and the identity of the program.

use vstd::prelude::*;
use vstd::bytes::{spec_u64_to_le_bytes, u64_to_le_bytes};
use anchor_lang::solana_program::pubkey::Pubkey;
use crate::address::Address;
use crate::constants::VESTING_SCHEDULE_SEED;

verus! {

/// The address that the platform derives for `program_id` from the seeds
/// `first`, `second` and the one-byte seed `bump`, or nothing where these
/// seeds derive no address.
pub uninterp spec fn derived_address(
    first: Seq<u8>,
    second: Seq<u8>,
    bump: u8,
    program_id: Seq<u8>,
) -> Option<Seq<u8>>;

/// `Pubkey::create_program_address` of solana-program, on the three seeds
/// `first`, `second` and `[bump]`. Nothing is proved of it: the contract
/// gives its result a name, as a function of the seeds and of the program's
/// identity. An error of the outside function, whichever it is, comes back as
/// `None`.
#[verifier::external_body]
pub(crate) fn create_program_address(
    first: &[u8],
    second: &[u8],
    bump: u8,
    program_id: &Address,
) -> (r: Option<Address>)
    ensures
        match r {
            Some(a) => derived_address(first@, second@, bump, program_id.bytes@) == Some(a.bytes@),
            None => derived_address(first@, second@, bump, program_id.bytes@) is None,
        },
{
    let program = Pubkey::new_from_array(program_id.bytes);
    match Pubkey::create_program_address(&[first, second, &[bump]], &program) {
        Ok(key) => Some(Address { bytes: key.to_bytes() }),
        Err(_) => None,
    }
}

/// The derived identity of the schedule `schedule_id` under `program_id`,
/// with the derivation witness `bump`.
pub open spec fn schedule_identity(program_id: Address, schedule_id: u64, bump: u8) -> Option<
    Seq<u8>,
> {
    derived_address(
        VESTING_SCHEDULE_SEED@,
        spec_u64_to_le_bytes(schedule_id),
        bump,
        program_id.bytes@,
    )
}

/// `key` is the derived identity of the schedule `schedule_id`.
pub open spec fn is_schedule_identity(key: Address, program_id: Address, schedule_id: u64, bump: u8)
    -> bool {
    schedule_identity(program_id, schedule_id, bump) == Some(key.bytes@)
}

/// `derived` is what the derivation of a schedule's identity gave, and `key`
/// the identity presented: whether they are the same.
pub fn holds_identity(derived: &Option<Address>, key: &Address) -> (r: bool)
    ensures
        r == (*derived == Some(*key)),
{
    match derived {
        Some(address) => address.equals(key),
        None => false,
    }
}

/// Derives the identity of the schedule `schedule_id` under `program_id`.
pub fn schedule_address(program_id: &Address, schedule_id: u64, bump: u8) -> (r: Option<Address>)
    ensures
        match r {
            Some(a) => schedule_identity(*program_id, schedule_id, bump) == Some(a.bytes@),
            None => schedule_identity(*program_id, schedule_id, bump) is None,
        },
        forall|key: Address|
            (r == Some(key)) == is_schedule_identity(key, *program_id, schedule_id, bump),
{
    let id_bytes = u64_to_le_bytes(schedule_id);
    let r = create_program_address(
        VESTING_SCHEDULE_SEED.as_slice(),
        id_bytes.as_slice(),
        bump,
        program_id,
    );
    proof {
        assert forall|key: Address|
            (r == Some(key)) == is_schedule_identity(key, *program_id, schedule_id, bump) by {
            if let Some(a) = r {
                if a.bytes@ == key.bytes@ {
                    assert(a.bytes =~= key.bytes);
                }
            }
        }
    }
    r
}

} // verus!
