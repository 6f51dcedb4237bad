//! Creation of the configuration record.

use vstd::prelude::*;
use crate::address::Address;
use crate::errors::VestingError;
use crate::events::ProgramInitialized;
use crate::state::program_config::{ProgramConfig, RotationState};

verus! {

/// The accounts of the initializing call.
#[derive(Clone, Copy, Debug, PartialEq, Eq)]
pub struct Initialize {
    /// The identity that signed the call and becomes the admin.
    pub admin: Address,
    /// Identity of the configuration record.
    pub program_config_key: Address,
    /// Derivation witness of that identity.
    pub program_config_bump: u8,
    /// The configuration record, which the call fills in.
    pub program_config: ProgramConfig,
}

/// Fills in the configuration record: the signer is the admin, no schedule
/// exists, no collection address is set and none is pending.
pub fn handler(ctx: &mut Initialize) -> (r: Result<ProgramInitialized, VestingError>)
    ensures
        r == Ok::<ProgramInitialized, VestingError>(
            ProgramInitialized { admin: old(ctx).admin, program_config: old(ctx).program_config_key },
        ),
        final(ctx).admin == old(ctx).admin,
        final(ctx).program_config_key == old(ctx).program_config_key,
        final(ctx).program_config_bump == old(ctx).program_config_bump,
        final(ctx).program_config.admin == old(ctx).admin,
        final(ctx).program_config.bump == old(ctx).program_config_bump,
        final(ctx).program_config.total_schedules == 0,
        final(ctx).program_config.pending_hub is None,
        final(ctx).program_config.hub_update_timelock is None,
        final(ctx).program_config.rotation_state() == RotationState::Unset,
        final(ctx).program_config.wf(),
{
    let admin = ctx.admin;
    let bump = ctx.program_config_bump;
    let _ = ctx.program_config.init(admin, bump);
    Ok(ProgramInitialized { admin, program_config: ctx.program_config_key })
}

} // verus!
