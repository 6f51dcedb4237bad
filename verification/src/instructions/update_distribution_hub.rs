//! Rotation of the collection address by the admin.

use vstd::prelude::*;
use crate::address::Address;
use crate::constants::HUB_UPDATE_TIMELOCK;
use crate::errors::VestingError;
use crate::events::{DistributionHubUpdateProposed, DistributionHubUpdated};
use crate::state::program_config::{ProgramConfig, RotationStep};

verus! {

/// The accounts of a rotation call.
#[derive(Clone, Copy, Debug, PartialEq, Eq)]
pub struct UpdateDistributionHub {
    /// The identity that signed the call.
    pub admin: Address,
    /// The configuration record.
    pub program_config: ProgramConfig,
}

/// The audit record of a rotation call.
#[derive(Clone, Copy, Debug, PartialEq, Eq)]
pub enum HubUpdate {
    /// The active address changed: it was set for the first time, or the
    /// pending one was confirmed.
    Updated(DistributionHubUpdated),
    /// A new address was proposed.
    Proposed(DistributionHubUpdateProposed),
}

impl UpdateDistributionHub {
    /// The audit record of a successful call that took `step`.
    pub open spec fn audit_record(self, step: RotationStep, new_hub: Address, now: i64) -> HubUpdate {
        match step {
            RotationStep::Proposed => HubUpdate::Proposed(
                DistributionHubUpdateProposed {
                    admin: self.admin,
                    current_hub: self.program_config.distribution_hub,
                    proposed_hub: new_hub,
                    timelock_expiry: (now + HUB_UPDATE_TIMELOCK) as i64,
                },
            ),
            _ => HubUpdate::Updated(
                DistributionHubUpdated {
                    admin: self.admin,
                    old_hub: self.program_config.distribution_hub,
                    new_hub,
                    timestamp: now,
                },
            ),
        }
    }

    /// What a call returns: refused for anyone but the admin, else what the
    /// rotation protocol makes of it.
    pub open spec fn result(self, new_hub: Address, now: i64) -> Result<HubUpdate, VestingError> {
        if self.admin != self.program_config.admin {
            Err(VestingError::Unauthorized)
        } else {
            match self.program_config.rotation_result(new_hub, now as int, HUB_UPDATE_TIMELOCK as int) {
                Ok(step) => Ok(self.audit_record(step, new_hub, now)),
                Err(e) => Err(e),
            }
        }
    }

    /// The configuration record after the call.
    pub open spec fn config_after(self, new_hub: Address, now: i64) -> ProgramConfig {
        if self.admin != self.program_config.admin {
            self.program_config
        } else {
            match self.program_config.rotation_result(new_hub, now as int, HUB_UPDATE_TIMELOCK as int) {
                Ok(step) => self.program_config.after_rotation(
                    step,
                    new_hub,
                    now as int,
                    HUB_UPDATE_TIMELOCK as int,
                ),
                Err(_) => self.program_config,
            }
        }
    }
}

/// Proposes or confirms a collection address at time `now`, on behalf of the
/// signer. Only the admin may call; for the admin the rotation protocol
/// decides, with the program's timelock. A refused call changes nothing.
pub fn handler(ctx: &mut UpdateDistributionHub, new_hub_address: Address, now: i64) -> (r: Result<
    HubUpdate,
    VestingError,
>)
    ensures
        r == old(ctx).result(new_hub_address, now),
        final(ctx).admin == old(ctx).admin,
        final(ctx).program_config == old(ctx).config_after(new_hub_address, now),
        r is Err ==> *final(ctx) == *old(ctx),
        old(ctx).program_config.wf() ==> final(ctx).program_config.wf(),
{
    if !ctx.program_config.is_admin(&ctx.admin) {
        return Err(VestingError::Unauthorized);
    }
    let old_hub = ctx.program_config.distribution_hub;
    let admin = ctx.admin;
    match ctx.program_config.rotate_distribution_hub(new_hub_address, now, HUB_UPDATE_TIMELOCK) {
        Ok(RotationStep::Proposed) => {
            let timelock_expiry: i64 = match ctx.program_config.hub_update_timelock {
                Some(t) => t,
                None => now,
            };
            Ok(
                HubUpdate::Proposed(
                    DistributionHubUpdateProposed {
                        admin,
                        current_hub: old_hub,
                        proposed_hub: new_hub_address,
                        timelock_expiry,
                    },
                ),
            )
        },
        Ok(_) => Ok(
            HubUpdate::Updated(
                DistributionHubUpdated { admin, old_hub, new_hub: new_hub_address, timestamp: now },
            ),
        ),
        Err(e) => Err(e),
    }
}

} // verus!
