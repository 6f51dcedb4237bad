//! The program-wide configuration record and the rotation of its collection
//! address.

use vstd::prelude::*;
use crate::address::Address;
use crate::errors::VestingError;

verus! {

/// The one configuration record of a deployment.
#[derive(Clone, Copy, Debug, PartialEq, Eq)]
pub struct ProgramConfig {
    /// The identity that may create schedules and rotate the collection address.
    pub admin: Address,
    /// The address that released tokens are sent to; unset at first.
    pub distribution_hub: Address,
    /// A proposed replacement that waits for its timelock to expire.
    pub pending_hub: Option<Address>,
    /// The time from which the pending address may be confirmed.
    pub hub_update_timelock: Option<i64>,
    /// Number of schedules created so far, and the identifier of the next one.
    pub total_schedules: u64,
    /// Derivation witness of the record's own identity.
    pub bump: u8,
}

/// Where the rotation protocol stands.
#[derive(Clone, Copy, Debug, PartialEq, Eq, Structural)]
pub enum RotationState {
    /// No collection address has been set.
    Unset,
    /// A collection address is active and nothing is proposed.
    Active,
    /// A collection address is active and a replacement waits for its timelock.
    ActiveWithPending,
}

/// What a successful rotation call did.
#[derive(Clone, Copy, Debug, PartialEq, Eq, Structural)]
pub enum RotationStep {
    /// The first collection address was set, with no delay.
    Bootstrapped,
    /// The pending address became the active one.
    Confirmed,
    /// A new address was proposed and its timelock started.
    Proposed,
}

impl ProgramConfig {
    /// Bytes that the admin, the schedule counter and the bump take in the
    /// stored record.
    pub const LEN: usize = 41;

    /// Bytes to reserve for the whole stored record: its 8-byte tag, the
    /// admin, the collection address, the pending address and the deadline
    /// with one byte each for their presence, the counter and the bump.
    pub const STORED_LEN: usize = 123;

    /// A pending address and its deadline are set together or not at all.
    pub open spec fn wf(self) -> bool {
        self.pending_hub is Some <==> self.hub_update_timelock is Some
    }

    /// The state of the rotation protocol that the record is in.
    pub open spec fn rotation_state(self) -> RotationState {
        if self.distribution_hub.is_unset() {
            RotationState::Unset
        } else if self.pending_hub is Some {
            RotationState::ActiveWithPending
        } else {
            RotationState::Active
        }
    }

    /// `new_hub` names the pending address, so the call is a confirmation.
    pub open spec fn names_pending(self, new_hub: Address) -> bool {
        self.pending_hub == Some(new_hub)
    }

    /// The deadline has been reached at `now`. A pending address without a
    /// deadline can never be confirmed.
    pub open spec fn timelock_expired(self, now: int) -> bool {
        self.hub_update_timelock matches Some(deadline) && now >= deadline
    }

    /// The outcome of a rotation call on this record, and the error it is
    /// refused with.
    pub open spec fn rotation_result(self, new_hub: Address, now: int, delay: int) -> Result<
        RotationStep,
        VestingError,
    > {
        if self.distribution_hub.is_unset() {
            if new_hub.is_unset() {
                Err(VestingError::InvalidAmount)
            } else {
                Ok(RotationStep::Bootstrapped)
            }
        } else if self.names_pending(new_hub) {
            if self.timelock_expired(now) {
                Ok(RotationStep::Confirmed)
            } else {
                Err(VestingError::TimelockNotExpired)
            }
        } else if new_hub == self.distribution_hub {
            Err(VestingError::HubAddressNotChanged)
        } else if now + delay > i64::MAX || now + delay < i64::MIN {
            Err(VestingError::MathOverflow)
        } else {
            Ok(RotationStep::Proposed)
        }
    }

    /// The record that a successful rotation call leaves.
    pub open spec fn after_rotation(self, step: RotationStep, new_hub: Address, now: int, delay: int)
        -> ProgramConfig {
        match step {
            RotationStep::Bootstrapped => ProgramConfig { distribution_hub: new_hub, ..self },
            RotationStep::Confirmed => ProgramConfig {
                distribution_hub: new_hub,
                pending_hub: None,
                hub_update_timelock: None,
                ..self
            },
            RotationStep::Proposed => ProgramConfig {
                pending_hub: Some(new_hub),
                hub_update_timelock: Some((now + delay) as i64),
                ..self
            },
        }
    }

    /// Sets the admin, with no schedules, no collection address and nothing
    /// pending.
    pub fn init(&mut self, admin: Address, bump: u8) -> (r: Result<(), VestingError>)
        ensures
            r is Ok,
            final(self).admin == admin,
            final(self).bump == bump,
            final(self).total_schedules == 0,
            final(self).distribution_hub.is_unset(),
            final(self).pending_hub is None,
            final(self).hub_update_timelock is None,
            final(self).wf(),
            final(self).rotation_state() == RotationState::Unset,
    {
        self.admin = admin;
        self.distribution_hub = Address::unset();
        self.pending_hub = None;
        self.hub_update_timelock = None;
        self.total_schedules = 0;
        self.bump = bump;
        Ok(())
    }

    /// Counts one more schedule. Refused with `MathOverflow`, and the record
    /// left as it was, where the counter is at its largest value.
    pub fn increment_total_schedules(&mut self) -> (r: Result<(), VestingError>)
        ensures
            old(self).total_schedules < u64::MAX ==> r is Ok && *final(self) == (ProgramConfig {
                total_schedules: (old(self).total_schedules + 1) as u64,
                ..*old(self)
            }),
            old(self).total_schedules == u64::MAX ==> r == Err::<(), VestingError>(
                VestingError::MathOverflow,
            ) && *final(self) == *old(self),
    {
        match self.total_schedules.checked_add(1) {
            Some(n) => {
                self.total_schedules = n;
                Ok(())
            },
            None => Err(VestingError::MathOverflow),
        }
    }

    /// Whether `signer` is the admin.
    pub fn is_admin(&self, signer: &Address) -> (r: bool)
        ensures
            r == (self.admin == *signer),
    {
        self.admin.equals(signer)
    }

    /// One call of the rotation protocol at time `now`, with a timelock of
    /// `delay` seconds for a new proposal.
    ///
    /// While no address is set, any non-null address becomes active at once.
    /// Naming the pending address confirms it once its deadline has been
    /// reached and is refused before. Any other address is a new proposal,
    /// which replaces the pending one; proposing the active address is refused.
    /// A refused call leaves the record as it was.
    pub fn rotate_distribution_hub(&mut self, new_hub: Address, now: i64, delay: i64) -> (r: Result<
        RotationStep,
        VestingError,
    >)
        ensures
            r == old(self).rotation_result(new_hub, now as int, delay as int),
            r matches Ok(step) ==> *final(self) == old(self).after_rotation(
                step,
                new_hub,
                now as int,
                delay as int,
            ),
            r is Err ==> *final(self) == *old(self),
            old(self).wf() ==> final(self).wf(),
    {
        if self.distribution_hub.is_default() {
            if new_hub.is_default() {
                return Err(VestingError::InvalidAmount);
            }
            self.distribution_hub = new_hub;
            return Ok(RotationStep::Bootstrapped);
        }
        let names_pending: bool = match &self.pending_hub {
            Some(pending) => pending.equals(&new_hub),
            None => false,
        };
        if names_pending {
            let expired: bool = match self.hub_update_timelock {
                Some(deadline) => now >= deadline,
                None => false,
            };
            if !expired {
                return Err(VestingError::TimelockNotExpired);
            }
            self.distribution_hub = new_hub;
            self.pending_hub = None;
            self.hub_update_timelock = None;
            return Ok(RotationStep::Confirmed);
        }
        if new_hub.equals(&self.distribution_hub) {
            return Err(VestingError::HubAddressNotChanged);
        }
        match now.checked_add(delay) {
            Some(deadline) => {
                self.pending_hub = Some(new_hub);
                self.hub_update_timelock = Some(deadline);
                Ok(RotationStep::Proposed)
            },
            None => Err(VestingError::MathOverflow),
        }
    }
}

/// Confirming the pending address before its deadline is always refused, and
/// the record stays as it was.
pub proof fn lemma_early_confirmation_rejected(
    config: ProgramConfig,
    pending: Address,
    deadline: i64,
    now: int,
    delay: int,
)
    requires
        !config.distribution_hub.is_unset(),
        config.pending_hub == Some(pending),
        config.hub_update_timelock == Some(deadline),
        now < deadline,
    ensures
        config.rotation_result(pending, now, delay) == Err::<RotationStep, VestingError>(
            VestingError::TimelockNotExpired,
        ),
{
}

/// Confirming the pending address at or after its deadline succeeds, makes it
/// the active address and clears the pending state; the same call made again,
/// at whatever time, is no confirmation any more and is refused.
pub proof fn lemma_confirmation_succeeds_once(
    config: ProgramConfig,
    pending: Address,
    deadline: i64,
    now: int,
    later: int,
    delay: int,
)
    requires
        !config.distribution_hub.is_unset(),
        config.pending_hub == Some(pending),
        config.hub_update_timelock == Some(deadline),
        now >= deadline,
    ensures
        config.rotation_result(pending, now, delay) == Ok::<RotationStep, VestingError>(
            RotationStep::Confirmed,
        ),
        ({
            let after = config.after_rotation(RotationStep::Confirmed, pending, now, delay);
            &&& after.distribution_hub == pending
            &&& after.pending_hub is None
            &&& after.hub_update_timelock is None
            &&& after.wf()
            &&& after.rotation_result(pending, later, delay) is Err
            &&& !pending.is_unset() ==> after.rotation_state() == RotationState::Active
                && after.rotation_result(pending, later, delay) == Err::<RotationStep, VestingError>(
                VestingError::HubAddressNotChanged,
            )
        }),
{
}

} // verus!
