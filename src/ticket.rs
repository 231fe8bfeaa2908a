use vstd::prelude::*;

use crate::address::Address;
use crate::error::RestakingError;

verus! {

/// The derived status of a ticket at some slot.
#[derive(Clone, Copy, Debug, PartialEq, Eq, Structural)]
pub enum TicketStatus {
    WarmingUp,
    Active,
    CoolingDown,
    Inactive,
}

/// One opt-in relationship: the slot at which it was created, and the slot at
/// which its cooldown began, if it has. Its status is never stored.
#[derive(Clone, Copy, Debug, PartialEq, Eq, Structural)]
pub struct Ticket {
    pub slot_added: u64,
    pub slot_removed: Option<u64>,
}

/// The status of `t` at `slot`, with warmup and cooldown delays in slots.
pub open spec fn status_spec(t: Ticket, slot: u64, warmup_delay: u64, cooldown_delay: u64) -> TicketStatus {
    match t.slot_removed {
        None => if slot >= t.slot_added + warmup_delay {
            TicketStatus::Active
        } else {
            TicketStatus::WarmingUp
        },
        Some(removed) => if slot >= removed + cooldown_delay {
            TicketStatus::Inactive
        } else {
            TicketStatus::CoolingDown
        },
    }
}

/// The outcome of a cooldown of `t` at `slot` signed by `signer` on a record
/// whose admin is `admin`, and the ticket afterwards.
pub open spec fn cooldown_spec(
    t: Ticket,
    signer: Seq<u8>,
    admin: Seq<u8>,
    slot: u64,
    warmup_delay: u64,
    cooldown_delay: u64,
) -> (Result<(), RestakingError>, Ticket) {
    if signer != admin {
        (Err(RestakingError::Unauthorized), t)
    } else if status_spec(t, slot, warmup_delay, cooldown_delay) != TicketStatus::Active {
        (Err(RestakingError::TicketNotActive), t)
    } else {
        (Ok(()), Ticket { slot_added: t.slot_added, slot_removed: Some(slot) })
    }
}

/// The outcome of re-affirming `t` at `slot`. It never changes the ticket.
pub open spec fn warmup_spec(
    t: Ticket,
    signer: Seq<u8>,
    admin: Seq<u8>,
    slot: u64,
    warmup_delay: u64,
    cooldown_delay: u64,
) -> Result<(), RestakingError> {
    if signer != admin {
        Err(RestakingError::Unauthorized)
    } else {
        match status_spec(t, slot, warmup_delay, cooldown_delay) {
            TicketStatus::WarmingUp | TicketStatus::Active => Ok(()),
            TicketStatus::CoolingDown => Err(RestakingError::TicketCoolingDown),
            TicketStatus::Inactive => Err(RestakingError::TicketNotActive),
        }
    }
}

/// Along the happy path a ticket's status only moves forward: an active ticket
/// is still active at every later slot, and one that has finished its cooldown
/// is still inactive at every later slot, where a further cooldown fails and
/// leaves it as it is.
pub proof fn lemma_status_monotonic(
    t: Ticket,
    slot: u64,
    later: u64,
    signer: Seq<u8>,
    admin: Seq<u8>,
    warmup_delay: u64,
    cooldown_delay: u64,
)
    requires
        slot <= later,
    ensures
        status_spec(t, slot, warmup_delay, cooldown_delay) == TicketStatus::Active ==> status_spec(
            t,
            later,
            warmup_delay,
            cooldown_delay,
        ) == TicketStatus::Active,
        status_spec(t, slot, warmup_delay, cooldown_delay) == TicketStatus::Inactive ==> {
            &&& status_spec(t, later, warmup_delay, cooldown_delay) == TicketStatus::Inactive
            &&& cooldown_spec(t, signer, admin, later, warmup_delay, cooldown_delay).0 is Err
            &&& cooldown_spec(t, signer, admin, later, warmup_delay, cooldown_delay).1 == t
        },
{
}

/// A cooldown signed by anyone but the stored admin fails with
/// `Unauthorized`, and the ticket keeps its `slot_removed`.
pub proof fn lemma_cooldown_needs_admin(
    t: Ticket,
    signer: Seq<u8>,
    admin: Seq<u8>,
    slot: u64,
    warmup_delay: u64,
    cooldown_delay: u64,
)
    requires
        signer != admin,
    ensures
        cooldown_spec(t, signer, admin, slot, warmup_delay, cooldown_delay).0 == Err::<(), RestakingError>(
            RestakingError::Unauthorized,
        ),
        cooldown_spec(t, signer, admin, slot, warmup_delay, cooldown_delay).1 == t,
{
}

impl Ticket {
    /// A ticket created at `slot`: warming up from then on.
    pub fn new(slot: u64) -> (r: Ticket)
        ensures
            r == (Ticket { slot_added: slot, slot_removed: None }),
    {
        Ticket { slot_added: slot, slot_removed: None }
    }

    /// The status at `slot`, computed afresh from the stored slots.
    pub fn status(&self, slot: u64, warmup_delay: u64, cooldown_delay: u64) -> (r: TicketStatus)
        ensures
            r == status_spec(*self, slot, warmup_delay, cooldown_delay),
    {
        match self.slot_removed {
            None => if slot >= self.slot_added && slot - self.slot_added >= warmup_delay {
                TicketStatus::Active
            } else {
                TicketStatus::WarmingUp
            },
            Some(removed) => if slot >= removed && slot - removed >= cooldown_delay {
                TicketStatus::Inactive
            } else {
                TicketStatus::CoolingDown
            },
        }
    }

    /// Begins the cooldown at `slot`. Only the record's admin may do so, and
    /// only while the ticket is active; on failure the ticket is unchanged.
    pub fn cooldown(
        &mut self,
        signer: &Address,
        admin: &Address,
        slot: u64,
        warmup_delay: u64,
        cooldown_delay: u64,
    ) -> (r: Result<(), RestakingError>)
        ensures
            (r, *final(self)) == cooldown_spec(
                *old(self),
                signer@,
                admin@,
                slot,
                warmup_delay,
                cooldown_delay,
            ),
    {
        if !signer.same_as(admin) {
            return Err(RestakingError::Unauthorized);
        }
        match self.status(slot, warmup_delay, cooldown_delay) {
            TicketStatus::Active => {
                self.slot_removed = Some(slot);
                Ok(())
            },
            _ => Err(RestakingError::TicketNotActive),
        }
    }

    /// Re-affirms the relationship: accepted while warming up or active, in
    /// which case nothing changes; a cooling-down ticket cannot be revived.
    pub fn warmup(
        &self,
        signer: &Address,
        admin: &Address,
        slot: u64,
        warmup_delay: u64,
        cooldown_delay: u64,
    ) -> (r: Result<(), RestakingError>)
        ensures
            r == warmup_spec(*self, signer@, admin@, slot, warmup_delay, cooldown_delay),
    {
        if !signer.same_as(admin) {
            return Err(RestakingError::Unauthorized);
        }
        match self.status(slot, warmup_delay, cooldown_delay) {
            TicketStatus::WarmingUp | TicketStatus::Active => Ok(()),
            TicketStatus::CoolingDown => Err(RestakingError::TicketCoolingDown),
            TicketStatus::Inactive => Err(RestakingError::TicketNotActive),
        }
    }
}

} // verus!
