use vstd::prelude::*;

use crate::address::Address;
use crate::error::RestakingError;

verus! {

/// Largest operator fee, in basis points.
pub const MAX_FEE_BPS: u16 = 10000;

/// The protocol-wide configuration, loaded once per call and passed explicitly.
#[derive(Clone, Copy, Debug)]
pub struct Config {
    pub admin: Address,
    pub vault_program: Address,
    pub warmup_delay: u64,
    pub cooldown_delay: u64,
}

/// A secondary role that an admin may hand to another address.
#[derive(Clone, Copy, Debug, PartialEq, Eq, Structural)]
pub enum AdminRole {
    Voter,
    DelegateAdmin,
}

/// A network entity ("NCN") or a node operator: its admin, its secondary
/// role holders and, for an operator, its fee.
#[derive(Clone, Copy, Debug)]
pub struct Participant {
    pub admin: Address,
    pub voter: Address,
    pub delegate_admin: Address,
    pub fee_bps: u16,
}

impl Config {
    /// Hands the configuration to `new_admin`; only the current admin may.
    pub fn set_admin(&mut self, signer: &Address, new_admin: &Address) -> (r: Result<(), RestakingError>)
        ensures
            signer@ == old(self).admin@ ==> r is Ok && *final(self) == (Config {
                admin: *new_admin,
                ..*old(self)
            }),
            signer@ != old(self).admin@ ==> r == Err::<(), RestakingError>(RestakingError::Unauthorized)
                && *final(self) == *old(self),
    {
        if !signer.same_as(&self.admin) {
            return Err(RestakingError::Unauthorized);
        }
        self.admin = *new_admin;
        Ok(())
    }
}

impl Participant {
    /// A record whose admin also holds every secondary role. An operator's
    /// fee may not exceed `MAX_FEE_BPS`.
    pub fn new(admin: &Address, fee_bps: u16) -> (r: Result<Participant, RestakingError>)
        ensures
            fee_bps <= MAX_FEE_BPS ==> r == Ok::<Participant, RestakingError>(
                Participant { admin: *admin, voter: *admin, delegate_admin: *admin, fee_bps },
            ),
            fee_bps > MAX_FEE_BPS ==> r == Err::<Participant, RestakingError>(
                RestakingError::ArithmeticOverflow,
            ),
    {
        if fee_bps > MAX_FEE_BPS {
            return Err(RestakingError::ArithmeticOverflow);
        }
        Ok(Participant { admin: *admin, voter: *admin, delegate_admin: *admin, fee_bps })
    }

    /// Hands the record to `new_admin`; only the current admin may.
    pub fn set_admin(&mut self, signer: &Address, new_admin: &Address) -> (r: Result<(), RestakingError>)
        ensures
            signer@ == old(self).admin@ ==> r is Ok && *final(self) == (Participant {
                admin: *new_admin,
                ..*old(self)
            }),
            signer@ != old(self).admin@ ==> r == Err::<(), RestakingError>(RestakingError::Unauthorized)
                && *final(self) == *old(self),
    {
        if !signer.same_as(&self.admin) {
            return Err(RestakingError::Unauthorized);
        }
        self.admin = *new_admin;
        Ok(())
    }

    /// Gives `role` to `holder`; only the admin may.
    pub fn set_secondary_admin(&mut self, signer: &Address, holder: &Address, role: AdminRole) -> (r: Result<
        (),
        RestakingError,
    >)
        ensures
            signer@ == old(self).admin@ ==> r is Ok && *final(self) == match role {
                AdminRole::Voter => Participant { voter: *holder, ..*old(self) },
                AdminRole::DelegateAdmin => Participant { delegate_admin: *holder, ..*old(self) },
            },
            signer@ != old(self).admin@ ==> r == Err::<(), RestakingError>(RestakingError::Unauthorized)
                && *final(self) == *old(self),
    {
        if !signer.same_as(&self.admin) {
            return Err(RestakingError::Unauthorized);
        }
        match role {
            AdminRole::Voter => {
                self.voter = *holder;
            },
            AdminRole::DelegateAdmin => {
                self.delegate_admin = *holder;
            },
        }
        Ok(())
    }

    /// Sets the fee; only the admin may, and never above `MAX_FEE_BPS`.
    pub fn set_fee(&mut self, signer: &Address, new_fee_bps: u16) -> (r: Result<(), RestakingError>)
        ensures
            signer@ != old(self).admin@ ==> r == Err::<(), RestakingError>(RestakingError::Unauthorized)
                && *final(self) == *old(self),
            signer@ == old(self).admin@ && new_fee_bps > MAX_FEE_BPS ==> r == Err::<(), RestakingError>(
                RestakingError::ArithmeticOverflow,
            ) && *final(self) == *old(self),
            signer@ == old(self).admin@ && new_fee_bps <= MAX_FEE_BPS ==> r is Ok && *final(self) == (
            Participant { fee_bps: new_fee_bps, ..*old(self) }),
    {
        if !signer.same_as(&self.admin) {
            return Err(RestakingError::Unauthorized);
        }
        if new_fee_bps > MAX_FEE_BPS {
            return Err(RestakingError::ArithmeticOverflow);
        }
        self.fee_bps = new_fee_bps;
        Ok(())
    }
}

} // verus!
