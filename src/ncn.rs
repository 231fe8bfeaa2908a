use vstd::prelude::*;

use vstd::slice::slice_subrange;

use crate::codec::{
    le_bytes, le_value, lemma_le_bytes_len, lemma_le_bytes_of_value, lemma_le_round_trip,
    lemma_u16_fits, lemma_u64_fits, u16_from_bytes, u16_to_bytes, u64_from_bytes, u64_to_bytes,
};
use crate::error::RestakingError;
use crate::instruction::{
    accounts_check_spec, check_accounts, role_r, role_rs, role_sys, role_w, role_ws, AccountRole,
};
use crate::records::AdminRole;
use crate::sanitize::AccountRef;

verus! {

/// The network-era instruction set. On the wire each is its one-byte tag (its
/// position here) followed by its payload, little-endian; a role is one byte.
#[derive(Clone, Copy, Debug, PartialEq, Eq, Structural)]
pub enum NcnInstruction {
    /// Initializes the global configuration.
    InitializeConfig,
    /// Initializes a network entity.
    InitializeNcn,
    /// Initializes a node operator with its fee in basis points.
    InitializeOperator(u16),
    /// Opens the network-to-vault ticket.
    InitializeNcnVaultTicket,
    /// Re-affirms the network-to-vault ticket.
    WarmupNcnVaultTicket,
    /// Starts the cooldown of the network-to-vault ticket.
    CooldownNcnVaultTicket,
    /// Opens the network-operator relationship.
    InitializeNcnOperatorState,
    /// The network re-affirms an operator.
    NcnWarmupOperator,
    /// The network starts the cooldown of an operator.
    NcnCooldownOperator,
    /// The operator re-affirms a network.
    OperatorWarmupNcn,
    /// The operator starts the cooldown of a network.
    OperatorCooldownNcn,
    /// Opens a slasher ticket, with its most slashable per epoch.
    InitializeNcnVaultSlasherTicket(u64),
    /// Re-affirms a slasher ticket.
    WarmupNcnVaultSlasherTicket,
    /// Starts the cooldown of a slasher ticket.
    CooldownNcnVaultSlasherTicket,
    /// Opens the operator-to-vault ticket.
    InitializeOperatorVaultTicket,
    /// Re-affirms the operator-to-vault ticket.
    WarmupOperatorVaultTicket,
    /// Starts the cooldown of the operator-to-vault ticket.
    CooldownOperatorVaultTicket,
    /// Hands a network to a new admin.
    NcnSetAdmin,
    /// Gives a secondary role of a network to an address.
    NcnSetSecondaryAdmin(AdminRole),
    /// Hands an operator to a new admin.
    OperatorSetAdmin,
    /// Gives a secondary role of an operator to an address.
    OperatorSetSecondaryAdmin(AdminRole),
    /// Sets an operator's fee in basis points.
    OperatorSetFee(u16),
    /// Delegates a token account held by a network.
    NcnDelegateTokenAccount,
    /// Delegates a token account held by an operator.
    OperatorDelegateTokenAccount,
    /// Hands the configuration to a new admin.
    SetConfigAdmin,
}

/// A role's byte.
pub open spec fn role_byte(role: AdminRole) -> u8 {
    match role {
        AdminRole::Voter => 0,
        AdminRole::DelegateAdmin => 1,
    }
}

/// An instruction's one-byte tag.
pub open spec fn ncn_tag_spec(ix: NcnInstruction) -> u8 {
    match ix {
        NcnInstruction::InitializeConfig => 0,
        NcnInstruction::InitializeNcn => 1,
        NcnInstruction::InitializeOperator(_) => 2,
        NcnInstruction::InitializeNcnVaultTicket => 3,
        NcnInstruction::WarmupNcnVaultTicket => 4,
        NcnInstruction::CooldownNcnVaultTicket => 5,
        NcnInstruction::InitializeNcnOperatorState => 6,
        NcnInstruction::NcnWarmupOperator => 7,
        NcnInstruction::NcnCooldownOperator => 8,
        NcnInstruction::OperatorWarmupNcn => 9,
        NcnInstruction::OperatorCooldownNcn => 10,
        NcnInstruction::InitializeNcnVaultSlasherTicket(_) => 11,
        NcnInstruction::WarmupNcnVaultSlasherTicket => 12,
        NcnInstruction::CooldownNcnVaultSlasherTicket => 13,
        NcnInstruction::InitializeOperatorVaultTicket => 14,
        NcnInstruction::WarmupOperatorVaultTicket => 15,
        NcnInstruction::CooldownOperatorVaultTicket => 16,
        NcnInstruction::NcnSetAdmin => 17,
        NcnInstruction::NcnSetSecondaryAdmin(_) => 18,
        NcnInstruction::OperatorSetAdmin => 19,
        NcnInstruction::OperatorSetSecondaryAdmin(_) => 20,
        NcnInstruction::OperatorSetFee(_) => 21,
        NcnInstruction::NcnDelegateTokenAccount => 22,
        NcnInstruction::OperatorDelegateTokenAccount => 23,
        NcnInstruction::SetConfigAdmin => 24,
    }
}

/// The instruction's bytes on the wire.
pub open spec fn ncn_encode_spec(ix: NcnInstruction) -> Seq<u8> {
    match ix {
        NcnInstruction::InitializeOperator(fee) => seq![ncn_tag_spec(ix)] + le_bytes(fee as nat, 2),
        NcnInstruction::OperatorSetFee(fee) => seq![ncn_tag_spec(ix)] + le_bytes(fee as nat, 2),
        NcnInstruction::InitializeNcnVaultSlasherTicket(m) => seq![ncn_tag_spec(ix)] + le_bytes(m as nat, 8),
        NcnInstruction::NcnSetSecondaryAdmin(role) => seq![ncn_tag_spec(ix), role_byte(role)],
        NcnInstruction::OperatorSetSecondaryAdmin(role) => seq![ncn_tag_spec(ix), role_byte(role)],
        _ => seq![ncn_tag_spec(ix)],
    }
}

impl AdminRole {
    pub fn to_byte(&self) -> (r: u8)
        ensures
            r == role_byte(*self),
    {
        match self {
            AdminRole::Voter => 0,
            AdminRole::DelegateAdmin => 1,
        }
    }
}

impl NcnInstruction {
    /// The one-byte tag.
    pub fn tag(&self) -> (r: u8)
        ensures
            r == ncn_tag_spec(*self),
    {
        match self {
            NcnInstruction::InitializeConfig => 0,
            NcnInstruction::InitializeNcn => 1,
            NcnInstruction::InitializeOperator(_) => 2,
            NcnInstruction::InitializeNcnVaultTicket => 3,
            NcnInstruction::WarmupNcnVaultTicket => 4,
            NcnInstruction::CooldownNcnVaultTicket => 5,
            NcnInstruction::InitializeNcnOperatorState => 6,
            NcnInstruction::NcnWarmupOperator => 7,
            NcnInstruction::NcnCooldownOperator => 8,
            NcnInstruction::OperatorWarmupNcn => 9,
            NcnInstruction::OperatorCooldownNcn => 10,
            NcnInstruction::InitializeNcnVaultSlasherTicket(_) => 11,
            NcnInstruction::WarmupNcnVaultSlasherTicket => 12,
            NcnInstruction::CooldownNcnVaultSlasherTicket => 13,
            NcnInstruction::InitializeOperatorVaultTicket => 14,
            NcnInstruction::WarmupOperatorVaultTicket => 15,
            NcnInstruction::CooldownOperatorVaultTicket => 16,
            NcnInstruction::NcnSetAdmin => 17,
            NcnInstruction::NcnSetSecondaryAdmin(_) => 18,
            NcnInstruction::OperatorSetAdmin => 19,
            NcnInstruction::OperatorSetSecondaryAdmin(_) => 20,
            NcnInstruction::OperatorSetFee(_) => 21,
            NcnInstruction::NcnDelegateTokenAccount => 22,
            NcnInstruction::OperatorDelegateTokenAccount => 23,
            NcnInstruction::SetConfigAdmin => 24,
        }
    }

    /// The instruction's bytes: its tag, then its payload.
    pub fn encode(&self) -> (r: Vec<u8>)
        ensures
            r@ == ncn_encode_spec(*self),
    {
        let mut out: Vec<u8> = Vec::new();
        out.push(self.tag());
        match self {
            NcnInstruction::InitializeOperator(fee) | NcnInstruction::OperatorSetFee(fee) => {
                let mut payload = u16_to_bytes(*fee);
                out.append(&mut payload);
            },
            NcnInstruction::InitializeNcnVaultSlasherTicket(m) => {
                let mut payload = u64_to_bytes(*m);
                out.append(&mut payload);
            },
            NcnInstruction::NcnSetSecondaryAdmin(role) | NcnInstruction::OperatorSetSecondaryAdmin(role) => {
                out.push(role.to_byte());
            },
            _ => {},
        }
        assert(out@ =~= ncn_encode_spec(*self));
        out
    }
}

/// The accounts an instruction takes, position by position.
pub open spec fn ncn_schema_spec(ix: NcnInstruction) -> Seq<AccountRole> {
    match ix {
        NcnInstruction::InitializeConfig => seq![role_w(), role_ws(), role_r(), role_sys()],
        NcnInstruction::InitializeNcn => seq![role_w(), role_w(), role_ws(), role_rs(), role_sys()],
        NcnInstruction::InitializeOperator(_) => seq![role_w(), role_w(), role_ws(), role_rs(), role_sys()],
        NcnInstruction::InitializeNcnVaultTicket => seq![role_r(), role_w(), role_r(), role_w(), role_rs(), role_ws(), role_sys()],
        NcnInstruction::WarmupNcnVaultTicket => seq![role_r(), role_r(), role_r(), role_w(), role_rs()],
        NcnInstruction::CooldownNcnVaultTicket => seq![role_r(), role_r(), role_r(), role_w(), role_rs()],
        NcnInstruction::InitializeNcnOperatorState => seq![role_r(), role_w(), role_w(), role_w(), role_rs(), role_ws(), role_sys()],
        NcnInstruction::NcnWarmupOperator => seq![role_r(), role_r(), role_r(), role_w(), role_rs()],
        NcnInstruction::NcnCooldownOperator => seq![role_r(), role_r(), role_r(), role_w(), role_rs()],
        NcnInstruction::OperatorWarmupNcn => seq![role_r(), role_r(), role_r(), role_w(), role_rs()],
        NcnInstruction::OperatorCooldownNcn => seq![role_r(), role_r(), role_r(), role_w(), role_rs()],
        NcnInstruction::InitializeNcnVaultSlasherTicket(_) => seq![role_r(), role_w(), role_r(), role_r(), role_r(), role_w(), role_rs(), role_ws(), role_sys()],
        NcnInstruction::WarmupNcnVaultSlasherTicket => seq![role_r(), role_r(), role_r(), role_r(), role_r(), role_w(), role_rs()],
        NcnInstruction::CooldownNcnVaultSlasherTicket => seq![role_r(), role_r(), role_r(), role_r(), role_w(), role_rs()],
        NcnInstruction::InitializeOperatorVaultTicket => seq![role_r(), role_w(), role_r(), role_w(), role_rs(), role_ws(), role_sys()],
        NcnInstruction::WarmupOperatorVaultTicket => seq![role_r(), role_r(), role_r(), role_w(), role_rs()],
        NcnInstruction::CooldownOperatorVaultTicket => seq![role_r(), role_r(), role_r(), role_w(), role_rs()],
        NcnInstruction::NcnSetAdmin => seq![role_w(), role_rs(), role_rs()],
        NcnInstruction::NcnSetSecondaryAdmin(_) => seq![role_w(), role_rs(), role_r()],
        NcnInstruction::OperatorSetAdmin => seq![role_w(), role_rs(), role_rs()],
        NcnInstruction::OperatorSetSecondaryAdmin(_) => seq![role_w(), role_rs(), role_r()],
        NcnInstruction::OperatorSetFee(_) => seq![role_r(), role_w(), role_rs()],
        NcnInstruction::NcnDelegateTokenAccount => seq![role_r(), role_rs(), role_w(), role_w(), role_r(), role_r()],
        NcnInstruction::OperatorDelegateTokenAccount => seq![role_r(), role_rs(), role_w(), role_w(), role_r(), role_r()],
        NcnInstruction::SetConfigAdmin => seq![role_w(), role_rs(), role_r()],
    }
}

/// The instruction without payload whose tag is `tag`, if any.
pub open spec fn ncn_unit_instruction(tag: u8) -> Option<NcnInstruction> {
    if tag == 0 {
        Some(NcnInstruction::InitializeConfig)
    } else if tag == 1 {
        Some(NcnInstruction::InitializeNcn)
    } else if tag == 3 {
        Some(NcnInstruction::InitializeNcnVaultTicket)
    } else if tag == 4 {
        Some(NcnInstruction::WarmupNcnVaultTicket)
    } else if tag == 5 {
        Some(NcnInstruction::CooldownNcnVaultTicket)
    } else if tag == 6 {
        Some(NcnInstruction::InitializeNcnOperatorState)
    } else if tag == 7 {
        Some(NcnInstruction::NcnWarmupOperator)
    } else if tag == 8 {
        Some(NcnInstruction::NcnCooldownOperator)
    } else if tag == 9 {
        Some(NcnInstruction::OperatorWarmupNcn)
    } else if tag == 10 {
        Some(NcnInstruction::OperatorCooldownNcn)
    } else if tag == 12 {
        Some(NcnInstruction::WarmupNcnVaultSlasherTicket)
    } else if tag == 13 {
        Some(NcnInstruction::CooldownNcnVaultSlasherTicket)
    } else if tag == 14 {
        Some(NcnInstruction::InitializeOperatorVaultTicket)
    } else if tag == 15 {
        Some(NcnInstruction::WarmupOperatorVaultTicket)
    } else if tag == 16 {
        Some(NcnInstruction::CooldownOperatorVaultTicket)
    } else if tag == 17 {
        Some(NcnInstruction::NcnSetAdmin)
    } else if tag == 19 {
        Some(NcnInstruction::OperatorSetAdmin)
    } else if tag == 22 {
        Some(NcnInstruction::NcnDelegateTokenAccount)
    } else if tag == 23 {
        Some(NcnInstruction::OperatorDelegateTokenAccount)
    } else if tag == 24 {
        Some(NcnInstruction::SetConfigAdmin)
    } else {
        None
    }
}

/// The role whose byte is `b`, if any.
pub open spec fn role_of_byte(b: u8) -> Option<AdminRole> {
    if b == 0 {
        Some(AdminRole::Voter)
    } else if b == 1 {
        Some(AdminRole::DelegateAdmin)
    } else {
        None
    }
}

/// The instruction that `data` encodes: a known tag followed by exactly its
/// payload; anything else, truncated or over-long, is `InvalidInstructionData`.
pub open spec fn ncn_decode_spec(data: Seq<u8>) -> Result<NcnInstruction, RestakingError> {
    if data.len() == 0 {
        Err(RestakingError::InvalidInstructionData)
    } else if data[0] == 2 || data[0] == 21 {
        if data.len() == 3 {
            let fee = le_value(data.drop_first()) as u16;
            Ok(if data[0] == 2 {
                NcnInstruction::InitializeOperator(fee)
            } else {
                NcnInstruction::OperatorSetFee(fee)
            })
        } else {
            Err(RestakingError::InvalidInstructionData)
        }
    } else if data[0] == 11 {
        if data.len() == 9 {
            Ok(NcnInstruction::InitializeNcnVaultSlasherTicket(le_value(data.drop_first()) as u64))
        } else {
            Err(RestakingError::InvalidInstructionData)
        }
    } else if data[0] == 18 || data[0] == 20 {
        if data.len() == 2 && role_of_byte(data[1]) is Some {
            let role = role_of_byte(data[1])->0;
            Ok(if data[0] == 18 {
                NcnInstruction::NcnSetSecondaryAdmin(role)
            } else {
                NcnInstruction::OperatorSetSecondaryAdmin(role)
            })
        } else {
            Err(RestakingError::InvalidInstructionData)
        }
    } else {
        match ncn_unit_instruction(data[0]) {
            Some(ix) => if data.len() == 1 {
                Ok(ix)
            } else {
                Err(RestakingError::InvalidInstructionData)
            },
            None => Err(RestakingError::InvalidInstructionData),
        }
    }
}

/// The outcome of dispatching `data` with `accounts`.
pub open spec fn ncn_dispatch_spec(data: Seq<u8>, accounts: Seq<AccountRef>) -> Result<
    NcnInstruction,
    RestakingError,
> {
    match ncn_decode_spec(data) {
        Err(e) => Err(e),
        Ok(ix) => match accounts_check_spec(accounts, ncn_schema_spec(ix)) {
            Ok(()) => Ok(ix),
            Err(e) => Err(e),
        },
    }
}

/// Decoding an instruction's encoding gives the instruction back, and what
/// decodes is exactly the encoding of what it decodes to.
pub proof fn lemma_ncn_codec_round_trip(ix: NcnInstruction, data: Seq<u8>)
    ensures
        ncn_decode_spec(ncn_encode_spec(ix)) == Ok::<NcnInstruction, RestakingError>(ix),
        ncn_decode_spec(data) matches Ok(d) ==> ncn_encode_spec(d) == data,
{
    let e = ncn_encode_spec(ix);
    match ix {
        NcnInstruction::InitializeOperator(fee) | NcnInstruction::OperatorSetFee(fee) => {
            lemma_u16_fits(fee);
            lemma_le_bytes_len(fee as nat, 2);
            lemma_le_round_trip(fee as nat, 2);
            assert(e.drop_first() =~= le_bytes(fee as nat, 2));
        },
        NcnInstruction::InitializeNcnVaultSlasherTicket(m) => {
            lemma_u64_fits(m);
            lemma_le_bytes_len(m as nat, 8);
            lemma_le_round_trip(m as nat, 8);
            assert(e.drop_first() =~= le_bytes(m as nat, 8));
        },
        _ => {},
    }
    if data.len() == 3 && (data[0] == 2 || data[0] == 21) {
        let rest = data.drop_first();
        lemma_le_bytes_of_value(rest);
        lemma_u16_fits(0);
        assert(le_value(rest) as u16 as nat == le_value(rest));
        assert(data =~= seq![data[0]] + rest);
    }
    if data.len() == 9 && data[0] == 11 {
        let rest = data.drop_first();
        lemma_le_bytes_of_value(rest);
        lemma_u64_fits(0);
        assert(le_value(rest) as u64 as nat == le_value(rest));
        assert(data =~= seq![11u8] + rest);
    }
    if data.len() == 2 {
        assert(data =~= seq![data[0], data[1]]);
    }
    if data.len() == 1 {
        if let Some(d) = ncn_unit_instruction(data[0]) {
            assert(ncn_tag_spec(d) == data[0]);
        }
        assert(data =~= seq![data[0]]);
    }
}

impl NcnInstruction {
    /// The accounts this instruction takes, position by position.
    pub fn schema(&self) -> (r: Vec<AccountRole>)
        ensures
            r@ == ncn_schema_spec(*self),
    {
        let r = AccountRole::read();
        let w = AccountRole::write();
        let rs = AccountRole::read_signer();
        let ws = AccountRole::write_signer();
        let sys = AccountRole::system();
        let v = match self {
            NcnInstruction::InitializeConfig => vec![w, ws, r, sys],
            NcnInstruction::InitializeNcn => vec![w, w, ws, rs, sys],
            NcnInstruction::InitializeOperator(_) => vec![w, w, ws, rs, sys],
            NcnInstruction::InitializeNcnVaultTicket => vec![r, w, r, w, rs, ws, sys],
            NcnInstruction::WarmupNcnVaultTicket => vec![r, r, r, w, rs],
            NcnInstruction::CooldownNcnVaultTicket => vec![r, r, r, w, rs],
            NcnInstruction::InitializeNcnOperatorState => vec![r, w, w, w, rs, ws, sys],
            NcnInstruction::NcnWarmupOperator => vec![r, r, r, w, rs],
            NcnInstruction::NcnCooldownOperator => vec![r, r, r, w, rs],
            NcnInstruction::OperatorWarmupNcn => vec![r, r, r, w, rs],
            NcnInstruction::OperatorCooldownNcn => vec![r, r, r, w, rs],
            NcnInstruction::InitializeNcnVaultSlasherTicket(_) => vec![r, w, r, r, r, w, rs, ws, sys],
            NcnInstruction::WarmupNcnVaultSlasherTicket => vec![r, r, r, r, r, w, rs],
            NcnInstruction::CooldownNcnVaultSlasherTicket => vec![r, r, r, r, w, rs],
            NcnInstruction::InitializeOperatorVaultTicket => vec![r, w, r, w, rs, ws, sys],
            NcnInstruction::WarmupOperatorVaultTicket => vec![r, r, r, w, rs],
            NcnInstruction::CooldownOperatorVaultTicket => vec![r, r, r, w, rs],
            NcnInstruction::NcnSetAdmin => vec![w, rs, rs],
            NcnInstruction::NcnSetSecondaryAdmin(_) => vec![w, rs, r],
            NcnInstruction::OperatorSetAdmin => vec![w, rs, rs],
            NcnInstruction::OperatorSetSecondaryAdmin(_) => vec![w, rs, r],
            NcnInstruction::OperatorSetFee(_) => vec![r, w, rs],
            NcnInstruction::NcnDelegateTokenAccount => vec![r, rs, w, w, r, r],
            NcnInstruction::OperatorDelegateTokenAccount => vec![r, rs, w, w, r, r],
            NcnInstruction::SetConfigAdmin => vec![w, rs, r],
        };
        assert(v@ =~= ncn_schema_spec(*self));
        v
    }

    /// Decodes an instruction: a known tag followed by exactly its payload.
    pub fn decode(data: &[u8]) -> (r: Result<NcnInstruction, RestakingError>)
        ensures
            r == ncn_decode_spec(data@),
    {
        if data.len() == 0 {
            return Err(RestakingError::InvalidInstructionData);
        }
        let tag = data[0];
        if tag == 2 || tag == 21 {
            if data.len() != 3 {
                return Err(RestakingError::InvalidInstructionData);
            }
            let payload = slice_subrange(data, 1, 3);
            assert(payload@ =~= data@.drop_first());
            match u16_from_bytes(payload) {
                Some(fee) => Ok(if tag == 2 {
                    NcnInstruction::InitializeOperator(fee)
                } else {
                    NcnInstruction::OperatorSetFee(fee)
                }),
                None => Err(RestakingError::InvalidInstructionData),
            }
        } else if tag == 11 {
            if data.len() != 9 {
                return Err(RestakingError::InvalidInstructionData);
            }
            let payload = slice_subrange(data, 1, 9);
            assert(payload@ =~= data@.drop_first());
            match u64_from_bytes(payload) {
                Some(m) => Ok(NcnInstruction::InitializeNcnVaultSlasherTicket(m)),
                None => Err(RestakingError::InvalidInstructionData),
            }
        } else if tag == 18 || tag == 20 {
            if data.len() != 2 {
                return Err(RestakingError::InvalidInstructionData);
            }
            let role = if data[1] == 0 {
                AdminRole::Voter
            } else if data[1] == 1 {
                AdminRole::DelegateAdmin
            } else {
                return Err(RestakingError::InvalidInstructionData);
            };
            Ok(if tag == 18 {
                NcnInstruction::NcnSetSecondaryAdmin(role)
            } else {
                NcnInstruction::OperatorSetSecondaryAdmin(role)
            })
        } else {
            let ix = if tag == 0 {
                NcnInstruction::InitializeConfig
            } else if tag == 1 {
                NcnInstruction::InitializeNcn
            } else if tag == 3 {
                NcnInstruction::InitializeNcnVaultTicket
            } else if tag == 4 {
                NcnInstruction::WarmupNcnVaultTicket
            } else if tag == 5 {
                NcnInstruction::CooldownNcnVaultTicket
            } else if tag == 6 {
                NcnInstruction::InitializeNcnOperatorState
            } else if tag == 7 {
                NcnInstruction::NcnWarmupOperator
            } else if tag == 8 {
                NcnInstruction::NcnCooldownOperator
            } else if tag == 9 {
                NcnInstruction::OperatorWarmupNcn
            } else if tag == 10 {
                NcnInstruction::OperatorCooldownNcn
            } else if tag == 12 {
                NcnInstruction::WarmupNcnVaultSlasherTicket
            } else if tag == 13 {
                NcnInstruction::CooldownNcnVaultSlasherTicket
            } else if tag == 14 {
                NcnInstruction::InitializeOperatorVaultTicket
            } else if tag == 15 {
                NcnInstruction::WarmupOperatorVaultTicket
            } else if tag == 16 {
                NcnInstruction::CooldownOperatorVaultTicket
            } else if tag == 17 {
                NcnInstruction::NcnSetAdmin
            } else if tag == 19 {
                NcnInstruction::OperatorSetAdmin
            } else if tag == 22 {
                NcnInstruction::NcnDelegateTokenAccount
            } else if tag == 23 {
                NcnInstruction::OperatorDelegateTokenAccount
            } else if tag == 24 {
                NcnInstruction::SetConfigAdmin
            } else {
                return Err(RestakingError::InvalidInstructionData);
            };
            if data.len() != 1 {
                return Err(RestakingError::InvalidInstructionData);
            }
            Ok(ix)
        }
    }
}

/// Decodes a network-era instruction and checks the supplied accounts against
/// its schema; yields the instruction once every account has passed.
pub fn dispatch_ncn(data: &[u8], accounts: &[AccountRef]) -> (r: Result<NcnInstruction, RestakingError>)
    ensures
        r == ncn_dispatch_spec(data@, accounts@),
{
    let ix = NcnInstruction::decode(data)?;
    let roles = ix.schema();
    match check_accounts(accounts, &roles) {
        Ok(()) => Ok(ix),
        Err(e) => Err(e),
    }
}

} // verus!
