use vstd::prelude::*;
use vstd::slice::slice_subrange;

use crate::address::{system_program_bytes, Address};
use crate::codec::{
    le_bytes, le_value, lemma_le_bytes_len, lemma_le_bytes_of_value, lemma_le_round_trip,
    lemma_u64_fits, u64_from_bytes, u64_to_bytes,
};
use crate::client::{meets_schema, AccountMeta};
use crate::error::RestakingError;
use crate::sanitize::{check, check_spec, AccountRef, Constraints};

verus! {

/// The restaking program's instructions. On the wire each is its one-byte tag
/// (its position here) followed by its payload, little-endian.
#[derive(Clone, Copy, Debug, PartialEq, Eq, Structural)]
pub enum RestakingInstruction {
    /// Initializes the global configuration.
    /// Accounts: config (w), admin (w, s), vault_program, system_program.
    InitializeConfig,
    /// Initializes the AVS.
    /// Accounts: config (w), avs (w), avs_operator_list (w), avs_vault_list (w),
    /// avs_slasher_list (w), admin (w, s), base (s), system_program.
    InitializeAvs,
    /// AVS adds support for receiving delegation from a vault.
    /// Accounts: config, avs (w), avs_vault_list (w), admin (w, s), vault_program,
    /// vault, vault_config, vault_avs_list (w), payer (w, s), system_program.
    AvsAddVault,
    /// AVS removes support for receiving delegation from a vault.
    /// Accounts as for `AvsAddVault`.
    AvsRemoveVault,
    /// Initializes an operator.
    /// Accounts: config (w), node_operator (w), node_operator_avs_list (w),
    /// node_operator_vault_list (w), admin (w, s), base (s), system_program.
    InitializeOperator,
    /// Sets the admin for a node operator.
    /// Accounts: node_operator (w), old_admin (s), new_admin (s).
    OperatorSetAdmin,
    /// Sets the voter for a node operator.
    /// Accounts: node_operator (w), admin (s), voter.
    OperatorSetVoter,
    /// Node operator adds support for receiving delegation from a vault.
    /// Accounts: config, node_operator (w), node_operator_vault_list (w),
    /// admin (w, s), vault_program, vault, vault_config, vault_operator_list (w),
    /// payer (w, s), system_program.
    OperatorAddVault,
    /// Node operator removes support for receiving delegation from a vault.
    /// Accounts as for `OperatorAddVault`.
    OperatorRemoveVault,
    /// Node operator adds support for running an AVS.
    /// Accounts: config, node_operator, node_operator_avs_list (w), avs, admin (w, s).
    OperatorAddAvs,
    /// Node operator removes support for running an AVS.
    /// Accounts as for `OperatorAddAvs`.
    OperatorRemoveAvs,
    /// After the node operator has opted-in to the network, the AVS can choose to add it.
    /// Accounts: config, avs, avs_operator_list (w), node_operator,
    /// node_operator_avs_list (w), admin (w, s).
    AvsAddNodeOperator,
    /// The node operator can remove itself from the network.
    /// Accounts: config, avs, avs_operator_list (w), node_operator, admin (w, s).
    AvsRemoveNodeOperator,
    /// The AVS adds support for a vault slasher, with its most slashable per epoch.
    /// Accounts: config, avs, avs_vault_list, avs_slasher_list (w), vault, slasher,
    /// admin (w, s), payer (w, s), system_program.
    AvsAddVaultSlasher(u64),
    /// AVS removes support for a slasher.
    /// Accounts: config, avs, avs_vault_list, avs_slasher_list (w), vault, slasher,
    /// admin (w, s), payer (w, s).
    AvsDeprecateVaultSlasher,
}

/// What one position of an instruction's account list must be.
#[derive(Clone, Copy, Debug, PartialEq, Eq, Structural)]
pub struct AccountRole {
    pub writable: bool,
    pub signer: bool,
    /// The account must be the system program.
    pub system_program: bool,
}

pub open spec fn role_r() -> AccountRole {
    AccountRole { writable: false, signer: false, system_program: false }
}

pub open spec fn role_w() -> AccountRole {
    AccountRole { writable: true, signer: false, system_program: false }
}

pub open spec fn role_rs() -> AccountRole {
    AccountRole { writable: false, signer: true, system_program: false }
}

pub open spec fn role_ws() -> AccountRole {
    AccountRole { writable: true, signer: true, system_program: false }
}

pub open spec fn role_sys() -> AccountRole {
    AccountRole { writable: false, signer: false, system_program: true }
}

impl AccountRole {
    pub fn read() -> (r: AccountRole)
        ensures
            r == role_r(),
    {
        AccountRole { writable: false, signer: false, system_program: false }
    }

    pub fn write() -> (r: AccountRole)
        ensures
            r == role_w(),
    {
        AccountRole { writable: true, signer: false, system_program: false }
    }

    pub fn read_signer() -> (r: AccountRole)
        ensures
            r == role_rs(),
    {
        AccountRole { writable: false, signer: true, system_program: false }
    }

    pub fn write_signer() -> (r: AccountRole)
        ensures
            r == role_ws(),
    {
        AccountRole { writable: true, signer: true, system_program: false }
    }

    pub fn system() -> (r: AccountRole)
        ensures
            r == role_sys(),
    {
        AccountRole { writable: false, signer: false, system_program: true }
    }
}

/// The accounts an opcode takes, position by position.
pub open spec fn schema_spec(ix: RestakingInstruction) -> Seq<AccountRole> {
    match ix {
        RestakingInstruction::InitializeConfig => seq![role_w(), role_ws(), role_r(), role_sys()],
        RestakingInstruction::InitializeAvs => seq![
            role_w(),
            role_w(),
            role_w(),
            role_w(),
            role_w(),
            role_ws(),
            role_rs(),
            role_sys(),
        ],
        RestakingInstruction::AvsAddVault | RestakingInstruction::AvsRemoveVault
        | RestakingInstruction::OperatorAddVault
        | RestakingInstruction::OperatorRemoveVault => seq![
            role_r(),
            role_w(),
            role_w(),
            role_ws(),
            role_r(),
            role_r(),
            role_r(),
            role_w(),
            role_ws(),
            role_sys(),
        ],
        RestakingInstruction::InitializeOperator => seq![
            role_w(),
            role_w(),
            role_w(),
            role_w(),
            role_ws(),
            role_rs(),
            role_sys(),
        ],
        RestakingInstruction::OperatorSetAdmin => seq![role_w(), role_rs(), role_rs()],
        RestakingInstruction::OperatorSetVoter => seq![role_w(), role_rs(), role_r()],
        RestakingInstruction::OperatorAddAvs | RestakingInstruction::OperatorRemoveAvs
        | RestakingInstruction::AvsRemoveNodeOperator => seq![
            role_r(),
            role_r(),
            role_w(),
            role_r(),
            role_ws(),
        ],
        RestakingInstruction::AvsAddNodeOperator => seq![
            role_r(),
            role_r(),
            role_w(),
            role_r(),
            role_w(),
            role_ws(),
        ],
        RestakingInstruction::AvsAddVaultSlasher(_) => seq![
            role_r(),
            role_r(),
            role_r(),
            role_w(),
            role_r(),
            role_r(),
            role_ws(),
            role_ws(),
            role_sys(),
        ],
        RestakingInstruction::AvsDeprecateVaultSlasher => seq![
            role_r(),
            role_r(),
            role_r(),
            role_w(),
            role_r(),
            role_r(),
            role_ws(),
            role_ws(),
        ],
    }
}

/// An opcode's one-byte tag.
pub open spec fn tag_spec(ix: RestakingInstruction) -> u8 {
    match ix {
        RestakingInstruction::InitializeConfig => 0,
        RestakingInstruction::InitializeAvs => 1,
        RestakingInstruction::AvsAddVault => 2,
        RestakingInstruction::AvsRemoveVault => 3,
        RestakingInstruction::InitializeOperator => 4,
        RestakingInstruction::OperatorSetAdmin => 5,
        RestakingInstruction::OperatorSetVoter => 6,
        RestakingInstruction::OperatorAddVault => 7,
        RestakingInstruction::OperatorRemoveVault => 8,
        RestakingInstruction::OperatorAddAvs => 9,
        RestakingInstruction::OperatorRemoveAvs => 10,
        RestakingInstruction::AvsAddNodeOperator => 11,
        RestakingInstruction::AvsRemoveNodeOperator => 12,
        RestakingInstruction::AvsAddVaultSlasher(_) => 13,
        RestakingInstruction::AvsDeprecateVaultSlasher => 14,
    }
}

/// The instruction's bytes on the wire.
pub open spec fn encode_spec(ix: RestakingInstruction) -> Seq<u8> {
    match ix {
        RestakingInstruction::AvsAddVaultSlasher(m) => seq![tag_spec(ix)] + le_bytes(m as nat, 8),
        _ => seq![tag_spec(ix)],
    }
}

/// The instruction without payload whose tag is `tag`, if any.
pub open spec fn unit_instruction(tag: u8) -> Option<RestakingInstruction> {
    if tag == 0 {
        Some(RestakingInstruction::InitializeConfig)
    } else if tag == 1 {
        Some(RestakingInstruction::InitializeAvs)
    } else if tag == 2 {
        Some(RestakingInstruction::AvsAddVault)
    } else if tag == 3 {
        Some(RestakingInstruction::AvsRemoveVault)
    } else if tag == 4 {
        Some(RestakingInstruction::InitializeOperator)
    } else if tag == 5 {
        Some(RestakingInstruction::OperatorSetAdmin)
    } else if tag == 6 {
        Some(RestakingInstruction::OperatorSetVoter)
    } else if tag == 7 {
        Some(RestakingInstruction::OperatorAddVault)
    } else if tag == 8 {
        Some(RestakingInstruction::OperatorRemoveVault)
    } else if tag == 9 {
        Some(RestakingInstruction::OperatorAddAvs)
    } else if tag == 10 {
        Some(RestakingInstruction::OperatorRemoveAvs)
    } else if tag == 11 {
        Some(RestakingInstruction::AvsAddNodeOperator)
    } else if tag == 12 {
        Some(RestakingInstruction::AvsRemoveNodeOperator)
    } else if tag == 14 {
        Some(RestakingInstruction::AvsDeprecateVaultSlasher)
    } else {
        None
    }
}

/// The instruction that `data` encodes: a known tag followed by exactly its
/// payload; anything else, truncated or over-long, is `InvalidInstructionData`.
pub open spec fn decode_spec(data: Seq<u8>) -> Result<RestakingInstruction, RestakingError> {
    if data.len() == 0 {
        Err(RestakingError::InvalidInstructionData)
    } else if data[0] == 13 {
        if data.len() == 9 {
            Ok(RestakingInstruction::AvsAddVaultSlasher(le_value(data.drop_first()) as u64))
        } else {
            Err(RestakingError::InvalidInstructionData)
        }
    } else {
        match unit_instruction(data[0]) {
            Some(ix) => if data.len() == 1 {
                Ok(ix)
            } else {
                Err(RestakingError::InvalidInstructionData)
            },
            None => Err(RestakingError::InvalidInstructionData),
        }
    }
}

/// Decoding an instruction's encoding gives the instruction back, and what
/// decodes is exactly the encoding of what it decodes to: nothing is
/// truncated and nothing trails.
pub proof fn lemma_codec_round_trip(ix: RestakingInstruction, data: Seq<u8>)
    ensures
        decode_spec(encode_spec(ix)) == Ok::<RestakingInstruction, RestakingError>(ix),
        decode_spec(data) matches Ok(d) ==> encode_spec(d) == data,
{
    let e = encode_spec(ix);
    if let RestakingInstruction::AvsAddVaultSlasher(m) = ix {
        lemma_u64_fits(m);
        lemma_le_bytes_len(m as nat, 8);
        lemma_le_round_trip(m as nat, 8);
        assert(e.drop_first() =~= le_bytes(m as nat, 8));
    }
    if data.len() == 9 && data[0] == 13 {
        let rest = data.drop_first();
        lemma_le_bytes_of_value(rest);
        lemma_u64_fits(0);
        assert(le_value(rest) as u64 as nat == le_value(rest));
        assert(data =~= seq![13u8] + rest);
    }
    if data.len() == 1 {
        if let Some(d) = unit_instruction(data[0]) {
            assert(tag_spec(d) == data[0]);
        }
        assert(data =~= seq![data[0]]);
    }
}

/// The outcome of checking one account against its role: address, then
/// signer, then writable.
pub open spec fn role_check_spec(a: AccountRef, role: AccountRole) -> Result<(), RestakingError> {
    if role.system_program && a.key@ != system_program_bytes() {
        Err(RestakingError::InvalidAccountData)
    } else if role.signer && !a.is_signer {
        Err(RestakingError::MissingSigner)
    } else if role.writable && !a.is_writable {
        Err(RestakingError::MissingWritable)
    } else {
        Ok(())
    }
}

/// The first failing position from `i` on, if any.
pub open spec fn first_failure(
    accounts: Seq<AccountRef>,
    roles: Seq<AccountRole>,
    i: int,
) -> Result<(), RestakingError>
    decreases roles.len() - i,
{
    if i < 0 || i >= roles.len() || i >= accounts.len() {
        Ok(())
    } else {
        match role_check_spec(accounts[i], roles[i]) {
            Err(e) => Err(e),
            Ok(()) => first_failure(accounts, roles, i + 1),
        }
    }
}

/// The outcome of checking supplied accounts against a schema: too few
/// accounts fail first; then the first position that fails; extra trailing
/// accounts are ignored.
pub open spec fn accounts_check_spec(accounts: Seq<AccountRef>, roles: Seq<AccountRole>) -> Result<
    (),
    RestakingError,
> {
    if accounts.len() < roles.len() {
        Err(RestakingError::NotEnoughAccountKeys)
    } else {
        first_failure(accounts, roles, 0)
    }
}

/// Every position from `i` on passes, so nothing fails from `i` on.
proof fn lemma_first_failure_ok(accounts: Seq<AccountRef>, roles: Seq<AccountRole>, i: int)
    requires
        0 <= i,
        forall|j: int| i <= j < roles.len() && j < accounts.len() ==> role_check_spec(#[trigger] accounts[j], roles[j]) is Ok,
    ensures
        first_failure(accounts, roles, i) == Ok::<(), RestakingError>(()),
    decreases roles.len() - i,
{
    if i < roles.len() && i < accounts.len() {
        lemma_first_failure_ok(accounts, roles, i + 1);
    }
}

/// Accounts supplied exactly as a meta list that meets an opcode's schema
/// lays them out (address, signer and writable flags; trailing extras allowed)
/// pass the account check, so an instruction that a builder made dispatches.
pub proof fn lemma_built_accounts_pass(
    metas: Seq<AccountMeta>,
    roles: Seq<AccountRole>,
    accounts: Seq<AccountRef>,
)
    requires
        meets_schema(metas, roles),
        accounts.len() >= metas.len(),
        forall|i: int| 0 <= i < metas.len() ==> {
            &&& (#[trigger] accounts[i]).key@ == metas[i].pubkey@
            &&& accounts[i].is_signer == metas[i].is_signer
            &&& accounts[i].is_writable == metas[i].is_writable
        },
    ensures
        accounts_check_spec(accounts, roles) == Ok::<(), RestakingError>(()),
{
    assert forall|j: int| 0 <= j < roles.len() && j < accounts.len() implies role_check_spec(
        #[trigger] accounts[j],
        roles[j],
    ) is Ok by {
        assert(accounts[j].key@ == metas[j].pubkey@);
    }
    lemma_first_failure_ok(accounts, roles, 0);
}

/// The outcome of dispatching `data` with `accounts`.
pub open spec fn dispatch_spec(data: Seq<u8>, accounts: Seq<AccountRef>) -> Result<
    RestakingInstruction,
    RestakingError,
> {
    match decode_spec(data) {
        Err(e) => Err(e),
        Ok(ix) => match accounts_check_spec(accounts, schema_spec(ix)) {
            Ok(()) => Ok(ix),
            Err(e) => Err(e),
        },
    }
}

impl RestakingInstruction {
    /// The one-byte tag.
    pub fn tag(&self) -> (r: u8)
        ensures
            r == tag_spec(*self),
    {
        match self {
            RestakingInstruction::InitializeConfig => 0,
            RestakingInstruction::InitializeAvs => 1,
            RestakingInstruction::AvsAddVault => 2,
            RestakingInstruction::AvsRemoveVault => 3,
            RestakingInstruction::InitializeOperator => 4,
            RestakingInstruction::OperatorSetAdmin => 5,
            RestakingInstruction::OperatorSetVoter => 6,
            RestakingInstruction::OperatorAddVault => 7,
            RestakingInstruction::OperatorRemoveVault => 8,
            RestakingInstruction::OperatorAddAvs => 9,
            RestakingInstruction::OperatorRemoveAvs => 10,
            RestakingInstruction::AvsAddNodeOperator => 11,
            RestakingInstruction::AvsRemoveNodeOperator => 12,
            RestakingInstruction::AvsAddVaultSlasher(_) => 13,
            RestakingInstruction::AvsDeprecateVaultSlasher => 14,
        }
    }

    /// The accounts this instruction takes, position by position.
    pub fn schema(&self) -> (r: Vec<AccountRole>)
        ensures
            r@ == schema_spec(*self),
    {
        let r = AccountRole::read();
        let w = AccountRole::write();
        let rs = AccountRole::read_signer();
        let ws = AccountRole::write_signer();
        let sys = AccountRole::system();
        let v = match self {
            RestakingInstruction::InitializeConfig => vec![w, ws, r, sys],
            RestakingInstruction::InitializeAvs => vec![w, w, w, w, w, ws, rs, sys],
            RestakingInstruction::AvsAddVault | RestakingInstruction::AvsRemoveVault
            | RestakingInstruction::OperatorAddVault
            | RestakingInstruction::OperatorRemoveVault => vec![r, w, w, ws, r, r, r, w, ws, sys],
            RestakingInstruction::InitializeOperator => vec![w, w, w, w, ws, rs, sys],
            RestakingInstruction::OperatorSetAdmin => vec![w, rs, rs],
            RestakingInstruction::OperatorSetVoter => vec![w, rs, r],
            RestakingInstruction::OperatorAddAvs | RestakingInstruction::OperatorRemoveAvs
            | RestakingInstruction::AvsRemoveNodeOperator => vec![r, r, w, r, ws],
            RestakingInstruction::AvsAddNodeOperator => vec![r, r, w, r, w, ws],
            RestakingInstruction::AvsAddVaultSlasher(_) => vec![r, r, r, w, r, r, ws, ws, sys],
            RestakingInstruction::AvsDeprecateVaultSlasher => vec![r, r, r, w, r, r, ws, ws],
        };
        assert(v@ =~= schema_spec(*self));
        v
    }

    /// The instruction's bytes: its tag, then its payload.
    pub fn encode(&self) -> (r: Vec<u8>)
        ensures
            r@ == encode_spec(*self),
    {
        let mut out: Vec<u8> = Vec::new();
        out.push(self.tag());
        match self {
            RestakingInstruction::AvsAddVaultSlasher(m) => {
                let mut payload = u64_to_bytes(*m);
                out.append(&mut payload);
            },
            _ => {},
        }
        assert(out@ =~= encode_spec(*self));
        out
    }

    /// Decodes an instruction: a known tag followed by exactly its payload.
    pub fn decode(data: &[u8]) -> (r: Result<RestakingInstruction, RestakingError>)
        ensures
            r == decode_spec(data@),
    {
        if data.len() == 0 {
            return Err(RestakingError::InvalidInstructionData);
        }
        let tag = data[0];
        if tag == 13 {
            if data.len() != 9 {
                return Err(RestakingError::InvalidInstructionData);
            }
            let payload = slice_tail(data);
            match u64_from_bytes(payload) {
                Some(m) => Ok(RestakingInstruction::AvsAddVaultSlasher(m)),
                None => Err(RestakingError::InvalidInstructionData),
            }
        } else {
            let ix = if tag == 0 {
                RestakingInstruction::InitializeConfig
            } else if tag == 1 {
                RestakingInstruction::InitializeAvs
            } else if tag == 2 {
                RestakingInstruction::AvsAddVault
            } else if tag == 3 {
                RestakingInstruction::AvsRemoveVault
            } else if tag == 4 {
                RestakingInstruction::InitializeOperator
            } else if tag == 5 {
                RestakingInstruction::OperatorSetAdmin
            } else if tag == 6 {
                RestakingInstruction::OperatorSetVoter
            } else if tag == 7 {
                RestakingInstruction::OperatorAddVault
            } else if tag == 8 {
                RestakingInstruction::OperatorRemoveVault
            } else if tag == 9 {
                RestakingInstruction::OperatorAddAvs
            } else if tag == 10 {
                RestakingInstruction::OperatorRemoveAvs
            } else if tag == 11 {
                RestakingInstruction::AvsAddNodeOperator
            } else if tag == 12 {
                RestakingInstruction::AvsRemoveNodeOperator
            } else if tag == 14 {
                RestakingInstruction::AvsDeprecateVaultSlasher
            } else {
                return Err(RestakingError::InvalidInstructionData);
            };
            if data.len() != 1 {
                return Err(RestakingError::InvalidInstructionData);
            }
            Ok(ix)
        }
    }
}

/// The bytes of `data` after the first.
fn slice_tail(data: &[u8]) -> (r: &[u8])
    requires
        data@.len() >= 1,
    ensures
        r@ == data@.drop_first(),
{
    let r = slice_subrange(data, 1, data.len());
    assert(r@ =~= data@.drop_first());
    r
}

/// The constraints that a role puts on an account.
pub fn role_constraints(role: AccountRole) -> (c: Constraints)
    ensures
        forall|a: AccountRef| check_spec(a, c) == role_check_spec(a, role),
{
    let address = if role.system_program {
        Some(Address::system_program())
    } else {
        None
    };
    Constraints { address, owner: None, signer: role.signer, writable: role.writable, derivation: None }
}

/// Checks supplied accounts against a schema, position by position.
pub fn check_accounts(accounts: &[AccountRef], roles: &Vec<AccountRole>) -> (r: Result<(), RestakingError>)
    ensures
        r == accounts_check_spec(accounts@, roles@),
{
    if accounts.len() < roles.len() {
        return Err(RestakingError::NotEnoughAccountKeys);
    }
    let mut i: usize = 0;
    while i < roles.len()
        invariant
            i <= roles@.len() <= accounts@.len(),
            first_failure(accounts@, roles@, 0) == first_failure(accounts@, roles@, i as int),
        decreases roles@.len() - i,
    {
        let c = role_constraints(roles[i]);
        match check(&accounts[i], &c) {
            Err(e) => {
                return Err(e);
            },
            Ok(()) => {},
        }
        i = i + 1;
    }
    Ok(())
}

/// Decodes the instruction in `data` and checks the supplied accounts against
/// its schema; yields the instruction once every account has passed.
pub fn dispatch(data: &[u8], accounts: &[AccountRef]) -> (r: Result<RestakingInstruction, RestakingError>)
    ensures
        r == dispatch_spec(data@, accounts@),
{
    let ix = RestakingInstruction::decode(data)?;
    let roles = ix.schema();
    match check_accounts(accounts, &roles) {
        Ok(()) => Ok(ix),
        Err(e) => Err(e),
    }
}

} // verus!
