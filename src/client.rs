use vstd::prelude::*;

use crate::address::{system_program_bytes, Address};
use crate::instruction::AccountRole;

verus! {

/// One account of an instruction as submitted: its address and whether it
/// signs and is writable.
#[derive(Clone, Copy, Debug, PartialEq, Eq)]
pub struct AccountMeta {
    pub pubkey: Address,
    pub is_signer: bool,
    pub is_writable: bool,
}

/// An instruction ready for submission: the program, its accounts in order,
/// and its bytes.
#[derive(Clone, Debug, PartialEq, Eq)]
pub struct Instruction {
    pub program_id: Address,
    pub accounts: Vec<AccountMeta>,
    pub data: Vec<u8>,
}

/// An account meta as address, signer flag, writable flag.
pub open spec fn meta_view(m: AccountMeta) -> (Seq<u8>, bool, bool) {
    (m.pubkey@, m.is_signer, m.is_writable)
}

pub open spec fn metas_view(ms: Seq<AccountMeta>) -> Seq<(Seq<u8>, bool, bool)> {
    ms.map_values(|m: AccountMeta| meta_view(m))
}

/// The metas give every position of the schema what it requires.
pub open spec fn meets_schema(metas: Seq<AccountMeta>, roles: Seq<AccountRole>) -> bool {
    &&& metas.len() == roles.len()
    &&& forall|i: int|
        0 <= i < roles.len() ==> {
            &&& (#[trigger] roles[i]).signer ==> metas[i].is_signer
            &&& roles[i].writable ==> metas[i].is_writable
            &&& roles[i].system_program ==> metas[i].pubkey@ == system_program_bytes()
        }
}

impl AccountMeta {
    /// A writable account.
    pub fn new(pubkey: Address, is_signer: bool) -> (r: AccountMeta)
        ensures
            r == (AccountMeta { pubkey, is_signer, is_writable: true }),
    {
        AccountMeta { pubkey, is_signer, is_writable: true }
    }

    /// A read-only account.
    pub fn new_readonly(pubkey: Address, is_signer: bool) -> (r: AccountMeta)
        ensures
            r == (AccountMeta { pubkey, is_signer, is_writable: false }),
    {
        AccountMeta { pubkey, is_signer, is_writable: false }
    }
}

} // verus!
