use vstd::prelude::*;

use crate::address::{associated_token_program_bytes, Address};
use crate::error::RestakingError;

verus! {

/// Most seeds a program address may be derived from.
pub const MAX_SEEDS: usize = 16;

/// Longest seed a program address may be derived from.
pub const MAX_SEED_LEN: usize = 32;

/// A raw, untrusted account reference as supplied with a transaction.
#[derive(Clone, Debug)]
pub struct AccountRef {
    pub key: Address,
    pub owner: Address,
    pub is_signer: bool,
    pub is_writable: bool,
    pub data: Vec<u8>,
}

/// Derivation of an address from seeds (the bump being the last seed) and a program.
#[derive(Clone, Debug)]
pub struct Derivation {
    pub seeds: Vec<Vec<u8>>,
    pub program_id: Address,
}

/// What an account must satisfy to be handed to business logic.
#[derive(Clone, Debug)]
pub struct Constraints {
    pub address: Option<Address>,
    pub owner: Option<Address>,
    pub signer: bool,
    pub writable: bool,
    pub derivation: Option<Derivation>,
}

pub open spec fn seeds_view(seeds: Seq<Vec<u8>>) -> Seq<Seq<u8>> {
    seeds.map_values(|s: Vec<u8>| s@)
}

pub open spec fn address_opt_view(a: Option<Address>) -> Option<Seq<u8>> {
    match a {
        Some(x) => Some(x@),
        None => None,
    }
}

/// The address derived from `seeds` under `program_id`, if they yield a
/// valid (off-curve) program address.
pub uninterp spec fn program_address_of(seeds: Seq<Seq<u8>>, program_id: Seq<u8>) -> Option<Seq<u8>>;

/// Whether the derivation yields exactly `key`.
pub open spec fn derives(d: Derivation, key: Seq<u8>) -> bool {
    program_address_of(seeds_view(d.seeds@), d.program_id@) == Some(key)
}

/// The outcome of checking `a` against `c`: the first violated constraint, in
/// the order address, owner, derivation, signer, writable.
pub open spec fn check_spec(a: AccountRef, c: Constraints) -> Result<(), RestakingError> {
    if c.address is Some && c.address->0@ != a.key@ {
        Err(RestakingError::InvalidAccountData)
    } else if c.owner is Some && c.owner->0@ != a.owner@ {
        Err(RestakingError::InvalidAccountData)
    } else if c.derivation is Some && !derives(c.derivation->0, a.key@) {
        Err(RestakingError::InvalidAccountData)
    } else if c.signer && !a.is_signer {
        Err(RestakingError::MissingSigner)
    } else if c.writable && !a.is_writable {
        Err(RestakingError::MissingWritable)
    } else {
        Ok(())
    }
}

/// Without a derivation constraint, checking fails exactly when a required
/// address or owner differs, or a required signer or writable flag is absent.
pub proof fn lemma_check_fails_iff(a: AccountRef, c: Constraints)
    requires
        c.derivation is None,
    ensures
        check_spec(a, c) is Err <==> {
            ||| c.address is Some && c.address->0@ != a.key@
            ||| c.owner is Some && c.owner->0@ != a.owner@
            ||| c.signer && !a.is_signer
            ||| c.writable && !a.is_writable
        },
{
}

/// An account that passed its constraints. The fields are private: the only
/// way to obtain one is `sanitize`.
#[derive(Debug)]
pub struct SanitizedAccount<'a> {
    account: &'a AccountRef,
    constraints: &'a Constraints,
}

impl<'a> SanitizedAccount<'a> {
    pub closed spec fn spec_account(&self) -> AccountRef {
        *self.account
    }

    pub closed spec fn spec_constraints(&self) -> Constraints {
        *self.constraints
    }

    #[verifier::type_invariant]
    spec fn inv(&self) -> bool {
        check_spec(*self.account, *self.constraints) is Ok
    }

    /// The validated account, which meets the constraints the handle was made with.
    pub fn account(&self) -> (r: &'a AccountRef)
        ensures
            *r == self.spec_account(),
            check_spec(*r, self.spec_constraints()) is Ok,
    {
        proof {
            use_type_invariant(self);
        }
        self.account
    }

    pub fn constraints(&self) -> (r: &'a Constraints)
        ensures
            *r == self.spec_constraints(),
    {
        self.constraints
    }

    /// Whether the account holds any non-zero byte.
    pub fn is_initialized(&self) -> (r: bool)
        ensures
            r == exists|i: int| 0 <= i < self.spec_account().data@.len()
                && self.spec_account().data@[i] != 0,
    {
        let data = &self.account.data;
        let mut i: usize = 0;
        while i < data.len()
            invariant
                i <= data@.len(),
                data@ == self.spec_account().data@,
                forall|j: int| 0 <= j < i ==> data@[j] == 0,
            decreases data@.len() - i,
        {
            if data[i] != 0 {
                assert(data@[i as int] != 0);
                return true;
            }
            i = i + 1;
        }
        false
    }

    /// Fails with `UninitializedAccount` when the account holds only zero bytes.
    pub fn require_initialized(&self) -> (r: Result<(), RestakingError>)
        ensures
            r is Ok <==> exists|i: int| 0 <= i < self.spec_account().data@.len()
                && self.spec_account().data@[i] != 0,
            r is Err ==> r->Err_0 == RestakingError::UninitializedAccount,
    {
        if self.is_initialized() {
            Ok(())
        } else {
            Err(RestakingError::UninitializedAccount)
        }
    }
}

/// Relies on Pubkey::create_program_address: the derived address is a function
/// of the seeds and the program id; it is absent when there are more than
/// `MAX_SEEDS` seeds or a seed is longer than `MAX_SEED_LEN`.
#[verifier::external_body]
fn create_program_address(seeds: &Vec<Vec<u8>>, program_id: &Address) -> (r: Option<Address>)
    ensures
        address_opt_view(r) == program_address_of(seeds_view(seeds@), program_id@),
        seeds@.len() > MAX_SEEDS ==> r is None,
        (exists|i: int| 0 <= i < seeds@.len() && seeds@[i]@.len() > MAX_SEED_LEN) ==> r is None,
{
    let refs: Vec<&[u8]> = seeds.iter().map(|s| s.as_slice()).collect();
    let program = solana_program::pubkey::Pubkey::new_from_array(program_id.bytes);
    match solana_program::pubkey::Pubkey::create_program_address(&refs, &program) {
        Ok(a) => Some(Address { bytes: a.to_bytes() }),
        Err(_) => None,
    }
}

/// Checks `account` against `constraints`, stopping at the first violation.
pub fn check(account: &AccountRef, constraints: &Constraints) -> (r: Result<(), RestakingError>)
    ensures
        r == check_spec(*account, *constraints),
{
    if let Some(expected) = &constraints.address {
        if !expected.same_as(&account.key) {
            return Err(RestakingError::InvalidAccountData);
        }
    }
    if let Some(owner) = &constraints.owner {
        if !owner.same_as(&account.owner) {
            return Err(RestakingError::InvalidAccountData);
        }
    }
    if let Some(d) = &constraints.derivation {
        match create_program_address(&d.seeds, &d.program_id) {
            Some(derived) => {
                if !derived.same_as(&account.key) {
                    return Err(RestakingError::InvalidAccountData);
                }
            },
            None => {
                return Err(RestakingError::InvalidAccountData);
            },
        }
    }
    if constraints.signer && !account.is_signer {
        return Err(RestakingError::MissingSigner);
    }
    if constraints.writable && !account.is_writable {
        return Err(RestakingError::MissingWritable);
    }
    Ok(())
}

/// Validates `account` against `constraints` and yields a handle to it, or the
/// first violated constraint's error. The account is never changed.
pub fn sanitize<'a>(account: &'a AccountRef, constraints: &'a Constraints) -> (r: Result<
    SanitizedAccount<'a>,
    RestakingError,
>)
    ensures
        match r {
            Ok(h) => check_spec(*account, *constraints) is Ok && h.spec_account() == *account
                && h.spec_constraints() == *constraints,
            Err(e) => check_spec(*account, *constraints) == Err::<(), RestakingError>(e),
        },
{
    match check(account, constraints) {
        Ok(()) => Ok(SanitizedAccount { account, constraints }),
        Err(e) => Err(e),
    }
}

/// A handle to the associated token account program.
#[derive(Debug)]
pub struct SanitizedAssociatedTokenProgram<'a> {
    account: &'a AccountRef,
}

impl<'a> SanitizedAssociatedTokenProgram<'a> {
    pub closed spec fn spec_account(&self) -> AccountRef {
        *self.account
    }

    #[verifier::type_invariant]
    spec fn inv(&self) -> bool {
        self.account.key@ == associated_token_program_bytes()
    }

    /// Accepts exactly the account whose address is the associated token
    /// account program's; any other fails with `InvalidAccountData`.
    pub fn sanitize(account: &'a AccountRef) -> (r: Result<
        SanitizedAssociatedTokenProgram<'a>,
        RestakingError,
    >)
        ensures
            r is Ok <==> account.key@ == associated_token_program_bytes(),
            r matches Ok(h) ==> h.spec_account() == *account,
            r matches Err(e) ==> e == RestakingError::InvalidAccountData,
    {
        let program = Address::associated_token_program();
        if account.key.same_as(&program) {
            Ok(SanitizedAssociatedTokenProgram { account })
        } else {
            Err(RestakingError::InvalidAccountData)
        }
    }

    pub fn account(&self) -> (r: &'a AccountRef)
        ensures
            *r == self.spec_account(),
            r.key@ == associated_token_program_bytes(),
    {
        proof {
            use_type_invariant(self);
        }
        self.account
    }
}

} // verus!
