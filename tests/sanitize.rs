use restaking_sdk::address::Address;
use restaking_sdk::error::RestakingError;
use restaking_sdk::sanitize::{sanitize, AccountRef, Constraints, Derivation, SanitizedAssociatedTokenProgram};
use solana_program::pubkey::Pubkey;

fn addr(p: &Pubkey) -> Address {
    Address::new(p.to_bytes())
}

fn account(key: Address, owner: Address, is_signer: bool, is_writable: bool) -> AccountRef {
    AccountRef { key, owner, is_signer, is_writable, data: vec![0] }
}

fn no_constraints() -> Constraints {
    Constraints { address: None, owner: None, signer: false, writable: false, derivation: None }
}

#[test]
fn test_wrong_address_fails() {
    let key = Pubkey::new_unique();
    let bad_program_id = Pubkey::new_unique();
    let account_info = account(addr(&key), addr(&bad_program_id), false, false);
    assert!(matches!(
        SanitizedAssociatedTokenProgram::sanitize(&account_info).unwrap_err(),
        RestakingError::InvalidAccountData
    ));
}

#[test]
fn test_correct_address_ok() {
    let program_id = Address::new(spl_associated_token_account::id().to_bytes());
    let system_program = Address::system_program();
    let account_info = account(program_id, system_program, false, false);
    SanitizedAssociatedTokenProgram::sanitize(&account_info).unwrap();
}

#[test]
fn associated_token_program_address_matches_crate() {
    let ours = Address::associated_token_program();
    assert_eq!(ours.bytes, spl_associated_token_account::id().to_bytes());
    assert_ne!(ours, Address::system_program());
}

#[test]
fn system_program_address_is_zero() {
    assert_eq!(Address::system_program().bytes, [0u8; 32]);
}

#[test]
fn sanitize_reports_each_violation() {
    let key = addr(&Pubkey::new_unique());
    let owner = addr(&Pubkey::new_unique());
    let other = addr(&Pubkey::new_unique());
    let a = account(key, owner, false, false);

    let mut c = no_constraints();
    assert!(sanitize(&a, &c).is_ok());

    c.address = Some(other);
    assert_eq!(sanitize(&a, &c).unwrap_err(), RestakingError::InvalidAccountData);
    c.address = Some(key);
    assert!(sanitize(&a, &c).is_ok());

    c.owner = Some(other);
    assert_eq!(sanitize(&a, &c).unwrap_err(), RestakingError::InvalidAccountData);
    c.owner = Some(owner);

    c.signer = true;
    assert_eq!(sanitize(&a, &c).unwrap_err(), RestakingError::MissingSigner);
    c.signer = false;

    c.writable = true;
    assert_eq!(sanitize(&a, &c).unwrap_err(), RestakingError::MissingWritable);
}

#[test]
fn payer_needs_signer_and_writable() {
    let key = addr(&Pubkey::new_unique());
    let owner = addr(&Pubkey::new_unique());
    let mut c = no_constraints();
    c.signer = true;
    c.writable = true;
    assert_eq!(
        sanitize(&account(key, owner, false, true), &c).unwrap_err(),
        RestakingError::MissingSigner
    );
    assert_eq!(
        sanitize(&account(key, owner, true, false), &c).unwrap_err(),
        RestakingError::MissingWritable
    );
    let a = account(key, owner, true, true);
    let h = sanitize(&a, &c).unwrap();
    assert_eq!(h.account().key, key);
}

#[test]
fn address_mismatch_is_reported_before_signer() {
    let key = addr(&Pubkey::new_unique());
    let mut c = no_constraints();
    c.address = Some(addr(&Pubkey::new_unique()));
    c.signer = true;
    let a = account(key, key, false, false);
    assert_eq!(sanitize(&a, &c).unwrap_err(), RestakingError::InvalidAccountData);
}

#[test]
fn uninitialized_account_is_told_apart() {
    let key = addr(&Pubkey::new_unique());
    let a = account(key, key, false, false);
    let c = no_constraints();
    let h = sanitize(&a, &c).unwrap();
    assert_eq!(h.require_initialized().unwrap_err(), RestakingError::UninitializedAccount);

    let mut b = account(key, key, false, false);
    b.data = vec![0, 0, 7];
    let h = sanitize(&b, &c).unwrap();
    assert!(h.require_initialized().is_ok());
}

#[test]
fn derivation_constraint_checks_program_address() {
    let program = Pubkey::new_unique();
    let (pda, bump) = Pubkey::find_program_address(&[b"config"], &program);
    let seeds = vec![b"config".to_vec(), vec![bump]];
    let mut c = no_constraints();
    c.derivation = Some(Derivation { seeds: seeds.clone(), program_id: addr(&program) });
    let good = account(addr(&pda), addr(&program), false, false);
    assert!(sanitize(&good, &c).is_ok());

    let bad = account(addr(&Pubkey::new_unique()), addr(&program), false, false);
    assert_eq!(sanitize(&bad, &c).unwrap_err(), RestakingError::InvalidAccountData);

    let mut wrong_bump = seeds;
    wrong_bump[1] = vec![bump.wrapping_add(1)];
    c.derivation = Some(Derivation { seeds: wrong_bump, program_id: addr(&program) });
    assert_eq!(sanitize(&good, &c).unwrap_err(), RestakingError::InvalidAccountData);
}
