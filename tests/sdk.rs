use restaking_sdk::address::Address;
use restaking_sdk::client::AccountMeta;
use restaking_sdk::error::RestakingError;
use restaking_sdk::ncn::{dispatch_ncn, NcnInstruction};
use restaking_sdk::sanitize::AccountRef;
use restaking_sdk::records::AdminRole;
use restaking_sdk::sdk;

fn key(n: u8) -> Address {
    Address::new([n; 32])
}

#[test]
fn sdk_initialize_operator_carries_fee() {
    let ix = sdk::initialize_operator(&key(1), &key(2), &key(3), &key(4), &key(5), 500);
    assert_eq!(ix.data, vec![2, 0xF4, 0x01]);
    assert_eq!(
        ix.accounts,
        vec![
            AccountMeta::new(key(2), false),
            AccountMeta::new(key(3), false),
            AccountMeta::new(key(4), true),
            AccountMeta::new_readonly(key(5), true),
            AccountMeta::new_readonly(Address::system_program(), false),
        ]
    );
}

#[test]
fn sdk_fee_and_role_payloads() {
    let ix = sdk::operator_set_fee(&key(1), &key(2), &key(3), &key(4), 10000);
    assert_eq!(ix.data, vec![21, 0x10, 0x27]);
    let ix = sdk::ncn_set_secondary_admin(&key(1), &key(2), &key(3), &key(4), AdminRole::DelegateAdmin);
    assert_eq!(ix.data, vec![18, 1]);
    assert_eq!(ix.accounts[2], AccountMeta::new_readonly(key(4), false));
    let ix = sdk::operator_set_secondary_admin(&key(1), &key(2), &key(3), &key(4), AdminRole::Voter);
    assert_eq!(ix.data, vec![20, 0]);
}

#[test]
fn sdk_slasher_ticket_carries_bound() {
    let ix = sdk::initialize_ncn_vault_slasher_ticket(
        &key(1), &key(2), &key(3), &key(4), &key(5), &key(6), &key(7), &key(8), &key(9), 258,
    );
    assert_eq!(ix.data, vec![11, 2, 1, 0, 0, 0, 0, 0, 0]);
    assert_eq!(ix.accounts.len(), 9);
    assert_eq!(ix.accounts[5], AccountMeta::new(key(7), false));
    assert_eq!(ix.accounts[6], AccountMeta::new_readonly(key(8), true));
}

#[test]
fn sdk_cooldown_builders_share_the_operator_cooldown_opcode() {
    let a = sdk::cooldown_ncn_operator_ticket(&key(1), &key(2), &key(3), &key(4), &key(5), &key(6));
    let b = sdk::ncn_cooldown_operator(&key(1), &key(2), &key(3), &key(4), &key(5), &key(6));
    assert_eq!(a, b);
    assert_eq!(a.data, NcnInstruction::NcnCooldownOperator.encode());
    assert_eq!(a.data, vec![8]);
}

#[test]
fn sdk_set_config_admin_layout() {
    let ix = sdk::set_config_admin(&key(1), &key(2), &key(3), &key(4));
    assert_eq!(ix.program_id, key(1));
    assert_eq!(
        ix.accounts,
        vec![
            AccountMeta::new(key(2), false),
            AccountMeta::new_readonly(key(3), true),
            AccountMeta::new_readonly(key(4), false),
        ]
    );
    assert_eq!(ix.data, vec![24]);
}

#[test]
fn sdk_delegate_token_account_layout() {
    let ix = sdk::operator_delegate_token_account(&key(1), &key(2), &key(3), &key(4), &key(5), &key(6), &key(7));
    assert_eq!(ix.data, vec![23]);
    assert_eq!(ix.accounts[1], AccountMeta::new_readonly(key(3), true));
    assert_eq!(ix.accounts[2], AccountMeta::new(key(4), false));
}

fn supplied(metas: &[AccountMeta]) -> Vec<AccountRef> {
    metas
        .iter()
        .map(|m| AccountRef {
            key: m.pubkey,
            owner: key(250),
            is_signer: m.is_signer,
            is_writable: m.is_writable,
            data: vec![],
        })
        .collect()
}

#[test]
fn ncn_decode_round_trips_and_rejects_bad_framing() {
    for ix in [
        NcnInstruction::InitializeOperator(9999),
        NcnInstruction::OperatorSetFee(0),
        NcnInstruction::InitializeNcnVaultSlasherTicket(u64::MAX),
        NcnInstruction::NcnSetSecondaryAdmin(AdminRole::Voter),
        NcnInstruction::OperatorSetSecondaryAdmin(AdminRole::DelegateAdmin),
        NcnInstruction::WarmupNcnVaultTicket,
        NcnInstruction::SetConfigAdmin,
    ] {
        assert_eq!(NcnInstruction::decode(&ix.encode()), Ok(ix));
    }
    assert_eq!(NcnInstruction::decode(&[2, 1]), Err(RestakingError::InvalidInstructionData));
    assert_eq!(NcnInstruction::decode(&[18, 2]), Err(RestakingError::InvalidInstructionData));
    assert_eq!(NcnInstruction::decode(&[4, 0]), Err(RestakingError::InvalidInstructionData));
    assert_eq!(NcnInstruction::decode(&[25]), Err(RestakingError::InvalidInstructionData));
    assert_eq!(NcnInstruction::decode(&[]), Err(RestakingError::InvalidInstructionData));
}

#[test]
fn ncn_built_instructions_pass_dispatch() {
    let ix = sdk::warmup_ncn_vault_slasher_ticket(
        &key(1), &key(2), &key(3), &key(4), &key(5), &key(6), &key(7), &key(8),
    );
    assert_eq!(
        dispatch_ncn(&ix.data, &supplied(&ix.accounts)),
        Ok(NcnInstruction::WarmupNcnVaultSlasherTicket)
    );
    let ix = sdk::initialize_ncn_vault_ticket(&key(1), &key(2), &key(3), &key(4), &key(5), &key(6), &key(7));
    let mut accounts = supplied(&ix.accounts);
    assert_eq!(dispatch_ncn(&ix.data, &accounts), Ok(NcnInstruction::InitializeNcnVaultTicket));
    accounts[5].is_signer = false;
    assert_eq!(dispatch_ncn(&ix.data, &accounts), Err(RestakingError::MissingSigner));
    assert_eq!(dispatch_ncn(&ix.data, &accounts[..2]), Err(RestakingError::NotEnoughAccountKeys));
}
