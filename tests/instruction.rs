use restaking_sdk::address::Address;
use restaking_sdk::client::AccountMeta;
use restaking_sdk::error::RestakingError;
use restaking_sdk::instruction::{dispatch, AccountRole};
use restaking_sdk::sanitize::AccountRef;
use restaking_sdk::{avs_add_vault, initialize_avs, initialize_config, initialize_operator, RestakingInstruction};

fn key(n: u8) -> Address {
    Address::new([n; 32])
}

fn supplied(metas: &[AccountMeta]) -> Vec<AccountRef> {
    metas
        .iter()
        .map(|m| AccountRef {
            key: m.pubkey,
            owner: key(250),
            is_signer: m.is_signer,
            is_writable: m.is_writable,
            data: vec![],
        })
        .collect()
}

#[test]
fn encodes_tag_then_little_endian_payload() {
    assert_eq!(RestakingInstruction::InitializeConfig.encode(), vec![0]);
    assert_eq!(RestakingInstruction::AvsDeprecateVaultSlasher.encode(), vec![14]);
    assert_eq!(
        RestakingInstruction::AvsAddVaultSlasher(0x0102_0304_0506_0708).encode(),
        vec![13, 8, 7, 6, 5, 4, 3, 2, 1]
    );
}

#[test]
fn decode_round_trips_and_rejects_bad_framing() {
    let ix = RestakingInstruction::AvsAddVaultSlasher(u64::MAX);
    assert_eq!(RestakingInstruction::decode(&ix.encode()), Ok(ix));
    assert_eq!(
        RestakingInstruction::decode(&[13, 1, 0, 0, 0, 0, 0, 0, 0]),
        Ok(RestakingInstruction::AvsAddVaultSlasher(1))
    );
    assert_eq!(RestakingInstruction::decode(&[5]), Ok(RestakingInstruction::OperatorSetAdmin));
    assert_eq!(RestakingInstruction::decode(&[]), Err(RestakingError::InvalidInstructionData));
    assert_eq!(RestakingInstruction::decode(&[15]), Err(RestakingError::InvalidInstructionData));
    assert_eq!(RestakingInstruction::decode(&[5, 0]), Err(RestakingError::InvalidInstructionData));
    assert_eq!(
        RestakingInstruction::decode(&[13, 1, 0, 0]),
        Err(RestakingError::InvalidInstructionData)
    );
    assert_eq!(
        RestakingInstruction::decode(&[13, 1, 0, 0, 0, 0, 0, 0, 0, 0]),
        Err(RestakingError::InvalidInstructionData)
    );
}

#[test]
fn schema_lists_roles_in_order() {
    let s = RestakingInstruction::InitializeConfig.schema();
    assert_eq!(
        s,
        vec![AccountRole::write(), AccountRole::write_signer(), AccountRole::read(), AccountRole::system()]
    );
    assert_eq!(RestakingInstruction::AvsAddVault.schema().len(), 10);
    assert_eq!(RestakingInstruction::OperatorSetVoter.schema().len(), 3);
}

#[test]
fn initialize_config_builder_lays_out_accounts() {
    let ix = initialize_config(&key(1), &key(2), &key(3), &key(4));
    assert_eq!(ix.program_id, key(1));
    assert_eq!(
        ix.accounts,
        vec![
            AccountMeta::new(key(2), false),
            AccountMeta::new(key(3), true),
            AccountMeta::new_readonly(key(4), false),
            AccountMeta::new_readonly(Address::system_program(), false),
        ]
    );
    assert_eq!(ix.data, vec![0]);
}

#[test]
fn built_instructions_pass_dispatch() {
    let ix = initialize_avs(&key(1), &key(2), &key(3), &key(4), &key(5), &key(6), &key(7), &key(8));
    assert_eq!(dispatch(&ix.data, &supplied(&ix.accounts)), Ok(RestakingInstruction::InitializeAvs));
    let ix = avs_add_vault(
        &key(1), &key(2), &key(3), &key(4), &key(5), &key(6), &key(7), &key(8), &key(9), &key(10),
    );
    assert_eq!(dispatch(&ix.data, &supplied(&ix.accounts)), Ok(RestakingInstruction::AvsAddVault));
    let ix = initialize_operator(&key(1), &key(2), &key(3), &key(4), &key(5), &key(6), &key(7));
    assert_eq!(ix.accounts[5], AccountMeta::new_readonly(key(7), true));
    assert_eq!(dispatch(&ix.data, &supplied(&ix.accounts)), Ok(RestakingInstruction::InitializeOperator));
}

#[test]
fn dispatch_reports_first_failure() {
    let ix = initialize_config(&key(1), &key(2), &key(3), &key(4));
    let mut accounts = supplied(&ix.accounts);
    let mut extra = accounts.clone();
    extra.push(accounts[0].clone());
    assert_eq!(dispatch(&ix.data, &extra), Ok(RestakingInstruction::InitializeConfig));

    assert_eq!(dispatch(&ix.data, &accounts[..3]), Err(RestakingError::NotEnoughAccountKeys));
    accounts[3].key = key(9);
    assert_eq!(dispatch(&ix.data, &accounts), Err(RestakingError::InvalidAccountData));
    accounts[1].is_signer = false;
    assert_eq!(dispatch(&ix.data, &accounts), Err(RestakingError::MissingSigner));
    accounts[0].is_writable = false;
    assert_eq!(dispatch(&ix.data, &accounts), Err(RestakingError::MissingWritable));
    assert_eq!(dispatch(&[99], &accounts), Err(RestakingError::InvalidInstructionData));
}
