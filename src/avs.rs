use vstd::prelude::*;

use crate::address::{system_program_bytes, Address};
use crate::client::{meets_schema, metas_view, AccountMeta, Instruction};
use crate::instruction::{encode_spec, schema_spec, RestakingInstruction};

verus! {

/// Builds the instruction that initializes the global configuration.
pub fn initialize_config(
    program_id: &Address,
    config: &Address,
    admin: &Address,
    vault_program: &Address,
) -> (r: Instruction)
    ensures
        r.program_id == *program_id,
        metas_view(r.accounts@) == seq![
            (config@, false, true),
            (admin@, true, true),
            (vault_program@, false, false),
            (system_program_bytes(), false, false),
        ],
        r.data@ == encode_spec(RestakingInstruction::InitializeConfig),
        meets_schema(r.accounts@, schema_spec(RestakingInstruction::InitializeConfig)),
{
    let accounts = vec![
        AccountMeta::new(*config, false),
        AccountMeta::new(*admin, true),
        AccountMeta::new_readonly(*vault_program, false),
        AccountMeta::new_readonly(Address::system_program(), false),
    ];
    assert(metas_view(accounts@) =~= seq![
        (config@, false, true),
        (admin@, true, true),
        (vault_program@, false, false),
        (system_program_bytes(), false, false),
    ]);
    Instruction {
        program_id: *program_id,
        accounts,
        data: RestakingInstruction::InitializeConfig.encode(),
    }
}

/// Builds the instruction that initializes an AVS.
pub fn initialize_avs(
    program_id: &Address,
    config: &Address,
    avs: &Address,
    avs_operator_list: &Address,
    avs_vault_list: &Address,
    avs_slasher_list: &Address,
    admin: &Address,
    base: &Address,
) -> (r: Instruction)
    ensures
        r.program_id == *program_id,
        metas_view(r.accounts@) == seq![
            (config@, false, true),
            (avs@, false, true),
            (avs_operator_list@, false, true),
            (avs_vault_list@, false, true),
            (avs_slasher_list@, false, true),
            (admin@, true, true),
            (base@, true, true),
            (system_program_bytes(), false, false),
        ],
        r.data@ == encode_spec(RestakingInstruction::InitializeAvs),
        meets_schema(r.accounts@, schema_spec(RestakingInstruction::InitializeAvs)),
{
    let accounts = vec![
        AccountMeta::new(*config, false),
        AccountMeta::new(*avs, false),
        AccountMeta::new(*avs_operator_list, false),
        AccountMeta::new(*avs_vault_list, false),
        AccountMeta::new(*avs_slasher_list, false),
        AccountMeta::new(*admin, true),
        AccountMeta::new(*base, true),
        AccountMeta::new_readonly(Address::system_program(), false),
    ];
    assert(metas_view(accounts@) =~= seq![
        (config@, false, true),
        (avs@, false, true),
        (avs_operator_list@, false, true),
        (avs_vault_list@, false, true),
        (avs_slasher_list@, false, true),
        (admin@, true, true),
        (base@, true, true),
        (system_program_bytes(), false, false),
    ]);
    Instruction { program_id: *program_id, accounts, data: RestakingInstruction::InitializeAvs.encode() }
}

/// Builds the instruction by which an AVS adds support for receiving delegation from a vault.
pub fn avs_add_vault(
    program_id: &Address,
    config: &Address,
    avs: &Address,
    avs_vault_list: &Address,
    admin: &Address,
    vault_program: &Address,
    vault: &Address,
    vault_config: &Address,
    vault_avs_list: &Address,
    payer: &Address,
) -> (r: Instruction)
    ensures
        r.program_id == *program_id,
        metas_view(r.accounts@) == seq![
            (config@, false, true),
            (avs@, false, true),
            (avs_vault_list@, false, true),
            (admin@, true, true),
            (vault_program@, false, false),
            (vault@, false, false),
            (vault_config@, false, false),
            (vault_avs_list@, false, true),
            (payer@, true, true),
            (system_program_bytes(), false, false),
        ],
        r.data@ == encode_spec(RestakingInstruction::AvsAddVault),
        meets_schema(r.accounts@, schema_spec(RestakingInstruction::AvsAddVault)),
{
    let accounts = vec![
        AccountMeta::new(*config, false),
        AccountMeta::new(*avs, false),
        AccountMeta::new(*avs_vault_list, false),
        AccountMeta::new(*admin, true),
        AccountMeta::new_readonly(*vault_program, false),
        AccountMeta::new_readonly(*vault, false),
        AccountMeta::new_readonly(*vault_config, false),
        AccountMeta::new(*vault_avs_list, false),
        AccountMeta::new(*payer, true),
        AccountMeta::new_readonly(Address::system_program(), false),
    ];
    assert(metas_view(accounts@) =~= seq![
        (config@, false, true),
        (avs@, false, true),
        (avs_vault_list@, false, true),
        (admin@, true, true),
        (vault_program@, false, false),
        (vault@, false, false),
        (vault_config@, false, false),
        (vault_avs_list@, false, true),
        (payer@, true, true),
        (system_program_bytes(), false, false),
    ]);
    Instruction { program_id: *program_id, accounts, data: RestakingInstruction::AvsAddVault.encode() }
}

/// Builds the instruction by which an AVS removes support for receiving delegation from a vault.
pub fn avs_remove_vault(
    program_id: &Address,
    config: &Address,
    avs: &Address,
    avs_vault_list: &Address,
    admin: &Address,
    vault_program: &Address,
    vault: &Address,
    vault_config: &Address,
    vault_avs_list: &Address,
    payer: &Address,
) -> (r: Instruction)
    ensures
        r.program_id == *program_id,
        metas_view(r.accounts@) == seq![
            (config@, false, true),
            (avs@, false, true),
            (avs_vault_list@, false, true),
            (admin@, true, true),
            (vault_program@, false, false),
            (vault@, false, false),
            (vault_config@, false, false),
            (vault_avs_list@, false, true),
            (payer@, true, true),
            (system_program_bytes(), false, false),
        ],
        r.data@ == encode_spec(RestakingInstruction::AvsRemoveVault),
        meets_schema(r.accounts@, schema_spec(RestakingInstruction::AvsRemoveVault)),
{
    let accounts = vec![
        AccountMeta::new(*config, false),
        AccountMeta::new(*avs, false),
        AccountMeta::new(*avs_vault_list, false),
        AccountMeta::new(*admin, true),
        AccountMeta::new_readonly(*vault_program, false),
        AccountMeta::new_readonly(*vault, false),
        AccountMeta::new_readonly(*vault_config, false),
        AccountMeta::new(*vault_avs_list, false),
        AccountMeta::new(*payer, true),
        AccountMeta::new_readonly(Address::system_program(), false),
    ];
    assert(metas_view(accounts@) =~= seq![
        (config@, false, true),
        (avs@, false, true),
        (avs_vault_list@, false, true),
        (admin@, true, true),
        (vault_program@, false, false),
        (vault@, false, false),
        (vault_config@, false, false),
        (vault_avs_list@, false, true),
        (payer@, true, true),
        (system_program_bytes(), false, false),
    ]);
    Instruction { program_id: *program_id, accounts, data: RestakingInstruction::AvsRemoveVault.encode() }
}

/// Builds the instruction that initializes a node operator.
pub fn initialize_operator(
    program_id: &Address,
    config: &Address,
    node_operator: &Address,
    node_operator_avs_list: &Address,
    node_operator_vault_list: &Address,
    admin: &Address,
    base: &Address,
) -> (r: Instruction)
    ensures
        r.program_id == *program_id,
        metas_view(r.accounts@) == seq![
            (config@, false, true),
            (node_operator@, false, true),
            (node_operator_avs_list@, false, true),
            (node_operator_vault_list@, false, true),
            (admin@, true, true),
            (base@, true, false),
            (system_program_bytes(), false, false),
        ],
        r.data@ == encode_spec(RestakingInstruction::InitializeOperator),
        meets_schema(r.accounts@, schema_spec(RestakingInstruction::InitializeOperator)),
{
    let accounts = vec![
        AccountMeta::new(*config, false),
        AccountMeta::new(*node_operator, false),
        AccountMeta::new(*node_operator_avs_list, false),
        AccountMeta::new(*node_operator_vault_list, false),
        AccountMeta::new(*admin, true),
        AccountMeta::new_readonly(*base, true),
        AccountMeta::new_readonly(Address::system_program(), false),
    ];
    assert(metas_view(accounts@) =~= seq![
        (config@, false, true),
        (node_operator@, false, true),
        (node_operator_avs_list@, false, true),
        (node_operator_vault_list@, false, true),
        (admin@, true, true),
        (base@, true, false),
        (system_program_bytes(), false, false),
    ]);
    Instruction { program_id: *program_id, accounts, data: RestakingInstruction::InitializeOperator.encode() }
}

/// Builds the instruction by which a node operator adds support for receiving delegation from a vault.
pub fn operator_add_vault(
    program_id: &Address,
    config: &Address,
    operator: &Address,
    operator_vault_list: &Address,
    admin: &Address,
    vault_program: &Address,
    vault: &Address,
    vault_config: &Address,
    vault_operator_list: &Address,
    payer: &Address,
) -> (r: Instruction)
    ensures
        r.program_id == *program_id,
        metas_view(r.accounts@) == seq![
            (config@, false, true),
            (operator@, false, true),
            (operator_vault_list@, false, true),
            (admin@, true, true),
            (vault_program@, false, false),
            (vault@, false, false),
            (vault_config@, false, false),
            (vault_operator_list@, false, true),
            (payer@, true, true),
            (system_program_bytes(), false, false),
        ],
        r.data@ == encode_spec(RestakingInstruction::OperatorAddVault),
        meets_schema(r.accounts@, schema_spec(RestakingInstruction::OperatorAddVault)),
{
    let accounts = vec![
        AccountMeta::new(*config, false),
        AccountMeta::new(*operator, false),
        AccountMeta::new(*operator_vault_list, false),
        AccountMeta::new(*admin, true),
        AccountMeta::new_readonly(*vault_program, false),
        AccountMeta::new_readonly(*vault, false),
        AccountMeta::new_readonly(*vault_config, false),
        AccountMeta::new(*vault_operator_list, false),
        AccountMeta::new(*payer, true),
        AccountMeta::new_readonly(Address::system_program(), false),
    ];
    assert(metas_view(accounts@) =~= seq![
        (config@, false, true),
        (operator@, false, true),
        (operator_vault_list@, false, true),
        (admin@, true, true),
        (vault_program@, false, false),
        (vault@, false, false),
        (vault_config@, false, false),
        (vault_operator_list@, false, true),
        (payer@, true, true),
        (system_program_bytes(), false, false),
    ]);
    Instruction { program_id: *program_id, accounts, data: RestakingInstruction::OperatorAddVault.encode() }
}

/// Builds the instruction by which a node operator removes support for receiving delegation from a vault.
pub fn operator_remove_vault(
    program_id: &Address,
    config: &Address,
    operator: &Address,
    operator_vault_list: &Address,
    admin: &Address,
    vault_program: &Address,
    vault: &Address,
    vault_config: &Address,
    vault_operator_list: &Address,
    payer: &Address,
) -> (r: Instruction)
    ensures
        r.program_id == *program_id,
        metas_view(r.accounts@) == seq![
            (config@, false, true),
            (operator@, false, true),
            (operator_vault_list@, false, true),
            (admin@, true, true),
            (vault_program@, false, false),
            (vault@, false, false),
            (vault_config@, false, false),
            (vault_operator_list@, false, true),
            (payer@, true, true),
            (system_program_bytes(), false, false),
        ],
        r.data@ == encode_spec(RestakingInstruction::OperatorRemoveVault),
        meets_schema(r.accounts@, schema_spec(RestakingInstruction::OperatorRemoveVault)),
{
    let accounts = vec![
        AccountMeta::new(*config, false),
        AccountMeta::new(*operator, false),
        AccountMeta::new(*operator_vault_list, false),
        AccountMeta::new(*admin, true),
        AccountMeta::new_readonly(*vault_program, false),
        AccountMeta::new_readonly(*vault, false),
        AccountMeta::new_readonly(*vault_config, false),
        AccountMeta::new(*vault_operator_list, false),
        AccountMeta::new(*payer, true),
        AccountMeta::new_readonly(Address::system_program(), false),
    ];
    assert(metas_view(accounts@) =~= seq![
        (config@, false, true),
        (operator@, false, true),
        (operator_vault_list@, false, true),
        (admin@, true, true),
        (vault_program@, false, false),
        (vault@, false, false),
        (vault_config@, false, false),
        (vault_operator_list@, false, true),
        (payer@, true, true),
        (system_program_bytes(), false, false),
    ]);
    Instruction { program_id: *program_id, accounts, data: RestakingInstruction::OperatorRemoveVault.encode() }
}

} // verus!
