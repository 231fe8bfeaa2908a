use vstd::prelude::*;

use crate::address::{system_program_bytes, Address};
use crate::client::{meets_schema, metas_view, AccountMeta, Instruction};
use crate::ncn::{ncn_encode_spec, ncn_schema_spec, NcnInstruction};
use crate::records::AdminRole;

verus! {

/// Builds the instruction that initializes the global configuration.
pub fn initialize_config(
    program_id: &Address,
    config: &Address,
    admin: &Address,
    vault_program: &Address,
) -> (r: Instruction)
    ensures
        r.program_id == *program_id,
        metas_view(r.accounts@) == seq![
            (config@, false, true),
            (admin@, true, true),
            (vault_program@, false, false),
            (system_program_bytes(), false, false),
        ],
        r.data@ == ncn_encode_spec(NcnInstruction::InitializeConfig),
        meets_schema(r.accounts@, ncn_schema_spec(NcnInstruction::InitializeConfig)),
{
    let accounts = vec![
        AccountMeta::new(*config, false),
        AccountMeta::new(*admin, true),
        AccountMeta::new_readonly(*vault_program, false),
        AccountMeta::new_readonly(Address::system_program(), false),
    ];
    assert(metas_view(accounts@) =~= seq![
        (config@, false, true),
        (admin@, true, true),
        (vault_program@, false, false),
        (system_program_bytes(), false, false),
    ]);
    Instruction { program_id: *program_id, accounts, data: NcnInstruction::InitializeConfig.encode() }
}

/// Builds the instruction that initializes a network entity.
pub fn initialize_ncn(
    program_id: &Address,
    config: &Address,
    ncn: &Address,
    admin: &Address,
    base: &Address,
) -> (r: Instruction)
    ensures
        r.program_id == *program_id,
        metas_view(r.accounts@) == seq![
            (config@, false, true),
            (ncn@, false, true),
            (admin@, true, true),
            (base@, true, false),
            (system_program_bytes(), false, false),
        ],
        r.data@ == ncn_encode_spec(NcnInstruction::InitializeNcn),
        meets_schema(r.accounts@, ncn_schema_spec(NcnInstruction::InitializeNcn)),
{
    let accounts = vec![
        AccountMeta::new(*config, false),
        AccountMeta::new(*ncn, false),
        AccountMeta::new(*admin, true),
        AccountMeta::new_readonly(*base, true),
        AccountMeta::new_readonly(Address::system_program(), false),
    ];
    assert(metas_view(accounts@) =~= seq![
        (config@, false, true),
        (ncn@, false, true),
        (admin@, true, true),
        (base@, true, false),
        (system_program_bytes(), false, false),
    ]);
    Instruction { program_id: *program_id, accounts, data: NcnInstruction::InitializeNcn.encode() }
}

/// Builds the instruction that opens a network-to-vault ticket.
pub fn initialize_ncn_vault_ticket(
    program_id: &Address,
    config: &Address,
    ncn: &Address,
    vault: &Address,
    ncn_vault_ticket: &Address,
    admin: &Address,
    payer: &Address,
) -> (r: Instruction)
    ensures
        r.program_id == *program_id,
        metas_view(r.accounts@) == seq![
            (config@, false, false),
            (ncn@, false, true),
            (vault@, false, false),
            (ncn_vault_ticket@, false, true),
            (admin@, true, false),
            (payer@, true, true),
            (system_program_bytes(), false, false),
        ],
        r.data@ == ncn_encode_spec(NcnInstruction::InitializeNcnVaultTicket),
        meets_schema(r.accounts@, ncn_schema_spec(NcnInstruction::InitializeNcnVaultTicket)),
{
    let accounts = vec![
        AccountMeta::new_readonly(*config, false),
        AccountMeta::new(*ncn, false),
        AccountMeta::new_readonly(*vault, false),
        AccountMeta::new(*ncn_vault_ticket, false),
        AccountMeta::new_readonly(*admin, true),
        AccountMeta::new(*payer, true),
        AccountMeta::new_readonly(Address::system_program(), false),
    ];
    assert(metas_view(accounts@) =~= seq![
        (config@, false, false),
        (ncn@, false, true),
        (vault@, false, false),
        (ncn_vault_ticket@, false, true),
        (admin@, true, false),
        (payer@, true, true),
        (system_program_bytes(), false, false),
    ]);
    Instruction { program_id: *program_id, accounts, data: NcnInstruction::InitializeNcnVaultTicket.encode() }
}

/// Builds the instruction that starts the cooldown of a network-to-vault ticket.
pub fn cooldown_ncn_vault_ticket(
    program_id: &Address,
    config: &Address,
    ncn: &Address,
    vault: &Address,
    ncn_vault_ticket: &Address,
    admin: &Address,
) -> (r: Instruction)
    ensures
        r.program_id == *program_id,
        metas_view(r.accounts@) == seq![
            (config@, false, false),
            (ncn@, false, false),
            (vault@, false, false),
            (ncn_vault_ticket@, false, true),
            (admin@, true, false),
        ],
        r.data@ == ncn_encode_spec(NcnInstruction::CooldownNcnVaultTicket),
        meets_schema(r.accounts@, ncn_schema_spec(NcnInstruction::CooldownNcnVaultTicket)),
{
    let accounts = vec![
        AccountMeta::new_readonly(*config, false),
        AccountMeta::new_readonly(*ncn, false),
        AccountMeta::new_readonly(*vault, false),
        AccountMeta::new(*ncn_vault_ticket, false),
        AccountMeta::new_readonly(*admin, true),
    ];
    assert(metas_view(accounts@) =~= seq![
        (config@, false, false),
        (ncn@, false, false),
        (vault@, false, false),
        (ncn_vault_ticket@, false, true),
        (admin@, true, false),
    ]);
    Instruction { program_id: *program_id, accounts, data: NcnInstruction::CooldownNcnVaultTicket.encode() }
}

/// Builds the instruction that opens a network-operator relationship.
pub fn initialize_ncn_operator_state(
    program_id: &Address,
    config: &Address,
    ncn: &Address,
    operator: &Address,
    ncn_operator_state: &Address,
    admin: &Address,
    payer: &Address,
) -> (r: Instruction)
    ensures
        r.program_id == *program_id,
        metas_view(r.accounts@) == seq![
            (config@, false, false),
            (ncn@, false, true),
            (operator@, false, true),
            (ncn_operator_state@, false, true),
            (admin@, true, false),
            (payer@, true, true),
            (system_program_bytes(), false, false),
        ],
        r.data@ == ncn_encode_spec(NcnInstruction::InitializeNcnOperatorState),
        meets_schema(r.accounts@, ncn_schema_spec(NcnInstruction::InitializeNcnOperatorState)),
{
    let accounts = vec![
        AccountMeta::new_readonly(*config, false),
        AccountMeta::new(*ncn, false),
        AccountMeta::new(*operator, false),
        AccountMeta::new(*ncn_operator_state, false),
        AccountMeta::new_readonly(*admin, true),
        AccountMeta::new(*payer, true),
        AccountMeta::new_readonly(Address::system_program(), false),
    ];
    assert(metas_view(accounts@) =~= seq![
        (config@, false, false),
        (ncn@, false, true),
        (operator@, false, true),
        (ncn_operator_state@, false, true),
        (admin@, true, false),
        (payer@, true, true),
        (system_program_bytes(), false, false),
    ]);
    Instruction { program_id: *program_id, accounts, data: NcnInstruction::InitializeNcnOperatorState.encode() }
}

/// Builds the instruction by which a network starts the cooldown of an operator.
pub fn cooldown_ncn_operator_ticket(
    program_id: &Address,
    config: &Address,
    ncn: &Address,
    operator: &Address,
    ncn_operator_ticket: &Address,
    admin: &Address,
) -> (r: Instruction)
    ensures
        r.program_id == *program_id,
        metas_view(r.accounts@) == seq![
            (config@, false, false),
            (ncn@, false, false),
            (operator@, false, false),
            (ncn_operator_ticket@, false, true),
            (admin@, true, false),
        ],
        r.data@ == ncn_encode_spec(NcnInstruction::NcnCooldownOperator),
        meets_schema(r.accounts@, ncn_schema_spec(NcnInstruction::NcnCooldownOperator)),
{
    let accounts = vec![
        AccountMeta::new_readonly(*config, false),
        AccountMeta::new_readonly(*ncn, false),
        AccountMeta::new_readonly(*operator, false),
        AccountMeta::new(*ncn_operator_ticket, false),
        AccountMeta::new_readonly(*admin, true),
    ];
    assert(metas_view(accounts@) =~= seq![
        (config@, false, false),
        (ncn@, false, false),
        (operator@, false, false),
        (ncn_operator_ticket@, false, true),
        (admin@, true, false),
    ]);
    Instruction { program_id: *program_id, accounts, data: NcnInstruction::NcnCooldownOperator.encode() }
}

/// Builds the instruction that opens a slasher ticket with its most slashable per epoch.
pub fn initialize_ncn_vault_slasher_ticket(
    program_id: &Address,
    config: &Address,
    ncn: &Address,
    vault: &Address,
    slasher: &Address,
    ncn_vault_ticket: &Address,
    ncn_vault_slasher_ticket: &Address,
    admin: &Address,
    payer: &Address,
    max_slashable_per_epoch: u64,
) -> (r: Instruction)
    ensures
        r.program_id == *program_id,
        metas_view(r.accounts@) == seq![
            (config@, false, false),
            (ncn@, false, true),
            (vault@, false, false),
            (slasher@, false, false),
            (ncn_vault_ticket@, false, false),
            (ncn_vault_slasher_ticket@, false, true),
            (admin@, true, false),
            (payer@, true, true),
            (system_program_bytes(), false, false),
        ],
        r.data@ == ncn_encode_spec(NcnInstruction::InitializeNcnVaultSlasherTicket(max_slashable_per_epoch)),
        meets_schema(r.accounts@, ncn_schema_spec(NcnInstruction::InitializeNcnVaultSlasherTicket(max_slashable_per_epoch))),
{
    let accounts = vec![
        AccountMeta::new_readonly(*config, false),
        AccountMeta::new(*ncn, false),
        AccountMeta::new_readonly(*vault, false),
        AccountMeta::new_readonly(*slasher, false),
        AccountMeta::new_readonly(*ncn_vault_ticket, false),
        AccountMeta::new(*ncn_vault_slasher_ticket, false),
        AccountMeta::new_readonly(*admin, true),
        AccountMeta::new(*payer, true),
        AccountMeta::new_readonly(Address::system_program(), false),
    ];
    assert(metas_view(accounts@) =~= seq![
        (config@, false, false),
        (ncn@, false, true),
        (vault@, false, false),
        (slasher@, false, false),
        (ncn_vault_ticket@, false, false),
        (ncn_vault_slasher_ticket@, false, true),
        (admin@, true, false),
        (payer@, true, true),
        (system_program_bytes(), false, false),
    ]);
    Instruction { program_id: *program_id, accounts, data: NcnInstruction::InitializeNcnVaultSlasherTicket(max_slashable_per_epoch).encode() }
}

/// Builds the instruction that starts the cooldown of a slasher ticket.
pub fn cooldown_ncn_vault_slasher_ticket(
    program_id: &Address,
    config: &Address,
    ncn: &Address,
    vault: &Address,
    slasher: &Address,
    ncn_vault_slasher_ticket: &Address,
    admin: &Address,
) -> (r: Instruction)
    ensures
        r.program_id == *program_id,
        metas_view(r.accounts@) == seq![
            (config@, false, false),
            (ncn@, false, false),
            (vault@, false, false),
            (slasher@, false, false),
            (ncn_vault_slasher_ticket@, false, true),
            (admin@, true, false),
        ],
        r.data@ == ncn_encode_spec(NcnInstruction::CooldownNcnVaultSlasherTicket),
        meets_schema(r.accounts@, ncn_schema_spec(NcnInstruction::CooldownNcnVaultSlasherTicket)),
{
    let accounts = vec![
        AccountMeta::new_readonly(*config, false),
        AccountMeta::new_readonly(*ncn, false),
        AccountMeta::new_readonly(*vault, false),
        AccountMeta::new_readonly(*slasher, false),
        AccountMeta::new(*ncn_vault_slasher_ticket, false),
        AccountMeta::new_readonly(*admin, true),
    ];
    assert(metas_view(accounts@) =~= seq![
        (config@, false, false),
        (ncn@, false, false),
        (vault@, false, false),
        (slasher@, false, false),
        (ncn_vault_slasher_ticket@, false, true),
        (admin@, true, false),
    ]);
    Instruction { program_id: *program_id, accounts, data: NcnInstruction::CooldownNcnVaultSlasherTicket.encode() }
}

/// Builds the instruction that hands a network to a new admin.
pub fn ncn_set_admin(
    program_id: &Address,
    ncn: &Address,
    old_admin: &Address,
    new_admin: &Address,
) -> (r: Instruction)
    ensures
        r.program_id == *program_id,
        metas_view(r.accounts@) == seq![
            (ncn@, false, true),
            (old_admin@, true, false),
            (new_admin@, true, false),
        ],
        r.data@ == ncn_encode_spec(NcnInstruction::NcnSetAdmin),
        meets_schema(r.accounts@, ncn_schema_spec(NcnInstruction::NcnSetAdmin)),
{
    let accounts = vec![
        AccountMeta::new(*ncn, false),
        AccountMeta::new_readonly(*old_admin, true),
        AccountMeta::new_readonly(*new_admin, true),
    ];
    assert(metas_view(accounts@) =~= seq![
        (ncn@, false, true),
        (old_admin@, true, false),
        (new_admin@, true, false),
    ]);
    Instruction { program_id: *program_id, accounts, data: NcnInstruction::NcnSetAdmin.encode() }
}

/// Builds the instruction that gives a secondary role of a network to an address.
pub fn ncn_set_secondary_admin(
    program_id: &Address,
    ncn: &Address,
    admin: &Address,
    new_admin: &Address,
    role: AdminRole,
) -> (r: Instruction)
    ensures
        r.program_id == *program_id,
        metas_view(r.accounts@) == seq![
            (ncn@, false, true),
            (admin@, true, false),
            (new_admin@, false, false),
        ],
        r.data@ == ncn_encode_spec(NcnInstruction::NcnSetSecondaryAdmin(role)),
        meets_schema(r.accounts@, ncn_schema_spec(NcnInstruction::NcnSetSecondaryAdmin(role))),
{
    let accounts = vec![
        AccountMeta::new(*ncn, false),
        AccountMeta::new_readonly(*admin, true),
        AccountMeta::new_readonly(*new_admin, false),
    ];
    assert(metas_view(accounts@) =~= seq![
        (ncn@, false, true),
        (admin@, true, false),
        (new_admin@, false, false),
    ]);
    Instruction { program_id: *program_id, accounts, data: NcnInstruction::NcnSetSecondaryAdmin(role).encode() }
}

/// Builds the instruction that initializes a node operator with its fee.
pub fn initialize_operator(
    program_id: &Address,
    config: &Address,
    operator: &Address,
    admin: &Address,
    base: &Address,
    operator_fee_bps: u16,
) -> (r: Instruction)
    ensures
        r.program_id == *program_id,
        metas_view(r.accounts@) == seq![
            (config@, false, true),
            (operator@, false, true),
            (admin@, true, true),
            (base@, true, false),
            (system_program_bytes(), false, false),
        ],
        r.data@ == ncn_encode_spec(NcnInstruction::InitializeOperator(operator_fee_bps)),
        meets_schema(r.accounts@, ncn_schema_spec(NcnInstruction::InitializeOperator(operator_fee_bps))),
{
    let accounts = vec![
        AccountMeta::new(*config, false),
        AccountMeta::new(*operator, false),
        AccountMeta::new(*admin, true),
        AccountMeta::new_readonly(*base, true),
        AccountMeta::new_readonly(Address::system_program(), false),
    ];
    assert(metas_view(accounts@) =~= seq![
        (config@, false, true),
        (operator@, false, true),
        (admin@, true, true),
        (base@, true, false),
        (system_program_bytes(), false, false),
    ]);
    Instruction { program_id: *program_id, accounts, data: NcnInstruction::InitializeOperator(operator_fee_bps).encode() }
}

/// Builds the instruction that hands an operator to a new admin.
pub fn operator_set_admin(
    program_id: &Address,
    operator: &Address,
    old_admin: &Address,
    new_admin: &Address,
) -> (r: Instruction)
    ensures
        r.program_id == *program_id,
        metas_view(r.accounts@) == seq![
            (operator@, false, true),
            (old_admin@, true, false),
            (new_admin@, true, false),
        ],
        r.data@ == ncn_encode_spec(NcnInstruction::OperatorSetAdmin),
        meets_schema(r.accounts@, ncn_schema_spec(NcnInstruction::OperatorSetAdmin)),
{
    let accounts = vec![
        AccountMeta::new(*operator, false),
        AccountMeta::new_readonly(*old_admin, true),
        AccountMeta::new_readonly(*new_admin, true),
    ];
    assert(metas_view(accounts@) =~= seq![
        (operator@, false, true),
        (old_admin@, true, false),
        (new_admin@, true, false),
    ]);
    Instruction { program_id: *program_id, accounts, data: NcnInstruction::OperatorSetAdmin.encode() }
}

/// Builds the instruction that gives a secondary role of an operator to an address.
pub fn operator_set_secondary_admin(
    program_id: &Address,
    operator: &Address,
    admin: &Address,
    new_admin: &Address,
    operator_admin_role: AdminRole,
) -> (r: Instruction)
    ensures
        r.program_id == *program_id,
        metas_view(r.accounts@) == seq![
            (operator@, false, true),
            (admin@, true, false),
            (new_admin@, false, false),
        ],
        r.data@ == ncn_encode_spec(NcnInstruction::OperatorSetSecondaryAdmin(operator_admin_role)),
        meets_schema(r.accounts@, ncn_schema_spec(NcnInstruction::OperatorSetSecondaryAdmin(operator_admin_role))),
{
    let accounts = vec![
        AccountMeta::new(*operator, false),
        AccountMeta::new_readonly(*admin, true),
        AccountMeta::new_readonly(*new_admin, false),
    ];
    assert(metas_view(accounts@) =~= seq![
        (operator@, false, true),
        (admin@, true, false),
        (new_admin@, false, false),
    ]);
    Instruction { program_id: *program_id, accounts, data: NcnInstruction::OperatorSetSecondaryAdmin(operator_admin_role).encode() }
}

/// Builds the instruction that sets an operator's fee.
pub fn operator_set_fee(
    program_id: &Address,
    config: &Address,
    operator: &Address,
    admin: &Address,
    new_fee_bps: u16,
) -> (r: Instruction)
    ensures
        r.program_id == *program_id,
        metas_view(r.accounts@) == seq![
            (config@, false, false),
            (operator@, false, true),
            (admin@, true, false),
        ],
        r.data@ == ncn_encode_spec(NcnInstruction::OperatorSetFee(new_fee_bps)),
        meets_schema(r.accounts@, ncn_schema_spec(NcnInstruction::OperatorSetFee(new_fee_bps))),
{
    let accounts = vec![
        AccountMeta::new_readonly(*config, false),
        AccountMeta::new(*operator, false),
        AccountMeta::new_readonly(*admin, true),
    ];
    assert(metas_view(accounts@) =~= seq![
        (config@, false, false),
        (operator@, false, true),
        (admin@, true, false),
    ]);
    Instruction { program_id: *program_id, accounts, data: NcnInstruction::OperatorSetFee(new_fee_bps).encode() }
}

/// Builds the instruction that opens an operator-to-vault ticket.
pub fn initialize_operator_vault_ticket(
    program_id: &Address,
    config: &Address,
    operator: &Address,
    vault: &Address,
    operator_vault_ticket: &Address,
    admin: &Address,
    payer: &Address,
) -> (r: Instruction)
    ensures
        r.program_id == *program_id,
        metas_view(r.accounts@) == seq![
            (config@, false, false),
            (operator@, false, true),
            (vault@, false, false),
            (operator_vault_ticket@, false, true),
            (admin@, true, false),
            (payer@, true, true),
            (system_program_bytes(), false, false),
        ],
        r.data@ == ncn_encode_spec(NcnInstruction::InitializeOperatorVaultTicket),
        meets_schema(r.accounts@, ncn_schema_spec(NcnInstruction::InitializeOperatorVaultTicket)),
{
    let accounts = vec![
        AccountMeta::new_readonly(*config, false),
        AccountMeta::new(*operator, false),
        AccountMeta::new_readonly(*vault, false),
        AccountMeta::new(*operator_vault_ticket, false),
        AccountMeta::new_readonly(*admin, true),
        AccountMeta::new(*payer, true),
        AccountMeta::new_readonly(Address::system_program(), false),
    ];
    assert(metas_view(accounts@) =~= seq![
        (config@, false, false),
        (operator@, false, true),
        (vault@, false, false),
        (operator_vault_ticket@, false, true),
        (admin@, true, false),
        (payer@, true, true),
        (system_program_bytes(), false, false),
    ]);
    Instruction { program_id: *program_id, accounts, data: NcnInstruction::InitializeOperatorVaultTicket.encode() }
}

/// Builds the instruction that starts the cooldown of an operator-to-vault ticket.
pub fn cooldown_operator_vault_ticket(
    program_id: &Address,
    config: &Address,
    operator: &Address,
    vault: &Address,
    operator_vault_ticket: &Address,
    admin: &Address,
) -> (r: Instruction)
    ensures
        r.program_id == *program_id,
        metas_view(r.accounts@) == seq![
            (config@, false, false),
            (operator@, false, false),
            (vault@, false, false),
            (operator_vault_ticket@, false, true),
            (admin@, true, false),
        ],
        r.data@ == ncn_encode_spec(NcnInstruction::CooldownOperatorVaultTicket),
        meets_schema(r.accounts@, ncn_schema_spec(NcnInstruction::CooldownOperatorVaultTicket)),
{
    let accounts = vec![
        AccountMeta::new_readonly(*config, false),
        AccountMeta::new_readonly(*operator, false),
        AccountMeta::new_readonly(*vault, false),
        AccountMeta::new(*operator_vault_ticket, false),
        AccountMeta::new_readonly(*admin, true),
    ];
    assert(metas_view(accounts@) =~= seq![
        (config@, false, false),
        (operator@, false, false),
        (vault@, false, false),
        (operator_vault_ticket@, false, true),
        (admin@, true, false),
    ]);
    Instruction { program_id: *program_id, accounts, data: NcnInstruction::CooldownOperatorVaultTicket.encode() }
}

/// Builds the instruction that delegates a token account held by a network.
pub fn ncn_delegate_token_account(
    program_id: &Address,
    ncn: &Address,
    delegate_admin: &Address,
    token_mint: &Address,
    token_account: &Address,
    delegate: &Address,
    token_program: &Address,
) -> (r: Instruction)
    ensures
        r.program_id == *program_id,
        metas_view(r.accounts@) == seq![
            (ncn@, false, false),
            (delegate_admin@, true, false),
            (token_mint@, false, true),
            (token_account@, false, true),
            (delegate@, false, false),
            (token_program@, false, false),
        ],
        r.data@ == ncn_encode_spec(NcnInstruction::NcnDelegateTokenAccount),
        meets_schema(r.accounts@, ncn_schema_spec(NcnInstruction::NcnDelegateTokenAccount)),
{
    let accounts = vec![
        AccountMeta::new_readonly(*ncn, false),
        AccountMeta::new_readonly(*delegate_admin, true),
        AccountMeta::new(*token_mint, false),
        AccountMeta::new(*token_account, false),
        AccountMeta::new_readonly(*delegate, false),
        AccountMeta::new_readonly(*token_program, false),
    ];
    assert(metas_view(accounts@) =~= seq![
        (ncn@, false, false),
        (delegate_admin@, true, false),
        (token_mint@, false, true),
        (token_account@, false, true),
        (delegate@, false, false),
        (token_program@, false, false),
    ]);
    Instruction { program_id: *program_id, accounts, data: NcnInstruction::NcnDelegateTokenAccount.encode() }
}

/// Builds the instruction that delegates a token account held by an operator.
pub fn operator_delegate_token_account(
    program_id: &Address,
    operator: &Address,
    delegate_admin: &Address,
    token_mint: &Address,
    token_account: &Address,
    delegate: &Address,
    token_program: &Address,
) -> (r: Instruction)
    ensures
        r.program_id == *program_id,
        metas_view(r.accounts@) == seq![
            (operator@, false, false),
            (delegate_admin@, true, false),
            (token_mint@, false, true),
            (token_account@, false, true),
            (delegate@, false, false),
            (token_program@, false, false),
        ],
        r.data@ == ncn_encode_spec(NcnInstruction::OperatorDelegateTokenAccount),
        meets_schema(r.accounts@, ncn_schema_spec(NcnInstruction::OperatorDelegateTokenAccount)),
{
    let accounts = vec![
        AccountMeta::new_readonly(*operator, false),
        AccountMeta::new_readonly(*delegate_admin, true),
        AccountMeta::new(*token_mint, false),
        AccountMeta::new(*token_account, false),
        AccountMeta::new_readonly(*delegate, false),
        AccountMeta::new_readonly(*token_program, false),
    ];
    assert(metas_view(accounts@) =~= seq![
        (operator@, false, false),
        (delegate_admin@, true, false),
        (token_mint@, false, true),
        (token_account@, false, true),
        (delegate@, false, false),
        (token_program@, false, false),
    ]);
    Instruction { program_id: *program_id, accounts, data: NcnInstruction::OperatorDelegateTokenAccount.encode() }
}

/// Builds the instruction by which an operator re-affirms a network.
pub fn operator_warmup_ncn(
    program_id: &Address,
    config: &Address,
    ncn: &Address,
    operator: &Address,
    ncn_operator_state: &Address,
    admin: &Address,
) -> (r: Instruction)
    ensures
        r.program_id == *program_id,
        metas_view(r.accounts@) == seq![
            (config@, false, false),
            (ncn@, false, false),
            (operator@, false, false),
            (ncn_operator_state@, false, true),
            (admin@, true, false),
        ],
        r.data@ == ncn_encode_spec(NcnInstruction::OperatorWarmupNcn),
        meets_schema(r.accounts@, ncn_schema_spec(NcnInstruction::OperatorWarmupNcn)),
{
    let accounts = vec![
        AccountMeta::new_readonly(*config, false),
        AccountMeta::new_readonly(*ncn, false),
        AccountMeta::new_readonly(*operator, false),
        AccountMeta::new(*ncn_operator_state, false),
        AccountMeta::new_readonly(*admin, true),
    ];
    assert(metas_view(accounts@) =~= seq![
        (config@, false, false),
        (ncn@, false, false),
        (operator@, false, false),
        (ncn_operator_state@, false, true),
        (admin@, true, false),
    ]);
    Instruction { program_id: *program_id, accounts, data: NcnInstruction::OperatorWarmupNcn.encode() }
}

/// Builds the instruction by which an operator starts the cooldown of a network.
pub fn operator_cooldown_ncn(
    program_id: &Address,
    config: &Address,
    ncn: &Address,
    operator: &Address,
    ncn_operator_state: &Address,
    admin: &Address,
) -> (r: Instruction)
    ensures
        r.program_id == *program_id,
        metas_view(r.accounts@) == seq![
            (config@, false, false),
            (ncn@, false, false),
            (operator@, false, false),
            (ncn_operator_state@, false, true),
            (admin@, true, false),
        ],
        r.data@ == ncn_encode_spec(NcnInstruction::OperatorCooldownNcn),
        meets_schema(r.accounts@, ncn_schema_spec(NcnInstruction::OperatorCooldownNcn)),
{
    let accounts = vec![
        AccountMeta::new_readonly(*config, false),
        AccountMeta::new_readonly(*ncn, false),
        AccountMeta::new_readonly(*operator, false),
        AccountMeta::new(*ncn_operator_state, false),
        AccountMeta::new_readonly(*admin, true),
    ];
    assert(metas_view(accounts@) =~= seq![
        (config@, false, false),
        (ncn@, false, false),
        (operator@, false, false),
        (ncn_operator_state@, false, true),
        (admin@, true, false),
    ]);
    Instruction { program_id: *program_id, accounts, data: NcnInstruction::OperatorCooldownNcn.encode() }
}

/// Builds the instruction by which a network re-affirms an operator.
pub fn ncn_warmup_operator(
    program_id: &Address,
    config: &Address,
    ncn: &Address,
    operator: &Address,
    ncn_operator_state: &Address,
    admin: &Address,
) -> (r: Instruction)
    ensures
        r.program_id == *program_id,
        metas_view(r.accounts@) == seq![
            (config@, false, false),
            (ncn@, false, false),
            (operator@, false, false),
            (ncn_operator_state@, false, true),
            (admin@, true, false),
        ],
        r.data@ == ncn_encode_spec(NcnInstruction::NcnWarmupOperator),
        meets_schema(r.accounts@, ncn_schema_spec(NcnInstruction::NcnWarmupOperator)),
{
    let accounts = vec![
        AccountMeta::new_readonly(*config, false),
        AccountMeta::new_readonly(*ncn, false),
        AccountMeta::new_readonly(*operator, false),
        AccountMeta::new(*ncn_operator_state, false),
        AccountMeta::new_readonly(*admin, true),
    ];
    assert(metas_view(accounts@) =~= seq![
        (config@, false, false),
        (ncn@, false, false),
        (operator@, false, false),
        (ncn_operator_state@, false, true),
        (admin@, true, false),
    ]);
    Instruction { program_id: *program_id, accounts, data: NcnInstruction::NcnWarmupOperator.encode() }
}

/// Builds the instruction by which a network starts the cooldown of an operator.
pub fn ncn_cooldown_operator(
    program_id: &Address,
    config: &Address,
    ncn: &Address,
    operator: &Address,
    ncn_operator_state: &Address,
    admin: &Address,
) -> (r: Instruction)
    ensures
        r.program_id == *program_id,
        metas_view(r.accounts@) == seq![
            (config@, false, false),
            (ncn@, false, false),
            (operator@, false, false),
            (ncn_operator_state@, false, true),
            (admin@, true, false),
        ],
        r.data@ == ncn_encode_spec(NcnInstruction::NcnCooldownOperator),
        meets_schema(r.accounts@, ncn_schema_spec(NcnInstruction::NcnCooldownOperator)),
{
    let accounts = vec![
        AccountMeta::new_readonly(*config, false),
        AccountMeta::new_readonly(*ncn, false),
        AccountMeta::new_readonly(*operator, false),
        AccountMeta::new(*ncn_operator_state, false),
        AccountMeta::new_readonly(*admin, true),
    ];
    assert(metas_view(accounts@) =~= seq![
        (config@, false, false),
        (ncn@, false, false),
        (operator@, false, false),
        (ncn_operator_state@, false, true),
        (admin@, true, false),
    ]);
    Instruction { program_id: *program_id, accounts, data: NcnInstruction::NcnCooldownOperator.encode() }
}

/// Builds the instruction that re-affirms a network-to-vault ticket.
pub fn warmup_ncn_vault_ticket(
    program_id: &Address,
    config: &Address,
    ncn: &Address,
    vault: &Address,
    ncn_vault_ticket: &Address,
    admin: &Address,
) -> (r: Instruction)
    ensures
        r.program_id == *program_id,
        metas_view(r.accounts@) == seq![
            (config@, false, false),
            (ncn@, false, false),
            (vault@, false, false),
            (ncn_vault_ticket@, false, true),
            (admin@, true, false),
        ],
        r.data@ == ncn_encode_spec(NcnInstruction::WarmupNcnVaultTicket),
        meets_schema(r.accounts@, ncn_schema_spec(NcnInstruction::WarmupNcnVaultTicket)),
{
    let accounts = vec![
        AccountMeta::new_readonly(*config, false),
        AccountMeta::new_readonly(*ncn, false),
        AccountMeta::new_readonly(*vault, false),
        AccountMeta::new(*ncn_vault_ticket, false),
        AccountMeta::new_readonly(*admin, true),
    ];
    assert(metas_view(accounts@) =~= seq![
        (config@, false, false),
        (ncn@, false, false),
        (vault@, false, false),
        (ncn_vault_ticket@, false, true),
        (admin@, true, false),
    ]);
    Instruction { program_id: *program_id, accounts, data: NcnInstruction::WarmupNcnVaultTicket.encode() }
}

/// Builds the instruction that re-affirms an operator-to-vault ticket.
pub fn warmup_operator_vault_ticket(
    program_id: &Address,
    config: &Address,
    operator: &Address,
    vault: &Address,
    operator_vault_ticket: &Address,
    admin: &Address,
) -> (r: Instruction)
    ensures
        r.program_id == *program_id,
        metas_view(r.accounts@) == seq![
            (config@, false, false),
            (operator@, false, false),
            (vault@, false, false),
            (operator_vault_ticket@, false, true),
            (admin@, true, false),
        ],
        r.data@ == ncn_encode_spec(NcnInstruction::WarmupOperatorVaultTicket),
        meets_schema(r.accounts@, ncn_schema_spec(NcnInstruction::WarmupOperatorVaultTicket)),
{
    let accounts = vec![
        AccountMeta::new_readonly(*config, false),
        AccountMeta::new_readonly(*operator, false),
        AccountMeta::new_readonly(*vault, false),
        AccountMeta::new(*operator_vault_ticket, false),
        AccountMeta::new_readonly(*admin, true),
    ];
    assert(metas_view(accounts@) =~= seq![
        (config@, false, false),
        (operator@, false, false),
        (vault@, false, false),
        (operator_vault_ticket@, false, true),
        (admin@, true, false),
    ]);
    Instruction { program_id: *program_id, accounts, data: NcnInstruction::WarmupOperatorVaultTicket.encode() }
}

/// Builds the instruction that re-affirms a slasher ticket.
pub fn warmup_ncn_vault_slasher_ticket(
    program_id: &Address,
    config: &Address,
    ncn: &Address,
    vault: &Address,
    slasher: &Address,
    ncn_vault_ticket: &Address,
    ncn_vault_slasher_ticket: &Address,
    admin: &Address,
) -> (r: Instruction)
    ensures
        r.program_id == *program_id,
        metas_view(r.accounts@) == seq![
            (config@, false, false),
            (ncn@, false, false),
            (vault@, false, false),
            (slasher@, false, false),
            (ncn_vault_ticket@, false, false),
            (ncn_vault_slasher_ticket@, false, true),
            (admin@, true, false),
        ],
        r.data@ == ncn_encode_spec(NcnInstruction::WarmupNcnVaultSlasherTicket),
        meets_schema(r.accounts@, ncn_schema_spec(NcnInstruction::WarmupNcnVaultSlasherTicket)),
{
    let accounts = vec![
        AccountMeta::new_readonly(*config, false),
        AccountMeta::new_readonly(*ncn, false),
        AccountMeta::new_readonly(*vault, false),
        AccountMeta::new_readonly(*slasher, false),
        AccountMeta::new_readonly(*ncn_vault_ticket, false),
        AccountMeta::new(*ncn_vault_slasher_ticket, false),
        AccountMeta::new_readonly(*admin, true),
    ];
    assert(metas_view(accounts@) =~= seq![
        (config@, false, false),
        (ncn@, false, false),
        (vault@, false, false),
        (slasher@, false, false),
        (ncn_vault_ticket@, false, false),
        (ncn_vault_slasher_ticket@, false, true),
        (admin@, true, false),
    ]);
    Instruction { program_id: *program_id, accounts, data: NcnInstruction::WarmupNcnVaultSlasherTicket.encode() }
}

/// Builds the instruction that hands the configuration to a new admin.
pub fn set_config_admin(
    program_id: &Address,
    config: &Address,
    old_admin: &Address,
    new_admin: &Address,
) -> (r: Instruction)
    ensures
        r.program_id == *program_id,
        metas_view(r.accounts@) == seq![
            (config@, false, true),
            (old_admin@, true, false),
            (new_admin@, false, false),
        ],
        r.data@ == ncn_encode_spec(NcnInstruction::SetConfigAdmin),
        meets_schema(r.accounts@, ncn_schema_spec(NcnInstruction::SetConfigAdmin)),
{
    let accounts = vec![
        AccountMeta::new(*config, false),
        AccountMeta::new_readonly(*old_admin, true),
        AccountMeta::new_readonly(*new_admin, false),
    ];
    assert(metas_view(accounts@) =~= seq![
        (config@, false, true),
        (old_admin@, true, false),
        (new_admin@, false, false),
    ]);
    Instruction { program_id: *program_id, accounts, data: NcnInstruction::SetConfigAdmin.encode() }
}

} // verus!
