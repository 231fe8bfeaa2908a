//! Authorization and validation core of a restaking protocol: account
//! sanitization, the ticket warmup/cooldown state machine, bounded
//! relationship registries, participant records, and the instruction wire
//! format with its per-opcode account schemas and builders.
pub mod address;
pub mod avs;
pub mod client;
pub mod codec;
pub mod error;
pub mod instruction;
pub mod ncn;
pub mod records;
pub mod registry;
pub mod sanitize;
pub mod sdk;
pub mod ticket;

pub use avs::{
    avs_add_vault, avs_remove_vault, initialize_avs, initialize_config, initialize_operator,
    operator_add_vault, operator_remove_vault,
};
pub use instruction::RestakingInstruction;
