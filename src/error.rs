use vstd::prelude::*;

verus! {

/// The failures that an instruction can end with. Each is a distinct, stable
/// code so that a client can branch on it.
#[derive(Clone, Copy, Debug, PartialEq, Eq, Structural)]
pub enum RestakingError {
    /// Address, owner or derivation mismatch.
    InvalidAccountData,
    /// A required signature is absent.
    MissingSigner,
    /// A required writable flag is absent.
    MissingWritable,
    /// Fewer accounts were supplied than the opcode's schema declares.
    NotEnoughAccountKeys,
    /// The instruction bytes are truncated, over-long or carry an unknown opcode.
    InvalidInstructionData,
    /// The account holds only zero bytes.
    UninitializedAccount,
    /// The registry is at capacity and has no reclaimable entry.
    ListFull,
    /// The counterparty already has an entry that is not fully inactive.
    DuplicateEntry,
    /// The ticket is not active.
    TicketNotActive,
    /// The ticket is cooling down.
    TicketCoolingDown,
    /// The signer is not the stored admin.
    Unauthorized,
    /// A fee or slashing bound is out of range.
    ArithmeticOverflow,
}

} // verus!
