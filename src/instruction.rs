use vstd::prelude::*;
use crate::registry::Key;

verus! {

/// One account that a call touches.
#[derive(Debug, Clone, Copy, PartialEq, Eq)]
pub struct TransactionAccount {
    pub pubkey: Key,
    pub is_signer: bool,
    pub is_writable: bool,
}

/// A call into a program: its target, the accounts it touches and its payload.
pub struct Instruction {
    pub program_id: Key,
    pub accounts: Vec<TransactionAccount>,
    pub data: Vec<u8>,
}

/// An instruction as values.
pub ghost struct InstructionModel {
    pub program_id: Key,
    pub accounts: Seq<TransactionAccount>,
    pub data: Seq<u8>,
}

impl View for Instruction {
    type V = InstructionModel;

    open spec fn view(&self) -> InstructionModel {
        InstructionModel { program_id: self.program_id, accounts: self.accounts@, data: self.data@ }
    }
}

} // verus!
