//! Instruction records: the append-only descriptors of what execution
//! will later replay. Created only while the parent transaction is in
//! `Draft`, immutable afterwards.

use vstd::prelude::*;
use crate::key::Key;

verus! {

/// One account required by a stored instruction.
#[derive(Clone, Copy, PartialEq, Eq, Structural, Debug)]
pub struct MsAccountMeta {
    pub pubkey: Key,
    pub is_signer: bool,
    pub is_writable: bool,
}

/// An instruction as submitted for attachment: target program, ordered
/// account list, and opaque payload bytes.
#[derive(Clone, PartialEq, Eq, Debug)]
pub struct IncomingInstruction {
    pub program_id: Key,
    pub keys: Vec<MsAccountMeta>,
    pub data: Vec<u8>,
}

/// Serialized bytes of one stored account entry (key plus two flags).
pub const ACCOUNT_META_SIZE: usize = 34;

/// Fixed serialized overhead of an instruction record: the program key,
/// the two vector length prefixes, and the index and derivation-proof
/// bytes of the stored record.
pub const INSTRUCTION_OVERHEAD: usize = 32 + 4 + 4 + 2;

impl IncomingInstruction {
    /// Exact serialized size of the incoming instruction.
    pub open spec fn spec_max_size(self) -> int {
        INSTRUCTION_OVERHEAD + ACCOUNT_META_SIZE * self.keys@.len() + self.data@.len()
    }

    /// Bytes the stored record will need: the serialized account list and
    /// payload plus the fixed overhead.
    pub fn get_max_size(&self) -> (r: usize)
        requires
            self.spec_max_size() <= usize::MAX,
        ensures
            r == self.spec_max_size(),
    {
        INSTRUCTION_OVERHEAD + ACCOUNT_META_SIZE * self.keys.len() + self.data.len()
    }
}

/// A stored instruction record attached to a transaction.
#[derive(Clone, PartialEq, Eq, Debug)]
pub struct MsInstruction {
    /// Target program of the stored instruction.
    pub program_id: Key,
    /// Ordered account descriptors.
    pub keys: Vec<MsAccountMeta>,
    /// Opaque instruction payload.
    pub data: Vec<u8>,
    /// One-based index within the parent transaction.
    pub instruction_index: u8,
    /// Derivation proof of this record's address.
    pub bump: u8,
}

impl MsInstruction {
    /// Build the stored record from a submitted instruction, verbatim.
    pub fn init(instruction_index: u8, incoming_instruction: IncomingInstruction, bump: u8) -> (r:
        MsInstruction)
        ensures
            r.program_id == incoming_instruction.program_id,
            r.keys@ == incoming_instruction.keys@,
            r.data@ == incoming_instruction.data@,
            r.instruction_index == instruction_index,
            r.bump == bump,
    {
        MsInstruction {
            program_id: incoming_instruction.program_id,
            keys: incoming_instruction.keys,
            data: incoming_instruction.data,
            instruction_index,
            bump,
        }
    }

    /// Reconstruct the submitted form of the stored record: the descriptor
    /// that execution hands to the host dispatch.
    pub fn descriptor(&self) -> (r: IncomingInstruction)
        ensures
            r.program_id == self.program_id,
            r.keys@ == self.keys@,
            r.data@ == self.data@,
    {
        let keys = self.keys.clone();
        let data = self.data.clone();
        proof {
            assert(keys@ =~= self.keys@);
            assert(data@ =~= self.data@);
        }
        IncomingInstruction { program_id: self.program_id, keys, data }
    }
}

} // verus!
