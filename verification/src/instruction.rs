//! The program's instruction set and its one-byte wire tags.

use vstd::prelude::*;

verus! {

/// Every operation the program dispatches on, in wire-tag order.
#[derive(Clone, Copy, Debug, PartialEq, Eq, Structural)]
pub enum ProgramInstruction {
    /// Allocate an empty record of a given content length.
    AllocateRecord,
    /// Allocate a record and write its initial content in one call.
    AllocateAndPostRecord,
    /// Overwrite a record's content, resetting both attestations.
    EditRecord,
    /// Attest staleness or confirm an RoA candidate with a co-signature.
    ValidateSolanaSignature,
    /// Attest RoA through an Ethereum-style signed message.
    ValidateEthereumSignature,
    /// Delete a record and refund its rent.
    DeleteRecord,
    /// Store a pending RoA candidate.
    WriteRoa,
    /// Drop the RoA attestation.
    UnverifyRoa,
}

/// The one-byte wire tag of each instruction.
pub open spec fn spec_instruction_tag(i: ProgramInstruction) -> u8 {
    match i {
        ProgramInstruction::AllocateRecord => 0,
        ProgramInstruction::AllocateAndPostRecord => 1,
        ProgramInstruction::EditRecord => 2,
        ProgramInstruction::ValidateSolanaSignature => 3,
        ProgramInstruction::ValidateEthereumSignature => 4,
        ProgramInstruction::DeleteRecord => 5,
        ProgramInstruction::WriteRoa => 6,
        ProgramInstruction::UnverifyRoa => 7,
    }
}

impl ProgramInstruction {
    /// The wire tag under which this instruction is dispatched.
    pub fn tag(self) -> (r: u8)
        ensures
            r == spec_instruction_tag(self),
    {
        match self {
            ProgramInstruction::AllocateRecord => 0,
            ProgramInstruction::AllocateAndPostRecord => 1,
            ProgramInstruction::EditRecord => 2,
            ProgramInstruction::ValidateSolanaSignature => 3,
            ProgramInstruction::ValidateEthereumSignature => 4,
            ProgramInstruction::DeleteRecord => 5,
            ProgramInstruction::WriteRoa => 6,
            ProgramInstruction::UnverifyRoa => 7,
        }
    }

    /// Decodes a wire tag; any value outside the instruction set is
    /// rejected.
    pub fn from_tag(tag: u8) -> (r: Option<ProgramInstruction>)
        ensures
            match r {
                Some(i) => tag <= 7 && spec_instruction_tag(i) == tag,
                None => tag > 7,
            },
    {
        match tag {
            0 => Some(ProgramInstruction::AllocateRecord),
            1 => Some(ProgramInstruction::AllocateAndPostRecord),
            2 => Some(ProgramInstruction::EditRecord),
            3 => Some(ProgramInstruction::ValidateSolanaSignature),
            4 => Some(ProgramInstruction::ValidateEthereumSignature),
            5 => Some(ProgramInstruction::DeleteRecord),
            6 => Some(ProgramInstruction::WriteRoa),
            7 => Some(ProgramInstruction::UnverifyRoa),
            _ => None,
        }
    }
}

} // verus!
