use solana_program::program_error::ProgramError;
use vstd::prelude::*;

verus! {

/// The two instructions the escrow accepts, selected by the payload's first byte.
#[derive(Clone, Copy, Debug, PartialEq, Eq, Structural)]
pub enum EscrowInstruction {
    /// Opcode 0: collect both entry stakes into custody.
    Initialize,
    /// Opcode 1: release the pooled stake to the winner.
    Payout,
}

impl EscrowInstruction {
    /// The instruction a payload selects; bytes after the first are ignored.
    pub open spec fn decode(data: Seq<u8>) -> Result<EscrowInstruction, ProgramError> {
        if data.len() == 0 {
            Err(ProgramError::InvalidInstructionData)
        } else if data[0] == 0 {
            Ok(EscrowInstruction::Initialize)
        } else if data[0] == 1 {
            Ok(EscrowInstruction::Payout)
        } else {
            Err(ProgramError::InvalidInstructionData)
        }
    }

    /// Reads the opcode; an empty payload or an unknown opcode is invalid data.
    pub fn unpack(data: &[u8]) -> (r: Result<EscrowInstruction, ProgramError>)
        ensures
            r == Self::decode(data@),
    {
        if data.len() == 0 {
            return Err(ProgramError::InvalidInstructionData);
        }
        match data[0] {
            0 => Ok(EscrowInstruction::Initialize),
            1 => Ok(EscrowInstruction::Payout),
            _ => Err(ProgramError::InvalidInstructionData),
        }
    }
}

} // verus!
