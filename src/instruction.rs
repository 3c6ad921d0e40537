use vstd::prelude::*;

use crate::error::ProcessError;
use crate::instructions::{decode_instruction, EscrowInstructions};

verus! {

/// The instruction set with its shorter field names; its wire
/// encoding is the same as that of `EscrowInstructions`.
#[derive(Debug, Clone, Copy, PartialEq, Eq, Structural)]
pub enum EscrowInstruction {
    Make { amount: u64, receive_amount: u64 },
    Take { amount: u64 },
    Refund,
}

impl EscrowInstruction {
    pub open spec fn spec_normalize(self) -> EscrowInstructions {
        match self {
            EscrowInstruction::Make { amount, receive_amount } => EscrowInstructions::Make {
                amount_offered: amount,
                amount_required: receive_amount,
            },
            EscrowInstruction::Take { amount } => EscrowInstructions::Take { amount },
            EscrowInstruction::Refund => EscrowInstructions::Refund,
        }
    }

    /// The same instruction under the current field names.
    pub fn normalize(&self) -> (r: EscrowInstructions)
        ensures
            r == self.spec_normalize(),
    {
        match self {
            EscrowInstruction::Make { amount, receive_amount } => EscrowInstructions::Make {
                amount_offered: *amount,
                amount_required: *receive_amount,
            },
            EscrowInstruction::Take { amount } => EscrowInstructions::Take { amount: *amount },
            EscrowInstruction::Refund => EscrowInstructions::Refund,
        }
    }

    /// Decodes a payload under the shorter field names.
    pub fn unpack(data: &[u8]) -> (r: Result<EscrowInstruction, ProcessError>)
        ensures
            match decode_instruction(data@) {
                Some(i) => r matches Ok(j) && j.spec_normalize() == i,
                None => r == Err::<EscrowInstruction, ProcessError>(
                    ProcessError::InvalidInstructionData,
                ),
            },
    {
        match EscrowInstructions::unpack(data) {
            Ok(EscrowInstructions::Make { amount_offered, amount_required }) => Ok(
                EscrowInstruction::Make { amount: amount_offered, receive_amount: amount_required },
            ),
            Ok(EscrowInstructions::Take { amount }) => Ok(EscrowInstruction::Take { amount }),
            Ok(EscrowInstructions::Refund) => Ok(EscrowInstruction::Refund),
            Err(e) => Err(e),
        }
    }
}

} // verus!
