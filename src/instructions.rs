use vstd::prelude::*;

use crate::codec::{le_bytes, le_u64, lemma_le_round_trip, read_u64_le, write_u64_le};
use crate::error::ProcessError;

verus! {

/// The three instructions the escrow program accepts.
#[derive(Debug, Clone, Copy, PartialEq, Eq, Structural)]
pub enum EscrowInstructions {
    Make { amount_offered: u64, amount_required: u64 },
    Take { amount: u64 },
    Refund,
}

pub const MAKE_TAG: u8 = 0;

pub const TAKE_TAG: u8 = 1;

pub const REFUND_TAG: u8 = 2;

/// The instruction encoded by `d`, if any: one tag byte, then the variant's
/// little-endian fields, and nothing after them.
pub open spec fn decode_instruction(d: Seq<u8>) -> Option<EscrowInstructions> {
    if d.len() == 17 && d[0] == MAKE_TAG {
        Some(
            EscrowInstructions::Make {
                amount_offered: le_u64(d.subrange(1, 9)),
                amount_required: le_u64(d.subrange(9, 17)),
            },
        )
    } else if d.len() == 9 && d[0] == TAKE_TAG {
        Some(EscrowInstructions::Take { amount: le_u64(d.subrange(1, 9)) })
    } else if d.len() == 1 && d[0] == REFUND_TAG {
        Some(EscrowInstructions::Refund)
    } else {
        None
    }
}

/// The wire encoding of an instruction.
pub open spec fn encode_instruction(i: EscrowInstructions) -> Seq<u8> {
    match i {
        EscrowInstructions::Make { amount_offered, amount_required } => seq![MAKE_TAG] + le_bytes(
            amount_offered,
        ) + le_bytes(amount_required),
        EscrowInstructions::Take { amount } => seq![TAKE_TAG] + le_bytes(amount),
        EscrowInstructions::Refund => seq![REFUND_TAG],
    }
}

impl EscrowInstructions {
    /// Decodes an instruction payload; any other byte string is refused.
    pub fn unpack(data: &[u8]) -> (r: Result<EscrowInstructions, ProcessError>)
        ensures
            r == match decode_instruction(data@) {
                Some(i) => Ok(i),
                None => Err(ProcessError::InvalidInstructionData),
            },
    {
        let n = data.len();
        if n == 0 {
            return Err(ProcessError::InvalidInstructionData);
        }
        let tag = data[0];
        if tag == MAKE_TAG && n == 17 {
            let amount_offered = read_u64_le(data, 1);
            let amount_required = read_u64_le(data, 9);
            Ok(EscrowInstructions::Make { amount_offered, amount_required })
        } else if tag == TAKE_TAG && n == 9 {
            let amount = read_u64_le(data, 1);
            Ok(EscrowInstructions::Take { amount })
        } else if tag == REFUND_TAG && n == 1 {
            Ok(EscrowInstructions::Refund)
        } else {
            Err(ProcessError::InvalidInstructionData)
        }
    }

    /// Encodes the instruction as its wire payload.
    pub fn pack(&self) -> (r: Vec<u8>)
        ensures
            r@ == encode_instruction(*self),
    {
        let mut out: Vec<u8> = Vec::new();
        match self {
            EscrowInstructions::Make { amount_offered, amount_required } => {
                out.push(MAKE_TAG);
                write_u64_le(&mut out, *amount_offered);
                write_u64_le(&mut out, *amount_required);
            },
            EscrowInstructions::Take { amount } => {
                out.push(TAKE_TAG);
                write_u64_le(&mut out, *amount);
            },
            EscrowInstructions::Refund => {
                out.push(REFUND_TAG);
            },
        }
        proof {
            assert(seq![MAKE_TAG] =~= Seq::<u8>::empty().push(MAKE_TAG));
            assert(seq![TAKE_TAG] =~= Seq::<u8>::empty().push(TAKE_TAG));
            assert(seq![REFUND_TAG] =~= Seq::<u8>::empty().push(REFUND_TAG));
        }
        out
    }
}

/// Decoding the encoding of an instruction gives the instruction back.
pub proof fn lemma_instruction_round_trip(i: EscrowInstructions)
    ensures
        decode_instruction(encode_instruction(i)) == Some(i),
{
    let d = encode_instruction(i);
    match i {
        EscrowInstructions::Make { amount_offered, amount_required } => {
            assert(d.subrange(1, 9) =~= le_bytes(amount_offered));
            assert(d.subrange(9, 17) =~= le_bytes(amount_required));
            lemma_le_round_trip(amount_offered);
            lemma_le_round_trip(amount_required);
        },
        EscrowInstructions::Take { amount } => {
            assert(d.subrange(1, 9) =~= le_bytes(amount));
            lemma_le_round_trip(amount);
        },
        EscrowInstructions::Refund => {},
    }
}

} // verus!
