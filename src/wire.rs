//! The wire format: one opcode byte and two 4-byte little-endian operands.

use vstd::prelude::*;

verus! {

/// Number of significant bytes in a payload; later bytes are ignored.
pub const INSTRUCTION_LEN: usize = 9;

/// A decoded payload. The operands are IEEE-754 binary32 bit patterns, kept
/// exactly as they arrived (NaN and infinity included).
#[derive(Debug, Clone, Copy, PartialEq, Eq, Structural)]
pub struct Instruction {
    pub opcode: u8,
    pub operand_a_bits: u32,
    pub operand_b_bits: u32,
}

/// Why a payload could not be decoded.
#[derive(Debug, Clone, Copy, PartialEq, Eq, Structural)]
pub enum DecodeError {
    /// The payload holds no bytes.
    EmptyPayload,
    /// The payload holds fewer than nine bytes.
    Truncated,
}

/// The unsigned integer that four bytes starting at `start` encode, least
/// significant byte first.
pub open spec fn le_u32_at(data: Seq<u8>, start: int) -> int {
    data[start] + data[start + 1] * 0x100 + data[start + 2] * 0x1_0000 + data[start + 3]
        * 0x100_0000
}

/// What decoding `data` yields.
pub open spec fn decode_spec(data: Seq<u8>) -> Result<Instruction, DecodeError> {
    if data.len() == 0 {
        Err(DecodeError::EmptyPayload)
    } else if data.len() < INSTRUCTION_LEN {
        Err(DecodeError::Truncated)
    } else {
        Ok(
            Instruction {
                opcode: data[0],
                operand_a_bits: le_u32_at(data, 1) as u32,
                operand_b_bits: le_u32_at(data, 5) as u32,
            },
        )
    }
}

/// Reads the little-endian `u32` stored in `data[start..start + 4]`.
pub fn read_u32_le(data: &[u8], start: usize) -> (r: u32)
    requires
        start + 4 <= data@.len(),
    ensures
        r == le_u32_at(data@, start as int),
{
    let b0 = data[start] as u32;
    let b1 = data[start + 1] as u32;
    let b2 = data[start + 2] as u32;
    let b3 = data[start + 3] as u32;
    b0 + b1 * 0x100 + b2 * 0x1_0000 + b3 * 0x100_0000
}

/// Decodes a payload: the opcode byte, then operand A from bytes 1..5 and
/// operand B from bytes 5..9. Bytes past the ninth are ignored, and the
/// opcode is not checked here.
pub fn decode_instruction(data: &[u8]) -> (r: Result<Instruction, DecodeError>)
    ensures
        r == decode_spec(data@),
        r is Err <==> data@.len() < INSTRUCTION_LEN,
        r == Err::<Instruction, DecodeError>(DecodeError::EmptyPayload) <==> data@.len() == 0,
{
    if data.len() == 0 {
        return Err(DecodeError::EmptyPayload);
    }
    if data.len() < INSTRUCTION_LEN {
        return Err(DecodeError::Truncated);
    }
    Ok(
        Instruction {
            opcode: data[0],
            operand_a_bits: read_u32_le(data, 1),
            operand_b_bits: read_u32_le(data, 5),
        },
    )
}

} // verus!
