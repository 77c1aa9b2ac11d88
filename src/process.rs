//! One processing call: decode a payload, dispatch it, and collapse every
//! failure into one of the two status codes a host can tell apart.

use vstd::prelude::*;
use crate::dispatch::{
    dispatch, dispatch_spec, operation_spec, Computation, DispatchError, Operation, OPCODE_ADD,
    OPCODE_DIVIDE, OPCODE_MULTIPLY,
};
use crate::kernel::is_zero_f32_bits;
use crate::wire::{decode_instruction, decode_spec, le_u32_at, DecodeError, INSTRUCTION_LEN};

verus! {

/// The failure statuses that a host sees.
#[derive(Debug, Clone, Copy, PartialEq, Eq, Structural)]
pub enum ProcessError {
    /// An empty or truncated payload, or an unknown opcode.
    InvalidInstructionData,
    /// A division by `+0.0` or `-0.0`.
    InvalidArgument,
}

/// The status that a decode failure is reported as.
pub open spec fn decode_status(e: DecodeError) -> ProcessError {
    ProcessError::InvalidInstructionData
}

/// The status that a dispatch failure is reported as.
pub open spec fn dispatch_status(e: DispatchError) -> ProcessError {
    match e {
        DispatchError::UnknownOpcode => ProcessError::InvalidInstructionData,
        DispatchError::InvalidDivisor => ProcessError::InvalidArgument,
    }
}

/// What processing the payload `data` yields.
pub open spec fn process_spec(data: Seq<u8>) -> Result<Computation, ProcessError> {
    match decode_spec(data) {
        Err(e) => Err(decode_status(e)),
        Ok(instr) => match dispatch_spec(instr) {
            Err(e) => Err(dispatch_status(e)),
            Ok(c) => Ok(c),
        },
    }
}

/// The binary32 bit pattern of the divisor in a payload of at least nine bytes.
pub open spec fn divisor_bits(data: Seq<u8>) -> u32 {
    le_u32_at(data, 5) as u32
}

impl ProcessError {
    /// Reports a decode failure.
    pub fn from_decode_error(e: DecodeError) -> (r: ProcessError)
        ensures
            r == decode_status(e),
    {
        ProcessError::InvalidInstructionData
    }

    /// Reports a dispatch failure.
    pub fn from_dispatch_error(e: DispatchError) -> (r: ProcessError)
        ensures
            r == dispatch_status(e),
    {
        match e {
            DispatchError::UnknownOpcode => ProcessError::InvalidInstructionData,
            DispatchError::InvalidDivisor => ProcessError::InvalidArgument,
        }
    }
}

/// Decodes and dispatches one payload. On success the result names the one
/// operation to perform and its two operands exactly as encoded.
pub fn process_payload(data: &[u8]) -> (r: Result<Computation, ProcessError>)
    ensures
        r == process_spec(data@),
        r == Err::<Computation, ProcessError>(ProcessError::InvalidInstructionData)
            <==> (data@.len() < INSTRUCTION_LEN || operation_spec(data@[0]) is None),
        r == Err::<Computation, ProcessError>(ProcessError::InvalidArgument)
            <==> (data@.len() >= INSTRUCTION_LEN && data@[0] == OPCODE_DIVIDE
                && is_zero_f32_bits(divisor_bits(data@))),
{
    let instr = match decode_instruction(data) {
        Ok(instr) => instr,
        Err(e) => return Err(ProcessError::from_decode_error(e)),
    };
    match dispatch(&instr) {
        Ok(c) => Ok(c),
        Err(e) => Err(ProcessError::from_dispatch_error(e)),
    }
}

/// An addition or multiplication payload is always accepted, and it asks for
/// exactly one binary32 addition (opcode 0) or multiplication (opcode 1) of
/// the two operands as they were encoded, with no other step in between.
pub proof fn lemma_add_multiply_always_accepted(data: Seq<u8>)
    requires
        data.len() >= INSTRUCTION_LEN,
        data[0] == OPCODE_ADD || data[0] == OPCODE_MULTIPLY,
    ensures
        process_spec(data) == Ok::<Computation, ProcessError>(
            Computation {
                operation: if data[0] == OPCODE_ADD {
                    Operation::Add
                } else {
                    Operation::Multiply
                },
                operand_a_bits: le_u32_at(data, 1) as u32,
                operand_b_bits: le_u32_at(data, 5) as u32,
            },
        ),
{
}

/// A division whose divisor bytes encode `+0.0` (all zero) or `-0.0` (only
/// the sign bit set) is refused with `InvalidArgument`, whatever the dividend
/// holds, NaN and infinity included.
pub proof fn lemma_zero_divisor_refused(data: Seq<u8>)
    requires
        data.len() >= INSTRUCTION_LEN,
        data[0] == OPCODE_DIVIDE,
        data[5] == 0 && data[6] == 0 && data[7] == 0,
        data[8] == 0 || data[8] == 0x80,
    ensures
        is_zero_f32_bits(divisor_bits(data)),
        process_spec(data) == Err::<Computation, ProcessError>(ProcessError::InvalidArgument),
{
}

/// A division by any divisor other than `+0.0` and `-0.0` is accepted, and it
/// asks for the quotient of the two operands as encoded; a quotient that is
/// infinite or NaN is an ordinary result.
pub proof fn lemma_nonzero_divisor_accepted(data: Seq<u8>)
    requires
        data.len() >= INSTRUCTION_LEN,
        data[0] == OPCODE_DIVIDE,
        !is_zero_f32_bits(divisor_bits(data)),
    ensures
        process_spec(data) == Ok::<Computation, ProcessError>(
            Computation {
                operation: Operation::Divide,
                operand_a_bits: le_u32_at(data, 1) as u32,
                operand_b_bits: divisor_bits(data),
            },
        ),
{
}

/// Processing depends on nothing but the payload's bytes: equal payloads give
/// equal instructions and equal outcomes, bit for bit, however often they are
/// processed.
pub proof fn lemma_processing_deterministic(first: Seq<u8>, second: Seq<u8>)
    requires
        first == second,
    ensures
        decode_spec(first) == decode_spec(second),
        process_spec(first) == process_spec(second),
        decode_spec(first) is Ok ==> dispatch_spec(decode_spec(first)->Ok_0) == dispatch_spec(
            decode_spec(second)->Ok_0,
        ),
{
}

/// Length boundaries: an empty payload and one of eight bytes are refused
/// with `InvalidInstructionData`; nine bytes decode; bytes past the ninth are
/// ignored by decoding and by processing alike.
pub proof fn lemma_payload_length_boundaries(data: Seq<u8>)
    ensures
        data.len() == 0 ==> process_spec(data) == Err::<Computation, ProcessError>(
            ProcessError::InvalidInstructionData,
        ),
        data.len() == 8 ==> process_spec(data) == Err::<Computation, ProcessError>(
            ProcessError::InvalidInstructionData,
        ),
        data.len() >= INSTRUCTION_LEN ==> decode_spec(data) is Ok,
        data.len() >= INSTRUCTION_LEN ==> decode_spec(data) == decode_spec(
            data.subrange(0, INSTRUCTION_LEN as int),
        ),
        data.len() >= INSTRUCTION_LEN ==> process_spec(data) == process_spec(
            data.subrange(0, INSTRUCTION_LEN as int),
        ),
{
    if data.len() >= INSTRUCTION_LEN {
        let head = data.subrange(0, INSTRUCTION_LEN as int);
        assert(head[0] == data[0]);
        assert(le_u32_at(head, 1) == le_u32_at(data, 1));
        assert(le_u32_at(head, 5) == le_u32_at(data, 5));
    }
}

} // verus!
