//! Decoding and dispatch for a small arithmetic command processor.
//!
//! A payload is one opcode byte followed by two little-endian IEEE-754
//! binary32 operands. The library decodes a payload, decides which single
//! arithmetic operation it requests and on which operand bit patterns, and
//! rejects malformed payloads, unknown opcodes and zero divisors. Operands are
//! carried as their raw bit patterns, so every decision here is exact and
//! deterministic; the host performs the one IEEE-754 operation that a
//! [`Computation`] names.

pub mod dispatch;
pub mod kernel;
pub mod process;
pub mod wire;

pub use wire::{decode_instruction, read_u32_le, DecodeError, Instruction, INSTRUCTION_LEN};
pub use kernel::{check_divisor, check_divisor_wide, ArithmeticError};
pub use dispatch::{
    dispatch, operation_for_opcode, Computation, DispatchError, Operation, OPCODE_ADD,
    OPCODE_DIVIDE, OPCODE_MULTIPLY,
};
pub use process::{process_payload, ProcessError};
