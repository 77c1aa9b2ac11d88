//! The opcode table and the dispatcher.

use vstd::prelude::*;
use crate::kernel::{check_divisor, is_zero_f32_bits};
use crate::wire::Instruction;

verus! {

/// Opcode of [`Operation::Add`].
pub const OPCODE_ADD: u8 = 0;

/// Opcode of [`Operation::Multiply`].
pub const OPCODE_MULTIPLY: u8 = 1;

/// Opcode of [`Operation::Divide`].
pub const OPCODE_DIVIDE: u8 = 2;

/// An operation that an opcode can select.
#[derive(Debug, Clone, Copy, PartialEq, Eq, Structural)]
pub enum Operation {
    Add,
    Multiply,
    Divide,
}

/// Why a decoded instruction cannot be carried out.
#[derive(Debug, Clone, Copy, PartialEq, Eq, Structural)]
pub enum DispatchError {
    /// The opcode selects no operation.
    UnknownOpcode,
    /// A division whose divisor is `+0.0` or `-0.0`.
    InvalidDivisor,
}

/// One IEEE-754 binary32 operation on two operands, given as bit patterns,
/// that the host is to perform.
#[derive(Debug, Clone, Copy, PartialEq, Eq, Structural)]
pub struct Computation {
    pub operation: Operation,
    pub operand_a_bits: u32,
    pub operand_b_bits: u32,
}

/// The operation that `opcode` selects, if any.
pub open spec fn operation_spec(opcode: u8) -> Option<Operation> {
    if opcode == OPCODE_ADD {
        Some(Operation::Add)
    } else if opcode == OPCODE_MULTIPLY {
        Some(Operation::Multiply)
    } else if opcode == OPCODE_DIVIDE {
        Some(Operation::Divide)
    } else {
        None
    }
}

/// What dispatching `instr` yields.
pub open spec fn dispatch_spec(instr: Instruction) -> Result<Computation, DispatchError> {
    match operation_spec(instr.opcode) {
        None => Err(DispatchError::UnknownOpcode),
        Some(op) => if op == Operation::Divide && is_zero_f32_bits(instr.operand_b_bits) {
            Err(DispatchError::InvalidDivisor)
        } else {
            Ok(
                Computation {
                    operation: op,
                    operand_a_bits: instr.operand_a_bits,
                    operand_b_bits: instr.operand_b_bits,
                },
            )
        },
    }
}

/// Looks `opcode` up in the opcode table.
pub fn operation_for_opcode(opcode: u8) -> (r: Option<Operation>)
    ensures
        r == operation_spec(opcode),
{
    match opcode {
        OPCODE_ADD => Some(Operation::Add),
        OPCODE_MULTIPLY => Some(Operation::Multiply),
        OPCODE_DIVIDE => Some(Operation::Divide),
        _ => None,
    }
}

/// Selects the operation that `instr` names and checks its operands: a
/// division by `+0.0` or `-0.0` is refused, every other combination of
/// operands (NaN and infinity included) is accepted unchanged.
pub fn dispatch(instr: &Instruction) -> (r: Result<Computation, DispatchError>)
    ensures
        r == dispatch_spec(*instr),
        r is Err <==> (operation_spec(instr.opcode) is None
            || (instr.opcode == OPCODE_DIVIDE && is_zero_f32_bits(instr.operand_b_bits))),
{
    let op = match operation_for_opcode(instr.opcode) {
        Some(op) => op,
        None => return Err(DispatchError::UnknownOpcode),
    };
    if let Operation::Divide = op {
        if check_divisor(instr.operand_b_bits).is_err() {
            return Err(DispatchError::InvalidDivisor);
        }
    }
    Ok(
        Computation {
            operation: op,
            operand_a_bits: instr.operand_a_bits,
            operand_b_bits: instr.operand_b_bits,
        },
    )
}

} // verus!
