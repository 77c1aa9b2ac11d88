//! The one decision the arithmetic kernel makes: whether a divisor is zero.
//!
//! Under IEEE-754 equality both `+0.0` and `-0.0` compare equal to zero, and
//! no other value does. A binary32 value is such a zero exactly when every bit
//! but the sign bit is clear; likewise for binary64.

use vstd::prelude::*;

verus! {

/// Failure of a kernel operation.
#[derive(Debug, Clone, Copy, PartialEq, Eq, Structural)]
pub enum ArithmeticError {
    /// The divisor was `+0.0` or `-0.0`.
    DivisionByZero,
}

/// The binary32 bit pattern of `+0.0` or of `-0.0`.
pub open spec fn is_zero_f32_bits(bits: u32) -> bool {
    bits == 0 || bits == 0x8000_0000
}

/// The binary64 bit pattern of `+0.0` or of `-0.0`.
pub open spec fn is_zero_f64_bits(bits: u64) -> bool {
    bits == 0 || bits == 0x8000_0000_0000_0000
}

/// Accepts a binary32 divisor, given by its bit pattern, unless it is a zero.
pub fn check_divisor(bits: u32) -> (r: Result<(), ArithmeticError>)
    ensures
        r is Err <==> is_zero_f32_bits(bits),
{
    assert((bits & 0x7fff_ffff == 0) == (bits == 0 || bits == 0x8000_0000)) by (bit_vector);
    if bits & 0x7fff_ffff == 0 {
        Err(ArithmeticError::DivisionByZero)
    } else {
        Ok(())
    }
}

/// Accepts a binary64 divisor, given by its bit pattern, unless it is a zero.
pub fn check_divisor_wide(bits: u64) -> (r: Result<(), ArithmeticError>)
    ensures
        r is Err <==> is_zero_f64_bits(bits),
{
    assert((bits & 0x7fff_ffff_ffff_ffff == 0) == (bits == 0 || bits == 0x8000_0000_0000_0000))
        by (bit_vector);
    if bits & 0x7fff_ffff_ffff_ffff == 0 {
        Err(ArithmeticError::DivisionByZero)
    } else {
        Ok(())
    }
}

} // verus!
