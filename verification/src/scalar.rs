//! Real-valued quantities as IEEE-754 binary32 bit patterns.
//!
//! Colours, depths, positions, blend weights and matrix entries are held as
//! the 32 bits of their single-precision encoding, so that every value stays
//! exact and can be compared and checked with integer arithmetic alone.

use vstd::prelude::*;

verus! {

/// A single-precision number, held as its bit pattern.
pub type Bits = u32;

/// Positive zero.
pub const ZERO: Bits = 0x0000_0000;

/// Negative zero.
pub const NEG_ZERO: Bits = 0x8000_0000;

/// One.
pub const ONE: Bits = 0x3F80_0000;

/// One half.
pub const HALF: Bits = 0x3F00_0000;

/// Minus one half.
pub const NEG_HALF: Bits = 0xBF00_0000;

/// The single-precision number nearest to one tenth.
pub const TENTH: Bits = 0x3DCC_CCCD;

/// The single-precision number nearest to two tenths.
pub const TWO_TENTHS: Bits = 0x3E4C_CCCD;

/// The single-precision number nearest to three tenths.
pub const THREE_TENTHS: Bits = 0x3E99_999A;

/// Whether `b` encodes zero, of either sign.
pub open spec fn zero(b: Bits) -> bool {
    b == ZERO || b == NEG_ZERO
}

/// Whether `b` encodes a number of the closed interval from zero to one.
///
/// Among patterns with a clear sign bit the encoding is monotonic, so these are
/// the patterns up to that of one; the only other member is negative zero.
/// Infinities and NaNs are never members.
pub open spec fn unit_interval(b: Bits) -> bool {
    b <= ONE || b == NEG_ZERO
}

/// Decides [`zero`].
pub fn is_zero(b: Bits) -> (r: bool)
    ensures
        r == zero(b),
{
    b == ZERO || b == NEG_ZERO
}

/// Decides [`unit_interval`].
pub fn in_unit_interval(b: Bits) -> (r: bool)
    ensures
        r == unit_interval(b),
{
    b <= ONE || b == NEG_ZERO
}

} // verus!
