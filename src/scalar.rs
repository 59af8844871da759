//! Single-precision scalars, held as their IEEE-754 binary32 bit pattern.
//!
//! Every operation of this library on a scalar moves it, compares it with zero,
//! or hands it to the physics kernel; none computes with it. Keeping the bit
//! pattern makes each of those operations exact.

use vstd::prelude::*;

verus! {

/// The bit pattern of `+0.0`.
pub const ZERO_BITS: u32 = 0x0000_0000;

/// The bit pattern of `-0.0`.
pub const NEG_ZERO_BITS: u32 = 0x8000_0000;

/// The bit pattern of `1.0`.
pub const ONE_BITS: u32 = 0x3f80_0000;

/// The bit pattern of `+inf`; every larger pattern with the sign bit clear is a NaN.
pub const POS_INF_BITS: u32 = 0x7f80_0000;

/// A single-precision floating-point number, given by its bit pattern.
#[derive(Clone, Copy, Debug, PartialEq, Eq, Structural)]
pub struct Real {
    pub bits: u32,
}

impl Real {
    /// `+0.0`.
    pub open spec fn spec_zero() -> Real {
        Real { bits: ZERO_BITS }
    }

    /// `1.0`.
    pub open spec fn spec_one() -> Real {
        Real { bits: ONE_BITS }
    }

    /// The number compares greater than zero: a positive finite value or `+inf`.
    pub open spec fn spec_is_positive(self) -> bool {
        ZERO_BITS < self.bits && self.bits <= POS_INF_BITS
    }

    /// The number compares greater than or equal to zero: either zero, a
    /// positive finite value or `+inf` (a NaN compares false with everything).
    pub open spec fn spec_is_non_negative(self) -> bool {
        self.bits <= POS_INF_BITS || self.bits == NEG_ZERO_BITS
    }

    /// The scalar whose bit pattern is `bits`.
    pub fn from_bits(bits: u32) -> (r: Real)
        ensures
            r.bits == bits,
    {
        Real { bits }
    }

    /// The bit pattern of this scalar.
    pub fn to_bits(self) -> (r: u32)
        ensures
            r == self.bits,
    {
        self.bits
    }

    /// `+0.0`.
    pub fn zero() -> (r: Real)
        ensures
            r == Real::spec_zero(),
    {
        Real { bits: ZERO_BITS }
    }

    /// `1.0`.
    pub fn one() -> (r: Real)
        ensures
            r == Real::spec_one(),
    {
        Real { bits: ONE_BITS }
    }

    /// Whether `self > 0.0` holds.
    pub fn is_positive(self) -> (r: bool)
        ensures
            r == self.spec_is_positive(),
    {
        ZERO_BITS < self.bits && self.bits <= POS_INF_BITS
    }

    /// Whether `self >= 0.0` holds.
    pub fn is_non_negative(self) -> (r: bool)
        ensures
            r == self.spec_is_non_negative(),
    {
        self.bits <= POS_INF_BITS || self.bits == NEG_ZERO_BITS
    }
}

} // verus!
