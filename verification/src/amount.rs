//! Sales totals as IEEE 754 binary64 values, held by their bit patterns.
//!
//! A binary64 value is a sign bit, eleven exponent bits and fifty-two fraction
//! bits. With the sign bit cleared, the patterns of the non-negative values
//! order as the values do: zero, the finite values up to the largest, then
//! infinity, and above infinity every pattern is a NaN.

use vstd::prelude::*;

verus! {

/// The sign bit of a binary64 pattern.
pub const SIGN_BIT: u64 = 0x8000_0000_0000_0000;

/// The pattern of positive infinity: all exponent bits set, no fraction bit.
pub const INFINITY_BITS: u64 = 0x7FF0_0000_0000_0000;

/// The pattern of the largest finite value.
pub const MAX_BITS: u64 = 0x7FEF_FFFF_FFFF_FFFF;

/// A summed sales figure.
#[derive(Clone, Copy, Debug, PartialEq, Eq, Structural)]
pub struct SalesAmount {
    /// The IEEE 754 binary64 bit pattern of the figure.
    pub bits: u64,
}

impl SalesAmount {
    /// The pattern with its sign bit cleared.
    pub open spec fn magnitude(self) -> int {
        if self.bits >= SIGN_BIT {
            self.bits - SIGN_BIT
        } else {
            self.bits as int
        }
    }

    /// Not a number: all exponent bits set and some fraction bit.
    pub open spec fn nan(self) -> bool {
        self.magnitude() > INFINITY_BITS
    }

    /// Positive or negative infinity.
    pub open spec fn infinite(self) -> bool {
        self.magnitude() == INFINITY_BITS
    }

    /// Neither infinite nor NaN.
    pub open spec fn finite(self) -> bool {
        self.magnitude() < INFINITY_BITS
    }

    /// Positive or negative zero.
    pub open spec fn zero(self) -> bool {
        self.magnitude() == 0
    }

    /// The largest finite value, which the store uses for a missing figure.
    pub open spec fn max_sentinel(self) -> bool {
        self.bits == MAX_BITS
    }

    /// A number that orders the figures that are no NaN as their values
    /// order: the magnitude of a figure, taken negative where the sign bit is
    /// set. The two zeros, which are equal as values, both have the key zero.
    pub open spec fn order_key(self) -> int {
        if self.bits >= SIGN_BIT {
            -self.magnitude()
        } else {
            self.magnitude()
        }
    }

    /// The cleaned figure: the largest finite value, a NaN and either zero
    /// become positive zero, every other figure (the infinities too) stays.
    pub open spec fn cleaned(self) -> SalesAmount {
        if self.max_sentinel() || self.nan() || self.zero() {
            SalesAmount { bits: 0 }
        } else {
            self
        }
    }

    /// A cleaned figure is a number that is not the largest finite value: zero,
    /// where the figure was that value, a NaN or a zero. It is finite unless
    /// the figure was infinite: an infinity is left as it is.
    pub proof fn lemma_cleaned(self)
        ensures
            !self.cleaned().nan(),
            !self.cleaned().max_sentinel(),
            self.cleaned().finite() <==> !self.infinite(),
            self.max_sentinel() || self.nan() || self.zero() ==> self.cleaned().bits == 0,
            !(self.max_sentinel() || self.nan() || self.zero()) ==> self.cleaned() == self,
            !self.max_sentinel() && !self.nan() ==> self.cleaned().order_key() == self.order_key(),
    {
    }

    /// The figure with the given bit pattern.
    pub fn from_bits(bits: u64) -> (amount: SalesAmount)
        ensures
            amount.bits == bits,
    {
        SalesAmount { bits }
    }

    /// The figure's bit pattern.
    pub fn to_bits(self) -> (bits: u64)
        ensures
            bits == self.bits,
    {
        self.bits
    }

    fn magnitude_bits(self) -> (magnitude: u64)
        ensures
            magnitude == self.magnitude(),
    {
        if self.bits >= SIGN_BIT {
            self.bits - SIGN_BIT
        } else {
            self.bits
        }
    }

    /// Whether the figure is a NaN.
    pub fn is_nan(self) -> (nan: bool)
        ensures
            nan == self.nan(),
    {
        self.magnitude_bits() > INFINITY_BITS
    }

    /// Whether the figure is positive or negative zero.
    pub fn is_zero(self) -> (zero: bool)
        ensures
            zero == self.zero(),
    {
        self.magnitude_bits() == 0
    }
}

} // verus!
