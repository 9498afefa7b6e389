//! Floating-point configuration values carried by their IEEE-754 bit patterns.
//!
//! The data files hold `f32`/`f64` numbers.  This library never computes with
//! them; it stores them exactly (as the bits that `f32::to_bits` /
//! `f64::to_bits` give) and decides its rules with the IEEE-754 comparisons
//! below, which are stated over the bit patterns: a NaN compares false with
//! everything, `-0.0 == +0.0`, and otherwise values are ordered by sign and
//! magnitude.

use vstd::prelude::*;

verus! {

/// An `f32` value, held as its IEEE-754 bit pattern.
#[derive(Clone, Copy, Debug, PartialEq, Eq, Structural)]
pub struct F32Bits(pub u32);

/// An `f64` value, held as its IEEE-754 bit pattern.
#[derive(Clone, Copy, Debug, PartialEq, Eq, Structural)]
pub struct F64Bits(pub u64);

impl F32Bits {
    /// The sign bit is set.
    pub open spec fn sign_set(self) -> bool {
        self.0 >= 0x8000_0000u32
    }

    /// The bit pattern without its sign bit.
    pub open spec fn magnitude(self) -> int {
        if self.sign_set() {
            self.0 - 0x8000_0000int
        } else {
            self.0 as int
        }
    }

    /// The value is a NaN (all exponent bits set, mantissa not zero).
    pub open spec fn ieee_is_nan(self) -> bool {
        self.magnitude() > 0x7F80_0000int
    }

    /// The value is neither infinite nor NaN.
    pub open spec fn ieee_is_finite(self) -> bool {
        self.magnitude() < 0x7F80_0000int
    }

    /// `self < other` as IEEE-754 defines it.
    pub open spec fn ieee_lt(self, other: F32Bits) -> bool {
        &&& !self.ieee_is_nan()
        &&& !other.ieee_is_nan()
        &&& !(self.magnitude() == 0 && other.magnitude() == 0)
        &&& if !self.sign_set() && !other.sign_set() {
            self.magnitude() < other.magnitude()
        } else if self.sign_set() && other.sign_set() {
            self.magnitude() > other.magnitude()
        } else {
            self.sign_set()
        }
    }

    /// `self == other` as IEEE-754 defines it.
    pub open spec fn ieee_eq(self, other: F32Bits) -> bool {
        &&& !self.ieee_is_nan()
        &&& !other.ieee_is_nan()
        &&& (self.0 == other.0 || (self.magnitude() == 0 && other.magnitude() == 0))
    }

    /// `self <= other` as IEEE-754 defines it.
    pub open spec fn ieee_le(self, other: F32Bits) -> bool {
        self.ieee_lt(other) || self.ieee_eq(other)
    }

    /// `+0.0`.
    pub fn zero() -> (r: F32Bits)
        ensures
            r.0 == 0,
    {
        F32Bits(0)
    }

    /// `1.0`.
    pub fn one() -> (r: F32Bits)
        ensures
            r.0 == 0x3F80_0000u32,
    {
        F32Bits(0x3F80_0000)
    }

    fn magnitude_of(&self) -> (m: u32)
        ensures
            m == self.magnitude(),
    {
        if self.0 >= 0x8000_0000 {
            self.0 - 0x8000_0000
        } else {
            self.0
        }
    }

    /// `f32::is_nan`.
    pub fn is_nan(&self) -> (r: bool)
        ensures
            r == self.ieee_is_nan(),
    {
        self.magnitude_of() > 0x7F80_0000
    }

    /// `f32::is_finite`.
    pub fn is_finite(&self) -> (r: bool)
        ensures
            r == self.ieee_is_finite(),
    {
        self.magnitude_of() < 0x7F80_0000
    }

    /// `self < other`.
    pub fn less_than(&self, other: &F32Bits) -> (r: bool)
        ensures
            r == self.ieee_lt(*other),
    {
        let ma = self.magnitude_of();
        let mb = other.magnitude_of();
        if ma > 0x7F80_0000 || mb > 0x7F80_0000 {
            return false;
        }
        if ma == 0 && mb == 0 {
            return false;
        }
        let sa = self.0 >= 0x8000_0000;
        let sb = other.0 >= 0x8000_0000;
        if !sa && !sb {
            ma < mb
        } else if sa && sb {
            ma > mb
        } else {
            sa
        }
    }

    /// `self == other` (IEEE equality, not bit equality).
    pub fn equals(&self, other: &F32Bits) -> (r: bool)
        ensures
            r == self.ieee_eq(*other),
    {
        let ma = self.magnitude_of();
        let mb = other.magnitude_of();
        if ma > 0x7F80_0000 || mb > 0x7F80_0000 {
            return false;
        }
        self.0 == other.0 || (ma == 0 && mb == 0)
    }

    /// `self <= other`.
    pub fn at_most(&self, other: &F32Bits) -> (r: bool)
        ensures
            r == self.ieee_le(*other),
    {
        self.less_than(other) || self.equals(other)
    }

    /// `self > other`.
    pub fn greater_than(&self, other: &F32Bits) -> (r: bool)
        ensures
            r == other.ieee_lt(*self),
    {
        other.less_than(self)
    }

    /// `self >= other`.
    pub fn at_least(&self, other: &F32Bits) -> (r: bool)
        ensures
            r == other.ieee_le(*self),
    {
        other.at_most(self)
    }
}

impl F64Bits {
    /// The sign bit is set.
    pub open spec fn sign_set(self) -> bool {
        self.0 >= 0x8000_0000_0000_0000u64
    }

    /// The bit pattern without its sign bit.
    pub open spec fn magnitude(self) -> int {
        if self.sign_set() {
            self.0 - 0x8000_0000_0000_0000int
        } else {
            self.0 as int
        }
    }

    /// The value is a NaN.
    pub open spec fn ieee_is_nan(self) -> bool {
        self.magnitude() > 0x7FF0_0000_0000_0000int
    }

    /// The value is neither infinite nor NaN.
    pub open spec fn ieee_is_finite(self) -> bool {
        self.magnitude() < 0x7FF0_0000_0000_0000int
    }

    /// `self < other` as IEEE-754 defines it.
    pub open spec fn ieee_lt(self, other: F64Bits) -> bool {
        &&& !self.ieee_is_nan()
        &&& !other.ieee_is_nan()
        &&& !(self.magnitude() == 0 && other.magnitude() == 0)
        &&& if !self.sign_set() && !other.sign_set() {
            self.magnitude() < other.magnitude()
        } else if self.sign_set() && other.sign_set() {
            self.magnitude() > other.magnitude()
        } else {
            self.sign_set()
        }
    }

    /// `self == other` as IEEE-754 defines it.
    pub open spec fn ieee_eq(self, other: F64Bits) -> bool {
        &&& !self.ieee_is_nan()
        &&& !other.ieee_is_nan()
        &&& (self.0 == other.0 || (self.magnitude() == 0 && other.magnitude() == 0))
    }

    /// `self <= other` as IEEE-754 defines it.
    pub open spec fn ieee_le(self, other: F64Bits) -> bool {
        self.ieee_lt(other) || self.ieee_eq(other)
    }

    /// `+0.0`.
    pub fn zero() -> (r: F64Bits)
        ensures
            r.0 == 0,
    {
        F64Bits(0)
    }

    fn magnitude_of(&self) -> (m: u64)
        ensures
            m == self.magnitude(),
    {
        if self.0 >= 0x8000_0000_0000_0000 {
            self.0 - 0x8000_0000_0000_0000
        } else {
            self.0
        }
    }

    /// `f64::is_nan`.
    pub fn is_nan(&self) -> (r: bool)
        ensures
            r == self.ieee_is_nan(),
    {
        self.magnitude_of() > 0x7FF0_0000_0000_0000
    }

    /// `self < other`.
    pub fn less_than(&self, other: &F64Bits) -> (r: bool)
        ensures
            r == self.ieee_lt(*other),
    {
        let ma = self.magnitude_of();
        let mb = other.magnitude_of();
        if ma > 0x7FF0_0000_0000_0000 || mb > 0x7FF0_0000_0000_0000 {
            return false;
        }
        if ma == 0 && mb == 0 {
            return false;
        }
        let sa = self.0 >= 0x8000_0000_0000_0000;
        let sb = other.0 >= 0x8000_0000_0000_0000;
        if !sa && !sb {
            ma < mb
        } else if sa && sb {
            ma > mb
        } else {
            sa
        }
    }

    /// `self == other` (IEEE equality).
    pub fn equals(&self, other: &F64Bits) -> (r: bool)
        ensures
            r == self.ieee_eq(*other),
    {
        let ma = self.magnitude_of();
        let mb = other.magnitude_of();
        if ma > 0x7FF0_0000_0000_0000 || mb > 0x7FF0_0000_0000_0000 {
            return false;
        }
        self.0 == other.0 || (ma == 0 && mb == 0)
    }

    /// `self <= other`.
    pub fn at_most(&self, other: &F64Bits) -> (r: bool)
        ensures
            r == self.ieee_le(*other),
    {
        self.less_than(other) || self.equals(other)
    }

    /// `self > other`.
    pub fn greater_than(&self, other: &F64Bits) -> (r: bool)
        ensures
            r == other.ieee_lt(*self),
    {
        other.less_than(self)
    }
}

} // verus!
