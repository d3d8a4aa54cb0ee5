//! Levels as bit patterns.
//!
//! An energy, a threshold or a confidence is a single-precision binary
//! floating-point number. It is held here as the 32 bits of its IEEE-754
//! encoding: one sign bit, then exponent and fraction, which together order
//! the magnitudes of all numbers as unsigned integers.

use vstd::prelude::*;

verus! {

/// The sign bit of an encoding.
pub const SIGN_BIT: u32 = 0x8000_0000;

/// The magnitude bits of infinity; larger magnitudes are not numbers.
pub const INFINITY_BITS: u32 = 0x7F80_0000;

/// The encoding of one.
pub const ONE_BITS: u32 = 0x3F80_0000;

/// A level, nominally between zero and one.
#[derive(Debug, Clone, Copy, PartialEq, Eq, Structural)]
pub struct Level {
    /// The IEEE-754 single-precision encoding of the level.
    pub bits: u32,
}

impl Level {
    /// The encoding without its sign bit.
    pub open spec fn magnitude(self) -> int {
        if self.bits >= SIGN_BIT {
            self.bits - SIGN_BIT
        } else {
            self.bits as int
        }
    }

    /// Whether the encoding is not a number.
    pub open spec fn spec_is_nan(self) -> bool {
        self.magnitude() > INFINITY_BITS
    }

    /// Whether the encoding is a finite number: neither infinite nor not a
    /// number.
    pub open spec fn spec_is_finite(self) -> bool {
        self.magnitude() < INFINITY_BITS
    }

    /// An integer that orders the levels as their values are ordered, both
    /// zeros being equal. It says nothing of a level that is not a number.
    pub open spec fn rank(self) -> int {
        if self.bits >= SIGN_BIT {
            -self.magnitude()
        } else {
            self.magnitude()
        }
    }

    /// `self >= other` as numbers: false where either is not a number.
    pub open spec fn spec_ge(self, other: Level) -> bool {
        !self.spec_is_nan() && !other.spec_is_nan() && self.rank() >= other.rank()
    }

    /// The level restricted to the range from zero to one: a level below
    /// zero becomes zero, one above one becomes one, any other level, one
    /// that is not a number included, stays as it is.
    pub open spec fn spec_clamp_unit(self) -> Level {
        if self.spec_is_nan() {
            self
        } else if self.rank() < 0 {
            Level { bits: 0 }
        } else if self.rank() > ONE_BITS {
            Level { bits: ONE_BITS }
        } else {
            self
        }
    }

    /// The level with the given encoding.
    pub fn from_bits(bits: u32) -> (r: Self)
        ensures
            r.bits == bits,
    {
        Level { bits }
    }

    /// The encoding of the level.
    pub fn to_bits(&self) -> (r: u32)
        ensures
            r == self.bits,
    {
        self.bits
    }

    /// The encoding without its sign bit.
    fn magnitude_bits(&self) -> (r: u32)
        ensures
            r as int == self.magnitude(),
    {
        if self.bits >= SIGN_BIT {
            self.bits - SIGN_BIT
        } else {
            self.bits
        }
    }

    /// Whether the level is not a number.
    pub fn is_nan(&self) -> (r: bool)
        ensures
            r == self.spec_is_nan(),
    {
        self.magnitude_bits() > INFINITY_BITS
    }

    /// Whether the level is a finite number.
    pub fn is_finite(&self) -> (r: bool)
        ensures
            r == self.spec_is_finite(),
    {
        self.magnitude_bits() < INFINITY_BITS
    }

    /// Computes `rank`.
    fn rank_of(&self) -> (r: i64)
        ensures
            r as int == self.rank(),
    {
        let magnitude: i64 = self.magnitude_bits() as i64;
        if self.bits >= SIGN_BIT {
            -magnitude
        } else {
            magnitude
        }
    }

    /// Whether the level is at least `other`, as numbers.
    pub fn ge(&self, other: &Level) -> (r: bool)
        ensures
            r == self.spec_ge(*other),
    {
        !self.is_nan() && !other.is_nan() && self.rank_of() >= other.rank_of()
    }

    /// The level restricted to the range from zero to one.
    pub fn clamp_unit(&self) -> (r: Level)
        ensures
            r == self.spec_clamp_unit(),
            !self.spec_is_nan() ==> 0 <= r.rank() <= ONE_BITS,
    {
        if self.is_nan() {
            *self
        } else if self.rank_of() < 0 {
            Level { bits: 0 }
        } else if self.rank_of() > ONE_BITS as i64 {
            Level { bits: ONE_BITS }
        } else {
            *self
        }
    }
}

} // verus!
