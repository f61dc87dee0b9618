//! Ordering of IEEE 754 values, decided on their bit patterns.
//!
//! Headings, limits and temperatures reach the logic as bit patterns: computing
//! with them is left to the caller, comparing them is not.

use vstd::prelude::*;

verus! {

/// A single-precision value, as its bit pattern.
#[derive(Debug, Clone, Copy)]
pub struct Single {
    pub bits: u32,
}

/// A double-precision value, as its bit pattern.
#[derive(Debug, Clone, Copy)]
pub struct Double {
    pub bits: u64,
}

pub const SINGLE_SIGN: u32 = 0x8000_0000;
pub const SINGLE_INFINITY: u32 = 0x7F80_0000;
pub const DOUBLE_SIGN: u64 = 0x8000_0000_0000_0000;
pub const DOUBLE_INFINITY: u64 = 0x7FF0_0000_0000_0000;

impl Single {
    /// The pattern without its sign: exponent, then fraction.
    pub open spec fn magnitude(self) -> int {
        if self.bits >= SINGLE_SIGN {
            self.bits - SINGLE_SIGN
        } else {
            self.bits as int
        }
    }

    pub open spec fn nan(self) -> bool {
        self.magnitude() > SINGLE_INFINITY
    }

    /// A number that orders the values that are numbers; both zeros have zero.
    pub open spec fn rank(self) -> int {
        if self.bits >= SINGLE_SIGN {
            -self.magnitude()
        } else {
            self.magnitude()
        }
    }

    pub open spec fn lt_spec(self, other: Single) -> bool {
        !self.nan() && !other.nan() && self.rank() < other.rank()
    }

    pub open spec fn le_spec(self, other: Single) -> bool {
        !self.nan() && !other.nan() && self.rank() <= other.rank()
    }

    pub open spec fn abs_spec(self) -> Single {
        Single { bits: self.magnitude() as u32 }
    }

    pub open spec fn finite(self) -> bool {
        self.magnitude() < SINGLE_INFINITY
    }

    pub open spec fn neg_spec(self) -> Single {
        if self.bits >= SINGLE_SIGN {
            Single { bits: (self.bits - SINGLE_SIGN) as u32 }
        } else {
            Single { bits: (self.bits + SINGLE_SIGN) as u32 }
        }
    }

    /// The value, or the bound that it lies beyond.
    pub open spec fn clamp_spec(self, min: Single, max: Single) -> Single {
        if self.lt_spec(min) {
            min
        } else if max.lt_spec(self) {
            max
        } else {
            self
        }
    }

    /// Whether the value is not a number.
    pub fn is_nan(self) -> (r: bool)
        ensures
            r == self.nan(),
    {
        self.abs().bits > SINGLE_INFINITY
    }

    /// Whether the value is a number and not infinite.
    pub fn is_finite(self) -> (r: bool)
        ensures
            r == self.finite(),
    {
        self.abs().bits < SINGLE_INFINITY
    }

    /// Whether the value is one of the zeros.
    pub fn is_zero(self) -> (r: bool)
        ensures
            r == (self.rank() == 0),
    {
        self.abs().bits == 0
    }

    /// The value with its sign flipped.
    pub fn neg(self) -> (r: Single)
        ensures
            r == self.neg_spec(),
    {
        if self.bits >= SINGLE_SIGN {
            Single { bits: self.bits - SINGLE_SIGN }
        } else {
            Single { bits: self.bits + SINGLE_SIGN }
        }
    }

    /// The value, or the bound that it lies beyond.
    pub fn clamp(self, min: Single, max: Single) -> (r: Single)
        requires
            min.le_spec(max),
        ensures
            r == self.clamp_spec(min, max),
    {
        if self.lt(min) {
            min
        } else if max.lt(self) {
            max
        } else {
            self
        }
    }

    /// The value with its sign cleared.
    pub fn abs(self) -> (r: Single)
        ensures
            r == self.abs_spec(),
    {
        if self.bits >= SINGLE_SIGN {
            Single { bits: self.bits - SINGLE_SIGN }
        } else {
            self
        }
    }

    /// `self < other`; never true of a value that is not a number.
    pub fn lt(self, other: Single) -> (r: bool)
        ensures
            r == self.lt_spec(other),
    {
        if self.is_nan() || other.is_nan() {
            return false;
        }
        let a: u32 = self.abs().bits;
        let b: u32 = other.abs().bits;
        match (self.bits >= SINGLE_SIGN, other.bits >= SINGLE_SIGN) {
            (false, false) => a < b,
            (true, true) => b < a,
            (true, false) => a > 0 || b > 0,
            (false, true) => false,
        }
    }

    /// `self <= other`; never true of a value that is not a number.
    pub fn le(self, other: Single) -> (r: bool)
        ensures
            r == self.le_spec(other),
    {
        !self.is_nan() && !other.is_nan() && !other.lt(self)
    }
}

impl Double {
    /// The pattern without its sign: exponent, then fraction.
    pub open spec fn magnitude(self) -> int {
        if self.bits >= DOUBLE_SIGN {
            self.bits - DOUBLE_SIGN
        } else {
            self.bits as int
        }
    }

    pub open spec fn nan(self) -> bool {
        self.magnitude() > DOUBLE_INFINITY
    }

    /// A number that orders the values that are numbers; both zeros have zero.
    pub open spec fn rank(self) -> int {
        if self.bits >= DOUBLE_SIGN {
            -self.magnitude()
        } else {
            self.magnitude()
        }
    }

    pub open spec fn lt_spec(self, other: Double) -> bool {
        !self.nan() && !other.nan() && self.rank() < other.rank()
    }

    pub open spec fn le_spec(self, other: Double) -> bool {
        !self.nan() && !other.nan() && self.rank() <= other.rank()
    }

    pub open spec fn abs_spec(self) -> Double {
        Double { bits: self.magnitude() as u64 }
    }

    /// Whether the value is neither infinite nor not a number.
    pub open spec fn finite(self) -> bool {
        self.magnitude() < DOUBLE_INFINITY
    }

    /// Whether the value is not a number.
    pub fn is_nan(self) -> (r: bool)
        ensures
            r == self.nan(),
    {
        self.abs().bits > DOUBLE_INFINITY
    }

    /// Whether the value is neither infinite nor not a number.
    pub fn is_finite(self) -> (r: bool)
        ensures
            r == self.finite(),
    {
        self.abs().bits < DOUBLE_INFINITY
    }

    /// The value with its sign cleared.
    pub fn abs(self) -> (r: Double)
        ensures
            r == self.abs_spec(),
    {
        if self.bits >= DOUBLE_SIGN {
            Double { bits: self.bits - DOUBLE_SIGN }
        } else {
            self
        }
    }

    /// `self < other`; never true of a value that is not a number.
    pub fn lt(self, other: Double) -> (r: bool)
        ensures
            r == self.lt_spec(other),
    {
        if self.is_nan() || other.is_nan() {
            return false;
        }
        let a: u64 = self.abs().bits;
        let b: u64 = other.abs().bits;
        match (self.bits >= DOUBLE_SIGN, other.bits >= DOUBLE_SIGN) {
            (false, false) => a < b,
            (true, true) => b < a,
            (true, false) => a > 0 || b > 0,
            (false, true) => false,
        }
    }

    /// `self <= other`; never true of a value that is not a number.
    pub fn le(self, other: Double) -> (r: bool)
        ensures
            r == self.le_spec(other),
    {
        !self.is_nan() && !other.is_nan() && !other.lt(self)
    }
}

} // verus!
