//! Credit amounts as IEEE 754 double-precision bit patterns, and their order.

use vstd::prelude::*;

verus! {

/// The bit pattern with the sign bit alone.
pub const SIGN_BIT: u64 = 0x8000_0000_0000_0000;

/// The bit pattern of positive infinity: a larger magnitude is no number.
pub const INFINITY_BITS: u64 = 0x7ff0_0000_0000_0000;

/// The bit pattern of one thousand.
pub const THOUSAND_BITS: u64 = 0x408f_4000_0000_0000;

/// The bit pattern of one hundred.
pub const HUNDRED_BITS: u64 = 0x4059_0000_0000_0000;

/// An amount: a double-precision number, held by its bit pattern.
#[derive(Debug, Clone, Copy, PartialEq, Eq, Structural)]
pub struct Amount {
    pub bits: u64,
}

impl Amount {
    /// The bit pattern without its sign.
    pub open spec fn magnitude(self) -> int {
        if self.bits >= SIGN_BIT {
            self.bits - SIGN_BIT
        } else {
            self.bits as int
        }
    }

    /// Whether the pattern stands for no number.
    pub open spec fn is_nan(self) -> bool {
        self.magnitude() > INFINITY_BITS
    }

    /// A whole number that grows with the amount: two numbers stand in the order of
    /// their ranks, and the two zeros have the same.
    pub open spec fn rank(self) -> int {
        if self.bits >= SIGN_BIT {
            -self.magnitude()
        } else {
            self.magnitude()
        }
    }

    /// `self < other`, as floating-point numbers compare.
    pub open spec fn is_below(self, other: Amount) -> bool {
        !self.is_nan() && !other.is_nan() && self.rank() < other.rank()
    }

    /// `self >= other`, as floating-point numbers compare.
    pub open spec fn is_at_least(self, other: Amount) -> bool {
        !self.is_nan() && !other.is_nan() && self.rank() >= other.rank()
    }

    /// `self == other`, as floating-point numbers compare.
    pub open spec fn is_same(self, other: Amount) -> bool {
        !self.is_nan() && !other.is_nan() && self.rank() == other.rank()
    }

    /// One thousand.
    pub fn thousand() -> (r: Amount)
        ensures
            r.bits == THOUSAND_BITS,
    {
        Amount { bits: THOUSAND_BITS }
    }

    /// One hundred.
    pub fn hundred() -> (r: Amount)
        ensures
            r.bits == HUNDRED_BITS,
    {
        Amount { bits: HUNDRED_BITS }
    }

    /// The rank, or nothing where the pattern stands for no number.
    fn order(self) -> (r: Option<i128>)
        ensures
            r is Some == !self.is_nan(),
            r matches Some(n) ==> n == self.rank(),
    {
        if self.bits >= SIGN_BIT {
            let magnitude: u64 = self.bits - SIGN_BIT;
            if magnitude > INFINITY_BITS {
                None
            } else {
                Some(-(magnitude as i128))
            }
        } else if self.bits > INFINITY_BITS {
            None
        } else {
            Some(self.bits as i128)
        }
    }

    /// Whether the amount is below another.
    pub fn below(self, other: Amount) -> (r: bool)
        ensures
            r == self.is_below(other),
    {
        match (self.order(), other.order()) {
            (Some(a), Some(b)) => a < b,
            _ => false,
        }
    }

    /// Whether the amount is another or above it.
    pub fn at_least(self, other: Amount) -> (r: bool)
        ensures
            r == self.is_at_least(other),
    {
        match (self.order(), other.order()) {
            (Some(a), Some(b)) => a >= b,
            _ => false,
        }
    }

    /// Whether two amounts are the same number.
    pub fn equals(self, other: Amount) -> (r: bool)
        ensures
            r == self.is_same(other),
    {
        match (self.order(), other.order()) {
            (Some(a), Some(b)) => a == b,
            _ => false,
        }
    }
}

} // verus!
