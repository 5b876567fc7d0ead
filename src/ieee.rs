use vstd::prelude::*;

verus! {

/// The sign bit of a binary64 bit pattern.
pub const SIGN_BIT: u64 = 0x8000_0000_0000_0000;

/// The bit pattern of positive infinity; every magnitude above it is a NaN.
pub const INFINITY_BITS: u64 = 0x7FF0_0000_0000_0000;

pub const NEG_INFINITY_BITS: u64 = 0xFFF0_0000_0000_0000;

/// The quiet NaN that arithmetic produces by default.
pub const NAN_BITS: u64 = 0x7FF8_0000_0000_0000;

pub const ZERO_BITS: u64 = 0;

pub const ONE_BITS: u64 = 0x3FF0_0000_0000_0000;

/// An IEEE-754 binary64 value, held as its bit pattern.
///
/// Equality of two `Double`s is equality of bit patterns; the IEEE comparison
/// is `same_value` (where `+0` equals `-0` and a NaN equals nothing).
#[derive(Debug, Clone, Copy, PartialEq, Eq, Structural)]
pub struct Double {
    pub bits: u64,
}

impl Double {
    /// The magnitude: the bit pattern with the sign bit cleared.
    pub open spec fn magnitude(self) -> nat {
        (self.bits % SIGN_BIT) as nat
    }

    pub open spec fn sign_negative(self) -> bool {
        self.bits >= SIGN_BIT
    }

    /// All exponent bits set and a nonzero fraction.
    pub open spec fn nan(self) -> bool {
        self.magnitude() > INFINITY_BITS
    }

    /// Position of a non-NaN value on the real line: binary64 values are in
    /// sign-magnitude form, and within one sign the magnitudes are ordered as
    /// the values are. Both zeros sit at 0.
    pub open spec fn key(self) -> int {
        if self.sign_negative() {
            -(self.magnitude() as int)
        } else {
            self.magnitude() as int
        }
    }

    /// IEEE `self < o`: false whenever either side is a NaN.
    pub open spec fn lt_spec(self, o: Double) -> bool {
        !self.nan() && !o.nan() && self.key() < o.key()
    }

    /// IEEE `self <= o`.
    pub open spec fn le_spec(self, o: Double) -> bool {
        !self.nan() && !o.nan() && self.key() <= o.key()
    }

    /// IEEE `self == o`.
    pub open spec fn same_value(self, o: Double) -> bool {
        !self.nan() && !o.nan() && self.key() == o.key()
    }

    /// `self > 0.0`.
    pub open spec fn positive(self) -> bool {
        (Double { bits: ZERO_BITS }).lt_spec(self)
    }

    /// `self < 0.0`.
    pub open spec fn negative(self) -> bool {
        self.lt_spec(Double { bits: ZERO_BITS })
    }

    pub open spec fn abs_spec(self) -> Double {
        Double { bits: (self.bits % SIGN_BIT) as u64 }
    }

    pub fn from_bits(bits: u64) -> (r: Double)
        ensures
            r.bits == bits,
    {
        Double { bits }
    }

    pub fn to_bits(&self) -> (r: u64)
        ensures
            r == self.bits,
    {
        self.bits
    }

    pub fn zero() -> (r: Double)
        ensures
            r.bits == ZERO_BITS,
    {
        Double { bits: ZERO_BITS }
    }

    pub fn one() -> (r: Double)
        ensures
            r.bits == ONE_BITS,
    {
        Double { bits: ONE_BITS }
    }

    pub fn infinity() -> (r: Double)
        ensures
            r.bits == INFINITY_BITS,
    {
        Double { bits: INFINITY_BITS }
    }

    pub fn neg_infinity() -> (r: Double)
        ensures
            r.bits == NEG_INFINITY_BITS,
    {
        Double { bits: NEG_INFINITY_BITS }
    }

    pub fn nan_value() -> (r: Double)
        ensures
            r.bits == NAN_BITS,
            r.nan(),
    {
        Double { bits: NAN_BITS }
    }

    pub fn is_nan(&self) -> (r: bool)
        ensures
            r == self.nan(),
    {
        self.bits % SIGN_BIT > INFINITY_BITS
    }

    pub fn is_sign_negative(&self) -> (r: bool)
        ensures
            r == self.sign_negative(),
    {
        self.bits >= SIGN_BIT
    }

    /// The absolute value: clears the sign bit, NaNs included.
    pub fn abs(&self) -> (r: Double)
        ensures
            r == self.abs_spec(),
            r.bits == self.magnitude(),
            !r.sign_negative(),
            r.nan() == self.nan(),
            !self.nan() ==> r.key() == self.magnitude(),
    {
        Double { bits: self.bits % SIGN_BIT }
    }

    /// IEEE `self < o`.
    pub fn lt(&self, o: &Double) -> (r: bool)
        ensures
            r == self.lt_spec(*o),
    {
        if self.is_nan() || o.is_nan() {
            return false;
        }
        let a = self.bits % SIGN_BIT;
        let b = o.bits % SIGN_BIT;
        match (self.is_sign_negative(), o.is_sign_negative()) {
            (false, false) => a < b,
            (true, false) => a > 0 || b > 0,
            (false, true) => false,
            (true, true) => b < a,
        }
    }

    /// IEEE `self <= o`.
    pub fn le(&self, o: &Double) -> (r: bool)
        ensures
            r == self.le_spec(*o),
    {
        if self.is_nan() || o.is_nan() {
            return false;
        }
        let a = self.bits % SIGN_BIT;
        let b = o.bits % SIGN_BIT;
        match (self.is_sign_negative(), o.is_sign_negative()) {
            (false, false) => a <= b,
            (true, false) => true,
            (false, true) => a == 0 && b == 0,
            (true, true) => b <= a,
        }
    }

    /// IEEE `self == o`.
    pub fn eq_value(&self, o: &Double) -> (r: bool)
        ensures
            r == self.same_value(*o),
    {
        self.le(o) && o.le(self)
    }
}

} // verus!
