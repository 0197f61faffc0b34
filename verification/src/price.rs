use vstd::prelude::*;

verus! {

/// A single-precision IEEE 754 number, held by its bit pattern.
///
/// Prices and bids are single-precision numbers; the library compares them
/// by their bit patterns, as the IEEE 754 standard orders them.
#[derive(Clone, Copy, Debug, PartialEq, Eq, Structural)]
pub struct Price {
    pub bits: u32,
}

/// Bit 31 is the sign.
pub const SIGN_BIT: u32 = 0x8000_0000;

/// All exponent bits set, mantissa zero: the pattern of infinity.
pub const INFINITY_MAGNITUDE: u32 = 0x7f80_0000;

/// The magnitude of a pattern: everything but the sign bit.
pub open spec fn magnitude(bits: u32) -> int {
    (bits % SIGN_BIT) as int
}

/// Whether a pattern has its sign bit set.
pub open spec fn is_negative(bits: u32) -> bool {
    bits >= SIGN_BIT
}

/// A pattern is not a number when its exponent bits are all set and its
/// mantissa is not zero.
pub open spec fn is_nan_bits(bits: u32) -> bool {
    magnitude(bits) > INFINITY_MAGNITUDE
}

/// The position of a number on the number line: magnitudes grow with the
/// value, and the sign mirrors them. Both zeros stand at 0.
pub open spec fn rank(bits: u32) -> int {
    if is_negative(bits) {
        -magnitude(bits)
    } else {
        magnitude(bits)
    }
}

impl Price {
    /// Whether the price is not a number; such a price compares false with
    /// everything.
    pub open spec fn is_nan(self) -> bool {
        is_nan_bits(self.bits)
    }

    /// `self < other` on single-precision numbers.
    pub open spec fn below(self, other: Price) -> bool {
        !self.is_nan() && !other.is_nan() && rank(self.bits) < rank(other.bits)
    }

    /// `self <= other` on single-precision numbers.
    pub open spec fn at_most(self, other: Price) -> bool {
        !self.is_nan() && !other.is_nan() && rank(self.bits) <= rank(other.bits)
    }

    /// The price whose bit pattern is `bits`.
    pub fn from_bits(bits: u32) -> (p: Price)
        ensures
            p.bits == bits,
    {
        Price { bits }
    }

    /// The bit pattern of the price.
    pub fn to_bits(&self) -> (b: u32)
        ensures
            b == self.bits,
    {
        self.bits
    }

    /// Whether the price is not a number.
    pub fn is_not_a_number(&self) -> (r: bool)
        ensures
            r == self.is_nan(),
    {
        self.bits % SIGN_BIT > INFINITY_MAGNITUDE
    }

    /// `self < other`.
    pub fn lt(&self, other: &Price) -> (r: bool)
        ensures
            r == self.below(*other),
    {
        if self.is_not_a_number() || other.is_not_a_number() {
            return false;
        }
        let m1 = self.bits % SIGN_BIT;
        let m2 = other.bits % SIGN_BIT;
        let n1 = self.bits >= SIGN_BIT;
        let n2 = other.bits >= SIGN_BIT;
        if n1 && n2 {
            m2 < m1
        } else if n1 {
            !(m1 == 0 && m2 == 0)
        } else if n2 {
            false
        } else {
            m1 < m2
        }
    }

    /// `self <= other`.
    pub fn le(&self, other: &Price) -> (r: bool)
        ensures
            r == self.at_most(*other),
    {
        if self.is_not_a_number() || other.is_not_a_number() {
            return false;
        }
        !other.lt(self)
    }

    /// `self > other`.
    pub fn gt(&self, other: &Price) -> (r: bool)
        ensures
            r == other.below(*self),
    {
        other.lt(self)
    }

    /// `self >= other`.
    pub fn ge(&self, other: &Price) -> (r: bool)
        ensures
            r == other.at_most(*self),
    {
        other.le(self)
    }
}

/// No number is below itself, and of two numbers at most one is below the
/// other.
pub proof fn lemma_below_strict(a: Price, b: Price)
    ensures
        !a.below(a),
        a.below(b) ==> !b.below(a),
{
}

/// Two numbers that are not NaN are ordered one way or the other: `a < b`
/// fails exactly when `b <= a`.
pub proof fn lemma_below_total(a: Price, b: Price)
    requires
        !a.is_nan(),
        !b.is_nan(),
    ensures
        a.below(b) <==> !b.at_most(a),
{
}

/// The two zeros are equal: neither is below the other.
pub proof fn lemma_zeros_equal(zero: Price, negative_zero: Price)
    requires
        zero.bits == 0,
        negative_zero.bits == SIGN_BIT,
    ensures
        !zero.below(negative_zero),
        !negative_zero.below(zero),
        zero.at_most(negative_zero),
        negative_zero.at_most(zero),
{
}

} // verus!
