//! Double-precision numbers as bit patterns: classification, order, sign.

use vstd::prelude::*;

verus! {

/// The sign bit of a pattern.
pub const SIGN_BIT: u64 = 0x8000_0000_0000_0000;

/// The magnitude of an infinity. Larger magnitudes are not numbers.
pub const INFINITE: u64 = 0x7ff0_0000_0000_0000;

/// The weight of the lowest exponent bit within a magnitude.
pub const HIDDEN_BIT: u64 = 0x0010_0000_0000_0000;

/// The pattern of 0.
pub const ZERO: u64 = 0;

/// The pattern of 1.
pub const ONE: u64 = 0x3ff0_0000_0000_0000;

/// The pattern of negative infinity.
pub const NEG_INFINITE: u64 = 0xfff0_0000_0000_0000;

/// A double-precision IEEE 754 number, held as its 64-bit pattern:
/// one sign bit, eleven exponent bits, fifty-two fraction bits.
#[derive(Clone, Copy, Debug)]
pub struct Scalar {
    pub bits: u64,
}

impl Scalar {
    /// Whether the sign bit is set (true of `-0` as well).
    pub open spec fn negative(self) -> bool {
        self.bits >= SIGN_BIT
    }

    /// The pattern without its sign bit.
    pub open spec fn magnitude(self) -> int {
        if self.bits >= SIGN_BIT {
            self.bits - SIGN_BIT
        } else {
            self.bits as int
        }
    }

    /// Not a number: the exponent is all ones and the fraction is not zero.
    pub open spec fn spec_is_nan(self) -> bool {
        self.magnitude() > INFINITE
    }

    /// Neither an infinity nor a NaN.
    pub open spec fn finite(self) -> bool {
        self.magnitude() < INFINITE
    }

    /// Either zero.
    pub open spec fn is_zero(self) -> bool {
        self.magnitude() == 0
    }

    /// The place of a number on the number line, counted in patterns: the
    /// magnitude with the sign applied. Among numbers a larger rank is a
    /// larger value, and the two zeros share rank 0.
    pub open spec fn rank(self) -> int {
        if self.negative() {
            -self.magnitude()
        } else {
            self.magnitude()
        }
    }

    /// IEEE `<`: both are numbers and the left one is smaller.
    pub open spec fn spec_lt(self, other: Scalar) -> bool {
        !self.spec_is_nan() && !other.spec_is_nan() && self.rank() < other.rank()
    }

    /// IEEE `<=`: both are numbers and the left one is not larger.
    pub open spec fn spec_le(self, other: Scalar) -> bool {
        !self.spec_is_nan() && !other.spec_is_nan() && self.rank() <= other.rank()
    }

    /// IEEE `>`.
    pub open spec fn spec_gt(self, other: Scalar) -> bool {
        other.spec_lt(self)
    }

    /// IEEE `>=`.
    pub open spec fn spec_ge(self, other: Scalar) -> bool {
        other.spec_le(self)
    }

    /// IEEE `==`: both are numbers of the same value, so `0 == -0` and a NaN
    /// equals nothing.
    pub open spec fn same(self, other: Scalar) -> bool {
        !self.spec_is_nan() && !other.spec_is_nan() && self.rank() == other.rank()
    }

    /// The pattern with the sign bit flipped.
    pub open spec fn spec_neg(self) -> Scalar {
        if self.bits >= SIGN_BIT {
            Scalar { bits: (self.bits - SIGN_BIT) as u64 }
        } else {
            Scalar { bits: (self.bits + SIGN_BIT) as u64 }
        }
    }

    /// The pattern with the sign bit cleared.
    pub open spec fn spec_abs(self) -> Scalar {
        Scalar { bits: self.magnitude() as u64 }
    }

    /// The number 0, with a clear sign bit.
    pub open spec fn spec_zero() -> Scalar {
        Scalar { bits: ZERO }
    }

    /// The number 1.
    pub open spec fn spec_one() -> Scalar {
        Scalar { bits: ONE }
    }

    /// The number 0, with a clear sign bit.
    #[verifier::when_used_as_spec(spec_zero)]
    pub fn zero() -> (s: Scalar)
        ensures
            s == Scalar::spec_zero(),
    {
        Scalar { bits: ZERO }
    }

    /// The number 1.
    #[verifier::when_used_as_spec(spec_one)]
    pub fn one() -> (s: Scalar)
        ensures
            s == Scalar::spec_one(),
    {
        Scalar { bits: ONE }
    }

    /// The number with the given pattern.
    pub fn from_bits(bits: u64) -> (s: Scalar)
        ensures
            s.bits == bits,
    {
        Scalar { bits }
    }

    /// The pattern of the number.
    pub fn to_bits(self) -> (bits: u64)
        ensures
            bits == self.bits,
    {
        self.bits
    }

    fn sign(self) -> (r: bool)
        ensures
            r == self.negative(),
    {
        self.bits >= SIGN_BIT
    }

    fn mag(self) -> (r: u64)
        ensures
            r == self.magnitude(),
    {
        if self.bits >= SIGN_BIT {
            self.bits - SIGN_BIT
        } else {
            self.bits
        }
    }

    /// Whether this is not a number.
    #[verifier::when_used_as_spec(spec_is_nan)]
    pub fn is_nan(self) -> (r: bool)
        ensures
            r == self.spec_is_nan(),
    {
        self.mag() > INFINITE
    }

    /// The number with its sign reversed. This is exact, and holds of
    /// zeros, infinities and NaNs as well.
    #[verifier::when_used_as_spec(spec_neg)]
    pub fn neg(self) -> (r: Scalar)
        ensures
            r == self.spec_neg(),
            r.magnitude() == self.magnitude(),
            r.negative() != self.negative(),
    {
        if self.bits >= SIGN_BIT {
            Scalar { bits: self.bits - SIGN_BIT }
        } else {
            Scalar { bits: self.bits + SIGN_BIT }
        }
    }

    /// The number without its sign.
    #[verifier::when_used_as_spec(spec_abs)]
    pub fn abs(self) -> (r: Scalar)
        ensures
            r == self.spec_abs(),
            r.magnitude() == self.magnitude(),
            !r.negative(),
    {
        Scalar { bits: self.mag() }
    }

    /// `self < other`, as the hardware compares: false where either is
    /// not a number, and `-0` is not below `0`.
    #[verifier::when_used_as_spec(spec_lt)]
    pub fn lt(self, other: Scalar) -> (r: bool)
        ensures
            r == self.spec_lt(other),
    {
        if self.is_nan() || other.is_nan() {
            return false;
        }
        let a: u64 = self.mag();
        let b: u64 = other.mag();
        if self.sign() {
            if other.sign() {
                b < a
            } else {
                a != 0 || b != 0
            }
        } else {
            !other.sign() && a < b
        }
    }

    /// `self <= other`, as the hardware compares.
    #[verifier::when_used_as_spec(spec_le)]
    pub fn le(self, other: Scalar) -> (r: bool)
        ensures
            r == self.spec_le(other),
    {
        if self.is_nan() || other.is_nan() {
            return false;
        }
        let a: u64 = self.mag();
        let b: u64 = other.mag();
        if self.sign() {
            !other.sign() || b <= a
        } else if other.sign() {
            a == 0 && b == 0
        } else {
            a <= b
        }
    }

    /// `self > other`, as the hardware compares.
    #[verifier::when_used_as_spec(spec_gt)]
    pub fn gt(self, other: Scalar) -> (r: bool)
        ensures
            r == self.spec_gt(other),
    {
        other.lt(self)
    }

    /// `self >= other`, as the hardware compares.
    #[verifier::when_used_as_spec(spec_ge)]
    pub fn ge(self, other: Scalar) -> (r: bool)
        ensures
            r == self.spec_ge(other),
    {
        other.le(self)
    }
}

/// Among numbers exactly one of `a < b`, `a == b` and `a > b` holds, and
/// `<` is transitive. What is not a number is below, above and equal to
/// nothing.
pub proof fn lemma_order(a: Scalar, b: Scalar, c: Scalar)
    ensures
        !a.spec_is_nan() && !b.spec_is_nan() ==> (a.spec_lt(b) || a.same(b) || a.spec_gt(b)),
        !(a.spec_lt(b) && a.same(b)),
        !(a.spec_lt(b) && a.spec_gt(b)),
        !(a.same(b) && a.spec_gt(b)),
        a.spec_le(b) <==> a.spec_lt(b) || a.same(b),
        a.spec_lt(b) && b.spec_lt(c) ==> a.spec_lt(c),
        a.spec_le(b) && b.spec_le(c) ==> a.spec_le(c),
        a.spec_is_nan() || b.spec_is_nan() ==> !a.spec_lt(b) && !a.spec_le(b) && !a.same(b),
        a.spec_neg().spec_lt(b.spec_neg()) <==> b.spec_lt(a),
{
}

impl PartialEq for Scalar {
    /// IEEE equality, not equality of patterns.
    fn eq(&self, other: &Scalar) -> (r: bool) {
        if self.is_nan() || other.is_nan() {
            return false;
        }
        self.bits == other.bits || (self.mag() == 0 && other.mag() == 0)
    }
}

impl vstd::std_specs::cmp::PartialEqSpecImpl for Scalar {
    open spec fn obeys_eq_spec() -> bool {
        true
    }

    open spec fn eq_spec(&self, other: &Scalar) -> bool {
        self.same(*other)
    }
}

} // verus!
