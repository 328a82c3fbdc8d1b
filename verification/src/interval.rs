//! Closed ranges of scalars.

use crate::scalar::{Scalar, INFINITE, NEG_INFINITE};
use vstd::prelude::*;

verus! {

/// The range from `min` to `max`. Nothing forces `min <= max`: a range with
/// the two the other way round holds nothing.
#[derive(Clone, Copy, Debug)]
pub struct Interval {
    pub min: Scalar,
    pub max: Scalar,
}

/// The range from `min` to `max`.
pub fn interval(min: Scalar, max: Scalar) -> (iv: Interval)
    ensures
        iv == (Interval { min, max }),
{
    Interval { min, max }
}

impl Default for Interval {
    /// The empty range.
    fn default() -> (iv: Interval)
        ensures
            iv == Interval::spec_empty(),
    {
        Interval { min: Scalar { bits: INFINITE }, max: Scalar { bits: NEG_INFINITE } }
    }
}

impl Interval {
    /// From `+inf` down to `-inf`.
    pub open spec fn spec_empty() -> Interval {
        Interval { min: Scalar { bits: INFINITE }, max: Scalar { bits: NEG_INFINITE } }
    }

    /// From `-inf` to `+inf`.
    pub open spec fn spec_universe() -> Interval {
        Interval { min: Scalar { bits: NEG_INFINITE }, max: Scalar { bits: INFINITE } }
    }

    /// The range that holds nothing.
    #[verifier::when_used_as_spec(spec_empty)]
    pub fn empty() -> (iv: Interval)
        ensures
            iv == Interval::spec_empty(),
    {
        Interval { min: Scalar { bits: INFINITE }, max: Scalar { bits: NEG_INFINITE } }
    }

    /// The range that holds every number.
    #[verifier::when_used_as_spec(spec_universe)]
    pub fn universe() -> (iv: Interval)
        ensures
            iv == Interval::spec_universe(),
    {
        Interval { min: Scalar { bits: NEG_INFINITE }, max: Scalar { bits: INFINITE } }
    }

    /// `min <= x <= max`.
    pub open spec fn spec_contains(&self, x: Scalar) -> bool {
        self.min.spec_le(x) && x.spec_le(self.max)
    }

    /// `min < x < max`.
    pub open spec fn spec_surrounds(&self, x: Scalar) -> bool {
        self.min.spec_lt(x) && x.spec_lt(self.max)
    }

    /// `x` moved to the nearer bound when it lies beyond one. A NaN is
    /// beyond neither bound and stays as it is.
    pub open spec fn spec_clamp(&self, x: Scalar) -> Scalar {
        if x.spec_lt(self.min) {
            self.min
        } else if x.spec_gt(self.max) {
            self.max
        } else {
            x
        }
    }

    /// Whether `x` lies in the range, bounds included.
    #[verifier::when_used_as_spec(spec_contains)]
    pub fn contains(&self, x: Scalar) -> (r: bool)
        ensures
            r == self.spec_contains(x),
    {
        self.min.le(x) && x.le(self.max)
    }

    /// Whether `x` lies strictly between the bounds.
    #[verifier::when_used_as_spec(spec_surrounds)]
    pub fn surrounds(&self, x: Scalar) -> (r: bool)
        ensures
            r == self.spec_surrounds(x),
    {
        self.min.lt(x) && x.lt(self.max)
    }

    /// `x` saturated into the range.
    #[verifier::when_used_as_spec(spec_clamp)]
    pub fn clamp(&self, x: Scalar) -> (r: Scalar)
        ensures
            r == self.spec_clamp(x),
    {
        if x.lt(self.min) {
            return self.min;
        }
        if x.gt(self.max) {
            return self.max;
        }
        x
    }
}

/// In a range with `min <= max`, clamping a number gives a member of the
/// range, and gives the number itself when it was a member already.
pub proof fn lemma_clamp_stays_inside(iv: Interval, x: Scalar)
    requires
        iv.min.spec_le(iv.max),
        !x.spec_is_nan(),
    ensures
        iv.spec_contains(iv.spec_clamp(x)),
        iv.spec_contains(x) ==> iv.spec_clamp(x) == x,
{
}

/// Whatever is clamped, a bound or the argument itself comes back.
pub proof fn lemma_clamp_picks(iv: Interval, x: Scalar)
    ensures
        iv.spec_clamp(x) == x || iv.spec_clamp(x) == iv.min || iv.spec_clamp(x) == iv.max,
{
}

/// In a range with `min <= max`, both bounds are members.
pub proof fn lemma_bounds_are_members(iv: Interval)
    requires
        iv.min.spec_le(iv.max),
    ensures
        iv.spec_contains(iv.min),
        iv.spec_contains(iv.max),
{
}

/// No range surrounds one of its own bounds.
pub proof fn lemma_bounds_are_not_surrounded(iv: Interval)
    ensures
        !iv.spec_surrounds(iv.min),
        !iv.spec_surrounds(iv.max),
{
}

/// What a range surrounds it also contains.
pub proof fn lemma_surrounded_is_member(iv: Interval, x: Scalar)
    requires
        iv.spec_surrounds(x),
    ensures
        iv.spec_contains(x),
{
}

/// The empty range has no member, and the universe has every number.
pub proof fn lemma_empty_and_universe(x: Scalar)
    ensures
        !Interval::spec_empty().spec_contains(x),
        !x.spec_is_nan() ==> Interval::spec_universe().spec_contains(x),
        x.finite() ==> Interval::spec_universe().spec_surrounds(x),
{
}

} // verus!
