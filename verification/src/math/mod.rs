pub mod scalar;
pub mod vec3;

use vstd::prelude::*;

use crate::math::scalar::Scalar;
use crate::math::scalar::INFINITY_BITS;
use crate::math::scalar::SIGN_BIT;

verus! {

/// A range of ray parameters, from `start` to `end`.
#[derive(Clone, Copy, Debug, PartialEq, Eq, Structural)]
pub struct Interval {
    pub start: Scalar,
    pub end: Scalar,
}

impl Interval {
    /// `start <= value <= end`: the bounds belong to the range.
    pub open spec fn spec_contains(&self, value: Scalar) -> bool {
        self.start.le(value) && value.le(self.end)
    }

    /// `start < value < end`: the bounds do not belong to the range.
    pub open spec fn spec_surrounds(&self, value: Scalar) -> bool {
        self.start.lt(value) && value.lt(self.end)
    }

    /// The range from 0.0 to 0.0, which surrounds nothing.
    pub open spec fn spec_empty() -> Interval {
        Interval { start: Scalar { bits: 0 }, end: Scalar { bits: 0 } }
    }

    /// The range from negative to positive infinity.
    pub open spec fn spec_universe() -> Interval {
        Interval {
            start: Scalar { bits: (SIGN_BIT + INFINITY_BITS) as u64 },
            end: Scalar { bits: INFINITY_BITS },
        }
    }

    pub fn new(start: Scalar, end: Scalar) -> (r: Interval)
        ensures
            r == (Interval { start, end }),
    {
        Interval { start, end }
    }

    #[verifier::when_used_as_spec(spec_empty)]
    pub fn empty() -> (r: Interval)
        ensures
            r == Interval::spec_empty(),
    {
        Interval { start: Scalar { bits: 0 }, end: Scalar { bits: 0 } }
    }

    #[verifier::when_used_as_spec(spec_universe)]
    pub fn universe() -> (r: Interval)
        ensures
            r == Interval::spec_universe(),
    {
        Interval {
            start: Scalar { bits: SIGN_BIT + INFINITY_BITS },
            end: Scalar { bits: INFINITY_BITS },
        }
    }

    #[verifier::when_used_as_spec(spec_contains)]
    pub fn contains(&self, value: Scalar) -> (r: bool)
        ensures
            r == self.spec_contains(value),
    {
        self.start.le(value) && value.le(self.end)
    }

    #[verifier::when_used_as_spec(spec_surrounds)]
    pub fn surrounds(&self, value: Scalar) -> (r: bool)
        ensures
            r == self.spec_surrounds(value),
    {
        self.start.lt(value) && value.lt(self.end)
    }
}

} // verus!
