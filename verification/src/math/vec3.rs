use vstd::prelude::*;

use crate::math::scalar::Scalar;

verus! {

/// A point, direction or colour: three binary64 components.
#[derive(Clone, Copy, Debug, PartialEq, Eq, Structural)]
pub struct Vec3 {
    pub x: Scalar,
    pub y: Scalar,
    pub z: Scalar,
}

impl Vec3 {
    /// The vector with every component negated.
    pub open spec fn spec_neg(self) -> Vec3 {
        Vec3 { x: self.x.neg(), y: self.y.neg(), z: self.z.neg() }
    }

    /// The vector whose three components are all `value`.
    pub open spec fn spec_splat(value: Scalar) -> Vec3 {
        Vec3 { x: value, y: value, z: value }
    }

    pub fn new(x: Scalar, y: Scalar, z: Scalar) -> (r: Vec3)
        ensures
            r == (Vec3 { x, y, z }),
    {
        Vec3 { x, y, z }
    }

    #[verifier::when_used_as_spec(spec_splat)]
    pub fn splat(value: Scalar) -> (r: Vec3)
        ensures
            r == Vec3::spec_splat(value),
    {
        Vec3 { x: value, y: value, z: value }
    }

    #[verifier::when_used_as_spec(spec_neg)]
    pub fn neg(self) -> (r: Vec3)
        ensures
            r == self.spec_neg(),
    {
        Vec3 { x: self.x.neg(), y: self.y.neg(), z: self.z.neg() }
    }
}

} // verus!
