use vstd::prelude::*;

use crate::math::scalar::Scalar;
use crate::math::vec3::Vec3;

verus! {

/// Whether a point lies strictly inside the unit sphere. `length_squared` is
/// the squared distance of the point from the origin.
pub open spec fn inside_unit_sphere(length_squared: Scalar) -> bool {
    length_squared.lt(Scalar::one())
}

/// One round of rejection sampling in the unit sphere: `candidate`, drawn
/// uniformly from the cube from -1 to 1, is kept where it lies strictly
/// inside the sphere. The caller draws again until a candidate is kept.
pub fn random_vec_in_unit_sphere(candidate: Vec3, length_squared: Scalar) -> (r: Option<Vec3>)
    ensures
        r == if inside_unit_sphere(length_squared) {
            Some(candidate)
        } else {
            None::<Vec3>
        },
{
    if length_squared.lt(Scalar::one()) {
        Some(candidate)
    } else {
        None
    }
}

/// Dot product of the oriented sample and the normal: to negate a vector
/// negates its dot products.
pub open spec fn oriented_facing(facing: Scalar) -> Scalar {
    if facing.lt(Scalar::zero()) {
        facing.neg()
    } else {
        facing
    }
}

/// Turns a sample of the unit sphere into the hemisphere around a normal.
/// `facing` is the dot product of `sample` and the normal: the sample is
/// negated where that is negative, and stays as it is elsewhere.
pub fn random_vec_on_hemi(sample: Vec3, facing: Scalar) -> (r: Vec3)
    ensures
        r == if facing.lt(Scalar::zero()) {
            sample.neg()
        } else {
            sample
        },
{
    if facing.lt(Scalar::zero()) {
        sample.neg()
    } else {
        sample
    }
}

/// The oriented sample lies in the hemisphere: where `facing` is a number,
/// the oriented facing is at least zero.
pub proof fn lemma_sample_in_hemisphere(facing: Scalar)
    requires
        !facing.is_nan(),
    ensures
        oriented_facing(facing).ge(Scalar::zero()),
{
}

} // verus!
