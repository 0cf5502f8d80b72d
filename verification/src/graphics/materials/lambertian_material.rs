use vstd::prelude::*;

use crate::graphics::materials::Scatter;
use crate::hittable::Hit;
use crate::math::scalar::Scalar;
use crate::math::vec3::Vec3;
use crate::ray::Ray;

verus! {

/// Bit pattern of 1e-9: a scatter direction whose squared length is below it
/// counts as zero.
pub const SCATTER_LIMIT_BITS: u64 = 0x3E11_2E0B_E826_D695;

/// An ideal diffuse surface.
#[derive(Clone, Copy, Debug, PartialEq, Eq, Structural)]
pub struct LambertianMaterial {
    pub albedo: Vec3,
}

impl LambertianMaterial {
    /// The direction in which the surface scatters: `candidate`, unless it
    /// has all but cancelled out, in which case the normal stands in for it.
    pub open spec fn direction(hit: &Hit, candidate: Vec3, length_squared: Scalar) -> Vec3 {
        if length_squared.lt(Scalar { bits: SCATTER_LIMIT_BITS }) {
            hit.normal
        } else {
            candidate
        }
    }

    pub fn new(albedo: Vec3) -> (r: LambertianMaterial)
        ensures
            r.albedo == albedo,
    {
        LambertianMaterial { albedo }
    }

    /// Scatters from the hit point. `candidate` is the surface normal plus a
    /// random unit vector and `length_squared` its squared length. Never
    /// absorbs.
    pub fn scatter(&self, hit: &Hit, candidate: Vec3, length_squared: Scalar) -> (r: Option<
        Scatter,
    >)
        ensures
            r == Some(
                Scatter {
                    attenuation: self.albedo,
                    scattered: Ray {
                        origin: hit.point,
                        direction: Self::direction(hit, candidate, length_squared),
                    },
                },
            ),
    {
        let mut scatter_dir = candidate;
        if length_squared.lt(Scalar::from_bits(SCATTER_LIMIT_BITS)) {
            scatter_dir = hit.normal;
        }
        let scattered = Ray::new(hit.point, scatter_dir);
        let attenuation = self.albedo;
        Some(Scatter::new(attenuation, scattered))
    }
}

} // verus!
