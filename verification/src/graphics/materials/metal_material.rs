use vstd::prelude::*;

use crate::graphics::materials::Scatter;
use crate::hittable::Hit;
use crate::math::scalar::Scalar;
use crate::math::vec3::Vec3;
use crate::ray::Ray;

verus! {

/// A mirror whose reflection is blurred by `fuzz`.
#[derive(Clone, Copy, Debug, PartialEq, Eq, Structural)]
pub struct MetalMaterial {
    pub albedo: Vec3,
    pub fuzz: Scalar,
}

impl MetalMaterial {
    /// Whether a reflection is lost in the surface: its direction makes no
    /// acute angle with the normal. `alignment` is the dot product of the
    /// two.
    pub open spec fn absorbs(alignment: Scalar) -> bool {
        alignment.le(Scalar::zero())
    }

    pub fn new(albedo: Vec3, fuzz: Scalar) -> (r: MetalMaterial)
        ensures
            r.albedo == albedo,
            r.fuzz == fuzz,
    {
        MetalMaterial { albedo, fuzz }
    }

    /// Scatters from the hit point along `candidate`, the mirrored direction
    /// of the incoming ray plus `fuzz` times a random unit vector, or absorbs
    /// the ray. `alignment` is the dot product of `candidate` and the hit's
    /// normal.
    pub fn scatter(&self, hit: &Hit, candidate: Vec3, alignment: Scalar) -> (r: Option<Scatter>)
        ensures
            r is None <==> Self::absorbs(alignment),
            r is Some ==> r == Some(
                Scatter {
                    attenuation: self.albedo,
                    scattered: Ray { origin: hit.point, direction: candidate },
                },
            ),
    {
        let scattered = Ray::new(hit.point, candidate);
        let attenuation = self.albedo;
        if alignment.le(Scalar::zero()) {
            return None;
        }
        Some(Scatter::new(attenuation, scattered))
    }
}

} // verus!
