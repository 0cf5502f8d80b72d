use vstd::prelude::*;

use crate::graphics::materials::Scatter;
use crate::hittable::Hit;
use crate::math::scalar::Scalar;
use crate::math::vec3::Vec3;
use crate::ray::Ray;

verus! {

/// A clear surface that bends light, such as glass or water.
#[derive(Clone, Copy, Debug, PartialEq, Eq, Structural)]
pub struct DielectricMaterial {
    pub ref_idx: Scalar,
}

impl DielectricMaterial {
    /// Ratio of the refractive indices on the two sides of the surface, in
    /// the order in which a ray that hits this face meets them.
    pub open spec fn spec_refraction_ratio(&self, front_face: bool, inverse: Scalar) -> Scalar {
        if front_face {
            inverse
        } else {
            self.ref_idx
        }
    }

    /// Whether the surface mirrors a ray: always where Snell's law has no
    /// solution (`bend`, the ratio of the indices times the sine of the angle
    /// of incidence, is above 1), and else when the reflectance of the
    /// surface is above a uniform draw from [0, 1).
    pub open spec fn reflects(bend: Scalar, reflectance: Scalar, draw: Scalar) -> bool {
        bend.gt(Scalar::one()) || reflectance.gt(draw)
    }

    pub fn new(ref_idx: Scalar) -> (r: DielectricMaterial)
        ensures
            r.ref_idx == ref_idx,
    {
        DielectricMaterial { ref_idx }
    }

    /// The ratio of refractive indices for a hit on the front face or on the
    /// back face. `inverse` is 1 / `ref_idx`: a ray that enters the
    /// material passes from index 1 to `ref_idx`.
    #[verifier::when_used_as_spec(spec_refraction_ratio)]
    pub fn refraction_ratio(&self, front_face: bool, inverse: Scalar) -> (r: Scalar)
        ensures
            r == self.spec_refraction_ratio(front_face, inverse),
    {
        if front_face {
            inverse
        } else {
            self.ref_idx
        }
    }

    /// Scatters from the hit point, along `reflected` or along `refracted`.
    /// Never absorbs, and keeps every colour channel whole.
    pub fn scatter(
        &self,
        hit: &Hit,
        bend: Scalar,
        reflectance: Scalar,
        draw: Scalar,
        reflected: Vec3,
        refracted: Vec3,
    ) -> (r: Option<Scatter>)
        ensures
            r == Some(
                Scatter {
                    attenuation: Vec3::splat(Scalar::one()),
                    scattered: Ray {
                        origin: hit.point,
                        direction: if Self::reflects(bend, reflectance, draw) {
                            reflected
                        } else {
                            refracted
                        },
                    },
                },
            ),
    {
        let attenuation = Vec3::splat(Scalar::one());
        let cannot_refract = bend.gt(Scalar::one());
        let direction = if cannot_refract || reflectance.gt(draw) {
            reflected
        } else {
            refracted
        };
        let scattered = Ray::new(hit.point, direction);
        Some(Scatter::new(attenuation, scattered))
    }
}

} // verus!
