use vstd::prelude::*;

use crate::graphics::materials::Scatter;
use crate::hittable::Hit;
use crate::math::vec3::Vec3;
use crate::ray::Ray;

verus! {

/// A diffuse surface of one colour that scatters into whatever direction it
/// is given.
#[derive(Clone, Copy, Debug, PartialEq, Eq, Structural)]
pub struct SolidColorMaterial {
    pub color: Vec3,
}

impl SolidColorMaterial {
    pub fn new(color: Vec3) -> (r: SolidColorMaterial)
        ensures
            r.color == color,
    {
        SolidColorMaterial { color }
    }

    /// Scatters from the hit point along `candidate`, the surface normal plus
    /// a random unit vector. Never absorbs.
    pub fn scatter(&self, hit: &Hit, candidate: Vec3) -> (r: Option<Scatter>)
        ensures
            r == Some(
                Scatter {
                    attenuation: self.color,
                    scattered: Ray { origin: hit.point, direction: candidate },
                },
            ),
    {
        let attenuation = self.color;
        let scattered = Ray::new(hit.point, candidate);
        Some(Scatter::new(attenuation, scattered))
    }
}

} // verus!
