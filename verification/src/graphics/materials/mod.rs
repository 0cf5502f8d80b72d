pub mod default_material;
pub mod dielectric_material;
pub mod lambertian_material;
pub mod metal_material;

use vstd::prelude::*;

use crate::graphics::materials::default_material::SolidColorMaterial;
use crate::graphics::materials::dielectric_material::DielectricMaterial;
use crate::graphics::materials::lambertian_material::LambertianMaterial;
use crate::graphics::materials::metal_material::MetalMaterial;
use crate::math::vec3::Vec3;
use crate::ray::Ray;

verus! {

/// The surface of a shape. A material holds its physical parameters and
/// nothing else, so a shape and each hit on it carry it by value.
#[derive(Clone, Copy, Debug, PartialEq, Eq, Structural)]
pub enum Material {
    Lambertian(LambertianMaterial),
    Metal(MetalMaterial),
    Dielectric(DielectricMaterial),
    SolidColor(SolidColorMaterial),
}

/// What a surface makes of an incoming ray: the ray that leaves it, and the
/// share of each colour channel that it keeps.
#[derive(Clone, Copy, Debug, PartialEq, Eq, Structural)]
pub struct Scatter {
    pub attenuation: Vec3,
    pub scattered: Ray,
}

impl Scatter {
    pub fn new(attenuation: Vec3, scattered: Ray) -> (r: Scatter)
        ensures
            r == (Scatter { attenuation, scattered }),
    {
        Scatter { attenuation, scattered }
    }
}

} // verus!
