use vstd::prelude::*;

use crate::graphics::materials::Material;
use crate::hittable::Hit;
use crate::math::scalar::Scalar;
use crate::math::vec3::Vec3;
use crate::math::Interval;

verus! {

/// The geometry of a ray at one root of its intersection equation with a
/// sphere.
#[derive(Clone, Copy, Debug, PartialEq, Eq, Structural)]
pub struct Crossing {
    /// The root: the ray parameter at which the ray meets the sphere.
    pub depth: Scalar,
    /// The point of the ray at `depth`.
    pub point: Vec3,
    /// Unit normal of the sphere at `point`, pointing away from the centre.
    pub normal: Vec3,
    /// Dot product of the ray's direction and `normal`.
    pub facing: Scalar,
}

/// What the intersection equation of a ray and a sphere, `a t^2 + 2 h t + c =
/// 0`, gives at its two roots.
#[derive(Clone, Copy, Debug, PartialEq, Eq, Structural)]
pub struct Roots {
    /// `h^2 - a c`. The equation has no root where it is negative.
    pub discriminant: Scalar,
    /// At the smaller root, `(-h - sqrt(discriminant)) / a`.
    pub near: Crossing,
    /// At the larger root, `(-h + sqrt(discriminant)) / a`.
    pub far: Crossing,
}

impl Crossing {
    /// Whether the ray meets the surface from outside: its direction makes an
    /// obtuse angle with the outward normal.
    pub open spec fn front_face(self) -> bool {
        self.facing.lt(Scalar::zero())
    }

    /// The outward normal, turned against the incoming ray.
    pub open spec fn oriented_normal(self) -> Vec3 {
        if self.front_face() {
            self.normal
        } else {
            self.normal.neg()
        }
    }

    /// Dot product of the ray's direction and the oriented normal: to negate
    /// a vector negates its dot products.
    pub open spec fn oriented_facing(self) -> Scalar {
        if self.front_face() {
            self.facing
        } else {
            self.facing.neg()
        }
    }

    /// The oriented normal never makes an acute angle with the ray's
    /// direction: where `facing` is a number, the oriented facing is at most
    /// zero.
    pub proof fn lemma_oriented_against_ray(self)
        requires
            !self.facing.is_nan(),
        ensures
            self.oriented_facing().le(Scalar::zero()),
    {
    }
}

/// A sphere and the material of its surface. The radius is taken to be
/// positive.
#[derive(Clone, Copy, Debug, PartialEq, Eq, Structural)]
pub struct Sphere {
    pub center: Vec3,
    pub radius: Scalar,
    pub material: Material,
}

impl Sphere {
    /// The hit that a crossing of this sphere makes.
    pub open spec fn surface(&self, crossing: Crossing) -> Hit {
        Hit {
            depth: crossing.depth,
            point: crossing.point,
            normal: crossing.oriented_normal(),
            front_face: crossing.front_face(),
            material: self.material,
        }
    }

    /// The first point at which the ray meets the sphere inside the interval,
    /// its bounds left out: at the smaller root if the interval surrounds
    /// it, else at the larger one if the interval surrounds that.
    pub open spec fn spec_hit(&self, interval: Interval, roots: &Roots) -> Option<Hit> {
        if roots.discriminant.lt(Scalar::zero()) {
            None
        } else if interval.surrounds(roots.near.depth) {
            Some(self.surface(roots.near))
        } else if interval.surrounds(roots.far.depth) {
            Some(self.surface(roots.far))
        } else {
            None
        }
    }

    pub fn new(center: Vec3, radius: Scalar, material: Material) -> (r: Sphere)
        ensures
            r == (Sphere { center, radius, material }),
    {
        Sphere { center, radius, material }
    }

    /// Intersects the sphere with the ray from which `roots` was computed.
    #[verifier::when_used_as_spec(spec_hit)]
    pub fn hit(&self, interval: Interval, roots: &Roots) -> (r: Option<Hit>)
        ensures
            r == self.spec_hit(interval, roots),
    {
        if roots.discriminant.lt(Scalar::zero()) {
            return None;
        }
        let mut crossing = roots.near;
        if !interval.surrounds(crossing.depth) {
            crossing = roots.far;
            if !interval.surrounds(crossing.depth) {
                return None;
            }
        }
        let front_face = crossing.facing.lt(Scalar::zero());
        let normal = if front_face {
            crossing.normal
        } else {
            crossing.normal.neg()
        };
        Some(Hit::new(crossing.depth, crossing.point, normal, front_face, self.material))
    }

    /// A hit lies strictly inside the interval, so its depth is a number.
    pub proof fn lemma_hit_inside_interval(&self, interval: Interval, roots: &Roots)
        ensures
            self.hit(interval, roots) matches Some(hit) ==> interval.surrounds(hit.depth),
    {
    }

    /// A sphere that lies behind the ray is missed: where neither root is
    /// beyond the start of the interval, there is no hit.
    pub proof fn lemma_sphere_behind_is_missed(&self, interval: Interval, roots: &Roots)
        requires
            !roots.near.depth.gt(interval.start),
            !roots.far.depth.gt(interval.start),
        ensures
            self.hit(interval, roots) is None,
    {
    }

    /// The smaller root wins: where the equation has roots and the interval
    /// surrounds the smaller one, the hit is there.
    pub proof fn lemma_near_root_first(&self, interval: Interval, roots: &Roots)
        requires
            !roots.discriminant.lt(Scalar::zero()),
            interval.surrounds(roots.near.depth),
        ensures
            self.hit(interval, roots) == Some(self.surface(roots.near)),
    {
    }

    /// A hit is made at one of the two roots, and carries the sphere's
    /// material.
    pub proof fn lemma_hit_at_a_root(&self, interval: Interval, roots: &Roots)
        ensures
            self.hit(interval, roots) matches Some(hit) ==> {
                &&& hit == self.surface(roots.near) || hit == self.surface(roots.far)
                &&& hit.material == self.material
            },
    {
    }

    /// A hit records the front face exactly where the ray's direction makes
    /// an obtuse angle with the outward normal. It keeps the outward normal
    /// there, and stores its negation elsewhere.
    pub proof fn lemma_front_face(&self, crossing: Crossing)
        ensures
            self.surface(crossing).front_face <==> crossing.facing.lt(Scalar::zero()),
            self.surface(crossing).front_face ==> self.surface(crossing).normal
                == crossing.normal,
            !self.surface(crossing).front_face ==> self.surface(crossing).normal
                == crossing.normal.neg(),
    {
    }
}

} // verus!
