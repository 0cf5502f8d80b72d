use vstd::prelude::*;

use crate::graphics::materials::Material;
use crate::math::scalar::Scalar;
use crate::math::vec3::Vec3;
use crate::math::Interval;
use crate::shapes::Roots;
use crate::shapes::Sphere;

verus! {

/// Where and how a ray meets a surface.
#[derive(Clone, Copy, Debug, PartialEq, Eq, Structural)]
pub struct Hit {
    /// The ray parameter of the point.
    pub depth: Scalar,
    pub point: Vec3,
    /// Unit normal of the surface, turned against the incoming ray.
    pub normal: Vec3,
    /// Whether the ray came from outside the surface.
    pub front_face: bool,
    pub material: Material,
}

impl Hit {
    pub fn new(depth: Scalar, point: Vec3, normal: Vec3, front_face: bool, material: Material) -> (r:
        Hit)
        ensures
            r == (Hit { depth, point, normal, front_face, material }),
    {
        Hit { depth, point, normal, front_face, material }
    }
}

/// A shape that a ray can hit.
#[derive(Clone, Copy, Debug, PartialEq, Eq, Structural)]
pub enum Hittable {
    Sphere(Sphere),
}

impl Hittable {
    /// The first point at which the ray meets the shape inside the interval.
    pub open spec fn spec_hit(&self, interval: Interval, roots: &Roots) -> Option<Hit> {
        match self {
            Hittable::Sphere(sphere) => sphere.hit(interval, roots),
        }
    }

    /// Intersects the shape with the ray from which `roots` was computed.
    #[verifier::when_used_as_spec(spec_hit)]
    pub fn hit(&self, interval: Interval, roots: &Roots) -> (r: Option<Hit>)
        ensures
            r == self.spec_hit(interval, roots),
    {
        match self {
            Hittable::Sphere(sphere) => sphere.hit(interval, roots),
        }
    }

    /// A hit lies strictly inside the interval, so its depth is a number.
    pub proof fn lemma_hit_inside_interval(&self, interval: Interval, roots: &Roots)
        ensures
            self.hit(interval, roots) matches Some(hit) ==> interval.surrounds(hit.depth),
    {
    }
}

/// Whether `hit` is the candidate at `index`, no candidate is nearer, and
/// every candidate before it is farther.
pub open spec fn is_first_nearest(candidates: Seq<Option<Hit>>, index: int, hit: Hit) -> bool {
    &&& 0 <= index < candidates.len()
    &&& candidates[index] == Some(hit)
    &&& forall|i: int|
        0 <= i < candidates.len() && (#[trigger] candidates[i]) is Some ==> hit.depth.le(
            candidates[i]->0.depth,
        )
    &&& forall|i: int|
        0 <= i < index && (#[trigger] candidates[i]) is Some ==> hit.depth.lt(
            candidates[i]->0.depth,
        )
}

/// Whether `found` is the closest of the candidates: the one of smallest
/// depth, and among several of that depth the first. Nothing is found only
/// where there is no candidate.
pub open spec fn is_closest(candidates: Seq<Option<Hit>>, found: Option<Hit>) -> bool {
    match found {
        None => forall|i: int| 0 <= i < candidates.len() ==> (#[trigger] candidates[i]) is None,
        Some(hit) => exists|index: int| is_first_nearest(candidates, index, hit),
    }
}

/// The closest of the candidates is unique where every depth is a number.
pub proof fn lemma_closest_is_unique(
    candidates: Seq<Option<Hit>>,
    first: Option<Hit>,
    second: Option<Hit>,
)
    requires
        forall|i: int|
            0 <= i < candidates.len() && (#[trigger] candidates[i]) is Some
                ==> !candidates[i]->0.depth.is_nan(),
        is_closest(candidates, first),
        is_closest(candidates, second),
    ensures
        first == second,
{
    match (first, second) {
        (Some(a), Some(b)) => {
            let i = choose|index: int| is_first_nearest(candidates, index, a);
            let j = choose|index: int| is_first_nearest(candidates, index, b);
            assert(candidates[i] is Some && candidates[j] is Some);
            if i < j {
                assert(b.depth.lt(candidates[i]->0.depth));
                assert(a.depth.le(candidates[j]->0.depth));
            } else if j < i {
                assert(a.depth.lt(candidates[j]->0.depth));
                assert(b.depth.le(candidates[i]->0.depth));
            }
        },
        (Some(a), None) => {
            let i = choose|index: int| is_first_nearest(candidates, index, a);
            assert(candidates[i] is Some);
        },
        (None, Some(b)) => {
            let j = choose|index: int| is_first_nearest(candidates, index, b);
            assert(candidates[j] is Some);
        },
        (None, None) => {},
    }
}

/// The shapes of a scene, in the order in which they were added.
pub struct HittableCollection {
    objects: Vec<Hittable>,
}

impl HittableCollection {
    /// The shapes, first added first.
    pub closed spec fn view(&self) -> Seq<Hittable> {
        self.objects@
    }

    /// What each shape makes of the ray, shape by shape. `roots[i]` belongs
    /// to the shape at `i`.
    pub open spec fn candidates(&self, interval: Interval, roots: Seq<Roots>) -> Seq<Option<Hit>> {
        Seq::new(self@.len(), |i: int| self@[i].hit(interval, &roots[i]))
    }

    /// Every candidate lies strictly inside the interval, so every depth is
    /// a number.
    pub proof fn lemma_candidates_inside_interval(&self, interval: Interval, roots: Seq<Roots>)
        ensures
            forall|i: int|
                0 <= i < self@.len() && (#[trigger] self.candidates(interval, roots)[i]) is Some
                    ==> interval.surrounds(self.candidates(interval, roots)[i]->0.depth),
    {
        let candidates = self.candidates(interval, roots);
        assert forall|i: int| 0 <= i < self@.len() && (#[trigger] candidates[i]) is Some implies interval.surrounds(
            candidates[i]->0.depth,
        ) by {
            self@[i].lemma_hit_inside_interval(interval, &roots[i]);
        }
    }

    /// The closest hit of a ray on the shapes is determined: two hits that
    /// are both the closest of the candidates are the same.
    pub proof fn lemma_closest_is_determined(
        &self,
        interval: Interval,
        roots: Seq<Roots>,
        first: Option<Hit>,
        second: Option<Hit>,
    )
        requires
            is_closest(self.candidates(interval, roots), first),
            is_closest(self.candidates(interval, roots), second),
        ensures
            first == second,
    {
        self.lemma_candidates_inside_interval(interval, roots);
        lemma_closest_is_unique(self.candidates(interval, roots), first, second);
    }

    pub fn new() -> (r: HittableCollection)
        ensures
            r@ == Seq::<Hittable>::empty(),
    {
        HittableCollection { objects: Vec::new() }
    }

    /// Appends one shape.
    pub fn add(&mut self, object: Hittable)
        ensures
            final(self)@ == old(self)@.push(object),
    {
        self.objects.push(object);
    }

    /// The number of shapes.
    pub fn len(&self) -> (r: usize)
        ensures
            r == self@.len(),
    {
        self.objects.len()
    }

    /// The shape at `index`, counting from the one added first.
    pub fn get(&self, index: usize) -> (r: &Hittable)
        requires
            index < self@.len(),
        ensures
            *r == self@[index as int],
    {
        &self.objects[index]
    }

    /// The closest hit of the ray on any shape, inside the interval. Of two
    /// shapes hit at the same depth, the one added first counts.
    pub fn hit(&self, interval: Interval, roots: &Vec<Roots>) -> (r: Option<Hit>)
        requires
            roots.len() == self@.len(),
        ensures
            is_closest(self.candidates(interval, roots@), r),
            r matches Some(hit) ==> interval.surrounds(hit.depth),
    {
        let ghost candidates = self.candidates(interval, roots@);
        let ghost mut best: int = 0;
        let mut closest_hit: Option<Hit> = None;
        let mut closest_so_far = interval.end;
        let mut i: usize = 0;
        proof {
            self.lemma_candidates_inside_interval(interval, roots@);
        }
        while i < self.objects.len()
            invariant
                0 <= i <= self.objects.len(),
                roots.len() == self.objects.len(),
                candidates == self.candidates(interval, roots@),
                forall|j: int|
                    0 <= j < candidates.len() && (#[trigger] candidates[j]) is Some
                        ==> interval.surrounds(candidates[j]->0.depth),
                closest_hit is None ==> closest_so_far == interval.end,
                closest_hit is None ==> forall|j: int|
                    0 <= j < i ==> (#[trigger] candidates[j]) is None,
                closest_hit matches Some(hit) ==> {
                    &&& 0 <= best < i
                    &&& candidates[best] == Some(hit)
                    &&& closest_so_far == hit.depth
                    &&& forall|j: int|
                        0 <= j < i && (#[trigger] candidates[j]) is Some ==> hit.depth.le(
                            candidates[j]->0.depth,
                        )
                    &&& forall|j: int|
                        0 <= j < best && (#[trigger] candidates[j]) is Some ==> hit.depth.lt(
                            candidates[j]->0.depth,
                        )
                },
            decreases self.objects.len() - i,
        {
            match self.objects[i].hit(interval, &roots[i]) {
                Some(hit) => {
                    if !hit.depth.ge(closest_so_far) {
                        closest_so_far = hit.depth;
                        closest_hit = Some(hit);
                        proof {
                            best = i as int;
                        }
                    }
                },
                None => {},
            }
            i += 1;
        }
        proof {
            if closest_hit is Some {
                assert(is_first_nearest(candidates, best, closest_hit->0));
            }
        }
        closest_hit
    }
}

} // verus!
