use vstd::prelude::*;

use vstd::arithmetic::div_mod::lemma_fundamental_div_mod_converse;

use crate::hittable::is_closest;
use crate::hittable::Hit;
use crate::hittable::HittableCollection;
use crate::math::scalar::Scalar;
use crate::math::scalar::INFINITY_BITS;
use crate::math::vec3::Vec3;
use crate::math::Interval;
use crate::shapes::Roots;

verus! {

/// Samples that are averaged into one pixel.
pub const SAMPLE_COUNT: i32 = 25;

/// Longest chain of scatterings that a path may follow.
pub const MAX_DEPTH: i32 = 10;

/// Bit pattern of 1e-5, the smallest ray parameter at which a hit counts: a
/// scattered ray must not hit the surface that it leaves.
pub const NEAREST_HIT_BITS: u64 = 0x3EE4_F8B5_88E3_68F1;

/// A rotation followed by a translation: the images of the three axes, and
/// the image of the origin.
#[derive(Clone, Copy, Debug, PartialEq, Eq, Structural)]
pub struct Affine3 {
    pub x_axis: Vec3,
    pub y_axis: Vec3,
    pub z_axis: Vec3,
    pub translation: Vec3,
}

/// The rectangle in the world through which the camera looks, cut into
/// pixels.
#[derive(Clone, Copy, Debug, PartialEq, Eq, Structural)]
pub struct Viewport {
    pub aspect_ratio: Scalar,
    pub image_width: i32,
    pub image_height: i32,
    pub width: Scalar,
    pub height: Scalar,
    pub focal_length: Scalar,
    pub viewport_u: Vec3,
    pub viewport_v: Vec3,
    pub pixel_du: Vec3,
    pub pixel_dv: Vec3,
    pub pixel_00: Vec3,
    pub origin: Vec3,
}

/// The part of a viewport that follows from the camera's transform, field of
/// view and resolution by arithmetic.
#[derive(Clone, Copy, Debug, PartialEq, Eq, Structural)]
pub struct Frame {
    /// Image width over image height.
    pub aspect_ratio: Scalar,
    pub width: Scalar,
    pub height: Scalar,
    /// Horizontal edge of the viewport, in world space.
    pub viewport_u: Vec3,
    /// Vertical edge of the viewport, in world space. It points down: row 0
    /// is the top row.
    pub viewport_v: Vec3,
    /// Step from one pixel to the next in its row.
    pub pixel_du: Vec3,
    /// Step from one pixel to the one below it.
    pub pixel_dv: Vec3,
    /// Centre of the pixel in row 0 and column 0.
    pub pixel_00: Vec3,
    /// Upper left corner of the viewport.
    pub origin: Vec3,
}

impl Viewport {
    /// The viewport of a camera that was not initialized: 100 by 100 pixels
    /// on a square of side 2 in the plane z = 0, centred on the z axis.
    pub open spec fn spec_default() -> Viewport {
        let zero = Scalar { bits: 0 };
        Viewport {
            aspect_ratio: Scalar { bits: 0x3FF0_0000_0000_0000 },
            image_width: 100,
            image_height: 100,
            width: Scalar { bits: 0x4000_0000_0000_0000 },
            height: Scalar { bits: 0x4000_0000_0000_0000 },
            focal_length: Scalar { bits: 0x3FF0_0000_0000_0000 },
            viewport_u: Vec3 { x: Scalar { bits: 0x4000_0000_0000_0000 }, y: zero, z: zero },
            viewport_v: Vec3 { x: zero, y: Scalar { bits: 0xC000_0000_0000_0000 }, z: zero },
            pixel_du: Vec3 { x: Scalar { bits: 0x3F94_7AE1_47AE_147B }, y: zero, z: zero },
            pixel_dv: Vec3 { x: zero, y: Scalar { bits: 0xBF94_7AE1_47AE_147B }, z: zero },
            pixel_00: Vec3 {
                x: Scalar { bits: 0xBFEF_AE14_7AE1_47AE },
                y: Scalar { bits: 0x3FEF_AE14_7AE1_47AE },
                z: zero,
            },
            origin: Vec3 {
                x: Scalar { bits: 0xBFF0_0000_0000_0000 },
                y: Scalar { bits: 0x3FF0_0000_0000_0000 },
                z: zero,
            },
        }
    }

    /// Number of pixels of the image: none where a side is not positive.
    pub open spec fn pixel_count(&self) -> int {
        if self.image_width > 0 && self.image_height > 0 {
            self.image_width * self.image_height
        } else {
            0
        }
    }

    /// Column and row of the pixel at `index`, counting row after row, each
    /// from left to right, the top row first.
    pub open spec fn pixel_at(&self, index: int) -> (i32, i32) {
        ((index % (self.image_width as int)) as i32, (index / (self.image_width as int)) as i32)
    }

    /// The order of the pixels is row-major: the pixel in column `column` of
    /// row `row` stands at index `row * image_width + column`, which is
    /// below the number of pixels.
    pub proof fn lemma_row_major(&self, column: i32, row: i32)
        requires
            0 <= column < self.image_width,
            0 <= row < self.image_height,
        ensures
            0 <= row * self.image_width + column < self.pixel_count(),
            self.pixel_at(row * self.image_width + column) == (column, row),
    {
        let width = self.image_width as int;
        lemma_fundamental_div_mod_converse(row * width + column, width, row as int, column as int);
        assert(0 <= row * width && row * width + width <= self.image_height * width)
            by (nonlinear_arith)
            requires
                0 <= row < self.image_height,
                0 < width,
        ;
        assert(self.image_height * width == width * self.image_height) by (nonlinear_arith);
    }
}

impl Default for Viewport {
    fn default() -> (r: Viewport)
        ensures
            r == Viewport::spec_default(),
    {
        let zero = Scalar::from_bits(0);
        Viewport {
            aspect_ratio: Scalar::from_bits(0x3FF0_0000_0000_0000),
            image_width: 100,
            image_height: 100,
            width: Scalar::from_bits(0x4000_0000_0000_0000),
            height: Scalar::from_bits(0x4000_0000_0000_0000),
            focal_length: Scalar::from_bits(0x3FF0_0000_0000_0000),
            viewport_u: Vec3::new(Scalar::from_bits(0x4000_0000_0000_0000), zero, zero),
            viewport_v: Vec3::new(zero, Scalar::from_bits(0xC000_0000_0000_0000), zero),
            pixel_du: Vec3::new(Scalar::from_bits(0x3F94_7AE1_47AE_147B), zero, zero),
            pixel_dv: Vec3::new(zero, Scalar::from_bits(0xBF94_7AE1_47AE_147B), zero),
            pixel_00: Vec3::new(
                Scalar::from_bits(0xBFEF_AE14_7AE1_47AE),
                Scalar::from_bits(0x3FEF_AE14_7AE1_47AE),
                zero,
            ),
            origin: Vec3::new(
                Scalar::from_bits(0xBFF0_0000_0000_0000),
                Scalar::from_bits(0x3FF0_0000_0000_0000),
                zero,
            ),
        }
    }
}

/// How the path of one ray goes on.
#[derive(Clone, Copy, Debug, PartialEq, Eq, Structural)]
pub enum PathStep {
    /// The path ends and brings no light.
    Black,
    /// The ray leaves the scene: the path ends with the colour of the sky in
    /// the ray's direction.
    Sky,
    /// The ray hits a surface. If the surface scatters it, the path goes on
    /// with the scattered ray at `depth`, and is weakened by the attenuation.
    /// If the surface absorbs it, the path ends and brings no light.
    Surface { hit: Hit, depth: i32 },
}

/// Where the camera stands, what it sees, and the viewport that follows from
/// both.
#[derive(Clone, Copy, Debug, PartialEq, Eq, Structural)]
pub struct Camera {
    pub transform: Affine3,
    /// Vertical field of view, in degrees.
    pub vertical_fov: Scalar,
    pub image_width: i32,
    pub image_height: i32,
    pub viewport: Viewport,
}

impl Camera {
    /// The ray parameters at which a path looks for a surface: from 1e-5,
    /// without an upper limit.
    pub open spec fn spec_search_interval() -> Interval {
        Interval { start: Scalar { bits: NEAREST_HIT_BITS }, end: Scalar { bits: INFINITY_BITS } }
    }

    #[verifier::when_used_as_spec(spec_search_interval)]
    pub fn search_interval() -> (r: Interval)
        ensures
            r == Camera::spec_search_interval(),
    {
        Interval::new(Scalar::from_bits(NEAREST_HIT_BITS), Scalar::from_bits(INFINITY_BITS))
    }

    /// A camera with the given placement, field of view and resolution. Its
    /// viewport is the default one until the camera is initialized.
    pub fn new(transform: Affine3, vertical_fov: Scalar, width: i32, height: i32) -> (r: Camera)
        ensures
            r == (Camera {
                transform,
                vertical_fov,
                image_width: width,
                image_height: height,
                viewport: Viewport::spec_default(),
            }),
    {
        Camera {
            transform,
            vertical_fov,
            image_width: width,
            image_height: height,
            viewport: Viewport::default(),
        }
    }

    /// Replaces the viewport by the one that `frame` describes, at the
    /// camera's resolution and at focal length 1.
    pub fn initialize(&mut self, frame: Frame)
        ensures
            final(self).viewport == (Viewport {
                aspect_ratio: frame.aspect_ratio,
                image_width: old(self).image_width,
                image_height: old(self).image_height,
                width: frame.width,
                height: frame.height,
                focal_length: Scalar::one(),
                viewport_u: frame.viewport_u,
                viewport_v: frame.viewport_v,
                pixel_du: frame.pixel_du,
                pixel_dv: frame.pixel_dv,
                pixel_00: frame.pixel_00,
                origin: frame.origin,
            }),
            final(self).transform == old(self).transform,
            final(self).vertical_fov == old(self).vertical_fov,
            final(self).image_width == old(self).image_width,
            final(self).image_height == old(self).image_height,
    {
        let focal_length = Scalar::one();
        self.viewport = Viewport {
            aspect_ratio: frame.aspect_ratio,
            image_width: self.image_width,
            image_height: self.image_height,
            width: frame.width,
            height: frame.height,
            focal_length,
            viewport_u: frame.viewport_u,
            viewport_v: frame.viewport_v,
            pixel_du: frame.pixel_du,
            pixel_dv: frame.pixel_dv,
            pixel_00: frame.pixel_00,
            origin: frame.origin,
        };
    }

    /// The pixels of the image in the order in which they are rendered, each
    /// as its column and row: row after row, each from left to right, the top
    /// row first.
    pub fn render(&self) -> (r: Vec<(i32, i32)>)
        ensures
            r@.len() == self.viewport.pixel_count(),
            forall|k: int| 0 <= k < r@.len() ==> #[trigger] r@[k] == self.viewport.pixel_at(k),
    {
        let width = self.viewport.image_width;
        let height = self.viewport.image_height;
        let mut pixels: Vec<(i32, i32)> = Vec::new();
        let mut j: i32 = 0;
        while j < height
            invariant
                width == self.viewport.image_width,
                height == self.viewport.image_height,
                0 <= j,
                height > 0 ==> j <= height,
                height <= 0 ==> j == 0,
                width > 0 ==> pixels@.len() == j * width,
                width <= 0 ==> pixels@.len() == 0,
                forall|k: int|
                    0 <= k < pixels@.len() ==> #[trigger] pixels@[k] == self.viewport.pixel_at(k),
            decreases height - j,
        {
            let mut i: i32 = 0;
            while i < width
                invariant
                    width == self.viewport.image_width,
                    0 <= j < height,
                    0 <= i,
                    width > 0 ==> i <= width,
                    width > 0 ==> pixels@.len() == j * width + i,
                    width <= 0 ==> pixels@.len() == 0,
                    forall|k: int|
                        0 <= k < pixels@.len() ==> #[trigger] pixels@[k]
                            == self.viewport.pixel_at(k),
                decreases width - i,
            {
                proof {
                    lemma_fundamental_div_mod_converse(
                        j * width + i,
                        width as int,
                        j as int,
                        i as int,
                    );
                }
                pixels.push((i, j));
                i += 1;
            }
            assert(width > 0 ==> (j + 1) * width == j * width + width) by (nonlinear_arith);
            j += 1;
        }
        assert(width > 0 && height > 0 ==> pixels@.len() == width * height) by (nonlinear_arith)
            requires
                width > 0 ==> pixels@.len() == j * width,
                height > 0 ==> j == height,
        ;
        assert(width > 0 && height <= 0 ==> pixels@.len() == 0) by (nonlinear_arith)
            requires
                width > 0 ==> pixels@.len() == j * width,
                height <= 0 ==> j == 0,
        ;
        pixels
    }

    /// Decides how the path of a ray goes on. `max_depth` is the number of
    /// surfaces that the path may still meet, and `roots[i]` is what the
    /// intersection equation of the ray gives for the shape at `i`.
    ///
    /// A path that may meet no more surfaces ends in black, whatever the
    /// scene holds. Any other path goes to the closest surface that the ray
    /// hits in the search interval, and to the sky where it hits none.
    pub fn ray_color(&self, objects: &HittableCollection, roots: &Vec<Roots>, max_depth: i32) -> (r:
        PathStep)
        requires
            max_depth > 0 ==> roots.len() == objects@.len(),
        ensures
            max_depth <= 0 ==> r == PathStep::Black,
            max_depth > 0 ==> match r {
                PathStep::Black => false,
                PathStep::Sky => is_closest(
                    objects.candidates(Camera::search_interval(), roots@),
                    None,
                ),
                PathStep::Surface { hit, depth } => {
                    &&& is_closest(
                        objects.candidates(Camera::search_interval(), roots@),
                        Some(hit),
                    )
                    &&& depth == max_depth - 1
                },
            },
            max_depth > 0 && objects@.len() == 0 ==> r == PathStep::Sky,
    {
        if max_depth <= 0 {
            return PathStep::Black;
        }
        match objects.hit(Camera::search_interval(), roots) {
            Some(hit) => PathStep::Surface { hit, depth: max_depth - 1 },
            None => PathStep::Sky,
        }
    }
}

} // verus!
