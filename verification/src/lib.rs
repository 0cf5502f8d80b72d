//! Decision core of a recursive Monte-Carlo ray tracer.
//!
//! Every number that the tracer works on is an IEEE 754 binary64 value. This
//! library never does arithmetic on such a value: it holds each one as its bit
//! pattern ([`math::scalar::Scalar`]) and takes every decision that the
//! tracer makes on them, with the ordering of binary64 numbers stated and
//! proved over the bit patterns. Which root of the intersection equation
//! counts, which of several surfaces is hit first, whether a material
//! reflects, refracts or absorbs, when a path ends and in which order the
//! pixels are produced is settled here. The arithmetic between two decisions
//! (dot products, square roots, random draws) is the caller's part: each
//! function takes the numbers it decides on as arguments, and its contract
//! holds for every value of them.

pub mod camera;
pub mod graphics;
pub mod hittable;
pub mod math;
pub mod random;
pub mod ray;
pub mod shapes;
