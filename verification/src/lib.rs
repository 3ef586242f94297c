//! The decisions of a Monte Carlo path tracer.
//!
//! A path tracer estimates the light that reaches a pixel by following rays
//! from the camera into a scene: a ray meets the nearest surface, the
//! material there scatters or absorbs it, and the scattered ray is followed
//! in turn, until a ray leaves the scene, is absorbed, or the path has used
//! up its depth.
//!
//! Most of that work is arithmetic in rounded numbers, and this crate does
//! none of it. It holds what is decided from the numbers once they are
//! computed: which root of a sphere's equation counts as the hit, which way
//! the surface faces the ray, which object of a scene is hit first, whether
//! a material scatters a ray or absorbs it and along which of two directions
//! it goes on, when a path ends, and on which level of a displayable
//! channel a colour component falls. Each of these is verified against a
//! contract that says exactly what is decided.
//!
//! Numbers are IEEE-754 binary32 bit patterns ([`scalar::Scalar`]), which
//! the crate compares, negates and cuts off exactly and never rounds. What
//! the caller computed of a ray comes in as a probe
//! ([`hittable::Hittable::Probe`]) for the scene and as a sample
//! ([`material::Sample`]) for a material.
pub mod scalar;
pub mod vector;
pub mod color;
pub mod ray;
pub mod material;
pub mod hittable;
pub mod sphere;
pub mod hittable_list;
pub mod integrator;
