//! Rays: half-lines `origin + t * direction`.
use vstd::prelude::*;
use crate::vector::Point3;
use crate::vector::Vec3;

verus! {

/// A ray. The direction need not have unit length.
#[derive(Clone, Copy, Debug)]
pub struct Ray {
    pub origin: Point3,
    pub direction: Vec3,
}

impl Ray {
    /// The ray from `origin` along `direction`.
    pub fn new(origin: Point3, direction: Vec3) -> (ray: Ray)
        ensures
            ray == (Ray { origin, direction }),
    {
        Ray { origin, direction }
    }

    /// The ray from the origin with no direction at all.
    pub fn zero() -> (ray: Ray)
        ensures
            ray == (Ray { origin: Vec3::zero(), direction: Vec3::zero() }),
    {
        Ray { origin: Vec3::zero(), direction: Vec3::zero() }
    }
}

} // verus!
