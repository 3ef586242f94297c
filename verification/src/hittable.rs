//! Hit records, and the capability of being hit by a ray.
use vstd::prelude::*;
use std::rc::Rc;
use crate::material::share;
use crate::material::Material;
use crate::scalar::Scalar;
use crate::vector::Point3;
use crate::vector::Vec3;

verus! {

/// Where a ray met a surface.
#[derive(Debug)]
pub struct HitRecord {
    /// The point of the surface that was hit.
    pub p: Point3,
    /// The surface normal there, turned against the incoming ray.
    pub normal: Vec3,
    /// The ray parameter at which the surface was hit.
    pub t: Scalar,
    /// Whether the ray came from outside the surface.
    pub front_face: bool,
    /// The material of the surface, shared with the object that was hit.
    pub material: Option<Rc<Material>>,
}

impl Clone for HitRecord {
    /// A copy of the record that shares the material.
    fn clone(&self) -> (rec: Self)
        ensures
            rec == *self,
    {
        HitRecord {
            p: self.p,
            normal: self.normal,
            t: self.t,
            front_face: self.front_face,
            material: match &self.material {
                Some(material) => Some(share(material)),
                None => None,
            },
        }
    }
}

impl HitRecord {
    /// The record as `set_face_normal` leaves it: `facing` is the dot product
    /// of the ray's direction and the outward normal.
    pub open spec fn faced(self, facing: Scalar, outward_normal: Vec3) -> HitRecord {
        let front_face = facing.below(Scalar::zero());
        HitRecord {
            front_face,
            normal: if front_face {
                outward_normal
            } else {
                outward_normal.negated()
            },
            ..self
        }
    }

    /// Turns the stored normal against the ray. The ray comes from outside
    /// exactly where `facing`, the dot product of its direction and the
    /// outward normal, is negative; otherwise the stored normal is the
    /// outward normal negated.
    pub fn set_face_normal(&mut self, facing: Scalar, outward_normal: &Vec3)
        ensures
            *final(self) == old(self).faced(facing, *outward_normal),
    {
        self.front_face = facing.lt(Scalar::zero());
        self.normal = if self.front_face {
            *outward_normal
        } else {
            outward_normal.neg()
        };
    }

    /// A record of nothing yet: at the origin, facing front, without material.
    pub fn new() -> (rec: HitRecord)
        ensures
            rec == (HitRecord {
                p: Vec3::zero(),
                normal: Vec3::zero(),
                t: Scalar::zero(),
                front_face: true,
                material: None,
            }),
    {
        HitRecord {
            p: Point3::zero(),
            normal: Vec3::zero(),
            t: Scalar::zero(),
            front_face: true,
            material: None,
        }
    }
}

/// A hit, kept only where it lies before `bound` along the ray.
pub open spec fn nearer_than(hit: Option<HitRecord>, bound: Scalar) -> Option<HitRecord> {
    match hit {
        Some(h) => if h.t.below(bound) {
            hit
        } else {
            None
        },
        None => None,
    }
}

/// Something a ray can hit within an interval of its parameter.
///
/// The arithmetic of the ray against the object is the caller's: it comes in
/// as a probe. The object decides from it whether the ray hits and what the
/// record holds.
pub trait Hittable {
    /// What was computed of one ray against an object of this kind.
    type Probe;

    /// Whether a probe has the shape that this object asks for.
    spec fn fits(&self, probe: &Self::Probe) -> bool;

    /// The hit strictly between `t_min` and `t_max`, if there is one.
    spec fn hit_at(&self, probe: &Self::Probe, t_min: Scalar, t_max: Scalar) -> Option<HitRecord>;

    /// Tests the ray. On a hit the record is written anew, whole; without
    /// one it is left as it was.
    fn hit(&self, probe: &Self::Probe, t_min: Scalar, t_max: Scalar, rec: &mut HitRecord) -> (r: bool)
        requires
            self.fits(probe),
        ensures
            r == self.hit_at(probe, t_min, t_max).is_some(),
            r ==> *final(rec) == self.hit_at(probe, t_min, t_max).unwrap(),
            !r ==> *final(rec) == *old(rec),
    ;

    /// A hit lies strictly inside the interval that was asked for, and its
    /// record names a material.
    proof fn lemma_hit_inside(&self, probe: &Self::Probe, t_min: Scalar, t_max: Scalar)
        requires
            self.fits(probe),
        ensures
            self.hit_at(probe, t_min, t_max) matches Some(h) ==> t_min.below(h.t) && h.t.below(t_max)
                && h.material is Some,
    ;

    /// Asking with a nearer upper bound finds the same hit where it lies
    /// before that bound, and nothing else.
    proof fn lemma_hit_narrowed(&self, probe: &Self::Probe, t_min: Scalar, t_max: Scalar, bound: Scalar)
        requires
            self.fits(probe),
            bound.below(t_max),
        ensures
            self.hit_at(probe, t_min, bound) == nearer_than(self.hit_at(probe, t_min, t_max), bound),
    ;
}

} // verus!
