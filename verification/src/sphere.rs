//! The sphere, the one geometric primitive.
//!
//! A ray `O + t d` meets the sphere of centre `C` and radius `r` where
//! `a t^2 + 2 h t + c = 0`, with `a = |d|^2`, `h = (O - C) . d` and
//! `c = |O - C|^2 - r^2`. The caller solves the equation; the sphere decides
//! from the solution which root, if any, is the hit.
use vstd::prelude::*;
use std::rc::Rc;
use crate::hittable::HitRecord;
use crate::hittable::Hittable;
use crate::material::share;
use crate::material::Material;
use crate::scalar::Scalar;
use crate::vector::Point3;
use crate::vector::Vec3;

verus! {

/// One root of the equation, and the surface there.
#[derive(Clone, Copy, Debug)]
pub struct Crossing {
    /// The root: the ray parameter of the crossing.
    pub t: Scalar,
    /// The ray at `t`.
    pub point: Point3,
    /// `(point - centre) / radius`: the unit normal pointing out of the sphere.
    pub outward_normal: Vec3,
    /// The dot product of the ray's direction and `outward_normal`.
    pub facing: Scalar,
}

/// The equation of one ray against one sphere, solved.
#[derive(Clone, Copy, Debug)]
pub struct Probe {
    /// `h^2 - a c`.
    pub discriminant: Scalar,
    /// The crossing at the root `(-h - sqrt(discriminant)) / a`.
    pub minus: Crossing,
    /// The crossing at the root `(-h + sqrt(discriminant)) / a`.
    pub plus: Crossing,
}

impl Probe {
    /// The crossing to try first: the one with the smaller root.
    pub open spec fn first(self) -> Crossing {
        if self.plus.t.below(self.minus.t) {
            self.plus
        } else {
            self.minus
        }
    }

    /// The crossing to try second: the one with the larger root.
    pub open spec fn second(self) -> Crossing {
        if self.plus.t.below(self.minus.t) {
            self.minus
        } else {
            self.plus
        }
    }
}

impl Crossing {
    /// Whether the root lies strictly between `t_min` and `t_max`.
    pub open spec fn inside(self, t_min: Scalar, t_max: Scalar) -> bool {
        self.t.below(t_max) && self.t.above(t_min)
    }
}

/// A sphere and the material of its surface.
#[derive(Debug)]
pub struct Sphere {
    center: Point3,
    radius: Scalar,
    material: Rc<Material>,
}

impl Sphere {
    /// The centre.
    pub closed spec fn spec_center(&self) -> Point3 {
        self.center
    }

    /// The radius.
    pub closed spec fn spec_radius(&self) -> Scalar {
        self.radius
    }

    /// The material of the surface.
    pub closed spec fn spec_material(&self) -> Rc<Material> {
        self.material
    }

    /// The record of a hit at `crossing`: the normal is turned against the
    /// ray, and the material is the sphere's own.
    pub open spec fn record_of(&self, crossing: Crossing) -> HitRecord {
        (HitRecord {
            p: crossing.point,
            normal: crossing.outward_normal,
            t: crossing.t,
            front_face: true,
            material: Some(self.spec_material()),
        }).faced(crossing.facing, crossing.outward_normal)
    }

    /// The sphere about `center` with the given radius and material.
    pub fn new(center: Point3, radius: Scalar, material: Rc<Material>) -> (sphere: Sphere)
        ensures
            sphere.spec_center() == center,
            sphere.spec_radius() == radius,
            sphere.spec_material() == material,
    {
        Sphere { center, radius, material }
    }

    /// The centre.
    #[verifier::when_used_as_spec(spec_center)]
    pub fn center(&self) -> (c: Point3)
        ensures
            c == self.spec_center(),
    {
        self.center
    }

    /// The radius.
    #[verifier::when_used_as_spec(spec_radius)]
    pub fn radius(&self) -> (r: Scalar)
        ensures
            r == self.spec_radius(),
    {
        self.radius
    }

    /// The material, shared once more.
    pub fn material(&self) -> (m: Rc<Material>)
        ensures
            m == self.spec_material(),
    {
        share(&self.material)
    }

    /// A ray that comes upon the sphere from outside hits it where it
    /// enters: where the discriminant is not negative, the smaller root lies
    /// inside the interval and the ray runs against the outward normal
    /// there, the hit is at the smaller root, on the front face, and the
    /// stored normal is the outward normal.
    pub proof fn lemma_entry_is_front_face(&self, probe: &Probe, t_min: Scalar, t_max: Scalar)
        requires
            !probe.discriminant.below(Scalar::zero()),
            probe.first().inside(t_min, t_max),
            probe.first().facing.below(Scalar::zero()),
        ensures
            self.hit_at(probe, t_min, t_max) matches Some(h) && h.t == probe.first().t && h.p
                == probe.first().point && h.front_face && h.normal == probe.first().outward_normal,
    {
    }

    /// A ray that starts inside the sphere hits it where it leaves: where
    /// the discriminant is not negative, the smaller root lies at or before
    /// the start of the interval, the larger root inside it, and the ray
    /// does not run against the outward normal there, the hit is at the
    /// larger root, on the back face, and the stored normal is the outward
    /// normal negated.
    pub proof fn lemma_exit_is_back_face(&self, probe: &Probe, t_min: Scalar, t_max: Scalar)
        requires
            !probe.discriminant.below(Scalar::zero()),
            !probe.first().t.above(t_min),
            probe.second().inside(t_min, t_max),
            !probe.second().facing.below(Scalar::zero()),
        ensures
            self.hit_at(probe, t_min, t_max) matches Some(h) && h.t == probe.second().t && h.p
                == probe.second().point && !h.front_face && h.normal
                == probe.second().outward_normal.negated(),
    {
    }

    fn record(&self, crossing: &Crossing, rec: &mut HitRecord)
        ensures
            *final(rec) == self.record_of(*crossing),
    {
        rec.t = crossing.t;
        rec.p = crossing.point;
        rec.normal = crossing.outward_normal;
        rec.set_face_normal(crossing.facing, &crossing.outward_normal);
        rec.material = Some(share(&self.material));
    }
}

impl Hittable for Sphere {
    type Probe = Probe;

    /// A sphere takes any probe.
    open spec fn fits(&self, probe: &Probe) -> bool {
        true
    }

    /// No hit where the discriminant is negative. Else the roots are tried
    /// in increasing order, and the first strictly inside the interval is
    /// the hit. A discriminant of zero is a tangent ray, which hits.
    open spec fn hit_at(&self, probe: &Probe, t_min: Scalar, t_max: Scalar) -> Option<HitRecord> {
        if probe.discriminant.below(Scalar::zero()) {
            None
        } else if probe.first().inside(t_min, t_max) {
            Some(self.record_of(probe.first()))
        } else if probe.second().inside(t_min, t_max) {
            Some(self.record_of(probe.second()))
        } else {
            None
        }
    }

    fn hit(&self, probe: &Probe, t_min: Scalar, t_max: Scalar, rec: &mut HitRecord) -> (r: bool) {
        if probe.discriminant.lt(Scalar::zero()) {
            return false;
        }
        let swapped = probe.plus.t.lt(probe.minus.t);
        let first = if swapped {
            probe.plus
        } else {
            probe.minus
        };
        if first.t.lt(t_max) && first.t.gt(t_min) {
            self.record(&first, rec);
            return true;
        }
        let second = if swapped {
            probe.minus
        } else {
            probe.plus
        };
        if second.t.lt(t_max) && second.t.gt(t_min) {
            self.record(&second, rec);
            return true;
        }
        false
    }

    proof fn lemma_hit_inside(&self, probe: &Probe, t_min: Scalar, t_max: Scalar) {
    }

    proof fn lemma_hit_narrowed(&self, probe: &Probe, t_min: Scalar, t_max: Scalar, bound: Scalar) {
    }
}

} // verus!
