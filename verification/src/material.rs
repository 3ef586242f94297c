//! Surface materials and what each decides when a ray meets it.
//!
//! Where a scattered ray points is a matter of vector arithmetic and of
//! random draws, and that is the caller's part. A material decides what
//! follows from it: whether the ray scatters at all, and how much of each
//! colour it keeps.
use vstd::prelude::*;
use std::rc::Rc;
use crate::color::clamp;
use crate::color::clamped;
use crate::color::lemma_clamped_within;
use crate::hittable::HitRecord;
use crate::ray::Ray;
use crate::scalar::Scalar;
use crate::vector::Color;
use crate::vector::Vec3;

verus! {

/// A diffuse surface.
#[derive(Clone, Copy, Debug)]
pub struct Lambertian {
    pub albedo: Color,
}

impl Lambertian {
    /// A diffuse surface of albedo `a`.
    pub fn new(a: Color) -> (m: Lambertian)
        ensures
            m.albedo == a,
    {
        Lambertian { albedo: a }
    }

    /// A diffuse surface scatters every ray and keeps its albedo of it.
    /// `direction` is the surface normal plus a point drawn on the unit sphere.
    pub fn scatter(&self, rec: &HitRecord, direction: Vec3, attenuation: &mut Color, scattered: &mut Ray) -> (r: bool)
        ensures
            r,
            *final(attenuation) == self.albedo,
            *final(scattered) == (Ray { origin: rec.p, direction }),
    {
        *scattered = Ray::new(rec.p, direction);
        *attenuation = self.albedo;
        true
    }
}

/// A mirror, blurred by `fuzz`.
#[derive(Clone, Copy, Debug)]
pub struct Metal {
    albedo: Color,
    fuzz: Scalar,
}

impl Metal {
    /// What the metal keeps of each colour.
    pub closed spec fn spec_albedo(&self) -> Color {
        self.albedo
    }

    /// How far a mirrored ray may stray, from zero to one.
    pub closed spec fn spec_fuzz(&self) -> Scalar {
        self.fuzz
    }

    /// The fuzz lies between zero and one.
    #[verifier::type_invariant]
    pub closed spec fn wf(&self) -> bool {
        !self.fuzz.below(Scalar::zero()) && !self.fuzz.above(Scalar::one())
    }

    /// A metal of albedo `a`. The fuzz is held to the interval from zero to one.
    pub fn new(a: Color, fuzz: Scalar) -> (m: Metal)
        ensures
            m.spec_albedo() == a,
            m.spec_fuzz() == clamped(fuzz, Scalar::zero(), Scalar::one()),
            m.wf(),
    {
        proof {
            Scalar::zero().lemma_rank_orders(Scalar::one());
            lemma_clamped_within(fuzz, Scalar::zero(), Scalar::one());
        }
        Metal { albedo: a, fuzz: clamp(fuzz, Scalar::zero(), Scalar::one()) }
    }

    /// What the metal keeps of each colour.
    #[verifier::when_used_as_spec(spec_albedo)]
    pub fn albedo(&self) -> (c: Color)
        ensures
            c == self.spec_albedo(),
    {
        self.albedo
    }

    /// How far a mirrored ray may stray: neither below zero nor above one.
    #[verifier::when_used_as_spec(spec_fuzz)]
    pub fn fuzz(&self) -> (f: Scalar)
        ensures
            f == self.spec_fuzz(),
            !f.below(Scalar::zero()),
            !f.above(Scalar::one()),
    {
        proof {
            use_type_invariant(self);
        }
        self.fuzz
    }

    /// A metal keeps its albedo of the ray, and scatters it only where the
    /// new direction leaves the surface. `direction` is the mirror image of
    /// the incoming unit direction plus `fuzz` times a point drawn on the
    /// unit sphere; `facing` is its dot product with the normal of `rec`,
    /// and the ray scatters exactly where that is positive.
    pub fn scatter(
        &self,
        rec: &HitRecord,
        direction: Vec3,
        facing: Scalar,
        attenuation: &mut Color,
        scattered: &mut Ray,
    ) -> (r: bool)
        ensures
            r == facing.above(Scalar::zero()),
            *final(attenuation) == self.spec_albedo(),
            *final(scattered) == (Ray { origin: rec.p, direction }),
    {
        *scattered = Ray::new(rec.p, direction);
        *attenuation = self.albedo;
        facing.gt(Scalar::zero())
    }
}

/// Glass and the like: every ray goes on, mirrored or bent.
#[derive(Clone, Copy, Debug)]
pub struct Dielectric {
    ir: Scalar,
}

impl Dielectric {
    /// The index of refraction.
    pub closed spec fn spec_ir(&self) -> Scalar {
        self.ir
    }

    /// A dielectric of refractive index `ir`.
    pub fn new(ir: Scalar) -> (m: Dielectric)
        ensures
            m.spec_ir() == ir,
    {
        Dielectric { ir }
    }

    /// The index of refraction.
    #[verifier::when_used_as_spec(spec_ir)]
    pub fn ir(&self) -> (r: Scalar)
        ensures
            r == self.spec_ir(),
    {
        self.ir
    }

    /// The ratio of the indices on the two sides of the surface: a ray that
    /// enters the medium goes by `inverse`, which is `1 / ir`, and one that
    /// leaves it by `ir`.
    pub open spec fn ratio(&self, front_face: bool, inverse: Scalar) -> Scalar {
        if front_face {
            inverse
        } else {
            self.spec_ir()
        }
    }

    /// The refraction ratio for a ray that enters (`front_face`) or leaves
    /// the medium; `inverse` is `1 / ir`.
    pub fn refraction_ratio(&self, front_face: bool, inverse: Scalar) -> (r: Scalar)
        ensures
            r == self.ratio(front_face, inverse),
    {
        if front_face {
            inverse
        } else {
            self.ir
        }
    }

    /// The smaller of `incidence` and one; one where `incidence` is a NaN.
    pub open spec fn capped(incidence: Scalar) -> Scalar {
        if incidence.below(Scalar::one()) {
            incidence
        } else {
            Scalar::one()
        }
    }

    /// The cosine of the angle of incidence: `incidence`, the dot product of
    /// the reversed unit direction and the normal, held to at most one.
    pub fn cos_theta(incidence: Scalar) -> (r: Scalar)
        ensures
            r == Self::capped(incidence),
    {
        if incidence.lt(Scalar::one()) {
            incidence
        } else {
            Scalar::one()
        }
    }

    /// Whether the ray is mirrored. It is where it cannot be bent, because
    /// `bend`, the refraction ratio times the sine of the angle of
    /// incidence, is above one (total internal reflection); and where the
    /// reflectance of the surface at that angle is above `draw`, a number
    /// drawn from zero up to one.
    pub open spec fn mirrored(bend: Scalar, reflectance: Scalar, draw: Scalar) -> bool {
        bend.above(Scalar::one()) || reflectance.above(draw)
    }

    /// Whether the ray is mirrored rather than bent.
    pub fn reflects(bend: Scalar, reflectance: Scalar, draw: Scalar) -> (r: bool)
        ensures
            r == Self::mirrored(bend, reflectance, draw),
    {
        bend.gt(Scalar::one()) || reflectance.gt(draw)
    }

    /// A dielectric scatters every ray and takes nothing from it. The ray
    /// goes on along `reflected` where it is mirrored and along `refracted`
    /// where it is bent.
    pub fn scatter(
        &self,
        rec: &HitRecord,
        reflected: Vec3,
        refracted: Vec3,
        bend: Scalar,
        reflectance: Scalar,
        draw: Scalar,
        attenuation: &mut Color,
        scattered: &mut Ray,
    ) -> (r: bool)
        ensures
            r,
            *final(attenuation) == Color::white(),
            *final(scattered) == (Ray {
                origin: rec.p,
                direction: if Self::mirrored(bend, reflectance, draw) {
                    reflected
                } else {
                    refracted
                },
            }),
    {
        *attenuation = Color::white();
        let direction = if Self::reflects(bend, reflectance, draw) {
            reflected
        } else {
            refracted
        };
        *scattered = Ray::new(rec.p, direction);
        true
    }
}

/// A surface material: one of the three kinds.
#[derive(Clone, Copy, Debug)]
pub enum Material {
    Lambertian(Lambertian),
    Metal(Metal),
    Dielectric(Dielectric),
}

/// What was computed of a ray at a surface, for the material there to decide
/// on. Each kind of material asks for its own.
#[derive(Clone, Copy, Debug)]
pub enum Sample {
    /// For a diffuse surface: the normal plus a point drawn on the unit sphere.
    Lambertian { direction: Vec3 },
    /// For a metal: the mirror image of the incoming unit direction plus the
    /// fuzz times a point drawn on the unit sphere, and the dot product of
    /// that direction and the normal.
    Metal { direction: Vec3, facing: Scalar },
    /// For a dielectric: the incoming unit direction mirrored and bent, the
    /// refraction ratio times the sine of the angle of incidence, the
    /// reflectance at that angle, and a number drawn from zero up to one.
    Dielectric { reflected: Vec3, refracted: Vec3, bend: Scalar, reflectance: Scalar, draw: Scalar },
}

/// One more pointer to a shared material. This is `Rc::clone`, which the
/// verifier takes on trust: the new pointer shares the allocation of the old
/// one, so both hold the same material.
#[verifier::external_body]
pub(crate) fn share(material: &Rc<Material>) -> (shared: Rc<Material>)
    ensures
        shared == *material,
{
    Rc::clone(material)
}

impl Sample {
    /// The direction in which the ray goes on, if it does.
    pub open spec fn direction(self) -> Vec3 {
        match self {
            Sample::Lambertian { direction } => direction,
            Sample::Metal { direction, .. } => direction,
            Sample::Dielectric { reflected, refracted, bend, reflectance, draw } => if Dielectric::mirrored(
                bend,
                reflectance,
                draw,
            ) {
                reflected
            } else {
                refracted
            },
        }
    }
}

impl Material {
    /// Whether the sample is of the kind that the material asks for.
    pub open spec fn takes(&self, sample: &Sample) -> bool {
        match self {
            Material::Lambertian(_) => sample is Lambertian,
            Material::Metal(_) => sample is Metal,
            Material::Dielectric(_) => sample is Dielectric,
        }
    }

    /// Whether the ray scatters: always, but for a metal, where only a
    /// direction that leaves the surface does.
    pub open spec fn scatters(&self, sample: &Sample) -> bool {
        match sample {
            Sample::Metal { facing, .. } => facing.above(Scalar::zero()),
            _ => true,
        }
    }

    /// What the material keeps of each colour: its albedo, and all of it for
    /// a dielectric.
    pub open spec fn attenuation(&self) -> Color {
        match self {
            Material::Lambertian(m) => m.albedo,
            Material::Metal(m) => m.spec_albedo(),
            Material::Dielectric(_) => Color::white(),
        }
    }

    /// Lets the material decide on a ray that hit it at `rec`. The
    /// attenuation and the scattered ray are written in either case; the
    /// result tells whether the ray scatters or is absorbed.
    pub fn scatter(&self, rec: &HitRecord, sample: &Sample, attenuation: &mut Color, scattered: &mut Ray) -> (r:
        bool)
        requires
            self.takes(sample),
        ensures
            r == self.scatters(sample),
            *final(attenuation) == self.attenuation(),
            *final(scattered) == (Ray { origin: rec.p, direction: sample.direction() }),
    {
        match (self, sample) {
            (Material::Lambertian(m), Sample::Lambertian { direction }) => m.scatter(
                rec,
                *direction,
                attenuation,
                scattered,
            ),
            (Material::Metal(m), Sample::Metal { direction, facing }) => m.scatter(
                rec,
                *direction,
                *facing,
                attenuation,
                scattered,
            ),
            (
                Material::Dielectric(m),
                Sample::Dielectric { reflected, refracted, bend, reflectance, draw },
            ) => m.scatter(rec, *reflected, *refracted, *bend, *reflectance, *draw, attenuation, scattered),
            _ => vstd::pervasive::unreached(),
        }
    }
}

} // verus!
