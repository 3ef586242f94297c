//! The path-tracing integrator: how long a path of scattered rays is
//! followed, and what ends it.
//!
//! The radiance along a ray is found by following the ray from surface to
//! surface. Each surface attenuates what comes back along the rest of the
//! path, so the radiance of a path is the product of its attenuations times
//! what ends it: the background, where a ray leaves the scene, or black,
//! where a surface absorbs the ray or the path has used up its depth. The
//! products are the caller's; the integrator decides, ray by ray, whether
//! the path goes on.
use vstd::prelude::*;
use vstd::arithmetic::power2::lemma2_to64_rest;
use vstd::arithmetic::power2::lemma_pow2_adds;
use vstd::arithmetic::power2::pow2;
use crate::hittable::HitRecord;
use crate::hittable::Hittable;
use crate::material::Sample;
use crate::ray::Ray;
use crate::scalar::Scalar;
use crate::vector::Color;

verus! {

/// The pattern of 0.001, the nearest distance at which a surface counts as
/// hit. Rounding may put the origin of a scattered ray just inside the
/// surface it left; nearer than this the ray does not see that surface again.
pub const NEAREST_BITS: u32 = 0x3a83_126f;

/// The near bound is the binary32 number nearest to one thousandth: a
/// thousand times the number is one and 408 parts in `2^33`, and half a
/// step to the next binary32 number would be 500 such parts.
pub proof fn lemma_nearest_is_a_thousandth()
    ensures
        !(Scalar { bits: NEAREST_BITS }).nan(),
        1000 * (Scalar { bits: NEAREST_BITS }).scaled() == pow2(149) + 408 * pow2(116),
{
    let near = Scalar { bits: NEAREST_BITS };
    assert(near.exponent() == 117 && near.fraction() == 0x3_126f);
    let unit: int = pow2(116) as int;
    assert(near.scaled() == 8589935 * unit);
    lemma2_to64_rest();
    lemma_pow2_adds(33, 116);
    assert(pow2(149) == 8589934592 * unit);
    assert(1000 * (8589935 * unit) == 8589934592 * unit + 408 * unit) by (nonlinear_arith);
}

/// What one ray of a path found.
#[derive(Debug)]
pub enum Step {
    /// The path is over, and this colour is its radiance.
    Done(Color),
    /// The ray left the scene: the path ends on the background.
    Escaped,
    /// The ray met a surface, whose material decides how the path goes on.
    Hit(HitRecord),
}

/// How a path goes on behind a surface.
#[derive(Clone, Copy, Debug)]
pub enum Bounce {
    /// The path is over, and this colour is its radiance.
    Done(Color),
    /// The path goes on along `ray`, with `depth` rays left to it; what
    /// comes back along it is multiplied by `attenuation`.
    Follow { attenuation: Color, ray: Ray, depth: usize },
}

/// What a ray finds in `world` when the path has `depth` rays left: nothing
/// but black at depth zero; else the nearest surface farther than 0.001
/// along the ray, or no surface at all.
pub open spec fn traced<W: Hittable>(world: &W, probe: &W::Probe, depth: usize) -> Step {
    if depth == 0 {
        Step::Done(Color::zero())
    } else {
        match world.hit_at(probe, Scalar { bits: NEAREST_BITS }, Scalar::infinity()) {
            Some(rec) => Step::Hit(rec),
            None => Step::Escaped,
        }
    }
}

/// How a path with `depth` rays left goes on behind the surface hit at
/// `rec`: where the material absorbs the ray, the path ends in black; where
/// it scatters the ray, the path follows the scattered ray with one ray less
/// left to it.
pub open spec fn bounced(rec: &HitRecord, sample: &Sample, depth: usize) -> Bounce {
    let material = rec.material->Some_0;
    if material.scatters(sample) {
        Bounce::Follow {
            attenuation: material.attenuation(),
            ray: Ray { origin: rec.p, direction: sample.direction() },
            depth: (depth - 1) as usize,
        }
    } else {
        Bounce::Done(Color::zero())
    }
}

/// Follows one ray of a path with `depth` rays left. A path without depth
/// left is black, whatever the ray and the scene. A surface that is hit has
/// a material.
pub fn ray_color<W: Hittable>(world: &W, probe: &W::Probe, depth: usize) -> (step: Step)
    requires
        world.fits(probe),
    ensures
        step == traced(world, probe, depth),
        depth == 0 ==> step == Step::Done(Color::zero()),
        step matches Step::Hit(rec) ==> depth > 0 && rec.material is Some,
{
    if depth == 0 {
        return Step::Done(Color::zero());
    }
    proof {
        world.lemma_hit_inside(probe, Scalar { bits: NEAREST_BITS }, Scalar::infinity());
    }
    let mut rec = HitRecord::new();
    if world.hit(probe, Scalar::from_bits(NEAREST_BITS), Scalar::infinity(), &mut rec) {
        Step::Hit(rec)
    } else {
        Step::Escaped
    }
}

/// Lets the material of the surface hit at `rec` decide on the ray, and
/// says how the path goes on.
pub fn bounce(rec: &HitRecord, sample: &Sample, depth: usize) -> (next: Bounce)
    requires
        rec.material matches Some(material) && material.takes(sample),
        depth > 0,
    ensures
        next == bounced(rec, sample, depth),
{
    let mut attenuation = Color::zero();
    let mut scattered = Ray::zero();
    let did_scatter = match &rec.material {
        Some(material) => material.scatter(rec, sample, &mut attenuation, &mut scattered),
        None => false,
    };
    if did_scatter {
        Bounce::Follow { attenuation, ray: scattered, depth: depth - 1 }
    } else {
        Bounce::Done(Color::zero())
    }
}

} // verus!
