//! Triples of scalars: directions, points in space and colours.
use vstd::prelude::*;
use crate::scalar::Scalar;

verus! {

/// Three scalars. The same type serves as a direction, as a point and as a
/// colour (red, green, blue).
#[derive(Clone, Copy, Debug)]
pub struct Vec3 {
    pub x: Scalar,
    pub y: Scalar,
    pub z: Scalar,
}

pub type Point3 = Vec3;

pub type Color = Vec3;

impl Vec3 {
    /// Three positive zeros.
    pub open spec fn spec_zero() -> Vec3 {
        Vec3 { x: Scalar::zero(), y: Scalar::zero(), z: Scalar::zero() }
    }

    /// Three ones.
    pub open spec fn spec_white() -> Vec3 {
        Vec3 { x: Scalar::one(), y: Scalar::one(), z: Scalar::one() }
    }

    /// Whether a point of squared length `length_squared`, drawn in the cube
    /// from -1 to 1, is kept as a point in the unit sphere: it is dropped,
    /// and another drawn, while the squared length is at least one.
    pub open spec fn kept(length_squared: Scalar) -> bool {
        !length_squared.at_least(Scalar::one())
    }

    /// The triple with the sign of each component flipped.
    pub open spec fn negated(self) -> Vec3 {
        Vec3 { x: self.x.negated(), y: self.y.negated(), z: self.z.negated() }
    }

    /// The triple of `x`, `y` and `z`.
    pub fn new(x: Scalar, y: Scalar, z: Scalar) -> (v: Vec3)
        ensures
            v == (Vec3 { x, y, z }),
    {
        Vec3 { x, y, z }
    }

    /// Three positive zeros: the origin, and the colour black.
    #[verifier::when_used_as_spec(spec_zero)]
    pub fn zero() -> (v: Vec3)
        ensures
            v == Vec3::spec_zero(),
    {
        Vec3 { x: Scalar::zero(), y: Scalar::zero(), z: Scalar::zero() }
    }

    /// Three ones: the colour white, which attenuates nothing.
    #[verifier::when_used_as_spec(spec_white)]
    pub fn white() -> (v: Color)
        ensures
            v == Vec3::spec_white(),
    {
        Vec3 { x: Scalar::one(), y: Scalar::one(), z: Scalar::one() }
    }

    /// The first component: of a colour, the red.
    pub fn x(&self) -> (r: Scalar)
        ensures
            r == self.x,
    {
        self.x
    }

    /// The second component: of a colour, the green.
    pub fn y(&self) -> (r: Scalar)
        ensures
            r == self.y,
    {
        self.y
    }

    /// The third component: of a colour, the blue.
    pub fn z(&self) -> (r: Scalar)
        ensures
            r == self.z,
    {
        self.z
    }

    /// The test of rejection sampling in the unit sphere.
    pub fn in_unit_sphere(length_squared: Scalar) -> (r: bool)
        ensures
            r == Vec3::kept(length_squared),
    {
        !length_squared.ge(Scalar::one())
    }

    /// `-self`, exact in every component.
    pub fn neg(&self) -> (v: Vec3)
        ensures
            v == self.negated(),
    {
        Vec3 { x: self.x.neg(), y: self.y.neg(), z: self.z.neg() }
    }
}

} // verus!
