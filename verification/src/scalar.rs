//! Single-precision numbers carried as their IEEE-754 binary32 bit patterns.
//!
//! A pattern is a sign bit, eight exponent bits and twenty-three fraction
//! bits. With exponent bits `e` and fraction bits `f` it encodes
//!
//! * `f * 2^-149` where `e` is zero (zero and the subnormal numbers),
//! * `(2^23 + f) * 2^(e - 150)` where `e` is from 1 to 254,
//! * infinity where `e` is 255 and `f` is zero, and no number (a NaN)
//!   where `e` is 255 and `f` is not zero,
//!
//! each with the sign that the sign bit gives. So `2^149` times a number is
//! an integer, and this module speaks of numbers through that integer. It
//! answers questions of order, sign and range exactly; it does no rounding
//! arithmetic.
use vstd::prelude::*;
use vstd::arithmetic::power2::lemma2_to64;
use vstd::arithmetic::power2::lemma_pow2;
use vstd::arithmetic::power2::lemma_pow2_adds;
use vstd::arithmetic::power2::lemma_pow2_pos;
use vstd::arithmetic::power2::lemma_pow2_strictly_increases;
use vstd::arithmetic::power2::lemma_pow2_unfold;
use vstd::arithmetic::power2::pow2;

verus! {

/// The sign bit of a pattern.
pub const SIGN_BIT: u32 = 0x8000_0000;

/// The pattern of positive infinity.
pub const INFINITY_BITS: u32 = 0x7f80_0000;

/// The pattern of the number one.
pub const ONE_BITS: u32 = 0x3f80_0000;

/// How many patterns share one exponent: two to the twenty-third.
pub const FRACTIONS: u32 = 0x80_0000;

/// A binary32 number, held as its bit pattern.
#[derive(Clone, Copy, Debug)]
pub struct Scalar {
    pub bits: u32,
}

impl Scalar {
    /// The pattern without its sign bit.
    pub open spec fn magnitude(self) -> int {
        if self.bits >= SIGN_BIT {
            self.bits - SIGN_BIT
        } else {
            self.bits as int
        }
    }

    /// Whether the sign bit is set (true of negative zero and of some NaNs too).
    pub open spec fn sign(self) -> bool {
        self.bits >= SIGN_BIT
    }

    /// Whether the pattern encodes no number.
    pub open spec fn nan(self) -> bool {
        self.magnitude() > INFINITY_BITS
    }

    /// The exponent bits, from 0 to 255.
    pub open spec fn exponent(self) -> int {
        self.magnitude() / (FRACTIONS as int)
    }

    /// The fraction bits.
    pub open spec fn fraction(self) -> int {
        self.magnitude() % (FRACTIONS as int)
    }

    /// The significand as an integer: the fraction bits, below a leading one
    /// wherever the exponent bits are not zero.
    pub open spec fn significand(self) -> int {
        if self.exponent() == 0 {
            self.fraction()
        } else {
            FRACTIONS + self.fraction()
        }
    }

    /// The binary place of the significand's last bit, counted up from `2^-149`.
    pub open spec fn shift(self) -> nat {
        if self.exponent() == 0 {
            0
        } else {
            (self.exponent() - 1) as nat
        }
    }

    /// `2^149` times the magnitude of the number. An infinity gets what its
    /// pattern would encode with an ordinary exponent, `2^277`, which lies
    /// above the size of every finite number. Meaningless for a NaN.
    pub open spec fn size(self) -> int {
        self.significand() * pow2(self.shift())
    }

    /// `2^149` times the number, an integer; for an infinity, `2^277` with
    /// its sign. Meaningless for a NaN.
    pub open spec fn scaled(self) -> int {
        if self.sign() {
            -self.size()
        } else {
            self.size()
        }
    }

    /// `self < other` as IEEE-754 orders them: both are numbers, and the
    /// first is the smaller. The two zeros are equal.
    pub open spec fn below(self, other: Scalar) -> bool {
        !self.nan() && !other.nan() && self.scaled() < other.scaled()
    }

    /// `self > other` as IEEE-754 orders them.
    pub open spec fn above(self, other: Scalar) -> bool {
        other.below(self)
    }

    /// `self >= other` as IEEE-754 orders them: both are numbers, and the
    /// first is not the smaller.
    pub open spec fn at_least(self, other: Scalar) -> bool {
        !self.nan() && !other.nan() && self.scaled() >= other.scaled()
    }

    /// The place of a pattern in the order of the numbers: both zeros at 0,
    /// the positive patterns counted up from there and the negative ones
    /// down. Two numbers stand in the order of their ranks.
    pub open spec fn rank(self) -> int {
        if self.sign() {
            -self.magnitude()
        } else {
            self.magnitude()
        }
    }

    /// The pattern with its sign bit flipped.
    pub open spec fn negated(self) -> Scalar {
        if self.bits >= SIGN_BIT {
            Scalar { bits: (self.bits - SIGN_BIT) as u32 }
        } else {
            Scalar { bits: (self.bits + SIGN_BIT) as u32 }
        }
    }

    /// The pattern of positive zero.
    pub open spec fn spec_zero() -> Scalar {
        Scalar { bits: 0 }
    }

    /// The pattern of the number one.
    pub open spec fn spec_one() -> Scalar {
        Scalar { bits: ONE_BITS }
    }

    /// The pattern of positive infinity.
    pub open spec fn spec_infinity() -> Scalar {
        Scalar { bits: INFINITY_BITS }
    }

    /// Of two patterns, the one with the larger magnitude bits encodes the
    /// number of larger size.
    pub proof fn lemma_size_grows(self, other: Scalar)
        requires
            self.magnitude() < other.magnitude(),
        ensures
            0 <= self.size() < other.size(),
    {
        let sa: int = self.significand();
        let sb: int = other.significand();
        let pa: int = pow2(self.shift()) as int;
        let pb: int = pow2(other.shift()) as int;
        lemma_pow2_pos(self.shift());
        lemma_pow2_pos(other.shift());
        assert(0 <= sa * pa) by (nonlinear_arith)
            requires
                0 <= sa,
                0 < pa,
        ;
        if self.exponent() == other.exponent() {
            assert(sa * pa < sb * pb) by (nonlinear_arith)
                requires
                    sa < sb,
                    pa == pb,
                    0 < pa,
            ;
        } else if self.exponent() == 0 {
            assert(pa == 1) by {
                reveal(vstd::arithmetic::power::pow);
                lemma_pow2(0);
            }
            assert(sa * pa < sb * pb) by (nonlinear_arith)
                requires
                    0 <= sa < 0x80_0000,
                    0x80_0000 <= sb,
                    pa == 1,
                    1 <= pb,
            ;
        } else {
            let ea: nat = self.exponent() as nat;
            let eb: nat = other.exponent() as nat;
            let up: int = pow2(ea) as int;
            lemma_pow2_unfold(ea);
            if ea < eb - 1 {
                lemma_pow2_strictly_increases(ea, (eb - 1) as nat);
            }
            assert(sa * pa < sb * pb) by (nonlinear_arith)
                requires
                    0 <= sa < 0x100_0000,
                    0x80_0000 <= sb,
                    0 < pa,
                    up == 2 * pa,
                    up <= pb,
            ;
        }
    }

    /// Two patterns stand in the order of their ranks exactly as the numbers
    /// they encode stand in the order of the numbers.
    pub proof fn lemma_rank_orders(self, other: Scalar)
        ensures
            self.rank() < other.rank() <==> self.scaled() < other.scaled(),
            self.rank() == other.rank() <==> self.scaled() == other.scaled(),
    {
        let nought = Scalar { bits: 0 };
        assert(nought.size() == 0) by (nonlinear_arith)
            requires
                nought.size() == 0 * pow2(0),
        ;
        if self.magnitude() > 0 {
            nought.lemma_size_grows(self);
        } else {
            assert(self.size() == nought.size());
        }
        if other.magnitude() > 0 {
            nought.lemma_size_grows(other);
        } else {
            assert(other.size() == nought.size());
        }
        if self.magnitude() < other.magnitude() {
            self.lemma_size_grows(other);
        } else if other.magnitude() < self.magnitude() {
            other.lemma_size_grows(self);
        } else {
            assert(self.size() == other.size());
        }
    }

    /// Negation turns a number into its opposite, and leaves a NaN a NaN.
    pub proof fn lemma_negated(self)
        ensures
            self.negated().scaled() == -self.scaled(),
            self.negated().nan() == self.nan(),
            self.negated().negated() == self,
    {
        assert(self.negated().magnitude() == self.magnitude());
        assert(self.negated().size() == self.size());
    }

    /// Negation turns the order of two numbers around.
    pub proof fn lemma_negation_reverses(self, other: Scalar)
        ensures
            self.below(other) == other.negated().below(self.negated()),
    {
        self.lemma_negated();
        other.lemma_negated();
    }

    /// Zero is the number 0, and one is the number 1.
    pub proof fn lemma_zero_and_one()
        ensures
            !Scalar::zero().nan(),
            Scalar::zero().scaled() == 0,
            !Scalar::one().nan(),
            Scalar::one().scaled() == pow2(149),
    {
        let nought = Scalar { bits: 0 };
        assert(nought.size() == 0) by (nonlinear_arith)
            requires
                nought.size() == 0 * pow2(0),
        ;
        let unit = Scalar { bits: ONE_BITS };
        assert(unit.exponent() == 127 && unit.fraction() == 0);
        lemma2_to64();
        lemma_pow2_adds(23, 126);
        assert(pow2(23) == 0x80_0000);
        assert(unit.size() == 0x80_0000 * pow2(126));
    }

    /// Infinity is no NaN, and it is above every other number.
    pub proof fn lemma_infinity(self)
        requires
            !self.nan(),
            self != Scalar::infinity(),
        ensures
            !Scalar::infinity().nan(),
            self.below(Scalar::infinity()),
    {
        let top = Scalar { bits: INFINITY_BITS };
        self.lemma_rank_orders(top);
    }

    /// The number with the given pattern.
    pub fn from_bits(bits: u32) -> (s: Scalar)
        ensures
            s.bits == bits,
    {
        Scalar { bits }
    }

    /// The pattern of the number.
    pub fn to_bits(self) -> (bits: u32)
        ensures
            bits == self.bits,
    {
        self.bits
    }

    /// Positive zero.
    #[verifier::when_used_as_spec(spec_zero)]
    pub fn zero() -> (s: Scalar)
        ensures
            s == Scalar::spec_zero(),
    {
        Scalar { bits: 0 }
    }

    /// The number one.
    #[verifier::when_used_as_spec(spec_one)]
    pub fn one() -> (s: Scalar)
        ensures
            s == Scalar::spec_one(),
    {
        Scalar { bits: ONE_BITS }
    }

    /// Positive infinity.
    #[verifier::when_used_as_spec(spec_infinity)]
    pub fn infinity() -> (s: Scalar)
        ensures
            s == Scalar::spec_infinity(),
    {
        Scalar { bits: INFINITY_BITS }
    }

    fn magnitude_bits(self) -> (m: u32)
        ensures
            m == self.magnitude(),
    {
        if self.bits >= SIGN_BIT {
            self.bits - SIGN_BIT
        } else {
            self.bits
        }
    }

    /// Whether the pattern encodes no number.
    pub fn is_nan(self) -> (r: bool)
        ensures
            r == self.nan(),
    {
        self.magnitude_bits() > INFINITY_BITS
    }

    /// Whether the sign bit is set.
    pub fn is_sign_negative(self) -> (r: bool)
        ensures
            r == self.sign(),
    {
        self.bits >= SIGN_BIT
    }

    /// The significand and the shift of the pattern: the number encoded is
    /// the first times two to the power of the second less 149, with the sign
    /// that `is_sign_negative` tells.
    pub fn decode(self) -> (parts: (u32, u32))
        ensures
            parts.0 == self.significand(),
            parts.1 == self.shift(),
    {
        let m: u32 = self.magnitude_bits();
        if m / FRACTIONS == 0 {
            (m % FRACTIONS, 0)
        } else {
            (FRACTIONS + m % FRACTIONS, m / FRACTIONS - 1)
        }
    }

    fn signed_rank(self) -> (r: i64)
        ensures
            r == self.rank(),
    {
        if self.bits >= SIGN_BIT {
            -((self.bits - SIGN_BIT) as i64)
        } else {
            self.bits as i64
        }
    }

    /// `self < other`.
    pub fn lt(self, other: Scalar) -> (r: bool)
        ensures
            r == self.below(other),
    {
        proof {
            self.lemma_rank_orders(other);
        }
        !self.is_nan() && !other.is_nan() && self.signed_rank() < other.signed_rank()
    }

    /// `self > other`.
    pub fn gt(self, other: Scalar) -> (r: bool)
        ensures
            r == self.above(other),
    {
        other.lt(self)
    }

    /// `self >= other`.
    pub fn ge(self, other: Scalar) -> (r: bool)
        ensures
            r == self.at_least(other),
    {
        proof {
            self.lemma_rank_orders(other);
        }
        !self.is_nan() && !other.is_nan() && self.signed_rank() >= other.signed_rank()
    }

    /// `-self`: the sign bit flips and nothing else changes, for a NaN too.
    pub fn neg(self) -> (r: Scalar)
        ensures
            r == self.negated(),
    {
        if self.bits >= SIGN_BIT {
            Scalar { bits: self.bits - SIGN_BIT }
        } else {
            Scalar { bits: self.bits + SIGN_BIT }
        }
    }
}

} // verus!
