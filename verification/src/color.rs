//! Turning a colour component into a level of a displayable channel.
//!
//! A component that has been averaged and gamma-corrected is a number from
//! zero to one. It is held to the range from 0 to 0.999, multiplied by 256
//! and cut off to a whole number, which gives a level from 0 to 255. The
//! product by a power of two and the cutting off involve no rounding, so the
//! level is computed here from the pattern of the component.
use vstd::prelude::*;
use vstd::arithmetic::div_mod::lemma_basic_div;
use vstd::arithmetic::div_mod::lemma_div_is_ordered_by_denominator;
use vstd::arithmetic::div_mod::lemma_div_multiples_vanish_quotient;
use vstd::arithmetic::power2::lemma2_to64;
use vstd::arithmetic::power2::lemma_pow2_adds;
use vstd::arithmetic::power2::lemma_pow2_pos;
use vstd::arithmetic::power2::lemma_pow2_strictly_increases;
use vstd::arithmetic::power2::pow2;
use vstd::bits::lemma_u32_shr_is_div;
use crate::scalar::Scalar;

verus! {

/// The pattern of 0.999, the brightest that a component is allowed to be.
pub const BRIGHTEST_BITS: u32 = 0x3f7f_be77;

/// `target` held to the interval from `min` to `max`: `min` where `target`
/// is below it, else `max` where `target` is above it, else `target` itself
/// (so a NaN passes through).
pub open spec fn clamped(target: Scalar, min: Scalar, max: Scalar) -> Scalar {
    if target.below(min) {
        min
    } else if target.above(max) {
        max
    } else {
        target
    }
}

/// The level of a component: 256 times the component held to the range from
/// 0 to 0.999, cut off to a whole number. A NaN has level 0.
pub open spec fn level_of(component: Scalar) -> int {
    let held = clamped(component, Scalar::zero(), Scalar { bits: BRIGHTEST_BITS });
    if held.nan() {
        0
    } else {
        (256 * held.scaled()) / (pow2(149) as int)
    }
}

/// Holds `target` to the interval from `min` to `max`.
pub fn clamp(target: Scalar, min: Scalar, max: Scalar) -> (r: Scalar)
    ensures
        r == clamped(target, min, max),
{
    if target.lt(min) {
        min
    } else if target.gt(max) {
        max
    } else {
        target
    }
}

/// Where `max` is not below `min`, what `clamp` returns is neither below
/// `min` nor above `max`.
pub proof fn lemma_clamped_within(target: Scalar, min: Scalar, max: Scalar)
    requires
        !max.below(min),
    ensures
        !clamped(target, min, max).below(min),
        !clamped(target, min, max).above(max),
{
}

/// A number from zero to 0.999 has a shift of at most 125 and a significand
/// below `2^24`; a zero has significand 0.
proof fn lemma_held_is_small(held: Scalar)
    requires
        !held.nan(),
        !held.below(Scalar::zero()),
        !held.above(Scalar { bits: BRIGHTEST_BITS }),
    ensures
        held.shift() <= 125,
        0 <= held.significand() < 0x100_0000,
        held.scaled() == held.significand() * pow2(held.shift()),
{
    held.lemma_rank_orders(Scalar::zero());
    held.lemma_rank_orders(Scalar { bits: BRIGHTEST_BITS });
    Scalar::zero().lemma_rank_orders(Scalar { bits: BRIGHTEST_BITS });
    if held.sign() {
        assert(held.magnitude() == 0);
        assert(held.size() == 0) by (nonlinear_arith)
            requires
                held.size() == 0 * pow2(0),
        ;
    }
}

/// The level of a component, from 0 to 255.
pub fn channel(component: Scalar) -> (level: usize)
    ensures
        level == level_of(component),
        level < 256,
{
    let held = clamp(component, Scalar::zero(), Scalar::from_bits(BRIGHTEST_BITS));
    if held.is_nan() {
        return 0;
    }
    let (significand, shift) = held.decode();
    proof {
        Scalar::zero().lemma_rank_orders(Scalar { bits: BRIGHTEST_BITS });
        lemma_clamped_within(component, Scalar::zero(), Scalar { bits: BRIGHTEST_BITS });
        lemma_held_is_small(held);
    }
    let drop: u32 = 141 - shift;
    proof {
        // 256 * scaled / 2^149 is the significand over 2^drop: both lose the factor 2^(shift + 8).
        let common: int = pow2((shift + 8) as nat) as int;
        let divisor: int = pow2(drop as nat) as int;
        lemma2_to64();
        lemma_pow2_pos((shift + 8) as nat);
        lemma_pow2_pos(drop as nat);
        lemma_pow2_adds(shift as nat, 8);
        lemma_pow2_adds((shift + 8) as nat, drop as nat);
        assert(256 * held.scaled() == common * significand) by (nonlinear_arith)
            requires
                held.scaled() == significand * pow2(shift as nat),
                common == pow2(shift as nat) * 256,
        ;
        assert(pow2(149) == common * divisor);
        lemma_div_multiples_vanish_quotient(common, significand as int, divisor);
        assert(level_of(component) == significand as int / divisor);
        // The significand has 24 bits, of which at least 16 are dropped.
        if drop > 16 {
            lemma_pow2_strictly_increases(16, drop as nat);
        }
        lemma_div_is_ordered_by_denominator(significand as int, 0x1_0000, divisor);
        if drop >= 32 {
            lemma_pow2_strictly_increases(24, drop as nat);
            lemma_basic_div(significand as int, divisor);
        } else {
            lemma_u32_shr_is_div(significand, drop);
        }
    }
    if drop >= 32 {
        0
    } else {
        (significand >> drop) as usize
    }
}

} // verus!
