use pathtracer::integrator::NEAREST_BITS;
use pathtracer::scalar::Scalar;
use pathtracer::scalar::FRACTIONS;
use pathtracer::scalar::INFINITY_BITS;
use pathtracer::scalar::ONE_BITS;
use pathtracer::scalar::SIGN_BIT;

fn s(x: f32) -> Scalar {
    Scalar::from_bits(x.to_bits())
}

fn samples() -> Vec<f32> {
    vec![
        0.0,
        -0.0,
        1.0,
        -1.0,
        0.001,
        -0.001,
        0.5,
        2.0,
        1.0e-45,
        -1.0e-45,
        1.0e-40,
        1.0e38,
        -1.0e38,
        f32::MIN_POSITIVE,
        -f32::MIN_POSITIVE,
        f32::MAX,
        f32::MIN,
        f32::INFINITY,
        f32::NEG_INFINITY,
        f32::NAN,
        -f32::NAN,
        f32::EPSILON,
        0.999,
        3.25,
        -3.25,
        16777216.0,
        0.1,
    ]
}

#[test]
fn order_agrees_with_the_hardware() {
    for &a in samples().iter() {
        for &b in samples().iter() {
            assert_eq!(s(a).lt(s(b)), a < b, "{} < {}", a, b);
            assert_eq!(s(a).gt(s(b)), a > b, "{} > {}", a, b);
            assert_eq!(s(a).ge(s(b)), a >= b, "{} >= {}", a, b);
        }
    }
}

#[test]
fn order_agrees_with_the_hardware_on_neighbouring_patterns() {
    let mut bits: u32 = 0;
    for step in 0..4000u32 {
        let a = f32::from_bits(bits);
        let b = f32::from_bits(bits.wrapping_add(1));
        let c = f32::from_bits(bits ^ SIGN_BIT);
        assert_eq!(s(a).lt(s(b)), a < b, "{:#x}", bits);
        assert_eq!(s(b).lt(s(a)), b < a, "{:#x}", bits);
        assert_eq!(s(a).lt(s(c)), a < c, "{:#x}", bits);
        assert_eq!(s(c).lt(s(a)), c < a, "{:#x}", bits);
        assert_eq!(s(a).ge(s(c)), a >= c, "{:#x}", bits);
        bits = bits.wrapping_add(0x0010_4a7f).wrapping_mul(3).wrapping_add(step);
    }
}

#[test]
fn nan_is_told_apart_from_numbers() {
    for &a in samples().iter() {
        assert_eq!(s(a).is_nan(), a.is_nan(), "{}", a);
        assert_eq!(s(a).is_sign_negative(), a.is_sign_negative(), "{}", a);
    }
    assert!(!Scalar::from_bits(INFINITY_BITS).is_nan());
    assert!(Scalar::from_bits(INFINITY_BITS + 1).is_nan());
    assert!(Scalar::from_bits(0xffff_ffff).is_nan());
    assert!(!Scalar::from_bits(0xff80_0000).is_nan());
}

#[test]
fn nan_is_never_ordered() {
    let nan = s(f32::NAN);
    for &a in samples().iter() {
        assert!(!nan.lt(s(a)));
        assert!(!nan.gt(s(a)));
        assert!(!nan.ge(s(a)));
        assert!(!s(a).lt(nan));
        assert!(!s(a).gt(nan));
        assert!(!s(a).ge(nan));
    }
}

#[test]
fn the_two_zeros_are_equal() {
    let plus = s(0.0);
    let minus = s(-0.0);
    assert_ne!(plus.to_bits(), minus.to_bits());
    assert!(!plus.lt(minus));
    assert!(!minus.lt(plus));
    assert!(plus.ge(minus));
    assert!(minus.ge(plus));
}

#[test]
fn negation_flips_only_the_sign() {
    for &a in samples().iter() {
        assert_eq!(s(a).neg().to_bits(), (-a).to_bits(), "{}", a);
        assert_eq!(s(a).neg().to_bits(), a.to_bits() ^ SIGN_BIT);
        assert_eq!(s(a).neg().neg().to_bits(), a.to_bits());
    }
}

#[test]
fn constants_are_the_patterns_of_their_numbers() {
    assert_eq!(Scalar::zero().to_bits(), 0.0f32.to_bits());
    assert_eq!(Scalar::one().to_bits(), 1.0f32.to_bits());
    assert_eq!(Scalar::infinity().to_bits(), f32::INFINITY.to_bits());
    assert_eq!(ONE_BITS, 1.0f32.to_bits());
    assert_eq!(INFINITY_BITS, f32::INFINITY.to_bits());
    assert_eq!(SIGN_BIT, (-0.0f32).to_bits());
    assert_eq!(FRACTIONS, 1 << 23);
    assert_eq!(NEAREST_BITS, 0.001f32.to_bits());
}

#[test]
fn from_bits_and_to_bits_are_inverse() {
    for &bits in [0u32, 1, 0x3f80_0000, 0x7f80_0000, 0x8000_0000, 0xffff_ffff, 0x3a83_126f].iter() {
        assert_eq!(Scalar::from_bits(bits).to_bits(), bits);
        assert_eq!(Scalar::from_bits(bits).bits, bits);
    }
}

#[test]
fn decode_gives_the_number() {
    for &a in samples().iter() {
        if !a.is_finite() {
            continue;
        }
        let (significand, shift) = s(a).decode();
        let value = significand as f64 * 2.0f64.powi(shift as i32 - 149);
        assert_eq!(value, a.abs() as f64, "{}", a);
    }
    assert_eq!(s(1.0).decode(), (1 << 23, 126));
    assert_eq!(s(0.0).decode(), (0, 0));
    assert_eq!(s(1.0e-45).decode(), (1, 0));
    assert_eq!(s(f32::MIN_POSITIVE).decode(), (1 << 23, 0));
    assert_eq!(s(f32::MAX).decode(), ((1 << 24) - 1, 253));
    assert_eq!(s(-1.5).decode(), (3 << 22, 126));
}
