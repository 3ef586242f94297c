use pathtracer::color::clamp;
use pathtracer::scalar::Scalar;

fn s(x: f32) -> Scalar {
    Scalar::from_bits(x.to_bits())
}

fn f(x: Scalar) -> f32 {
    f32::from_bits(x.to_bits())
}

#[test]
fn clamp_holds_a_number_to_the_range() {
    assert_eq!(f(clamp(s(-0.25), s(0.0), s(0.999))), 0.0);
    assert_eq!(f(clamp(s(1.5), s(0.0), s(0.999))), 0.999);
    assert_eq!(f(clamp(s(0.5), s(0.0), s(0.999))), 0.5);
    assert_eq!(f(clamp(s(0.0), s(0.0), s(0.999))), 0.0);
    assert_eq!(f(clamp(s(0.999), s(0.0), s(0.999))), 0.999);
    assert_eq!(f(clamp(s(f32::INFINITY), s(0.0), s(0.999))), 0.999);
    assert_eq!(f(clamp(s(f32::NEG_INFINITY), s(0.0), s(0.999))), 0.0);
}

#[test]
fn clamp_agrees_with_the_hardware() {
    let values = [-2.0f32, -1.0, -0.0, 0.0, 0.25, 0.998, 0.999, 1.0, 7.5, 1.0e-45, -1.0e-45];
    for &x in values.iter() {
        let expected = if x < 0.0 {
            0.0
        } else if x > 0.999 {
            0.999
        } else {
            x
        };
        assert_eq!(clamp(s(x), s(0.0), s(0.999)).to_bits(), expected.to_bits(), "{}", x);
    }
}

#[test]
fn clamp_lets_a_nan_through() {
    assert!(clamp(s(f32::NAN), s(0.0), s(1.0)).is_nan());
    assert_eq!(clamp(s(f32::NAN), s(0.0), s(1.0)).to_bits(), f32::NAN.to_bits());
}

#[test]
fn clamp_keeps_the_sign_of_a_zero_inside_the_range() {
    assert_eq!(clamp(s(-0.0), s(0.0), s(1.0)).to_bits(), (-0.0f32).to_bits());
}

fn by_hardware(x: f32) -> usize {
    let held = if x < 0.0 {
        0.0
    } else if x > 0.999 {
        0.999
    } else {
        x
    };
    (256.0 * held) as usize
}

#[test]
fn the_level_of_a_component_is_a_256th_part_cut_off() {
    assert_eq!(pathtracer::color::channel(s(0.0)), 0);
    assert_eq!(pathtracer::color::channel(s(-0.0)), 0);
    assert_eq!(pathtracer::color::channel(s(0.00390624)), 0);
    assert_eq!(pathtracer::color::channel(s(0.00390625)), 1);
    assert_eq!(pathtracer::color::channel(s(0.25)), 64);
    assert_eq!(pathtracer::color::channel(s(0.5)), 128);
    assert_eq!(pathtracer::color::channel(s(0.7071068)), 181);
    assert_eq!(pathtracer::color::channel(s(0.99)), 253);
    assert_eq!(pathtracer::color::channel(s(0.999)), 255);
    assert_eq!(pathtracer::color::channel(s(0.99609375)), 255);
    assert_eq!(pathtracer::color::channel(s(0.9960937)), 254);
}

#[test]
fn the_level_stays_between_0_and_255() {
    assert_eq!(pathtracer::color::channel(s(1.0)), 255);
    assert_eq!(pathtracer::color::channel(s(17.0)), 255);
    assert_eq!(pathtracer::color::channel(s(f32::MAX)), 255);
    assert_eq!(pathtracer::color::channel(s(f32::INFINITY)), 255);
    assert_eq!(pathtracer::color::channel(s(-1.0)), 0);
    assert_eq!(pathtracer::color::channel(s(f32::NEG_INFINITY)), 0);
    assert_eq!(pathtracer::color::channel(s(f32::NAN)), 0);
    assert_eq!(pathtracer::color::channel(s(-f32::NAN)), 0);
    assert_eq!(pathtracer::color::channel(s(1.0e-45)), 0);
    assert_eq!(pathtracer::color::channel(s(f32::MIN_POSITIVE)), 0);
}

#[test]
fn the_level_agrees_with_the_hardware() {
    for k in 0..=4096u32 {
        let x = k as f32 / 4096.0;
        assert_eq!(pathtracer::color::channel(s(x)), by_hardware(x), "{}", x);
        let y = (k as f32 / 1000.0 - 1.0) * 1.5;
        assert_eq!(pathtracer::color::channel(s(y)), by_hardware(y), "{}", y);
        let z = (x * x).sqrt();
        assert_eq!(pathtracer::color::channel(s(z)), by_hardware(z), "{}", z);
    }
    let mut bits: u32 = 0x3000_0000;
    while bits < 0x3f90_0000 {
        let x = f32::from_bits(bits);
        assert_eq!(pathtracer::color::channel(s(x)), by_hardware(x), "{:#x}", bits);
        assert_eq!(pathtracer::color::channel(s(-x)), 0);
        bits += 0x0000_7ff3;
    }
    for &x in [f32::NAN, f32::INFINITY, f32::NEG_INFINITY, 1.0e-45, 1.0e-40, 0.999, 0.99900007, 0.9989999].iter() {
        assert_eq!(pathtracer::color::channel(s(x)), by_hardware(x), "{}", x);
    }
}
