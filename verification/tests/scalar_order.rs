use eigencurve::rank::DEFAULT_CUTOFF_BITS;
use eigencurve::Scalar;

fn s(v: f32) -> Scalar {
    Scalar::from_bits(v.to_bits())
}

fn probes() -> Vec<f32> {
    vec![
        0.0,
        -0.0,
        1.0,
        -1.0,
        1e-10,
        -1e-10,
        9.9e-11,
        1.1e-10,
        f32::MIN_POSITIVE,
        -f32::MIN_POSITIVE,
        f32::from_bits(1),
        f32::from_bits(0x8000_0001),
        f32::MAX,
        f32::MIN,
        f32::INFINITY,
        f32::NEG_INFINITY,
        f32::NAN,
        f32::from_bits(0xffc0_0001),
        f32::from_bits(0x7f80_0001),
        3.5,
        -3.5,
        1234.5678,
        -0.000123,
    ]
}

#[test]
fn bits_round_trip() {
    for bits in [0u32, 1, 0x3f80_0000, 0x7fc0_0000, 0x8000_0000, u32::MAX] {
        assert_eq!(Scalar::from_bits(bits).to_bits(), bits);
        assert_eq!(Scalar::from_bits(bits).bits, bits);
    }
}

#[test]
fn greater_than_agrees_with_the_hardware_on_every_pair() {
    let values = probes();
    for a in &values {
        for b in &values {
            assert_eq!(s(*a).greater_than(s(*b)), *a > *b, "{:?} > {:?}", a, b);
        }
    }
}

#[test]
fn greater_than_agrees_with_the_hardware_on_a_sweep_of_patterns() {
    // A fixed walk through the patterns, dense enough to meet every class:
    // zeros, subnormals, normals, infinities and NaNs of both signs.
    let mut x: u32 = 0x1234_5678;
    let mut patterns: Vec<u32> = vec![0, 0x8000_0000, 0x7f80_0000, 0xff80_0000, 0x7f7f_ffff];
    for _ in 0..400 {
        x = x.wrapping_mul(1_664_525).wrapping_add(1_013_904_223);
        patterns.push(x);
        patterns.push(x & 0x807f_ffff);
        patterns.push(x | 0x7f80_0000);
    }
    for a in &patterns {
        for b in &patterns {
            let (fa, fb) = (f32::from_bits(*a), f32::from_bits(*b));
            assert_eq!(
                Scalar::from_bits(*a).greater_than(Scalar::from_bits(*b)),
                fa > fb,
                "{:#x} > {:#x}",
                a,
                b
            );
        }
    }
}

#[test]
fn greater_than_is_false_against_a_nan() {
    assert!(!s(f32::NAN).greater_than(s(0.0)));
    assert!(!s(1.0).greater_than(s(f32::NAN)));
    assert!(!s(f32::NAN).greater_than(s(f32::NAN)));
}

#[test]
fn the_two_zeros_are_equal_in_order() {
    assert!(!s(0.0).greater_than(s(-0.0)));
    assert!(!s(-0.0).greater_than(s(0.0)));
    assert!(s(f32::from_bits(1)).greater_than(s(-0.0)));
}

#[test]
fn negative_numbers_order_by_falling_magnitude() {
    assert!(s(-1.0).greater_than(s(-2.0)));
    assert!(!s(-2.0).greater_than(s(-1.0)));
    assert!(s(-2.0).greater_than(s(f32::NEG_INFINITY)));
}

#[test]
fn default_cutoff_is_one_part_in_ten_billion() {
    assert_eq!(DEFAULT_CUTOFF_BITS, 1e-10f32.to_bits());
    let cutoff = Scalar::from_bits(DEFAULT_CUTOFF_BITS);
    assert!(!cutoff.greater_than(cutoff));
    assert!(s(1.1e-10).greater_than(cutoff));
    assert!(!s(9.9e-11).greater_than(cutoff));
}
