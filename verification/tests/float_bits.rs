use pvz_rust::float_bits::{F32Bits, F64Bits};

fn f32_samples() -> Vec<f32> {
    vec![
        0.0,
        -0.0,
        1.0,
        -1.0,
        0.5,
        0.667,
        0.333,
        -0.25,
        1.0e-40,
        -1.0e-40,
        f32::MIN_POSITIVE,
        f32::MAX,
        f32::MIN,
        f32::INFINITY,
        f32::NEG_INFINITY,
        f32::NAN,
        -f32::NAN,
    ]
}

fn f64_samples() -> Vec<f64> {
    vec![
        0.0,
        -0.0,
        1.0,
        -1.0,
        4.7,
        5.0,
        7.5,
        -3.25,
        1.0e-310,
        f64::MAX,
        f64::MIN,
        f64::INFINITY,
        f64::NEG_INFINITY,
        f64::NAN,
    ]
}

#[test]
fn f32_comparisons_match_hardware() {
    for a in f32_samples() {
        let ba = F32Bits(a.to_bits());
        assert_eq!(ba.is_nan(), a.is_nan(), "is_nan {a}");
        assert_eq!(ba.is_finite(), a.is_finite(), "is_finite {a}");
        for b in f32_samples() {
            let bb = F32Bits(b.to_bits());
            assert_eq!(ba.less_than(&bb), a < b, "{a} < {b}");
            assert_eq!(ba.at_most(&bb), a <= b, "{a} <= {b}");
            assert_eq!(ba.equals(&bb), a == b, "{a} == {b}");
            assert_eq!(ba.greater_than(&bb), a > b, "{a} > {b}");
            assert_eq!(ba.at_least(&bb), a >= b, "{a} >= {b}");
        }
    }
}

#[test]
fn f64_comparisons_match_hardware() {
    for a in f64_samples() {
        let ba = F64Bits(a.to_bits());
        assert_eq!(ba.is_nan(), a.is_nan(), "is_nan {a}");
        for b in f64_samples() {
            let bb = F64Bits(b.to_bits());
            assert_eq!(ba.less_than(&bb), a < b, "{a} < {b}");
            assert_eq!(ba.at_most(&bb), a <= b, "{a} <= {b}");
            assert_eq!(ba.equals(&bb), a == b, "{a} == {b}");
            assert_eq!(ba.greater_than(&bb), a > b, "{a} > {b}");
        }
    }
}

#[test]
fn float_constants_are_the_ieee_patterns() {
    assert_eq!(F32Bits::zero(), F32Bits(0.0f32.to_bits()));
    assert_eq!(F32Bits::one(), F32Bits(1.0f32.to_bits()));
    assert_eq!(F64Bits::zero(), F64Bits(0.0f64.to_bits()));
}

#[test]
fn signed_zeros_compare_equal() {
    let pos = F32Bits(0.0f32.to_bits());
    let neg = F32Bits((-0.0f32).to_bits());
    assert!(pos.equals(&neg));
    assert!(!pos.less_than(&neg));
    assert!(!neg.less_than(&pos));
}
