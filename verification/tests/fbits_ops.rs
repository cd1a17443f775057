use mesh_dedup::fbits::{abs_bits, add_bits, div_bits, gt_bits, lt_bits, mul_bits, sub_bits, trunc_bits};

fn samples() -> Vec<f32> {
    vec![
        0.0,
        -0.0,
        1.0,
        -1.0,
        1.5,
        -2.25,
        0.1,
        1000000.0,
        -3.5e-7,
        f32::MIN_POSITIVE,
        f32::MAX,
        f32::MIN,
        f32::INFINITY,
        f32::NEG_INFINITY,
        f32::NAN,
    ]
}

#[test]
fn lt_bits_matches_f32_less_than() {
    for &a in &samples() {
        for &b in &samples() {
            assert_eq!(
                lt_bits(a.to_bits(), b.to_bits()),
                a < b,
                "lt mismatch for {a} < {b}"
            );
        }
    }
}

#[test]
fn gt_bits_matches_f32_greater_than() {
    for &a in &samples() {
        for &b in &samples() {
            assert_eq!(
                gt_bits(a.to_bits(), b.to_bits()),
                a > b,
                "gt mismatch for {a} > {b}"
            );
        }
    }
}

#[test]
fn abs_bits_matches_f32_abs() {
    for &a in &samples() {
        assert_eq!(abs_bits(a.to_bits()), a.abs().to_bits(), "abs mismatch for {a}");
    }
}

#[test]
fn arithmetic_wrappers_match_f32_ops() {
    for &a in &samples() {
        for &b in &samples() {
            let add = f32::from_bits(add_bits(a.to_bits(), b.to_bits()));
            let sub = f32::from_bits(sub_bits(a.to_bits(), b.to_bits()));
            let mul = f32::from_bits(mul_bits(a.to_bits(), b.to_bits()));
            let div = f32::from_bits(div_bits(a.to_bits(), b.to_bits()));
            assert!(add == a + b || (add.is_nan() && (a + b).is_nan()));
            assert!(sub == a - b || (sub.is_nan() && (a - b).is_nan()));
            assert!(mul == a * b || (mul.is_nan() && (a * b).is_nan()));
            assert!(div == a / b || (div.is_nan() && (a / b).is_nan()));
        }
    }
}

#[test]
fn trunc_bits_matches_cast() {
    for &a in &samples() {
        assert_eq!(trunc_bits(a.to_bits()), a as i32, "trunc mismatch for {a}");
    }
    assert_eq!(trunc_bits(f32::NAN.to_bits()), 0);
    assert_eq!(trunc_bits(f32::INFINITY.to_bits()), i32::MAX);
    assert_eq!(trunc_bits(f32::NEG_INFINITY.to_bits()), i32::MIN);
    assert_eq!(trunc_bits((-2.75f32).to_bits()), -2);
    assert_eq!(trunc_bits(6.99f32.to_bits()), 6);
}
