use ratio_tables::F64Bits;
use std::cmp::Ordering;

fn fb(x: f64) -> F64Bits {
    F64Bits::from_bits(x.to_bits())
}

#[test]
fn compare_agrees_with_ieee() {
    let values = [
        f64::NEG_INFINITY,
        -1e300,
        -2.5,
        -f64::MIN_POSITIVE,
        -0.0,
        0.0,
        5e-324,
        1.0,
        1.8363,
        f64::MAX,
        f64::INFINITY,
        f64::NAN,
        -f64::NAN,
    ];
    for a in values.iter() {
        for b in values.iter() {
            assert_eq!(fb(*a).compare(&fb(*b)), a.partial_cmp(b), "{} vs {}", a, b);
        }
    }
}

#[test]
fn zeros_compare_equal() {
    assert_eq!(fb(-0.0).compare(&fb(0.0)), Some(Ordering::Equal));
    assert_eq!(fb(0.0).compare_or_equal(&fb(-0.0)), Ordering::Equal);
}

#[test]
fn nan_is_unordered_and_counts_as_equal() {
    assert!(fb(f64::NAN).is_nan_value());
    assert!(!fb(f64::INFINITY).is_nan_value());
    assert_eq!(fb(f64::NAN).compare(&fb(1.0)), None);
    assert_eq!(fb(1.0).compare_or_equal(&fb(f64::NAN)), Ordering::Equal);
    assert_eq!(fb(2.0).compare_or_equal(&fb(1.0)), Ordering::Greater);
}

#[test]
fn bits_round_trip() {
    let b = fb(83.6271);
    assert_eq!(f64::from_bits(b.to_bits()), 83.6271);
    assert_eq!(b.bits, 83.6271f64.to_bits());
}
