use spreadsheet::float::{equal, greater, less, nan, INFINITY, MAX, MIN, SIGN_BIT};

fn samples() -> Vec<f64> {
    vec![
        0.0,
        -0.0,
        1.0,
        -1.0,
        0.5,
        -0.5,
        10.0,
        -10.0,
        123456.789,
        -123456.789,
        f64::MIN_POSITIVE,
        -f64::MIN_POSITIVE,
        5e-324,
        -5e-324,
        f64::MAX,
        f64::MIN,
        f64::INFINITY,
        f64::NEG_INFINITY,
        f64::NAN,
        -f64::NAN,
        f64::EPSILON,
    ]
}

#[test]
fn less_agrees_with_the_numbers() {
    for a in samples() {
        for b in samples() {
            assert_eq!(less(a.to_bits(), b.to_bits()), a < b, "{a} < {b}");
        }
    }
}

#[test]
fn greater_agrees_with_the_numbers() {
    for a in samples() {
        for b in samples() {
            assert_eq!(greater(a.to_bits(), b.to_bits()), a > b, "{a} > {b}");
        }
    }
}

#[test]
fn equal_agrees_with_the_numbers() {
    for a in samples() {
        for b in samples() {
            assert_eq!(equal(a.to_bits(), b.to_bits()), a == b, "{a} == {b}");
        }
    }
}

#[test]
fn nan_agrees_with_the_numbers() {
    for a in samples() {
        assert_eq!(nan(a.to_bits()), a.is_nan(), "{a}");
    }
}

#[test]
fn the_two_zeros_are_equal_and_neither_is_less() {
    let plus = 0.0f64.to_bits();
    let minus = (-0.0f64).to_bits();
    assert_ne!(plus, minus);
    assert!(equal(plus, minus));
    assert!(!less(plus, minus));
    assert!(!less(minus, plus));
}

#[test]
fn constants_are_the_patterns_of_the_numbers() {
    assert_eq!(MAX, f64::MAX.to_bits());
    assert_eq!(MIN, f64::MIN.to_bits());
    assert_eq!(INFINITY, f64::INFINITY.to_bits());
    assert_eq!(SIGN_BIT, (-0.0f64).to_bits());
}

#[test]
fn a_nan_compares_with_nothing() {
    let nan_bits = f64::NAN.to_bits();
    assert!(!equal(nan_bits, nan_bits));
    assert!(!less(nan_bits, 1.0f64.to_bits()));
    assert!(!greater(nan_bits, 1.0f64.to_bits()));
}
