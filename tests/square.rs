use wavegen::periodic_function::square_value_at;
use wavegen::precision::floor_is_even;
use wavegen::{Double, Precision, Single};

fn double(x: f64) -> Double {
    Double { bits: x.to_bits() }
}

fn single(x: f32) -> Single {
    Single { bits: x.to_bits() }
}

fn values() -> Vec<f64> {
    vec![
        0.0, -0.0, 0.25, 0.5, 0.999, 1.0, 1.5, 1.999, 2.0, 2.5, 3.0, 7.25, -0.25, -0.5, -1.0,
        -1.5, -2.0, -2.5, -3.0, -7.25, 1e-300, -1e-300, 5e-324, -5e-324, 1e15 + 1.0, 1e15 + 0.5,
        -(1e15 + 0.5), 4503599627370495.5, -4503599627370495.5, 9007199254740991.0,
        9007199254740993.0, 1e300, -1e300, f64::MAX, f64::MIN, f64::MIN_POSITIVE,
        -f64::MIN_POSITIVE,
    ]
}

#[test]
fn floor_parity_agrees_with_std() {
    for x in values() {
        let expected = x.floor().rem_euclid(2.0) == 0.0;
        assert_eq!(expected, floor_is_even(double(x)), "{x}");
    }
    for x in values() {
        let y = x as f32;
        if y.is_finite() {
            let expected = y.floor().rem_euclid(2.0) == 0.0;
            assert_eq!(expected, floor_is_even(single(y)), "{y}");
        }
    }
}

#[test]
fn floor_parity_exact_values() {
    assert!(floor_is_even(double(0.5)));
    assert!(!floor_is_even(double(1.5)));
    assert!(!floor_is_even(double(-0.5)));
    assert!(floor_is_even(double(-1.5)));
    assert!(!floor_is_even(double(-5e-324)));
    assert!(floor_is_even(double(5e-324)));
    assert!(!floor_is_even(single(3.0)));
}

#[test]
fn square_levels_over_one_period() {
    let amplitude = double(1.0);
    for t in [0.0, 0.1, 0.2, 0.3, 0.4] {
        let x = 2.0 * t * 1.0;
        assert_eq!(Some(double(1.0)), square_value_at(amplitude, double(x)), "{t}");
    }
    for t in [0.5, 0.6, 0.7, 0.8, 0.9] {
        let x = 2.0 * t * 1.0;
        assert_eq!(Some(double(-1.0)), square_value_at(amplitude, double(x)), "{t}");
    }
}

#[test]
fn square_with_phase_shift() {
    let amplitude = single(3.0);
    // phase of a quarter second at one hertz
    let x = |t: f32| 2.0 * (t - 0.25) * 1.0;
    assert_eq!(Some(single(-3.0)), square_value_at(amplitude, single(x(0.0))));
    assert_eq!(Some(single(3.0)), square_value_at(amplitude, single(x(0.25))));
    assert_eq!(Some(single(-3.0)), square_value_at(amplitude, single(x(0.8))));
}

#[test]
fn square_at_non_finite_positions() {
    let amplitude = double(2.0);
    assert_eq!(Some(amplitude), square_value_at(amplitude, double(f64::INFINITY)));
    assert_eq!(Some(amplitude), square_value_at(amplitude, double(f64::NEG_INFINITY)));
    assert_eq!(None, square_value_at(amplitude, double(f64::NAN)));
    let inf = double(f64::INFINITY);
    assert_eq!(Some(double(f64::NEG_INFINITY)), square_value_at(inf, double(1.0)));
}

#[test]
fn negation_flips_the_sign_only() {
    assert_eq!(double(-2.5), double(2.5).negate());
    assert_eq!(double(0.0), double(-0.0).negate());
    assert_eq!(single(f32::NEG_INFINITY), single(f32::INFINITY).negate());
}

#[test]
fn square_of_high_frequency() {
    // frequency u32::MAX, amplitude 1, phase 0, sampled at t = 1
    let x = 2.0 * (1.0 - 0.0) * f64::from(u32::MAX);
    let r = square_value_at(double(1.0), double(x));
    assert_eq!(Some(double(1.0)), r);
    assert!(f64::from_bits(r.unwrap().bits).is_finite());
}
