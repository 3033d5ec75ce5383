use wavegen::periodic_function::validate_periodic_params;
use wavegen::{Double, InvalidParameter, PeriodicFunction, Single};

type Component = PeriodicFunction<Double, fn(f64) -> f64>;

fn double(x: f64) -> Double {
    Double { bits: x.to_bits() }
}

fn validate(f: Double, a: Double, p: Double) -> Result<(), InvalidParameter> {
    validate_periodic_params(f, a, p)
}

#[test]
fn canonical_kinds_keep_their_parameters() {
    let (f, a, p) = (double(440.0), double(2.5), double(0.25));
    assert!(validate(f, a, p).is_ok());
    assert!(matches!(
        PeriodicFunction::<Double, ()>::sine(f, a, p),
        PeriodicFunction::Sine { frequency, amplitude, phase } if frequency == f && amplitude == a && phase == p
    ));
    assert!(matches!(
        PeriodicFunction::<Double, ()>::square(f, a, p),
        PeriodicFunction::Square { frequency, amplitude, phase } if frequency == f && amplitude == a && phase == p
    ));
    assert!(matches!(
        PeriodicFunction::<Double, ()>::sawtooth(f, a, p),
        PeriodicFunction::Sawtooth { frequency, amplitude, phase } if frequency == f && amplitude == a && phase == p
    ));
}

#[test]
fn invalid_frequency_is_rejected() {
    for x in [0.0, -0.0, -1.0, f64::NAN, f64::INFINITY, f64::NEG_INFINITY, f64::MIN_POSITIVE / 4.0] {
        let r = validate(double(x), double(1.0), double(0.0));
        assert_eq!(Err(InvalidParameter::Frequency), r);
    }
}

#[test]
fn invalid_amplitude_is_rejected() {
    for x in [f64::NAN, -1.0, -f64::MIN_POSITIVE, -5e-324, f64::NEG_INFINITY] {
        let r = validate(double(1.0), double(x), double(0.0));
        assert_eq!(Err(InvalidParameter::Amplitude), r);
    }
}

#[test]
fn invalid_phase_is_rejected() {
    for x in [f64::NAN, f64::INFINITY, f64::NEG_INFINITY] {
        let r = validate(double(1.0), double(1.0), double(x));
        assert_eq!(Err(InvalidParameter::Phase), r);
    }
}

#[test]
fn frequency_is_validated_before_amplitude_and_phase() {
    let r = validate(double(f64::NAN), double(f64::NAN), double(f64::NAN));
    assert_eq!(Err(InvalidParameter::Frequency), r);
    let r = validate(double(1.0), double(-1.0), double(f64::NAN));
    assert_eq!(Err(InvalidParameter::Amplitude), r);
}

#[test]
fn edge_parameters_are_accepted() {
    assert!(validate(double(f64::MIN_POSITIVE), double(0.0), double(-1e300)).is_ok());
    assert!(validate(double(f64::MAX), double(f64::INFINITY), double(1e300)).is_ok());
    assert!(validate(double(1.0), double(1.0), double(-0.5)).is_ok());
    assert!(validate(double(1.0), double(-0.0), double(0.0)).is_ok());
}

#[test]
fn single_precision_parameters_are_validated_in_their_own_format() {
    let tiny = Single { bits: (f32::MIN_POSITIVE / 2.0).to_bits() };
    let one = Single { bits: 1.0f32.to_bits() };
    let zero = Single { bits: 0.0f32.to_bits() };
    assert_eq!(Err(InvalidParameter::Frequency), validate_periodic_params(tiny, one, zero));
    assert_eq!(Ok(()), validate_periodic_params(one, one, zero));
}

#[test]
fn dc_bias_accepts_any_value() {
    for x in [42.0, -300.0, 0.0, f64::INFINITY, f64::NEG_INFINITY, f64::MAX, f64::NAN] {
        let dc = PeriodicFunction::<Double, ()>::dc_bias(double(x));
        assert_eq!(Some(double(x)), dc.constant_value());
        assert!(dc.inner().is_none());
    }
}

#[test]
fn custom_wraps_the_map() {
    fn halve(x: f64) -> f64 {
        x / 2.0
    }
    let c: Component = PeriodicFunction::custom(halve as fn(f64) -> f64);
    let f = c.inner().unwrap();
    assert_eq!(2.0, f(4.0));
    assert_eq!(None, c.constant_value());
    let n: Component = PeriodicFunction::new(halve as fn(f64) -> f64);
    assert!(n.inner().is_some());
}

#[test]
fn zero_amplitude_of_either_sign_keeps_its_bits() {
    let (one, nzero, zero) = (double(1.0), double(-0.0), double(0.0));
    assert!(validate(one, nzero, zero).is_ok());
    let r = PeriodicFunction::<Double, ()>::square(one, nzero, zero);
    assert!(matches!(r, PeriodicFunction::Square { amplitude, .. } if amplitude == nzero));
    let r = PeriodicFunction::<Double, ()>::sawtooth(one, nzero, zero);
    assert!(matches!(r, PeriodicFunction::Sawtooth { amplitude, .. } if amplitude == nzero));
    assert!(validate(one, zero, zero).is_ok());
}

fn dc_bias_is_const(y: f64) {
    // a bias has no time parameter: its one value is the value at every time
    let dc = PeriodicFunction::<Double, ()>::dc_bias(double(y));
    assert_eq!(Some(double(y)), dc.constant_value());
    assert!(matches!(dc, PeriodicFunction::Bias { value } if value == double(y)));
}

#[test]
fn macros_dc_bias_is_const_for_any_input() {
    dc_bias_is_const(42.0);
}

#[test]
fn bias_dc_bias_is_const_for_any_input() {
    dc_bias_is_const(42.0);
}
