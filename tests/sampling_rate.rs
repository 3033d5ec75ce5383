use wavegen::{Double, SamplingRate, SamplingRateValueError, Single};

#[test]
fn sampling_rate_accepts_normal_positive_values() {
    let s = SamplingRate::new(Double { bits: 44100.0f64.to_bits() });
    assert!(s.is_ok());
    assert_eq!(44100.0, f64::from_bits(s.unwrap().value().bits));
}

#[test]
fn sampling_rate_refuses_other_values() {
    for x in [f32::NAN, 0.0, -0.0, -5.0, f32::INFINITY, f32::NEG_INFINITY, 1e-40] {
        let v = Single { bits: x.to_bits() };
        assert_eq!(Some(SamplingRateValueError { value: v }), SamplingRate::new(v).err());
        assert!(!SamplingRate::is_sane(v));
    }
    assert!(SamplingRate::is_sane(Single { bits: 1.0f32.to_bits() }));
}
