use vstd::prelude::*;
use crate::errors::InvalidParameter;
use crate::precision::{
    Precision, floor_is_even, floor_of, is_finite, is_infinite, is_nan, is_negative, is_normal, is_zero,
};
use vstd::arithmetic::div_mod::lemma_fundamental_div_mod_converse;

verus! {

/// One additive component of a waveform: a pure map from elapsed time to an
/// amplitude contribution.
///
/// `Sine` is `amplitude * sin(2π·frequency·t + 2π·phase)` (phase in cycles);
/// `Square` is `amplitude * (-1)^floor(2·(t - phase)·frequency)` (phase in
/// seconds); `Sawtooth` is `2·amplitude·frac(t·frequency + phase) - amplitude`
/// (phase in cycles); `Bias` is `value` at every time; `Custom` is a map of the
/// caller's own.
#[derive(Clone, Copy, Debug)]
pub enum PeriodicFunction<P, F> {
    Sine { frequency: P, amplitude: P, phase: P },
    Square { frequency: P, amplitude: P, phase: P },
    Sawtooth { frequency: P, amplitude: P, phase: P },
    Bias { value: P },
    Custom { f: F },
}

/// The frequency of a canonical kind is a normal number of positive sign.
pub open spec fn valid_frequency<P: Precision>(frequency: P) -> bool {
    is_normal(frequency) && !frequency.sign()
}

/// The amplitude of a canonical kind is not NaN and not below zero (a zero of
/// either sign is accepted).
pub open spec fn valid_amplitude<P: Precision>(amplitude: P) -> bool {
    !is_nan(amplitude) && (!amplitude.sign() || is_zero(amplitude))
}

/// The phase of a canonical kind is finite (so not NaN).
pub open spec fn valid_phase<P: Precision>(phase: P) -> bool {
    is_finite(phase)
}

/// The first parameter, in the order frequency, amplitude, phase, that fails
/// validation.
pub open spec fn params_error<P: Precision>(frequency: P, amplitude: P, phase: P) -> Option<
    InvalidParameter,
> {
    if !valid_frequency(frequency) {
        Some(InvalidParameter::Frequency)
    } else if !valid_amplitude(amplitude) {
        Some(InvalidParameter::Amplitude)
    } else if !valid_phase(phase) {
        Some(InvalidParameter::Phase)
    } else {
        None
    }
}

/// The parameters of a sine, square or sawtooth are invalid for a frequency that is
/// zero, negative, NaN or infinite; for an amplitude that is NaN or negative;
/// and for a phase that is NaN or infinite: no such function can be built
/// from them. An amplitude of zero, of either sign, is accepted.
pub proof fn lemma_rejected_params<P: Precision>(frequency: P, amplitude: P, phase: P)
    ensures
        (is_zero(frequency) || frequency.sign() || is_nan(frequency) || is_infinite(frequency))
            ==> params_error(frequency, amplitude, phase) == Some(InvalidParameter::Frequency),
        valid_frequency(frequency) && (is_nan(amplitude) || is_negative(amplitude)) ==> params_error(
            frequency,
            amplitude,
            phase,
        ) == Some(InvalidParameter::Amplitude),
        valid_frequency(frequency) && valid_amplitude(amplitude) && (is_nan(phase) || is_infinite(
            phase,
        )) ==> params_error(frequency, amplitude, phase) == Some(InvalidParameter::Phase),
        (is_zero(frequency) || frequency.sign() || is_nan(frequency) || is_infinite(frequency)
            || is_nan(amplitude) || is_negative(amplitude) || is_nan(phase) || is_infinite(phase))
            ==> params_error(frequency, amplitude, phase) is Some,
        valid_frequency(frequency) && is_zero(amplitude) && valid_phase(phase) ==> params_error(
            frequency,
            amplitude,
            phase,
        ) is None,
{
}

/// The value of a square wave of the given amplitude at the position
/// `x = 2·(t - phase)·frequency`, that is `amplitude * (-1)^floor(x)`:
/// `amplitude` where `floor(x)` is even, `-amplitude` where it is odd. An
/// infinite position raises `-1` to an infinite power, which is `1`; a NaN
/// position gives a NaN value (`None`).
pub open spec fn square_value<P: Precision>(amplitude: P, x: P) -> Option<P> {
    if is_nan(x) {
        None
    } else if is_infinite(x) || floor_of(x) % 2 == 0 {
        Some(amplitude)
    } else {
        Some(amplitude.negated())
    }
}

/// `amplitude * (-1)^floor(x)`, with `None` for a NaN result.
pub fn square_value_at<P: Precision>(amplitude: P, x: P) -> (r: Option<P>)
    ensures
        r == square_value(amplitude, x),
{
    if x.is_nan() {
        None
    } else if !x.is_finite() || floor_is_even(x) {
        Some(amplitude)
    } else {
        Some(amplitude.negate())
    }
}

/// A square wave is exactly `+amplitude` over the first half of each period
/// (positions `x` in `[2p, 2p + 1)`) and exactly `-amplitude` over the second
/// half (`[2p + 1, 2p + 2)`), where `x = 2·(t - phase)·frequency` counts half
/// periods.
pub proof fn lemma_square_halves<P: Precision>(amplitude: P, x: P, p: int)
    requires
        is_finite(x),
    ensures
        floor_of(x) == 2 * p ==> square_value(amplitude, x) == Some(amplitude),
        floor_of(x) == 2 * p + 1 ==> square_value(amplitude, x) == Some(amplitude.negated()),
        amplitude.negated().sign() != amplitude.sign(),
{
    P::lemma_negated(amplitude);
    lemma_fundamental_div_mod_converse(2 * p, 2, p, 0);
    lemma_fundamental_div_mod_converse(2 * p + 1, 2, p, 1);
}

/// Validates the parameters of a canonical kind: a caller tests them here
/// before it builds a sine, square or sawtooth, whose parameters must be
/// valid.
pub fn validate_periodic_params<P: Precision>(frequency: P, amplitude: P, phase: P) -> (r: Result<
    (),
    InvalidParameter,
>)
    ensures
        r is Ok <==> params_error(frequency, amplitude, phase) is None,
        r matches Err(e) ==> params_error(frequency, amplitude, phase) == Some(e),
{
    if !(frequency.is_normal() && frequency.is_sign_positive()) {
        return Err(InvalidParameter::Frequency);
    }
    if amplitude.is_nan() || (amplitude.is_sign_negative() && !amplitude.is_zero()) {
        return Err(InvalidParameter::Amplitude);
    }
    if !phase.is_finite() {
        return Err(InvalidParameter::Phase);
    }
    Ok(())
}

impl<P: Precision, F> PeriodicFunction<P, F> {
    /// Wraps a map of the caller's own.
    pub fn new(f: F) -> (r: Self)
        ensures
            r == (PeriodicFunction::<P, F>::Custom { f }),
    {
        PeriodicFunction::Custom { f }
    }

    /// Wraps a map of the caller's own; the same as `new`.
    pub fn custom(f: F) -> (r: Self)
        ensures
            r == (PeriodicFunction::<P, F>::Custom { f }),
    {
        Self::new(f)
    }

    /// A constant function; every value is accepted, NaN and infinities too.
    pub fn dc_bias(value: P) -> (r: Self)
        ensures
            r == (PeriodicFunction::<P, F>::Bias { value }),
    {
        PeriodicFunction::Bias { value }
    }

    /// A sawtooth, ramping from `-amplitude` to `+amplitude` once per period.
    pub fn sawtooth(frequency: P, amplitude: P, phase: P) -> (r: Self)
        requires
            params_error(frequency, amplitude, phase) is None,
        ensures
            r == (PeriodicFunction::<P, F>::Sawtooth { frequency, amplitude, phase }),
    {
        PeriodicFunction::Sawtooth { frequency, amplitude, phase }
    }

    /// A sine of the given frequency, amplitude and phase (in cycles).
    pub fn sine(frequency: P, amplitude: P, phase: P) -> (r: Self)
        requires
            params_error(frequency, amplitude, phase) is None,
        ensures
            r == (PeriodicFunction::<P, F>::Sine { frequency, amplitude, phase }),
    {
        PeriodicFunction::Sine { frequency, amplitude, phase }
    }

    /// A square wave, `+amplitude` for the first half of each period and
    /// `-amplitude` for the second.
    pub fn square(frequency: P, amplitude: P, phase: P) -> (r: Self)
        requires
            params_error(frequency, amplitude, phase) is None,
        ensures
            r == (PeriodicFunction::<P, F>::Square { frequency, amplitude, phase }),
    {
        PeriodicFunction::Square { frequency, amplitude, phase }
    }

    /// The caller's map, for a custom function.
    pub fn inner(&self) -> (r: Option<&F>)
        ensures
            r == (match self {
                PeriodicFunction::Custom { f } => Some(f),
                _ => None,
            }),
    {
        match self {
            PeriodicFunction::Custom { f } => Some(f),
            _ => None,
        }
    }

    /// The value of a constant function, which does not depend on the time.
    pub fn constant_value(&self) -> (r: Option<P>)
        ensures
            r == (match *self {
                PeriodicFunction::Bias { value } => Some(value),
                _ => None,
            }),
    {
        match self {
            PeriodicFunction::Bias { value } => Some(*value),
            _ => None,
        }
    }
}

} // verus!
