use vstd::prelude::*;

verus! {

/// A sampling rate that is not a normal, positive number, as reported when
/// a waveform cannot be built with it (see `SamplingRate::is_sane`).
#[derive(Clone, Copy, Debug, PartialEq, Eq, Structural)]
pub struct InvalidSampleRate<P> {
    pub value: P,
}

/// The parameter of a periodic function that failed validation.
#[derive(Clone, Copy, Debug, PartialEq, Eq, Structural)]
pub enum InvalidParameter {
    /// Not a normal, positive number.
    Frequency,
    /// NaN, or below zero.
    Amplitude,
    /// NaN or infinite.
    Phase,
}

} // verus!
