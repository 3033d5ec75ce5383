use vstd::prelude::*;
use crate::precision::{Precision, is_infinite, is_nan, is_normal, is_zero};

verus! {

/// A sampling rate may be any normal number (finite, not zero, not
/// subnormal) of positive sign: its reciprocal, the time step, is then finite.
pub open spec fn is_valid_rate<P: Precision>(x: P) -> bool {
    is_normal(x) && !x.sign()
}

/// A NaN, a zero of either sign, a value of negative sign or an infinity is
/// never a sampling rate, so neither waveform constructor admits it.
pub proof fn lemma_rejected_rates<P: Precision>(x: P)
    requires
        is_nan(x) || is_zero(x) || x.sign() || is_infinite(x),
    ensures
        !is_valid_rate(x),
{
}

/// A validated sampling rate.
#[derive(Copy, Debug)]
pub struct SamplingRate<P: Precision> {
    value: P,
}

impl<P: Precision> Clone for SamplingRate<P> {
    fn clone(&self) -> (r: Self)
        ensures
            r == *self,
    {
        *self
    }
}

/// The value that a `SamplingRate` was refused with.
#[derive(Clone, Copy, Debug, PartialEq, Eq, Structural)]
pub struct SamplingRateValueError<P> {
    pub value: P,
}

impl<P: Precision> SamplingRate<P> {
    #[verifier::type_invariant]
    spec fn inv(self) -> bool {
        is_valid_rate(self.value)
    }

    pub closed spec fn view(self) -> P {
        self.value
    }

    /// Whether `x` may serve as a sampling rate.
    pub fn is_sane(x: P) -> (r: bool)
        ensures
            r == is_valid_rate(x),
    {
        x.is_normal() && x.is_sign_positive()
    }

    /// Validates `value` as a sampling rate.
    pub fn new(value: P) -> (r: Result<Self, SamplingRateValueError<P>>)
        ensures
            is_valid_rate(value) ==> (r matches Ok(s) && s@ == value),
            !is_valid_rate(value) ==> r == Err::<Self, _>(SamplingRateValueError { value }),
    {
        if !Self::is_sane(value) {
            return Err(SamplingRateValueError { value });
        }
        Ok(SamplingRate { value })
    }

    /// A sampling rate from a value known to be valid.
    pub(crate) fn from_valid(value: P) -> (r: Self)
        requires
            is_valid_rate(value),
        ensures
            r@ == value,
    {
        SamplingRate { value }
    }

    pub fn value(&self) -> (r: P)
        ensures
            r == self@,
            is_valid_rate(r),
    {
        proof {
            use_type_invariant(self);
        }
        self.value
    }
}

} // verus!
