use vstd::prelude::*;
use crate::periodic_function::PeriodicFunction;
use crate::precision::{Precision, is_finite, is_zero};
use crate::sampling_rate::{SamplingRate, is_valid_rate};

verus! {

/// A sampling rate and the ordered components whose values are summed into
/// one signal.
pub struct Waveform<P: Precision, F> {
    sample_rate: SamplingRate<P>,
    components: Vec<PeriodicFunction<P, F>>,
}

impl<P: Precision, F> Waveform<P, F> {
    pub closed spec fn spec_sample_rate(self) -> P {
        self.sample_rate@
    }

    pub closed spec fn spec_components(self) -> Seq<PeriodicFunction<P, F>> {
        self.components@
    }

    /// An empty waveform. The rate must be a normal, positive number
    /// (`SamplingRate::is_sane` tests it).
    pub fn new(sample_rate: P) -> (r: Self)
        requires
            is_valid_rate(sample_rate),
        ensures
            r.spec_sample_rate() == sample_rate,
            r.spec_components() == Seq::<PeriodicFunction<P, F>>::empty(),
    {
        Self::with_components(sample_rate, Vec::new())
    }

    /// A waveform of the given components. The rate must be a normal,
    /// positive number (`SamplingRate::is_sane` tests it).
    pub fn with_components(sample_rate: P, components: Vec<PeriodicFunction<P, F>>) -> (r: Self)
        requires
            is_valid_rate(sample_rate),
        ensures
            r.spec_sample_rate() == sample_rate,
            r.spec_components() == components@,
    {
        Waveform { sample_rate: SamplingRate::from_valid(sample_rate), components }
    }

    /// Appends a component; the rate is kept.
    pub fn add_component(&mut self, component: PeriodicFunction<P, F>)
        ensures
            final(self).spec_sample_rate() == old(self).spec_sample_rate(),
            final(self).spec_components() == old(self).spec_components().push(component),
    {
        self.components.push(component);
    }

    /// The sampling rate, which is always a normal, positive number.
    pub fn sample_rate(&self) -> (r: P)
        ensures
            r == self.spec_sample_rate(),
            is_valid_rate(r),
    {
        self.sample_rate.value()
    }

    pub fn components(&self) -> (r: &Vec<PeriodicFunction<P, F>>)
        ensures
            r@ == self.spec_components(),
    {
        &self.components
    }

    pub fn get_components_len(&self) -> (r: usize)
        ensures
            r == self.spec_components().len(),
    {
        self.components.len()
    }

    /// A sampling cursor at time zero.
    pub fn iter(&self) -> (r: WaveformIterator<'_, P, F>)
        ensures
            *r.spec_waveform() == *self,
            is_zero(r.spec_time()),
            !r.spec_time().sign(),
    {
        WaveformIterator { inner: self, time: P::zero() }
    }
}

/// The time that a cursor moves to when it advances: `advanced` (the current
/// time plus the steps) where that is finite; otherwise `wrapped`, the
/// current time folded back below the format's largest value.
pub open spec fn next_time<P: Precision>(advanced: P, wrapped: P) -> P {
    if is_finite(advanced) {
        advanced
    } else {
        wrapped
    }
}

/// A sampling cursor: a waveform and the elapsed time of the next sample.
pub struct WaveformIterator<'a, P: Precision, F> {
    inner: &'a Waveform<P, F>,
    time: P,
}

impl<'a, P: Precision, F> Clone for WaveformIterator<'a, P, F> {
    fn clone(&self) -> (r: Self)
        ensures
            r == *self,
    {
        WaveformIterator { inner: self.inner, time: self.time }
    }
}

impl<'a, P: Precision, F> Copy for WaveformIterator<'a, P, F> {}

impl<'a, P: Precision, F> WaveformIterator<'a, P, F> {
    pub closed spec fn spec_waveform(self) -> &'a Waveform<P, F> {
        self.inner
    }

    pub closed spec fn spec_time(self) -> P {
        self.time
    }

    pub fn waveform(&self) -> (r: &'a Waveform<P, F>)
        ensures
            r == self.spec_waveform(),
    {
        self.inner
    }

    /// The elapsed time of the next sample.
    pub fn time(&self) -> (r: P)
        ensures
            r == self.spec_time(),
    {
        self.time
    }

    /// Moves the cursor on: to `advanced` where it is finite, else to
    /// `wrapped`.
    pub fn increment_time(&mut self, advanced: P, wrapped: P)
        ensures
            final(self).spec_waveform() == old(self).spec_waveform(),
            final(self).spec_time() == next_time(advanced, wrapped),
    {
        if advanced.is_finite() {
            self.time = advanced;
        } else {
            self.time = wrapped;
        }
    }

    /// The cursor announces an unbounded number of samples.
    pub fn size_hint(&self) -> (r: (usize, Option<usize>))
        ensures
            r == (usize::MAX, None::<usize>),
    {
        (usize::MAX, None)
    }
}

} // verus!
