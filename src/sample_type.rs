use vstd::prelude::*;
use crate::precision::{Precision, is_negative, is_positive};

verus! {

/// An output sample type: a numeric type with a least and a greatest value,
/// to which out-of-range sums saturate.
pub trait SampleType: Sized + Copy {
    spec fn spec_min_value() -> Self;

    spec fn spec_max_value() -> Self;

    fn min_value() -> (r: Self)
        ensures
            r == Self::spec_min_value(),
    ;

    fn max_value() -> (r: Self)
        ensures
            r == Self::spec_max_value(),
    ;
}

/// The sample that a sum yields, given what the plain numeric conversion of
/// the sum into the output type gave (`converted`): that value where it
/// exists; otherwise `max` for a sum greater than zero, `min` for one less
/// than zero, and no sample for a zero or NaN sum.
pub open spec fn sanitized<P: Precision, T>(sample: P, converted: Option<T>, min: T, max: T) -> Option<T> {
    match converted {
        Some(v) => Some(v),
        None => if is_positive(sample) {
            Some(max)
        } else if is_negative(sample) {
            Some(min)
        } else {
            None
        },
    }
}

/// A sum that the plain conversion cannot represent yields the output type's
/// greatest value when it is greater than zero and its least value when it is
/// less than zero (so a bias of 300 gives 255 as a `u8`, and one of -300
/// gives 0); a sum that it can represent is passed on unchanged.
pub proof fn lemma_saturation<P: Precision, T: SampleType>(sample: P, converted: Option<T>)
    ensures
        converted is None && is_positive(sample) ==> sanitized(
            sample,
            converted,
            T::spec_min_value(),
            T::spec_max_value(),
        ) == Some(T::spec_max_value()),
        converted is None && is_negative(sample) ==> sanitized(
            sample,
            converted,
            T::spec_min_value(),
            T::spec_max_value(),
        ) == Some(T::spec_min_value()),
        converted is Some ==> sanitized(sample, converted, T::spec_min_value(), T::spec_max_value())
            == converted,
{
}

/// Saturating narrowing with explicit bounds of the output type.
pub fn saturate<P: Precision, T>(sample: P, converted: Option<T>, min: T, max: T) -> (r: Option<T>)
    ensures
        r == sanitized(sample, converted, min, max),
{
    match converted {
        Some(v) => Some(v),
        None => {
            if sample.is_nan() || sample.is_zero() {
                None
            } else if sample.is_sign_positive() {
                Some(max)
            } else {
                Some(min)
            }
        },
    }
}

/// Saturating narrowing of a calculation-precision sum into the output type `T`,
/// clamping to `T`'s bounds.
pub fn into_target_type_sanitized<P: Precision, T: SampleType>(sample: P, converted: Option<T>) -> (r: Option<T>)
    ensures
        r == sanitized(sample, converted, T::spec_min_value(), T::spec_max_value()),
{
    saturate(sample, converted, T::min_value(), T::max_value())
}

impl SampleType for u8 {
    open spec fn spec_min_value() -> Self {
        u8::MIN
    }

    open spec fn spec_max_value() -> Self {
        u8::MAX
    }

    fn min_value() -> (r: Self) {
        u8::MIN
    }

    fn max_value() -> (r: Self) {
        u8::MAX
    }
}

impl SampleType for i8 {
    open spec fn spec_min_value() -> Self {
        i8::MIN
    }

    open spec fn spec_max_value() -> Self {
        i8::MAX
    }

    fn min_value() -> (r: Self) {
        i8::MIN
    }

    fn max_value() -> (r: Self) {
        i8::MAX
    }
}

impl SampleType for u16 {
    open spec fn spec_min_value() -> Self {
        u16::MIN
    }

    open spec fn spec_max_value() -> Self {
        u16::MAX
    }

    fn min_value() -> (r: Self) {
        u16::MIN
    }

    fn max_value() -> (r: Self) {
        u16::MAX
    }
}

impl SampleType for i16 {
    open spec fn spec_min_value() -> Self {
        i16::MIN
    }

    open spec fn spec_max_value() -> Self {
        i16::MAX
    }

    fn min_value() -> (r: Self) {
        i16::MIN
    }

    fn max_value() -> (r: Self) {
        i16::MAX
    }
}

impl SampleType for u32 {
    open spec fn spec_min_value() -> Self {
        u32::MIN
    }

    open spec fn spec_max_value() -> Self {
        u32::MAX
    }

    fn min_value() -> (r: Self) {
        u32::MIN
    }

    fn max_value() -> (r: Self) {
        u32::MAX
    }
}

impl SampleType for i32 {
    open spec fn spec_min_value() -> Self {
        i32::MIN
    }

    open spec fn spec_max_value() -> Self {
        i32::MAX
    }

    fn min_value() -> (r: Self) {
        i32::MIN
    }

    fn max_value() -> (r: Self) {
        i32::MAX
    }
}

impl SampleType for u64 {
    open spec fn spec_min_value() -> Self {
        u64::MIN
    }

    open spec fn spec_max_value() -> Self {
        u64::MAX
    }

    fn min_value() -> (r: Self) {
        u64::MIN
    }

    fn max_value() -> (r: Self) {
        u64::MAX
    }
}

impl SampleType for i64 {
    open spec fn spec_min_value() -> Self {
        i64::MIN
    }

    open spec fn spec_max_value() -> Self {
        i64::MAX
    }

    fn min_value() -> (r: Self) {
        i64::MIN
    }

    fn max_value() -> (r: Self) {
        i64::MAX
    }
}

} // verus!
