use vstd::prelude::*;
use vstd::arithmetic::div_mod::lemma_fundamental_div_mod_converse;
use vstd::arithmetic::power2::{lemma2_to64, lemma2_to64_rest, lemma_pow2_strictly_increases, lemma_pow2_unfold, pow2};
use vstd::bits::{lemma_u64_pow2_no_overflow, lemma_u64_shl_is_mul};

verus! {

/// A calculation-precision value, held as its IEEE-754 bit pattern.
///
/// The three fields of the encoding (sign, biased exponent, trailing
/// significand) are all that the library reads of a value: validation of
/// parameters and the sign test of a sum are decided on them alone.
pub trait Precision: Sized + Copy {
    /// The sign bit.
    spec fn sign(self) -> bool;

    /// The biased exponent field.
    spec fn exponent(self) -> nat;

    /// The trailing significand field.
    spec fn mantissa(self) -> nat;

    /// The all-ones exponent of the format (infinities and NaNs).
    spec fn exponent_max() -> nat;

    /// The width of the trailing significand field.
    spec fn mantissa_bits() -> nat;

    /// The exponent bias of the format.
    spec fn bias() -> nat;

    proof fn lemma_fields(x: Self)
        ensures
            x.mantissa() < pow2(Self::mantissa_bits()),
            0 < Self::mantissa_bits() <= 52,
            0 < Self::bias() <= 1023,
    ;

    fn mantissa_width() -> (r: u64)
        ensures
            r == Self::mantissa_bits(),
    ;

    fn exponent_bias() -> (r: u64)
        ensures
            r == Self::bias(),
    ;

    /// The value with the sign bit flipped.
    spec fn negated(self) -> Self;

    proof fn lemma_negated(x: Self)
        ensures
            x.negated().sign() != x.sign(),
            x.negated().exponent() == x.exponent(),
            x.negated().mantissa() == x.mantissa(),
    ;

    fn negate(&self) -> (r: Self)
        ensures
            r == self.negated(),
    ;

    /// The bit pattern of `+0`.
    fn zero() -> (r: Self)
        ensures
            r.exponent() == 0,
            r.mantissa() == 0,
            !r.sign(),
    ;

    fn sign_bit(&self) -> (r: bool)
        ensures
            r == self.sign(),
    ;

    fn exponent_field(&self) -> (r: u64)
        ensures
            r == self.exponent(),
            r <= Self::exponent_max(),
    ;

    fn mantissa_field(&self) -> (r: u64)
        ensures
            r == self.mantissa(),
    ;

    fn exponent_all_ones() -> (r: u64)
        ensures
            r == Self::exponent_max(),
            r > 0,
    ;

    fn is_nan(&self) -> (r: bool)
        ensures
            r == (self.exponent() == Self::exponent_max() && self.mantissa() != 0),
    {
        self.exponent_field() == Self::exponent_all_ones() && self.mantissa_field() != 0
    }

    fn is_infinite(&self) -> (r: bool)
        ensures
            r == (self.exponent() == Self::exponent_max() && self.mantissa() == 0),
    {
        self.exponent_field() == Self::exponent_all_ones() && self.mantissa_field() == 0
    }

    fn is_finite(&self) -> (r: bool)
        ensures
            r == (self.exponent() != Self::exponent_max()),
    {
        self.exponent_field() != Self::exponent_all_ones()
    }

    fn is_zero(&self) -> (r: bool)
        ensures
            r == (self.exponent() == 0 && self.mantissa() == 0),
    {
        self.exponent_field() == 0 && self.mantissa_field() == 0
    }

    fn is_normal(&self) -> (r: bool)
        ensures
            r == (self.exponent() != 0 && self.exponent() != Self::exponent_max()),
    {
        let e = self.exponent_field();
        e != 0 && e != Self::exponent_all_ones()
    }

    fn is_sign_positive(&self) -> (r: bool)
        ensures
            r == !self.sign(),
    {
        !self.sign_bit()
    }

    fn is_sign_negative(&self) -> (r: bool)
        ensures
            r == self.sign(),
    {
        self.sign_bit()
    }
}

pub open spec fn is_nan<P: Precision>(x: P) -> bool {
    x.exponent() == P::exponent_max() && x.mantissa() != 0
}

pub open spec fn is_infinite<P: Precision>(x: P) -> bool {
    x.exponent() == P::exponent_max() && x.mantissa() == 0
}

/// Neither infinite nor NaN.
pub open spec fn is_finite<P: Precision>(x: P) -> bool {
    x.exponent() != P::exponent_max()
}

/// `+0` or `-0`.
pub open spec fn is_zero<P: Precision>(x: P) -> bool {
    x.exponent() == 0 && x.mantissa() == 0
}

pub open spec fn is_subnormal<P: Precision>(x: P) -> bool {
    x.exponent() == 0 && x.mantissa() != 0
}

/// Finite, not zero and not subnormal.
pub open spec fn is_normal<P: Precision>(x: P) -> bool {
    x.exponent() != 0 && x.exponent() != P::exponent_max()
}

/// Compares greater than zero.
pub open spec fn is_positive<P: Precision>(x: P) -> bool {
    !is_nan(x) && !is_zero(x) && !x.sign()
}

/// Compares less than zero.
pub open spec fn is_negative<P: Precision>(x: P) -> bool {
    !is_nan(x) && !is_zero(x) && x.sign()
}

/// The significand of a finite value as an integer: the trailing field, with
/// the implicit leading one of a normal number.
pub open spec fn significand<P: Precision>(x: P) -> nat {
    if x.exponent() == 0 {
        x.mantissa()
    } else {
        x.mantissa() + pow2(P::mantissa_bits())
    }
}

/// The power of two that scales the significand: a finite value is
/// `(-1)^sign * significand * 2^scale`.
pub open spec fn scale<P: Precision>(x: P) -> int {
    (if x.exponent() == 0 {
        1
    } else {
        x.exponent() as int
    }) - P::bias() - P::mantissa_bits()
}

/// The significand with the sign applied.
pub open spec fn signed_significand<P: Precision>(x: P) -> int {
    if x.sign() {
        -(significand(x) as int)
    } else {
        significand(x) as int
    }
}

/// The greatest integer not above a finite value.
pub open spec fn floor_of<P: Precision>(x: P) -> int {
    if scale(x) >= 0 {
        signed_significand(x) * pow2(scale(x) as nat)
    } else {
        signed_significand(x) / (pow2((-scale(x)) as nat) as int)
    }
}

proof fn lemma_neg_parity(a: int)
    ensures
        ((-a) % 2 == 0) == (a % 2 == 0),
{
    let q = a / 2;
    let r = a % 2;
    lemma_fundamental_div_mod_converse(a, 2, q, r);
    vstd::arithmetic::div_mod::lemma_fundamental_div_mod(a, 2);
    if r == 0 {
        lemma_fundamental_div_mod_converse(-a, 2, -q, 0);
    } else {
        lemma_fundamental_div_mod_converse(-a, 2, -q - 1, 1);
    }
}

proof fn lemma_scaled_parity(m: int, k: nat)
    ensures
        k >= 1 ==> (m * pow2(k)) % 2 == 0,
        k == 0 ==> m * pow2(k) == m,
{
    if k >= 1 {
        lemma_pow2_unfold(k);
        let c = m * pow2((k - 1) as nat);
        assert(m * pow2(k) == c * 2) by (nonlinear_arith)
            requires
                pow2(k) == 2 * pow2((k - 1) as nat),
                c == m * pow2((k - 1) as nat),
        ;
        lemma_fundamental_div_mod_converse(m * pow2(k), 2, c, 0);
    } else {
        lemma2_to64();
    }
}

/// Whether the floor of a finite value is even, decided on its fields.
pub fn floor_is_even<P: Precision>(x: P) -> (r: bool)
    requires
        is_finite(x),
    ensures
        r == (floor_of(x) % 2 == 0),
{
    let e = x.exponent_field();
    let man = x.mantissa_field();
    let width = P::mantissa_width();
    let bias = P::exponent_bias();
    proof {
        P::lemma_fields(x);
        lemma_u64_pow2_no_overflow(width as nat);
        lemma_u64_shl_is_mul(1, width);
        lemma2_to64();
        lemma2_to64_rest();
        if width < 52 {
            lemma_pow2_strictly_increases(width as nat, 52);
        }
    }
    let implicit: u64 = 1u64 << width;
    let m: u64 = if e == 0 {
        man
    } else {
        man + implicit
    };
    let e1: u64 = if e == 0 {
        1
    } else {
        e
    };
    assert(m == significand(x));
    assert(e1 - bias - width == scale(x));
    proof {
        lemma_neg_parity(m as int);
    }
    if e1 >= bias + width {
        let k = e1 - bias - width;
        proof {
            lemma_scaled_parity(signed_significand(x), k as nat);
            lemma_scaled_parity(m as int, k as nat);
            if k > 0 {
                let p = pow2(k as nat) as int;
                lemma_neg_parity(m as int * p);
                if x.sign() {
                    let sm = signed_significand(x);
                    assert(sm * p == -(m as int * p)) by (nonlinear_arith)
                        requires
                            sm == -(m as int),
                    ;
                }
            }
        }
        k >= 1 || m % 2 == 0
    } else {
        let j = bias + width - e1;
        assert(j == -scale(x));
        if j >= 64 {
            proof {
                lemma_pow2_strictly_increases(53, j as nat);
                let d = pow2(j as nat) as int;
                if x.sign() && m != 0 {
                    lemma_fundamental_div_mod_converse(-(m as int), d, -1, d - m);
                } else {
                    lemma_fundamental_div_mod_converse(m as int, d, 0, m as int);
                }
            }
            !(x.sign_bit() && m != 0)
        } else {
            proof {
                lemma_u64_pow2_no_overflow(j as nat);
                lemma_u64_shl_is_mul(1, j);
            }
            let d: u64 = 1u64 << j;
            let q = m / d;
            let rem = m % d;
            proof {
                vstd::arithmetic::div_mod::lemma_fundamental_div_mod(m as int, d as int);
                let (mi, di, qi, ri) = (m as int, d as int, q as int, rem as int);
                assert(-mi == (-qi) * di - ri && -mi == (-qi - 1) * di + (di - ri)) by (
                nonlinear_arith)
                    requires
                        mi == di * qi + ri,
                ;
                lemma_neg_parity(q as int);
                lemma_neg_parity(q as int + 1);
                if rem == 0 {
                    lemma_fundamental_div_mod_converse(-(m as int), d as int, -(q as int), 0);
                } else {
                    lemma_fundamental_div_mod_converse(
                        -(m as int),
                        d as int,
                        -(q as int) - 1,
                        d - rem,
                    );
                }
            }
            if !x.sign_bit() || rem == 0 {
                q % 2 == 0
            } else {
                q % 2 == 1
            }
        }
    }
}

/// A binary32 value, by its bit pattern.
#[derive(Clone, Copy, Debug, PartialEq, Eq, Structural)]
pub struct Single {
    pub bits: u32,
}

/// A binary64 value, by its bit pattern.
#[derive(Clone, Copy, Debug, PartialEq, Eq, Structural)]
pub struct Double {
    pub bits: u64,
}

impl Precision for Single {
    open spec fn sign(self) -> bool {
        (self.bits >> 31u32) == 1
    }

    open spec fn exponent(self) -> nat {
        ((self.bits >> 23u32) & 0xffu32) as nat
    }

    open spec fn mantissa(self) -> nat {
        (self.bits & 0x7f_ffffu32) as nat
    }

    open spec fn exponent_max() -> nat {
        0xff
    }

    open spec fn mantissa_bits() -> nat {
        23
    }

    open spec fn bias() -> nat {
        127
    }

    proof fn lemma_fields(x: Self) {
        let b = x.bits;
        assert(b & 0x7f_ffffu32 < 0x80_0000) by (bit_vector);
        lemma2_to64();
    }

    open spec fn negated(self) -> Self {
        Single { bits: self.bits ^ 0x8000_0000u32 }
    }

    proof fn lemma_negated(x: Self) {
        let b = x.bits;
        assert((b ^ 0x8000_0000u32) >> 31u32 != b >> 31u32) by (bit_vector);
        assert(b >> 31u32 <= 1 && (b ^ 0x8000_0000u32) >> 31u32 <= 1) by (bit_vector);
        assert(((b ^ 0x8000_0000u32) >> 23u32) & 0xffu32 == (b >> 23u32) & 0xffu32) by (bit_vector);
        assert((b ^ 0x8000_0000u32) & 0x7f_ffffu32 == b & 0x7f_ffffu32) by (bit_vector);
    }

    fn negate(&self) -> (r: Self) {
        Single { bits: self.bits ^ 0x8000_0000u32 }
    }

    fn mantissa_width() -> (r: u64) {
        23
    }

    fn exponent_bias() -> (r: u64) {
        127
    }

    fn zero() -> (r: Self) {
        let r = Single { bits: 0 };
        assert(((0u32 >> 23u32) & 0xffu32) == 0 && (0u32 & 0x7f_ffffu32) == 0 && (0u32 >> 31u32)
            == 0) by (bit_vector);
        r
    }

    fn sign_bit(&self) -> (r: bool) {
        (self.bits >> 31u32) == 1
    }

    fn exponent_field(&self) -> (r: u64) {
        let b = self.bits;
        assert((b >> 23u32) & 0xffu32 <= 0xff) by (bit_vector);
        ((b >> 23u32) & 0xffu32) as u64
    }

    fn mantissa_field(&self) -> (r: u64) {
        (self.bits & 0x7f_ffffu32) as u64
    }

    fn exponent_all_ones() -> (r: u64) {
        0xff
    }
}

impl Precision for Double {
    open spec fn sign(self) -> bool {
        (self.bits >> 63u64) == 1
    }

    open spec fn exponent(self) -> nat {
        ((self.bits >> 52u64) & 0x7ffu64) as nat
    }

    open spec fn mantissa(self) -> nat {
        (self.bits & 0xf_ffff_ffff_ffffu64) as nat
    }

    open spec fn exponent_max() -> nat {
        0x7ff
    }

    open spec fn mantissa_bits() -> nat {
        52
    }

    open spec fn bias() -> nat {
        1023
    }

    proof fn lemma_fields(x: Self) {
        let b = x.bits;
        assert(b & 0xf_ffff_ffff_ffffu64 < 0x10_0000_0000_0000) by (bit_vector);
        lemma2_to64_rest();
    }

    open spec fn negated(self) -> Self {
        Double { bits: self.bits ^ 0x8000_0000_0000_0000u64 }
    }

    proof fn lemma_negated(x: Self) {
        let b = x.bits;
        assert((b ^ 0x8000_0000_0000_0000u64) >> 63u64 != b >> 63u64) by (bit_vector);
        assert(b >> 63u64 <= 1 && (b ^ 0x8000_0000_0000_0000u64) >> 63u64 <= 1) by (bit_vector);
        assert(((b ^ 0x8000_0000_0000_0000u64) >> 52u64) & 0x7ffu64 == (b >> 52u64) & 0x7ffu64)
            by (bit_vector);
        assert((b ^ 0x8000_0000_0000_0000u64) & 0xf_ffff_ffff_ffffu64 == b & 0xf_ffff_ffff_ffffu64)
            by (bit_vector);
    }

    fn negate(&self) -> (r: Self) {
        Double { bits: self.bits ^ 0x8000_0000_0000_0000u64 }
    }

    fn mantissa_width() -> (r: u64) {
        52
    }

    fn exponent_bias() -> (r: u64) {
        1023
    }

    fn zero() -> (r: Self) {
        let r = Double { bits: 0 };
        assert(((0u64 >> 52u64) & 0x7ffu64) == 0 && (0u64 & 0xf_ffff_ffff_ffffu64) == 0 && (0u64
            >> 63u64) == 0) by (bit_vector);
        r
    }

    fn sign_bit(&self) -> (r: bool) {
        (self.bits >> 63u64) == 1
    }

    fn exponent_field(&self) -> (r: u64) {
        let b = self.bits;
        assert((b >> 52u64) & 0x7ffu64 <= 0x7ff) by (bit_vector);
        (b >> 52u64) & 0x7ffu64
    }

    fn mantissa_field(&self) -> (r: u64) {
        self.bits & 0xf_ffff_ffff_ffffu64
    }

    fn exponent_all_ones() -> (r: u64) {
        0x7ff
    }
}

} // verus!
