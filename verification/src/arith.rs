//! IEEE-754 binary64 arithmetic on raw bit patterns.
//!
//! Verified code in this crate cannot hold floating-point values, so every
//! sample, coefficient and loudness figure travels as the `u64` bit pattern
//! of an IEEE-754 binary64 value. Sign tests, negation, absolute value,
//! comparisons and the NaN test are pure bit manipulations and are verified
//! here directly. Rounded arithmetic (addition, multiplication, division)
//! and the transcendental functions cannot be computed in verified code;
//! they are performed by trusted wrappers whose results are named by
//! uninterpreted spec functions: the same operand bit patterns always give
//! the same result bit pattern.

use vstd::prelude::*;

verus! {

/// Sign bit of a binary64 value.
pub const SIGN_MASK: u64 = 0x8000_0000_0000_0000;
/// Everything but the sign bit: the magnitude ordering of two non-negative
/// binary64 values is the unsigned ordering of these bits.
pub const MAG_MASK: u64 = 0x7FFF_FFFF_FFFF_FFFF;
/// Exponent field of a binary64 value.
pub const EXP_MASK: u64 = 0x7FF0_0000_0000_0000;
/// Fraction field of a binary64 value.
pub const FRAC_MASK: u64 = 0x000F_FFFF_FFFF_FFFF;

/// Bit pattern of 0.0 (all channels of a silent frame hold this value).
pub const ZERO_BITS: u64 = 0x0000_0000_0000_0000;
/// Bit pattern of 1.0.
pub const ONE_BITS: u64 = 0x3FF0_0000_0000_0000;
/// Bit pattern of 2.0.
pub const TWO_BITS: u64 = 0x4000_0000_0000_0000;
/// Bit pattern of 10.0.
pub const TEN_BITS: u64 = 0x4024_0000_0000_0000;
/// Bit pattern of 20.0.
pub const TWENTY_BITS: u64 = 0x4034_0000_0000_0000;

/// A binary64 value is NaN when its exponent field is all ones and its
/// fraction field is not zero.
pub open spec fn is_nan(x: u64) -> bool {
    x & EXP_MASK == EXP_MASK && x & FRAC_MASK != 0
}

/// Sign bit set: the value is negative (or a negative zero or NaN).
pub open spec fn is_neg(x: u64) -> bool {
    x & SIGN_MASK != 0
}

/// The value with the sign bit cleared: IEEE-754 `abs`.
pub open spec fn abs_of(x: u64) -> u64 {
    x & MAG_MASK
}

/// The value with the sign bit flipped: IEEE-754 negation.
pub open spec fn neg_of(x: u64) -> u64 {
    x ^ SIGN_MASK
}

/// The IEEE-754 `<` relation on binary64 bit patterns: false whenever an
/// operand is NaN, the two zeros are equal, and otherwise sign-magnitude
/// ordering (bit magnitudes order non-negative values directly and negative
/// values in reverse).
pub open spec fn lt_of(a: u64, b: u64) -> bool {
    if is_nan(a) || is_nan(b) {
        false
    } else if !is_neg(a) && !is_neg(b) {
        abs_of(a) < abs_of(b)
    } else if is_neg(a) && is_neg(b) {
        abs_of(a) > abs_of(b)
    } else if is_neg(a) {
        !(abs_of(a) == 0 && abs_of(b) == 0)
    } else {
        false
    }
}

/// The larger of two binary64 values, ignoring NaN: if one operand is NaN
/// the other is returned.
pub open spec fn max_of(a: u64, b: u64) -> u64 {
    if is_nan(a) {
        b
    } else if is_nan(b) {
        a
    } else if lt_of(a, b) {
        b
    } else {
        a
    }
}

pub fn exec_is_nan(x: u64) -> (r: bool)
    ensures
        r == is_nan(x),
{
    x & EXP_MASK == EXP_MASK && x & FRAC_MASK != 0
}

pub fn abs_val(x: u64) -> (r: u64)
    ensures
        r == abs_of(x),
{
    x & MAG_MASK
}

pub fn neg_val(x: u64) -> (r: u64)
    ensures
        r == neg_of(x),
{
    x ^ SIGN_MASK
}

pub fn cmp_lt(a: u64, b: u64) -> (r: bool)
    ensures
        r == lt_of(a, b),
{
    if exec_is_nan(a) || exec_is_nan(b) {
        false
    } else if !(a & SIGN_MASK != 0) && !(b & SIGN_MASK != 0) {
        (a & MAG_MASK) < (b & MAG_MASK)
    } else if a & SIGN_MASK != 0 && b & SIGN_MASK != 0 {
        (a & MAG_MASK) > (b & MAG_MASK)
    } else if a & SIGN_MASK != 0 {
        !(a & MAG_MASK == 0 && b & MAG_MASK == 0)
    } else {
        false
    }
}

/// IEEE-754 `>`: `a > b` holds exactly when `b < a`, also in the presence of
/// NaN operands (both comparisons are then false).
pub fn cmp_gt(a: u64, b: u64) -> (r: bool)
    ensures
        r == lt_of(b, a),
{
    cmp_lt(b, a)
}

pub fn max_val(a: u64, b: u64) -> (r: u64)
    ensures
        r == max_of(a, b),
{
    if exec_is_nan(a) {
        b
    } else if exec_is_nan(b) {
        a
    } else if cmp_lt(a, b) {
        b
    } else {
        a
    }
}

/// The bit pattern of the rounded binary64 sum of the two values with the
/// given bit patterns.
pub uninterp spec fn sum_of(a: u64, b: u64) -> u64;

/// The bit pattern of the rounded binary64 product.
pub uninterp spec fn prod_of(a: u64, b: u64) -> u64;

/// The bit pattern of the rounded binary64 quotient.
pub uninterp spec fn quot_of(a: u64, b: u64) -> u64;

/// The bit pattern of the binary64 tangent of the value with the given bit
/// pattern.
pub uninterp spec fn tan_of(x: u64) -> u64;

/// The bit pattern of the binary64 value of `base` raised to `exponent`.
pub uninterp spec fn pow_of(base: u64, exponent: u64) -> u64;

/// The bit pattern of the binary64 base-10 logarithm.
pub uninterp spec fn log10_of(x: u64) -> u64;

/// The bit pattern of the binary64 value nearest to the given integer
/// (ties to even).
pub uninterp spec fn real_of(n: u64) -> u64;

/// IEEE-754 subtraction is addition of the negated second operand, so its
/// bit pattern is already determined by `sum_of` and `neg_of`.
pub open spec fn diff_of(a: u64, b: u64) -> u64 {
    sum_of(a, neg_of(b))
}

/// Binary64 addition on bit patterns. Relies on the `+` operator of the
/// machine's binary64 type: the sum's bit pattern is a function of the
/// operand bit patterns alone, and for non-NaN operands addition is
/// commutative. `bytemuck::cast` maps between `u64` and the binary64 type
/// one-for-one by bit pattern; `libm::copysign` with both arguments equal
/// returns its argument's bits unchanged and serves only to give the
/// reinterpreted value its floating-point type, which this crate cannot
/// name.
#[verifier::external_body]
pub(crate) fn fadd(a: u64, b: u64) -> (r: u64)
    ensures
        r == sum_of(a, b),
        !is_nan(a) && !is_nan(b) ==> r == sum_of(b, a),
{
    let x = libm::copysign(bytemuck::cast(a), bytemuck::cast(a));
    let y = libm::copysign(bytemuck::cast(b), bytemuck::cast(b));
    bytemuck::cast::<_, u64>(x + y)
}

/// Binary64 subtraction on bit patterns: addition of the negated second
/// operand, which IEEE-754 defines to equal subtraction bit for bit.
pub(crate) fn fsub(a: u64, b: u64) -> (r: u64)
    ensures
        r == diff_of(a, b),
{
    let nb = neg_val(b);
    fadd(a, nb)
}

/// Binary64 multiplication on bit patterns. Relies on the `*` operator of
/// the machine's binary64 type; `bytemuck::cast` and `libm::copysign` are
/// used as in `fadd`.
#[verifier::external_body]
pub(crate) fn fmul(a: u64, b: u64) -> (r: u64)
    ensures
        r == prod_of(a, b),
{
    let x = libm::copysign(bytemuck::cast(a), bytemuck::cast(a));
    let y = libm::copysign(bytemuck::cast(b), bytemuck::cast(b));
    bytemuck::cast::<_, u64>(x * y)
}

/// Binary64 division on bit patterns. Relies on the `/` operator of the
/// machine's binary64 type; `bytemuck::cast` and `libm::copysign` are used
/// as in `fadd`. Division by a zero bit pattern yields an infinity or NaN
/// bit pattern, never a panic.
#[verifier::external_body]
pub(crate) fn fdiv(a: u64, b: u64) -> (r: u64)
    ensures
        r == quot_of(a, b),
{
    let x = libm::copysign(bytemuck::cast(a), bytemuck::cast(a));
    let y = libm::copysign(bytemuck::cast(b), bytemuck::cast(b));
    bytemuck::cast::<_, u64>(x / y)
}

/// Binary64 tangent on bit patterns. Relies on `astro_float::BigFloat::tan`,
/// a pure function of its argument: the tangent is computed to 192 bits and
/// comes back to binary64 through its decimal form, whose parse rounds to
/// nearest, so the result is the correctly rounded tangent. On a failed
/// constant-cache allocation or an unparseable (non-finite) result the
/// equally pure `libm::tan` answers instead.
#[verifier::external_body]
pub(crate) fn ftan(x: u64) -> (r: u64)
    ensures
        r == tan_of(x),
{
    let f = libm::copysign(bytemuck::cast(x), bytemuck::cast(x));
    match astro_float::Consts::new() {
        Ok(mut cc) => {
            let big = astro_float::BigFloat::from_f64(f, 192);
            let t = big.tan(192, astro_float::RoundingMode::ToEven, &mut cc);
            match format!("{}", t).parse() {
                Ok(v) => bytemuck::cast::<_, u64>(libm::copysign(v, v)),
                Err(_) => bytemuck::cast::<_, u64>(libm::tan(f)),
            }
        },
        Err(_) => bytemuck::cast::<_, u64>(libm::tan(f)),
    }
}

/// Binary64 power on bit patterns. Relies on `libm::pow`, a pure function
/// of its arguments.
#[verifier::external_body]
pub(crate) fn fpow(base: u64, exponent: u64) -> (r: u64)
    ensures
        r == pow_of(base, exponent),
{
    bytemuck::cast::<_, u64>(libm::pow(bytemuck::cast(base), bytemuck::cast(exponent)))
}

/// Binary64 base-10 logarithm on bit patterns. Relies on `libm::log10`, a
/// pure function of its argument.
#[verifier::external_body]
pub(crate) fn flog10(x: u64) -> (r: u64)
    ensures
        r == log10_of(x),
{
    bytemuck::cast::<_, u64>(libm::log10(bytemuck::cast(x)))
}

/// The binary64 value nearest the given integer, as bits. Relies on
/// `az::cast`, which converts an integer to the machine's binary64 type
/// exactly as the language's numeric cast does (round to nearest, ties to
/// even); `libm::copysign` and `bytemuck::cast` are used as in `fadd`.
#[verifier::external_body]
pub(crate) fn from_int(n: u64) -> (r: u64)
    ensures
        r == real_of(n),
{
    let x = libm::copysign(az::cast(n), az::cast(n));
    bytemuck::cast::<_, u64>(x)
}

} // verus!
