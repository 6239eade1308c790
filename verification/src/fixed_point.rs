//! The motion controller's fixed-point velocity type, `MCDelay`.
//!
//! A value is held by its raw bits: a signed 128-bit number with 64
//! fractional bits, so that the number it stands for is `bits / 2^64`.
//! Arithmetic goes through the `fixed` crate, which defines the type.
use vstd::prelude::*;

verus! {

/// The scale of the fractional part: `2^64`.
pub open spec fn frac_scale() -> int {
    0x1_0000_0000_0000_0000
}

/// Whether an integer fits in an `i128`.
pub open spec fn fits_i128(x: int) -> bool {
    i128::MIN <= x <= i128::MAX
}

/// The raw bits of the product of two `MCDelay` values, before any
/// overflow check: the exact product rounded towards minus infinity.
pub open spec fn spec_mul_bits(a: i128, b: i128) -> int {
    (a as int * b as int) / frac_scale()
}

/// The integer part of a fixed-point value, rounded towards minus infinity.
pub open spec fn spec_floor(bits: i128) -> int {
    (bits as int) / frac_scale()
}

/// A signed fixed-point number with 64 integer and 64 fractional bits.
#[derive(Clone, Copy, Debug, PartialEq, Eq, Structural)]
pub struct MCDelay {
    pub bits: i128,
}

/// Calls `fixed`'s `FixedI128::<U64>::from_num` on an `i32`.
///
/// The crate documents that an integer is converted exactly; every `i32`
/// fits in 64 integer bits, so the raw bits are the integer times `2^64`.
#[verifier::external_body]
fn fixed_from_i32(n: i32) -> (r: i128)
    ensures
        r == n * frac_scale(),
{
    fixed::FixedI128::<fixed::types::extra::U64>::from_num(n).to_bits()
}

/// Calls `fixed`'s `Mul` of two `FixedI128::<U64>` values.
///
/// The crate's source forms the 256-bit product of the raw bits and shifts
/// it right by 64 (rounding towards minus infinity); with debug assertions
/// it panics when the result does not fit, so `requires` leaves that out.
#[verifier::external_body]
fn fixed_mul(a: i128, b: i128) -> (r: i128)
    requires
        fits_i128(spec_mul_bits(a, b)),
    ensures
        r == spec_mul_bits(a, b),
{
    let x = fixed::FixedI128::<fixed::types::extra::U64>::from_bits(a);
    let y = fixed::FixedI128::<fixed::types::extra::U64>::from_bits(b);
    (x * y).to_bits()
}

/// Calls `fixed`'s `FixedI128::<U64>::checked_mul`.
///
/// The crate's source forms the same rounded product as `Mul` and gives
/// `None` exactly when it does not fit.
#[verifier::external_body]
fn fixed_checked_mul(a: i128, b: i128) -> (r: Option<i128>)
    ensures
        r is Some <==> fits_i128(spec_mul_bits(a, b)),
        r is Some ==> r->0 == spec_mul_bits(a, b),
{
    let x = fixed::FixedI128::<fixed::types::extra::U64>::from_bits(a);
    let y = fixed::FixedI128::<fixed::types::extra::U64>::from_bits(b);
    x.checked_mul(y).map(|p| p.to_bits())
}

/// Calls `fixed`'s `Mul<i128>` on a `FixedI128::<U64>`.
///
/// The crate's source multiplies the raw bits by the integer with `i128`'s
/// own `*`, which panics on overflow in debug builds; `requires` leaves
/// that out.
#[verifier::external_body]
fn fixed_mul_int(a: i128, n: i128) -> (r: i128)
    requires
        fits_i128(a * n),
    ensures
        r == a * n,
{
    (fixed::FixedI128::<fixed::types::extra::U64>::from_bits(a) * n).to_bits()
}

/// Calls `num_traits::ToPrimitive::to_i64` on a `FixedI128::<U64>`.
///
/// The crate implements it as `checked_to_num`, which discards the
/// fractional bits (rounding towards minus infinity) and gives `None` when
/// the integer part does not fit in an `i64`.
#[verifier::external_body]
fn fixed_to_i64(a: i128) -> (r: Option<i64>)
    ensures
        r is Some <==> (i64::MIN <= spec_floor(a) <= i64::MAX),
        r is Some ==> r->0 == spec_floor(a),
{
    num_traits::ToPrimitive::to_i64(&fixed::FixedI128::<fixed::types::extra::U64>::from_bits(a))
}

impl MCDelay {
    /// The value with the given raw bits.
    pub fn from_bits(bits: i128) -> (r: MCDelay)
        ensures
            r.bits == bits,
    {
        MCDelay { bits }
    }

    /// The raw bits of the value.
    pub fn to_bits(self) -> (r: i128)
        ensures
            r == self.bits,
    {
        self.bits
    }

    /// The fixed-point value equal to the integer `n`.
    pub fn from_num(n: i32) -> (r: MCDelay)
        ensures
            r.bits == n * frac_scale(),
    {
        MCDelay { bits: fixed_from_i32(n) }
    }

    /// The product of two fixed-point values, rounded towards minus infinity.
    pub fn mul(self, rhs: MCDelay) -> (r: MCDelay)
        requires
            fits_i128(spec_mul_bits(self.bits, rhs.bits)),
        ensures
            r.bits == spec_mul_bits(self.bits, rhs.bits),
    {
        MCDelay { bits: fixed_mul(self.bits, rhs.bits) }
    }

    /// The product of two fixed-point values, rounded towards minus
    /// infinity, or `None` when it does not fit the type.
    pub fn checked_mul(self, rhs: MCDelay) -> (r: Option<MCDelay>)
        ensures
            r is Some <==> fits_i128(spec_mul_bits(self.bits, rhs.bits)),
            r is Some ==> r->0.bits == spec_mul_bits(self.bits, rhs.bits),
    {
        match fixed_checked_mul(self.bits, rhs.bits) {
            Some(bits) => Some(MCDelay { bits }),
            None => None,
        }
    }

    /// The product of a fixed-point value and an integer.
    pub fn mul_int(self, n: i128) -> (r: MCDelay)
        requires
            fits_i128(self.bits * n),
        ensures
            r.bits == self.bits * n,
    {
        MCDelay { bits: fixed_mul_int(self.bits, n) }
    }

    /// The integer part (rounded towards minus infinity), when it fits an `i64`.
    pub fn to_i64(self) -> (r: Option<i64>)
        ensures
            r is Some <==> (i64::MIN <= spec_floor(self.bits) <= i64::MAX),
            r is Some ==> r->0 == spec_floor(self.bits),
    {
        fixed_to_i64(self.bits)
    }
}

/// An integer made fixed-point converts back to itself.
pub proof fn law_from_int_to_int(n: i32)
    ensures
        spec_floor((n * frac_scale()) as i128) == n,
{
    vstd::arithmetic::div_mod::lemma_div_multiples_vanish(n as int, frac_scale());
    assert(n * frac_scale() == frac_scale() * n) by (nonlinear_arith);
    assert(fits_i128(n * frac_scale())) by (nonlinear_arith)
        requires
            i32::MIN <= n <= i32::MAX,
            frac_scale() == 0x1_0000_0000_0000_0000,
    ;
}

} // verus!
