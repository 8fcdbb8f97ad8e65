//! Decimal numbers of `rust_decimal`, held as plain values.
//!
//! A `Dec` is a `rust_decimal::Decimal` taken apart into its mantissa, scale
//! and sign flag; the arithmetic on it is computed by `rust_decimal`.

use vstd::prelude::*;
use rust_decimal::prelude::{FromPrimitive, ToPrimitive};
use rust_decimal::{Decimal, MathematicalOps};
use crate::arithmetic::ArithmeticError;
use crate::currency::ten_pow;

verus! {

/// Largest magnitude of a mantissa: `2^96 - 1`.
pub const DECIMAL_MAX_MANTISSA: i128 = 79_228_162_514_264_337_593_543_950_335;

/// Largest scale (number of digits after the point).
pub const DECIMAL_MAX_SCALE: u32 = 28;

/// The value `negative * mantissa / 10^scale`, as `rust_decimal` stores it.
#[derive(Copy, Clone, Debug, PartialEq, Eq, Structural)]
pub struct Dec {
    pub mantissa: i128,
    pub scale: u32,
    pub negative: bool,
}

impl Dec {
    /// A representation that `rust_decimal` can hold: a 96-bit mantissa, a scale
    /// of at most 28, and a sign flag that agrees with a nonzero mantissa.
    pub open spec fn wf(self) -> bool {
        &&& -DECIMAL_MAX_MANTISSA <= self.mantissa <= DECIMAL_MAX_MANTISSA
        &&& self.scale <= DECIMAL_MAX_SCALE
        &&& self.mantissa != 0 ==> self.negative == (self.mantissa < 0)
    }

    /// The whole number `n` (scale 0, not negative).
    pub open spec fn whole(n: int) -> Dec {
        Dec { mantissa: n as i128, scale: 0, negative: false }
    }

    /// The decimal `1`.
    pub fn one() -> (r: Dec)
        ensures
            r == Dec::whole(1),
            r.wf(),
    {
        Dec { mantissa: 1, scale: 0, negative: false }
    }

    /// Whether the value is zero.
    pub fn is_zero(&self) -> (r: bool)
        ensures
            r == (self.mantissa == 0),
    {
        self.mantissa == 0
    }
}

/// What `Decimal::checked_add` returns for two decimals.
pub uninterp spec fn decimal_checked_add(a: Dec, b: Dec) -> Option<Dec>;

/// What `Decimal::checked_sub` returns for two decimals.
pub uninterp spec fn decimal_checked_sub(a: Dec, b: Dec) -> Option<Dec>;

/// What `Decimal::checked_mul` returns for two decimals.
pub uninterp spec fn decimal_checked_mul(a: Dec, b: Dec) -> Option<Dec>;

/// What `Decimal::checked_div` returns for two decimals.
pub uninterp spec fn decimal_checked_div(a: Dec, b: Dec) -> Option<Dec>;

/// What `MathematicalOps::checked_powd` returns for a base and an exponent.
pub uninterp spec fn decimal_checked_powd(base: Dec, exp: Dec) -> Option<Dec>;

/// `Decimal::checked_add` in `rust_decimal`.
///
/// Trusted: the result is named by `decimal_checked_add` (rounding to 28 digits
/// and overflow detection are the crate's); a `Some` is a valid decimal.
#[verifier::external_body]
fn rd_checked_add(a: Dec, b: Dec) -> (r: Option<Dec>)
    requires
        a.wf(),
        b.wf(),
    ensures
        r == decimal_checked_add(a, b),
        r matches Some(d) ==> d.wf(),
{
    let mut x = Decimal::from_i128_with_scale(a.mantissa, a.scale);
    x.set_sign_negative(a.negative);
    let mut y = Decimal::from_i128_with_scale(b.mantissa, b.scale);
    y.set_sign_negative(b.negative);
    x.checked_add(y).map(|z| Dec { mantissa: z.mantissa(), scale: z.scale(), negative: z.is_sign_negative() })
}

/// `Decimal::checked_sub` in `rust_decimal`.
///
/// Trusted: the result is named by `decimal_checked_sub`; a `Some` is a valid
/// decimal.
#[verifier::external_body]
fn rd_checked_sub(a: Dec, b: Dec) -> (r: Option<Dec>)
    requires
        a.wf(),
        b.wf(),
    ensures
        r == decimal_checked_sub(a, b),
        r matches Some(d) ==> d.wf(),
{
    let mut x = Decimal::from_i128_with_scale(a.mantissa, a.scale);
    x.set_sign_negative(a.negative);
    let mut y = Decimal::from_i128_with_scale(b.mantissa, b.scale);
    y.set_sign_negative(b.negative);
    x.checked_sub(y).map(|z| Dec { mantissa: z.mantissa(), scale: z.scale(), negative: z.is_sign_negative() })
}

/// `Decimal::checked_mul` in `rust_decimal`.
///
/// Trusted: the result is named by `decimal_checked_mul`; a `Some` is a valid
/// decimal.
#[verifier::external_body]
fn rd_checked_mul(a: Dec, b: Dec) -> (r: Option<Dec>)
    requires
        a.wf(),
        b.wf(),
    ensures
        r == decimal_checked_mul(a, b),
        r matches Some(d) ==> d.wf(),
{
    let mut x = Decimal::from_i128_with_scale(a.mantissa, a.scale);
    x.set_sign_negative(a.negative);
    let mut y = Decimal::from_i128_with_scale(b.mantissa, b.scale);
    y.set_sign_negative(b.negative);
    x.checked_mul(y).map(|z| Dec { mantissa: z.mantissa(), scale: z.scale(), negative: z.is_sign_negative() })
}

/// `Decimal::checked_div` in `rust_decimal`.
///
/// Trusted: the result is named by `decimal_checked_div`; a `Some` is a valid
/// decimal.
#[verifier::external_body]
fn rd_checked_div(a: Dec, b: Dec) -> (r: Option<Dec>)
    requires
        a.wf(),
        b.wf(),
    ensures
        r == decimal_checked_div(a, b),
        r matches Some(d) ==> d.wf(),
{
    let mut x = Decimal::from_i128_with_scale(a.mantissa, a.scale);
    x.set_sign_negative(a.negative);
    let mut y = Decimal::from_i128_with_scale(b.mantissa, b.scale);
    y.set_sign_negative(b.negative);
    x.checked_div(y).map(|z| Dec { mantissa: z.mantissa(), scale: z.scale(), negative: z.is_sign_negative() })
}

/// `MathematicalOps::checked_powd` in `rust_decimal` (feature `maths`).
///
/// Trusted: the result is named by `decimal_checked_powd`; a `Some` is a valid
/// decimal. Left unsaid: for a fractional exponent the source takes `ln` of the
/// base's magnitude, which panics only if its internal series fails on a
/// positive number; the source shows no input on which that happens, and
/// nothing here rules it out.
#[verifier::external_body]
fn rd_checked_powd(base: Dec, exp: Dec) -> (r: Option<Dec>)
    requires
        base.wf(),
        exp.wf(),
    ensures
        r == decimal_checked_powd(base, exp),
        r matches Some(d) ==> d.wf(),
{
    let mut x = Decimal::from_i128_with_scale(base.mantissa, base.scale);
    x.set_sign_negative(base.negative);
    let mut y = Decimal::from_i128_with_scale(exp.mantissa, exp.scale);
    y.set_sign_negative(exp.negative);
    x.checked_powd(y).map(|z| Dec { mantissa: z.mantissa(), scale: z.scale(), negative: z.is_sign_negative() })
}

/// `FromPrimitive::from_u128` for `Decimal`.
///
/// Trusted: the source returns the whole number `n` when it fits in 96 bits,
/// `None` otherwise.
#[verifier::external_body]
fn rd_from_u128(n: u128) -> (r: Option<Dec>)
    ensures
        r == (if n <= DECIMAL_MAX_MANTISSA { Some(Dec::whole(n as int)) } else { None::<Dec> }),
{
    Decimal::from_u128(n).map(|z| Dec { mantissa: z.mantissa(), scale: z.scale(), negative: z.is_sign_negative() })
}

/// `FromPrimitive::from_u32` for `Decimal`.
///
/// Trusted: the source always returns the whole number `n`.
#[verifier::external_body]
fn rd_from_u32(n: u32) -> (r: Option<Dec>)
    ensures
        r == Some(Dec::whole(n as int)),
{
    Decimal::from_u32(n).map(|z| Dec { mantissa: z.mantissa(), scale: z.scale(), negative: z.is_sign_negative() })
}

/// `ToPrimitive::to_u128` for `Decimal`.
///
/// Trusted: the source returns `None` when the sign flag is set, and otherwise
/// the magnitude truncated towards zero, `|mantissa| / 10^scale`.
#[verifier::external_body]
fn rd_to_u128(d: Dec) -> (r: Option<u128>)
    requires
        d.wf(),
    ensures
        r == (if d.negative { None::<u128> } else { Some(((d.mantissa as int) / (ten_pow(d.scale as nat) as int)) as u128) }),
{
    let mut x = Decimal::from_i128_with_scale(d.mantissa, d.scale);
    x.set_sign_negative(d.negative);
    x.to_u128()
}

/// The whole number `n` as a decimal, `Overflow` above 96 bits.
pub open spec fn dec_of_u128(n: u128) -> Result<Dec, ArithmeticError> {
    if n <= DECIMAL_MAX_MANTISSA {
        Ok(Dec::whole(n as int))
    } else {
        Err(ArithmeticError::Overflow)
    }
}

/// `a + b`, `Overflow` when `rust_decimal` cannot hold it.
pub open spec fn dec_safe_add(a: Dec, b: Dec) -> Result<Dec, ArithmeticError> {
    match decimal_checked_add(a, b) {
        Some(d) => Ok(d),
        None => Err(ArithmeticError::Overflow),
    }
}

/// `a - b`, `Underflow` when `rust_decimal` cannot hold it.
pub open spec fn dec_safe_sub(a: Dec, b: Dec) -> Result<Dec, ArithmeticError> {
    match decimal_checked_sub(a, b) {
        Some(d) => Ok(d),
        None => Err(ArithmeticError::Underflow),
    }
}

/// `a * b`, `Overflow` when `rust_decimal` cannot hold it.
pub open spec fn dec_safe_mul(a: Dec, b: Dec) -> Result<Dec, ArithmeticError> {
    match decimal_checked_mul(a, b) {
        Some(d) => Ok(d),
        None => Err(ArithmeticError::Overflow),
    }
}

/// `a / b`: `DivisionByZero` for a zero divisor, `Overflow` when
/// `rust_decimal` cannot hold the quotient.
pub open spec fn dec_safe_div(a: Dec, b: Dec) -> Result<Dec, ArithmeticError> {
    if b.mantissa == 0 {
        Err(ArithmeticError::DivisionByZero)
    } else {
        match decimal_checked_div(a, b) {
            Some(d) => Ok(d),
            None => Err(ArithmeticError::Overflow),
        }
    }
}

/// `base ^ exp`, `Overflow` when `rust_decimal` cannot compute it.
pub open spec fn dec_safe_powd(base: Dec, exp: Dec) -> Result<Dec, ArithmeticError> {
    match decimal_checked_powd(base, exp) {
        Some(d) => Ok(d),
        None => Err(ArithmeticError::Overflow),
    }
}

/// The decimal truncated to a `u128`, `Overflow` when it is negative.
pub open spec fn dec_to_u128(d: Dec) -> Result<u128, ArithmeticError> {
    if d.negative {
        Err(ArithmeticError::Overflow)
    } else {
        Ok(((d.mantissa as int) / (ten_pow(d.scale as nat) as int)) as u128)
    }
}

/// The whole number `n` as a decimal; `Overflow` above 96 bits.
pub fn dec_from_u128(n: u128) -> (r: Result<Dec, ArithmeticError>)
    ensures
        r == dec_of_u128(n),
        r matches Ok(d) ==> d.wf(),
{
    match rd_from_u128(n) {
        Some(d) => Ok(d),
        None => Err(ArithmeticError::Overflow),
    }
}

/// The whole number `n` as a decimal.
pub fn dec_from_u32(n: u32) -> (r: Dec)
    ensures
        r == Dec::whole(n as int),
        r.wf(),
{
    match rd_from_u32(n) {
        Some(d) => d,
        None => Dec::one(),
    }
}

/// `a + b`; `Overflow` when `rust_decimal` cannot hold it.
pub fn dec_add(a: Dec, b: Dec) -> (r: Result<Dec, ArithmeticError>)
    requires
        a.wf(),
        b.wf(),
    ensures
        r == dec_safe_add(a, b),
        r matches Ok(d) ==> d.wf(),
{
    match rd_checked_add(a, b) {
        Some(d) => Ok(d),
        None => Err(ArithmeticError::Overflow),
    }
}

/// `a - b`; `Underflow` when `rust_decimal` cannot hold it.
pub fn dec_sub(a: Dec, b: Dec) -> (r: Result<Dec, ArithmeticError>)
    requires
        a.wf(),
        b.wf(),
    ensures
        r == dec_safe_sub(a, b),
        r matches Ok(d) ==> d.wf(),
{
    match rd_checked_sub(a, b) {
        Some(d) => Ok(d),
        None => Err(ArithmeticError::Underflow),
    }
}

/// `a * b`; `Overflow` when `rust_decimal` cannot hold it.
pub fn dec_mul(a: Dec, b: Dec) -> (r: Result<Dec, ArithmeticError>)
    requires
        a.wf(),
        b.wf(),
    ensures
        r == dec_safe_mul(a, b),
        r matches Ok(d) ==> d.wf(),
{
    match rd_checked_mul(a, b) {
        Some(d) => Ok(d),
        None => Err(ArithmeticError::Overflow),
    }
}

/// `a / b`; `DivisionByZero` for a zero divisor, else `Overflow` when
/// `rust_decimal` cannot hold the quotient.
pub fn dec_div(a: Dec, b: Dec) -> (r: Result<Dec, ArithmeticError>)
    requires
        a.wf(),
        b.wf(),
    ensures
        r == dec_safe_div(a, b),
        r matches Ok(d) ==> d.wf(),
{
    if b.is_zero() {
        return Err(ArithmeticError::DivisionByZero);
    }
    match rd_checked_div(a, b) {
        Some(d) => Ok(d),
        None => Err(ArithmeticError::Overflow),
    }
}

/// `base ^ exp`; `Overflow` when `rust_decimal` cannot compute it.
pub fn dec_powd(base: Dec, exp: Dec) -> (r: Result<Dec, ArithmeticError>)
    requires
        base.wf(),
        exp.wf(),
    ensures
        r == dec_safe_powd(base, exp),
        r matches Ok(d) ==> d.wf(),
{
    match rd_checked_powd(base, exp) {
        Some(d) => Ok(d),
        None => Err(ArithmeticError::Overflow),
    }
}

/// The decimal truncated towards zero to a `u128`; `Overflow` when negative.
pub fn dec_into_u128(d: Dec) -> (r: Result<u128, ArithmeticError>)
    requires
        d.wf(),
    ensures
        r == dec_to_u128(d),
{
    match rd_to_u128(d) {
        Some(n) => Ok(n),
        None => Err(ArithmeticError::Overflow),
    }
}

} // verus!
