use composable::arithmetic::{Permill, Perquintill, ArithmeticError};
use composable::decimal::{
    Dec, dec_add, dec_div, dec_from_u128, dec_from_u32, dec_into_u128, dec_mul, dec_powd, dec_sub,
};
use composable::weights::{RuntimeDbWeight, WeightInfo};
use rust_decimal::Decimal;
use rust_decimal::MathematicalOps;

fn to_decimal(d: Dec) -> Decimal {
    let mut x = Decimal::from_i128_with_scale(d.mantissa, d.scale);
    x.set_sign_negative(d.negative);
    x
}

#[test]
fn permill_from_rational_exact_and_reduced() {
    assert_eq!(Permill::from_rational(1, 3).deconstruct(), 333_333);
    assert_eq!(Permill::from_rational(95, 100).deconstruct(), 950_000);
    assert_eq!(Permill::from_rational(0, 10).deconstruct(), 0);
    // p larger than q is a whole
    assert_eq!(Permill::from_rational(7, 5).deconstruct(), 1_000_000);
    // q of zero is raised to one
    assert_eq!(Permill::from_rational(5, 0).deconstruct(), 1_000_000);
    assert_eq!(Permill::from_rational(0, 0).deconstruct(), 0);
    // q above a million: both are divided by ceil(q / 10^6) = 3 first
    assert_eq!(Permill::from_rational(1, 3_000_000).deconstruct(), 0);
    assert_eq!(Permill::from_rational(1_500_000, 3_000_000).deconstruct(), 500_000);
}

#[test]
fn permill_mul_and_sub() {
    let half = Permill::from_parts(500_000);
    assert_eq!(half.checked_mul(&half).map(|p| p.deconstruct()), Some(250_000));
    let third = Permill::from_parts(333_333);
    assert_eq!(third.checked_mul(&third).map(|p| p.deconstruct()), Some(111_110));
    assert_eq!(half.checked_sub(&third).map(|p| p.deconstruct()), Some(166_667));
    assert_eq!(third.checked_sub(&half), None);
    assert_eq!(Permill::from_parts(2_000_000).deconstruct(), 1_000_000);
    assert_eq!(Permill::one().deconstruct(), 1_000_000);
    assert_eq!(Permill::zero().deconstruct(), 0);
    assert_eq!(Perquintill::from_parts(u64::MAX).deconstruct(), 1_000_000_000_000_000_000);
}

#[test]
fn decimal_conversions() {
    let max96 = (1u128 << 96) - 1;
    assert_eq!(dec_from_u128(max96).map(|d| d.mantissa), Ok(max96 as i128));
    assert_eq!(dec_from_u128(1u128 << 96), Err(ArithmeticError::Overflow));
    assert_eq!(dec_from_u32(7), Dec { mantissa: 7, scale: 0, negative: false });
    assert_eq!(dec_into_u128(Dec { mantissa: 12_345, scale: 2, negative: false }), Ok(123));
    assert_eq!(dec_into_u128(Dec { mantissa: -5, scale: 0, negative: true }), Err(ArithmeticError::Overflow));
    assert_eq!(dec_into_u128(Dec { mantissa: 0, scale: 0, negative: true }), Err(ArithmeticError::Overflow));
}

#[test]
fn decimal_operations_match_rust_decimal() {
    let a = dec_from_u128(10).unwrap();
    let b = dec_from_u128(4).unwrap();
    let q = dec_div(a, b).unwrap();
    assert_eq!(to_decimal(q), Decimal::new(25, 1));
    assert_eq!(to_decimal(dec_add(a, b).unwrap()), Decimal::new(14, 0));
    assert_eq!(to_decimal(dec_sub(b, a).unwrap()), Decimal::new(-6, 0));
    assert_eq!(to_decimal(dec_mul(a, b).unwrap()), Decimal::new(40, 0));
    assert_eq!(dec_div(a, dec_from_u128(0).unwrap()), Err(ArithmeticError::DivisionByZero));
    let p = dec_powd(b, dec_from_u32(2)).unwrap();
    assert_eq!(to_decimal(p), Decimal::new(4, 0).checked_powd(Decimal::new(2, 0)).unwrap());
    let big = dec_from_u128((1u128 << 96) - 1).unwrap();
    assert_eq!(dec_mul(big, big), Err(ArithmeticError::Overflow));
    assert_eq!(dec_add(big, big), Err(ArithmeticError::Overflow));
}

#[test]
fn bonded_finance_weights() {
    let db = RuntimeDbWeight { read: 25_000_000, write: 100_000_000 };
    assert_eq!(db.reads(4), 100_000_000);
    assert_eq!(db.writes(5), 500_000_000);
    assert_eq!(WeightInfo::offer(db), 123_499_000 + 4 * 25_000_000 + 5 * 100_000_000);
    assert_eq!(WeightInfo::bond(db), 190_006_000 + 9 * 25_000_000 + 9 * 100_000_000);
    assert_eq!(WeightInfo::cancel(db), 74_944_000 + 2 * 25_000_000 + 2 * 100_000_000);
    let huge = RuntimeDbWeight { read: u64::MAX / 2, write: 1 };
    assert_eq!(huge.reads(4), u64::MAX);
    assert_eq!(WeightInfo::offer(huge), u64::MAX);
}
