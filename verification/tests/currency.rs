use composable::currency::CurrencyId;
use composable::mock_currency::MockCurrencyId;
use composable::dex::{DexRoute, DexRouteNode};
use composable::dispatch::DispatchError;
use composable::arithmetic::ArithmeticError;

#[test]
fn currency_decimals_and_units() {
    let ksm = CurrencyId::ksm();
    assert_eq!(ksm.decimals(), 12);
    assert_eq!(ksm.unit::<u128>(), 1_000_000_000_000u128);
    assert_eq!(ksm.unit::<u64>(), 1_000_000_000_000u64);
    assert_eq!(ksm.milli::<u128>(), 1_000_000_000u128);
    assert_eq!(ksm.milli::<u64>(), 1_000_000_000u64);
}

#[test]
fn currency_constants_and_default() {
    assert_eq!(CurrencyId::invalid(), CurrencyId(0));
    assert_eq!(CurrencyId::pica(), CurrencyId(1));
    assert_eq!(CurrencyId::layr(), CurrencyId(2));
    assert_eq!(CurrencyId::crowd_loan(), CurrencyId(3));
    assert_eq!(CurrencyId::ksm(), CurrencyId(4));
    assert_eq!(CurrencyId::default(), CurrencyId::invalid());
}

#[test]
fn currency_conversions() {
    let id: CurrencyId = CurrencyId::from(42u128);
    assert_eq!(id, CurrencyId(42));
    let raw: u128 = u128::from(CurrencyId(7));
    assert_eq!(raw, 7);
    assert_eq!(*CurrencyId(9), 9u128);
}

#[test]
fn currency_arithmetic() {
    assert_eq!(CurrencyId(2) + CurrencyId(3), CurrencyId(5));
    assert_eq!(CurrencyId(2) * CurrencyId(3), CurrencyId(6));
    assert_eq!(CurrencyId(2).checked_add(&CurrencyId(3)), Some(CurrencyId(5)));
    assert_eq!(CurrencyId(u128::MAX).checked_add(&CurrencyId(1)), None);
    assert_eq!(CurrencyId(u128::MAX).checked_mul(&CurrencyId(2)), None);
    assert_eq!(CurrencyId(4).checked_mul(&CurrencyId(5)), Some(CurrencyId(20)));
    assert_eq!(CurrencyId::zero(), CurrencyId(0));
    assert!(CurrencyId(0).is_zero());
    assert!(!CurrencyId(1).is_zero());
    assert_eq!(CurrencyId::one(), CurrencyId(1));
    assert_eq!(CurrencyId::min_value(), CurrencyId(0));
    assert_eq!(CurrencyId::max_value(), CurrencyId(u128::MAX));
}

#[test]
fn currency_saturating_operations() {
    assert_eq!(CurrencyId(u128::MAX).saturating_add(CurrencyId(1)), CurrencyId(u128::MAX));
    assert_eq!(CurrencyId(1).saturating_add(CurrencyId(1)), CurrencyId(2));
    assert_eq!(CurrencyId(1).saturating_sub(CurrencyId(2)), CurrencyId(0));
    assert_eq!(CurrencyId(5).saturating_sub(CurrencyId(2)), CurrencyId(3));
    assert_eq!(CurrencyId(u128::MAX).saturating_mul(CurrencyId(2)), CurrencyId(u128::MAX));
    assert_eq!(CurrencyId(6).saturating_mul(CurrencyId(7)), CurrencyId(42));
    assert_eq!(CurrencyId(2).saturating_pow(10), CurrencyId(1024));
    assert_eq!(CurrencyId(2).saturating_pow(127), CurrencyId(1u128 << 127));
    assert_eq!(CurrencyId(2).saturating_pow(128), CurrencyId(u128::MAX));
    assert_eq!(CurrencyId(0).saturating_pow(0), CurrencyId(1));
    assert_eq!(CurrencyId(0).saturating_pow(3), CurrencyId(0));
    assert_eq!(CurrencyId(1).saturating_pow(1000), CurrencyId(1));
    assert_eq!(CurrencyId(10).saturating_pow(38), CurrencyId(10u128.pow(38)));
    assert_eq!(CurrencyId(10).saturating_pow(39), CurrencyId(u128::MAX));
}

#[test]
fn currency_lower_hex() {
    assert_eq!(CurrencyId(255).to_lower_hex(), "ff");
    assert_eq!(CurrencyId(0).to_lower_hex(), "0");
    assert_eq!(CurrencyId(0xdead_beef).to_lower_hex(), format!("{:x}", 0xdead_beefu128));
    assert_eq!(CurrencyId(u128::MAX).to_lower_hex(), "ffffffffffffffffffffffffffffffff");
}

#[test]
fn mock_currency_from_numbers() {
    assert_eq!(MockCurrencyId::from(0), MockCurrencyId::PICA);
    assert_eq!(MockCurrencyId::from(1), MockCurrencyId::BTC);
    assert_eq!(MockCurrencyId::from(2), MockCurrencyId::ETH);
    assert_eq!(MockCurrencyId::from(3), MockCurrencyId::LTC);
    assert_eq!(MockCurrencyId::from(4), MockCurrencyId::USDT);
    assert_eq!(MockCurrencyId::from(5), MockCurrencyId::LpToken(0));
    assert_eq!(MockCurrencyId::default(), MockCurrencyId::PICA);
}

#[test]
fn mock_currency_next_lp_token() {
    assert_eq!(MockCurrencyId::LpToken(0).next(), Ok(MockCurrencyId::LpToken(1)));
    assert_eq!(MockCurrencyId::LpToken(41).next(), Ok(MockCurrencyId::LpToken(42)));
    assert_eq!(
        MockCurrencyId::LpToken(u128::MAX).next(),
        Err(DispatchError::Arithmetic(ArithmeticError::Overflow))
    );
}

#[test]
fn dex_route_nodes() {
    let route = vec![DexRouteNode::Curve(1u128), DexRouteNode::Uniswap(2u128)];
    assert_eq!(route[0], DexRouteNode::Curve(1));
    assert_ne!(route[0], route[1]);
    let bounded = DexRoute::direct(route.clone(), 2).unwrap();
    assert_eq!(bounded.hops(), &route);
    assert!(DexRoute::direct(route, 1).is_none());
}
