use composable::arithmetic::{ArithmeticError, Permill};
use composable::currency::CurrencyId;
use composable::defi::CurrencyPair;
use composable::dispatch::{DispatchError, Origin};
use composable::liquidity_bootstrapping::{
    in_given_out, out_given_in, Error, Event, Holder, Pallet, Pool, PoolCountOnEmpty, PoolIsValid, PoolLimits,
    PoolReserves, Sale, SaleState, Transfer,
};
use rust_decimal::prelude::{FromPrimitive, ToPrimitive};
use rust_decimal::{Decimal, MathematicalOps};

const ALICE: u128 = 1;
const BOB: u128 = 2;
const PROJECT: CurrencyId = CurrencyId(100);
const USDT: CurrencyId = CurrencyId(200);

fn sale(start: u32, end: u32, initial: u32, fin: u32) -> Sale {
    Sale {
        start,
        end,
        initial_weight: Permill::from_parts(initial),
        final_weight: Permill::from_parts(fin),
    }
}

fn pool(owner: u128, s: Sale) -> Pool {
    Pool { owner, pair: CurrencyPair::new(PROJECT, USDT), sale: s }
}

fn limits() -> PoolLimits {
    PoolLimits {
        max_sale_duration: 1_000,
        max_initial_weight: Permill::from_parts(950_000),
        min_final_weight: Permill::from_parts(50_000),
    }
}

fn lbp_err(e: Error) -> DispatchError {
    DispatchError::LiquidityBootstrapping(e)
}

fn with_pool(s: Sale) -> Pallet {
    let mut p = Pallet::new();
    assert_eq!(p.create(true, pool(ALICE, s), &limits()), Ok(()));
    p
}

fn weights(s: &Sale, block: u32) -> Result<(u32, u32), DispatchError> {
    s.current_weights(block).map(|(b, q)| (b.deconstruct(), q.deconstruct()))
}

/// Balancer's out-given-in computed directly with `rust_decimal`.
fn reference_out(ai: u128, bi: u128, bo: u128, wi: u32, wo: u32) -> u128 {
    let ai = Decimal::from_u128(ai).unwrap();
    let bi = Decimal::from_u128(bi).unwrap();
    let bo = Decimal::from_u128(bo).unwrap();
    let power = Decimal::from_u32(wi).unwrap() / Decimal::from_u32(wo).unwrap();
    let term = (bi / (bi + ai)).checked_powd(power).unwrap();
    (bo * (Decimal::ONE - term)).to_u128().unwrap()
}

#[test]
fn pool_count_starts_empty() {
    assert_eq!(PoolCountOnEmpty(), 0);
    let p = Pallet::new();
    assert_eq!(p.pool_count(), 0);
    assert!(p.pools(0).is_none());
    assert!(p.events().is_empty());
}

#[test]
fn sale_state_and_duration() {
    let s = sale(100, 200, 800_000, 200_000);
    assert_eq!(s.duration(), 100);
    assert_eq!(s.state(99), SaleState::NotStarted);
    assert_eq!(s.state(100), SaleState::Ongoing);
    assert_eq!(s.state(199), SaleState::Ongoing);
    assert_eq!(s.state(200), SaleState::Ended);
    assert_eq!(sale(200, 100, 0, 0).duration(), 0);
}

#[test]
fn current_weights_fall_linearly() {
    let s = sale(100, 200, 800_000, 200_000);
    assert_eq!(weights(&s, 100), Ok((800_000, 200_000)));
    assert_eq!(weights(&s, 150), Ok((500_000, 500_000)));
    assert_eq!(weights(&s, 199), Ok((206_000, 794_000)));
    assert_eq!(weights(&s, 200), Ok((200_000, 800_000)));
    assert_eq!(weights(&s, 10_000), Ok((200_000, 800_000)));
    assert_eq!(weights(&s, 99), Err(DispatchError::Arithmetic(ArithmeticError::Underflow)));
    let rising = sale(100, 200, 200_000, 800_000);
    assert_eq!(weights(&rising, 150), Err(DispatchError::Arithmetic(ArithmeticError::Underflow)));
}

#[test]
fn weights_always_sum_to_a_whole_and_decrease() {
    let s = sale(1_000, 4_000_000, 990_000, 10_000);
    let mut last = 1_000_000;
    let mut block = 1_000;
    while block <= 4_100_000 {
        let (b, q) = weights(&s, block).unwrap();
        assert_eq!(b + q, 1_000_000);
        assert!(b <= last);
        assert!(10_000 <= b && b <= 990_000);
        last = b;
        block += 77_777;
    }
}

#[test]
fn pool_validation_messages() {
    let l = limits();
    let ok = pool(ALICE, sale(10, 20, 800_000, 200_000));
    assert!(PoolIsValid::validate(ok, &l).is_ok());
    let same = Pool { pair: CurrencyPair::new(USDT, USDT), ..ok };
    assert_eq!(PoolIsValid::validate(same, &l).err(), Some("Pair elements must be distinct."));
    let empty = pool(ALICE, sale(20, 20, 800_000, 200_000));
    assert_eq!(PoolIsValid::validate(empty, &l).err(), Some("Sale end must be after start."));
    let long = pool(ALICE, sale(0, 1_001, 800_000, 200_000));
    assert_eq!(
        PoolIsValid::validate(long, &l).err(),
        Some("Sale duration must not exceed maximum duration.")
    );
    let rising = pool(ALICE, sale(10, 20, 200_000, 800_000));
    assert_eq!(
        PoolIsValid::validate(rising, &l).err(),
        Some("Initial weight must be greater than final weight.")
    );
    let heavy = pool(ALICE, sale(10, 20, 960_000, 200_000));
    assert_eq!(
        PoolIsValid::validate(heavy, &l).err(),
        Some("Initial weight must not exceed the defined maximum.")
    );
    let light = pool(ALICE, sale(10, 20, 800_000, 40_000));
    assert_eq!(
        PoolIsValid::validate(light, &l).err(),
        Some("Final weight must not be lower than the defined minimum.")
    );
}

#[test]
fn create_pool_stores_and_counts() {
    let mut p = Pallet::new();
    let first = pool(ALICE, sale(10, 20, 800_000, 200_000));
    assert_eq!(p.create(true, first, &limits()), Ok(()));
    assert_eq!(p.create(true, pool(BOB, sale(30, 40, 500_000, 500_000)), &limits()), Ok(()));
    assert_eq!(p.pool_count(), 2);
    assert!(p.pool_exists(0) && p.pool_exists(1) && !p.pool_exists(2));
    assert_eq!(p.get_pool(0).map(|x| x.owner), Ok(ALICE));
    assert_eq!(p.get_pool(1).map(|x| x.owner), Ok(BOB));
    assert_eq!(p.get_pool(7).map(|x| x.owner), Err(lbp_err(Error::PoolNotFound)));
    assert_eq!(p.currency_pair(0).map(|c| (c.base, c.quote)), Ok((PROJECT, USDT)));
    assert_eq!(
        p.events(),
        vec![
            Event::PoolCreated { pool_id: 0, owner: ALICE },
            Event::PoolCreated { pool_id: 1, owner: BOB }
        ]
    );
}

#[test]
fn create_pool_checks_validity_then_origin() {
    let mut p = Pallet::new();
    let bad = pool(ALICE, sale(20, 10, 800_000, 200_000));
    assert_eq!(
        p.create(false, bad, &limits()),
        Err(DispatchError::Other("Sale end must be after start."))
    );
    let good = pool(ALICE, sale(10, 20, 800_000, 200_000));
    assert_eq!(p.create(false, good, &limits()), Err(DispatchError::BadOrigin));
    assert_eq!(p.pool_count(), 0);
    assert!(p.events().is_empty());
}

#[test]
fn sale_state_is_checked() {
    let p = with_pool(sale(100, 200, 800_000, 200_000));
    assert!(p.get_pool_ensuring_sale_state(0, 50, SaleState::NotStarted).is_ok());
    assert_eq!(
        p.get_pool_ensuring_sale_state(0, 150, SaleState::NotStarted).map(|x| x.owner),
        Err(lbp_err(Error::InvalidSaleState))
    );
    assert!(p.get_pool_ensuring_sale_state(0, 250, SaleState::Ended).is_ok());
    assert_eq!(Pallet::account_id(&3), Holder::Pool(3));
}

#[test]
fn exchange_with_equal_weights() {
    let p = with_pool(sale(100, 200, 500_000, 500_000));
    let reserves = PoolReserves { base: 1_000, quote: 1_000 };
    let pair = CurrencyPair::new(PROJECT, USDT);
    // 1000 * (1 - 1000 / 1100) = 90.90..
    assert_eq!(p.do_get_exchange(0, pair, 150, 100, reserves), Ok(90));
    assert_eq!(out_given_in(100, 1_000, 1_000, 500_000, 500_000), Ok(90));
}

#[test]
fn exchange_with_weights_matches_balancer_formula() {
    let p = with_pool(sale(100, 200, 800_000, 200_000));
    let reserves = PoolReserves { base: 5_000_000, quote: 1_000_000 };
    let pair = CurrencyPair::new(PROJECT, USDT);
    // at block 120 the base weight is 680_000 and the quote weight 320_000
    let expected = reference_out(10_000, 1_000_000, 5_000_000, 320_000, 680_000);
    assert_eq!(p.do_get_exchange(0, pair, 120, 10_000, reserves), Ok(expected));
    // the other direction: buying the quote asset with the base asset
    let expected_back = reference_out(10_000, 5_000_000, 1_000_000, 680_000, 320_000);
    assert_eq!(p.do_get_exchange(0, pair.swap(), 120, 10_000, reserves), Ok(expected_back));
    assert_eq!(
        p.get_exchange_value(0, PROJECT, 10_000, 120, reserves),
        Ok(expected)
    );
    assert_eq!(
        p.get_exchange_value(0, USDT, 10_000, 120, reserves),
        Ok(expected_back)
    );
}

#[test]
fn exchange_refusals() {
    let p = with_pool(sale(100, 200, 800_000, 200_000));
    let reserves = PoolReserves { base: 1_000, quote: 1_000 };
    let pair = CurrencyPair::new(PROJECT, USDT);
    assert_eq!(p.do_get_exchange(1, pair, 150, 10, reserves), Err(lbp_err(Error::PoolNotFound)));
    assert_eq!(p.do_get_exchange(0, pair, 50, 10, reserves), Err(lbp_err(Error::InvalidSaleState)));
    assert_eq!(p.do_get_exchange(0, pair, 200, 10, reserves), Err(lbp_err(Error::InvalidSaleState)));
    let other = CurrencyPair::new(PROJECT, CurrencyId(300));
    assert_eq!(p.do_get_exchange(0, other, 150, 10, reserves), Err(lbp_err(Error::PairMismatch)));
    assert_eq!(p.do_get_exchange(0, pair, 150, 0, reserves), Err(lbp_err(Error::InvalidAmount)));
    // nothing of the asset in: the pool gives out all of the asset out
    let empty = PoolReserves { base: 1_000, quote: 0 };
    assert_eq!(p.do_get_exchange(0, pair, 150, 10, empty), Ok(1_000));
    // a base weight of zero cannot be divided by
    let mut weightless = Pallet::new();
    assert_eq!(weightless.do_create_pool(pool(ALICE, sale(100, 200, 0, 0))), Ok(0));
    assert_eq!(
        weightless.do_get_exchange(0, pair, 150, 10, reserves),
        Err(DispatchError::Arithmetic(ArithmeticError::DivisionByZero))
    );
    let huge = PoolReserves { base: 1_000, quote: 1u128 << 100 };
    assert_eq!(
        p.do_get_exchange(0, pair, 150, 10, huge),
        Err(DispatchError::Arithmetic(ArithmeticError::Overflow))
    );
}

#[test]
fn spot_price_with_equal_weights() {
    let p = with_pool(sale(100, 200, 500_000, 500_000));
    let reserves = PoolReserves { base: 1_000, quote: 2_000 };
    let pair = CurrencyPair::new(PROJECT, USDT);
    let unit = CurrencyId(100).unit::<u128>();
    assert_eq!(p.do_spot_price(0, pair, 150, reserves, Ok(unit)), Ok(2 * unit));
    assert_eq!(
        p.do_spot_price(0, pair.swap(), 150, reserves, Ok(unit)),
        Ok(unit / 2)
    );
    assert_eq!(
        p.do_spot_price(0, pair, 150, reserves, Err(DispatchError::Other("no unit"))),
        Err(DispatchError::Other("no unit"))
    );
    assert_eq!(
        p.do_spot_price(0, pair, 50, reserves, Ok(unit)),
        Err(lbp_err(Error::InvalidSaleState))
    );
}

#[test]
fn swap_plans_transfers_and_emits_event() {
    let mut p = with_pool(sale(100, 200, 500_000, 500_000));
    let reserves = PoolReserves { base: 1_000, quote: 1_000 };
    let pair = CurrencyPair::new(PROJECT, USDT);
    let swap = p.swap(Origin::Signed(BOB), 0, pair, 100, 90, true, 150, reserves).unwrap();
    assert_eq!(swap.base_amount, 90);
    assert_eq!(
        swap.pay,
        Transfer { asset: USDT, source: Holder::Account(BOB), dest: Holder::Pool(0), amount: 100, keep_alive: true }
    );
    assert_eq!(
        swap.receive,
        Transfer { asset: PROJECT, source: Holder::Pool(0), dest: Holder::Account(BOB), amount: 90, keep_alive: false }
    );
    assert_eq!(
        p.events().last(),
        Some(&Event::Swapped {
            pool_id: 0,
            who: BOB,
            base_asset: PROJECT,
            quote_asset: USDT,
            base_amount: 90,
            quote_amount: 100
        })
    );
    let before = p.events().len();
    assert_eq!(
        p.swap(Origin::Signed(BOB), 0, pair, 100, 91, true, 150, reserves),
        Err(lbp_err(Error::CannotRespectMinimumRequested))
    );
    assert_eq!(p.swap(Origin::Root, 0, pair, 100, 0, true, 150, reserves), Err(DispatchError::BadOrigin));
    assert_eq!(p.events().len(), before);
}

#[test]
fn sell_takes_the_asset_sold() {
    let mut p = with_pool(sale(100, 200, 500_000, 500_000));
    let reserves = PoolReserves { base: 1_000, quote: 1_000 };
    // selling 100 of the quote asset pays out 90 of the base asset
    let sold = p.sell(Origin::Signed(BOB), 0, USDT, 100, false, 150, reserves).unwrap();
    assert_eq!(
        sold.pay,
        Transfer { asset: USDT, source: Holder::Account(BOB), dest: Holder::Pool(0), amount: 100, keep_alive: false }
    );
    assert_eq!(
        sold.receive,
        Transfer { asset: PROJECT, source: Holder::Pool(0), dest: Holder::Account(BOB), amount: 90, keep_alive: false }
    );
    // selling the base asset pays out the quote asset
    let back = p.sell(Origin::Signed(BOB), 0, PROJECT, 100, false, 150, reserves).unwrap();
    assert_eq!(back.pay.asset, PROJECT);
    assert_eq!(back.pay.amount, 100);
    assert_eq!(back.receive.asset, USDT);
    assert_eq!(back.base_amount, 90);
    assert_eq!(
        p.sell(Origin::Signed(BOB), 0, CurrencyId(999), 100, false, 150, reserves),
        Err(lbp_err(Error::PairMismatch))
    );
    assert_eq!(p.sell(Origin::Signed(BOB), 9, PROJECT, 100, false, 150, reserves), Err(lbp_err(Error::PoolNotFound)));
}

#[test]
fn buy_delivers_the_asset_bought() {
    let mut p = with_pool(sale(100, 200, 500_000, 500_000));
    let reserves = PoolReserves { base: 1_000, quote: 1_000 };
    // 90 of the base asset cost 1000 * (1000 / 910 - 1) = 98.90.., rounded up
    let bought = p.buy(Origin::Signed(BOB), 0, PROJECT, 90, true, 150, reserves).unwrap();
    assert_eq!(bought.base_amount, 90);
    assert_eq!(
        bought.receive,
        Transfer { asset: PROJECT, source: Holder::Pool(0), dest: Holder::Account(BOB), amount: 90, keep_alive: false }
    );
    assert_eq!(
        bought.pay,
        Transfer { asset: USDT, source: Holder::Account(BOB), dest: Holder::Pool(0), amount: 99, keep_alive: true }
    );
    assert_eq!(
        p.events().last(),
        Some(&Event::Swapped {
            pool_id: 0,
            who: BOB,
            base_asset: PROJECT,
            quote_asset: USDT,
            base_amount: 90,
            quote_amount: 99
        })
    );
    // paying 99 of the quote asset gives back at least the 90 bought
    assert!(out_given_in(99, 1_000, 1_000, 500_000, 500_000).unwrap() >= 90);
    // a fractional price is rounded up: 100 out of 1000 with equal weights costs 1000/9 = 111.1.. -> 112;
    // an exact one stays: 500 out of 1000 costs exactly 1000
    assert_eq!(in_given_out(500, 1_000, 1_000, 500_000, 500_000), Ok(1_000));
    assert_eq!(in_given_out(100, 1_000, 1_000, 500_000, 500_000), Ok(112));
}

#[test]
fn buy_refusals() {
    let mut p = with_pool(sale(100, 200, 500_000, 500_000));
    let reserves = PoolReserves { base: 1_000, quote: 1_000 };
    assert_eq!(p.buy(Origin::Unsigned, 0, PROJECT, 10, false, 150, reserves), Err(DispatchError::BadOrigin));
    assert_eq!(p.buy(Origin::Signed(BOB), 9, PROJECT, 10, false, 150, reserves), Err(lbp_err(Error::PoolNotFound)));
    assert_eq!(p.buy(Origin::Signed(BOB), 0, PROJECT, 10, false, 50, reserves), Err(lbp_err(Error::InvalidSaleState)));
    assert_eq!(
        p.buy(Origin::Signed(BOB), 0, CurrencyId(999), 10, false, 150, reserves),
        Err(lbp_err(Error::PairMismatch))
    );
    assert_eq!(p.buy(Origin::Signed(BOB), 0, PROJECT, 0, false, 150, reserves), Err(lbp_err(Error::InvalidAmount)));
    assert_eq!(p.buy(Origin::Signed(BOB), 0, PROJECT, 1_000, false, 150, reserves), Err(lbp_err(Error::InvalidAmount)));
    assert!(p.events().len() == 1);
}

#[test]
fn add_liquidity_only_by_owner_before_sale() {
    let p = with_pool(sale(100, 200, 800_000, 200_000));
    let (a, b) = p.add_liquidity(&ALICE, 0, 5_000, 1_000, 0, true, 50).unwrap();
    assert_eq!(a, Transfer { asset: PROJECT, source: Holder::Account(ALICE), dest: Holder::Pool(0), amount: 5_000, keep_alive: true });
    assert_eq!(b, Transfer { asset: USDT, source: Holder::Account(ALICE), dest: Holder::Pool(0), amount: 1_000, keep_alive: true });
    assert_eq!(p.add_liquidity(&BOB, 0, 5_000, 1_000, 0, true, 50), Err(lbp_err(Error::MustBeOwner)));
    assert_eq!(p.add_liquidity(&ALICE, 0, 0, 1_000, 0, true, 50), Err(lbp_err(Error::InvalidAmount)));
    assert_eq!(p.add_liquidity(&ALICE, 0, 5_000, 0, 0, true, 50), Err(lbp_err(Error::InvalidAmount)));
    assert_eq!(p.add_liquidity(&ALICE, 0, 5_000, 1_000, 0, true, 100), Err(lbp_err(Error::InvalidSaleState)));
}

#[test]
fn remove_liquidity_after_sale_deletes_pool() {
    let mut p = with_pool(sale(100, 200, 800_000, 200_000));
    let reserves = PoolReserves { base: 700, quote: 1_300 };
    assert_eq!(p.remove_liquidity(&ALICE, 0, 0, 0, 0, 150, reserves), Err(lbp_err(Error::InvalidSaleState)));
    assert_eq!(p.remove_liquidity(&BOB, 0, 0, 0, 0, 250, reserves), Err(lbp_err(Error::MustBeOwner)));
    let (a, b) = p.remove_liquidity(&ALICE, 0, 0, 0, 0, 250, reserves).unwrap();
    assert_eq!(a, Transfer { asset: PROJECT, source: Holder::Pool(0), dest: Holder::Account(ALICE), amount: 700, keep_alive: false });
    assert_eq!(b, Transfer { asset: USDT, source: Holder::Pool(0), dest: Holder::Account(ALICE), amount: 1_300, keep_alive: false });
    assert!(!p.pool_exists(0));
    assert_eq!(p.pool_count(), 1);
    assert_eq!(
        p.events().last(),
        Some(&Event::PoolDeleted { pool_id: 0, owner: ALICE, base_amount: 700, quote_amount: 1_300 })
    );
    assert_eq!(p.remove_liquidity(&ALICE, 0, 0, 0, 0, 250, reserves), Err(lbp_err(Error::PoolNotFound)));
}

#[test]
fn currency_pairs_equal_in_either_order() {
    let ab = CurrencyPair::new(PROJECT, USDT);
    assert!(ab == ab.swap());
    assert!(ab == CurrencyPair::new(PROJECT, USDT));
    assert!(ab != CurrencyPair::new(PROJECT, CurrencyId(1)));
}
