use std::cell::RefCell;
use composable::arithmetic::Perquintill;
use composable::dispatch::{DispatchError, Origin};
use composable::liquidations::{
    Error, Event, GenesisConfig, LinearDecrease, LiquidationStep, LiquidationStrategyConfiguration,
    TimeReleaseFunction,
};

fn linear_ten_minutes() -> TimeReleaseFunction {
    TimeReleaseFunction::LinearDecrease(LinearDecrease { total: 600 })
}

#[test]
fn genesis_strategies() {
    let p = GenesisConfig.build();
    assert_eq!(p.default_strategy_index(), 1);
    assert_eq!(p.strategy_index(), 2);
    assert_eq!(p.strategies(1), Some(LiquidationStrategyConfiguration::DutchAuction(linear_ten_minutes())));
    match p.strategies(2) {
        Some(LiquidationStrategyConfiguration::DutchAuction(TimeReleaseFunction::StairstepExponentialDecrease(s))) => {
            assert_eq!(s.step, 10);
            assert_eq!(s.cut.deconstruct(), 950_000);
        }
        other => panic!("unexpected strategy {:?}", other),
    }
    assert_eq!(p.strategies(3), None);
}

#[test]
fn strategy_ids_count_up() {
    let mut p = GenesisConfig.build();
    assert_eq!(p.create_strategy_id(), 3);
    assert_eq!(p.create_strategy_id(), 4);
    assert_eq!(p.strategy_index(), 4);
}

#[test]
fn adding_strategies_is_not_implemented() {
    let mut p = GenesisConfig.build();
    let uni = LiquidationStrategyConfiguration::UniswapV2 { slippage: Perquintill::from_parts(5) };
    assert_eq!(
        p.add_liquidation_strategy(Origin::Root, uni),
        Err(DispatchError::Other("add_liquidation_strategy: no implemented"))
    );
}

#[test]
fn liquidate_with_default_strategy() {
    let mut p = GenesisConfig.build();
    let (result, asked) = p.liquidate(vec![], |_| Ok::<u64, DispatchError>(77));
    assert_eq!(result, Ok(77));
    assert_eq!(asked, vec![linear_ten_minutes()]);
    assert_eq!(p.events(), vec![Event::PositionWasSentToLiquidation]);
}

#[test]
fn empty_configuration_acts_like_the_default() {
    let mut a = GenesisConfig.build();
    let mut b = GenesisConfig.build();
    let refused = |_| Err::<u64, DispatchError>(DispatchError::Other("refused"));
    let (ra, asked_a) = a.liquidate(vec![], refused);
    let (rb, asked_b) = b.liquidate(vec![1], refused);
    assert_eq!(ra, rb);
    assert_eq!(asked_a, asked_b);
    assert_eq!(a.events(), b.events());
    assert_eq!(a.strategies_to_try(vec![]), vec![1]);
}

#[test]
fn liquidate_tries_auctions_in_order() {
    let mut p = GenesisConfig.build();
    let calls = RefCell::new(0);
    // strategy 9 does not exist and is skipped; 1 fails; 2 succeeds
    let (result, asked) = p.liquidate(vec![9, 1, 2, 1], |_| {
        *calls.borrow_mut() += 1;
        if *calls.borrow() == 1 { Err(DispatchError::Other("refused")) } else { Ok::<u64, DispatchError>(5) }
    });
    assert_eq!(result, Ok(5));
    assert_eq!(calls.into_inner(), 2);
    assert_eq!(asked.len(), 2);
    assert_eq!(asked[0], linear_ten_minutes());
    assert!(matches!(asked[1], TimeReleaseFunction::StairstepExponentialDecrease(_)));
    assert_eq!(p.events(), vec![Event::PositionWasSentToLiquidation]);
}

#[test]
fn liquidate_fails_when_no_auction_opens() {
    let mut p = GenesisConfig.build();
    let (result, asked) =
        p.liquidate(vec![1, 2], |_| Err::<u64, DispatchError>(DispatchError::Other("refused")));
    assert_eq!(result, Err(DispatchError::Liquidations(Error::NoLiquidationEngineFound)));
    assert_eq!(asked.len(), 2);
    assert!(p.events().is_empty());
    let (none, asked) = p.liquidate(vec![42], |_| Ok::<u64, DispatchError>(1));
    assert_eq!(none, Err(DispatchError::Liquidations(Error::NoLiquidationEngineFound)));
    assert!(asked.is_empty());
}

#[test]
fn liquidation_steps() {
    let mut p = GenesisConfig.build();
    let ids = vec![1, 2];
    match p.liquidate_step::<u64>(&ids, 0, None) {
        LiquidationStep::Ask { configuration, resume_at } => {
            assert_eq!(configuration, linear_ten_minutes());
            assert_eq!(resume_at, 1);
        }
        LiquidationStep::Done(r) => panic!("unexpected end {:?}", r),
    }
    match p.liquidate_step::<u64>(&ids, 1, Some(Err(DispatchError::Other("refused")))) {
        LiquidationStep::Ask { resume_at, .. } => assert_eq!(resume_at, 2),
        LiquidationStep::Done(r) => panic!("unexpected end {:?}", r),
    }
    match p.liquidate_step::<u64>(&ids, 2, Some(Err(DispatchError::Other("refused")))) {
        LiquidationStep::Done(r) => {
            assert_eq!(r, Err(DispatchError::Liquidations(Error::NoLiquidationEngineFound)))
        }
        LiquidationStep::Ask { .. } => panic!("nothing is left to ask"),
    }
    assert!(p.events().is_empty());
    match p.liquidate_step::<u64>(&ids, 1, Some(Ok(9))) {
        LiquidationStep::Done(r) => assert_eq!(r, Ok(9)),
        LiquidationStep::Ask { .. } => panic!("an opened auction ends the liquidation"),
    }
    assert_eq!(p.events(), vec![Event::PositionWasSentToLiquidation]);
}
