//! Registry of liquidation strategies.
//!
//! A position is liquidated by trying the configured strategies in order; as
//! for now only Dutch auctions can run, and the auction itself is another
//! pallet's business. `liquidate_step` decides, from the answer to the last
//! auction asked for, which auction to ask for next or how the liquidation
//! ends; `liquidate` runs those steps with a function that opens an auction.

use vstd::prelude::*;
use std::collections::BTreeMap;
use crate::arithmetic::{Permill, Perquintill};
use crate::dispatch::{DispatchError, Origin};

verus! {

/// Identifier of a liquidation strategy.
pub type LiquidationStrategyId = u32;

/// Identifier of a parachain.
pub type ParachainId = u32;

/// The price falls linearly to zero over `total` seconds.
#[derive(Copy, Clone, Debug, PartialEq, Eq, Structural)]
pub struct LinearDecrease {
    pub total: u64,
}

/// The price is cut by `cut` every `step` seconds.
#[derive(Copy, Clone, Debug, PartialEq, Eq, Structural)]
pub struct StairstepExponentialDecrease {
    pub step: u64,
    pub cut: Permill,
}

/// How the price of a Dutch auction falls over time.
#[derive(Copy, Clone, Debug, PartialEq, Eq, Structural)]
pub enum TimeReleaseFunction {
    LinearDecrease(LinearDecrease),
    StairstepExponentialDecrease(StairstepExponentialDecrease),
}

/// A liquidation strategy.
#[derive(Copy, Clone, Debug, PartialEq, Eq, Structural)]
pub enum LiquidationStrategyConfiguration {
    DutchAuction(TimeReleaseFunction),
    UniswapV2 { slippage: Perquintill },
    XcmDex { parachain_id: ParachainId },
}

/// Events of the pallet.
#[derive(Copy, Clone, Debug, PartialEq, Eq, Structural)]
pub enum Event {
    PositionWasSentToLiquidation,
}

/// Errors of the pallet.
#[derive(Copy, Clone, Debug, PartialEq, Eq, Structural)]
pub enum Error {
    NoLiquidationEngineFound,
}

/// Storage of the pallet.
#[derive(Clone)]
pub struct Pallet {
    strategies: BTreeMap<LiquidationStrategyId, LiquidationStrategyConfiguration>,
    strategy_index: LiquidationStrategyId,
    default_strategy_index: LiquidationStrategyId,
    events: Vec<Event>,
}

/// The pallet's storage as mathematical values.
pub struct LiquidationsView {
    pub strategies: Map<LiquidationStrategyId, LiquidationStrategyConfiguration>,
    pub strategy_index: LiquidationStrategyId,
    pub default_strategy_index: LiquidationStrategyId,
    pub events: Seq<Event>,
}

impl View for Pallet {
    type V = LiquidationsView;

    closed spec fn view(&self) -> LiquidationsView {
        LiquidationsView {
            strategies: self.strategies@,
            strategy_index: self.strategy_index,
            default_strategy_index: self.default_strategy_index,
            events: self.events@,
        }
    }
}

/// The identifier after `id`, wrapping around.
pub open spec fn next_strategy_id(id: LiquidationStrategyId) -> LiquidationStrategyId {
    if id == u32::MAX {
        0
    } else {
        (id + 1) as u32
    }
}

/// The error when a strategy other than a Dutch auction comes up.
pub open spec fn only_auctions_error() -> DispatchError {
    DispatchError::Other("as for now, only auction liquidators implemented")
}

/// What liquidating with the strategies `ids` tries from position `from` on,
/// in order: the Dutch auctions of the stored strategies (ids that are not
/// stored are skipped), up to the first stored strategy that is not an
/// auction; and the error returned when none of them opens.
pub open spec fn attempts_from(
    strategies: Map<LiquidationStrategyId, LiquidationStrategyConfiguration>,
    ids: Seq<LiquidationStrategyId>,
    from: int,
) -> (Seq<TimeReleaseFunction>, DispatchError)
    decreases ids.len() - from,
{
    if from < 0 || from >= ids.len() {
        (Seq::empty(), DispatchError::Liquidations(Error::NoLiquidationEngineFound))
    } else if !strategies.contains_key(ids[from]) {
        attempts_from(strategies, ids, from + 1)
    } else {
        match strategies[ids[from]] {
            LiquidationStrategyConfiguration::DutchAuction(c) => {
                let rest = attempts_from(strategies, ids, from + 1);
                (seq![c] + rest.0, rest.1)
            },
            _ => (Seq::empty(), only_auctions_error()),
        }
    }
}

/// The next thing a liquidation does from position `from` of `ids`: ask for
/// an auction and go on after it, or stop with an error.
pub enum Scan {
    Auction { configuration: TimeReleaseFunction, next: int },
    Stop { error: DispatchError },
}

/// The next auction among the strategies `ids` from position `from` on
/// (skipping ids that are not stored), or why there is none.
pub open spec fn scan(
    strategies: Map<LiquidationStrategyId, LiquidationStrategyConfiguration>,
    ids: Seq<LiquidationStrategyId>,
    from: int,
) -> Scan
    decreases ids.len() - from,
{
    if from < 0 || from >= ids.len() {
        Scan::Stop { error: DispatchError::Liquidations(Error::NoLiquidationEngineFound) }
    } else if !strategies.contains_key(ids[from]) {
        scan(strategies, ids, from + 1)
    } else {
        match strategies[ids[from]] {
            LiquidationStrategyConfiguration::DutchAuction(c) => Scan::Auction {
                configuration: c,
                next: from + 1,
            },
            _ => Scan::Stop { error: only_auctions_error() },
        }
    }
}

/// The attempts from `from` on are the auction that `scan` finds, then the
/// attempts after it; or none, with the error that `scan` stops at.
pub proof fn lemma_scan_attempts(
    strategies: Map<LiquidationStrategyId, LiquidationStrategyConfiguration>,
    ids: Seq<LiquidationStrategyId>,
    from: int,
)
    requires
        0 <= from <= ids.len(),
    ensures
        match scan(strategies, ids, from) {
            Scan::Auction { configuration, next } => {
                &&& from < next <= ids.len()
                &&& attempts_from(strategies, ids, from).0 == seq![configuration] + attempts_from(
                    strategies,
                    ids,
                    next,
                ).0
                &&& attempts_from(strategies, ids, from).1 == attempts_from(strategies, ids, next).1
            },
            Scan::Stop { error } => attempts_from(strategies, ids, from) == (
                Seq::<TimeReleaseFunction>::empty(),
                error,
            ),
        },
    decreases ids.len() - from,
{
    if from < ids.len() && !strategies.contains_key(ids[from]) {
        lemma_scan_attempts(strategies, ids, from + 1);
    }
}

/// `ask` can answer the auction `c` with an error.
pub open spec fn answered_err<O, F: Fn(TimeReleaseFunction) -> Result<O, DispatchError>>(
    ask: F,
    c: TimeReleaseFunction,
) -> bool {
    exists|e: DispatchError| call_ensures(ask, (c,), Err::<O, DispatchError>(e))
}

/// Each of the first `k` attempts failed: `ask` returned an error for it.
pub open spec fn failed_before<O, F: Fn(TimeReleaseFunction) -> Result<O, DispatchError>>(
    ask: F,
    attempts: Seq<TimeReleaseFunction>,
    k: int,
) -> bool {
    forall|j: int| 0 <= j < k ==> #[trigger] answered_err::<O, F>(ask, attempts[j])
}

/// The strategies a liquidation uses: those given, or the default one.
pub open spec fn strategies_to_use(v: LiquidationsView, configuration: Seq<LiquidationStrategyId>) -> Seq<
    LiquidationStrategyId,
> {
    if configuration.len() == 0 {
        seq![v.default_strategy_index]
    } else {
        configuration
    }
}

/// A liquidation given no strategies uses the default one: it tries the
/// same auctions, in the same order, and fails with the same error as a
/// liquidation given only the default strategy.
pub proof fn lemma_empty_configuration_uses_default(v: LiquidationsView)
    ensures
        strategies_to_use(v, Seq::empty()) == strategies_to_use(v, seq![v.default_strategy_index]),
        attempts_from(v.strategies, strategies_to_use(v, Seq::empty()), 0) == attempts_from(
            v.strategies,
            strategies_to_use(v, seq![v.default_strategy_index]),
            0,
        ),
{
}

/// What a liquidation does next: ask for an auction with `configuration` and
/// go on at `resume_at` with its answer, or finish with a result.
pub enum LiquidationStep<O> {
    Ask { configuration: TimeReleaseFunction, resume_at: usize },
    Done(Result<O, DispatchError>),
}

/// Initial configuration of the pallet.
pub struct GenesisConfig;

impl GenesisConfig {
    /// The storage at genesis: strategy 1, the default, is a Dutch auction
    /// whose price falls linearly over ten minutes; strategy 2 is a Dutch
    /// auction whose price is cut to 95% every 10 seconds.
    pub fn build(&self) -> (r: Pallet)
        ensures
            r@.strategy_index == 2,
            r@.default_strategy_index == 1,
            r@.events == Seq::<Event>::empty(),
            r@.strategies.dom() == set![1u32, 2u32],
            r@.strategies[1] == LiquidationStrategyConfiguration::DutchAuction(
                TimeReleaseFunction::LinearDecrease(LinearDecrease { total: 600 }),
            ),
            r@.strategies[2] matches LiquidationStrategyConfiguration::DutchAuction(
                TimeReleaseFunction::StairstepExponentialDecrease(s),
            ) && s.step == 10 && s.cut@ == 950_000,
    {
        let mut pallet = Pallet {
            strategies: BTreeMap::new(),
            strategy_index: 0,
            default_strategy_index: 0,
            events: Vec::new(),
        };
        let index = pallet.create_strategy_id();
        pallet.default_strategy_index = index;
        let linear_ten_minutes = LiquidationStrategyConfiguration::DutchAuction(
            TimeReleaseFunction::LinearDecrease(LinearDecrease { total: 10 * 60 }),
        );
        pallet.strategies.insert(index, linear_ten_minutes);
        let index = pallet.create_strategy_id();
        let exponential = StairstepExponentialDecrease {
            step: 10,
            cut: Permill::from_rational(95, 100),
        };
        proof {
            assert(crate::arithmetic::div_ceil(100, 1_000_000) == 1) by {
                vstd::arithmetic::div_mod::lemma_basic_div(100, 1_000_000);
                vstd::arithmetic::div_mod::lemma_small_mod(100, 1_000_000);
            }
            assert(100nat / 1nat == 100nat);
            assert(95nat / 1nat == 95nat);
            vstd::arithmetic::div_mod::lemma_div_by_multiple(950_000, 100);
            assert((95nat * 1_000_000nat) / 100nat == 950_000nat);
            assert(crate::arithmetic::permill_from_rational_parts(95, 100) == 950_000);
        }
        let exponential = LiquidationStrategyConfiguration::DutchAuction(
            TimeReleaseFunction::StairstepExponentialDecrease(exponential),
        );
        pallet.strategies.insert(index, exponential);
        proof {
            assert(pallet.strategies@.dom() =~= set![1u32, 2u32]);
        }
        pallet
    }
}

impl Pallet {
    /// The strategy stored under `id`, if any.
    pub fn strategies(&self, id: LiquidationStrategyId) -> (r: Option<LiquidationStrategyConfiguration>)
        ensures
            r == (if self@.strategies.contains_key(id) {
                Some(self@.strategies[id])
            } else {
                None::<LiquidationStrategyConfiguration>
            }),
    {
        match self.strategies.get(&id) {
            Some(c) => Some(*c),
            None => None,
        }
    }

    /// The last strategy identifier handed out.
    pub fn strategy_index(&self) -> (r: LiquidationStrategyId)
        ensures
            r == self@.strategy_index,
    {
        self.strategy_index
    }

    /// The strategy used when a liquidation names none.
    pub fn default_strategy_index(&self) -> (r: LiquidationStrategyId)
        ensures
            r == self@.default_strategy_index,
    {
        self.default_strategy_index
    }

    /// The events deposited so far.
    pub fn events(&self) -> (r: Vec<Event>)
        ensures
            r@ == self@.events,
    {
        self.events.clone()
    }

    /// Adding strategies is not implemented: always fails.
    pub fn add_liquidation_strategy(
        &mut self,
        _origin: Origin,
        _configuration: LiquidationStrategyConfiguration,
    ) -> (r: Result<(), DispatchError>)
        ensures
            r == Err::<(), DispatchError>(DispatchError::Other("add_liquidation_strategy: no implemented")),
            final(self)@ == old(self)@,
    {
        Err(DispatchError::Other("add_liquidation_strategy: no implemented"))
    }

    /// Hands out the next strategy identifier, wrapping around.
    pub fn create_strategy_id(&mut self) -> (r: LiquidationStrategyId)
        ensures
            r == next_strategy_id(old(self)@.strategy_index),
            final(self)@ == (LiquidationsView { strategy_index: r, ..old(self)@ }),
    {
        self.strategy_index = self.strategy_index.wrapping_add(1);
        self.strategy_index
    }

    /// The strategies a liquidation with `configuration` tries: those given,
    /// or the default strategy when none is given.
    pub fn strategies_to_try(&self, configuration: Vec<LiquidationStrategyId>) -> (r: Vec<
        LiquidationStrategyId,
    >)
        ensures
            r@ == strategies_to_use(self@, configuration@),
    {
        let mut ids = configuration;
        if ids.len() == 0 {
            ids.push(self.default_strategy_index);
            proof {
                assert(ids@ =~= seq![self.default_strategy_index]);
            }
        }
        ids
    }

    /// One step of a liquidation with the strategies `ids`, at `position`,
    /// given the answer of the auction asked for last (none at the start).
    /// After an auction opened, deposits `PositionWasSentToLiquidation` and is
    /// done with its order; otherwise asks for the next auction strategy at or
    /// after `position`, or is done with an error when a strategy other than
    /// an auction comes first or none is left.
    pub fn liquidate_step<O>(
        &mut self,
        ids: &Vec<LiquidationStrategyId>,
        position: usize,
        last_answer: Option<Result<O, DispatchError>>,
    ) -> (r: LiquidationStep<O>)
        requires
            position <= ids@.len(),
        ensures
            match last_answer {
                Some(Ok(order)) => {
                    &&& r == LiquidationStep::<O>::Done(Ok(order))
                    &&& final(self)@ == (LiquidationsView {
                        events: old(self)@.events.push(Event::PositionWasSentToLiquidation),
                        ..old(self)@
                    })
                },
                _ => {
                    &&& final(self)@ == old(self)@
                    &&& match scan(old(self)@.strategies, ids@, position as int) {
                        Scan::Auction { configuration, next } => r matches LiquidationStep::Ask {
                            configuration: c,
                            resume_at,
                        } && c == configuration && resume_at == next,
                        Scan::Stop { error } => r == LiquidationStep::<O>::Done(Err(error)),
                    }
                },
            },
            r matches LiquidationStep::Ask { resume_at, .. } ==> position < resume_at <= ids@.len(),
    {
        let ghost answered_ok = last_answer matches Some(Ok(_));
        match last_answer {
            Some(Ok(order)) => {
                self.events.push(Event::PositionWasSentToLiquidation);
                return LiquidationStep::Done(Ok(order));
            },
            _ => {},
        }
        let mut i = position;
        while i < ids.len()
            invariant
                position <= i <= ids@.len(),
                self@ == old(self)@,
                !answered_ok,
                answered_ok == (last_answer matches Some(Ok(_))),
                scan(self@.strategies, ids@, position as int) == scan(self@.strategies, ids@, i as int),
            decreases ids@.len() - i,
        {
            let id = ids[i];
            match self.strategies.get(&id) {
                Some(LiquidationStrategyConfiguration::DutchAuction(c)) => {
                    return LiquidationStep::Ask { configuration: *c, resume_at: i + 1 };
                },
                Some(_) => {
                    return LiquidationStep::Done(
                        Err(DispatchError::Other("as for now, only auction liquidators implemented")),
                    );
                },
                None => {},
            }
            i = i + 1;
        }
        LiquidationStep::Done(Err(DispatchError::Liquidations(Error::NoLiquidationEngineFound)))
    }

    /// Liquidates a position with the strategies `configuration` (the default
    /// strategy when it is empty), asking for auctions with `ask` as
    /// `liquidate_step` directs. Returns the outcome and the auction
    /// configurations asked for, in order.
    pub fn liquidate<O, F: Fn(TimeReleaseFunction) -> Result<O, DispatchError>>(
        &mut self,
        configuration: Vec<LiquidationStrategyId>,
        ask: F,
    ) -> (r: (Result<O, DispatchError>, Vec<TimeReleaseFunction>))
        requires
            forall|c: TimeReleaseFunction| call_requires(ask, (c,)),
        ensures
            ({
                let (attempts, failure) = attempts_from(
                    old(self)@.strategies,
                    strategies_to_use(old(self)@, configuration@),
                    0,
                );
                let asked = r.1@;
                match r.0 {
                    Ok(order) => {
                        &&& 1 <= asked.len() <= attempts.len()
                        &&& asked == attempts.take(asked.len() as int)
                        &&& call_ensures(ask, (asked.last(),), Ok::<O, DispatchError>(order))
                        &&& failed_before(ask, asked, asked.len() - 1)
                        &&& final(self)@ == (LiquidationsView {
                            events: old(self)@.events.push(Event::PositionWasSentToLiquidation),
                            ..old(self)@
                        })
                    },
                    Err(e) => {
                        &&& asked == attempts
                        &&& e == failure
                        &&& failed_before(ask, attempts, attempts.len() as int)
                        &&& final(self)@ == old(self)@
                    },
                }
            }),
    {
        let ids = self.strategies_to_try(configuration);
        let ghost all = attempts_from(self@.strategies, ids@, 0);
        let mut asked: Vec<TimeReleaseFunction> = Vec::new();
        let mut position: usize = 0;
        let mut last: Option<Result<O, DispatchError>> = None;
        proof {
            assert(asked@ + all.0 =~= all.0);
        }
        loop
            invariant
                self@ == old(self)@,
                ids@ == strategies_to_use(old(self)@, configuration@),
                all == attempts_from(old(self)@.strategies, ids@, 0),
                position <= ids@.len(),
                asked@ + attempts_from(old(self)@.strategies, ids@, position as int).0 == all.0,
                attempts_from(old(self)@.strategies, ids@, position as int).1 == all.1,
                forall|c: TimeReleaseFunction| call_requires(ask, (c,)),
                last is None <==> asked@.len() == 0,
                last matches Some(answer) ==> call_ensures(ask, (asked@.last(),), answer),
                asked@.len() > 0 ==> failed_before(ask, asked@, asked@.len() - 1),
            decreases ids@.len() - position, if last matches Some(Ok(_)) { 0int } else { 1int },
        {
            proof {
                lemma_scan_attempts(old(self)@.strategies, ids@, position as int);
            }
            let ghost prior = asked@;
            let ghost prior_last = last;
            match self.liquidate_step(&ids, position, last) {
                LiquidationStep::Ask { configuration: c, resume_at } => {
                    let answer = ask(c);
                    proof {
                        if prior.len() > 0 {
                            lemma_all_failed(ask, prior, prior_last->0);
                            assert forall|j: int| 0 <= j < prior.len() implies #[trigger] answered_err::<
                                O,
                                F,
                            >(ask, prior.push(c)[j]) by {
                                assert(prior.push(c)[j] == prior[j]);
                            }
                        }
                    }
                    asked.push(c);
                    proof {
                        assert(!(prior_last matches Some(Ok(_))));
                        match scan(old(self)@.strategies, ids@, position as int) {
                            Scan::Auction { configuration, next } => {
                                assert(c == configuration);
                                assert(resume_at as int == next);
                            },
                            Scan::Stop { .. } => {
                                assert(false);
                            },
                        }
                        assert(asked@ + attempts_from(old(self)@.strategies, ids@, resume_at as int).0
                            =~= all.0);
                    }
                    last = Some(answer);
                    position = resume_at;
                },
                LiquidationStep::Done(result) => {
                    proof {
                        if result is Err {
                            assert(asked@ =~= all.0);
                            if prior.len() > 0 {
                                lemma_all_failed(ask, prior, prior_last->0);
                            }
                        } else {
                            assert(asked@ =~= all.0.take(asked@.len() as int));
                        }
                    }
                    return (result, asked);
                },
            }
        }
    }
}

/// When every attempt but the last failed and the last one's answer is an
/// error too, every attempt failed.
proof fn lemma_all_failed<O, F: Fn(TimeReleaseFunction) -> Result<O, DispatchError>>(
    ask: F,
    attempts: Seq<TimeReleaseFunction>,
    answer: Result<O, DispatchError>,
)
    requires
        attempts.len() > 0,
        failed_before(ask, attempts, attempts.len() - 1),
        call_ensures(ask, (attempts.last(),), answer),
        answer is Err,
    ensures
        failed_before(ask, attempts, attempts.len() as int),
{
    let e = answer->Err_0;
    assert(call_ensures(ask, (attempts.last(),), Err::<O, DispatchError>(e)));
    assert(answered_err::<O, F>(ask, attempts[attempts.len() - 1]));
}

} // verus!
