//! Liquidity bootstrapping pools (LBP).
//!
//! A pool sells a project token (the base asset) for a collateral (the quote
//! asset) over a sale period. The weight of the base asset falls linearly from
//! an initial to a final weight, and exchanges are priced by the weighted
//! constant-product formula of Balancer.
//!
//! The pallet's storage is a `Pallet` value. What a call reads from the rest of
//! the runtime (the current block, the pool account's balances, the unit of a
//! currency) comes in as arguments, and what it does to the runtime (asset
//! transfers) comes out as `Transfer` values that the caller carries out. A call
//! whose transfers fail is rolled back by the caller: the calls are
//! transactional.

use vstd::prelude::*;
use std::collections::BTreeMap;
use crate::arithmetic::{
    ArithmeticError, Permill, PERMILL_ACCURACY, permill_from_rational_parts, permill_mul_parts,
    lemma_from_rational_bounded,
};
use crate::currency::CurrencyId;
use crate::decimal::{
    Dec, dec_add, dec_div, dec_from_u128, dec_from_u32, dec_into_u128, dec_mul, dec_of_u128,
    dec_powd, dec_safe_add, dec_safe_div, dec_safe_mul, dec_safe_powd, dec_safe_sub, dec_sub,
    dec_to_u128, decimal_checked_div, decimal_checked_mul, decimal_checked_powd, decimal_checked_sub,
};
use crate::defi::{CurrencyPair, same_pair};
use crate::dispatch::{
    AccountId, Balance, BlockNumber, DispatchError, Origin, ensure_signed,
};

verus! {

/// Identifier of a pool.
pub type PoolId = u128;

/// Where a sale stands at a given block.
#[derive(Copy, Clone, Debug, PartialEq, Eq, Structural)]
pub enum SaleState {
    NotStarted,
    Ongoing,
    Ended,
}

/// The sale period of a pool and the weights of its base asset.
#[derive(Copy, Clone, Debug, PartialEq, Eq, Structural)]
pub struct Sale {
    /// Block at which the sale starts.
    pub start: BlockNumber,
    /// Block at which the sale stops.
    pub end: BlockNumber,
    /// Initial weight of the base asset of the pair.
    pub initial_weight: Permill,
    /// Final weight of the base asset of the pair.
    pub final_weight: Permill,
}

/// A liquidity bootstrapping pool.
#[derive(Copy, Clone, Debug)]
pub struct Pool {
    /// Owner of the pool.
    pub owner: AccountId,
    /// Base asset (the project token) and quote asset (the collateral).
    pub pair: CurrencyPair,
    /// Sale period of the pool.
    pub sale: Sale,
}

/// The runtime's limits on the pools that can be created.
#[derive(Copy, Clone, Debug)]
pub struct PoolLimits {
    /// Maximum duration of a sale.
    pub max_sale_duration: BlockNumber,
    /// Maximum initial weight.
    pub max_initial_weight: Permill,
    /// Minimum final weight.
    pub min_final_weight: Permill,
}

/// Events of the pallet.
#[derive(Copy, Clone, Debug, PartialEq, Eq, Structural)]
pub enum Event {
    /// Pool `pool_id` was created by `owner`.
    PoolCreated { pool_id: PoolId, owner: AccountId },
    /// The sale ended, the funds were repatriated and the pool deleted.
    PoolDeleted { pool_id: PoolId, owner: AccountId, base_amount: Balance, quote_amount: Balance },
    /// Liquidity was added into the pool.
    LiquidityAdded { pool_id: PoolId, base_amount: Balance, quote_amount: Balance },
    /// `who` gave `quote_amount` of `quote_asset` and received `base_amount` of `base_asset`.
    Swapped {
        pool_id: PoolId,
        who: AccountId,
        base_asset: CurrencyId,
        quote_asset: CurrencyId,
        base_amount: Balance,
        quote_amount: Balance,
    },
}

/// Errors of the pallet.
#[derive(Copy, Clone, Debug, PartialEq, Eq, Structural)]
pub enum Error {
    PoolNotFound,
    PairMismatch,
    MustBeOwner,
    InvalidSaleState,
    InvalidAmount,
    CannotRespectMinimumRequested,
}

/// Who holds funds: an account, or the account of a pool.
#[derive(Copy, Clone, Debug, PartialEq, Eq, Structural)]
pub enum Holder {
    Account(AccountId),
    Pool(PoolId),
}

/// A transfer of `amount` of `asset` from `source` to `dest`.
#[derive(Copy, Clone, Debug, PartialEq, Eq, Structural)]
pub struct Transfer {
    pub asset: CurrencyId,
    pub source: Holder,
    pub dest: Holder,
    pub amount: Balance,
    /// Whether the transfer must leave the source account alive.
    pub keep_alive: bool,
}

/// An exchange: what the trader pays and what the pool pays out.
#[derive(Copy, Clone, Debug, PartialEq, Eq, Structural)]
pub struct Swap {
    /// Amount of the pair's base asset received.
    pub base_amount: Balance,
    /// The trader's payment of the quote asset to the pool.
    pub pay: Transfer,
    /// The pool's payment of the base asset to the trader.
    pub receive: Transfer,
}

/// Balances that the pool's account holds of its pair's base and quote assets.
#[derive(Copy, Clone, Debug, PartialEq, Eq, Structural)]
pub struct PoolReserves {
    pub base: Balance,
    pub quote: Balance,
}

// ---------------------------------------------------------------------------
// The sale
// ---------------------------------------------------------------------------

/// Length of the sale in blocks, `end - start` saturating at zero.
pub open spec fn sale_duration(sale: Sale) -> nat {
    if sale.end >= sale.start {
        (sale.end - sale.start) as nat
    } else {
        0
    }
}

/// Where the sale stands at `block`.
pub open spec fn sale_state(sale: Sale, block: BlockNumber) -> SaleState {
    if block < sale.start {
        SaleState::NotStarted
    } else if block >= sale.end {
        SaleState::Ended
    } else {
        SaleState::Ongoing
    }
}

/// Fraction of the sale elapsed at `block`, in parts per million.
pub open spec fn point_in_sale(sale: Sale, block: BlockNumber) -> nat {
    permill_from_rational_parts((block - sale.start) as nat, sale_duration(sale))
}

/// Weights of the base and the quote asset at `block`, in parts per million:
/// the base weight falls from the initial weight by the elapsed fraction of the
/// weight range, and the two weights sum to a whole. Fails with `Underflow`
/// before the sale's start or when the final weight exceeds the initial one.
pub open spec fn current_weights_spec(sale: Sale, block: BlockNumber) -> Result<
    (nat, nat),
    ArithmeticError,
> {
    if block < sale.start {
        Err(ArithmeticError::Underflow)
    } else if sale.initial_weight@ < sale.final_weight@ {
        Err(ArithmeticError::Underflow)
    } else {
        let range = (sale.initial_weight@ - sale.final_weight@) as nat;
        let base = (sale.initial_weight@ - permill_mul_parts(point_in_sale(sale, block), range)) as nat;
        Ok((base, (PERMILL_ACCURACY - base) as nat))
    }
}

/// `floor(point * range / 10^6)` is at most `range` for `point <= 10^6`.
proof fn lemma_mul_parts_le(point: nat, range: nat)
    requires
        point <= PERMILL_ACCURACY,
    ensures
        permill_mul_parts(point, range) <= range,
{
    let m = PERMILL_ACCURACY as nat;
    assert(point * range <= m * range) by (nonlinear_arith)
        requires point <= m;
    vstd::arithmetic::div_mod::lemma_div_is_ordered((point * range) as int, (m * range) as int, m as int);
    vstd::arithmetic::div_mod::lemma_div_by_multiple(range as int, m as int);
    assert(m * range == range * m) by (nonlinear_arith);
}

impl Sale {
    /// Length of the sale, `end - start` saturating at zero.
    pub fn duration(&self) -> (r: BlockNumber)
        ensures
            r == sale_duration(*self),
    {
        self.end.saturating_sub(self.start)
    }

    /// Where the sale stands at `current_block`.
    pub fn state(&self, current_block: BlockNumber) -> (r: SaleState)
        ensures
            r == sale_state(*self, current_block),
    {
        if current_block < self.start {
            SaleState::NotStarted
        } else if current_block >= self.end {
            SaleState::Ended
        } else {
            SaleState::Ongoing
        }
    }

    /// Weights of the base and the quote asset at `current_block`.
    pub fn current_weights(&self, current_block: BlockNumber) -> (r: Result<
        (Permill, Permill),
        DispatchError,
    >)
        ensures
            match current_weights_spec(*self, current_block) {
                Ok((base, quote)) => r matches Ok((b, q)) && b@ == base && q@ == quote,
                Err(e) => r == Err::<(Permill, Permill), DispatchError>(DispatchError::Arithmetic(e)),
            },
    {
        let normalized_current_block = match current_block.checked_sub(self.start) {
            Some(n) => n,
            None => return Err(DispatchError::Arithmetic(ArithmeticError::Underflow)),
        };
        let point_in_sale = Permill::from_rational(
            normalized_current_block as u64,
            self.duration() as u64,
        );
        let weight_range = match self.initial_weight.checked_sub(&self.final_weight) {
            Some(w) => w,
            None => return Err(DispatchError::Arithmetic(ArithmeticError::Underflow)),
        };
        let decrease = match point_in_sale.checked_mul(&weight_range) {
            Some(d) => d,
            None => return Err(DispatchError::Arithmetic(ArithmeticError::Overflow)),
        };
        proof {
            use_type_invariant(&self.initial_weight);
            lemma_from_rational_bounded(normalized_current_block as nat, sale_duration(*self));
            lemma_mul_parts_le(point_in_sale@ as nat, weight_range@ as nat);
        }
        let current_base_weight = match self.initial_weight.checked_sub(&decrease) {
            Some(w) => w,
            None => return Err(DispatchError::Arithmetic(ArithmeticError::Underflow)),
        };
        let current_quote_weight = match Permill::one().checked_sub(&current_base_weight) {
            Some(w) => w,
            None => return Err(DispatchError::Arithmetic(ArithmeticError::Underflow)),
        };
        Ok((current_base_weight, current_quote_weight))
    }
}

/// `permill_from_rational_parts` grows with the numerator.
proof fn lemma_from_rational_monotone(p1: nat, p2: nat, q: nat)
    requires
        p1 <= p2,
    ensures
        permill_from_rational_parts(p1, q) <= permill_from_rational_parts(p2, q),
{
    let m = PERMILL_ACCURACY as nat;
    let q1: nat = if q < 1 { 1 } else { q };
    let a: nat = if p1 < q1 { p1 } else { q1 };
    let b: nat = if p2 < q1 { p2 } else { q1 };
    let c = crate::arithmetic::div_ceil(q1, m);
    let factor: nat = if c < 1 { 1 } else { c };
    let q_reduce: nat = q1 / factor;
    crate::arithmetic::lemma_reduced_positive(q1, m);
    vstd::arithmetic::div_mod::lemma_div_is_ordered(a as int, b as int, factor as int);
    let ar = a / factor;
    let br = b / factor;
    assert(ar * m <= br * m) by (nonlinear_arith)
        requires ar <= br;
    if q_reduce > 0 {
        vstd::arithmetic::div_mod::lemma_div_is_ordered((ar * m) as int, (br * m) as int, q_reduce as int);
    }
}

/// `permill_mul_parts` grows with its first factor.
proof fn lemma_mul_parts_monotone(a1: nat, a2: nat, b: nat)
    requires
        a1 <= a2,
    ensures
        permill_mul_parts(a1, b) <= permill_mul_parts(a2, b),
{
    assert(a1 * b <= a2 * b) by (nonlinear_arith)
        requires a1 <= a2;
    vstd::arithmetic::div_mod::lemma_div_is_ordered((a1 * b) as int, (a2 * b) as int, PERMILL_ACCURACY as int);
}

/// The base and quote weights of a sale always make up a whole.
pub proof fn lemma_weights_sum_to_whole(sale: Sale, block: BlockNumber)
    requires
        sale.initial_weight@ <= PERMILL_ACCURACY,
    ensures
        current_weights_spec(sale, block) matches Ok((base, quote)) ==> base + quote == PERMILL_ACCURACY,
{
    if block >= sale.start && sale.initial_weight@ >= sale.final_weight@ {
        lemma_from_rational_bounded((block - sale.start) as nat, sale_duration(sale));
        lemma_mul_parts_le(point_in_sale(sale, block), (sale.initial_weight@ - sale.final_weight@) as nat);
    }
}

/// From the sale's start on, the base weight lies between the final and the
/// initial weight.
pub proof fn lemma_weight_between_final_and_initial(sale: Sale, block: BlockNumber)
    requires
        sale.final_weight@ <= sale.initial_weight@,
        sale.start <= block,
    ensures
        current_weights_spec(sale, block) matches Ok((base, quote)) && sale.final_weight@ <= base
            <= sale.initial_weight@,
{
    lemma_from_rational_bounded((block - sale.start) as nat, sale_duration(sale));
    lemma_mul_parts_le(point_in_sale(sale, block), (sale.initial_weight@ - sale.final_weight@) as nat);
}

/// The base weight never rises as the blocks go by: the sale moves weight from
/// the base asset to the quote asset.
pub proof fn lemma_base_weight_decreases(sale: Sale, b1: BlockNumber, b2: BlockNumber)
    requires
        sale.final_weight@ <= sale.initial_weight@,
        sale.start <= b1 <= b2,
    ensures
        current_weights_spec(sale, b1) matches Ok((w1, _)) && current_weights_spec(sale, b2) matches Ok(
            (w2, _),
        ) && w2 <= w1,
{
    let range = (sale.initial_weight@ - sale.final_weight@) as nat;
    lemma_from_rational_bounded((b1 - sale.start) as nat, sale_duration(sale));
    lemma_from_rational_bounded((b2 - sale.start) as nat, sale_duration(sale));
    lemma_from_rational_monotone((b1 - sale.start) as nat, (b2 - sale.start) as nat, sale_duration(sale));
    lemma_mul_parts_le(point_in_sale(sale, b1), range);
    lemma_mul_parts_le(point_in_sale(sale, b2), range);
    lemma_mul_parts_monotone(point_in_sale(sale, b1), point_in_sale(sale, b2), range);
}

/// At the sale's start the base asset has its initial weight.
pub proof fn lemma_weight_at_start(sale: Sale)
    requires
        sale.final_weight@ <= sale.initial_weight@,
    ensures
        current_weights_spec(sale, sale.start) matches Ok((base, _)) && base == sale.initial_weight@,
{
    lemma_from_rational_bounded(0, sale_duration(sale));
    assert(permill_mul_parts(0, (sale.initial_weight@ - sale.final_weight@) as nat) == 0);
}

/// From the sale's end on, the base asset has its final weight.
pub proof fn lemma_weight_at_end(sale: Sale, block: BlockNumber)
    requires
        sale.final_weight@ <= sale.initial_weight@,
        sale.start < sale.end <= block,
    ensures
        current_weights_spec(sale, block) matches Ok((base, _)) && base == sale.final_weight@,
{
    let range = (sale.initial_weight@ - sale.final_weight@) as nat;
    lemma_from_rational_bounded((block - sale.start) as nat, sale_duration(sale));
    let m = PERMILL_ACCURACY as nat;
    vstd::arithmetic::div_mod::lemma_div_by_multiple(range as int, m as int);
    assert(m * range == range * m) by (nonlinear_arith);
}

// ---------------------------------------------------------------------------
// Pool validation
// ---------------------------------------------------------------------------

/// Why `PoolIsValid` refuses a pool, `None` when it accepts it; the checks are
/// made in this order.
pub open spec fn pool_validation_error(pool: Pool, limits: PoolLimits) -> Option<&'static str> {
    if pool.pair.base == pool.pair.quote {
        Some("Pair elements must be distinct.")
    } else if pool.sale.end <= pool.sale.start {
        Some("Sale end must be after start.")
    } else if sale_duration(pool.sale) > limits.max_sale_duration {
        Some("Sale duration must not exceed maximum duration.")
    } else if pool.sale.initial_weight@ < pool.sale.final_weight@ {
        Some("Initial weight must be greater than final weight.")
    } else if pool.sale.initial_weight@ > limits.max_initial_weight@ {
        Some("Initial weight must not exceed the defined maximum.")
    } else if pool.sale.final_weight@ < limits.min_final_weight@ {
        Some("Final weight must not be lower than the defined minimum.")
    } else {
        None
    }
}

/// What every stored pool satisfies: two distinct assets, a sale that ends
/// after it starts, and a base weight that does not rise.
pub open spec fn pool_well_formed(pool: Pool) -> bool {
    &&& pool.pair.base != pool.pair.quote
    &&& pool.sale.start < pool.sale.end
    &&& pool.sale.final_weight@ <= pool.sale.initial_weight@
}

/// The validity check on pools that are submitted for creation.
pub struct PoolIsValid;

impl PoolIsValid {
    /// Accepts `input` when it meets the runtime's limits, and otherwise says
    /// which check failed first.
    pub fn validate(input: Pool, limits: &PoolLimits) -> (r: Result<Pool, &'static str>)
        ensures
            match pool_validation_error(input, *limits) {
                None => r == Ok::<Pool, &'static str>(input),
                Some(msg) => r == Err::<Pool, &'static str>(msg),
            },
            r is Ok ==> pool_well_formed(input),
    {
        if input.pair.base == input.pair.quote {
            return Err("Pair elements must be distinct.");
        }
        if input.sale.end <= input.sale.start {
            return Err("Sale end must be after start.");
        }
        if input.sale.duration() > limits.max_sale_duration {
            return Err("Sale duration must not exceed maximum duration.");
        }
        if input.sale.initial_weight.deconstruct() < input.sale.final_weight.deconstruct() {
            return Err("Initial weight must be greater than final weight.");
        }
        if input.sale.initial_weight.deconstruct() > limits.max_initial_weight.deconstruct() {
            return Err("Initial weight must not exceed the defined maximum.");
        }
        if input.sale.final_weight.deconstruct() < limits.min_final_weight.deconstruct() {
            return Err("Final weight must not be lower than the defined minimum.");
        }
        Ok(input)
    }
}

// ---------------------------------------------------------------------------
// Balancer formulas
// ---------------------------------------------------------------------------

/// Amount out of a weighted pool for `ai` in (Balancer's whitepaper, (15)):
/// `bo * (1 - (bi / (bi + ai)) ^ (wi / wo))`, each step computed by
/// `rust_decimal`, truncated to a whole amount. `bi`, `bo` are the balances of
/// the asset in and out, `wi`, `wo` their weights in parts per million.
pub open spec fn out_given_in_spec(ai: u128, bi: u128, bo: u128, wi: u32, wo: u32) -> Result<
    u128,
    ArithmeticError,
> {
    match dec_of_u128(ai) {
        Err(e) => Err(e),
        Ok(ai_d) => match dec_of_u128(bi) {
            Err(e) => Err(e),
            Ok(bi_d) => match dec_of_u128(bo) {
                Err(e) => Err(e),
                Ok(bo_d) => match dec_safe_div(Dec::whole(wi as int), Dec::whole(wo as int)) {
                    Err(e) => Err(e),
                    Ok(weight_power) => match dec_safe_add(bi_d, ai_d) {
                        Err(e) => Err(e),
                        Ok(bi_plus_ai) => match dec_safe_div(bi_d, bi_plus_ai) {
                            Err(e) => Err(e),
                            Ok(ratio) => match dec_safe_powd(ratio, weight_power) {
                                Err(e) => Err(e),
                                Ok(term) => match dec_safe_sub(Dec::whole(1), term) {
                                    Err(e) => Err(e),
                                    Ok(one_minus_term) => match dec_safe_mul(bo_d, one_minus_term) {
                                        Err(e) => Err(e),
                                        Ok(ao) => dec_to_u128(ao),
                                    },
                                },
                            },
                        },
                    },
                },
            },
        },
    }
}

/// Spot price of the asset out in units of the asset in (Balancer's
/// whitepaper, (2)): `(bi / wi) / (bo / wo)` with the weights taken as
/// fractions of a whole, each step computed by `rust_decimal`.
pub open spec fn spot_price_spec(bi: u128, bo: u128, wi: u32, wo: u32) -> Result<
    Dec,
    ArithmeticError,
> {
    match dec_of_u128(bi) {
        Err(e) => Err(e),
        Ok(bi_d) => match dec_of_u128(bo) {
            Err(e) => Err(e),
            Ok(bo_d) => {
                let full = Dec::whole(PERMILL_ACCURACY as int);
                match dec_safe_div(Dec::whole(wi as int), full) {
                    Err(e) => Err(e),
                    Ok(wi_d) => match dec_safe_div(Dec::whole(wo as int), full) {
                        Err(e) => Err(e),
                        Ok(wo_d) => match dec_safe_div(bi_d, wi_d) {
                            Err(e) => Err(e),
                            Ok(bi_div_wi) => match dec_safe_div(bo_d, wo_d) {
                                Err(e) => Err(e),
                                Ok(bo_div_wo) => dec_safe_div(bi_div_wi, bo_div_wo),
                            },
                        },
                    },
                }
            },
        },
    }
}

/// The spot price scaled to one unit of the base asset and truncated:
/// `spot * unit`.
pub open spec fn scaled_price_spec(spot: Dec, unit: u128) -> Result<u128, ArithmeticError> {
    match dec_of_u128(unit) {
        Err(e) => Err(e),
        Ok(unit_d) => match dec_safe_mul(spot, unit_d) {
            Err(e) => Err(e),
            Ok(price) => dec_to_u128(price),
        },
    }
}

/// The amount of the asset out that a weighted pool pays for `ai` of the asset
/// in.
pub fn out_given_in(ai: u128, bi: u128, bo: u128, wi: u32, wo: u32) -> (r: Result<
    u128,
    ArithmeticError,
>)
    ensures
        r == out_given_in_spec(ai, bi, bo, wi, wo),
{
    let ai_d = dec_from_u128(ai)?;
    let bi_d = dec_from_u128(bi)?;
    let bo_d = dec_from_u128(bo)?;
    let weight_numer = dec_from_u32(wi);
    let weight_denom = dec_from_u32(wo);
    let weight_power = dec_div(weight_numer, weight_denom)?;
    let bi_plus_ai = dec_add(bi_d, ai_d)?;
    let bi_div_bi_plus_ai = dec_div(bi_d, bi_plus_ai)?;
    let term_to_weight_power = dec_powd(bi_div_bi_plus_ai, weight_power)?;
    let one_minus_term = dec_sub(Dec::one(), term_to_weight_power)?;
    let ao = dec_mul(bo_d, one_minus_term)?;
    dec_into_u128(ao)
}

/// The spot price of the asset out in units of the asset in, as a decimal.
pub fn spot_price(bi: u128, bo: u128, wi: u32, wo: u32) -> (r: Result<Dec, ArithmeticError>)
    ensures
        r == spot_price_spec(bi, bo, wi, wo),
        r matches Ok(d) ==> d.wf(),
{
    let bi_d = dec_from_u128(bi)?;
    let bo_d = dec_from_u128(bo)?;
    let full_percent = dec_from_u32(PERMILL_ACCURACY);
    let wi_numer = dec_from_u32(wi);
    let wi_d = dec_div(wi_numer, full_percent)?;
    let wo_numer = dec_from_u32(wo);
    let wo_d = dec_div(wo_numer, full_percent)?;
    let bi_div_wi = dec_div(bi_d, wi_d)?;
    let bo_div_wo = dec_div(bo_d, wo_d)?;
    dec_div(bi_div_wi, bo_div_wo)
}

/// Amount of the asset in that a weighted pool asks for `ao` of the asset out
/// (Balancer's whitepaper, (20)): `bi * ((bo / (bo - ao)) ^ (wo / wi) - 1)`, each
/// step computed by `rust_decimal`, rounded up to a whole amount: the
/// truncated amount, plus one when subtracting it leaves a nonzero fraction.
pub open spec fn in_given_out_spec(ao: u128, bi: u128, bo: u128, wi: u32, wo: u32) -> Result<
    u128,
    ArithmeticError,
> {
    match dec_of_u128(ao) {
        Err(e) => Err(e),
        Ok(ao_d) => match dec_of_u128(bi) {
            Err(e) => Err(e),
            Ok(bi_d) => match dec_of_u128(bo) {
                Err(e) => Err(e),
                Ok(bo_d) => match dec_safe_div(Dec::whole(wo as int), Dec::whole(wi as int)) {
                    Err(e) => Err(e),
                    Ok(weight_power) => match dec_safe_sub(bo_d, ao_d) {
                        Err(e) => Err(e),
                        Ok(remaining) => match dec_safe_div(bo_d, remaining) {
                            Err(e) => Err(e),
                            Ok(ratio) => match dec_safe_powd(ratio, weight_power) {
                                Err(e) => Err(e),
                                Ok(term) => match dec_safe_sub(term, Dec::whole(1)) {
                                    Err(e) => Err(e),
                                    Ok(growth) => match dec_safe_mul(bi_d, growth) {
                                        Err(e) => Err(e),
                                        Ok(ai) => rounded_up(ai),
                                    },
                                },
                            },
                        },
                    },
                },
            },
        },
    }
}

/// A decimal rounded up to a whole amount: its truncation, plus one when the
/// decimal minus its truncation is not zero.
pub open spec fn rounded_up(d: Dec) -> Result<u128, ArithmeticError> {
    match dec_to_u128(d) {
        Err(e) => Err(e),
        Ok(whole) => match dec_of_u128(whole) {
            Err(e) => Err(e),
            Ok(whole_d) => match dec_safe_sub(d, whole_d) {
                Err(e) => Err(e),
                Ok(fraction) => if fraction.mantissa == 0 {
                    Ok(whole)
                } else if whole < u128::MAX {
                    Ok((whole + 1) as u128)
                } else {
                    Err(ArithmeticError::Overflow)
                },
            },
        },
    }
}

/// The amount of the asset in that a weighted pool asks for `ao` of the asset
/// out, rounded up.
pub fn in_given_out(ao: u128, bi: u128, bo: u128, wi: u32, wo: u32) -> (r: Result<
    u128,
    ArithmeticError,
>)
    ensures
        r == in_given_out_spec(ao, bi, bo, wi, wo),
{
    let ao_d = dec_from_u128(ao)?;
    let bi_d = dec_from_u128(bi)?;
    let bo_d = dec_from_u128(bo)?;
    let weight_numer = dec_from_u32(wo);
    let weight_denom = dec_from_u32(wi);
    let weight_power = dec_div(weight_numer, weight_denom)?;
    let remaining = dec_sub(bo_d, ao_d)?;
    let ratio = dec_div(bo_d, remaining)?;
    let term = dec_powd(ratio, weight_power)?;
    let growth = dec_sub(term, Dec::one())?;
    let ai = dec_mul(bi_d, growth)?;
    let whole = dec_into_u128(ai)?;
    let whole_d = dec_from_u128(whole)?;
    let fraction = dec_sub(ai, whole_d)?;
    if fraction.is_zero() {
        Ok(whole)
    } else if whole < u128::MAX {
        Ok(whole + 1)
    } else {
        Err(ArithmeticError::Overflow)
    }
}

/// A decimal price times one unit of the base asset, truncated.
pub fn scaled_price(spot: Dec, unit: u128) -> (r: Result<u128, ArithmeticError>)
    requires
        spot.wf(),
    ensures
        r == scaled_price_spec(spot, unit),
{
    let unit_d = dec_from_u128(unit)?;
    let price = dec_mul(spot, unit_d)?;
    dec_into_u128(price)
}

// ---------------------------------------------------------------------------
// The pallet
// ---------------------------------------------------------------------------

/// Storage of the pallet: the number of pools created so far (also the id of
/// the next pool), the pools, and the events deposited.
pub struct Pallet {
    pool_count: PoolId,
    pools: BTreeMap<PoolId, Pool>,
    events: Vec<Event>,
}

impl Clone for Pallet {
    /// A copy of the storage, as a snapshot to roll back to.
    fn clone(&self) -> (r: Pallet)
        ensures
            r@ == self@,
    {
        proof {
            use_type_invariant(self);
        }
        let events = self.events.clone();
        proof {
            assert(events@ =~= self.events@);
        }
        Pallet { pool_count: self.pool_count, pools: self.pools.clone(), events }
    }
}

/// The pallet's storage as mathematical values.
pub struct PalletView {
    pub pool_count: PoolId,
    pub pools: Map<PoolId, Pool>,
    pub events: Seq<Event>,
}

impl View for Pallet {
    type V = PalletView;

    closed spec fn view(&self) -> PalletView {
        PalletView { pool_count: self.pool_count, pools: self.pools@, events: self.events@ }
    }
}

/// The error of this pallet.
pub open spec fn lbp_error(e: Error) -> DispatchError {
    DispatchError::LiquidityBootstrapping(e)
}

/// An arithmetic failure as a dispatch error.
pub open spec fn lift(r: Result<u128, ArithmeticError>) -> Result<u128, DispatchError> {
    match r {
        Ok(x) => Ok(x),
        Err(e) => Err(DispatchError::Arithmetic(e)),
    }
}

/// The stored pool `pool_id`, `PoolNotFound` when there is none.
pub open spec fn get_pool_spec(pools: Map<PoolId, Pool>, pool_id: PoolId) -> Result<Pool, DispatchError> {
    if pools.contains_key(pool_id) {
        Ok(pools[pool_id])
    } else {
        Err(lbp_error(Error::PoolNotFound))
    }
}

/// The stored pool `pool_id` when its sale is in `state` at `block`.
pub open spec fn pool_in_state_spec(
    pools: Map<PoolId, Pool>,
    pool_id: PoolId,
    block: BlockNumber,
    state: SaleState,
) -> Result<Pool, DispatchError> {
    match get_pool_spec(pools, pool_id) {
        Err(e) => Err(e),
        Ok(pool) => if sale_state(pool.sale, block) == state {
            Ok(pool)
        } else {
            Err(lbp_error(Error::InvalidSaleState))
        },
    }
}

/// The pool account's balance of `asset`, one of the pool's two assets.
pub open spec fn reserve_of(pool: Pool, reserves: PoolReserves, asset: CurrencyId) -> u128 {
    if asset == pool.pair.base {
        reserves.base
    } else {
        reserves.quote
    }
}

/// Weights of `pair.base` (out) and `pair.quote` (in), given the weights of the
/// pool's base and quote asset.
pub open spec fn oriented_weights(pool: Pool, pair: CurrencyPair, wb: nat, wq: nat) -> (nat, nat) {
    if pair.base == pool.pair.base {
        (wb, wq)
    } else {
        (wq, wb)
    }
}

/// What `do_get_exchange` returns: the amount of `pair.base` that the pool pays
/// for `quote_amount` of `pair.quote` during the sale.
pub open spec fn exchange_value_spec(
    pools: Map<PoolId, Pool>,
    pool_id: PoolId,
    pair: CurrencyPair,
    block: BlockNumber,
    quote_amount: Balance,
    reserves: PoolReserves,
) -> Result<Balance, DispatchError> {
    match pool_in_state_spec(pools, pool_id, block, SaleState::Ongoing) {
        Err(e) => Err(e),
        Ok(pool) => if !same_pair(pair, pool.pair) {
            Err(lbp_error(Error::PairMismatch))
        } else if quote_amount == 0 {
            Err(lbp_error(Error::InvalidAmount))
        } else {
            match current_weights_spec(pool.sale, block) {
                Err(e) => Err(DispatchError::Arithmetic(e)),
                Ok((wb, wq)) => {
                    let (wo, wi) = oriented_weights(pool, pair, wb, wq);
                    lift(
                        out_given_in_spec(
                            quote_amount,
                            reserve_of(pool, reserves, pair.quote),
                            reserve_of(pool, reserves, pair.base),
                            wi as u32,
                            wo as u32,
                        ),
                    )
                },
            }
        },
    }
}

/// What `do_spot_price` returns: the price of one unit of `pair.base` in
/// `pair.quote` during the sale.
pub open spec fn spot_price_value_spec(
    pools: Map<PoolId, Pool>,
    pool_id: PoolId,
    pair: CurrencyPair,
    block: BlockNumber,
    reserves: PoolReserves,
    base_unit: Result<u128, DispatchError>,
) -> Result<Balance, DispatchError> {
    match pool_in_state_spec(pools, pool_id, block, SaleState::Ongoing) {
        Err(e) => Err(e),
        Ok(pool) => if !same_pair(pair, pool.pair) {
            Err(lbp_error(Error::PairMismatch))
        } else {
            match current_weights_spec(pool.sale, block) {
                Err(e) => Err(DispatchError::Arithmetic(e)),
                Ok((wb, wq)) => {
                    let (wo, wi) = oriented_weights(pool, pair, wb, wq);
                    match spot_price_spec(
                        reserve_of(pool, reserves, pair.quote),
                        reserve_of(pool, reserves, pair.base),
                        wi as u32,
                        wo as u32,
                    ) {
                        Err(e) => Err(DispatchError::Arithmetic(e)),
                        Ok(spot) => match base_unit {
                            Err(e) => Err(e),
                            Ok(unit) => lift(scaled_price_spec(spot, unit)),
                        },
                    }
                },
            }
        },
    }
}

/// The pair that `get_exchange_value` prices: `asset_id` as the asset out.
pub open spec fn value_pair(pool: Pool, asset_id: CurrencyId) -> CurrencyPair {
    if asset_id == pool.pair.base {
        pool.pair
    } else {
        CurrencyPair { base: pool.pair.quote, quote: pool.pair.base }
    }
}

/// What `get_exchange_value` returns.
pub open spec fn get_exchange_value_spec(
    pools: Map<PoolId, Pool>,
    pool_id: PoolId,
    asset_id: CurrencyId,
    amount: Balance,
    block: BlockNumber,
    reserves: PoolReserves,
) -> Result<Balance, DispatchError> {
    match get_pool_spec(pools, pool_id) {
        Err(e) => Err(e),
        Ok(pool) => exchange_value_spec(
            pools,
            pool_id,
            value_pair(pool, asset_id),
            block,
            amount,
            reserves,
        ),
    }
}

/// The swap that `exchange` plans once the amount out is known.
pub open spec fn planned_swap(
    who: AccountId,
    pool_id: PoolId,
    pair: CurrencyPair,
    quote_amount: Balance,
    base_amount: Balance,
    keep_alive: bool,
) -> Swap {
    Swap {
        base_amount,
        pay: Transfer {
            asset: pair.quote,
            source: Holder::Account(who),
            dest: Holder::Pool(pool_id),
            amount: quote_amount,
            keep_alive,
        },
        receive: Transfer {
            asset: pair.base,
            source: Holder::Pool(pool_id),
            dest: Holder::Account(who),
            amount: base_amount,
            keep_alive: false,
        },
    }
}

/// The event of a swap.
pub open spec fn swapped_event(
    who: AccountId,
    pool_id: PoolId,
    pair: CurrencyPair,
    quote_amount: Balance,
    base_amount: Balance,
) -> Event {
    Event::Swapped {
        pool_id,
        who,
        base_asset: pair.base,
        quote_asset: pair.quote,
        base_amount,
        quote_amount,
    }
}

/// What `exchange` does: the swap it plans, or why it refuses.
pub open spec fn exchange_spec(
    pools: Map<PoolId, Pool>,
    who: AccountId,
    pool_id: PoolId,
    pair: CurrencyPair,
    quote_amount: Balance,
    min_receive: Balance,
    keep_alive: bool,
    block: BlockNumber,
    reserves: PoolReserves,
) -> Result<Swap, DispatchError> {
    match exchange_value_spec(pools, pool_id, pair, block, quote_amount, reserves) {
        Err(e) => Err(e),
        Ok(base_amount) => if base_amount < min_receive {
            Err(lbp_error(Error::CannotRespectMinimumRequested))
        } else {
            Ok(planned_swap(who, pool_id, pair, quote_amount, base_amount, keep_alive))
        },
    }
}

/// After `exchange_spec`'s outcome `r`, the storage: unchanged on failure, one
/// `Swapped` event more on success.
pub open spec fn after_exchange(
    old: PalletView,
    new: PalletView,
    who: AccountId,
    pool_id: PoolId,
    pair: CurrencyPair,
    quote_amount: Balance,
    r: Result<Swap, DispatchError>,
) -> bool {
    &&& new.pools == old.pools
    &&& new.pool_count == old.pool_count
    &&& match r {
        Ok(swap) => new.events == old.events.push(
            swapped_event(who, pool_id, pair, quote_amount, swap.base_amount),
        ),
        Err(_) => new.events == old.events,
    }
}

/// The pool's asset other than `asset_id` (its base when `asset_id` is not the
/// base).
pub open spec fn other_asset(pool: Pool, asset_id: CurrencyId) -> CurrencyId {
    if asset_id == pool.pair.base {
        pool.pair.quote
    } else {
        pool.pair.base
    }
}

/// The pair that `buy` of `asset_id` trades: the trader receives `asset_id`
/// (the pair's base) and pays the pool's other asset (the pair's quote).
pub open spec fn buy_pair(pool: Pool, asset_id: CurrencyId) -> CurrencyPair {
    CurrencyPair { base: asset_id, quote: other_asset(pool, asset_id) }
}

/// The pair that `sell` of `asset_id` trades: the trader pays `asset_id` (the
/// pair's quote) and receives the pool's other asset (the pair's base).
pub open spec fn sell_pair(pool: Pool, asset_id: CurrencyId) -> CurrencyPair {
    CurrencyPair { base: other_asset(pool, asset_id), quote: asset_id }
}

/// What `buy` of `amount` of `asset_id` does during the sale: the trader
/// receives exactly `amount` of `asset_id` and pays the amount of the pool's
/// other asset that Balancer's in-given-out formula prices it at, rounded up.
/// Refused for an asset that is not the pool's, for a zero amount, and for an
/// amount that the pool does not hold more than.
pub open spec fn buy_spec(
    pools: Map<PoolId, Pool>,
    who: AccountId,
    pool_id: PoolId,
    asset_id: CurrencyId,
    amount: Balance,
    keep_alive: bool,
    block: BlockNumber,
    reserves: PoolReserves,
) -> Result<Swap, DispatchError> {
    match pool_in_state_spec(pools, pool_id, block, SaleState::Ongoing) {
        Err(e) => Err(e),
        Ok(pool) => {
            let pair = buy_pair(pool, asset_id);
            if !same_pair(pair, pool.pair) {
                Err(lbp_error(Error::PairMismatch))
            } else if amount == 0 || amount >= reserve_of(pool, reserves, asset_id) {
                Err(lbp_error(Error::InvalidAmount))
            } else {
                match current_weights_spec(pool.sale, block) {
                    Err(e) => Err(DispatchError::Arithmetic(e)),
                    Ok((wb, wq)) => {
                        let (wo, wi) = oriented_weights(pool, pair, wb, wq);
                        match in_given_out_spec(
                            amount,
                            reserve_of(pool, reserves, pair.quote),
                            reserve_of(pool, reserves, pair.base),
                            wi as u32,
                            wo as u32,
                        ) {
                            Err(e) => Err(DispatchError::Arithmetic(e)),
                            Ok(price) => Ok(planned_swap(who, pool_id, pair, price, amount, keep_alive)),
                        }
                    },
                }
            }
        },
    }
}

/// What `sell` of `amount` of `asset_id` does: an exchange of `amount` of
/// `asset_id` for the pool's other asset, with no minimum.
pub open spec fn sell_spec(
    pools: Map<PoolId, Pool>,
    who: AccountId,
    pool_id: PoolId,
    asset_id: CurrencyId,
    amount: Balance,
    keep_alive: bool,
    block: BlockNumber,
    reserves: PoolReserves,
) -> Result<Swap, DispatchError> {
    match get_pool_spec(pools, pool_id) {
        Err(e) => Err(e),
        Ok(pool) => exchange_spec(
            pools,
            who,
            pool_id,
            sell_pair(pool, asset_id),
            amount,
            0,
            keep_alive,
            block,
            reserves,
        ),
    }
}

/// Pool count in storage when nothing was stored yet.
#[allow(non_snake_case)]
pub fn PoolCountOnEmpty() -> (r: PoolId)
    ensures
        r == 0,
{
    0
}

impl Pallet {
    /// Every stored pool is well formed.
    #[verifier::type_invariant]
    closed spec fn inv(self) -> bool {
        forall|id: PoolId| #[trigger] self.pools@.contains_key(id) ==> pool_well_formed(self.pools@[id])
    }

    /// Empty storage, as at genesis.
    pub fn new() -> (r: Pallet)
        ensures
            r@.pool_count == 0,
            r@.pools == Map::<PoolId, Pool>::empty(),
            r@.events == Seq::<Event>::empty(),
    {
        Pallet { pool_count: PoolCountOnEmpty(), pools: BTreeMap::new(), events: Vec::new() }
    }

    /// Number of pools created so far, also the id of the next pool.
    pub fn pool_count(&self) -> (r: PoolId)
        ensures
            r == self@.pool_count,
    {
        self.pool_count
    }

    /// The stored pool `pool_id`, if any.
    pub fn pools(&self, pool_id: PoolId) -> (r: Option<Pool>)
        ensures
            r == (if self@.pools.contains_key(pool_id) {
                Some(self@.pools[pool_id])
            } else {
                None::<Pool>
            }),
    {
        match self.pools.get(&pool_id) {
            Some(p) => Some(*p),
            None => None,
        }
    }

    /// The events deposited so far.
    pub fn events(&self) -> (r: Vec<Event>)
        ensures
            r@ == self@.events,
    {
        self.events.clone()
    }

    /// Creates a pool: the pool must pass `PoolIsValid`, the call's origin must
    /// pass the runtime's admin origin check (`admin_origin` is its outcome),
    /// and the pool is stored under a fresh id.
    pub fn create(&mut self, admin_origin: bool, pool: Pool, limits: &PoolLimits) -> (r: Result<
        (),
        DispatchError,
    >)
        ensures
            pool_validation_error(pool, *limits) matches Some(msg) ==> r == Err::<(), DispatchError>(
                DispatchError::Other(msg),
            ) && final(self)@ == old(self)@,
            pool_validation_error(pool, *limits) is None && !admin_origin ==> r == Err::<
                (),
                DispatchError,
            >(DispatchError::BadOrigin) && final(self)@ == old(self)@,
            pool_validation_error(pool, *limits) is None && admin_origin ==> final(self)@.pools
                == old(self)@.pools.insert(old(self)@.pool_count, pool),
            pool_validation_error(pool, *limits) is None && admin_origin && old(self)@.pool_count
                < u128::MAX ==> {
                &&& r is Ok
                &&& final(self)@.pool_count == old(self)@.pool_count + 1
                &&& final(self)@.events == old(self)@.events.push(
                    Event::PoolCreated { pool_id: old(self)@.pool_count, owner: pool.owner },
                )
            },
            pool_validation_error(pool, *limits) is None && admin_origin && old(self)@.pool_count
                == u128::MAX ==> {
                &&& r == Err::<(), DispatchError>(DispatchError::Arithmetic(ArithmeticError::Overflow))
                &&& final(self)@.pool_count == old(self)@.pool_count
                &&& final(self)@.events == old(self)@.events
            },
    {
        let pool = match PoolIsValid::validate(pool, limits) {
            Ok(p) => p,
            Err(msg) => return Err(DispatchError::Other(msg)),
        };
        if !admin_origin {
            return Err(DispatchError::BadOrigin);
        }
        match self.do_create_pool(pool) {
            Ok(_) => Ok(()),
            Err(e) => Err(e),
        }
    }

    /// Stores a well-formed pool under the id `pool_count` and counts it.
    ///
    /// When the count cannot grow any more the pool is still stored under the
    /// last id, the count stays, and `Overflow` is returned.
    pub fn do_create_pool(&mut self, pool: Pool) -> (r: Result<PoolId, DispatchError>)
        requires
            pool_well_formed(pool),
        ensures
            final(self)@.pools == old(self)@.pools.insert(old(self)@.pool_count, pool),
            old(self)@.pool_count < u128::MAX ==> {
                &&& r == Ok::<PoolId, DispatchError>(old(self)@.pool_count)
                &&& final(self)@.pool_count == old(self)@.pool_count + 1
                &&& final(self)@.events == old(self)@.events.push(
                    Event::PoolCreated { pool_id: old(self)@.pool_count, owner: pool.owner },
                )
            },
            old(self)@.pool_count == u128::MAX ==> {
                &&& r == Err::<PoolId, DispatchError>(DispatchError::Arithmetic(ArithmeticError::Overflow))
                &&& final(self)@.pool_count == old(self)@.pool_count
                &&& final(self)@.events == old(self)@.events
            },
    {
        proof {
            use_type_invariant(&*self);
        }
        let pool_id = self.pool_count;
        self.insert_pool(pool_id, pool);
        if pool_id == u128::MAX {
            return Err(DispatchError::Arithmetic(ArithmeticError::Overflow));
        }
        self.pool_count = pool_id + 1;
        self.deposit_event(Event::PoolCreated { pool_id, owner: pool.owner });
        Ok(pool_id)
    }

    /// Stores `pool` under `pool_id`.
    fn insert_pool(&mut self, pool_id: PoolId, pool: Pool)
        requires
            pool_well_formed(pool),
        ensures
            final(self)@ == (PalletView { pools: old(self)@.pools.insert(pool_id, pool), ..old(self)@ }),
    {
        proof {
            use_type_invariant(&*self);
        }
        let mut pools = BTreeMap::new();
        std::mem::swap(&mut pools, &mut self.pools);
        pools.insert(pool_id, pool);
        self.pools = pools;
    }

    /// Deletes the pool `pool_id`.
    fn remove_pool(&mut self, pool_id: PoolId)
        ensures
            final(self)@ == (PalletView { pools: old(self)@.pools.remove(pool_id), ..old(self)@ }),
    {
        proof {
            use_type_invariant(&*self);
        }
        let mut pools = BTreeMap::new();
        std::mem::swap(&mut pools, &mut self.pools);
        pools.remove(&pool_id);
        self.pools = pools;
    }

    /// Deposits `event`.
    fn deposit_event(&mut self, event: Event)
        ensures
            final(self)@ == (PalletView { events: old(self)@.events.push(event), ..old(self)@ }),
    {
        proof {
            use_type_invariant(&*self);
        }
        let mut events = Vec::new();
        std::mem::swap(&mut events, &mut self.events);
        events.push(event);
        self.events = events;
    }

    /// The stored pool `pool_id`; `PoolNotFound` when there is none.
    pub fn get_pool(&self, pool_id: PoolId) -> (r: Result<Pool, DispatchError>)
        ensures
            r == get_pool_spec(self@.pools, pool_id),
            r matches Ok(p) ==> pool_well_formed(p),
    {
        proof {
            use_type_invariant(self);
        }
        match self.pools.get(&pool_id) {
            Some(p) => Ok(*p),
            None => Err(DispatchError::LiquidityBootstrapping(Error::PoolNotFound)),
        }
    }

    /// The stored pool `pool_id` when its sale is in `expected_sale_state`.
    pub fn get_pool_ensuring_sale_state(
        &self,
        pool_id: PoolId,
        current_block: BlockNumber,
        expected_sale_state: SaleState,
    ) -> (r: Result<Pool, DispatchError>)
        ensures
            r == pool_in_state_spec(self@.pools, pool_id, current_block, expected_sale_state),
            r matches Ok(p) ==> pool_well_formed(p),
    {
        let pool = self.get_pool(pool_id)?;
        if pool.sale.state(current_block) != expected_sale_state {
            return Err(DispatchError::LiquidityBootstrapping(Error::InvalidSaleState));
        }
        Ok(pool)
    }

    /// The account that holds the funds of pool `pool_id`.
    pub fn account_id(pool_id: &PoolId) -> (r: Holder)
        ensures
            r == Holder::Pool(*pool_id),
    {
        Holder::Pool(*pool_id)
    }

    /// Whether pool `pool_id` exists.
    pub fn pool_exists(&self, pool_id: PoolId) -> (r: bool)
        ensures
            r == self@.pools.contains_key(pool_id),
    {
        self.pools.contains_key(&pool_id)
    }

    /// The pair of pool `pool_id`.
    pub fn currency_pair(&self, pool_id: PoolId) -> (r: Result<CurrencyPair, DispatchError>)
        ensures
            r == (match get_pool_spec(self@.pools, pool_id) {
                Ok(pool) => Ok(pool.pair),
                Err(e) => Err(e),
            }),
    {
        let pool = self.get_pool(pool_id)?;
        Ok(pool.pair)
    }

    /// The price of one unit of `pair.base` in `pair.quote` during the sale,
    /// from the pool account's balances `reserves` and the unit of the base
    /// asset, `base_unit` (or why the unit could not be had).
    pub fn do_spot_price(
        &self,
        pool_id: PoolId,
        pair: CurrencyPair,
        current_block: BlockNumber,
        reserves: PoolReserves,
        base_unit: Result<u128, DispatchError>,
    ) -> (r: Result<Balance, DispatchError>)
        ensures
            r == spot_price_value_spec(self@.pools, pool_id, pair, current_block, reserves, base_unit),
    {
        let pool = self.get_pool_ensuring_sale_state(pool_id, current_block, SaleState::Ongoing)?;
        if !(pair == pool.pair) {
            return Err(DispatchError::LiquidityBootstrapping(Error::PairMismatch));
        }
        let weights = pool.sale.current_weights(current_block)?;
        let (wo, wi) = if pair.base == pool.pair.base {
            weights
        } else {
            (weights.1, weights.0)
        };
        let bi = if pair.quote == pool.pair.base { reserves.base } else { reserves.quote };
        let bo = if pair.base == pool.pair.base { reserves.base } else { reserves.quote };
        let spot = match spot_price(bi, bo, wi.deconstruct(), wo.deconstruct()) {
            Ok(d) => d,
            Err(e) => return Err(DispatchError::Arithmetic(e)),
        };
        let unit = base_unit?;
        match scaled_price(spot, unit) {
            Ok(x) => Ok(x),
            Err(e) => Err(DispatchError::Arithmetic(e)),
        }
    }

    /// The amount of `pair.base` that the pool pays for `quote_amount` of
    /// `pair.quote` during the sale, from the pool account's balances
    /// `reserves`.
    pub fn do_get_exchange(
        &self,
        pool_id: PoolId,
        pair: CurrencyPair,
        current_block: BlockNumber,
        quote_amount: Balance,
        reserves: PoolReserves,
    ) -> (r: Result<Balance, DispatchError>)
        ensures
            r == exchange_value_spec(self@.pools, pool_id, pair, current_block, quote_amount, reserves),
    {
        let pool = self.get_pool_ensuring_sale_state(pool_id, current_block, SaleState::Ongoing)?;
        if !(pair == pool.pair) {
            return Err(DispatchError::LiquidityBootstrapping(Error::PairMismatch));
        }
        if quote_amount == 0 {
            return Err(DispatchError::LiquidityBootstrapping(Error::InvalidAmount));
        }
        let weights = pool.sale.current_weights(current_block)?;
        let (wo, wi) = if pair.base == pool.pair.base {
            weights
        } else {
            (weights.1, weights.0)
        };
        let bi = if pair.quote == pool.pair.base { reserves.base } else { reserves.quote };
        let bo = if pair.base == pool.pair.base { reserves.base } else { reserves.quote };
        match out_given_in(quote_amount, bi, bo, wi.deconstruct(), wo.deconstruct()) {
            Ok(x) => Ok(x),
            Err(e) => Err(DispatchError::Arithmetic(e)),
        }
    }

    /// The amount of `asset_id` that the pool pays for `amount` of its other
    /// asset at `current_block`.
    pub fn get_exchange_value(
        &self,
        pool_id: PoolId,
        asset_id: CurrencyId,
        amount: Balance,
        current_block: BlockNumber,
        reserves: PoolReserves,
    ) -> (r: Result<Balance, DispatchError>)
        ensures
            r == get_exchange_value_spec(self@.pools, pool_id, asset_id, amount, current_block, reserves),
    {
        let pool = self.get_pool(pool_id)?;
        let pair = if asset_id == pool.pair.base {
            pool.pair
        } else {
            pool.pair.swap()
        };
        self.do_get_exchange(pool_id, pair, current_block, amount, reserves)
    }

    /// Exchanges `quote_amount` of `pair.quote` paid by `who` for the amount of
    /// `pair.base` that the pool pays during the sale, at least `min_receive`.
    /// Deposits a `Swapped` event and returns the two transfers to carry out.
    pub fn exchange(
        &mut self,
        who: &AccountId,
        pool_id: PoolId,
        pair: CurrencyPair,
        quote_amount: Balance,
        min_receive: Balance,
        keep_alive: bool,
        current_block: BlockNumber,
        reserves: PoolReserves,
    ) -> (r: Result<Swap, DispatchError>)
        ensures
            r == exchange_spec(
                old(self)@.pools,
                *who,
                pool_id,
                pair,
                quote_amount,
                min_receive,
                keep_alive,
                current_block,
                reserves,
            ),
            after_exchange(old(self)@, final(self)@, *who, pool_id, pair, quote_amount, r),
    {
        let base_amount = self.do_get_exchange(pool_id, pair, current_block, quote_amount, reserves)?;
        if base_amount < min_receive {
            return Err(DispatchError::LiquidityBootstrapping(Error::CannotRespectMinimumRequested));
        }
        let pool_account = Self::account_id(&pool_id);
        let pay = Transfer {
            asset: pair.quote,
            source: Holder::Account(*who),
            dest: pool_account,
            amount: quote_amount,
            keep_alive,
        };
        let receive = Transfer {
            asset: pair.base,
            source: pool_account,
            dest: Holder::Account(*who),
            amount: base_amount,
            keep_alive: false,
        };
        self.deposit_event(
            Event::Swapped {
                pool_id,
                who: *who,
                base_asset: pair.base,
                quote_asset: pair.quote,
                base_amount,
                quote_amount,
            },
        );
        Ok(Swap { base_amount, pay, receive })
    }

    /// `buy` of the pool interface: the trader `who` buys exactly `amount` of
    /// `asset_id` from the pool during the sale, paying the pool's other asset
    /// at the price of Balancer's in-given-out formula, rounded up. Deposits a
    /// `Swapped` event and returns the two transfers to carry out.
    pub fn amm_buy(
        &mut self,
        who: &AccountId,
        pool_id: PoolId,
        asset_id: CurrencyId,
        amount: Balance,
        keep_alive: bool,
        current_block: BlockNumber,
        reserves: PoolReserves,
    ) -> (r: Result<Swap, DispatchError>)
        ensures
            r == buy_spec(old(self)@.pools, *who, pool_id, asset_id, amount, keep_alive, current_block, reserves),
            r matches Ok(swap) ==> after_exchange(
                old(self)@,
                final(self)@,
                *who,
                pool_id,
                buy_pair(get_pool_spec(old(self)@.pools, pool_id)->Ok_0, asset_id),
                swap.pay.amount,
                r,
            ),
            r is Err ==> final(self)@ == old(self)@,
    {
        let pool = self.get_pool_ensuring_sale_state(pool_id, current_block, SaleState::Ongoing)?;
        let other = if asset_id == pool.pair.base {
            pool.pair.quote
        } else {
            pool.pair.base
        };
        let pair = CurrencyPair::new(asset_id, other);
        if !(pair == pool.pair) {
            return Err(DispatchError::LiquidityBootstrapping(Error::PairMismatch));
        }
        let bo = if asset_id == pool.pair.base { reserves.base } else { reserves.quote };
        let bi = if other == pool.pair.base { reserves.base } else { reserves.quote };
        if amount == 0 || amount >= bo {
            return Err(DispatchError::LiquidityBootstrapping(Error::InvalidAmount));
        }
        let weights = pool.sale.current_weights(current_block)?;
        let (wo, wi) = if pair.base == pool.pair.base {
            weights
        } else {
            (weights.1, weights.0)
        };
        let price = match in_given_out(amount, bi, bo, wi.deconstruct(), wo.deconstruct()) {
            Ok(x) => x,
            Err(e) => return Err(DispatchError::Arithmetic(e)),
        };
        let pool_account = Self::account_id(&pool_id);
        let pay = Transfer {
            asset: pair.quote,
            source: Holder::Account(*who),
            dest: pool_account,
            amount: price,
            keep_alive,
        };
        let receive = Transfer {
            asset: pair.base,
            source: pool_account,
            dest: Holder::Account(*who),
            amount,
            keep_alive: false,
        };
        self.deposit_event(
            Event::Swapped {
                pool_id,
                who: *who,
                base_asset: pair.base,
                quote_asset: pair.quote,
                base_amount: amount,
                quote_amount: price,
            },
        );
        Ok(Swap { base_amount: amount, pay, receive })
    }

    /// `sell` of the pool interface: the trader `who` sells `amount` of
    /// `asset_id` to the pool for its other asset, with no minimum.
    pub fn amm_sell(
        &mut self,
        who: &AccountId,
        pool_id: PoolId,
        asset_id: CurrencyId,
        amount: Balance,
        keep_alive: bool,
        current_block: BlockNumber,
        reserves: PoolReserves,
    ) -> (r: Result<Swap, DispatchError>)
        ensures
            r == sell_spec(old(self)@.pools, *who, pool_id, asset_id, amount, keep_alive, current_block, reserves),
            r is Ok ==> after_exchange(
                old(self)@,
                final(self)@,
                *who,
                pool_id,
                sell_pair(get_pool_spec(old(self)@.pools, pool_id)->Ok_0, asset_id),
                amount,
                r,
            ),
            r is Err ==> final(self)@ == old(self)@,
    {
        let pool = self.get_pool(pool_id)?;
        let other = if asset_id == pool.pair.base {
            pool.pair.quote
        } else {
            pool.pair.base
        };
        let pair = CurrencyPair::new(other, asset_id);
        self.exchange(who, pool_id, pair, amount, 0, keep_alive, current_block, reserves)
    }

    /// The owner of pool `pool_id` deposits `base_amount` and `quote_amount`
    /// before the sale starts; returns the two transfers to carry out. No
    /// liquidity token is minted, so the minimum to mint is not used.
    pub fn add_liquidity(
        &self,
        who: &AccountId,
        pool_id: PoolId,
        base_amount: Balance,
        quote_amount: Balance,
        _min_mint_amount: Balance,
        keep_alive: bool,
        current_block: BlockNumber,
    ) -> (r: Result<(Transfer, Transfer), DispatchError>)
        ensures
            r == (match pool_in_state_spec(self@.pools, pool_id, current_block, SaleState::NotStarted) {
                Err(e) => Err(e),
                Ok(pool) => if pool.owner != *who {
                    Err(lbp_error(Error::MustBeOwner))
                } else if base_amount == 0 || quote_amount == 0 {
                    Err(lbp_error(Error::InvalidAmount))
                } else {
                    Ok(
                        (
                            Transfer {
                                asset: pool.pair.base,
                                source: Holder::Account(*who),
                                dest: Holder::Pool(pool_id),
                                amount: base_amount,
                                keep_alive,
                            },
                            Transfer {
                                asset: pool.pair.quote,
                                source: Holder::Account(*who),
                                dest: Holder::Pool(pool_id),
                                amount: quote_amount,
                                keep_alive,
                            },
                        ),
                    )
                },
            }),
    {
        let pool = self.get_pool_ensuring_sale_state(pool_id, current_block, SaleState::NotStarted)?;
        if pool.owner != *who {
            return Err(DispatchError::LiquidityBootstrapping(Error::MustBeOwner));
        }
        if base_amount == 0 || quote_amount == 0 {
            return Err(DispatchError::LiquidityBootstrapping(Error::InvalidAmount));
        }
        let pool_account = Self::account_id(&pool_id);
        Ok(
            (
                Transfer {
                    asset: pool.pair.base,
                    source: Holder::Account(*who),
                    dest: pool_account,
                    amount: base_amount,
                    keep_alive,
                },
                Transfer {
                    asset: pool.pair.quote,
                    source: Holder::Account(*who),
                    dest: pool_account,
                    amount: quote_amount,
                    keep_alive,
                },
            ),
        )
    }

    /// After the sale, the owner of pool `pool_id` takes back the pool
    /// account's whole balances `reserves` of both assets; the pool is deleted
    /// and a `PoolDeleted` event deposited. The three amounts are not used.
    pub fn remove_liquidity(
        &mut self,
        who: &AccountId,
        pool_id: PoolId,
        _lp_amount: Balance,
        _min_base_amount: Balance,
        _min_quote_amount: Balance,
        current_block: BlockNumber,
        reserves: PoolReserves,
    ) -> (r: Result<(Transfer, Transfer), DispatchError>)
        ensures
            match pool_in_state_spec(old(self)@.pools, pool_id, current_block, SaleState::Ended) {
                Err(e) => r == Err::<(Transfer, Transfer), DispatchError>(e) && final(self)@ == old(self)@,
                Ok(pool) => if pool.owner != *who {
                    r == Err::<(Transfer, Transfer), DispatchError>(lbp_error(Error::MustBeOwner))
                        && final(self)@ == old(self)@
                } else {
                    &&& r == Ok::<(Transfer, Transfer), DispatchError>(
                        (
                            Transfer {
                                asset: pool.pair.base,
                                source: Holder::Pool(pool_id),
                                dest: Holder::Account(*who),
                                amount: reserves.base,
                                keep_alive: false,
                            },
                            Transfer {
                                asset: pool.pair.quote,
                                source: Holder::Pool(pool_id),
                                dest: Holder::Account(*who),
                                amount: reserves.quote,
                                keep_alive: false,
                            },
                        ),
                    )
                    &&& final(self)@.pools == old(self)@.pools.remove(pool_id)
                    &&& final(self)@.pool_count == old(self)@.pool_count
                    &&& final(self)@.events == old(self)@.events.push(
                        Event::PoolDeleted {
                            pool_id,
                            owner: pool.owner,
                            base_amount: reserves.base,
                            quote_amount: reserves.quote,
                        },
                    )
                },
            },
    {
        let pool = self.get_pool_ensuring_sale_state(pool_id, current_block, SaleState::Ended)?;
        if pool.owner != *who {
            return Err(DispatchError::LiquidityBootstrapping(Error::MustBeOwner));
        }
        let pool_account = Self::account_id(&pool_id);
        let base_amount = reserves.base;
        let repatriate_base = Transfer {
            asset: pool.pair.base,
            source: pool_account,
            dest: Holder::Account(*who),
            amount: base_amount,
            keep_alive: false,
        };
        let quote_amount = reserves.quote;
        let repatriate_quote = Transfer {
            asset: pool.pair.quote,
            source: pool_account,
            dest: Holder::Account(*who),
            amount: quote_amount,
            keep_alive: false,
        };
        self.remove_pool(pool_id);
        self.deposit_event(Event::PoolDeleted { pool_id, owner: pool.owner, base_amount, quote_amount });
        Ok((repatriate_base, repatriate_quote))
    }

    /// Dispatchable: `amm_buy` for a signed `origin`.
    pub fn buy(
        &mut self,
        origin: Origin,
        pool_id: PoolId,
        asset_id: CurrencyId,
        amount: Balance,
        keep_alive: bool,
        current_block: BlockNumber,
        reserves: PoolReserves,
    ) -> (r: Result<Swap, DispatchError>)
        ensures
            match origin {
                Origin::Signed(who) => r == buy_spec(
                    old(self)@.pools,
                    who,
                    pool_id,
                    asset_id,
                    amount,
                    keep_alive,
                    current_block,
                    reserves,
                ),
                _ => r == Err::<Swap, DispatchError>(DispatchError::BadOrigin) && final(self)@ == old(self)@,
            },
            r matches Ok(swap) ==> (origin matches Origin::Signed(who) && after_exchange(
                old(self)@,
                final(self)@,
                who,
                pool_id,
                buy_pair(get_pool_spec(old(self)@.pools, pool_id)->Ok_0, asset_id),
                swap.pay.amount,
                r,
            )),
            r is Err ==> final(self)@ == old(self)@,
    {
        let who = ensure_signed(origin)?;
        self.amm_buy(&who, pool_id, asset_id, amount, keep_alive, current_block, reserves)
    }

    /// Dispatchable: `amm_sell` for a signed `origin`.
    pub fn sell(
        &mut self,
        origin: Origin,
        pool_id: PoolId,
        asset_id: CurrencyId,
        amount: Balance,
        keep_alive: bool,
        current_block: BlockNumber,
        reserves: PoolReserves,
    ) -> (r: Result<Swap, DispatchError>)
        ensures
            match origin {
                Origin::Signed(who) => r == sell_spec(
                    old(self)@.pools,
                    who,
                    pool_id,
                    asset_id,
                    amount,
                    keep_alive,
                    current_block,
                    reserves,
                ),
                _ => r == Err::<Swap, DispatchError>(DispatchError::BadOrigin),
            },
            r is Ok ==> (origin matches Origin::Signed(who) && after_exchange(
                old(self)@,
                final(self)@,
                who,
                pool_id,
                sell_pair(get_pool_spec(old(self)@.pools, pool_id)->Ok_0, asset_id),
                amount,
                r,
            )),
            r is Err ==> final(self)@ == old(self)@,
    {
        let who = ensure_signed(origin)?;
        self.amm_sell(&who, pool_id, asset_id, amount, keep_alive, current_block, reserves)
    }

    /// Dispatchable: a signed `origin` pays `quote_amount` of `pair.quote` for
    /// at least `min_receive` of `pair.base`.
    pub fn swap(
        &mut self,
        origin: Origin,
        pool_id: PoolId,
        pair: CurrencyPair,
        quote_amount: Balance,
        min_receive: Balance,
        keep_alive: bool,
        current_block: BlockNumber,
        reserves: PoolReserves,
    ) -> (r: Result<Swap, DispatchError>)
        ensures
            match origin {
                Origin::Signed(who) => r == exchange_spec(
                    old(self)@.pools,
                    who,
                    pool_id,
                    pair,
                    quote_amount,
                    min_receive,
                    keep_alive,
                    current_block,
                    reserves,
                ) && after_exchange(old(self)@, final(self)@, who, pool_id, pair, quote_amount, r),
                _ => r == Err::<Swap, DispatchError>(DispatchError::BadOrigin) && final(self)@ == old(self)@,
            },
    {
        let who = ensure_signed(origin)?;
        self.exchange(&who, pool_id, pair, quote_amount, min_receive, keep_alive, current_block, reserves)
    }
}

// ---------------------------------------------------------------------------
// Laws of the pallet
// ---------------------------------------------------------------------------

/// A pool that was just created is found under the id it was given.
pub proof fn lemma_created_pool_is_found(v: PalletView, pool: Pool)
    ensures
        get_pool_spec(v.pools.insert(v.pool_count, pool), v.pool_count) == Ok::<Pool, DispatchError>(pool),
{
}

/// A pool that was removed is no longer found.
pub proof fn lemma_removed_pool_is_gone(v: PalletView, pool_id: PoolId)
    ensures
        get_pool_spec(v.pools.remove(pool_id), pool_id) == Err::<Pool, DispatchError>(
            lbp_error(Error::PoolNotFound),
        ),
{
}

/// An exchange never pays out less than the minimum the trader asked for, and
/// it moves exactly the quote amount from the trader to the pool and the base
/// amount from the pool to the trader.
pub proof fn lemma_exchange_respects_minimum(
    pools: Map<PoolId, Pool>,
    who: AccountId,
    pool_id: PoolId,
    pair: CurrencyPair,
    quote_amount: Balance,
    min_receive: Balance,
    keep_alive: bool,
    block: BlockNumber,
    reserves: PoolReserves,
)
    ensures
        exchange_spec(pools, who, pool_id, pair, quote_amount, min_receive, keep_alive, block, reserves)
            matches Ok(swap) ==> {
            &&& swap.base_amount >= min_receive
            &&& swap.pay.amount == quote_amount && swap.pay.asset == pair.quote
            &&& swap.pay.source == Holder::Account(who) && swap.pay.dest == Holder::Pool(pool_id)
            &&& swap.receive.amount == swap.base_amount && swap.receive.asset == pair.base
            &&& swap.receive.source == Holder::Pool(pool_id) && swap.receive.dest == Holder::Account(who)
        },
{
}

/// A buy hands the trader exactly the amount of the asset bought, from the
/// pool, and takes the pool's other asset from the trader.
pub proof fn lemma_buy_delivers_the_asset(
    pools: Map<PoolId, Pool>,
    who: AccountId,
    pool_id: PoolId,
    asset_id: CurrencyId,
    amount: Balance,
    keep_alive: bool,
    block: BlockNumber,
    reserves: PoolReserves,
)
    requires
        pools.contains_key(pool_id) ==> pool_well_formed(pools[pool_id]),
    ensures
        buy_spec(pools, who, pool_id, asset_id, amount, keep_alive, block, reserves) matches Ok(swap) ==> {
            &&& swap.receive.asset == asset_id && swap.receive.amount == amount
            &&& swap.receive.source == Holder::Pool(pool_id) && swap.receive.dest == Holder::Account(who)
            &&& swap.pay.asset != asset_id
            &&& swap.pay.source == Holder::Account(who) && swap.pay.dest == Holder::Pool(pool_id)
        },
{
}

/// A sell takes exactly the amount of the asset sold from the trader, into
/// the pool, and pays the trader in the pool's other asset.
pub proof fn lemma_sell_takes_the_asset(
    pools: Map<PoolId, Pool>,
    who: AccountId,
    pool_id: PoolId,
    asset_id: CurrencyId,
    amount: Balance,
    keep_alive: bool,
    block: BlockNumber,
    reserves: PoolReserves,
)
    requires
        pools.contains_key(pool_id) ==> pool_well_formed(pools[pool_id]),
    ensures
        sell_spec(pools, who, pool_id, asset_id, amount, keep_alive, block, reserves) matches Ok(swap) ==> {
            &&& swap.pay.asset == asset_id && swap.pay.amount == amount
            &&& swap.pay.source == Holder::Account(who) && swap.pay.dest == Holder::Pool(pool_id)
            &&& swap.receive.asset != asset_id
            &&& swap.receive.source == Holder::Pool(pool_id) && swap.receive.dest == Holder::Account(who)
        },
{
}

/// Outside the sale period a pool does not trade.
pub proof fn lemma_no_exchange_outside_sale(
    pools: Map<PoolId, Pool>,
    pool_id: PoolId,
    pair: CurrencyPair,
    block: BlockNumber,
    quote_amount: Balance,
    reserves: PoolReserves,
)
    requires
        pools.contains_key(pool_id),
        sale_state(pools[pool_id].sale, block) != SaleState::Ongoing,
    ensures
        exchange_value_spec(pools, pool_id, pair, block, quote_amount, reserves) == Err::<
            Balance,
            DispatchError,
        >(lbp_error(Error::InvalidSaleState)),
{
}

/// A pool trades only its own pair, in either direction.
pub proof fn lemma_exchange_needs_pool_pair(
    pools: Map<PoolId, Pool>,
    pool_id: PoolId,
    pair: CurrencyPair,
    block: BlockNumber,
    quote_amount: Balance,
    reserves: PoolReserves,
)
    requires
        pools.contains_key(pool_id),
        sale_state(pools[pool_id].sale, block) == SaleState::Ongoing,
        !same_pair(pair, pools[pool_id].pair),
    ensures
        exchange_value_spec(pools, pool_id, pair, block, quote_amount, reserves) == Err::<
            Balance,
            DispatchError,
        >(lbp_error(Error::PairMismatch)),
{
}

/// The sale goes through its states in order: not started before its start,
/// ongoing in between, ended from its end on.
pub proof fn lemma_sale_state_in_order(sale: Sale, b1: BlockNumber, b2: BlockNumber)
    requires
        b1 <= b2,
    ensures
        sale_state(sale, b1) == SaleState::Ended ==> sale_state(sale, b2) == SaleState::Ended,
        sale_state(sale, b2) == SaleState::NotStarted ==> sale_state(sale, b1) == SaleState::NotStarted,
{
}

/// A sale that is well ordered, no longer than the maximum duration, with
/// weights within the limits and two distinct assets, is accepted.
pub proof fn lemma_sale_within_limits_is_accepted(pool: Pool, limits: PoolLimits)
    requires
        pool.pair.base != pool.pair.quote,
        pool.sale.start < pool.sale.end,
        pool.sale.end - pool.sale.start <= limits.max_sale_duration,
        pool.sale.final_weight@ <= pool.sale.initial_weight@,
        pool.sale.initial_weight@ <= limits.max_initial_weight@,
        limits.min_final_weight@ <= pool.sale.final_weight@,
    ensures
        pool_validation_error(pool, limits) is None,
{
}

/// A pool is accepted exactly when its assets are distinct, its sale ends
/// after it starts and lasts no longer than the maximum duration, and its
/// weights do not rise and stay within the limits; a well-ordered sale of two
/// distinct assets that lasts longer than the maximum is refused for its
/// duration.
pub proof fn lemma_validation_accepts_exactly_the_limits(pool: Pool, limits: PoolLimits)
    ensures
        pool_validation_error(pool, limits) is None <==> {
            &&& pool.pair.base != pool.pair.quote
            &&& pool.sale.start < pool.sale.end
            &&& pool.sale.end - pool.sale.start <= limits.max_sale_duration
            &&& pool.sale.final_weight@ <= pool.sale.initial_weight@
            &&& pool.sale.initial_weight@ <= limits.max_initial_weight@
            &&& limits.min_final_weight@ <= pool.sale.final_weight@
        },
        pool.pair.base != pool.pair.quote && pool.sale.start < pool.sale.end && pool.sale.end
            - pool.sale.start > limits.max_sale_duration ==> pool_validation_error(pool, limits) == Some(
            "Sale duration must not exceed maximum duration.",
        ),
{
}

/// Validation looks at the sale's period only through its length: moving the
/// start and the end by the same number of blocks never changes whether, or
/// why, a pool is refused.
pub proof fn lemma_validation_ignores_when_the_sale_runs(pool: Pool, limits: PoolLimits, shift: BlockNumber)
    requires
        pool.sale.start + shift <= BlockNumber::MAX,
        pool.sale.end + shift <= BlockNumber::MAX,
    ensures
        pool_validation_error(pool, limits) == pool_validation_error(
            Pool {
                sale: Sale {
                    start: (pool.sale.start + shift) as BlockNumber,
                    end: (pool.sale.end + shift) as BlockNumber,
                    ..pool.sale
                },
                ..pool
            },
            limits,
        ),
{
}

/// The spot price of `pair.base` in `pair.quote` is the balance of the asset
/// paid in per unit of its weight, divided by the balance of the asset priced
/// per unit of its weight: `(bi / wi) / (bo / wo)`, where `bi` and `wi` are
/// the pool account's balance and the current weight of `pair.quote`, `bo`
/// and `wo` those of `pair.base`, weights taken as fractions of a whole; each
/// operation is `rust_decimal`'s, and the price of one unit is truncated.
pub proof fn lemma_spot_price_is_balance_per_weight_ratio(
    pools: Map<PoolId, Pool>,
    pool_id: PoolId,
    pair: CurrencyPair,
    block: BlockNumber,
    reserves: PoolReserves,
    unit: u128,
)
    requires
        pools.contains_key(pool_id) ==> pool_well_formed(pools[pool_id]),
    ensures
        spot_price_value_spec(pools, pool_id, pair, block, reserves, Ok(unit)) matches Ok(price) ==> {
            let pool = pools[pool_id];
            let weights = current_weights_spec(pool.sale, block)->Ok_0;
            let wi = if pair.quote == pool.pair.base { weights.0 } else { weights.1 };
            let wo = if pair.base == pool.pair.base { weights.0 } else { weights.1 };
            let bi = if pair.quote == pool.pair.base { reserves.base } else { reserves.quote };
            let bo = if pair.base == pool.pair.base { reserves.base } else { reserves.quote };
            let whole = Dec::whole(1_000_000);
            let wi_fraction = decimal_checked_div(Dec::whole((wi as u32) as int), whole)->Some_0;
            let wo_fraction = decimal_checked_div(Dec::whole((wo as u32) as int), whole)->Some_0;
            let in_per_weight = decimal_checked_div(Dec::whole(bi as int), wi_fraction)->Some_0;
            let out_per_weight = decimal_checked_div(Dec::whole(bo as int), wo_fraction)->Some_0;
            let spot = decimal_checked_div(in_per_weight, out_per_weight)->Some_0;
            dec_to_u128(decimal_checked_mul(spot, Dec::whole(unit as int))->Some_0) == Ok::<
                u128,
                ArithmeticError,
            >(price)
        },
{
}

/// The amount out of an exchange raises `bi / (bi + ai)` to the power
/// `wi / wo`, the weight of the asset paid in over that of the asset paid
/// out: `bo * (1 - (bi / (bi + ai)) ^ (wi / wo))`, truncated.
pub proof fn lemma_exchange_raises_to_in_over_out_weight(ai: u128, bi: u128, bo: u128, wi: u32, wo: u32)
    ensures
        out_given_in_spec(ai, bi, bo, wi, wo) matches Ok(ao) ==> {
            let power = decimal_checked_div(Dec::whole(wi as int), Dec::whole(wo as int))->Some_0;
            let sum = crate::decimal::decimal_checked_add(Dec::whole(bi as int), Dec::whole(ai as int))->Some_0;
            let ratio = decimal_checked_div(Dec::whole(bi as int), sum)->Some_0;
            let kept = decimal_checked_sub(Dec::whole(1), decimal_checked_powd(ratio, power)->Some_0)->Some_0;
            dec_to_u128(decimal_checked_mul(Dec::whole(bo as int), kept)->Some_0) == Ok::<u128, ArithmeticError>(ao)
        },
{
}

/// The price of buying `ao` raises `bo / (bo - ao)` to the power `wo / wi`,
/// the weight of the asset bought over that of the asset paid: the inverse of
/// the exchange's power for the same pool. The price is
/// `bi * ((bo / (bo - ao)) ^ (wo / wi) - 1)` rounded up: its truncation when
/// nothing is cut off, one more otherwise.
pub proof fn lemma_buy_price_raises_to_out_over_in_weight(ao: u128, bi: u128, bo: u128, wi: u32, wo: u32)
    ensures
        in_given_out_spec(ao, bi, bo, wi, wo) matches Ok(ai) ==> {
            let power = decimal_checked_div(Dec::whole(wo as int), Dec::whole(wi as int))->Some_0;
            let remaining = decimal_checked_sub(Dec::whole(bo as int), Dec::whole(ao as int))->Some_0;
            let ratio = decimal_checked_div(Dec::whole(bo as int), remaining)->Some_0;
            let growth = decimal_checked_sub(decimal_checked_powd(ratio, power)->Some_0, Dec::whole(1))->Some_0;
            let cost = decimal_checked_mul(Dec::whole(bi as int), growth)->Some_0;
            let truncated = dec_to_u128(cost)->Ok_0;
            let cut_off = decimal_checked_sub(cost, Dec::whole(truncated as int))->Some_0;
            &&& dec_to_u128(cost) is Ok
            &&& ai == (if cut_off.mantissa == 0 { truncated as int } else { truncated + 1 })
        },
{
}

/// An exchange of `quote_amount` of `pair.quote` for `pair.base` pays out what
/// the exchange formula gives with the pool account's balance and current
/// weight of `pair.quote` as those of the asset in, and those of `pair.base`
/// as those of the asset out.
pub proof fn lemma_exchange_prices_with_the_pools_balances(
    pools: Map<PoolId, Pool>,
    pool_id: PoolId,
    pair: CurrencyPair,
    block: BlockNumber,
    quote_amount: Balance,
    reserves: PoolReserves,
)
    requires
        pools.contains_key(pool_id) ==> pool_well_formed(pools[pool_id]),
    ensures
        exchange_value_spec(pools, pool_id, pair, block, quote_amount, reserves) matches Ok(out) ==> {
            let pool = pools[pool_id];
            let weights = current_weights_spec(pool.sale, block)->Ok_0;
            let pays_base = pair.quote == pool.pair.base;
            let (b_in, b_out) = if pays_base {
                (reserves.base, reserves.quote)
            } else {
                (reserves.quote, reserves.base)
            };
            let (w_in, w_out) = if pays_base { (weights.0, weights.1) } else { (weights.1, weights.0) };
            out_given_in_spec(quote_amount, b_in, b_out, w_in as u32, w_out as u32) == Ok::<u128, ArithmeticError>(out)
        },
{
}

/// A sell of `amount` of `asset_id` pays out what the exchange formula gives
/// for `amount` paid in, with the pool account's balance and current weight of
/// `asset_id` as those of the asset in, and those of the pool's other asset as
/// those of the asset out.
pub proof fn lemma_sell_prices_with_the_pools_balances(
    pools: Map<PoolId, Pool>,
    who: AccountId,
    pool_id: PoolId,
    asset_id: CurrencyId,
    amount: Balance,
    keep_alive: bool,
    block: BlockNumber,
    reserves: PoolReserves,
)
    requires
        pools.contains_key(pool_id) ==> pool_well_formed(pools[pool_id]),
    ensures
        sell_spec(pools, who, pool_id, asset_id, amount, keep_alive, block, reserves) matches Ok(swap) ==> {
            let pool = pools[pool_id];
            let weights = current_weights_spec(pool.sale, block)->Ok_0;
            let sold_is_base = asset_id == pool.pair.base;
            let (b_in, b_out) = if sold_is_base {
                (reserves.base, reserves.quote)
            } else {
                (reserves.quote, reserves.base)
            };
            let (w_in, w_out) = if sold_is_base { (weights.0, weights.1) } else { (weights.1, weights.0) };
            out_given_in_spec(amount, b_in, b_out, w_in as u32, w_out as u32) == Ok::<u128, ArithmeticError>(
                swap.base_amount,
            )
        },
{
}

/// A buy of `amount` of `asset_id` costs what the in-given-out formula asks,
/// with the pool account's balance and current weight of the pool's other
/// asset as those of the asset in, and those of `asset_id` as those of the
/// asset out.
pub proof fn lemma_buy_prices_with_the_pools_balances(
    pools: Map<PoolId, Pool>,
    who: AccountId,
    pool_id: PoolId,
    asset_id: CurrencyId,
    amount: Balance,
    keep_alive: bool,
    block: BlockNumber,
    reserves: PoolReserves,
)
    requires
        pools.contains_key(pool_id) ==> pool_well_formed(pools[pool_id]),
    ensures
        buy_spec(pools, who, pool_id, asset_id, amount, keep_alive, block, reserves) matches Ok(swap) ==> {
            let pool = pools[pool_id];
            let weights = current_weights_spec(pool.sale, block)->Ok_0;
            let bought_is_base = asset_id == pool.pair.base;
            let (b_in, b_out) = if bought_is_base {
                (reserves.quote, reserves.base)
            } else {
                (reserves.base, reserves.quote)
            };
            let (w_in, w_out) = if bought_is_base { (weights.1, weights.0) } else { (weights.0, weights.1) };
            in_given_out_spec(amount, b_in, b_out, w_in as u32, w_out as u32) == Ok::<u128, ArithmeticError>(
                swap.pay.amount,
            )
        },
{
}

} // verus!
